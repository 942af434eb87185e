use vstd::prelude::*;

verus! {

/// A calendar date, the granularity at which the ledger groups and filters.
/// Ordering is lexicographic on (il, ay, gun).
#[derive(Clone, Copy, PartialEq, Eq, Structural, Debug, Hash)]
pub struct Tarix {
    /// year
    pub il: i64,
    /// month, 1 to 12
    pub ay: i64,
    /// day of month, 1 to 31
    pub gun: i64,
}

impl Tarix {
    /// A date the calendar can hold.
    pub open spec fn kecerli(self) -> bool {
        0 <= self.il <= 9999 && 1 <= self.ay <= 12 && 1 <= self.gun <= 31
    }

    /// `self` is on or before `o`, comparing year, then month, then day.
    pub open spec fn evvel_ve_ya_eyni(self, o: Tarix) -> bool {
        if self.il != o.il {
            self.il < o.il
        } else if self.ay != o.ay {
            self.ay < o.ay
        } else {
            self.gun <= o.gun
        }
    }

    /// `self` falls in the inclusive range `[asagi, yuxari]`.
    pub open spec fn aralikda(self, asagi: Tarix, yuxari: Tarix) -> bool {
        asagi.evvel_ve_ya_eyni(self) && self.evvel_ve_ya_eyni(yuxari)
    }

    /// Executable comparison: `self` on or before `o`.
    pub fn evvel_ve_ya_eynidir(&self, o: &Tarix) -> (r: bool)
        ensures
            r == self.evvel_ve_ya_eyni(*o),
    {
        if self.il != o.il {
            self.il < o.il
        } else if self.ay != o.ay {
            self.ay < o.ay
        } else {
            self.gun <= o.gun
        }
    }

    /// Executable range test for the inclusive range `[asagi, yuxari]`.
    pub fn aralikdadir(&self, asagi: &Tarix, yuxari: &Tarix) -> (r: bool)
        ensures
            r == self.aralikda(*asagi, *yuxari),
    {
        asagi.evvel_ve_ya_eynidir(self) && self.evvel_ve_ya_eynidir(yuxari)
    }

    /// Same calendar day.
    pub fn eyni_gundur(&self, o: &Tarix) -> (r: bool)
        ensures
            r == (*self == *o),
    {
        self.il == o.il && self.ay == o.ay && self.gun == o.gun
    }

    /// Same calendar month.
    pub fn eyni_aydir(&self, il: i64, ay: i64) -> (r: bool)
        ensures
            r == (self.il == il && self.ay == ay),
    {
        self.il == il && self.ay == ay
    }

    /// The first day of this date's month.
    pub fn ayin_evveli(&self) -> (r: Tarix)
        ensures
            r == (Tarix { il: self.il, ay: self.ay, gun: 1 }),
    {
        Tarix { il: self.il, ay: self.ay, gun: 1 }
    }
}

} // verus!

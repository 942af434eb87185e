use vstd::prelude::*;
use crate::model::{KateqoriyaSetri, OlcuSetri, RengSetri};
use crate::store::Store;
use crate::xeta::Xeta;

verus! {

/// A size as shown to callers.
#[derive(Clone, PartialEq, Eq, Debug)]
pub struct Size {
    pub id: i64,
    pub olcu: String,
}

/// Request to record a size.
#[derive(Clone, PartialEq, Eq, Debug)]
pub struct CreateSize {
    pub olcu: String,
}

/// A category as shown to callers.
#[derive(Clone, PartialEq, Eq, Debug)]
pub struct Category {
    pub id: i64,
    pub ad: String,
}

/// Request to record a category.
#[derive(Clone, PartialEq, Eq, Debug)]
pub struct CreateCategory {
    pub ad: String,
}

/// A color as shown to callers.
#[derive(Clone, PartialEq, Eq, Debug)]
pub struct Color {
    pub id: i64,
    pub ad: String,
    pub kod: Option<String>,
}

/// Request to record a color.
#[derive(Clone, PartialEq, Eq, Debug)]
pub struct CreateColor {
    pub ad: String,
    pub kod: Option<String>,
}

/// A size with this label is already recorded.
pub open spec fn olcu_adi_movcud(s: Seq<OlcuSetri>, ad: Seq<char>) -> bool {
    exists|i: int| 0 <= i < s.len() && (#[trigger] s[i]).olcu@ == ad
}

/// A category with this name is already recorded.
pub open spec fn kateqoriya_adi_movcud(s: Seq<KateqoriyaSetri>, ad: Seq<char>) -> bool {
    exists|i: int| 0 <= i < s.len() && (#[trigger] s[i]).ad@ == ad
}

/// A color with this name is already recorded.
pub open spec fn reng_adi_movcud(s: Seq<RengSetri>, ad: Seq<char>) -> bool {
    exists|i: int| 0 <= i < s.len() && (#[trigger] s[i]).ad@ == ad
}

impl Store {
    /// Record a size; a duplicate label is the recorded conflict.
    pub fn olcu_elave_et(&mut self, olcu: CreateSize) -> (r: Result<Size, Xeta>)
        requires
            old(self).kecerli(),
        ensures
            final(self).kecerli(),
            r is Err ==> Store::butov_eyni(*final(self), *old(self)),
            r == Err::<Size, Xeta>(Xeta::AdMovcuddur) <==> olcu_adi_movcud(
                old(self).olculer@,
                olcu.olcu@,
            ),
            r is Ok <==> (!olcu_adi_movcud(old(self).olculer@, olcu.olcu@) && old(
                self,
            ).novbeti_olcu_id < i64::MAX),
            r is Ok ==> final(self).olculer@ == old(self).olculer@.push(
                OlcuSetri { id: old(self).novbeti_olcu_id, olcu: olcu.olcu },
            ),
            r is Ok ==> final(self).novbeti_olcu_id == old(self).novbeti_olcu_id + 1,
            r matches Ok(g) ==> g.id == old(self).novbeti_olcu_id && g.olcu@ == olcu.olcu@,
            Store::senedler_eyni(*final(self), *old(self)),
            Store::stok_veziyyeti_eyni(*final(self), *old(self)),
            final(self).mehsullar@ == old(self).mehsullar@,
            final(self).musteriler@ == old(self).musteriler@,
            final(self).kateqoriyalar@ == old(self).kateqoriyalar@,
            final(self).rengler@ == old(self).rengler@,
            final(self).istifadeciler@ == old(self).istifadeciler@,
    {
        let mut i: usize = 0;
        while i < self.olculer.len()
            invariant
                0 <= i <= self.olculer@.len(),
                forall|j: int| 0 <= j < i ==> (#[trigger] self.olculer@[j]).olcu@ != olcu.olcu@,
                self.kecerli(),
                Store::butov_eyni(*self, *old(self)),
            decreases self.olculer@.len() - i,
        {
            if self.olculer[i].olcu.eq(&olcu.olcu) {
                return Err(Xeta::AdMovcuddur);
            }
            i = i + 1;
        }
        if self.novbeti_olcu_id == i64::MAX {
            return Err(Xeta::HeddenArtiq);
        }
        let id = self.novbeti_olcu_id;
        let g = Size { id, olcu: olcu.olcu.clone() };
        self.olculer.push(OlcuSetri { id, olcu: olcu.olcu });
        self.novbeti_olcu_id = id + 1;
        Ok(g)
    }

    /// Record a category; a duplicate name is the recorded conflict.
    pub fn kateqoriya_elave_et(&mut self, kateqoriya: CreateCategory) -> (r: Result<
        Category,
        Xeta,
    >)
        requires
            old(self).kecerli(),
        ensures
            final(self).kecerli(),
            r is Err ==> Store::butov_eyni(*final(self), *old(self)),
            r == Err::<Category, Xeta>(Xeta::AdMovcuddur) <==> kateqoriya_adi_movcud(
                old(self).kateqoriyalar@,
                kateqoriya.ad@,
            ),
            r is Ok <==> (!kateqoriya_adi_movcud(old(self).kateqoriyalar@, kateqoriya.ad@) && old(
                self,
            ).novbeti_kateqoriya_id < i64::MAX),
            r is Ok ==> final(self).kateqoriyalar@ == old(self).kateqoriyalar@.push(
                KateqoriyaSetri { id: old(self).novbeti_kateqoriya_id, ad: kateqoriya.ad },
            ),
            r is Ok ==> final(self).novbeti_kateqoriya_id == old(self).novbeti_kateqoriya_id + 1,
            r matches Ok(g) ==> g.id == old(self).novbeti_kateqoriya_id && g.ad@ == kateqoriya.ad@,
            Store::senedler_eyni(*final(self), *old(self)),
            Store::stok_veziyyeti_eyni(*final(self), *old(self)),
            final(self).mehsullar@ == old(self).mehsullar@,
            final(self).musteriler@ == old(self).musteriler@,
            final(self).olculer@ == old(self).olculer@,
            final(self).rengler@ == old(self).rengler@,
            final(self).istifadeciler@ == old(self).istifadeciler@,
    {
        let mut i: usize = 0;
        while i < self.kateqoriyalar.len()
            invariant
                0 <= i <= self.kateqoriyalar@.len(),
                forall|j: int|
                    0 <= j < i ==> (#[trigger] self.kateqoriyalar@[j]).ad@ != kateqoriya.ad@,
                self.kecerli(),
                Store::butov_eyni(*self, *old(self)),
            decreases self.kateqoriyalar@.len() - i,
        {
            if self.kateqoriyalar[i].ad.eq(&kateqoriya.ad) {
                return Err(Xeta::AdMovcuddur);
            }
            i = i + 1;
        }
        if self.novbeti_kateqoriya_id == i64::MAX {
            return Err(Xeta::HeddenArtiq);
        }
        let id = self.novbeti_kateqoriya_id;
        let g = Category { id, ad: kateqoriya.ad.clone() };
        self.kateqoriyalar.push(KateqoriyaSetri { id, ad: kateqoriya.ad });
        self.novbeti_kateqoriya_id = id + 1;
        Ok(g)
    }

    /// Record a color; a duplicate name is the recorded conflict.
    pub fn reng_elave_et(&mut self, reng: CreateColor) -> (r: Result<Color, Xeta>)
        requires
            old(self).kecerli(),
        ensures
            final(self).kecerli(),
            r is Err ==> Store::butov_eyni(*final(self), *old(self)),
            r == Err::<Color, Xeta>(Xeta::AdMovcuddur) <==> reng_adi_movcud(
                old(self).rengler@,
                reng.ad@,
            ),
            r is Ok <==> (!reng_adi_movcud(old(self).rengler@, reng.ad@) && old(
                self,
            ).novbeti_reng_id < i64::MAX),
            r is Ok ==> final(self).rengler@ == old(self).rengler@.push(
                RengSetri { id: old(self).novbeti_reng_id, ad: reng.ad, kod: reng.kod },
            ),
            r is Ok ==> final(self).novbeti_reng_id == old(self).novbeti_reng_id + 1,
            r matches Ok(g) ==> g.id == old(self).novbeti_reng_id && g.ad@ == reng.ad@,
            Store::senedler_eyni(*final(self), *old(self)),
            Store::stok_veziyyeti_eyni(*final(self), *old(self)),
            final(self).mehsullar@ == old(self).mehsullar@,
            final(self).musteriler@ == old(self).musteriler@,
            final(self).olculer@ == old(self).olculer@,
            final(self).kateqoriyalar@ == old(self).kateqoriyalar@,
            final(self).istifadeciler@ == old(self).istifadeciler@,
    {
        let mut i: usize = 0;
        while i < self.rengler.len()
            invariant
                0 <= i <= self.rengler@.len(),
                forall|j: int| 0 <= j < i ==> (#[trigger] self.rengler@[j]).ad@ != reng.ad@,
                self.kecerli(),
                Store::butov_eyni(*self, *old(self)),
            decreases self.rengler@.len() - i,
        {
            if self.rengler[i].ad.eq(&reng.ad) {
                return Err(Xeta::AdMovcuddur);
            }
            i = i + 1;
        }
        if self.novbeti_reng_id == i64::MAX {
            return Err(Xeta::HeddenArtiq);
        }
        let id = self.novbeti_reng_id;
        let g = Color { id, ad: reng.ad.clone(), kod: reng.kod.clone() };
        self.rengler.push(RengSetri { id, ad: reng.ad, kod: reng.kod });
        self.novbeti_reng_id = id + 1;
        Ok(g)
    }
}

} // verus!

use vstd::prelude::*;
use crate::model::MusteriSetri;
use crate::store::{musteri_indeksi, musteri_movcud, Store};
use crate::tarix::Tarix;
use crate::xeta::Xeta;

verus! {

/// A customer as shown to callers. `baslangic_borcu` is the opening
/// debt in qepik.
#[derive(Clone, PartialEq, Eq, Debug)]
pub struct Customer {
    pub id: i64,
    pub ad: String,
    pub soyad: String,
    pub telefon: String,
    pub qeyd: Option<String>,
    pub baslangic_borcu: i64,
    pub tarix: Tarix,
}

/// Request to record a customer; a missing opening debt counts as zero.
#[derive(Clone, PartialEq, Eq, Debug)]
pub struct CreateCustomer {
    pub ad: String,
    pub soyad: String,
    pub telefon: String,
    pub qeyd: Option<String>,
    pub baslangic_borcu: Option<i64>,
}

/// A partial customer update: `Some` overwrites the field, `None`
/// keeps it.
#[derive(Clone, PartialEq, Eq, Debug)]
pub struct UpdateCustomer {
    pub ad: Option<String>,
    pub soyad: Option<String>,
    pub telefon: Option<String>,
    pub qeyd: Option<String>,
}

/// A customer with this phone number is already recorded, other than
/// the row with identity `menfi` (pass -1 to test all rows).
pub open spec fn telefon_movcud(s: Seq<MusteriSetri>, telefon: Seq<char>, menfi: int) -> bool {
    exists|i: int|
        0 <= i < s.len() && (#[trigger] s[i]).telefon@ == telefon && s[i].id != menfi
}

/// `g` shows exactly the stored customer row `setir`.
pub open spec fn musteri_gorunusu_uygun(setir: MusteriSetri, g: Customer) -> bool {
    &&& g.id == setir.id
    &&& g.ad@ == setir.ad@
    &&& g.soyad@ == setir.soyad@
    &&& g.telefon@ == setir.telefon@
    &&& g.qeyd == setir.qeyd
    &&& g.baslangic_borcu == setir.baslangic_borcu
    &&& g.tarix == setir.tarix
}

impl Store {
    /// A customer with this phone number is already recorded, other
    /// than the row with identity `menfi`.
    pub fn telefon_movcuddur(&self, telefon: &String, menfi: i64) -> (r: bool)
        ensures
            r == telefon_movcud(self.musteriler@, telefon@, menfi as int),
    {
        let mut i: usize = 0;
        while i < self.musteriler.len()
            invariant
                0 <= i <= self.musteriler@.len(),
                forall|j: int|
                    0 <= j < i ==> !((#[trigger] self.musteriler@[j]).telefon@ == telefon@
                        && self.musteriler@[j].id != menfi),
            decreases self.musteriler@.len() - i,
        {
            if self.musteriler[i].telefon.eq(telefon) && self.musteriler[i].id != menfi {
                return true;
            }
            i = i + 1;
        }
        false
    }

    /// Resolve one stored customer row into its caller-facing view.
    pub fn musteri_gorunusu(&self, setir: &MusteriSetri) -> (g: Customer)
        ensures
            musteri_gorunusu_uygun(*setir, g),
    {
        Customer {
            id: setir.id,
            ad: setir.ad.clone(),
            soyad: setir.soyad.clone(),
            telefon: setir.telefon.clone(),
            qeyd: setir.qeyd.clone(),
            baslangic_borcu: setir.baslangic_borcu,
            tarix: setir.tarix,
        }
    }

    /// Record a customer. A duplicate phone number is the recorded
    /// conflict; on any failure the store is left untouched.
    pub fn musteri_elave_et(&mut self, musteri: CreateCustomer, tarix: Tarix) -> (r: Result<
        Customer,
        Xeta,
    >)
        requires
            old(self).kecerli(),
        ensures
            final(self).kecerli(),
            Store::senedler_eyni(*final(self), *old(self)),
            Store::stok_veziyyeti_eyni(*final(self), *old(self)),
            final(self).mehsullar@ == old(self).mehsullar@,
            final(self).olculer@ == old(self).olculer@,
            final(self).kateqoriyalar@ == old(self).kateqoriyalar@,
            final(self).rengler@ == old(self).rengler@,
            final(self).istifadeciler@ == old(self).istifadeciler@,
            final(self).parametrler == old(self).parametrler,
            r is Err ==> Store::butov_eyni(*final(self), *old(self)),
            r == Err::<Customer, Xeta>(Xeta::TelefonMovcuddur) <==> telefon_movcud(
                old(self).musteriler@,
                musteri.telefon@,
                -1,
            ),
            r == Err::<Customer, Xeta>(Xeta::HeddenArtiq) <==> (!telefon_movcud(
                old(self).musteriler@,
                musteri.telefon@,
                -1,
            ) && old(self).novbeti_musteri_id == i64::MAX),
            r is Ok <==> (!telefon_movcud(old(self).musteriler@, musteri.telefon@, -1) && old(
                self,
            ).novbeti_musteri_id < i64::MAX),
            r is Ok ==> final(self).musteriler@ == old(self).musteriler@.push(
                MusteriSetri {
                    id: old(self).novbeti_musteri_id,
                    ad: musteri.ad,
                    soyad: musteri.soyad,
                    telefon: musteri.telefon,
                    qeyd: musteri.qeyd,
                    baslangic_borcu: match musteri.baslangic_borcu {
                        Some(b) => b,
                        None => 0,
                    },
                    tarix,
                },
            ),
            r is Ok ==> final(self).novbeti_musteri_id == old(self).novbeti_musteri_id + 1,
            r matches Ok(g) ==> musteri_gorunusu_uygun(final(self).musteriler@.last(), g),
    {
        if self.telefon_movcuddur(&musteri.telefon, -1) {
            return Err(Xeta::TelefonMovcuddur);
        }
        if self.novbeti_musteri_id == i64::MAX {
            return Err(Xeta::HeddenArtiq);
        }
        let id = self.novbeti_musteri_id;
        let borc: i64 = match musteri.baslangic_borcu {
            Some(b) => b,
            None => 0,
        };
        self.musteriler.push(
            MusteriSetri {
                id,
                ad: musteri.ad,
                soyad: musteri.soyad,
                telefon: musteri.telefon,
                qeyd: musteri.qeyd,
                baslangic_borcu: borc,
                tarix,
            },
        );
        self.novbeti_musteri_id = id + 1;
        let son = self.musteriler.len() - 1;
        let g = self.musteri_gorunusu(&self.musteriler[son]);
        Ok(g)
    }

    /// Update a customer in place: each named field overwrites the
    /// stored one, the rest keep their values. A phone number already
    /// used by another customer is the recorded conflict.
    pub fn musteri_yenile(&mut self, id: i64, musteri: UpdateCustomer) -> (r: Result<
        Customer,
        Xeta,
    >)
        requires
            old(self).kecerli(),
        ensures
            final(self).kecerli(),
            Store::senedler_eyni(*final(self), *old(self)),
            Store::stok_veziyyeti_eyni(*final(self), *old(self)),
            final(self).mehsullar@ == old(self).mehsullar@,
            final(self).olculer@ == old(self).olculer@,
            final(self).kateqoriyalar@ == old(self).kateqoriyalar@,
            final(self).rengler@ == old(self).rengler@,
            final(self).istifadeciler@ == old(self).istifadeciler@,
            final(self).parametrler == old(self).parametrler,
            final(self).novbeti_musteri_id == old(self).novbeti_musteri_id,
            r is Err ==> Store::butov_eyni(*final(self), *old(self)),
            r == Err::<Customer, Xeta>(Xeta::MusteriTapilmadi) <==> !musteri_movcud(
                old(self).musteriler@,
                id as int,
            ),
            r == Err::<Customer, Xeta>(Xeta::TelefonMovcuddur) <==> (musteri_movcud(
                old(self).musteriler@,
                id as int,
            ) && (musteri.telefon matches Some(t) && telefon_movcud(
                old(self).musteriler@,
                t@,
                id as int,
            ))),
            r is Ok <==> (musteri_movcud(old(self).musteriler@, id as int) && match musteri.telefon {
                Some(t) => !telefon_movcud(old(self).musteriler@, t@, id as int),
                None => true,
            }),
            r is Ok ==> {
                let k = musteri_indeksi(old(self).musteriler@, id as int);
                let kohne = old(self).musteriler@[k];
                final(self).musteriler@ == old(self).musteriler@.update(
                    k,
                    MusteriSetri {
                        id: kohne.id,
                        ad: match musteri.ad {
                            Some(a) => a,
                            None => kohne.ad,
                        },
                        soyad: match musteri.soyad {
                            Some(a) => a,
                            None => kohne.soyad,
                        },
                        telefon: match musteri.telefon {
                            Some(a) => a,
                            None => kohne.telefon,
                        },
                        qeyd: match musteri.qeyd {
                            Some(a) => Some(a),
                            None => kohne.qeyd,
                        },
                        baslangic_borcu: kohne.baslangic_borcu,
                        tarix: kohne.tarix,
                    },
                )
            },
            r matches Ok(g) ==> musteri_gorunusu_uygun(
                final(self).musteriler@[musteri_indeksi(old(self).musteriler@, id as int)],
                g,
            ),
    {
        let k = match self.musteri_tap(id) {
            Some(k) => k,
            None => {
                return Err(Xeta::MusteriTapilmadi);
            },
        };
        match &musteri.telefon {
            Some(t) => {
                if self.telefon_movcuddur(t, id) {
                    return Err(Xeta::TelefonMovcuddur);
                }
            },
            None => {},
        }
        let yeni = MusteriSetri {
            id: self.musteriler[k].id,
            ad: match musteri.ad {
                Some(a) => a,
                None => self.musteriler[k].ad.clone(),
            },
            soyad: match musteri.soyad {
                Some(a) => a,
                None => self.musteriler[k].soyad.clone(),
            },
            telefon: match musteri.telefon {
                Some(a) => a,
                None => self.musteriler[k].telefon.clone(),
            },
            qeyd: match musteri.qeyd {
                Some(a) => Some(a),
                None => self.musteriler[k].qeyd.clone(),
            },
            baslangic_borcu: self.musteriler[k].baslangic_borcu,
            tarix: self.musteriler[k].tarix,
        };
        self.musteriler.set(k, yeni);
        proof {
            assert forall|i: int| 0 <= i < self.musteriler@.len() implies (#[trigger] self.musteriler@[i]).id
                == old(self).musteriler@[i].id by {}
        }
        let g = self.musteri_gorunusu(&self.musteriler[k]);
        Ok(g)
    }

    /// Every customer, in storage order.
    pub fn musteri_siyahisi(&self) -> (r: Vec<Customer>)
        ensures
            r@.len() == self.musteriler@.len(),
            forall|i: int|
                0 <= i < r@.len() ==> musteri_gorunusu_uygun(self.musteriler@[i], #[trigger] r@[i]),
    {
        let mut r: Vec<Customer> = Vec::new();
        let mut i: usize = 0;
        while i < self.musteriler.len()
            invariant
                0 <= i <= self.musteriler@.len(),
                r@.len() == i,
                forall|j: int|
                    0 <= j < i ==> musteri_gorunusu_uygun(self.musteriler@[j], #[trigger] r@[j]),
            decreases self.musteriler@.len() - i,
        {
            let g = self.musteri_gorunusu(&self.musteriler[i]);
            r.push(g);
            i = i + 1;
        }
        r
    }
}

} // verus!

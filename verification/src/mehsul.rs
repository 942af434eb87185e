use vstd::prelude::*;
use crate::model::{KateqoriyaSetri, MehsulSetri};
use crate::store::{
    kateqoriya_indeksi, kateqoriya_movcud, mehsul_indeksi, mehsul_movcud, Store,
};
use crate::tarix::Tarix;
use crate::xeta::Xeta;

verus! {

/// A product as shown to callers, with the category name resolved.
/// Price fields are in qepik.
#[derive(Clone, PartialEq, Eq, Debug)]
pub struct Product {
    pub id: i64,
    pub barkod: String,
    pub ad: String,
    pub kateqoriya_id: Option<i64>,
    pub kateqoriya_adi: Option<String>,
    pub reng: Option<String>,
    pub marka: Option<String>,
    pub alis_qiymeti: i64,
    pub satis_qiymeti: i64,
    pub tesvir: Option<String>,
    pub sekil_yolu: Option<String>,
    pub tarix: Tarix,
}

/// Request to record a product.
#[derive(Clone, PartialEq, Eq, Debug)]
pub struct CreateProduct {
    pub barkod: String,
    pub ad: String,
    pub kateqoriya_id: Option<i64>,
    pub reng: Option<String>,
    pub marka: Option<String>,
    pub alis_qiymeti: i64,
    pub satis_qiymeti: i64,
    pub tesvir: Option<String>,
    pub sekil_yolu: Option<String>,
}

/// A partial product update: `Some` overwrites the field, `None`
/// keeps it.
#[derive(Clone, PartialEq, Eq, Debug)]
pub struct UpdateProduct {
    pub barkod: Option<String>,
    pub ad: Option<String>,
    pub kateqoriya_id: Option<i64>,
    pub reng: Option<String>,
    pub marka: Option<String>,
    pub alis_qiymeti: Option<i64>,
    pub satis_qiymeti: Option<i64>,
    pub tesvir: Option<String>,
    pub sekil_yolu: Option<String>,
}

/// Stock of one size of a product.
#[derive(Clone, PartialEq, Eq, Debug)]
pub struct StockInfo {
    pub olcu_id: i64,
    pub olcu: String,
    pub miqdar: i64,
    pub minimum_miqdar: i64,
}

/// A product together with its per-size stock.
#[derive(Clone, PartialEq, Eq, Debug)]
pub struct ProductWithStock {
    pub product: Product,
    pub stok: Vec<StockInfo>,
}

/// A product with this barcode is already recorded, other than the row
/// with identity `menfi` (pass -1 to test all rows).
pub open spec fn barkod_movcud(s: Seq<MehsulSetri>, barkod: Seq<char>, menfi: int) -> bool {
    exists|i: int| 0 <= i < s.len() && (#[trigger] s[i]).barkod@ == barkod && s[i].id != menfi
}

/// `g` shows exactly the stored product row `setir`, with the category
/// name resolved.
pub open spec fn mehsul_gorunusu_uygun(
    kateqoriyalar: Seq<KateqoriyaSetri>,
    setir: MehsulSetri,
    g: Product,
) -> bool {
    &&& g.id == setir.id
    &&& g.barkod@ == setir.barkod@
    &&& g.ad@ == setir.ad@
    &&& g.kateqoriya_id == setir.kateqoriya_id
    &&& g.reng == setir.reng
    &&& g.marka == setir.marka
    &&& g.alis_qiymeti == setir.alis_qiymeti
    &&& g.satis_qiymeti == setir.satis_qiymeti
    &&& g.tesvir == setir.tesvir
    &&& g.sekil_yolu == setir.sekil_yolu
    &&& g.tarix == setir.tarix
    &&& match setir.kateqoriya_id {
        Some(kid) => if kateqoriya_movcud(kateqoriyalar, kid as int) {
            g.kateqoriya_adi matches Some(ka) && ka@ == kateqoriyalar[kateqoriya_indeksi(
                kateqoriyalar,
                kid as int,
            )].ad@
        } else {
            g.kateqoriya_adi is None
        },
        None => g.kateqoriya_adi is None,
    }
}

impl Store {
    /// A product with this barcode is already recorded, other than the
    /// row with identity `menfi`.
    pub fn barkod_movcuddur(&self, barkod: &String, menfi: i64) -> (r: bool)
        ensures
            r == barkod_movcud(self.mehsullar@, barkod@, menfi as int),
    {
        let mut i: usize = 0;
        while i < self.mehsullar.len()
            invariant
                0 <= i <= self.mehsullar@.len(),
                forall|j: int|
                    0 <= j < i ==> !((#[trigger] self.mehsullar@[j]).barkod@ == barkod@
                        && self.mehsullar@[j].id != menfi),
            decreases self.mehsullar@.len() - i,
        {
            if self.mehsullar[i].barkod.eq(barkod) && self.mehsullar[i].id != menfi {
                return true;
            }
            i = i + 1;
        }
        false
    }

    /// Resolve one stored product row into its caller-facing view.
    pub fn mehsul_gorunusu(&self, setir: &MehsulSetri) -> (g: Product)
        requires
            self.kecerli(),
        ensures
            mehsul_gorunusu_uygun(self.kateqoriyalar@, *setir, g),
    {
        let kateqoriya_adi: Option<String> = match setir.kateqoriya_id {
            Some(kid) => match self.kateqoriya_tap(kid) {
                Some(c) => Some(self.kateqoriyalar[c].ad.clone()),
                None => None,
            },
            None => None,
        };
        Product {
            id: setir.id,
            barkod: setir.barkod.clone(),
            ad: setir.ad.clone(),
            kateqoriya_id: setir.kateqoriya_id,
            kateqoriya_adi,
            reng: setir.reng.clone(),
            marka: setir.marka.clone(),
            alis_qiymeti: setir.alis_qiymeti,
            satis_qiymeti: setir.satis_qiymeti,
            tesvir: setir.tesvir.clone(),
            sekil_yolu: setir.sekil_yolu.clone(),
            tarix: setir.tarix,
        }
    }

    /// Record a product. A duplicate barcode and an unknown category
    /// are the recorded failures; on any failure the store is left
    /// untouched.
    pub fn mehsul_elave_et(&mut self, mehsul: CreateProduct, tarix: Tarix) -> (r: Result<
        Product,
        Xeta,
    >)
        requires
            old(self).kecerli(),
        ensures
            final(self).kecerli(),
            Store::senedler_eyni(*final(self), *old(self)),
            Store::stok_veziyyeti_eyni(*final(self), *old(self)),
            final(self).musteriler@ == old(self).musteriler@,
            final(self).olculer@ == old(self).olculer@,
            final(self).kateqoriyalar@ == old(self).kateqoriyalar@,
            final(self).rengler@ == old(self).rengler@,
            final(self).istifadeciler@ == old(self).istifadeciler@,
            final(self).parametrler == old(self).parametrler,
            r is Err ==> Store::butov_eyni(*final(self), *old(self)),
            r == Err::<Product, Xeta>(Xeta::BarkodMovcuddur) <==> barkod_movcud(
                old(self).mehsullar@,
                mehsul.barkod@,
                -1,
            ),
            r == Err::<Product, Xeta>(Xeta::KateqoriyaTapilmadi) <==> (!barkod_movcud(
                old(self).mehsullar@,
                mehsul.barkod@,
                -1,
            ) && (mehsul.kateqoriya_id matches Some(kid) && !kateqoriya_movcud(
                old(self).kateqoriyalar@,
                kid as int,
            ))),
            r is Ok <==> (!barkod_movcud(old(self).mehsullar@, mehsul.barkod@, -1) && match mehsul
                .kateqoriya_id {
                Some(kid) => kateqoriya_movcud(old(self).kateqoriyalar@, kid as int),
                None => true,
            } && old(self).novbeti_mehsul_id < i64::MAX),
            r is Ok ==> final(self).mehsullar@ == old(self).mehsullar@.push(
                MehsulSetri {
                    id: old(self).novbeti_mehsul_id,
                    barkod: mehsul.barkod,
                    ad: mehsul.ad,
                    kateqoriya_id: mehsul.kateqoriya_id,
                    reng: mehsul.reng,
                    marka: mehsul.marka,
                    alis_qiymeti: mehsul.alis_qiymeti,
                    satis_qiymeti: mehsul.satis_qiymeti,
                    tesvir: mehsul.tesvir,
                    sekil_yolu: mehsul.sekil_yolu,
                    tarix,
                },
            ),
            r is Ok ==> final(self).novbeti_mehsul_id == old(self).novbeti_mehsul_id + 1,
            r matches Ok(g) ==> mehsul_gorunusu_uygun(
                old(self).kateqoriyalar@,
                final(self).mehsullar@.last(),
                g,
            ),
    {
        if self.barkod_movcuddur(&mehsul.barkod, -1) {
            return Err(Xeta::BarkodMovcuddur);
        }
        match mehsul.kateqoriya_id {
            Some(kid) => {
                if self.kateqoriya_tap(kid).is_none() {
                    return Err(Xeta::KateqoriyaTapilmadi);
                }
            },
            None => {},
        }
        if self.novbeti_mehsul_id == i64::MAX {
            return Err(Xeta::HeddenArtiq);
        }
        let id = self.novbeti_mehsul_id;
        self.mehsullar.push(
            MehsulSetri {
                id,
                barkod: mehsul.barkod,
                ad: mehsul.ad,
                kateqoriya_id: mehsul.kateqoriya_id,
                reng: mehsul.reng,
                marka: mehsul.marka,
                alis_qiymeti: mehsul.alis_qiymeti,
                satis_qiymeti: mehsul.satis_qiymeti,
                tesvir: mehsul.tesvir,
                sekil_yolu: mehsul.sekil_yolu,
                tarix,
            },
        );
        self.novbeti_mehsul_id = id + 1;
        let son = self.mehsullar.len() - 1;
        let g = self.mehsul_gorunusu(&self.mehsullar[son]);
        Ok(g)
    }

    /// Update a product in place: each named field overwrites the
    /// stored one, the rest keep their values. A barcode already used
    /// by another product and an unknown category are the recorded
    /// failures.
    pub fn mehsul_yenile(&mut self, id: i64, mehsul: UpdateProduct) -> (r: Result<Product, Xeta>)
        requires
            old(self).kecerli(),
        ensures
            final(self).kecerli(),
            Store::senedler_eyni(*final(self), *old(self)),
            Store::stok_veziyyeti_eyni(*final(self), *old(self)),
            final(self).musteriler@ == old(self).musteriler@,
            final(self).olculer@ == old(self).olculer@,
            final(self).kateqoriyalar@ == old(self).kateqoriyalar@,
            final(self).rengler@ == old(self).rengler@,
            final(self).istifadeciler@ == old(self).istifadeciler@,
            final(self).parametrler == old(self).parametrler,
            final(self).novbeti_mehsul_id == old(self).novbeti_mehsul_id,
            r is Err ==> Store::butov_eyni(*final(self), *old(self)),
            r == Err::<Product, Xeta>(Xeta::MehsulTapilmadi) <==> !mehsul_movcud(
                old(self).mehsullar@,
                id as int,
            ),
            r == Err::<Product, Xeta>(Xeta::BarkodMovcuddur) <==> (mehsul_movcud(
                old(self).mehsullar@,
                id as int,
            ) && (mehsul.barkod matches Some(b) && barkod_movcud(
                old(self).mehsullar@,
                b@,
                id as int,
            ))),
            r == Err::<Product, Xeta>(Xeta::KateqoriyaTapilmadi) <==> (mehsul_movcud(
                old(self).mehsullar@,
                id as int,
            ) && match mehsul.barkod {
                Some(b) => !barkod_movcud(old(self).mehsullar@, b@, id as int),
                None => true,
            } && (mehsul.kateqoriya_id matches Some(kid) && !kateqoriya_movcud(
                old(self).kateqoriyalar@,
                kid as int,
            ))),
            r is Ok <==> (mehsul_movcud(old(self).mehsullar@, id as int) && match mehsul.barkod {
                Some(b) => !barkod_movcud(old(self).mehsullar@, b@, id as int),
                None => true,
            } && match mehsul.kateqoriya_id {
                Some(kid) => kateqoriya_movcud(old(self).kateqoriyalar@, kid as int),
                None => true,
            }),
            r is Ok ==> {
                let k = mehsul_indeksi(old(self).mehsullar@, id as int);
                let kohne = old(self).mehsullar@[k];
                final(self).mehsullar@ == old(self).mehsullar@.update(
                    k,
                    MehsulSetri {
                        id: kohne.id,
                        barkod: match mehsul.barkod {
                            Some(a) => a,
                            None => kohne.barkod,
                        },
                        ad: match mehsul.ad {
                            Some(a) => a,
                            None => kohne.ad,
                        },
                        kateqoriya_id: match mehsul.kateqoriya_id {
                            Some(a) => Some(a),
                            None => kohne.kateqoriya_id,
                        },
                        reng: match mehsul.reng {
                            Some(a) => Some(a),
                            None => kohne.reng,
                        },
                        marka: match mehsul.marka {
                            Some(a) => Some(a),
                            None => kohne.marka,
                        },
                        alis_qiymeti: match mehsul.alis_qiymeti {
                            Some(a) => a,
                            None => kohne.alis_qiymeti,
                        },
                        satis_qiymeti: match mehsul.satis_qiymeti {
                            Some(a) => a,
                            None => kohne.satis_qiymeti,
                        },
                        tesvir: match mehsul.tesvir {
                            Some(a) => Some(a),
                            None => kohne.tesvir,
                        },
                        sekil_yolu: match mehsul.sekil_yolu {
                            Some(a) => Some(a),
                            None => kohne.sekil_yolu,
                        },
                        tarix: kohne.tarix,
                    },
                )
            },
            r matches Ok(g) ==> mehsul_gorunusu_uygun(
                old(self).kateqoriyalar@,
                final(self).mehsullar@[mehsul_indeksi(old(self).mehsullar@, id as int)],
                g,
            ),
    {
        let k = match self.mehsul_tap(id) {
            Some(k) => k,
            None => {
                return Err(Xeta::MehsulTapilmadi);
            },
        };
        match &mehsul.barkod {
            Some(b) => {
                if self.barkod_movcuddur(b, id) {
                    return Err(Xeta::BarkodMovcuddur);
                }
            },
            None => {},
        }
        match mehsul.kateqoriya_id {
            Some(kid) => {
                if self.kateqoriya_tap(kid).is_none() {
                    return Err(Xeta::KateqoriyaTapilmadi);
                }
            },
            None => {},
        }
        let yeni = MehsulSetri {
            id: self.mehsullar[k].id,
            barkod: match mehsul.barkod {
                Some(a) => a,
                None => self.mehsullar[k].barkod.clone(),
            },
            ad: match mehsul.ad {
                Some(a) => a,
                None => self.mehsullar[k].ad.clone(),
            },
            kateqoriya_id: match mehsul.kateqoriya_id {
                Some(a) => Some(a),
                None => self.mehsullar[k].kateqoriya_id,
            },
            reng: match mehsul.reng {
                Some(a) => Some(a),
                None => self.mehsullar[k].reng.clone(),
            },
            marka: match mehsul.marka {
                Some(a) => Some(a),
                None => self.mehsullar[k].marka.clone(),
            },
            alis_qiymeti: match mehsul.alis_qiymeti {
                Some(a) => a,
                None => self.mehsullar[k].alis_qiymeti,
            },
            satis_qiymeti: match mehsul.satis_qiymeti {
                Some(a) => a,
                None => self.mehsullar[k].satis_qiymeti,
            },
            tesvir: match mehsul.tesvir {
                Some(a) => Some(a),
                None => self.mehsullar[k].tesvir.clone(),
            },
            sekil_yolu: match mehsul.sekil_yolu {
                Some(a) => Some(a),
                None => self.mehsullar[k].sekil_yolu.clone(),
            },
            tarix: self.mehsullar[k].tarix,
        };
        self.mehsullar.set(k, yeni);
        proof {
            assert forall|i: int| 0 <= i < self.mehsullar@.len() implies (#[trigger] self.mehsullar@[i]).id
                == old(self).mehsullar@[i].id by {}
        }
        let g = self.mehsul_gorunusu(&self.mehsullar[k]);
        Ok(g)
    }

    /// The product with the given barcode, if any is recorded.
    pub fn mehsul_barkod_ile_axtar(&self, barkod: &String) -> (r: Option<Product>)
        requires
            self.kecerli(),
        ensures
            r is Some <==> barkod_movcud(self.mehsullar@, barkod@, -1),
            r matches Some(g) ==> exists|i: int|
                0 <= i < self.mehsullar@.len() && (#[trigger] self.mehsullar@[i]).barkod@ == barkod@
                    && mehsul_gorunusu_uygun(self.kateqoriyalar@, self.mehsullar@[i], g),
    {
        let mut i: usize = 0;
        while i < self.mehsullar.len()
            invariant
                self.kecerli(),
                0 <= i <= self.mehsullar@.len(),
                forall|j: int|
                    0 <= j < i ==> !((#[trigger] self.mehsullar@[j]).barkod@ == barkod@
                        && self.mehsullar@[j].id != -1),
            decreases self.mehsullar@.len() - i,
        {
            if self.mehsullar[i].barkod.eq(barkod) && self.mehsullar[i].id != -1 {
                let g = self.mehsul_gorunusu(&self.mehsullar[i]);
                return Some(g);
            }
            i = i + 1;
        }
        None
    }

    /// Every product, in storage order, with category names resolved.
    pub fn mehsul_siyahisi(&self) -> (r: Vec<Product>)
        requires
            self.kecerli(),
        ensures
            r@.len() == self.mehsullar@.len(),
            forall|i: int|
                0 <= i < r@.len() ==> mehsul_gorunusu_uygun(
                    self.kateqoriyalar@,
                    self.mehsullar@[i],
                    #[trigger] r@[i],
                ),
    {
        let mut r: Vec<Product> = Vec::new();
        let mut i: usize = 0;
        while i < self.mehsullar.len()
            invariant
                self.kecerli(),
                0 <= i <= self.mehsullar@.len(),
                r@.len() == i,
                forall|j: int|
                    0 <= j < i ==> mehsul_gorunusu_uygun(
                        self.kateqoriyalar@,
                        self.mehsullar@[j],
                        #[trigger] r@[j],
                    ),
            decreases self.mehsullar@.len() - i,
        {
            let g = self.mehsul_gorunusu(&self.mehsullar[i]);
            r.push(g);
            i = i + 1;
        }
        r
    }
}

} // verus!

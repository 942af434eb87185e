use vstd::prelude::*;
use crate::model::{
    HereketSetri, IstifadeciSetri, KateqoriyaSetri, MehsulSetri, MusteriSetri, OdemeSetri,
    OlcuSetri, QaytarmaElementi, QaytarmaSetri, RengSetri, Rol, SatisElementi, SatisSetri,
    StokSetri,
};
use crate::tarix::Tarix;

verus! {

/// The store's single settings row.
#[derive(Clone, PartialEq, Eq, Debug)]
pub struct Settings {
    pub id: i64,
    pub magaza_adi: String,
    pub logo_yolu: Option<String>,
    pub telefon: Option<String>,
    pub adres: Option<String>,
    pub whatsapp: Option<String>,
    pub instagram: Option<String>,
    pub tiktok: Option<String>,
    pub olculer_aktiv: bool,
    pub qifil_sifresi: Option<String>,
    pub barkod_capinda_magaza_adi: bool,
    pub updated_at: Option<Tarix>,
}

/// A partial settings update; `None` keeps `magaza_adi`,
/// `olculer_aktiv` and `barkod_capinda_magaza_adi` unchanged and clears
/// the optional text fields.
#[derive(Clone, PartialEq, Eq, Debug)]
pub struct UpdateSettings {
    pub magaza_adi: Option<String>,
    pub logo_yolu: Option<String>,
    pub telefon: Option<String>,
    pub adres: Option<String>,
    pub whatsapp: Option<String>,
    pub instagram: Option<String>,
    pub tiktok: Option<String>,
    pub olculer_aktiv: Option<bool>,
    pub qifil_sifresi: Option<String>,
    pub barkod_capinda_magaza_adi: Option<bool>,
}

/// The whole persisted state of the shop, held in memory and mutated
/// only through the operations of this crate. Each table is a vector of
/// rows with identities handed out by the matching counter; persistence
/// around the core writes the same rows through to disk after each
/// successful operation.
pub struct Store {
    pub mehsullar: Vec<MehsulSetri>,
    pub olculer: Vec<OlcuSetri>,
    pub kateqoriyalar: Vec<KateqoriyaSetri>,
    pub rengler: Vec<RengSetri>,
    pub musteriler: Vec<MusteriSetri>,
    pub istifadeciler: Vec<IstifadeciSetri>,
    pub stoklar: Vec<StokSetri>,
    pub hereketler: Vec<HereketSetri>,
    pub satislar: Vec<SatisSetri>,
    pub satis_elementleri: Vec<SatisElementi>,
    pub qaytarmalar: Vec<QaytarmaSetri>,
    pub qaytarma_elementleri: Vec<QaytarmaElementi>,
    pub odemeler: Vec<OdemeSetri>,
    pub parametrler: Settings,
    pub novbeti_mehsul_id: i64,
    pub novbeti_olcu_id: i64,
    pub novbeti_kateqoriya_id: i64,
    pub novbeti_reng_id: i64,
    pub novbeti_musteri_id: i64,
    pub novbeti_istifadeci_id: i64,
    pub novbeti_stok_id: i64,
    pub novbeti_hereket_id: i64,
    pub novbeti_satis_id: i64,
    pub novbeti_element_id: i64,
    pub novbeti_qaytarma_id: i64,
    pub novbeti_qelement_id: i64,
    pub novbeti_odeme_id: i64,
    /// Minimum-threshold a stock row created by an adjustment starts with.
    pub stok_minimumu: i64,
}

/// A stock row is for the given (product, size) pair.
pub open spec fn stok_uygun(r: StokSetri, mehsul_id: int, olcu_id: int) -> bool {
    r.mehsul_id == mehsul_id && r.olcu_id == olcu_id
}

/// Some stock row exists for the pair.
pub open spec fn stok_movcud(s: Seq<StokSetri>, mehsul_id: int, olcu_id: int) -> bool {
    exists|i: int| 0 <= i < s.len() && stok_uygun(s[i], mehsul_id, olcu_id)
}

/// The index of the pair's stock row; meaningful when one exists, and
/// under [`Store::kecerli`] there is at most one.
pub open spec fn stok_indeksi(s: Seq<StokSetri>, mehsul_id: int, olcu_id: int) -> int {
    choose|i: int| 0 <= i < s.len() && stok_uygun(s[i], mehsul_id, olcu_id)
}

/// The stored quantity for the pair; absence counts as zero.
pub open spec fn stok_miqdari(s: Seq<StokSetri>, mehsul_id: int, olcu_id: int) -> int {
    if stok_movcud(s, mehsul_id, olcu_id) {
        s[stok_indeksi(s, mehsul_id, olcu_id)].miqdar as int
    } else {
        0
    }
}

/// How many movement rows the audit trail holds for the pair.
pub open spec fn hereket_sayi(h: Seq<HereketSetri>, mehsul_id: int, olcu_id: int) -> int
    decreases h.len(),
{
    if h.len() == 0 {
        0
    } else {
        hereket_sayi(h.drop_last(), mehsul_id, olcu_id) + if h.last().mehsul_id == mehsul_id
            && h.last().olcu_id == olcu_id {
            1int
        } else {
            0int
        }
    }
}

/// At most one stock row per (product, size) pair.
pub open spec fn stoklar_tek_seq(s: Seq<StokSetri>) -> bool {
    forall|i: int, j: int|
        #![trigger s[i], s[j]]
        0 <= i < j < s.len() ==> !(stok_uygun(s[i], s[j].mehsul_id as int, s[j].olcu_id as int))
}

/// An amount the store's 64-bit signed fields can hold.
pub open spec fn i64_sigar(x: int) -> bool {
    i64::MIN <= x <= i64::MAX
}

impl Store {
    /// At most one stock row per (product, size) pair — the stock
    /// table's standing invariant.
    pub open spec fn stoklar_tek(self) -> bool {
        stoklar_tek_seq(self.stoklar@)
    }

    /// Identities in every table are strictly increasing and below the
    /// table's counter, so each row's id is unique.
    pub open spec fn idler_kecerli(self) -> bool {
        &&& 1 <= self.novbeti_mehsul_id
        &&& 1 <= self.novbeti_olcu_id
        &&& 1 <= self.novbeti_kateqoriya_id
        &&& 1 <= self.novbeti_reng_id
        &&& 1 <= self.novbeti_musteri_id
        &&& 1 <= self.novbeti_istifadeci_id
        &&& 1 <= self.novbeti_stok_id
        &&& 1 <= self.novbeti_hereket_id
        &&& 1 <= self.novbeti_satis_id
        &&& 1 <= self.novbeti_element_id
        &&& 1 <= self.novbeti_qaytarma_id
        &&& 1 <= self.novbeti_qelement_id
        &&& 1 <= self.novbeti_odeme_id
        &&& forall|i: int, j: int|
            #![trigger self.mehsullar@[i], self.mehsullar@[j]]
            0 <= i < j < self.mehsullar@.len() ==> self.mehsullar@[i].id < self.mehsullar@[j].id
        &&& forall|i: int|
            0 <= i < self.mehsullar@.len() ==> (#[trigger] self.mehsullar@[i]).id
                < self.novbeti_mehsul_id
        &&& forall|i: int, j: int|
            #![trigger self.olculer@[i], self.olculer@[j]]
            0 <= i < j < self.olculer@.len() ==> self.olculer@[i].id < self.olculer@[j].id
        &&& forall|i: int|
            0 <= i < self.olculer@.len() ==> (#[trigger] self.olculer@[i]).id
                < self.novbeti_olcu_id
        &&& forall|i: int, j: int|
            #![trigger self.kateqoriyalar@[i], self.kateqoriyalar@[j]]
            0 <= i < j < self.kateqoriyalar@.len() ==> self.kateqoriyalar@[i].id
                < self.kateqoriyalar@[j].id
        &&& forall|i: int|
            0 <= i < self.kateqoriyalar@.len() ==> (#[trigger] self.kateqoriyalar@[i]).id
                < self.novbeti_kateqoriya_id
        &&& forall|i: int, j: int|
            #![trigger self.rengler@[i], self.rengler@[j]]
            0 <= i < j < self.rengler@.len() ==> self.rengler@[i].id < self.rengler@[j].id
        &&& forall|i: int|
            0 <= i < self.rengler@.len() ==> (#[trigger] self.rengler@[i]).id
                < self.novbeti_reng_id
        &&& forall|i: int, j: int|
            #![trigger self.musteriler@[i], self.musteriler@[j]]
            0 <= i < j < self.musteriler@.len() ==> self.musteriler@[i].id
                < self.musteriler@[j].id
        &&& forall|i: int|
            0 <= i < self.musteriler@.len() ==> (#[trigger] self.musteriler@[i]).id
                < self.novbeti_musteri_id
        &&& forall|i: int, j: int|
            #![trigger self.istifadeciler@[i], self.istifadeciler@[j]]
            0 <= i < j < self.istifadeciler@.len() ==> self.istifadeciler@[i].id
                < self.istifadeciler@[j].id
        &&& forall|i: int|
            0 <= i < self.istifadeciler@.len() ==> (#[trigger] self.istifadeciler@[i]).id
                < self.novbeti_istifadeci_id
        &&& forall|i: int, j: int|
            #![trigger self.stoklar@[i], self.stoklar@[j]]
            0 <= i < j < self.stoklar@.len() ==> self.stoklar@[i].id < self.stoklar@[j].id
        &&& forall|i: int|
            0 <= i < self.stoklar@.len() ==> (#[trigger] self.stoklar@[i]).id
                < self.novbeti_stok_id
        &&& forall|i: int, j: int|
            #![trigger self.hereketler@[i], self.hereketler@[j]]
            0 <= i < j < self.hereketler@.len() ==> self.hereketler@[i].id
                < self.hereketler@[j].id
        &&& forall|i: int|
            0 <= i < self.hereketler@.len() ==> (#[trigger] self.hereketler@[i]).id
                < self.novbeti_hereket_id
        &&& forall|i: int, j: int|
            #![trigger self.satislar@[i], self.satislar@[j]]
            0 <= i < j < self.satislar@.len() ==> self.satislar@[i].id < self.satislar@[j].id
        &&& forall|i: int|
            0 <= i < self.satislar@.len() ==> (#[trigger] self.satislar@[i]).id
                < self.novbeti_satis_id
        &&& forall|i: int, j: int|
            #![trigger self.satis_elementleri@[i], self.satis_elementleri@[j]]
            0 <= i < j < self.satis_elementleri@.len() ==> self.satis_elementleri@[i].id
                < self.satis_elementleri@[j].id
        &&& forall|i: int|
            0 <= i < self.satis_elementleri@.len() ==> (#[trigger] self.satis_elementleri@[i]).id
                < self.novbeti_element_id
        &&& forall|i: int, j: int|
            #![trigger self.qaytarmalar@[i], self.qaytarmalar@[j]]
            0 <= i < j < self.qaytarmalar@.len() ==> self.qaytarmalar@[i].id
                < self.qaytarmalar@[j].id
        &&& forall|i: int|
            0 <= i < self.qaytarmalar@.len() ==> (#[trigger] self.qaytarmalar@[i]).id
                < self.novbeti_qaytarma_id
        &&& forall|i: int, j: int|
            #![trigger self.qaytarma_elementleri@[i], self.qaytarma_elementleri@[j]]
            0 <= i < j < self.qaytarma_elementleri@.len() ==> self.qaytarma_elementleri@[i].id
                < self.qaytarma_elementleri@[j].id
        &&& forall|i: int|
            0 <= i < self.qaytarma_elementleri@.len() ==> (#[trigger] self.qaytarma_elementleri@[i]).id
                < self.novbeti_qelement_id
        &&& forall|i: int, j: int|
            #![trigger self.odemeler@[i], self.odemeler@[j]]
            0 <= i < j < self.odemeler@.len() ==> self.odemeler@[i].id < self.odemeler@[j].id
        &&& forall|i: int|
            0 <= i < self.odemeler@.len() ==> (#[trigger] self.odemeler@[i]).id
                < self.novbeti_odeme_id
    }

    /// The store's well-formedness: every operation of this crate
    /// establishes and preserves it.
    pub open spec fn kecerli(self) -> bool {
        &&& self.stoklar_tek()
        &&& self.idler_kecerli()
    }

    /// Reference data, users and settings agree between `a` and `b`.
    pub open spec fn varliglar_eyni(a: Store, b: Store) -> bool {
        &&& a.mehsullar@ == b.mehsullar@
        &&& a.olculer@ == b.olculer@
        &&& a.kateqoriyalar@ == b.kateqoriyalar@
        &&& a.rengler@ == b.rengler@
        &&& a.musteriler@ == b.musteriler@
        &&& a.istifadeciler@ == b.istifadeciler@
        &&& a.parametrler == b.parametrler
        &&& a.novbeti_mehsul_id == b.novbeti_mehsul_id
        &&& a.novbeti_olcu_id == b.novbeti_olcu_id
        &&& a.novbeti_kateqoriya_id == b.novbeti_kateqoriya_id
        &&& a.novbeti_reng_id == b.novbeti_reng_id
        &&& a.novbeti_musteri_id == b.novbeti_musteri_id
        &&& a.novbeti_istifadeci_id == b.novbeti_istifadeci_id
        &&& a.stok_minimumu == b.stok_minimumu
    }

    /// Sale, return and payment documents agree between `a` and `b`.
    pub open spec fn senedler_eyni(a: Store, b: Store) -> bool {
        &&& a.satislar@ == b.satislar@
        &&& a.satis_elementleri@ == b.satis_elementleri@
        &&& a.qaytarmalar@ == b.qaytarmalar@
        &&& a.qaytarma_elementleri@ == b.qaytarma_elementleri@
        &&& a.odemeler@ == b.odemeler@
        &&& a.novbeti_satis_id == b.novbeti_satis_id
        &&& a.novbeti_element_id == b.novbeti_element_id
        &&& a.novbeti_qaytarma_id == b.novbeti_qaytarma_id
        &&& a.novbeti_qelement_id == b.novbeti_qelement_id
        &&& a.novbeti_odeme_id == b.novbeti_odeme_id
    }

    /// Stock levels and the audit trail agree between `a` and `b`.
    pub open spec fn stok_veziyyeti_eyni(a: Store, b: Store) -> bool {
        &&& a.stoklar@ == b.stoklar@
        &&& a.hereketler@ == b.hereketler@
        &&& a.novbeti_stok_id == b.novbeti_stok_id
        &&& a.novbeti_hereket_id == b.novbeti_hereket_id
    }

    /// Every observable part of `a` and `b` agrees: the meaning of "the
    /// operation left no trace".
    pub open spec fn butov_eyni(a: Store, b: Store) -> bool {
        &&& Store::varliglar_eyni(a, b)
        &&& Store::senedler_eyni(a, b)
        &&& Store::stok_veziyyeti_eyni(a, b)
    }
}

// Spec-level row lookups by id. Under `idler_kecerli` at most one row
// matches, so `choose` picks the row.
pub open spec fn mehsul_movcud(s: Seq<MehsulSetri>, id: int) -> bool {
    exists|i: int| 0 <= i < s.len() && s[i].id == id
}

pub open spec fn mehsul_indeksi(s: Seq<MehsulSetri>, id: int) -> int {
    choose|i: int| 0 <= i < s.len() && s[i].id == id
}

pub open spec fn olcu_movcud(s: Seq<OlcuSetri>, id: int) -> bool {
    exists|i: int| 0 <= i < s.len() && s[i].id == id
}

pub open spec fn olcu_indeksi(s: Seq<OlcuSetri>, id: int) -> int {
    choose|i: int| 0 <= i < s.len() && s[i].id == id
}

pub open spec fn kateqoriya_movcud(s: Seq<KateqoriyaSetri>, id: int) -> bool {
    exists|i: int| 0 <= i < s.len() && s[i].id == id
}

pub open spec fn kateqoriya_indeksi(s: Seq<KateqoriyaSetri>, id: int) -> int {
    choose|i: int| 0 <= i < s.len() && s[i].id == id
}

pub open spec fn musteri_movcud(s: Seq<MusteriSetri>, id: int) -> bool {
    exists|i: int| 0 <= i < s.len() && s[i].id == id
}

pub open spec fn musteri_indeksi(s: Seq<MusteriSetri>, id: int) -> int {
    choose|i: int| 0 <= i < s.len() && s[i].id == id
}

pub open spec fn satis_movcud(s: Seq<SatisSetri>, id: int) -> bool {
    exists|i: int| 0 <= i < s.len() && s[i].id == id
}

pub open spec fn satis_indeksi(s: Seq<SatisSetri>, id: int) -> int {
    choose|i: int| 0 <= i < s.len() && s[i].id == id
}

pub open spec fn qaytarma_movcud(s: Seq<QaytarmaSetri>, id: int) -> bool {
    exists|i: int| 0 <= i < s.len() && s[i].id == id
}

pub open spec fn qaytarma_indeksi(s: Seq<QaytarmaSetri>, id: int) -> int {
    choose|i: int| 0 <= i < s.len() && s[i].id == id
}

pub open spec fn istifadeci_movcud(s: Seq<IstifadeciSetri>, id: int) -> bool {
    exists|i: int| 0 <= i < s.len() && s[i].id == id
}

pub open spec fn istifadeci_indeksi(s: Seq<IstifadeciSetri>, id: int) -> int {
    choose|i: int| 0 <= i < s.len() && s[i].id == id
}

impl Store {
    /// Append a size row during seeding, without the duplicate-name
    /// check the public operation makes.
    fn olcu_seed(&mut self, ad: String)
        requires
            old(self).kecerli(),
            old(self).novbeti_olcu_id < i64::MAX,
        ensures
            final(self).kecerli(),
            final(self).olculer@ == old(self).olculer@.push(
                OlcuSetri { id: old(self).novbeti_olcu_id, olcu: ad },
            ),
            final(self).novbeti_olcu_id == old(self).novbeti_olcu_id + 1,
            final(self).mehsullar@ == old(self).mehsullar@,
            final(self).kateqoriyalar@ == old(self).kateqoriyalar@,
            final(self).rengler@ == old(self).rengler@,
            final(self).musteriler@ == old(self).musteriler@,
            final(self).istifadeciler@ == old(self).istifadeciler@,
            final(self).parametrler == old(self).parametrler,
            final(self).novbeti_mehsul_id == old(self).novbeti_mehsul_id,
            final(self).novbeti_kateqoriya_id == old(self).novbeti_kateqoriya_id,
            final(self).novbeti_reng_id == old(self).novbeti_reng_id,
            final(self).novbeti_musteri_id == old(self).novbeti_musteri_id,
            final(self).novbeti_istifadeci_id == old(self).novbeti_istifadeci_id,
            final(self).stok_minimumu == old(self).stok_minimumu,
            Store::senedler_eyni(*final(self), *old(self)),
            Store::stok_veziyyeti_eyni(*final(self), *old(self)),
    {
        let id = self.novbeti_olcu_id;
        self.olculer.push(OlcuSetri { id, olcu: ad });
        self.novbeti_olcu_id = id + 1;
    }

    /// Append a category row during seeding.
    fn kateqoriya_seed(&mut self, ad: String)
        requires
            old(self).kecerli(),
            old(self).novbeti_kateqoriya_id < i64::MAX,
        ensures
            final(self).kecerli(),
            final(self).kateqoriyalar@ == old(self).kateqoriyalar@.push(
                KateqoriyaSetri { id: old(self).novbeti_kateqoriya_id, ad: ad },
            ),
            final(self).novbeti_kateqoriya_id == old(self).novbeti_kateqoriya_id + 1,
            final(self).mehsullar@ == old(self).mehsullar@,
            final(self).olculer@ == old(self).olculer@,
            final(self).rengler@ == old(self).rengler@,
            final(self).musteriler@ == old(self).musteriler@,
            final(self).istifadeciler@ == old(self).istifadeciler@,
            final(self).parametrler == old(self).parametrler,
            final(self).novbeti_mehsul_id == old(self).novbeti_mehsul_id,
            final(self).novbeti_olcu_id == old(self).novbeti_olcu_id,
            final(self).novbeti_reng_id == old(self).novbeti_reng_id,
            final(self).novbeti_musteri_id == old(self).novbeti_musteri_id,
            final(self).novbeti_istifadeci_id == old(self).novbeti_istifadeci_id,
            final(self).stok_minimumu == old(self).stok_minimumu,
            Store::senedler_eyni(*final(self), *old(self)),
            Store::stok_veziyyeti_eyni(*final(self), *old(self)),
    {
        let id = self.novbeti_kateqoriya_id;
        self.kateqoriyalar.push(KateqoriyaSetri { id, ad });
        self.novbeti_kateqoriya_id = id + 1;
    }

    /// Append a color row during seeding.
    fn reng_seed(&mut self, ad: String, kod: String)
        requires
            old(self).kecerli(),
            old(self).novbeti_reng_id < i64::MAX,
        ensures
            final(self).kecerli(),
            final(self).rengler@ == old(self).rengler@.push(
                RengSetri { id: old(self).novbeti_reng_id, ad: ad, kod: Some(kod) },
            ),
            final(self).novbeti_reng_id == old(self).novbeti_reng_id + 1,
            final(self).mehsullar@ == old(self).mehsullar@,
            final(self).olculer@ == old(self).olculer@,
            final(self).kateqoriyalar@ == old(self).kateqoriyalar@,
            final(self).musteriler@ == old(self).musteriler@,
            final(self).istifadeciler@ == old(self).istifadeciler@,
            final(self).parametrler == old(self).parametrler,
            final(self).novbeti_mehsul_id == old(self).novbeti_mehsul_id,
            final(self).novbeti_olcu_id == old(self).novbeti_olcu_id,
            final(self).novbeti_kateqoriya_id == old(self).novbeti_kateqoriya_id,
            final(self).novbeti_musteri_id == old(self).novbeti_musteri_id,
            final(self).novbeti_istifadeci_id == old(self).novbeti_istifadeci_id,
            final(self).stok_minimumu == old(self).stok_minimumu,
            Store::senedler_eyni(*final(self), *old(self)),
            Store::stok_veziyyeti_eyni(*final(self), *old(self)),
    {
        let id = self.novbeti_reng_id;
        self.rengler.push(RengSetri { id, ad, kod: Some(kod) });
        self.novbeti_reng_id = id + 1;
    }

    /// Seed the twenty fixed sizes.
    #[verifier::rlimit(80)]
    fn olculeri_doldur(&mut self)
        requires
            old(self).kecerli(),
            old(self).olculer@.len() == 0,
            old(self).novbeti_olcu_id == 1,
        ensures
            final(self).kecerli(),
            final(self).olculer@.len() == 20,
            forall|i: int| 0 <= i < 20 ==> (#[trigger] final(self).olculer@[i]).id == i + 1,
            final(self).novbeti_olcu_id == 21,
            final(self).olculer@[0].olcu@ == "XS"@,
            final(self).olculer@[1].olcu@ == "S"@,
            final(self).olculer@[2].olcu@ == "M"@,
            final(self).olculer@[3].olcu@ == "L"@,
            final(self).olculer@[4].olcu@ == "XL"@,
            final(self).olculer@[5].olcu@ == "XXL"@,
            final(self).olculer@[6].olcu@ == "XXXL"@,
            final(self).olculer@[7].olcu@ == "38"@,
            final(self).olculer@[8].olcu@ == "39"@,
            final(self).olculer@[9].olcu@ == "40"@,
            final(self).olculer@[10].olcu@ == "41"@,
            final(self).olculer@[11].olcu@ == "42"@,
            final(self).olculer@[12].olcu@ == "43"@,
            final(self).olculer@[13].olcu@ == "44"@,
            final(self).olculer@[14].olcu@ == "45"@,
            final(self).olculer@[15].olcu@ == "46"@,
            final(self).olculer@[16].olcu@ == "47"@,
            final(self).olculer@[17].olcu@ == "48"@,
            final(self).olculer@[18].olcu@ == "49"@,
            final(self).olculer@[19].olcu@ == "50"@,
            final(self).mehsullar@ == old(self).mehsullar@,
            final(self).kateqoriyalar@ == old(self).kateqoriyalar@,
            final(self).rengler@ == old(self).rengler@,
            final(self).musteriler@ == old(self).musteriler@,
            final(self).istifadeciler@ == old(self).istifadeciler@,
            final(self).parametrler == old(self).parametrler,
            final(self).novbeti_mehsul_id == old(self).novbeti_mehsul_id,
            final(self).novbeti_kateqoriya_id == old(self).novbeti_kateqoriya_id,
            final(self).novbeti_reng_id == old(self).novbeti_reng_id,
            final(self).novbeti_musteri_id == old(self).novbeti_musteri_id,
            final(self).novbeti_istifadeci_id == old(self).novbeti_istifadeci_id,
            final(self).stok_minimumu == old(self).stok_minimumu,
            Store::senedler_eyni(*final(self), *old(self)),
            Store::stok_veziyyeti_eyni(*final(self), *old(self)),
    {
        self.olcu_seed("XS".to_owned());
        self.olcu_seed("S".to_owned());
        self.olcu_seed("M".to_owned());
        self.olcu_seed("L".to_owned());
        self.olcu_seed("XL".to_owned());
        self.olcu_seed("XXL".to_owned());
        self.olcu_seed("XXXL".to_owned());
        self.olcu_seed("38".to_owned());
        self.olcu_seed("39".to_owned());
        self.olcu_seed("40".to_owned());
        self.olcu_seed("41".to_owned());
        self.olcu_seed("42".to_owned());
        self.olcu_seed("43".to_owned());
        self.olcu_seed("44".to_owned());
        self.olcu_seed("45".to_owned());
        self.olcu_seed("46".to_owned());
        self.olcu_seed("47".to_owned());
        self.olcu_seed("48".to_owned());
        self.olcu_seed("49".to_owned());
        self.olcu_seed("50".to_owned());
    }

    /// Seed the five fixed categories.
    #[verifier::rlimit(80)]
    fn kateqoriyalari_doldur(&mut self)
        requires
            old(self).kecerli(),
            old(self).kateqoriyalar@.len() == 0,
            old(self).novbeti_kateqoriya_id == 1,
        ensures
            final(self).kecerli(),
            final(self).kateqoriyalar@.len() == 5,
            forall|i: int| 0 <= i < 5 ==> (#[trigger] final(self).kateqoriyalar@[i]).id == i + 1,
            final(self).novbeti_kateqoriya_id == 6,
            final(self).kateqoriyalar@[0].ad@ == "Salvar"@,
            final(self).kateqoriyalar@[1].ad@ == "Koynek"@,
            final(self).kateqoriyalar@[2].ad@ == "Ayaqabi"@,
            final(self).kateqoriyalar@[3].ad@ == "Kostyum"@,
            final(self).kateqoriyalar@[4].ad@ == "Aksesuar"@,
            final(self).mehsullar@ == old(self).mehsullar@,
            final(self).olculer@ == old(self).olculer@,
            final(self).rengler@ == old(self).rengler@,
            final(self).musteriler@ == old(self).musteriler@,
            final(self).istifadeciler@ == old(self).istifadeciler@,
            final(self).parametrler == old(self).parametrler,
            final(self).novbeti_mehsul_id == old(self).novbeti_mehsul_id,
            final(self).novbeti_olcu_id == old(self).novbeti_olcu_id,
            final(self).novbeti_reng_id == old(self).novbeti_reng_id,
            final(self).novbeti_musteri_id == old(self).novbeti_musteri_id,
            final(self).novbeti_istifadeci_id == old(self).novbeti_istifadeci_id,
            final(self).stok_minimumu == old(self).stok_minimumu,
            Store::senedler_eyni(*final(self), *old(self)),
            Store::stok_veziyyeti_eyni(*final(self), *old(self)),
    {
        self.kateqoriya_seed("Salvar".to_owned());
        self.kateqoriya_seed("Koynek".to_owned());
        self.kateqoriya_seed("Ayaqabi".to_owned());
        self.kateqoriya_seed("Kostyum".to_owned());
        self.kateqoriya_seed("Aksesuar".to_owned());
    }

    /// Seed the ten fixed colors.
    #[verifier::rlimit(80)]
    fn rengleri_doldur(&mut self)
        requires
            old(self).kecerli(),
            old(self).rengler@.len() == 0,
            old(self).novbeti_reng_id == 1,
        ensures
            final(self).kecerli(),
            final(self).rengler@.len() == 10,
            final(self).novbeti_reng_id == 11,
            final(self).mehsullar@ == old(self).mehsullar@,
            final(self).olculer@ == old(self).olculer@,
            final(self).kateqoriyalar@ == old(self).kateqoriyalar@,
            final(self).musteriler@ == old(self).musteriler@,
            final(self).istifadeciler@ == old(self).istifadeciler@,
            final(self).parametrler == old(self).parametrler,
            final(self).novbeti_mehsul_id == old(self).novbeti_mehsul_id,
            final(self).novbeti_olcu_id == old(self).novbeti_olcu_id,
            final(self).novbeti_kateqoriya_id == old(self).novbeti_kateqoriya_id,
            final(self).novbeti_musteri_id == old(self).novbeti_musteri_id,
            final(self).novbeti_istifadeci_id == old(self).novbeti_istifadeci_id,
            final(self).stok_minimumu == old(self).stok_minimumu,
            Store::senedler_eyni(*final(self), *old(self)),
            Store::stok_veziyyeti_eyni(*final(self), *old(self)),
    {
        self.reng_seed("Qara".to_owned(), "#000000".to_owned());
        self.reng_seed("Ag".to_owned(), "#FFFFFF".to_owned());
        self.reng_seed("Qirmizi".to_owned(), "#FF0000".to_owned());
        self.reng_seed("Goy".to_owned(), "#0000FF".to_owned());
        self.reng_seed("Yasil".to_owned(), "#008000".to_owned());
        self.reng_seed("Sari".to_owned(), "#FFFF00".to_owned());
        self.reng_seed("Narinci".to_owned(), "#FFA500".to_owned());
        self.reng_seed("Benovseyi".to_owned(), "#800080".to_owned());
        self.reng_seed("Cehrayi".to_owned(), "#FFC0CB".to_owned());
        self.reng_seed("Boz".to_owned(), "#808080".to_owned());
    }

    /// A fresh store: empty ledger tables, the fixed size and category
    /// reference data seeded once, the default settings row, and the
    /// initial administrator account.
    pub fn new() -> (r: Store)
        ensures
            r.kecerli(),
            r.satislar@.len() == 0,
            r.satis_elementleri@.len() == 0,
            r.qaytarmalar@.len() == 0,
            r.qaytarma_elementleri@.len() == 0,
            r.odemeler@.len() == 0,
            r.stoklar@.len() == 0,
            r.hereketler@.len() == 0,
            r.mehsullar@.len() == 0,
            r.musteriler@.len() == 0,
            r.olculer@.len() == 20,
            r.kateqoriyalar@.len() == 5,
            r.rengler@.len() == 10,
            r.istifadeciler@.len() == 1,
            r.istifadeciler@[0].id == 1,
            r.istifadeciler@[0].rol == Rol::Admin,
            r.istifadeciler@[0].aktiv,
            forall|i: int| 0 <= i < 20 ==> (#[trigger] r.olculer@[i]).id == i + 1,
            forall|i: int| 0 <= i < 5 ==> (#[trigger] r.kateqoriyalar@[i]).id == i + 1,
            r.novbeti_satis_id == 1,
            r.novbeti_qaytarma_id == 1,
            r.novbeti_odeme_id == 1,
            r.novbeti_mehsul_id == 1,
            r.novbeti_musteri_id == 1,
            r.novbeti_element_id == 1,
            r.novbeti_qelement_id == 1,
            r.novbeti_stok_id == 1,
            r.novbeti_hereket_id == 1,
            r.novbeti_olcu_id == 21,
            r.novbeti_kateqoriya_id == 6,
            r.novbeti_reng_id == 11,
            r.novbeti_istifadeci_id == 2,
            r.olculer@[0].olcu@ == "XS"@,
            r.olculer@[1].olcu@ == "S"@,
            r.olculer@[2].olcu@ == "M"@,
            r.olculer@[3].olcu@ == "L"@,
            r.olculer@[4].olcu@ == "XL"@,
            r.olculer@[5].olcu@ == "XXL"@,
            r.olculer@[6].olcu@ == "XXXL"@,
            r.olculer@[7].olcu@ == "38"@,
            r.olculer@[8].olcu@ == "39"@,
            r.olculer@[9].olcu@ == "40"@,
            r.olculer@[10].olcu@ == "41"@,
            r.olculer@[11].olcu@ == "42"@,
            r.olculer@[12].olcu@ == "43"@,
            r.olculer@[13].olcu@ == "44"@,
            r.olculer@[14].olcu@ == "45"@,
            r.olculer@[15].olcu@ == "46"@,
            r.olculer@[16].olcu@ == "47"@,
            r.olculer@[17].olcu@ == "48"@,
            r.olculer@[18].olcu@ == "49"@,
            r.olculer@[19].olcu@ == "50"@,
            r.kateqoriyalar@[0].ad@ == "Salvar"@,
            r.kateqoriyalar@[1].ad@ == "Koynek"@,
            r.kateqoriyalar@[2].ad@ == "Ayaqabi"@,
            r.kateqoriyalar@[3].ad@ == "Kostyum"@,
            r.kateqoriyalar@[4].ad@ == "Aksesuar"@,
            r.istifadeciler@[0].istifadeci_adi@ == "admin"@,
            r.stok_minimumu == 5,
            r.parametrler.olculer_aktiv,
            !r.parametrler.barkod_capinda_magaza_adi,
    {
        let parametrler = Settings {
            id: 1,
            magaza_adi: "Geyim".to_owned(),
            logo_yolu: None,
            telefon: None,
            adres: None,
            whatsapp: None,
            instagram: None,
            tiktok: None,
            olculer_aktiv: true,
            qifil_sifresi: None,
            barkod_capinda_magaza_adi: false,
            updated_at: None,
        };
        let admin = IstifadeciSetri {
            id: 1,
            ad: "Admin".to_owned(),
            soyad: "Istifadeci".to_owned(),
            istifadeci_adi: "admin".to_owned(),
            sifre: "admin123".to_owned(),
            rol: Rol::Admin,
            aktiv: true,
            tarix: Tarix { il: 2024, ay: 1, gun: 1 },
        };
        let mut istifadeciler: Vec<IstifadeciSetri> = Vec::new();
        istifadeciler.push(admin);
        let mut s = Store {
            mehsullar: Vec::new(),
            olculer: Vec::new(),
            kateqoriyalar: Vec::new(),
            rengler: Vec::new(),
            musteriler: Vec::new(),
            istifadeciler,
            stoklar: Vec::new(),
            hereketler: Vec::new(),
            satislar: Vec::new(),
            satis_elementleri: Vec::new(),
            qaytarmalar: Vec::new(),
            qaytarma_elementleri: Vec::new(),
            odemeler: Vec::new(),
            parametrler,
            novbeti_mehsul_id: 1,
            novbeti_olcu_id: 1,
            novbeti_kateqoriya_id: 1,
            novbeti_reng_id: 1,
            novbeti_musteri_id: 1,
            novbeti_istifadeci_id: 2,
            novbeti_stok_id: 1,
            novbeti_hereket_id: 1,
            novbeti_satis_id: 1,
            novbeti_element_id: 1,
            novbeti_qaytarma_id: 1,
            novbeti_qelement_id: 1,
            novbeti_odeme_id: 1,
            stok_minimumu: 5,
        };
        s.olculeri_doldur();
        s.kateqoriyalari_doldur();
        s.rengleri_doldur();
        s
    }

    /// Find the position of the stock row for a (product, size) pair.
    pub fn stok_tap(&self, mehsul_id: i64, olcu_id: i64) -> (r: Option<usize>)
        ensures
            r is Some <==> stok_movcud(self.stoklar@, mehsul_id as int, olcu_id as int),
            r is Some ==> {
                let k = r->Some_0 as int;
                &&& 0 <= k < self.stoklar@.len()
                &&& stok_uygun(self.stoklar@[k], mehsul_id as int, olcu_id as int)
                &&& forall|j: int|
                    0 <= j < k ==> !stok_uygun(
                        #[trigger] self.stoklar@[j],
                        mehsul_id as int,
                        olcu_id as int,
                    )
            },
            (r is Some && stoklar_tek_seq(self.stoklar@)) ==> r->Some_0 as int == stok_indeksi(
                self.stoklar@,
                mehsul_id as int,
                olcu_id as int,
            ),
    {
        let mut i: usize = 0;
        while i < self.stoklar.len()
            invariant
                0 <= i <= self.stoklar@.len(),
                forall|j: int|
                    0 <= j < i ==> !stok_uygun(
                        #[trigger] self.stoklar@[j],
                        mehsul_id as int,
                        olcu_id as int,
                    ),
            decreases self.stoklar@.len() - i,
        {
            let r = &self.stoklar[i];
            if r.mehsul_id == mehsul_id && r.olcu_id == olcu_id {
                proof {
                    if stoklar_tek_seq(self.stoklar@) {
                        let idx = stok_indeksi(self.stoklar@, mehsul_id as int, olcu_id as int);
                        assert(stok_movcud(self.stoklar@, mehsul_id as int, olcu_id as int));
                        assert(0 <= idx < self.stoklar@.len() && stok_uygun(
                            self.stoklar@[idx],
                            mehsul_id as int,
                            olcu_id as int,
                        ));
                        if idx != i as int {
                            assert(stok_uygun(
                                self.stoklar@[i as int],
                                mehsul_id as int,
                                olcu_id as int,
                            ));
                            assert(false);
                        }
                    }
                }
                return Some(i);
            }
            i = i + 1;
        }
        None
    }

    /// Find the position of a product row by id.
    pub fn mehsul_tap(&self, id: i64) -> (r: Option<usize>)
        ensures
            r is Some <==> mehsul_movcud(self.mehsullar@, id as int),
            r is Some ==> {
                let k = r->Some_0 as int;
                0 <= k < self.mehsullar@.len() && self.mehsullar@[k].id == id
            },
            (r is Some && self.idler_kecerli()) ==> r->Some_0 as int == mehsul_indeksi(
                self.mehsullar@,
                id as int,
            ),
    {
        let mut i: usize = 0;
        while i < self.mehsullar.len()
            invariant
                0 <= i <= self.mehsullar@.len(),
                forall|j: int| 0 <= j < i ==> (#[trigger] self.mehsullar@[j]).id != id,
            decreases self.mehsullar@.len() - i,
        {
            if self.mehsullar[i].id == id {
                proof {
                    if self.idler_kecerli() {
                        let idx = mehsul_indeksi(self.mehsullar@, id as int);
                        assert(mehsul_movcud(self.mehsullar@, id as int));
                        assert(0 <= idx < self.mehsullar@.len() && self.mehsullar@[idx].id == id);
                        if idx < i as int {
                            assert(self.mehsullar@[idx].id < self.mehsullar@[i as int].id);
                        } else if idx > i as int {
                            assert(self.mehsullar@[i as int].id < self.mehsullar@[idx].id);
                        }
                    }
                }
                return Some(i);
            }
            i = i + 1;
        }
        None
    }

    /// Find the position of a size row by id.
    pub fn olcu_tap(&self, id: i64) -> (r: Option<usize>)
        ensures
            r is Some <==> olcu_movcud(self.olculer@, id as int),
            r is Some ==> {
                let k = r->Some_0 as int;
                0 <= k < self.olculer@.len() && self.olculer@[k].id == id
            },
            (r is Some && self.idler_kecerli()) ==> r->Some_0 as int == olcu_indeksi(
                self.olculer@,
                id as int,
            ),
    {
        let mut i: usize = 0;
        while i < self.olculer.len()
            invariant
                0 <= i <= self.olculer@.len(),
                forall|j: int| 0 <= j < i ==> (#[trigger] self.olculer@[j]).id != id,
            decreases self.olculer@.len() - i,
        {
            if self.olculer[i].id == id {
                proof {
                    if self.idler_kecerli() {
                        let idx = olcu_indeksi(self.olculer@, id as int);
                        assert(olcu_movcud(self.olculer@, id as int));
                        assert(0 <= idx < self.olculer@.len() && self.olculer@[idx].id == id);
                        if idx < i as int {
                            assert(self.olculer@[idx].id < self.olculer@[i as int].id);
                        } else if idx > i as int {
                            assert(self.olculer@[i as int].id < self.olculer@[idx].id);
                        }
                    }
                }
                return Some(i);
            }
            i = i + 1;
        }
        None
    }

    /// Find the position of a category row by id.
    pub fn kateqoriya_tap(&self, id: i64) -> (r: Option<usize>)
        ensures
            r is Some <==> kateqoriya_movcud(self.kateqoriyalar@, id as int),
            r is Some ==> {
                let k = r->Some_0 as int;
                0 <= k < self.kateqoriyalar@.len() && self.kateqoriyalar@[k].id == id
            },
            (r is Some && self.idler_kecerli()) ==> r->Some_0 as int == kateqoriya_indeksi(
                self.kateqoriyalar@,
                id as int,
            ),
    {
        let mut i: usize = 0;
        while i < self.kateqoriyalar.len()
            invariant
                0 <= i <= self.kateqoriyalar@.len(),
                forall|j: int| 0 <= j < i ==> (#[trigger] self.kateqoriyalar@[j]).id != id,
            decreases self.kateqoriyalar@.len() - i,
        {
            if self.kateqoriyalar[i].id == id {
                proof {
                    if self.idler_kecerli() {
                        let idx = kateqoriya_indeksi(self.kateqoriyalar@, id as int);
                        assert(kateqoriya_movcud(self.kateqoriyalar@, id as int));
                        assert(0 <= idx < self.kateqoriyalar@.len() && self.kateqoriyalar@[idx].id == id);
                        if idx < i as int {
                            assert(self.kateqoriyalar@[idx].id < self.kateqoriyalar@[i as int].id);
                        } else if idx > i as int {
                            assert(self.kateqoriyalar@[i as int].id < self.kateqoriyalar@[idx].id);
                        }
                    }
                }
                return Some(i);
            }
            i = i + 1;
        }
        None
    }

    /// Find the position of a customer row by id.
    pub fn musteri_tap(&self, id: i64) -> (r: Option<usize>)
        ensures
            r is Some <==> musteri_movcud(self.musteriler@, id as int),
            r is Some ==> {
                let k = r->Some_0 as int;
                0 <= k < self.musteriler@.len() && self.musteriler@[k].id == id
            },
            (r is Some && self.idler_kecerli()) ==> r->Some_0 as int == musteri_indeksi(
                self.musteriler@,
                id as int,
            ),
    {
        let mut i: usize = 0;
        while i < self.musteriler.len()
            invariant
                0 <= i <= self.musteriler@.len(),
                forall|j: int| 0 <= j < i ==> (#[trigger] self.musteriler@[j]).id != id,
            decreases self.musteriler@.len() - i,
        {
            if self.musteriler[i].id == id {
                proof {
                    if self.idler_kecerli() {
                        let idx = musteri_indeksi(self.musteriler@, id as int);
                        assert(musteri_movcud(self.musteriler@, id as int));
                        assert(0 <= idx < self.musteriler@.len() && self.musteriler@[idx].id == id);
                        if idx < i as int {
                            assert(self.musteriler@[idx].id < self.musteriler@[i as int].id);
                        } else if idx > i as int {
                            assert(self.musteriler@[i as int].id < self.musteriler@[idx].id);
                        }
                    }
                }
                return Some(i);
            }
            i = i + 1;
        }
        None
    }

    /// Find the position of a sale row by id.
    pub fn satis_tap(&self, id: i64) -> (r: Option<usize>)
        ensures
            r is Some <==> satis_movcud(self.satislar@, id as int),
            r is Some ==> {
                let k = r->Some_0 as int;
                0 <= k < self.satislar@.len() && self.satislar@[k].id == id
            },
            (r is Some && self.idler_kecerli()) ==> r->Some_0 as int == satis_indeksi(
                self.satislar@,
                id as int,
            ),
    {
        let mut i: usize = 0;
        while i < self.satislar.len()
            invariant
                0 <= i <= self.satislar@.len(),
                forall|j: int| 0 <= j < i ==> (#[trigger] self.satislar@[j]).id != id,
            decreases self.satislar@.len() - i,
        {
            if self.satislar[i].id == id {
                proof {
                    if self.idler_kecerli() {
                        let idx = satis_indeksi(self.satislar@, id as int);
                        assert(satis_movcud(self.satislar@, id as int));
                        assert(0 <= idx < self.satislar@.len() && self.satislar@[idx].id == id);
                        if idx < i as int {
                            assert(self.satislar@[idx].id < self.satislar@[i as int].id);
                        } else if idx > i as int {
                            assert(self.satislar@[i as int].id < self.satislar@[idx].id);
                        }
                    }
                }
                return Some(i);
            }
            i = i + 1;
        }
        None
    }

    /// Find the position of a return row by id.
    pub fn qaytarma_tap(&self, id: i64) -> (r: Option<usize>)
        ensures
            r is Some <==> qaytarma_movcud(self.qaytarmalar@, id as int),
            r is Some ==> {
                let k = r->Some_0 as int;
                0 <= k < self.qaytarmalar@.len() && self.qaytarmalar@[k].id == id
            },
            (r is Some && self.idler_kecerli()) ==> r->Some_0 as int == qaytarma_indeksi(
                self.qaytarmalar@,
                id as int,
            ),
    {
        let mut i: usize = 0;
        while i < self.qaytarmalar.len()
            invariant
                0 <= i <= self.qaytarmalar@.len(),
                forall|j: int| 0 <= j < i ==> (#[trigger] self.qaytarmalar@[j]).id != id,
            decreases self.qaytarmalar@.len() - i,
        {
            if self.qaytarmalar[i].id == id {
                proof {
                    if self.idler_kecerli() {
                        let idx = qaytarma_indeksi(self.qaytarmalar@, id as int);
                        assert(qaytarma_movcud(self.qaytarmalar@, id as int));
                        assert(0 <= idx < self.qaytarmalar@.len() && self.qaytarmalar@[idx].id == id);
                        if idx < i as int {
                            assert(self.qaytarmalar@[idx].id < self.qaytarmalar@[i as int].id);
                        } else if idx > i as int {
                            assert(self.qaytarmalar@[i as int].id < self.qaytarmalar@[idx].id);
                        }
                    }
                }
                return Some(i);
            }
            i = i + 1;
        }
        None
    }

    /// Find the position of a user row by id.
    pub fn istifadeci_tap(&self, id: i64) -> (r: Option<usize>)
        ensures
            r is Some <==> istifadeci_movcud(self.istifadeciler@, id as int),
            r is Some ==> {
                let k = r->Some_0 as int;
                0 <= k < self.istifadeciler@.len() && self.istifadeciler@[k].id == id
            },
            (r is Some && self.idler_kecerli()) ==> r->Some_0 as int == istifadeci_indeksi(
                self.istifadeciler@,
                id as int,
            ),
    {
        let mut i: usize = 0;
        while i < self.istifadeciler.len()
            invariant
                0 <= i <= self.istifadeciler@.len(),
                forall|j: int| 0 <= j < i ==> (#[trigger] self.istifadeciler@[j]).id != id,
            decreases self.istifadeciler@.len() - i,
        {
            if self.istifadeciler[i].id == id {
                proof {
                    if self.idler_kecerli() {
                        let idx = istifadeci_indeksi(self.istifadeciler@, id as int);
                        assert(istifadeci_movcud(self.istifadeciler@, id as int));
                        assert(0 <= idx < self.istifadeciler@.len() && self.istifadeciler@[idx].id == id);
                        if idx < i as int {
                            assert(self.istifadeciler@[idx].id < self.istifadeciler@[i as int].id);
                        } else if idx > i as int {
                            assert(self.istifadeciler@[i as int].id < self.istifadeciler@[idx].id);
                        }
                    }
                }
                return Some(i);
            }
            i = i + 1;
        }
        None
    }
}

} // verus!

use vstd::prelude::*;
use crate::tarix::Tarix;

verus! {

/// How a sale or a debt payment is settled. `Nisye` is the on-credit
/// method: a sale paid this way adds to the customer's running debt, a
/// payment of any method reduces it. `GeriQaytarma` marks the
/// compensating payment written when an on-credit sale is returned.
#[derive(Clone, Copy, PartialEq, Eq, Structural, Debug)]
pub enum OdenisUsulu {
    Nagd,
    Kart,
    Nisye,
    GeriQaytarma,
}

/// The direction of a stock movement: goods coming in or going out.
#[derive(Clone, Copy, PartialEq, Eq, Structural, Debug)]
pub enum HereketNovu {
    DaxilOlma,
    Cixis,
}

/// The structured note a stock movement carries: which operation wrote
/// it, and for sales and returns the document number it belongs to.
#[derive(Clone, PartialEq, Eq, Debug)]
pub enum HereketQeydi {
    /// Written by a sale; carries the sale number.
    SatisCixisi(String),
    /// Written by a return; carries the return number.
    QaytarmaGirisi(String),
    /// Written when stock is added through the stock screen.
    StokElaveEdildi,
    /// Written when a stock level is corrected to a given value.
    StokDuzelisi,
    /// Written when a stock row is deleted.
    StokSilindi,
}

/// Stored product row. Money fields are in qepik (hundredths of the
/// currency unit).
#[derive(Clone, PartialEq, Eq, Debug)]
pub struct MehsulSetri {
    pub id: i64,
    pub barkod: String,
    pub ad: String,
    pub kateqoriya_id: Option<i64>,
    pub reng: Option<String>,
    pub marka: Option<String>,
    pub alis_qiymeti: i64,
    pub satis_qiymeti: i64,
    pub tesvir: Option<String>,
    pub sekil_yolu: Option<String>,
    pub tarix: Tarix,
}

/// Stored customer row. `baslangic_borcu` is the opening debt in qepik.
#[derive(Clone, PartialEq, Eq, Debug)]
pub struct MusteriSetri {
    pub id: i64,
    pub ad: String,
    pub soyad: String,
    pub telefon: String,
    pub qeyd: Option<String>,
    pub baslangic_borcu: i64,
    pub tarix: Tarix,
}

/// Stored size row.
#[derive(Clone, PartialEq, Eq, Debug)]
pub struct OlcuSetri {
    pub id: i64,
    pub olcu: String,
}

/// Stored category row.
#[derive(Clone, PartialEq, Eq, Debug)]
pub struct KateqoriyaSetri {
    pub id: i64,
    pub ad: String,
}

/// Stored color row.
#[derive(Clone, PartialEq, Eq, Debug)]
pub struct RengSetri {
    pub id: i64,
    pub ad: String,
    pub kod: Option<String>,
}

/// Stored stock row: quantity on hand for one (product, size) pair.
/// The store keeps at most one row per pair.
#[derive(Clone, Copy, PartialEq, Eq, Structural, Debug)]
pub struct StokSetri {
    pub id: i64,
    pub mehsul_id: i64,
    pub olcu_id: i64,
    pub miqdar: i64,
    pub minimum_miqdar: i64,
}

/// Stored stock-movement row: the append-only audit trail. One row per
/// quantity change, never updated or deleted. `miqdar` is the magnitude
/// of the change; `evvelki_miqdar` and `yeni_miqdar` snapshot the level
/// around it where the writing operation knows them.
#[derive(Clone, PartialEq, Eq, Debug)]
pub struct HereketSetri {
    pub id: i64,
    pub mehsul_id: i64,
    pub olcu_id: i64,
    pub novu: HereketNovu,
    pub miqdar: i64,
    pub evvelki_miqdar: Option<i64>,
    pub yeni_miqdar: Option<i64>,
    pub vahid_alis_qiymeti: Option<i64>,
    pub toplam_deyeri: Option<i64>,
    pub qeyd: HereketQeydi,
    pub tarix: Tarix,
}

/// Stored sale header row.
#[derive(Clone, PartialEq, Eq, Debug)]
pub struct SatisSetri {
    pub id: i64,
    pub satis_nomresi: String,
    pub musteri_id: Option<i64>,
    pub toplam_mebleg: i64,
    pub endirim: i64,
    pub son_mebleg: i64,
    pub odenis_usulu: OdenisUsulu,
    pub qeyd: Option<String>,
    pub tarix: Tarix,
}

/// Stored sale line row.
#[derive(Clone, PartialEq, Eq, Debug)]
pub struct SatisElementi {
    pub id: i64,
    pub satis_id: i64,
    pub mehsul_id: i64,
    pub olcu_id: i64,
    pub miqdar: i64,
    pub vahid_qiymeti: i64,
    pub toplam_qiymet: i64,
}

/// Stored return header row.
#[derive(Clone, PartialEq, Eq, Debug)]
pub struct QaytarmaSetri {
    pub id: i64,
    pub iade_nomresi: String,
    pub satis_id: i64,
    pub musteri_id: Option<i64>,
    pub toplam_mebleg: i64,
    pub sebebi: Option<String>,
    pub qeyd: Option<String>,
    pub tarix: Tarix,
}

/// Stored return line row.
#[derive(Clone, PartialEq, Eq, Debug)]
pub struct QaytarmaElementi {
    pub id: i64,
    pub iade_id: i64,
    pub mehsul_id: i64,
    pub olcu_id: i64,
    pub miqdar: i64,
    pub vahid_qiymeti: i64,
    pub toplam_qiymet: i64,
}

/// Stored debt-payment row: a credit against a customer's balance.
#[derive(Clone, PartialEq, Eq, Debug)]
pub struct OdemeSetri {
    pub id: i64,
    pub musteri_id: i64,
    pub mebleg: i64,
    pub odenis_usulu: OdenisUsulu,
    pub qeyd: Option<String>,
    pub tarix: Tarix,
}

/// A user's role.
#[derive(Clone, Copy, PartialEq, Eq, Structural, Debug)]
pub enum Rol {
    Admin,
    Isci,
}

/// Stored user row.
#[derive(Clone, PartialEq, Eq, Debug)]
pub struct IstifadeciSetri {
    pub id: i64,
    pub ad: String,
    pub soyad: String,
    pub istifadeci_adi: String,
    pub sifre: String,
    pub rol: Rol,
    pub aktiv: bool,
    pub tarix: Tarix,
}

} // verus!

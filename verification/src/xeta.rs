use vstd::prelude::*;

verus! {

/// Every failure the core can report. The operations state in their
/// contracts exactly which inputs produce which variant; persistence
/// plumbing around the core maps these to user-facing strings via
/// [`Xeta::mesaj`].
#[derive(Clone, Copy, PartialEq, Eq, Structural, Debug)]
pub enum Xeta {
    /// The referenced customer does not exist.
    MusteriTapilmadi,
    /// The referenced product does not exist.
    MehsulTapilmadi,
    /// The referenced size does not exist.
    OlcuTapilmadi,
    /// The referenced sale does not exist.
    SatisTapilmadi,
    /// The referenced user does not exist.
    IstifadeciTapilmadi,
    /// The referenced category does not exist.
    KateqoriyaTapilmadi,
    /// A generated document number is already taken.
    NomreMovcuddur,
    /// A customer with this phone number already exists.
    TelefonMovcuddur,
    /// A product with this barcode already exists.
    BarkodMovcuddur,
    /// A reference-data entry with this name already exists.
    AdMovcuddur,
    /// A user with this username already exists.
    IstifadeciAdiMovcuddur,
    /// A return for this (sale, product, size) line was already recorded.
    ArtiqQaytarilib { mehsul_id: i64, olcu_id: i64 },
    /// The last active administrator cannot be deleted.
    SonAdmin,
    /// The password given does not match.
    SifreYanlisdir,
    /// The account is deactivated.
    HesabDeaktivdir,
    /// An update request named no field to change.
    DeyisiklikYoxdur,
    /// The row is still referenced by other rows and cannot be deleted.
    IstinadVar,
    /// A computed amount falls outside the range the store can hold.
    HeddenArtiq,
}

impl Xeta {
    /// The localized, human-readable message for this failure.
    pub fn mesaj(&self) -> String {
        match self {
            Xeta::MusteriTapilmadi => "Musteri tapilmadi".to_owned(),
            Xeta::MehsulTapilmadi => "Mehsul tapilmadi".to_owned(),
            Xeta::OlcuTapilmadi => "Olcu tapilmadi".to_owned(),
            Xeta::SatisTapilmadi => "Satis tapilmadi".to_owned(),
            Xeta::IstifadeciTapilmadi => "Istifadeci tapilmadi".to_owned(),
            Xeta::KateqoriyaTapilmadi => "Kateqoriya tapilmadi".to_owned(),
            Xeta::NomreMovcuddur => "Bu nomre artiq movcuddur".to_owned(),
            Xeta::TelefonMovcuddur => "Bu telefon nomresi ile musteri artiq movcuddur".to_owned(),
            Xeta::BarkodMovcuddur => "Bu barkod ile mehsul artiq movcuddur".to_owned(),
            Xeta::AdMovcuddur => "Bu ad artiq movcuddur".to_owned(),
            Xeta::IstifadeciAdiMovcuddur => "Bu istifadeci adi artiq movcuddur".to_owned(),
            Xeta::ArtiqQaytarilib { .. } => {
                "Bu mehsul artiq bu satis ucun geri qaytarilib".to_owned()
            },
            Xeta::SonAdmin => "Son admin istifadecini sile bilmezsiniz".to_owned(),
            Xeta::SifreYanlisdir => "Sifre yanlisdir".to_owned(),
            Xeta::HesabDeaktivdir => "Bu hesab deaktiv edilib".to_owned(),
            Xeta::DeyisiklikYoxdur => "Hec bir deyisiklik yoxdur".to_owned(),
            Xeta::IstinadVar => "Bu setir hele istifadededir ve silina bilmez".to_owned(),
            Xeta::HeddenArtiq => "Mebleg hedden artiq boyukdur".to_owned(),
        }
    }
}

} // verus!

use vstd::prelude::*;
use crate::kenar::ad_soyad_birlesdir;
use crate::model::{MusteriSetri, OdemeSetri, OdenisUsulu, SatisSetri};
use crate::store::{musteri_indeksi, musteri_movcud, Store};
use crate::tarix::Tarix;
use crate::xeta::Xeta;

verus! {

/// A recorded debt payment as shown to callers, with the customer's
/// display name resolved.
#[derive(Clone, PartialEq, Eq, Debug)]
pub struct DebtPayment {
    pub id: i64,
    pub musteri_id: i64,
    pub musteri_adi: Option<String>,
    pub mebleg: i64,
    pub odenis_usulu: OdenisUsulu,
    pub qeyd: Option<String>,
    pub tarix: Tarix,
}

/// Request to record a payment against a customer's debt.
#[derive(Clone, PartialEq, Eq, Debug)]
pub struct CreateDebtPayment {
    pub musteri_id: i64,
    pub mebleg: i64,
    pub odenis_usulu: OdenisUsulu,
    pub qeyd: Option<String>,
}

/// One customer's debt position.
#[derive(Clone, PartialEq, Eq, Debug)]
pub struct CustomerDebtSummary {
    pub musteri_id: i64,
    pub musteri_adi: String,
    pub telefon: String,
    pub toplam_borc: i64,
    pub toplam_odenis: i64,
    pub qalan_borc: i64,
}

/// The net amounts of the customer's on-credit sales among the first
/// `n` sale rows, summed.
pub open spec fn nisye_cemi(satislar: Seq<SatisSetri>, n: int, musteri_id: int) -> int
    decreases n,
{
    if n <= 0 {
        0
    } else {
        nisye_cemi(satislar, n - 1, musteri_id) + if satislar[n - 1].musteri_id == Some(
            musteri_id as i64,
        ) && satislar[n - 1].odenis_usulu == OdenisUsulu::Nisye {
            satislar[n - 1].son_mebleg as int
        } else {
            0
        }
    }
}

/// The customer's payments among the first `n` payment rows, summed.
pub open spec fn odenis_cemi(odemeler: Seq<OdemeSetri>, n: int, musteri_id: int) -> int
    decreases n,
{
    if n <= 0 {
        0
    } else {
        odenis_cemi(odemeler, n - 1, musteri_id) + if odemeler[n - 1].musteri_id == musteri_id {
            odemeler[n - 1].mebleg as int
        } else {
            0
        }
    }
}

/// The customer's opening debt; an unknown customer counts as zero.
pub open spec fn baslangic_borcu(musteriler: Seq<MusteriSetri>, musteri_id: int) -> int {
    if musteri_movcud(musteriler, musteri_id) {
        musteriler[musteri_indeksi(musteriler, musteri_id)].baslangic_borcu as int
    } else {
        0
    }
}

/// The customer's signed running balance: opening debt, plus the net
/// amounts of the on-credit sales, minus every payment.
pub open spec fn borc_netto(s: Store, musteri_id: int) -> int {
    baslangic_borcu(s.musteriler@, musteri_id) + nisye_cemi(
        s.satislar@,
        s.satislar@.len() as int,
        musteri_id,
    ) - odenis_cemi(s.odemeler@, s.odemeler@.len() as int, musteri_id)
}

/// A value the 128-bit intermediate arithmetic can hold.
pub open spec fn i128_sigar(x: int) -> bool {
    i128::MIN <= x <= i128::MAX
}

/// The customer's outstanding debt: the running balance, floored at
/// zero.
pub open spec fn borc_qaliq(s: Store, musteri_id: int) -> int {
    if borc_netto(s, musteri_id) > 0 {
        borc_netto(s, musteri_id)
    } else {
        0
    }
}

impl Store {
    /// The customer's outstanding debt: opening debt plus on-credit
    /// sales minus payments, floored at zero. Recomputed from the
    /// source rows on every call; fails only when the result itself
    /// does not fit a 64-bit amount.
    #[verifier::loop_isolation(false)]
    pub fn musteri_nisye_borclari(&self, musteri_id: i64) -> (r: Result<i64, Xeta>)
        requires
            self.kecerli(),
        ensures
            r is Err <==> !({
                let b = baslangic_borcu(self.musteriler@, musteri_id as int);
                let s = nisye_cemi(self.satislar@, self.satislar@.len() as int, musteri_id as int);
                let p = odenis_cemi(self.odemeler@, self.odemeler@.len() as int, musteri_id as int);
                i128_sigar(b + s) && i128_sigar(b + s - p) && borc_qaliq(*self, musteri_id as int)
                    <= i64::MAX
            }),
            r is Err ==> r == Err::<i64, Xeta>(Xeta::HeddenArtiq),
            r matches Ok(v) ==> v == borc_qaliq(*self, musteri_id as int),
    {
        let baslangic: i64 = match self.musteri_tap(musteri_id) {
            Some(k) => self.musteriler[k].baslangic_borcu,
            None => 0,
        };
        let mut satis_cem: i128 = 0;
        let mut i: usize = 0;
        let ns = self.satislar.len();
        while i < ns
            invariant
                ns == self.satislar@.len(),
                0 <= i <= ns,
                satis_cem as int == nisye_cemi(self.satislar@, i as int, musteri_id as int),
                -((i as int) * 0x8000_0000_0000_0000) <= satis_cem as int <= (i as int)
                    * 0x8000_0000_0000_0000,
            decreases ns - i,
        {
            let s = &self.satislar[i];
            proof {
                assert((i as int) * 0x8000_0000_0000_0000 <= (ns as int) * 0x8000_0000_0000_0000
                    && (ns as int) * 0x8000_0000_0000_0000
                    <= 0x8000_0000_0000_0000_0000_0000_0000_0000 - 0x8000_0000_0000_0000) by (nonlinear_arith)
                    requires
                        0 <= i as int <= ns as int,
                        ns as int <= 0xFFFF_FFFF_FFFF_FFFF,
                ;
                assert((i + 1) as int * 0x8000_0000_0000_0000 == (i as int) * 0x8000_0000_0000_0000
                    + 0x8000_0000_0000_0000) by (nonlinear_arith);
            }
            let nisyedir = match s.musteri_id {
                Some(c) => c == musteri_id,
                None => false,
            };
            if nisyedir && s.odenis_usulu == OdenisUsulu::Nisye {
                satis_cem = satis_cem + (s.son_mebleg as i128);
            }
            i = i + 1;
        }
        let mut odenis_cem: i128 = 0;
        let no = self.odemeler.len();
        i = 0;
        while i < no
            invariant
                no == self.odemeler@.len(),
                0 <= i <= no,
                odenis_cem as int == odenis_cemi(self.odemeler@, i as int, musteri_id as int),
                -((i as int) * 0x8000_0000_0000_0000) <= odenis_cem as int <= (i as int)
                    * 0x8000_0000_0000_0000,
            decreases no - i,
        {
            let o = &self.odemeler[i];
            proof {
                assert((i as int) * 0x8000_0000_0000_0000 <= (no as int) * 0x8000_0000_0000_0000
                    && (no as int) * 0x8000_0000_0000_0000
                    <= 0x8000_0000_0000_0000_0000_0000_0000_0000 - 0x8000_0000_0000_0000) by (nonlinear_arith)
                    requires
                        0 <= i as int <= no as int,
                        no as int <= 0xFFFF_FFFF_FFFF_FFFF,
                ;
                assert((i + 1) as int * 0x8000_0000_0000_0000 == (i as int) * 0x8000_0000_0000_0000
                    + 0x8000_0000_0000_0000) by (nonlinear_arith);
            }
            if o.musteri_id == musteri_id {
                odenis_cem = odenis_cem + (o.mebleg as i128);
            }
            i = i + 1;
        }
        let netto: i128 = match (baslangic as i128).checked_add(satis_cem) {
            Some(v) => match v.checked_sub(odenis_cem) {
                Some(w) => w,
                None => {
                    return Err(Xeta::HeddenArtiq);
                },
            },
            None => {
                return Err(Xeta::HeddenArtiq);
            },
        };
        let qaliq: i128 = if netto > 0 {
            netto
        } else {
            0
        };
        if qaliq > i64::MAX as i128 {
            return Err(Xeta::HeddenArtiq);
        }
        Ok(qaliq as i64)
    }

    /// Resolve one stored payment row into its caller-facing view.
    pub fn odeme_gorunusu(&self, setir: &OdemeSetri) -> (g: DebtPayment)
        requires
            self.kecerli(),
        ensures
            g.id == setir.id,
            g.musteri_id == setir.musteri_id,
            g.mebleg == setir.mebleg,
            g.odenis_usulu == setir.odenis_usulu,
            g.qeyd == setir.qeyd,
            g.tarix == setir.tarix,
            if musteri_movcud(self.musteriler@, setir.musteri_id as int) {
                let m = self.musteriler@[musteri_indeksi(self.musteriler@, setir.musteri_id as int)];
                g.musteri_adi matches Some(n) && n@ == m.ad@ + seq![' '] + m.soyad@
            } else {
                g.musteri_adi is None
            },
    {
        let musteri_adi: Option<String> = match self.musteri_tap(setir.musteri_id) {
            Some(k) => {
                let m = &self.musteriler[k];
                Some(ad_soyad_birlesdir(m.ad.as_str(), m.soyad.as_str()))
            },
            None => None,
        };
        DebtPayment {
            id: setir.id,
            musteri_id: setir.musteri_id,
            musteri_adi,
            mebleg: setir.mebleg,
            odenis_usulu: setir.odenis_usulu,
            qeyd: setir.qeyd.clone(),
            tarix: setir.tarix,
        }
    }

    /// Record a payment against a customer's debt. No balance check is
    /// made: overpayment is accepted. The customer must exist; on any
    /// failure the store is left untouched.
    pub fn borc_odeme_yarat(&mut self, odeme: CreateDebtPayment, tarix: Tarix) -> (r: Result<
        DebtPayment,
        Xeta,
    >)
        requires
            old(self).kecerli(),
        ensures
            final(self).kecerli(),
            Store::varliglar_eyni(*final(self), *old(self)),
            Store::stok_veziyyeti_eyni(*final(self), *old(self)),
            final(self).satislar@ == old(self).satislar@,
            final(self).satis_elementleri@ == old(self).satis_elementleri@,
            final(self).qaytarmalar@ == old(self).qaytarmalar@,
            final(self).qaytarma_elementleri@ == old(self).qaytarma_elementleri@,
            final(self).novbeti_satis_id == old(self).novbeti_satis_id,
            final(self).novbeti_element_id == old(self).novbeti_element_id,
            final(self).novbeti_qaytarma_id == old(self).novbeti_qaytarma_id,
            final(self).novbeti_qelement_id == old(self).novbeti_qelement_id,
            r is Err ==> Store::butov_eyni(*final(self), *old(self)),
            r == Err::<DebtPayment, Xeta>(Xeta::MusteriTapilmadi) <==> !musteri_movcud(
                old(self).musteriler@,
                odeme.musteri_id as int,
            ),
            r == Err::<DebtPayment, Xeta>(Xeta::HeddenArtiq) <==> (musteri_movcud(
                old(self).musteriler@,
                odeme.musteri_id as int,
            ) && old(self).novbeti_odeme_id == i64::MAX),
            r is Ok <==> (musteri_movcud(old(self).musteriler@, odeme.musteri_id as int) && old(
                self,
            ).novbeti_odeme_id < i64::MAX),
            r is Ok ==> final(self).odemeler@ == old(self).odemeler@.push(
                OdemeSetri {
                    id: old(self).novbeti_odeme_id,
                    musteri_id: odeme.musteri_id,
                    mebleg: odeme.mebleg,
                    odenis_usulu: odeme.odenis_usulu,
                    qeyd: odeme.qeyd,
                    tarix,
                },
            ),
            r is Ok ==> final(self).novbeti_odeme_id == old(self).novbeti_odeme_id + 1,
            r matches Ok(g) ==> g.id == old(self).novbeti_odeme_id && g.musteri_id
                == odeme.musteri_id && g.mebleg == odeme.mebleg && g.odenis_usulu
                == odeme.odenis_usulu && g.qeyd == odeme.qeyd && g.tarix == tarix,
            r matches Ok(g) ==> (g.musteri_adi matches Some(n) && {
                let m = old(self).musteriler@[musteri_indeksi(
                    old(self).musteriler@,
                    odeme.musteri_id as int,
                )];
                n@ == m.ad@ + seq![' '] + m.soyad@
            }),
    {
        if self.musteri_tap(odeme.musteri_id).is_none() {
            return Err(Xeta::MusteriTapilmadi);
        }
        if self.novbeti_odeme_id == i64::MAX {
            return Err(Xeta::HeddenArtiq);
        }
        let id = self.novbeti_odeme_id;
        self.odemeler.push(
            OdemeSetri {
                id,
                musteri_id: odeme.musteri_id,
                mebleg: odeme.mebleg,
                odenis_usulu: odeme.odenis_usulu,
                qeyd: odeme.qeyd,
                tarix,
            },
        );
        self.novbeti_odeme_id = id + 1;
        let son = self.odemeler.len() - 1;
        let setir = &self.odemeler[son];
        let g = self.odeme_gorunusu(setir);
        Ok(g)
    }

    /// Every recorded payment, in storage order, with display names
    /// resolved.
    pub fn borc_odeme_siyahisi(&self) -> (r: Vec<DebtPayment>)
        requires
            self.kecerli(),
        ensures
            r@.len() == self.odemeler@.len(),
            forall|i: int|
                0 <= i < r@.len() ==> (#[trigger] r@[i]).id == self.odemeler@[i].id && r@[i].musteri_id
                    == self.odemeler@[i].musteri_id && r@[i].mebleg == self.odemeler@[i].mebleg
                    && r@[i].odenis_usulu == self.odemeler@[i].odenis_usulu && r@[i].tarix
                    == self.odemeler@[i].tarix,
    {
        let mut r: Vec<DebtPayment> = Vec::new();
        let mut i: usize = 0;
        while i < self.odemeler.len()
            invariant
                self.kecerli(),
                0 <= i <= self.odemeler@.len(),
                r@.len() == i,
                forall|j: int|
                    0 <= j < i ==> (#[trigger] r@[j]).id == self.odemeler@[j].id && r@[j].musteri_id
                        == self.odemeler@[j].musteri_id && r@[j].mebleg == self.odemeler@[j].mebleg
                        && r@[j].odenis_usulu == self.odemeler@[j].odenis_usulu && r@[j].tarix
                        == self.odemeler@[j].tarix,
            decreases self.odemeler@.len() - i,
        {
            let setir = &self.odemeler[i];
            let g = self.odeme_gorunusu(setir);
            r.push(g);
            i = i + 1;
        }
        r
    }
}

} // verus!

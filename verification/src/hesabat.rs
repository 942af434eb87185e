use vstd::prelude::*;
use crate::model::{
    OdenisUsulu, QaytarmaElementi, QaytarmaSetri, SatisElementi, SatisSetri, StokSetri,
};
use crate::kenar::ad_soyad_birlesdir;
use crate::store::{
    i64_sigar, kateqoriya_indeksi, kateqoriya_movcud, mehsul_indeksi, mehsul_movcud,
    musteri_indeksi, musteri_movcud, olcu_indeksi, olcu_movcud, qaytarma_indeksi, qaytarma_movcud,
    stoklar_tek_seq, Store,
};
use crate::tarix::Tarix;
use crate::xeta::Xeta;

verus! {

/// The derived return status of a sale: no returns, some lines
/// returned, or everything sold returned.
#[derive(Clone, Copy, PartialEq, Eq, Structural, Debug)]
pub enum IadeDurumu {
    Yoxdur,
    Qismen,
    Tam,
}

/// An optional date range for the sales list; a missing bound leaves
/// that side open.
#[derive(Clone, Copy, PartialEq, Eq, Structural, Debug)]
pub struct SalesListFilter {
    pub baslangic_tarix: Option<Tarix>,
    pub bitis_tarix: Option<Tarix>,
}

/// One sale in the dated list, with its line count and derived return
/// status.
#[derive(Clone, PartialEq, Eq, Debug)]
pub struct SaleListItem {
    pub id: i64,
    pub satis_nomresi: String,
    pub musteri_id: Option<i64>,
    pub musteri_adi: Option<String>,
    pub toplam_mebleg: i64,
    pub endirim: i64,
    pub son_mebleg: i64,
    pub odenis_usulu: OdenisUsulu,
    pub qeyd: Option<String>,
    pub tarix: Tarix,
    pub mehsul_sayi: u64,
    pub iade_durumu: IadeDurumu,
}

/// One row of the low-stock report.
#[derive(Clone, PartialEq, Eq, Debug)]
pub struct LowStockAlert {
    pub mehsul_id: i64,
    pub mehsul_adi: String,
    pub barkod: String,
    pub olcu: String,
    pub miqdar: i64,
    pub minimum_miqdar: i64,
}

/// One day's sales totals.
#[derive(Clone, Copy, PartialEq, Eq, Structural, Debug)]
pub struct DailySalesReport {
    pub tarix: Tarix,
    pub satis_sayi: u64,
    pub toplam_mebleg: i64,
    pub endirim: i64,
    pub net_mebleg: i64,
}

/// One month's sales totals.
#[derive(Clone, Copy, PartialEq, Eq, Structural, Debug)]
pub struct MonthlySalesReport {
    pub il: i64,
    pub ay: i64,
    pub satis_sayi: u64,
    pub toplam_mebleg: i64,
    pub endirim: i64,
    pub net_mebleg: i64,
}

/// The sale's date falls inside the filter's range.
pub open spec fn suzgece_uygun(t: Tarix, f: SalesListFilter) -> bool {
    &&& match f.baslangic_tarix {
        Some(b) => b.evvel_ve_ya_eyni(t),
        None => true,
    }
    &&& match f.bitis_tarix {
        Some(e) => t.evvel_ve_ya_eyni(e),
        None => true,
    }
}

/// How many line rows the first `n` sale-line rows hold for sale `sid`.
pub open spec fn satis_element_sayi(el: Seq<SatisElementi>, n: int, sid: int) -> int
    decreases n,
{
    if n <= 0 {
        0
    } else {
        satis_element_sayi(el, n - 1, sid) + if el[n - 1].satis_id == sid {
            1int
        } else {
            0int
        }
    }
}

/// The total quantity the first `n` sale-line rows sold for sale `sid`.
pub open spec fn satilan_miqdar(el: Seq<SatisElementi>, n: int, sid: int) -> int
    decreases n,
{
    if n <= 0 {
        0
    } else {
        satilan_miqdar(el, n - 1, sid) + if el[n - 1].satis_id == sid {
            el[n - 1].miqdar as int
        } else {
            0
        }
    }
}

/// The total quantity the first `n` return-line rows gave back for sale
/// `sid`: a line counts when its return header exists and references
/// the sale.
pub open spec fn qaytarilan_miqdar(
    qs: Seq<QaytarmaSetri>,
    qel: Seq<QaytarmaElementi>,
    n: int,
    sid: int,
) -> int
    decreases n,
{
    if n <= 0 {
        0
    } else {
        qaytarilan_miqdar(qs, qel, n - 1, sid) + if qaytarma_movcud(
            qs,
            qel[n - 1].iade_id as int,
        ) && qs[qaytarma_indeksi(qs, qel[n - 1].iade_id as int)].satis_id == sid {
            qel[n - 1].miqdar as int
        } else {
            0
        }
    }
}

/// Some return references the sale.
pub open spec fn satisin_qaytarmasi_var(qs: Seq<QaytarmaSetri>, sid: int) -> bool {
    exists|j: int| 0 <= j < qs.len() && (#[trigger] qs[j]).satis_id == sid
}

/// The derived return status of one sale: none while no return
/// references it; full when the returned quantity reaches the sold
/// quantity; partial otherwise.
pub open spec fn iade_durumu_spec(
    qs: Seq<QaytarmaSetri>,
    qel: Seq<QaytarmaElementi>,
    el: Seq<SatisElementi>,
    sid: int,
) -> IadeDurumu {
    if !satisin_qaytarmasi_var(qs, sid) {
        IadeDurumu::Yoxdur
    } else if qaytarilan_miqdar(qs, qel, qel.len() as int, sid) >= satilan_miqdar(
        el,
        el.len() as int,
        sid,
    ) {
        IadeDurumu::Tam
    } else {
        IadeDurumu::Qismen
    }
}

/// `x` is one of the stored stock rows.
pub open spec fn stokda_movcud_setir(stoklar: Seq<StokSetri>, x: StokSetri) -> bool {
    exists|k: int| 0 <= k < stoklar.len() && #[trigger] stoklar[k] == x
}

/// `g` reports one stored stock row that is at or under its minimum
/// threshold, with its display fields resolved where the referenced
/// rows exist.
pub open spec fn xeberdarliq_uygun(
    mehsullar: Seq<crate::model::MehsulSetri>,
    olculer: Seq<crate::model::OlcuSetri>,
    stoklar: Seq<StokSetri>,
    g: LowStockAlert,
) -> bool {
    exists|k: int|
        #![trigger stoklar[k]]
        0 <= k < stoklar.len() && {
            let setir = stoklar[k];
            &&& setir.miqdar <= setir.minimum_miqdar
            &&& g.mehsul_id == setir.mehsul_id
            &&& g.miqdar == setir.miqdar
            &&& g.minimum_miqdar == setir.minimum_miqdar
            &&& (mehsul_movcud(mehsullar, setir.mehsul_id as int) ==> g.mehsul_adi@
                == mehsullar[mehsul_indeksi(mehsullar, setir.mehsul_id as int)].ad@ && g.barkod@
                == mehsullar[mehsul_indeksi(mehsullar, setir.mehsul_id as int)].barkod@)
            &&& (olcu_movcud(olculer, setir.olcu_id as int) ==> g.olcu@ == olculer[olcu_indeksi(
                olculer,
                setir.olcu_id as int,
            )].olcu@)
        }
}

/// `x` is a stored stock row at or under its minimum threshold.
pub open spec fn uygun_az_setir(stoklar: Seq<StokSetri>, x: StokSetri) -> bool {
    stokda_movcud_setir(stoklar, x) && x.miqdar <= x.minimum_miqdar
}

/// `g` shows the sale `setir` as one row of the dated list: header
/// fields, the line count, and the derived return status.
pub open spec fn siyahi_setri_uygun(s: Store, setir: SatisSetri, g: SaleListItem) -> bool {
    &&& g.id == setir.id
    &&& g.satis_nomresi@ == setir.satis_nomresi@
    &&& g.musteri_id == setir.musteri_id
    &&& match setir.musteri_id {
        Some(c) => if musteri_movcud(s.musteriler@, c as int) {
            let mr = s.musteriler@[musteri_indeksi(s.musteriler@, c as int)];
            g.musteri_adi matches Some(n) && n@ == mr.ad@ + seq![' '] + mr.soyad@
        } else {
            g.musteri_adi is None
        },
        None => g.musteri_adi is None,
    }
    &&& g.toplam_mebleg == setir.toplam_mebleg
    &&& g.endirim == setir.endirim
    &&& g.son_mebleg == setir.son_mebleg
    &&& g.odenis_usulu == setir.odenis_usulu
    &&& g.qeyd == setir.qeyd
    &&& g.tarix == setir.tarix
    &&& g.mehsul_sayi as int == satis_element_sayi(
        s.satis_elementleri@,
        s.satis_elementleri@.len() as int,
        setir.id as int,
    )
    &&& g.iade_durumu == iade_durumu_spec(
        s.qaytarmalar@,
        s.qaytarma_elementleri@,
        s.satis_elementleri@,
        setir.id as int,
    )
}

impl Store {
    /// The sold quantity and line count of one sale.
    #[verifier::loop_isolation(false)]
    fn satis_xulasesi(&self, sid: i64) -> (r: (u64, i128))
        ensures
            r.0 as int == satis_element_sayi(
                self.satis_elementleri@,
                self.satis_elementleri@.len() as int,
                sid as int,
            ),
            r.1 as int == satilan_miqdar(
                self.satis_elementleri@,
                self.satis_elementleri@.len() as int,
                sid as int,
            ),
    {
        let mut say: u64 = 0;
        let mut cem: i128 = 0;
        let n = self.satis_elementleri.len();
        let mut i: usize = 0;
        while i < n
            invariant
                n == self.satis_elementleri@.len(),
                0 <= i <= n,
                say as int == satis_element_sayi(self.satis_elementleri@, i as int, sid as int),
                say as int <= i,
                cem as int == satilan_miqdar(self.satis_elementleri@, i as int, sid as int),
                -((i as int) * 0x8000_0000_0000_0000) <= cem as int <= (i as int)
                    * 0x8000_0000_0000_0000,
            decreases n - i,
        {
            proof {
                assert((i as int) * 0x8000_0000_0000_0000 <= (n as int) * 0x8000_0000_0000_0000
                    && (n as int) * 0x8000_0000_0000_0000
                    <= 0x8000_0000_0000_0000_0000_0000_0000_0000 - 0x8000_0000_0000_0000) by (nonlinear_arith)
                    requires
                        0 <= i as int <= n as int,
                        n as int <= 0xFFFF_FFFF_FFFF_FFFF,
                ;
                assert((i + 1) as int * 0x8000_0000_0000_0000 == (i as int) * 0x8000_0000_0000_0000
                    + 0x8000_0000_0000_0000) by (nonlinear_arith);
            }
            let e = &self.satis_elementleri[i];
            if e.satis_id == sid {
                say = say + 1;
                cem = cem + (e.miqdar as i128);
            }
            i = i + 1;
        }
        (say, cem)
    }

    /// The returned quantity of one sale, and whether any return
    /// references it.
    #[verifier::loop_isolation(false)]
    fn qaytarma_xulasesi(&self, sid: i64) -> (r: (bool, i128))
        requires
            self.kecerli(),
        ensures
            r.0 == satisin_qaytarmasi_var(self.qaytarmalar@, sid as int),
            r.1 as int == qaytarilan_miqdar(
                self.qaytarmalar@,
                self.qaytarma_elementleri@,
                self.qaytarma_elementleri@.len() as int,
                sid as int,
            ),
    {
        let mut var: bool = false;
        let nq = self.qaytarmalar.len();
        let mut i: usize = 0;
        while i < nq
            invariant
                nq == self.qaytarmalar@.len(),
                0 <= i <= nq,
                var == exists|j: int|
                    0 <= j < i && (#[trigger] self.qaytarmalar@[j]).satis_id == sid,
            decreases nq - i,
        {
            if self.qaytarmalar[i].satis_id == sid {
                var = true;
            }
            i = i + 1;
        }
        let mut cem: i128 = 0;
        let n = self.qaytarma_elementleri.len();
        i = 0;
        while i < n
            invariant
                n == self.qaytarma_elementleri@.len(),
                0 <= i <= n,
                cem as int == qaytarilan_miqdar(
                    self.qaytarmalar@,
                    self.qaytarma_elementleri@,
                    i as int,
                    sid as int,
                ),
                -((i as int) * 0x8000_0000_0000_0000) <= cem as int <= (i as int)
                    * 0x8000_0000_0000_0000,
            decreases n - i,
        {
            proof {
                assert((i as int) * 0x8000_0000_0000_0000 <= (n as int) * 0x8000_0000_0000_0000
                    && (n as int) * 0x8000_0000_0000_0000
                    <= 0x8000_0000_0000_0000_0000_0000_0000_0000 - 0x8000_0000_0000_0000) by (nonlinear_arith)
                    requires
                        0 <= i as int <= n as int,
                        n as int <= 0xFFFF_FFFF_FFFF_FFFF,
                ;
                assert((i + 1) as int * 0x8000_0000_0000_0000 == (i as int) * 0x8000_0000_0000_0000
                    + 0x8000_0000_0000_0000) by (nonlinear_arith);
            }
            let e = &self.qaytarma_elementleri[i];
            let sayilir: bool = match self.qaytarma_tap(e.iade_id) {
                Some(j) => self.qaytarmalar[j].satis_id == sid,
                None => false,
            };
            if sayilir {
                cem = cem + (e.miqdar as i128);
            }
            i = i + 1;
        }
        (var, cem)
    }

    /// The sales inside the date range, in storage order, each with its
    /// line count and derived return status.
    #[verifier::loop_isolation(false)]
    pub fn satis_siyahisi_tarixe_gore(&self, suzgec: SalesListFilter) -> (r: Vec<SaleListItem>)
        requires
            self.kecerli(),
        ensures
            r@.len() == self.satislar@.filter(|x: SatisSetri| suzgece_uygun(x.tarix, suzgec)).len(),
            forall|i: int|
                0 <= i < r@.len() ==> siyahi_setri_uygun(
                    *self,
                    self.satislar@.filter(|x: SatisSetri| suzgece_uygun(x.tarix, suzgec))[i],
                    #[trigger] r@[i],
                ),
    {
        let mut r: Vec<SaleListItem> = Vec::new();
        let n = self.satislar.len();
        let mut i: usize = 0;
        while i < n
            invariant
                n == self.satislar@.len(),
                0 <= i <= n,
                r@.len() == self.satislar@.subrange(0, i as int).filter(
                    |x: SatisSetri| suzgece_uygun(x.tarix, suzgec),
                ).len(),
                forall|j: int|
                    0 <= j < r@.len() ==> siyahi_setri_uygun(
                        *self,
                        self.satislar@.subrange(0, i as int).filter(
                            |x: SatisSetri| suzgece_uygun(x.tarix, suzgec),
                        )[j],
                        #[trigger] r@[j],
                    ),
            decreases n - i,
        {
            let ghost evvel = self.satislar@.subrange(0, i as int);
            let setir = &self.satislar[i];
            let kecir: bool = match &suzgec.baslangic_tarix {
                Some(b) => b.evvel_ve_ya_eynidir(&setir.tarix),
                None => true,
            } && match &suzgec.bitis_tarix {
                Some(e) => setir.tarix.evvel_ve_ya_eynidir(e),
                None => true,
            };
            if kecir {
                let (say, satilan) = self.satis_xulasesi(setir.id);
                let (var, qaytarilan) = self.qaytarma_xulasesi(setir.id);
                let durumu = if !var {
                    IadeDurumu::Yoxdur
                } else if qaytarilan >= satilan {
                    IadeDurumu::Tam
                } else {
                    IadeDurumu::Qismen
                };
                let musteri_adi: Option<String> = match setir.musteri_id {
                    Some(c) => match self.musteri_tap(c) {
                        Some(mk) => {
                            let mr = &self.musteriler[mk];
                            Some(ad_soyad_birlesdir(mr.ad.as_str(), mr.soyad.as_str()))
                        },
                        None => None,
                    },
                    None => None,
                };
                r.push(
                    SaleListItem {
                        id: setir.id,
                        satis_nomresi: setir.satis_nomresi.clone(),
                        musteri_id: setir.musteri_id,
                        musteri_adi,
                        toplam_mebleg: setir.toplam_mebleg,
                        endirim: setir.endirim,
                        son_mebleg: setir.son_mebleg,
                        odenis_usulu: setir.odenis_usulu,
                        qeyd: setir.qeyd.clone(),
                        tarix: setir.tarix,
                        mehsul_sayi: say,
                        iade_durumu: durumu,
                    },
                );
            }
            i = i + 1;
            proof {
                let sonra = self.satislar@.subrange(0, i as int);
                assert(sonra.drop_last() =~= evvel);
                assert(sonra.last() == self.satislar@[i - 1]);
                reveal_with_fuel(Seq::filter, 2);
                assert(sonra.filter(|x: SatisSetri| suzgece_uygun(x.tarix, suzgec)) == if kecir {
                    evvel.filter(|x: SatisSetri| suzgece_uygun(x.tarix, suzgec)).push(
                        self.satislar@[i - 1],
                    )
                } else {
                    evvel.filter(|x: SatisSetri| suzgece_uygun(x.tarix, suzgec))
                });
            }
        }
        proof {
            assert(self.satislar@.subrange(0, n as int) =~= self.satislar@);
        }
        r
    }

    /// One day's totals: how many sales, and the summed gross,
    /// discount and net amounts, zero when the day had none. Fails
    /// only when a summed total does not fit a 64-bit amount.
    #[verifier::loop_isolation(false)]
    pub fn gunluk_satis_hesabati(&self, tarix: Tarix) -> (r: Result<DailySalesReport, Xeta>)
        ensures
            r matches Ok(g) ==> {
                &&& g.tarix == tarix
                &&& g.satis_sayi as int == self.satislar@.filter(
                    |x: SatisSetri| x.tarix == tarix,
                ).len()
                &&& g.toplam_mebleg as int == gun_cemi_toplam(
                    self.satislar@,
                    self.satislar@.len() as int,
                    tarix,
                )
                &&& g.endirim as int == gun_cemi_endirim(
                    self.satislar@,
                    self.satislar@.len() as int,
                    tarix,
                )
                &&& g.net_mebleg as int == gun_cemi_net(
                    self.satislar@,
                    self.satislar@.len() as int,
                    tarix,
                )
            },
            r is Err <==> !(i64_sigar(
                gun_cemi_toplam(self.satislar@, self.satislar@.len() as int, tarix),
            ) && i64_sigar(gun_cemi_endirim(self.satislar@, self.satislar@.len() as int, tarix))
                && i64_sigar(gun_cemi_net(self.satislar@, self.satislar@.len() as int, tarix))),
            r is Err ==> r == Err::<DailySalesReport, Xeta>(Xeta::HeddenArtiq),
    {
        let n = self.satislar.len();
        let mut say: u64 = 0;
        let mut toplam: i128 = 0;
        let mut endirim: i128 = 0;
        let mut net: i128 = 0;
        let mut i: usize = 0;
        while i < n
            invariant
                n == self.satislar@.len(),
                0 <= i <= n,
                say as int == self.satislar@.subrange(0, i as int).filter(
                    |x: SatisSetri| x.tarix == tarix,
                ).len(),
                say as int <= i,
                toplam as int == gun_cemi_toplam(self.satislar@, i as int, tarix),
                endirim as int == gun_cemi_endirim(self.satislar@, i as int, tarix),
                net as int == gun_cemi_net(self.satislar@, i as int, tarix),
                -((i as int) * 0x8000_0000_0000_0000) <= toplam as int <= (i as int)
                    * 0x8000_0000_0000_0000,
                -((i as int) * 0x8000_0000_0000_0000) <= endirim as int <= (i as int)
                    * 0x8000_0000_0000_0000,
                -((i as int) * 0x8000_0000_0000_0000) <= net as int <= (i as int)
                    * 0x8000_0000_0000_0000,
            decreases n - i,
        {
            proof {
                assert((i as int) * 0x8000_0000_0000_0000 <= (n as int) * 0x8000_0000_0000_0000
                    && (n as int) * 0x8000_0000_0000_0000
                    <= 0x8000_0000_0000_0000_0000_0000_0000_0000 - 0x8000_0000_0000_0000) by (nonlinear_arith)
                    requires
                        0 <= i as int <= n as int,
                        n as int <= 0xFFFF_FFFF_FFFF_FFFF,
                ;
                assert((i + 1) as int * 0x8000_0000_0000_0000 == (i as int) * 0x8000_0000_0000_0000
                    + 0x8000_0000_0000_0000) by (nonlinear_arith);
            }
            let ghost evvel = self.satislar@.subrange(0, i as int);
            let s = &self.satislar[i];
            let uygundur = s.tarix.eyni_gundur(&tarix);
            if uygundur {
                say = say + 1;
                toplam = toplam + (s.toplam_mebleg as i128);
                endirim = endirim + (s.endirim as i128);
                net = net + (s.son_mebleg as i128);
            }
            i = i + 1;
            proof {
                let sonra = self.satislar@.subrange(0, i as int);
                assert(sonra.drop_last() =~= evvel);
                assert(sonra.last() == self.satislar@[i - 1]);
                reveal_with_fuel(Seq::filter, 2);
                assert(sonra.filter(|x: SatisSetri| x.tarix == tarix) == if uygundur {
                    evvel.filter(|x: SatisSetri| x.tarix == tarix).push(self.satislar@[i - 1])
                } else {
                    evvel.filter(|x: SatisSetri| x.tarix == tarix)
                });
            }
        }
        proof {
            assert(self.satislar@.subrange(0, n as int) =~= self.satislar@);
        }
        if toplam > i64::MAX as i128 || toplam < i64::MIN as i128 || endirim > i64::MAX as i128
            || endirim < i64::MIN as i128 || net > i64::MAX as i128 || net < i64::MIN as i128 {
            return Err(Xeta::HeddenArtiq);
        }
        Ok(
            DailySalesReport {
                tarix,
                satis_sayi: say,
                toplam_mebleg: toplam as i64,
                endirim: endirim as i64,
                net_mebleg: net as i64,
            },
        )
    }
}

/// The summed gross amounts of the first `n` sales on day `t`.
pub open spec fn gun_cemi_toplam(s: Seq<SatisSetri>, n: int, t: Tarix) -> int
    decreases n,
{
    if n <= 0 {
        0
    } else {
        gun_cemi_toplam(s, n - 1, t) + if s[n - 1].tarix == t {
            s[n - 1].toplam_mebleg as int
        } else {
            0
        }
    }
}

/// The summed discounts of the first `n` sales on day `t`.
pub open spec fn gun_cemi_endirim(s: Seq<SatisSetri>, n: int, t: Tarix) -> int
    decreases n,
{
    if n <= 0 {
        0
    } else {
        gun_cemi_endirim(s, n - 1, t) + if s[n - 1].tarix == t {
            s[n - 1].endirim as int
        } else {
            0
        }
    }
}

/// The summed net amounts of the first `n` sales on day `t`.
pub open spec fn gun_cemi_net(s: Seq<SatisSetri>, n: int, t: Tarix) -> int
    decreases n,
{
    if n <= 0 {
        0
    } else {
        gun_cemi_net(s, n - 1, t) + if s[n - 1].tarix == t {
            s[n - 1].son_mebleg as int
        } else {
            0
        }
    }
}

/// The summed gross amounts of the first `n` sales in month (il, ay).
pub open spec fn ay_cemi_toplam(s: Seq<SatisSetri>, n: int, il: int, ay: int) -> int
    decreases n,
{
    if n <= 0 {
        0
    } else {
        ay_cemi_toplam(s, n - 1, il, ay) + if s[n - 1].tarix.il == il && s[n - 1].tarix.ay == ay {
            s[n - 1].toplam_mebleg as int
        } else {
            0
        }
    }
}

/// The summed discounts of the first `n` sales in month (il, ay).
pub open spec fn ay_cemi_endirim(s: Seq<SatisSetri>, n: int, il: int, ay: int) -> int
    decreases n,
{
    if n <= 0 {
        0
    } else {
        ay_cemi_endirim(s, n - 1, il, ay) + if s[n - 1].tarix.il == il && s[n - 1].tarix.ay == ay {
            s[n - 1].endirim as int
        } else {
            0
        }
    }
}

/// The summed net amounts of the first `n` sales in month (il, ay).
pub open spec fn ay_cemi_net(s: Seq<SatisSetri>, n: int, il: int, ay: int) -> int
    decreases n,
{
    if n <= 0 {
        0
    } else {
        ay_cemi_net(s, n - 1, il, ay) + if s[n - 1].tarix.il == il && s[n - 1].tarix.ay == ay {
            s[n - 1].son_mebleg as int
        } else {
            0
        }
    }
}

impl Store {
    /// One month's totals, zero when the month had none. Fails only
    /// when a summed total does not fit a 64-bit amount.
    #[verifier::loop_isolation(false)]
    pub fn ayliq_satis_hesabati(&self, il: i64, ay: i64) -> (r: Result<MonthlySalesReport, Xeta>)
        ensures
            r matches Ok(g) ==> {
                &&& g.il == il
                &&& g.ay == ay
                &&& g.satis_sayi as int == self.satislar@.filter(
                    |x: SatisSetri| x.tarix.il == il && x.tarix.ay == ay,
                ).len()
                &&& g.toplam_mebleg as int == ay_cemi_toplam(
                    self.satislar@,
                    self.satislar@.len() as int,
                    il as int,
                    ay as int,
                )
                &&& g.endirim as int == ay_cemi_endirim(
                    self.satislar@,
                    self.satislar@.len() as int,
                    il as int,
                    ay as int,
                )
                &&& g.net_mebleg as int == ay_cemi_net(
                    self.satislar@,
                    self.satislar@.len() as int,
                    il as int,
                    ay as int,
                )
            },
            r is Err <==> !(i64_sigar(
                ay_cemi_toplam(self.satislar@, self.satislar@.len() as int, il as int, ay as int),
            ) && i64_sigar(
                ay_cemi_endirim(self.satislar@, self.satislar@.len() as int, il as int, ay as int),
            ) && i64_sigar(
                ay_cemi_net(self.satislar@, self.satislar@.len() as int, il as int, ay as int),
            )),
            r is Err ==> r == Err::<MonthlySalesReport, Xeta>(Xeta::HeddenArtiq),
    {
        let n = self.satislar.len();
        let mut say: u64 = 0;
        let mut toplam: i128 = 0;
        let mut endirim: i128 = 0;
        let mut net: i128 = 0;
        let mut i: usize = 0;
        while i < n
            invariant
                n == self.satislar@.len(),
                0 <= i <= n,
                say as int == self.satislar@.subrange(0, i as int).filter(
                    |x: SatisSetri| x.tarix.il == il && x.tarix.ay == ay,
                ).len(),
                say as int <= i,
                toplam as int == ay_cemi_toplam(self.satislar@, i as int, il as int, ay as int),
                endirim as int == ay_cemi_endirim(self.satislar@, i as int, il as int, ay as int),
                net as int == ay_cemi_net(self.satislar@, i as int, il as int, ay as int),
                -((i as int) * 0x8000_0000_0000_0000) <= toplam as int <= (i as int)
                    * 0x8000_0000_0000_0000,
                -((i as int) * 0x8000_0000_0000_0000) <= endirim as int <= (i as int)
                    * 0x8000_0000_0000_0000,
                -((i as int) * 0x8000_0000_0000_0000) <= net as int <= (i as int)
                    * 0x8000_0000_0000_0000,
            decreases n - i,
        {
            proof {
                assert((i as int) * 0x8000_0000_0000_0000 <= (n as int) * 0x8000_0000_0000_0000
                    && (n as int) * 0x8000_0000_0000_0000
                    <= 0x8000_0000_0000_0000_0000_0000_0000_0000 - 0x8000_0000_0000_0000) by (nonlinear_arith)
                    requires
                        0 <= i as int <= n as int,
                        n as int <= 0xFFFF_FFFF_FFFF_FFFF,
                ;
                assert((i + 1) as int * 0x8000_0000_0000_0000 == (i as int) * 0x8000_0000_0000_0000
                    + 0x8000_0000_0000_0000) by (nonlinear_arith);
            }
            let ghost evvel = self.satislar@.subrange(0, i as int);
            let s = &self.satislar[i];
            let uygundur = s.tarix.eyni_aydir(il, ay);
            if uygundur {
                say = say + 1;
                toplam = toplam + (s.toplam_mebleg as i128);
                endirim = endirim + (s.endirim as i128);
                net = net + (s.son_mebleg as i128);
            }
            i = i + 1;
            proof {
                let sonra = self.satislar@.subrange(0, i as int);
                assert(sonra.drop_last() =~= evvel);
                assert(sonra.last() == self.satislar@[i - 1]);
                reveal_with_fuel(Seq::filter, 2);
                assert(sonra.filter(|x: SatisSetri| x.tarix.il == il && x.tarix.ay == ay)
                    == if uygundur {
                    evvel.filter(|x: SatisSetri| x.tarix.il == il && x.tarix.ay == ay).push(
                        self.satislar@[i - 1],
                    )
                } else {
                    evvel.filter(|x: SatisSetri| x.tarix.il == il && x.tarix.ay == ay)
                });
            }
        }
        proof {
            assert(self.satislar@.subrange(0, n as int) =~= self.satislar@);
        }
        if toplam > i64::MAX as i128 || toplam < i64::MIN as i128 || endirim > i64::MAX as i128
            || endirim < i64::MIN as i128 || net > i64::MAX as i128 || net < i64::MIN as i128 {
            return Err(Xeta::HeddenArtiq);
        }
        Ok(
            MonthlySalesReport {
                il,
                ay,
                satis_sayi: say,
                toplam_mebleg: toplam as i64,
                endirim: endirim as i64,
                net_mebleg: net as i64,
            },
        )
    }

    /// The low-stock rows: every stock row at or under its minimum
    /// threshold, ascending by quantity, with display data resolved.
    #[verifier::loop_isolation(false)]
    #[verifier::rlimit(60)]
    pub fn stok_hesabati(&self) -> (r: Vec<LowStockAlert>)
        requires
            self.kecerli(),
        ensures
            r@.len() == self.stoklar@.filter(
                |x: StokSetri| x.miqdar <= x.minimum_miqdar,
            ).len(),
            forall|i: int, j: int|
                0 <= i < j < r@.len() ==> (#[trigger] r@[i]).miqdar <= (#[trigger] r@[j]).miqdar,
            forall|i: int|
                0 <= i < r@.len() ==> xeberdarliq_uygun(
                    self.mehsullar@,
                    self.olculer@,
                    self.stoklar@,
                    #[trigger] r@[i],
                ),
    {
        // collect the qualifying rows
        let mut setirler: Vec<StokSetri> = Vec::new();
        let n = self.stoklar.len();
        let mut i: usize = 0;
        while i < n
            invariant
                n == self.stoklar@.len(),
                0 <= i <= n,
                setirler@ == self.stoklar@.subrange(0, i as int).filter(
                    |x: StokSetri| x.miqdar <= x.minimum_miqdar,
                ),
                forall|a: int|
                    0 <= a < setirler@.len() ==> uygun_az_setir(
                        self.stoklar@,
                        #[trigger] setirler@[a],
                    ),
            decreases n - i,
        {
            let ghost evvel = self.stoklar@.subrange(0, i as int);
            let setir = self.stoklar[i];
            if setir.miqdar <= setir.minimum_miqdar {
                setirler.push(setir);
                proof {
                    assert(self.stoklar@[i as int] == setir);
                    assert(uygun_az_setir(self.stoklar@, setir));
                }
            }
            i = i + 1;
            proof {
                let sonra = self.stoklar@.subrange(0, i as int);
                assert(sonra.drop_last() =~= evvel);
                assert(sonra.last() == setir);
                reveal_with_fuel(Seq::filter, 2);
                assert(sonra.filter(|x: StokSetri| x.miqdar <= x.minimum_miqdar)
                    == if setir.miqdar <= setir.minimum_miqdar {
                    evvel.filter(|x: StokSetri| x.miqdar <= x.minimum_miqdar).push(setir)
                } else {
                    evvel.filter(|x: StokSetri| x.miqdar <= x.minimum_miqdar)
                });
            }
        }
        proof {
            assert(self.stoklar@.subrange(0, n as int) =~= self.stoklar@);
        }
        let ghost hamisi = setirler@;
        // selection sort, ascending by quantity
        let mut sirali: Vec<StokSetri> = Vec::new();
        while setirler.len() > 0
            invariant
                sirali@.len() + setirler@.len() == hamisi.len(),
                forall|a: int, b: int|
                    0 <= a < b < sirali@.len() ==> (#[trigger] sirali@[a]).miqdar
                        <= (#[trigger] sirali@[b]).miqdar,
                forall|a: int, b: int|
                    0 <= a < sirali@.len() && 0 <= b < setirler@.len() ==> (#[trigger] sirali@[a]).miqdar
                        <= (#[trigger] setirler@[b]).miqdar,
                forall|a: int|
                    0 <= a < sirali@.len() ==> uygun_az_setir(
                        self.stoklar@,
                        #[trigger] sirali@[a],
                    ),
                forall|a: int|
                    0 <= a < setirler@.len() ==> uygun_az_setir(
                        self.stoklar@,
                        #[trigger] setirler@[a],
                    ),
            decreases setirler@.len(),
        {
            let mut en_kicik: usize = 0;
            let mut j: usize = 1;
            while j < setirler.len()
                invariant
                    setirler@.len() > 0,
                    1 <= j <= setirler@.len(),
                    0 <= en_kicik < j,
                    forall|a: int|
                        0 <= a < j ==> setirler@[en_kicik as int].miqdar
                            <= (#[trigger] setirler@[a]).miqdar,
                decreases setirler@.len() - j,
            {
                if setirler[j].miqdar < setirler[en_kicik].miqdar {
                    en_kicik = j;
                }
                j = j + 1;
            }
            let ghost setirler_evvel = setirler@;
            let ghost sirali_evvel = sirali@;
            let x = setirler.remove(en_kicik);
            sirali.push(x);
            proof {
                assert forall|a: int| 0 <= a < sirali_evvel.len() implies (#[trigger] sirali_evvel[a]).miqdar
                    <= x.miqdar by {
                    assert(sirali_evvel[a].miqdar <= setirler_evvel[en_kicik as int].miqdar);
                }
                assert(setirler@ =~= setirler_evvel.subrange(0, en_kicik as int)
                    + setirler_evvel.subrange(
                    en_kicik as int + 1,
                    setirler_evvel.len() as int,
                ));
                assert forall|a: int| 0 <= a < setirler@.len() implies uygun_az_setir(
                    self.stoklar@,
                    #[trigger] setirler@[a],
                ) by {
                    let a0 = if a < en_kicik as int {
                        a
                    } else {
                        a + 1
                    };
                    assert(setirler@[a] == setirler_evvel[a0]);
                }
                assert forall|a: int, b: int|
                    0 <= a < sirali@.len() && 0 <= b < setirler@.len() implies (#[trigger] sirali@[a]).miqdar
                    <= (#[trigger] setirler@[b]).miqdar by {
                    let b0 = if b < en_kicik as int {
                        b
                    } else {
                        b + 1
                    };
                    assert(setirler@[b] == setirler_evvel[b0]);
                    if a < sirali@.len() - 1 {
                        assert(sirali@[a].miqdar <= setirler_evvel[b0].miqdar);
                    } else {
                        assert(sirali@[a] == x);
                        assert(x.miqdar <= setirler_evvel[b0].miqdar);
                    }
                }
            }
        }
        // resolve display data
        let mut r: Vec<LowStockAlert> = Vec::new();
        i = 0;
        while i < sirali.len()
            invariant
                0 <= i <= sirali@.len(),
                r@.len() == i,
                forall|a: int, b: int|
                    0 <= a < b < sirali@.len() ==> (#[trigger] sirali@[a]).miqdar
                        <= (#[trigger] sirali@[b]).miqdar,
                forall|a: int|
                    0 <= a < sirali@.len() ==> uygun_az_setir(
                        self.stoklar@,
                        #[trigger] sirali@[a],
                    ),
                forall|a: int|
                    0 <= a < i ==> (#[trigger] r@[a]).miqdar == sirali@[a].miqdar,
                forall|a: int|
                    0 <= a < i ==> xeberdarliq_uygun(
                        self.mehsullar@,
                        self.olculer@,
                        self.stoklar@,
                        #[trigger] r@[a],
                    ),
            decreases sirali@.len() - i,
        {
            let setir = sirali[i];
            proof {
                assert(uygun_az_setir(self.stoklar@, setir));
            }
            let ghost kw = choose|k: int|
                0 <= k < self.stoklar@.len() && #[trigger] self.stoklar@[k] == setir;
            let mehsul_adi: String;
            let barkod: String;
            match self.mehsul_tap(setir.mehsul_id) {
                Some(k) => {
                    mehsul_adi = self.mehsullar[k].ad.clone();
                    barkod = self.mehsullar[k].barkod.clone();
                },
                None => {
                    mehsul_adi = String::new();
                    barkod = String::new();
                },
            }
            let olcu: String = match self.olcu_tap(setir.olcu_id) {
                Some(k) => self.olculer[k].olcu.clone(),
                None => String::new(),
            };
            r.push(
                LowStockAlert {
                    mehsul_id: setir.mehsul_id,
                    mehsul_adi,
                    barkod,
                    olcu,
                    miqdar: setir.miqdar,
                    minimum_miqdar: setir.minimum_miqdar,
                },
            );
            i = i + 1;
            proof {
                assert(0 <= kw < self.stoklar@.len() && self.stoklar@[kw] == setir);
                let yeni = r@[i as int - 1];
                assert({
                    let setir2 = self.stoklar@[kw];
                    &&& setir2.miqdar <= setir2.minimum_miqdar
                    &&& yeni.mehsul_id == setir2.mehsul_id
                    &&& yeni.miqdar == setir2.miqdar
                    &&& yeni.minimum_miqdar == setir2.minimum_miqdar
                    &&& (mehsul_movcud(self.mehsullar@, setir2.mehsul_id as int)
                        ==> yeni.mehsul_adi@ == self.mehsullar@[mehsul_indeksi(
                        self.mehsullar@,
                        setir2.mehsul_id as int,
                    )].ad@ && yeni.barkod@ == self.mehsullar@[mehsul_indeksi(
                        self.mehsullar@,
                        setir2.mehsul_id as int,
                    )].barkod@)
                    &&& (olcu_movcud(self.olculer@, setir2.olcu_id as int) ==> yeni.olcu@
                        == self.olculer@[olcu_indeksi(self.olculer@, setir2.olcu_id as int)].olcu@)
                });
                assert(xeberdarliq_uygun(self.mehsullar@, self.olculer@, self.stoklar@, yeni));
            }
        }
        proof {
            assert(sirali@.len() == hamisi.len());
            assert(hamisi =~= self.stoklar@.filter(|x: StokSetri| x.miqdar <= x.minimum_miqdar));
            assert(r@.len() == self.stoklar@.filter(
                |x: StokSetri| x.miqdar <= x.minimum_miqdar,
            ).len());
        }
        r
    }
}

} // verus!

use vstd::prelude::*;
use crate::borc::i128_sigar;
use crate::model::{MehsulSetri, OlcuSetri, QaytarmaElementi, QaytarmaSetri, SatisElementi,
    SatisSetri};
use crate::store::{
    i64_sigar, mehsul_indeksi, mehsul_movcud, olcu_indeksi, olcu_movcud, qaytarma_indeksi,
    qaytarma_movcud, satis_indeksi, satis_movcud, Store,
};
use crate::tarix::Tarix;
use crate::xeta::Xeta;

verus! {

/// One (product, size) line of the profit report, all money in qepik.
#[derive(Clone, PartialEq, Eq, Debug)]
pub struct ProfitReportItem {
    pub mehsul_id: i64,
    pub mehsul_adi: String,
    pub barkod: String,
    pub olcu_id: i64,
    pub olcu: String,
    pub miqdar: i64,
    pub alis_qiymeti: i64,
    pub satis_qiymeti: i64,
    pub toplam_alis: i64,
    pub toplam_satis: i64,
    pub qazanc: i64,
}

/// The profit report over a date range: per-pair lines net of returns,
/// and the range totals net of discounts.
#[derive(Clone, PartialEq, Eq, Debug)]
pub struct ProfitReport {
    pub baslangic_tarix: Tarix,
    pub bitis_tarix: Tarix,
    pub items: Vec<ProfitReportItem>,
    pub toplam_alis: i64,
    pub toplam_satis: i64,
    pub toplam_qazanc: i64,
    pub toplam_endirim: i64,
    pub net_qazanc: i64,
}

/// A sale line counts for the range: its sale exists and falls in the
/// range, and its product and size exist to resolve against.
pub open spec fn satis_xetti_sayilir(
    satislar: Seq<SatisSetri>,
    e: SatisElementi,
    b: Tarix,
    son: Tarix,
) -> bool {
    satis_movcud(satislar, e.satis_id as int) && satislar[satis_indeksi(
        satislar,
        e.satis_id as int,
    )].tarix.aralikda(b, son)
}

/// A return line counts for the range: its return exists and falls in
/// the range.
pub open spec fn iade_xetti_sayilir(
    qaytarmalar: Seq<QaytarmaSetri>,
    e: QaytarmaElementi,
    b: Tarix,
    son: Tarix,
) -> bool {
    qaytarma_movcud(qaytarmalar, e.iade_id as int) && qaytarmalar[qaytarma_indeksi(
        qaytarmalar,
        e.iade_id as int,
    )].tarix.aralikda(b, son)
}

/// Quantity sold of pair (m, o) over the first `n` sale lines in range.
pub open spec fn cut_satis_miqdar(
    satislar: Seq<SatisSetri>,
    el: Seq<SatisElementi>,
    n: int,
    b: Tarix,
    son: Tarix,
    m: int,
    o: int,
) -> int
    decreases n,
{
    if n <= 0 {
        0
    } else {
        cut_satis_miqdar(satislar, el, n - 1, b, son, m, o) + if satis_xetti_sayilir(
            satislar,
            el[n - 1],
            b,
            son,
        ) && el[n - 1].mehsul_id == m && el[n - 1].olcu_id == o {
            el[n - 1].miqdar as int
        } else {
            0
        }
    }
}

/// Revenue from pair (m, o) over the first `n` sale lines in range.
pub open spec fn cut_satis_deyer(
    satislar: Seq<SatisSetri>,
    el: Seq<SatisElementi>,
    n: int,
    b: Tarix,
    son: Tarix,
    m: int,
    o: int,
) -> int
    decreases n,
{
    if n <= 0 {
        0
    } else {
        cut_satis_deyer(satislar, el, n - 1, b, son, m, o) + if satis_xetti_sayilir(
            satislar,
            el[n - 1],
            b,
            son,
        ) && el[n - 1].mehsul_id == m && el[n - 1].olcu_id == o {
            el[n - 1].toplam_qiymet as int
        } else {
            0
        }
    }
}

/// Quantity returned of pair (m, o) over the first `n` return lines in
/// range.
pub open spec fn cut_iade_miqdar(
    qaytarmalar: Seq<QaytarmaSetri>,
    qel: Seq<QaytarmaElementi>,
    n: int,
    b: Tarix,
    son: Tarix,
    m: int,
    o: int,
) -> int
    decreases n,
{
    if n <= 0 {
        0
    } else {
        cut_iade_miqdar(qaytarmalar, qel, n - 1, b, son, m, o) + if iade_xetti_sayilir(
            qaytarmalar,
            qel[n - 1],
            b,
            son,
        ) && qel[n - 1].mehsul_id == m && qel[n - 1].olcu_id == o {
            qel[n - 1].miqdar as int
        } else {
            0
        }
    }
}

/// Refunds for pair (m, o) over the first `n` return lines in range.
pub open spec fn cut_iade_deyer(
    qaytarmalar: Seq<QaytarmaSetri>,
    qel: Seq<QaytarmaElementi>,
    n: int,
    b: Tarix,
    son: Tarix,
    m: int,
    o: int,
) -> int
    decreases n,
{
    if n <= 0 {
        0
    } else {
        cut_iade_deyer(qaytarmalar, qel, n - 1, b, son, m, o) + if iade_xetti_sayilir(
            qaytarmalar,
            qel[n - 1],
            b,
            son,
        ) && qel[n - 1].mehsul_id == m && qel[n - 1].olcu_id == o {
            qel[n - 1].toplam_qiymet as int
        } else {
            0
        }
    }
}

/// The pair's quantity sold in range net of the quantity returned.
pub open spec fn cut_net_miqdar(s: Store, b: Tarix, son: Tarix, m: int, o: int) -> int {
    cut_satis_miqdar(s.satislar@, s.satis_elementleri@, s.satis_elementleri@.len() as int, b, son, m, o)
        - cut_iade_miqdar(
        s.qaytarmalar@,
        s.qaytarma_elementleri@,
        s.qaytarma_elementleri@.len() as int,
        b,
        son,
        m,
        o,
    )
}

/// The product's purchase price; meaningful when it exists.
pub open spec fn mehsul_alisi(mehsullar: Seq<MehsulSetri>, m: int) -> int {
    mehsullar[mehsul_indeksi(mehsullar, m)].alis_qiymeti as int
}

/// The pair's cost basis: the net quantity valued at the product's
/// purchase price.
pub open spec fn cut_toplam_alis(s: Store, b: Tarix, son: Tarix, m: int, o: int) -> int {
    mehsul_alisi(s.mehsullar@, m) * cut_net_miqdar(s, b, son, m, o)
}

/// The pair's revenue in range net of refunds.
pub open spec fn cut_toplam_satis(s: Store, b: Tarix, son: Tarix, m: int, o: int) -> int {
    cut_satis_deyer(s.satislar@, s.satis_elementleri@, s.satis_elementleri@.len() as int, b, son, m, o)
        - cut_iade_deyer(
        s.qaytarmalar@,
        s.qaytarma_elementleri@,
        s.qaytarma_elementleri@.len() as int,
        b,
        son,
        m,
        o,
    )
}

/// The pair's profit: net revenue minus cost basis.
pub open spec fn cut_qazanci(s: Store, b: Tarix, son: Tarix, m: int, o: int) -> int {
    cut_toplam_satis(s, b, son, m, o) - cut_toplam_alis(s, b, son, m, o)
}

/// A pair with net sales has a line in the report.
pub open spec fn cut_saxlanir(s: Store, b: Tarix, son: Tarix, m: int, o: int) -> bool {
    cut_net_miqdar(s, b, son, m, o) > 0
}

/// A kept pair's line values fit the report's 64-bit fields.
pub open spec fn cut_sigar(s: Store, b: Tarix, son: Tarix, m: int, o: int) -> bool {
    cut_saxlanir(s, b, son, m, o) ==> {
        &&& i128_sigar(cut_toplam_alis(s, b, son, m, o))
        &&& i64_sigar(cut_net_miqdar(s, b, son, m, o))
        &&& i64_sigar(cut_toplam_alis(s, b, son, m, o))
        &&& i64_sigar(cut_toplam_satis(s, b, son, m, o))
        &&& i64_sigar(cut_qazanci(s, b, son, m, o))
    }
}

/// The unit price of the pair's first counted sale line among the
/// first `n` lines; zero while none counts.
pub open spec fn cut_movcud(
    satislar: Seq<SatisSetri>,
    el: Seq<SatisElementi>,
    n: int,
    b: Tarix,
    son: Tarix,
    m: int,
    o: int,
) -> bool {
    exists|k: int|
        0 <= k < n && satis_xetti_sayilir(satislar, #[trigger] el[k], b, son) && el[k].mehsul_id
            == m && el[k].olcu_id == o
}

pub open spec fn cut_ilk_qiymet(
    satislar: Seq<SatisSetri>,
    el: Seq<SatisElementi>,
    n: int,
    b: Tarix,
    son: Tarix,
    m: int,
    o: int,
) -> int
    decreases n,
{
    if n <= 0 {
        0
    } else if cut_movcud(satislar, el, n - 1, b, son, m, o) {
        cut_ilk_qiymet(satislar, el, n - 1, b, son, m, o)
    } else if satis_xetti_sayilir(satislar, el[n - 1], b, son) && el[n - 1].mehsul_id == m && el[n
        - 1].olcu_id == o {
        el[n - 1].vahid_qiymeti as int
    } else {
        0
    }
}

/// Once the first counted line is inside the prefix, extending the
/// prefix keeps the first price.
pub proof fn lemma_cut_ilk_qiymet(
    satislar: Seq<SatisSetri>,
    el: Seq<SatisElementi>,
    t: int,
    n: int,
    b: Tarix,
    son: Tarix,
    m: int,
    o: int,
)
    requires
        0 <= t <= n <= el.len(),
        cut_movcud(satislar, el, t, b, son, m, o),
    ensures
        cut_ilk_qiymet(satislar, el, n, b, son, m, o) == cut_ilk_qiymet(
            satislar,
            el,
            t,
            b,
            son,
            m,
            o,
        ),
    decreases n - t,
{
    if n > t {
        lemma_cut_ilk_qiymet(satislar, el, t, n - 1, b, son, m, o);
    }
}

/// Discounts of the in-range sales over the first `n` sale rows.
pub open spec fn endirim_cemi_aralikda(s: Seq<SatisSetri>, n: int, b: Tarix, son: Tarix) -> int
    decreases n,
{
    if n <= 0 {
        0
    } else {
        endirim_cemi_aralikda(s, n - 1, b, son) + if s[n - 1].tarix.aralikda(b, son) {
            s[n - 1].endirim as int
        } else {
            0
        }
    }
}

/// The cost-basis total over the pairs of the first `pi` products,
/// within a product over the first `si` sizes.
pub open spec fn cem_alis_olcu(s: Store, b: Tarix, son: Tarix, pi: int, si: int) -> int
    decreases si,
{
    if si <= 0 {
        0
    } else {
        cem_alis_olcu(s, b, son, pi, si - 1) + {
            let m = s.mehsullar@[pi].id as int;
            let o = s.olculer@[si - 1].id as int;
            if cut_saxlanir(s, b, son, m, o) {
                cut_toplam_alis(s, b, son, m, o)
            } else {
                0
            }
        }
    }
}

pub open spec fn cem_alis(s: Store, b: Tarix, son: Tarix, pi: int) -> int
    decreases pi,
{
    if pi <= 0 {
        0
    } else {
        cem_alis(s, b, son, pi - 1) + cem_alis_olcu(s, b, son, pi - 1, s.olculer@.len() as int)
    }
}

/// The net-revenue total, shaped like [`cem_alis`].
pub open spec fn cem_satis_olcu(s: Store, b: Tarix, son: Tarix, pi: int, si: int) -> int
    decreases si,
{
    if si <= 0 {
        0
    } else {
        cem_satis_olcu(s, b, son, pi, si - 1) + {
            let m = s.mehsullar@[pi].id as int;
            let o = s.olculer@[si - 1].id as int;
            if cut_saxlanir(s, b, son, m, o) {
                cut_toplam_satis(s, b, son, m, o)
            } else {
                0
            }
        }
    }
}

pub open spec fn cem_satis(s: Store, b: Tarix, son: Tarix, pi: int) -> int
    decreases pi,
{
    if pi <= 0 {
        0
    } else {
        cem_satis(s, b, son, pi - 1) + cem_satis_olcu(s, b, son, pi - 1, s.olculer@.len() as int)
    }
}

/// Every kept pair's line and every report total fit their fields.
pub open spec fn qazanc_sigar(s: Store, b: Tarix, son: Tarix) -> bool {
    &&& forall|m: int, o: int|
        mehsul_movcud(s.mehsullar@, m) && olcu_movcud(s.olculer@, o) ==> #[trigger] cut_sigar(
            s,
            b,
            son,
            m,
            o,
        )
    &&& i64_sigar(cem_alis(s, b, son, s.mehsullar@.len() as int))
    &&& i64_sigar(cem_satis(s, b, son, s.mehsullar@.len() as int))
    &&& i64_sigar(
        cem_satis(s, b, son, s.mehsullar@.len() as int) - cem_alis(
            s,
            b,
            son,
            s.mehsullar@.len() as int,
        ),
    )
    &&& i64_sigar(endirim_cemi_aralikda(s.satislar@, s.satislar@.len() as int, b, son))
    &&& i64_sigar(
        cem_satis(s, b, son, s.mehsullar@.len() as int) - cem_alis(
            s,
            b,
            son,
            s.mehsullar@.len() as int,
        ) - endirim_cemi_aralikda(s.satislar@, s.satislar@.len() as int, b, son),
    )
}

/// One report line is exactly the pair's aggregates with its display
/// data.
pub open spec fn qazanc_setri_uygun(s: Store, b: Tarix, son: Tarix, g: ProfitReportItem) -> bool {
    &&& mehsul_movcud(s.mehsullar@, g.mehsul_id as int)
    &&& olcu_movcud(s.olculer@, g.olcu_id as int)
    &&& cut_saxlanir(s, b, son, g.mehsul_id as int, g.olcu_id as int)
    &&& g.miqdar as int == cut_net_miqdar(s, b, son, g.mehsul_id as int, g.olcu_id as int)
    &&& g.alis_qiymeti as int == mehsul_alisi(s.mehsullar@, g.mehsul_id as int)
    &&& g.satis_qiymeti as int == cut_ilk_qiymet(
        s.satislar@,
        s.satis_elementleri@,
        s.satis_elementleri@.len() as int,
        b,
        son,
        g.mehsul_id as int,
        g.olcu_id as int,
    )
    &&& g.toplam_alis as int == cut_toplam_alis(s, b, son, g.mehsul_id as int, g.olcu_id as int)
    &&& g.toplam_satis as int == cut_toplam_satis(s, b, son, g.mehsul_id as int, g.olcu_id as int)
    &&& g.qazanc as int == cut_qazanci(s, b, son, g.mehsul_id as int, g.olcu_id as int)
    &&& g.mehsul_adi@ == s.mehsullar@[mehsul_indeksi(s.mehsullar@, g.mehsul_id as int)].ad@
    &&& g.barkod@ == s.mehsullar@[mehsul_indeksi(s.mehsullar@, g.mehsul_id as int)].barkod@
    &&& g.olcu@ == s.olculer@[olcu_indeksi(s.olculer@, g.olcu_id as int)].olcu@
}

impl Store {
    /// The pair's in-range sold quantity and revenue.
    #[verifier::loop_isolation(false)]
    fn cut_satis_cemleri(&self, b: Tarix, son: Tarix, m: i64, o: i64) -> (r: (i128, i128))
        requires
            self.kecerli(),
        ensures
            r.0 as int == cut_satis_miqdar(
                self.satislar@,
                self.satis_elementleri@,
                self.satis_elementleri@.len() as int,
                b,
                son,
                m as int,
                o as int,
            ),
            r.1 as int == cut_satis_deyer(
                self.satislar@,
                self.satis_elementleri@,
                self.satis_elementleri@.len() as int,
                b,
                son,
                m as int,
                o as int,
            ),
    {
        let n = self.satis_elementleri.len();
        let mut miq: i128 = 0;
        let mut dey: i128 = 0;
        let mut k: usize = 0;
        while k < n
            invariant
                n == self.satis_elementleri@.len(),
                0 <= k <= n,
                miq as int == cut_satis_miqdar(
                    self.satislar@,
                    self.satis_elementleri@,
                    k as int,
                    b,
                    son,
                    m as int,
                    o as int,
                ),
                dey as int == cut_satis_deyer(
                    self.satislar@,
                    self.satis_elementleri@,
                    k as int,
                    b,
                    son,
                    m as int,
                    o as int,
                ),
                -((k as int) * 0x8000_0000_0000_0000) <= miq as int <= (k as int)
                    * 0x8000_0000_0000_0000,
                -((k as int) * 0x8000_0000_0000_0000) <= dey as int <= (k as int)
                    * 0x8000_0000_0000_0000,
            decreases n - k,
        {
            proof {
                assert((k as int) * 0x8000_0000_0000_0000 <= (n as int) * 0x8000_0000_0000_0000
                    && (n as int) * 0x8000_0000_0000_0000
                    <= 0x8000_0000_0000_0000_0000_0000_0000_0000 - 0x8000_0000_0000_0000) by (nonlinear_arith)
                    requires
                        0 <= k as int <= n as int,
                        n as int <= 0xFFFF_FFFF_FFFF_FFFF,
                ;
                assert((k + 1) as int * 0x8000_0000_0000_0000 == (k as int) * 0x8000_0000_0000_0000
                    + 0x8000_0000_0000_0000) by (nonlinear_arith);
            }
            let e = &self.satis_elementleri[k];
            if e.mehsul_id == m && e.olcu_id == o {
                let sayilir: bool = match self.satis_tap(e.satis_id) {
                    Some(si) => self.satislar[si].tarix.aralikdadir(&b, &son),
                    None => false,
                };
                if sayilir {
                    miq = miq + (e.miqdar as i128);
                    dey = dey + (e.toplam_qiymet as i128);
                }
            }
            k = k + 1;
        }
        (miq, dey)
    }

    /// The pair's in-range returned quantity and refunds.
    #[verifier::loop_isolation(false)]
    fn cut_iade_cemleri(&self, b: Tarix, son: Tarix, m: i64, o: i64) -> (r: (i128, i128))
        requires
            self.kecerli(),
        ensures
            r.0 as int == cut_iade_miqdar(
                self.qaytarmalar@,
                self.qaytarma_elementleri@,
                self.qaytarma_elementleri@.len() as int,
                b,
                son,
                m as int,
                o as int,
            ),
            r.1 as int == cut_iade_deyer(
                self.qaytarmalar@,
                self.qaytarma_elementleri@,
                self.qaytarma_elementleri@.len() as int,
                b,
                son,
                m as int,
                o as int,
            ),
    {
        let n = self.qaytarma_elementleri.len();
        let mut miq: i128 = 0;
        let mut dey: i128 = 0;
        let mut k: usize = 0;
        while k < n
            invariant
                n == self.qaytarma_elementleri@.len(),
                0 <= k <= n,
                miq as int == cut_iade_miqdar(
                    self.qaytarmalar@,
                    self.qaytarma_elementleri@,
                    k as int,
                    b,
                    son,
                    m as int,
                    o as int,
                ),
                dey as int == cut_iade_deyer(
                    self.qaytarmalar@,
                    self.qaytarma_elementleri@,
                    k as int,
                    b,
                    son,
                    m as int,
                    o as int,
                ),
                -((k as int) * 0x8000_0000_0000_0000) <= miq as int <= (k as int)
                    * 0x8000_0000_0000_0000,
                -((k as int) * 0x8000_0000_0000_0000) <= dey as int <= (k as int)
                    * 0x8000_0000_0000_0000,
            decreases n - k,
        {
            proof {
                assert((k as int) * 0x8000_0000_0000_0000 <= (n as int) * 0x8000_0000_0000_0000
                    && (n as int) * 0x8000_0000_0000_0000
                    <= 0x8000_0000_0000_0000_0000_0000_0000_0000 - 0x8000_0000_0000_0000) by (nonlinear_arith)
                    requires
                        0 <= k as int <= n as int,
                        n as int <= 0xFFFF_FFFF_FFFF_FFFF,
                ;
                assert((k + 1) as int * 0x8000_0000_0000_0000 == (k as int) * 0x8000_0000_0000_0000
                    + 0x8000_0000_0000_0000) by (nonlinear_arith);
            }
            let e = &self.qaytarma_elementleri[k];
            if e.mehsul_id == m && e.olcu_id == o {
                let sayilir: bool = match self.qaytarma_tap(e.iade_id) {
                    Some(qi) => self.qaytarmalar[qi].tarix.aralikdadir(&b, &son),
                    None => false,
                };
                if sayilir {
                    miq = miq + (e.miqdar as i128);
                    dey = dey + (e.toplam_qiymet as i128);
                }
            }
            k = k + 1;
        }
        (miq, dey)
    }

    /// The pair's first counted sale line's unit price, zero if none.
    #[verifier::loop_isolation(false)]
    fn cut_ilk_qiymeti(&self, b: Tarix, son: Tarix, m: i64, o: i64) -> (r: i64)
        requires
            self.kecerli(),
        ensures
            r as int == cut_ilk_qiymet(
                self.satislar@,
                self.satis_elementleri@,
                self.satis_elementleri@.len() as int,
                b,
                son,
                m as int,
                o as int,
            ),
    {
        let n = self.satis_elementleri.len();
        let mut k: usize = 0;
        while k < n
            invariant
                n == self.satis_elementleri@.len(),
                0 <= k <= n,
                !cut_movcud(
                    self.satislar@,
                    self.satis_elementleri@,
                    k as int,
                    b,
                    son,
                    m as int,
                    o as int,
                ),
            decreases n - k,
        {
            let e = &self.satis_elementleri[k];
            if e.mehsul_id == m && e.olcu_id == o {
                let sayilir: bool = match self.satis_tap(e.satis_id) {
                    Some(si) => self.satislar[si].tarix.aralikdadir(&b, &son),
                    None => false,
                };
                if sayilir {
                    proof {
                        assert(satis_xetti_sayilir(
                            self.satislar@,
                            self.satis_elementleri@[k as int],
                            b,
                            son,
                        ));
                        assert(cut_movcud(
                            self.satislar@,
                            self.satis_elementleri@,
                            k as int + 1,
                            b,
                            son,
                            m as int,
                            o as int,
                        ));
                        lemma_cut_ilk_qiymet(
                            self.satislar@,
                            self.satis_elementleri@,
                            k as int + 1,
                            n as int,
                            b,
                            son,
                            m as int,
                            o as int,
                        );
                        assert(cut_ilk_qiymet(
                            self.satislar@,
                            self.satis_elementleri@,
                            k as int + 1,
                            b,
                            son,
                            m as int,
                            o as int,
                        ) == self.satis_elementleri@[k as int].vahid_qiymeti as int);
                    }
                    return e.vahid_qiymeti;
                }
            }
            k = k + 1;
        }
        proof {
            assert(cut_ilk_qiymet(
                self.satislar@,
                self.satis_elementleri@,
                n as int,
                b,
                son,
                m as int,
                o as int,
            ) == 0) by {
                lemma_cut_ilk_qiymet_yox(
                    self.satislar@,
                    self.satis_elementleri@,
                    n as int,
                    b,
                    son,
                    m as int,
                    o as int,
                );
            }
        }
        0
    }
}

impl Store {
    /// The profit report over the inclusive date range: one line per
    /// (product, size) pair with net sales in range — quantity and
    /// revenue net of in-range returns, cost basis at the product's
    /// purchase price — and the totals, with the in-range discounts
    /// taken off the net profit. Fails exactly when a line or a total
    /// leaves the representable range.
    #[verifier::loop_isolation(false)]
    #[verifier::rlimit(100)]
    pub fn qazanc_hesabati(&self, baslangic: Tarix, bitis: Tarix) -> (r: Result<ProfitReport, Xeta>)
        requires
            self.kecerli(),
        ensures
            r is Err <==> !qazanc_sigar(*self, baslangic, bitis),
            r is Err ==> r == Err::<ProfitReport, Xeta>(Xeta::HeddenArtiq),
            r matches Ok(g) ==> {
                let pn = self.mehsullar@.len() as int;
                &&& g.baslangic_tarix == baslangic
                &&& g.bitis_tarix == bitis
                &&& g.toplam_alis as int == cem_alis(*self, baslangic, bitis, pn)
                &&& g.toplam_satis as int == cem_satis(*self, baslangic, bitis, pn)
                &&& g.toplam_qazanc as int == cem_satis(*self, baslangic, bitis, pn) - cem_alis(
                    *self,
                    baslangic,
                    bitis,
                    pn,
                )
                &&& g.toplam_endirim as int == endirim_cemi_aralikda(
                    self.satislar@,
                    self.satislar@.len() as int,
                    baslangic,
                    bitis,
                )
                &&& g.net_qazanc as int == g.toplam_qazanc - g.toplam_endirim
                &&& (forall|i: int|
                    0 <= i < g.items@.len() ==> qazanc_setri_uygun(
                        *self,
                        baslangic,
                        bitis,
                        #[trigger] g.items@[i],
                    ))
                &&& (forall|i: int, j: int|
                    0 <= i < j < g.items@.len() ==> !((#[trigger] g.items@[i]).mehsul_id
                        == (#[trigger] g.items@[j]).mehsul_id && g.items@[i].olcu_id
                        == g.items@[j].olcu_id))
                &&& (forall|m: int, o: int|
                    mehsul_movcud(self.mehsullar@, m) && olcu_movcud(self.olculer@, o)
                        && #[trigger] cut_saxlanir(*self, baslangic, bitis, m, o) ==> exists|i: int|
                        0 <= i < g.items@.len() && (#[trigger] g.items@[i]).mehsul_id == m
                            && g.items@[i].olcu_id == o)
            },
    {
        // the in-range discounts
        let sn = self.satislar.len();
        let mut endirim: i128 = 0;
        let mut k: usize = 0;
        while k < sn
            invariant
                sn == self.satislar@.len(),
                0 <= k <= sn,
                endirim as int == endirim_cemi_aralikda(self.satislar@, k as int, baslangic, bitis),
                -((k as int) * 0x8000_0000_0000_0000) <= endirim as int <= (k as int)
                    * 0x8000_0000_0000_0000,
            decreases sn - k,
        {
            proof {
                assert((k as int) * 0x8000_0000_0000_0000 <= (sn as int) * 0x8000_0000_0000_0000
                    && (sn as int) * 0x8000_0000_0000_0000
                    <= 0x8000_0000_0000_0000_0000_0000_0000_0000 - 0x8000_0000_0000_0000) by (nonlinear_arith)
                    requires
                        0 <= k as int <= sn as int,
                        sn as int <= 0xFFFF_FFFF_FFFF_FFFF,
                ;
                assert((k + 1) as int * 0x8000_0000_0000_0000 == (k as int) * 0x8000_0000_0000_0000
                    + 0x8000_0000_0000_0000) by (nonlinear_arith);
            }
            let s = &self.satislar[k];
            if s.tarix.aralikdadir(&baslangic, &bitis) {
                endirim = endirim + (s.endirim as i128);
            }
            k = k + 1;
        }
        if endirim > i64::MAX as i128 || endirim < i64::MIN as i128 {
            return Err(Xeta::HeddenArtiq);
        }
        // one line per (product, size) pair with net sales
        let pn = self.mehsullar.len();
        let on = self.olculer.len();
        let mut items: Vec<ProfitReportItem> = Vec::new();
        let mut t_alis: i128 = 0;
        let mut t_satis: i128 = 0;
        let mut pi: usize = 0;
        while pi < pn
            invariant
                pn == self.mehsullar@.len(),
                on == self.olculer@.len(),
                0 <= pi <= pn,
                t_alis as int == cem_alis(*self, baslangic, bitis, pi as int),
                t_satis as int == cem_satis(*self, baslangic, bitis, pi as int),
                -((items@.len() as int) * 0x8000_0000_0000_0000) <= t_alis as int <= (
                items@.len() as int) * 0x7FFF_FFFF_FFFF_FFFF,
                -((items@.len() as int) * 0x8000_0000_0000_0000) <= t_satis as int <= (
                items@.len() as int) * 0x7FFF_FFFF_FFFF_FFFF,
                forall|a: int, bx: int|
                    #![trigger self.mehsullar@[a], self.olculer@[bx]]
                    0 <= a < pi && 0 <= bx < on ==> cut_sigar(
                        *self,
                        baslangic,
                        bitis,
                        self.mehsullar@[a].id as int,
                        self.olculer@[bx].id as int,
                    ),
                forall|i: int|
                    0 <= i < items@.len() ==> qazanc_setri_uygun(
                        *self,
                        baslangic,
                        bitis,
                        #[trigger] items@[i],
                    ),
                forall|i: int|
                    0 <= i < items@.len() ==> mehsul_indeksi(
                        self.mehsullar@,
                        (#[trigger] items@[i]).mehsul_id as int,
                    ) < pi,
                forall|i: int, j: int|
                    0 <= i < j < items@.len() ==> !((#[trigger] items@[i]).mehsul_id
                        == (#[trigger] items@[j]).mehsul_id && items@[i].olcu_id
                        == items@[j].olcu_id),
                forall|a: int, bx: int|
                    #![trigger self.mehsullar@[a], self.olculer@[bx]]
                    0 <= a < pi && 0 <= bx < on && cut_saxlanir(
                        *self,
                        baslangic,
                        bitis,
                        self.mehsullar@[a].id as int,
                        self.olculer@[bx].id as int,
                    ) ==> exists|i: int|
                        0 <= i < items@.len() && (#[trigger] items@[i]).mehsul_id
                            == self.mehsullar@[a].id && items@[i].olcu_id == self.olculer@[bx].id,
            decreases pn - pi,
        {
            let m = self.mehsullar[pi].id;
            proof {
                if mehsul_indeksi(self.mehsullar@, m as int) != pi as int {
                    let idx = mehsul_indeksi(self.mehsullar@, m as int);
                    assert(mehsul_movcud(self.mehsullar@, m as int));
                    assert(0 <= idx < self.mehsullar@.len() && self.mehsullar@[idx].id == m);
                    if idx < pi as int {
                        assert(self.mehsullar@[idx].id < self.mehsullar@[pi as int].id);
                    } else {
                        assert(self.mehsullar@[pi as int].id < self.mehsullar@[idx].id);
                    }
                }
                assert(mehsul_indeksi(self.mehsullar@, m as int) == pi as int);
            }
            let mut si: usize = 0;
            while si < on
                invariant
                    pn == self.mehsullar@.len(),
                    on == self.olculer@.len(),
                    0 <= pi < pn,
                    0 <= si <= on,
                    m == self.mehsullar@[pi as int].id,
                    mehsul_indeksi(self.mehsullar@, m as int) == pi as int,
                    t_alis as int == cem_alis(*self, baslangic, bitis, pi as int) + cem_alis_olcu(
                        *self,
                        baslangic,
                        bitis,
                        pi as int,
                        si as int,
                    ),
                    t_satis as int == cem_satis(*self, baslangic, bitis, pi as int)
                        + cem_satis_olcu(*self, baslangic, bitis, pi as int, si as int),
                    -((items@.len() as int) * 0x8000_0000_0000_0000) <= t_alis as int <= (
                    items@.len() as int) * 0x7FFF_FFFF_FFFF_FFFF,
                    -((items@.len() as int) * 0x8000_0000_0000_0000) <= t_satis as int <= (
                    items@.len() as int) * 0x7FFF_FFFF_FFFF_FFFF,
                    forall|a: int, bx: int|
                        #![trigger self.mehsullar@[a], self.olculer@[bx]]
                        (0 <= a < pi && 0 <= bx < on) || (a == pi && 0 <= bx < si) ==> cut_sigar(
                            *self,
                            baslangic,
                            bitis,
                            self.mehsullar@[a].id as int,
                            self.olculer@[bx].id as int,
                        ),
                    forall|i: int|
                        0 <= i < items@.len() ==> qazanc_setri_uygun(
                            *self,
                            baslangic,
                            bitis,
                            #[trigger] items@[i],
                        ),
                    forall|i: int|
                        0 <= i < items@.len() ==> (mehsul_indeksi(
                            self.mehsullar@,
                            (#[trigger] items@[i]).mehsul_id as int,
                        ) < pi || (mehsul_indeksi(self.mehsullar@, items@[i].mehsul_id as int)
                            == pi && olcu_indeksi(self.olculer@, items@[i].olcu_id as int) < si)),
                    forall|i: int, j: int|
                        0 <= i < j < items@.len() ==> !((#[trigger] items@[i]).mehsul_id
                            == (#[trigger] items@[j]).mehsul_id && items@[i].olcu_id
                            == items@[j].olcu_id),
                    forall|a: int, bx: int|
                        #![trigger self.mehsullar@[a], self.olculer@[bx]]
                        ((0 <= a < pi && 0 <= bx < on) || (a == pi && 0 <= bx < si))
                            && cut_saxlanir(
                            *self,
                            baslangic,
                            bitis,
                            self.mehsullar@[a].id as int,
                            self.olculer@[bx].id as int,
                        ) ==> exists|i: int|
                            0 <= i < items@.len() && (#[trigger] items@[i]).mehsul_id
                                == self.mehsullar@[a].id && items@[i].olcu_id
                                == self.olculer@[bx].id,
                decreases on - si,
            {
                let o = self.olculer[si].id;
                proof {
                    if olcu_indeksi(self.olculer@, o as int) != si as int {
                        let idx = olcu_indeksi(self.olculer@, o as int);
                        assert(olcu_movcud(self.olculer@, o as int));
                        assert(0 <= idx < self.olculer@.len() && self.olculer@[idx].id == o);
                        if idx < si as int {
                            assert(self.olculer@[idx].id < self.olculer@[si as int].id);
                        } else {
                            assert(self.olculer@[si as int].id < self.olculer@[idx].id);
                        }
                    }
                    assert(olcu_indeksi(self.olculer@, o as int) == si as int);
                }
                let (s_miq, s_dey) = self.cut_satis_cemleri(baslangic, bitis, m, o);
                let (i_miq, i_dey) = self.cut_iade_cemleri(baslangic, bitis, m, o);
                let net: i128 = match s_miq.checked_sub(i_miq) {
                    Some(v) => v,
                    None => {
                        if i_miq < 0 {
                            // the net quantity overflows upward: the pair
                            // is kept and cannot fit
                            proof {
                                assert(cut_net_miqdar(*self, baslangic, bitis, m as int, o as int)
                                    > i64::MAX);
                                assert(!cut_sigar(*self, baslangic, bitis, m as int, o as int));
                            }
                            return Err(Xeta::HeddenArtiq);
                        }
                        // the net quantity overflows downward: the pair
                        // is not kept, nothing to record
                        proof {
                            assert(cut_net_miqdar(*self, baslangic, bitis, m as int, o as int) < 0);
                            assert(!cut_saxlanir(*self, baslangic, bitis, m as int, o as int));
                        }
                        si = si + 1;
                        continue ;
                    },
                };
                proof {
                    assert(net as int == cut_net_miqdar(*self, baslangic, bitis, m as int, o as int));
                }
                if net > 0 {
                    let alis = self.mehsullar[pi].alis_qiymeti;
                    let t_al: i128 = match (alis as i128).checked_mul(net) {
                        Some(v) => v,
                        None => {
                            proof {
                                assert(!i128_sigar(
                                    cut_toplam_alis(*self, baslangic, bitis, m as int, o as int),
                                ));
                                assert(!cut_sigar(*self, baslangic, bitis, m as int, o as int));
                            }
                            return Err(Xeta::HeddenArtiq);
                        },
                    };
                    let t_sat: i128 = match s_dey.checked_sub(i_dey) {
                        Some(v) => v,
                        None => {
                            proof {
                                assert(!i64_sigar(
                                    cut_toplam_satis(*self, baslangic, bitis, m as int, o as int),
                                ));
                                assert(!cut_sigar(*self, baslangic, bitis, m as int, o as int));
                            }
                            return Err(Xeta::HeddenArtiq);
                        },
                    };
                    if net > i64::MAX as i128 || t_al > i64::MAX as i128 || t_al < i64::MIN as i128
                        || t_sat > i64::MAX as i128 || t_sat < i64::MIN as i128 {
                        proof {
                            assert(!cut_sigar(*self, baslangic, bitis, m as int, o as int));
                        }
                        return Err(Xeta::HeddenArtiq);
                    }
                    let qaz: i128 = t_sat - t_al;
                    if qaz > i64::MAX as i128 || qaz < i64::MIN as i128 {
                        proof {
                            assert(!cut_sigar(*self, baslangic, bitis, m as int, o as int));
                        }
                        return Err(Xeta::HeddenArtiq);
                    }
                    let qiymet = self.cut_ilk_qiymeti(baslangic, bitis, m, o);
                    let setir = ProfitReportItem {
                        mehsul_id: m,
                        mehsul_adi: self.mehsullar[pi].ad.clone(),
                        barkod: self.mehsullar[pi].barkod.clone(),
                        olcu_id: o,
                        olcu: self.olculer[si].olcu.clone(),
                        miqdar: net as i64,
                        alis_qiymeti: alis,
                        satis_qiymeti: qiymet,
                        toplam_alis: t_al as i64,
                        toplam_satis: t_sat as i64,
                        qazanc: qaz as i64,
                    };
                    let uzunluq = items.len();
                    proof {
                        assert(qazanc_setri_uygun(*self, baslangic, bitis, setir));
                        assert((uzunluq as int + 1) * 0x7FFF_FFFF_FFFF_FFFF == (uzunluq as int)
                            * 0x7FFF_FFFF_FFFF_FFFF + 0x7FFF_FFFF_FFFF_FFFF && (uzunluq as int + 1)
                            * 0x8000_0000_0000_0000 == (uzunluq as int) * 0x8000_0000_0000_0000
                            + 0x8000_0000_0000_0000) by (nonlinear_arith);
                        assert((uzunluq as int + 1) * 0x8000_0000_0000_0000
                            <= 0x8000_0000_0000_0000_0000_0000_0000_0000) by (nonlinear_arith)
                            requires
                                uzunluq as int + 1 <= 0x1_0000_0000_0000_0000,
                        ;
                    }
                    let ghost items_evvel = items@;
                    items.push(setir);
                    t_alis = t_alis + t_al;
                    t_satis = t_satis + t_sat;
                    proof {
                        let yeni = items@;
                        assert(yeni == items_evvel.push(setir));
                        assert(yeni[yeni.len() - 1].mehsul_id == m && yeni[yeni.len() - 1].olcu_id
                            == o);
                        assert forall|a2: int, bx2: int|
                            #![trigger self.mehsullar@[a2], self.olculer@[bx2]]
                            ((0 <= a2 < pi && 0 <= bx2 < on) || (a2 == pi as int && 0 <= bx2
                                <= si)) && cut_saxlanir(
                                *self,
                                baslangic,
                                bitis,
                                self.mehsullar@[a2].id as int,
                                self.olculer@[bx2].id as int,
                            ) implies exists|i: int|
                            0 <= i < yeni.len() && (#[trigger] yeni[i]).mehsul_id
                                == self.mehsullar@[a2].id && yeni[i].olcu_id
                                == self.olculer@[bx2].id by {
                            if a2 == pi as int && bx2 == si as int {
                                assert(yeni[yeni.len() - 1].mehsul_id == self.mehsullar@[a2].id
                                    && yeni[yeni.len() - 1].olcu_id == self.olculer@[bx2].id);
                            } else {
                                assert(exists|i: int|
                                    0 <= i < items_evvel.len() && (#[trigger] items_evvel[i]).mehsul_id
                                        == self.mehsullar@[a2].id && items_evvel[i].olcu_id
                                        == self.olculer@[bx2].id);
                                let w = choose|i: int|
                                    0 <= i < items_evvel.len() && (#[trigger] items_evvel[i]).mehsul_id
                                        == self.mehsullar@[a2].id && items_evvel[i].olcu_id
                                        == self.olculer@[bx2].id;
                                assert(yeni[w] == items_evvel[w]);
                            }
                        }
                    }
                }
                si = si + 1;
            }
            pi = pi + 1;
        }
        if t_alis > i64::MAX as i128 || t_alis < i64::MIN as i128 || t_satis > i64::MAX as i128
            || t_satis < i64::MIN as i128 {
            return Err(Xeta::HeddenArtiq);
        }
        let t_qaz: i128 = t_satis - t_alis;
        if t_qaz > i64::MAX as i128 || t_qaz < i64::MIN as i128 {
            return Err(Xeta::HeddenArtiq);
        }
        let netq: i128 = t_qaz - endirim;
        if netq > i64::MAX as i128 || netq < i64::MIN as i128 {
            return Err(Xeta::HeddenArtiq);
        }
        proof {
            assert forall|m2: int, o2: int|
                mehsul_movcud(self.mehsullar@, m2) && olcu_movcud(self.olculer@, o2) implies
                #[trigger] cut_sigar(*self, baslangic, bitis, m2, o2) by {
                let a = mehsul_indeksi(self.mehsullar@, m2);
                let bx = olcu_indeksi(self.olculer@, o2);
                assert(0 <= a < self.mehsullar@.len() && self.mehsullar@[a].id == m2);
                assert(0 <= bx < self.olculer@.len() && self.olculer@[bx].id == o2);
            }
            assert(qazanc_sigar(*self, baslangic, bitis));
            assert forall|m2: int, o2: int|
                mehsul_movcud(self.mehsullar@, m2) && olcu_movcud(self.olculer@, o2)
                    && #[trigger] cut_saxlanir(*self, baslangic, bitis, m2, o2) implies exists|i: int|
                0 <= i < items@.len() && (#[trigger] items@[i]).mehsul_id == m2 && items@[i].olcu_id
                    == o2 by {
                let a = mehsul_indeksi(self.mehsullar@, m2);
                let bx = olcu_indeksi(self.olculer@, o2);
                assert(0 <= a < self.mehsullar@.len() && self.mehsullar@[a].id == m2);
                assert(0 <= bx < self.olculer@.len() && self.olculer@[bx].id == o2);
            }
        }
        let ghost son_items = items@;
        let netice = ProfitReport {
            baslangic_tarix: baslangic,
            bitis_tarix: bitis,
            items,
            toplam_alis: t_alis as i64,
            toplam_satis: t_satis as i64,
            toplam_qazanc: t_qaz as i64,
            toplam_endirim: endirim as i64,
            net_qazanc: netq as i64,
        };
        proof {
            assert(netice.items@ == son_items);
            assert forall|m2: int, o2: int|
                mehsul_movcud(self.mehsullar@, m2) && olcu_movcud(self.olculer@, o2)
                    && #[trigger] cut_saxlanir(*self, baslangic, bitis, m2, o2) implies exists|i: int|
                0 <= i < netice.items@.len() && (#[trigger] netice.items@[i]).mehsul_id == m2
                    && netice.items@[i].olcu_id == o2 by {
                assert(exists|i: int|
                    0 <= i < son_items.len() && (#[trigger] son_items[i]).mehsul_id == m2
                        && son_items[i].olcu_id == o2);
                let w = choose|i: int|
                    0 <= i < son_items.len() && (#[trigger] son_items[i]).mehsul_id == m2
                        && son_items[i].olcu_id == o2;
                assert(netice.items@[w] == son_items[w]);
            }
        }
        Ok(netice)
    }
}

/// With no counted line in the prefix, the first price is zero.
pub proof fn lemma_cut_ilk_qiymet_yox(
    satislar: Seq<SatisSetri>,
    el: Seq<SatisElementi>,
    n: int,
    b: Tarix,
    son: Tarix,
    m: int,
    o: int,
)
    requires
        !cut_movcud(satislar, el, n, b, son, m, o),
        0 <= n <= el.len(),
    ensures
        cut_ilk_qiymet(satislar, el, n, b, son, m, o) == 0,
    decreases n,
{
    if n > 0 {
        assert(!cut_movcud(satislar, el, n - 1, b, son, m, o));
        lemma_cut_ilk_qiymet_yox(satislar, el, n - 1, b, son, m, o);
    }
}

} // verus!

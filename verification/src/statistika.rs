use vstd::prelude::*;
use crate::borc::i128_sigar;
use crate::model::{HereketNovu, HereketSetri, MehsulSetri, SatisElementi, SatisSetri, StokSetri};
use crate::qazanc::satis_xetti_sayilir;
use crate::store::{
    i64_sigar, kateqoriya_indeksi, kateqoriya_movcud, mehsul_indeksi, mehsul_movcud, Store,
};
use crate::tarix::Tarix;
use crate::xeta::Xeta;

verus! {

/// One product's in-range statistics, all money in qepik.
#[derive(Clone, PartialEq, Eq, Debug)]
pub struct ProductStatistics {
    pub mehsul_id: i64,
    pub mehsul_adi: String,
    pub barkod: String,
    pub kateqoriya_id: Option<i64>,
    pub kateqoriya_adi: Option<String>,
    pub toplam_alis_miqdar: i64,
    pub toplam_satis_miqdar: i64,
    pub toplam_alis_deyeri: i64,
    pub toplam_satis_deyeri: i64,
    pub ortalama_qazanc_vahid: i64,
    pub toplam_qazanc: i64,
    pub hazirki_stok: i64,
}

/// The product-statistics report over a date range and optional
/// category.
#[derive(Clone, PartialEq, Eq, Debug)]
pub struct ProductStatisticsReport {
    pub baslangic_tarix: Tarix,
    pub bitis_tarix: Tarix,
    pub items: Vec<ProductStatistics>,
    pub umumi_alis_miqdar: i64,
    pub umumi_satis_miqdar: i64,
    pub umumi_alis_deyeri: i64,
    pub umumi_satis_deyeri: i64,
    pub umumi_qazanc: i64,
    pub ortalama_qazanc_faizi: i64,
}

/// Signed division truncating toward zero, zero for a non-positive
/// divisor: the arithmetic the averaged fields use.
pub open spec fn kesirsiz_bolme(a: int, b: int) -> int {
    if b <= 0 {
        0
    } else if a >= 0 {
        a / b
    } else {
        -((-a) / b)
    }
}

/// An incoming movement of the product inside the range.
pub open spec fn giris_sayilir(h: HereketSetri, b: Tarix, son: Tarix, m: int) -> bool {
    h.mehsul_id == m && h.novu == HereketNovu::DaxilOlma && h.tarix.aralikda(b, son)
}

/// Incoming quantity of product `m` over the first `n` movement rows.
pub open spec fn st_giris_miqdar(h: Seq<HereketSetri>, n: int, b: Tarix, son: Tarix, m: int) -> int
    decreases n,
{
    if n <= 0 {
        0
    } else {
        st_giris_miqdar(h, n - 1, b, son, m) + if giris_sayilir(h[n - 1], b, son, m) {
            h[n - 1].miqdar as int
        } else {
            0
        }
    }
}

/// Incoming cost of product `m` over the first `n` movement rows: the
/// movement's recorded valuation, or its quantity at the product's
/// purchase price where none was recorded.
pub open spec fn st_giris_deyeri(
    mehsullar: Seq<MehsulSetri>,
    h: Seq<HereketSetri>,
    n: int,
    b: Tarix,
    son: Tarix,
    m: int,
) -> int
    decreases n,
{
    if n <= 0 {
        0
    } else {
        st_giris_deyeri(mehsullar, h, n - 1, b, son, m) + if giris_sayilir(h[n - 1], b, son, m) {
            match h[n - 1].toplam_deyeri {
                Some(d) => d as int,
                None => h[n - 1].miqdar * mehsullar[mehsul_indeksi(mehsullar, m)].alis_qiymeti,
            }
        } else {
            0
        }
    }
}

/// Sold quantity of product `m` over the first `n` sale lines in range.
pub open spec fn st_satis_miqdar(
    satislar: Seq<SatisSetri>,
    el: Seq<SatisElementi>,
    n: int,
    b: Tarix,
    son: Tarix,
    m: int,
) -> int
    decreases n,
{
    if n <= 0 {
        0
    } else {
        st_satis_miqdar(satislar, el, n - 1, b, son, m) + if satis_xetti_sayilir(
            satislar,
            el[n - 1],
            b,
            son,
        ) && el[n - 1].mehsul_id == m {
            el[n - 1].miqdar as int
        } else {
            0
        }
    }
}

/// Revenue from product `m` over the first `n` sale lines in range.
pub open spec fn st_satis_deyeri(
    satislar: Seq<SatisSetri>,
    el: Seq<SatisElementi>,
    n: int,
    b: Tarix,
    son: Tarix,
    m: int,
) -> int
    decreases n,
{
    if n <= 0 {
        0
    } else {
        st_satis_deyeri(satislar, el, n - 1, b, son, m) + if satis_xetti_sayilir(
            satislar,
            el[n - 1],
            b,
            son,
        ) && el[n - 1].mehsul_id == m {
            el[n - 1].toplam_qiymet as int
        } else {
            0
        }
    }
}

/// The product's stock on hand over the first `n` stock rows.
pub open spec fn st_hazirki_stok(stoklar: Seq<StokSetri>, n: int, m: int) -> int
    decreases n,
{
    if n <= 0 {
        0
    } else {
        st_hazirki_stok(stoklar, n - 1, m) + if stoklar[n - 1].mehsul_id == m {
            stoklar[n - 1].miqdar as int
        } else {
            0
        }
    }
}

/// The product's in-range profit: revenue minus the sold quantity at
/// its purchase price.
pub open spec fn st_qazanci(s: Store, b: Tarix, son: Tarix, m: int) -> int {
    st_satis_deyeri(s.satislar@, s.satis_elementleri@, s.satis_elementleri@.len() as int, b, son, m)
        - s.mehsullar@[mehsul_indeksi(s.mehsullar@, m)].alis_qiymeti * st_satis_miqdar(
        s.satislar@,
        s.satis_elementleri@,
        s.satis_elementleri@.len() as int,
        b,
        son,
        m,
    )
}

/// The product belongs in the report: it matches the optional category
/// filter and had in-range activity.
pub open spec fn st_saxlanir(s: Store, b: Tarix, son: Tarix, suzgec: Option<i64>, m: int) -> bool {
    &&& match suzgec {
        Some(kid) => s.mehsullar@[mehsul_indeksi(s.mehsullar@, m)].kateqoriya_id == Some(kid),
        None => true,
    }
    &&& (st_giris_miqdar(s.hereketler@, s.hereketler@.len() as int, b, son, m) > 0
        || st_satis_miqdar(
        s.satislar@,
        s.satis_elementleri@,
        s.satis_elementleri@.len() as int,
        b,
        son,
        m,
    ) > 0)
}

/// A kept product's line values fit the report's 64-bit fields.
pub open spec fn st_sigar(s: Store, b: Tarix, son: Tarix, suzgec: Option<i64>, m: int) -> bool {
    st_saxlanir(s, b, son, suzgec, m) ==> {
        let gm = st_giris_miqdar(s.hereketler@, s.hereketler@.len() as int, b, son, m);
        let gd = st_giris_deyeri(s.mehsullar@, s.hereketler@, s.hereketler@.len() as int, b, son, m);
        let sm = st_satis_miqdar(
            s.satislar@,
            s.satis_elementleri@,
            s.satis_elementleri@.len() as int,
            b,
            son,
            m,
        );
        let sd = st_satis_deyeri(
            s.satislar@,
            s.satis_elementleri@,
            s.satis_elementleri@.len() as int,
            b,
            son,
            m,
        );
        let maya = s.mehsullar@[mehsul_indeksi(s.mehsullar@, m)].alis_qiymeti * sm;
        &&& (forall|k: int|
            0 <= k <= s.hereketler@.len() ==> i128_sigar(
                #[trigger] st_giris_deyeri(s.mehsullar@, s.hereketler@, k, b, son, m),
            ))
        &&& i64_sigar(gm)
        &&& i64_sigar(gd)
        &&& i64_sigar(sm)
        &&& i64_sigar(sd)
        &&& i128_sigar(maya)
        &&& i64_sigar(sd - maya)
        &&& i64_sigar(st_hazirki_stok(s.stoklar@, s.stoklar@.len() as int, m))
    }
}

/// The report totals over the first `pi` products, one sum per field.
pub open spec fn st_cem_giris_miqdar(
    s: Store,
    b: Tarix,
    son: Tarix,
    suzgec: Option<i64>,
    pi: int,
) -> int
    decreases pi,
{
    if pi <= 0 {
        0
    } else {
        st_cem_giris_miqdar(s, b, son, suzgec, pi - 1) + {
            let m = s.mehsullar@[pi - 1].id as int;
            if st_saxlanir(s, b, son, suzgec, m) {
                st_giris_miqdar(s.hereketler@, s.hereketler@.len() as int, b, son, m)
            } else {
                0
            }
        }
    }
}

pub open spec fn st_cem_satis_miqdar(
    s: Store,
    b: Tarix,
    son: Tarix,
    suzgec: Option<i64>,
    pi: int,
) -> int
    decreases pi,
{
    if pi <= 0 {
        0
    } else {
        st_cem_satis_miqdar(s, b, son, suzgec, pi - 1) + {
            let m = s.mehsullar@[pi - 1].id as int;
            if st_saxlanir(s, b, son, suzgec, m) {
                st_satis_miqdar(
                    s.satislar@,
                    s.satis_elementleri@,
                    s.satis_elementleri@.len() as int,
                    b,
                    son,
                    m,
                )
            } else {
                0
            }
        }
    }
}

pub open spec fn st_cem_giris_deyeri(
    s: Store,
    b: Tarix,
    son: Tarix,
    suzgec: Option<i64>,
    pi: int,
) -> int
    decreases pi,
{
    if pi <= 0 {
        0
    } else {
        st_cem_giris_deyeri(s, b, son, suzgec, pi - 1) + {
            let m = s.mehsullar@[pi - 1].id as int;
            if st_saxlanir(s, b, son, suzgec, m) {
                st_giris_deyeri(s.mehsullar@, s.hereketler@, s.hereketler@.len() as int, b, son, m)
            } else {
                0
            }
        }
    }
}

pub open spec fn st_cem_satis_deyeri(
    s: Store,
    b: Tarix,
    son: Tarix,
    suzgec: Option<i64>,
    pi: int,
) -> int
    decreases pi,
{
    if pi <= 0 {
        0
    } else {
        st_cem_satis_deyeri(s, b, son, suzgec, pi - 1) + {
            let m = s.mehsullar@[pi - 1].id as int;
            if st_saxlanir(s, b, son, suzgec, m) {
                st_satis_deyeri(
                    s.satislar@,
                    s.satis_elementleri@,
                    s.satis_elementleri@.len() as int,
                    b,
                    son,
                    m,
                )
            } else {
                0
            }
        }
    }
}

pub open spec fn st_cem_qazanc(s: Store, b: Tarix, son: Tarix, suzgec: Option<i64>, pi: int) -> int
    decreases pi,
{
    if pi <= 0 {
        0
    } else {
        st_cem_qazanc(s, b, son, suzgec, pi - 1) + {
            let m = s.mehsullar@[pi - 1].id as int;
            if st_saxlanir(s, b, son, suzgec, m) {
                st_qazanci(s, b, son, m)
            } else {
                0
            }
        }
    }
}

/// Every kept product's line and the report totals fit their fields.
pub open spec fn statistika_sigar(s: Store, b: Tarix, son: Tarix, suzgec: Option<i64>) -> bool {
    let pn = s.mehsullar@.len() as int;
    &&& forall|m: int| mehsul_movcud(s.mehsullar@, m) ==> #[trigger] st_sigar(s, b, son, suzgec, m)
    &&& i64_sigar(st_cem_giris_miqdar(s, b, son, suzgec, pn))
    &&& i64_sigar(st_cem_satis_miqdar(s, b, son, suzgec, pn))
    &&& i64_sigar(st_cem_giris_deyeri(s, b, son, suzgec, pn))
    &&& i64_sigar(st_cem_satis_deyeri(s, b, son, suzgec, pn))
    &&& i64_sigar(st_cem_qazanc(s, b, son, suzgec, pn))
    &&& i128_sigar(st_cem_qazanc(s, b, son, suzgec, pn) * 100)
    &&& i64_sigar(
        kesirsiz_bolme(
            st_cem_qazanc(s, b, son, suzgec, pn) * 100,
            st_cem_giris_deyeri(s, b, son, suzgec, pn),
        ),
    )
}

/// One report line is exactly the product's aggregates with its
/// display data.
pub open spec fn statistika_setri_uygun(
    s: Store,
    b: Tarix,
    son: Tarix,
    suzgec: Option<i64>,
    g: ProductStatistics,
) -> bool {
    let m = g.mehsul_id as int;
    let p = s.mehsullar@[mehsul_indeksi(s.mehsullar@, m)];
    &&& mehsul_movcud(s.mehsullar@, m)
    &&& st_saxlanir(s, b, son, suzgec, m)
    &&& g.mehsul_adi@ == p.ad@
    &&& g.barkod@ == p.barkod@
    &&& g.kateqoriya_id == p.kateqoriya_id
    &&& match p.kateqoriya_id {
        Some(kid) => if kateqoriya_movcud(s.kateqoriyalar@, kid as int) {
            g.kateqoriya_adi matches Some(ka) && ka@ == s.kateqoriyalar@[kateqoriya_indeksi(
                s.kateqoriyalar@,
                kid as int,
            )].ad@
        } else {
            g.kateqoriya_adi is None
        },
        None => g.kateqoriya_adi is None,
    }
    &&& g.toplam_alis_miqdar as int == st_giris_miqdar(
        s.hereketler@,
        s.hereketler@.len() as int,
        b,
        son,
        m,
    )
    &&& g.toplam_satis_miqdar as int == st_satis_miqdar(
        s.satislar@,
        s.satis_elementleri@,
        s.satis_elementleri@.len() as int,
        b,
        son,
        m,
    )
    &&& g.toplam_alis_deyeri as int == st_giris_deyeri(
        s.mehsullar@,
        s.hereketler@,
        s.hereketler@.len() as int,
        b,
        son,
        m,
    )
    &&& g.toplam_satis_deyeri as int == st_satis_deyeri(
        s.satislar@,
        s.satis_elementleri@,
        s.satis_elementleri@.len() as int,
        b,
        son,
        m,
    )
    &&& g.toplam_qazanc as int == st_qazanci(s, b, son, m)
    &&& g.ortalama_qazanc_vahid as int == kesirsiz_bolme(
        st_qazanci(s, b, son, m),
        st_satis_miqdar(
            s.satislar@,
            s.satis_elementleri@,
            s.satis_elementleri@.len() as int,
            b,
            son,
            m,
        ),
    )
    &&& g.hazirki_stok as int == st_hazirki_stok(s.stoklar@, s.stoklar@.len() as int, m)
}

impl Store {
    /// Signed division truncating toward zero, zero for a non-positive
    /// divisor.
    fn kesirsiz_bol(a: i64, b: i64) -> (r: i64)
        ensures
            r as int == kesirsiz_bolme(a as int, b as int),
    {
        if b <= 0 {
            0
        } else if a >= 0 {
            ((a as u128) / (b as u128)) as i64
        } else {
            let mag: u128 = ((-(a as i128)) as u128) / (b as u128);
            proof {
                assert(mag <= (-(a as int)) as u128);
            }
            (-(mag as i128)) as i64
        }
    }

    /// The product's in-range incoming and sold quantities.
    #[verifier::loop_isolation(false)]
    fn st_miqdarlar(&self, b: Tarix, son: Tarix, m: i64) -> (r: (i128, i128))
        requires
            self.kecerli(),
        ensures
            r.0 as int == st_giris_miqdar(self.hereketler@, self.hereketler@.len() as int, b, son, m as int),
            r.1 as int == st_satis_miqdar(
                self.satislar@,
                self.satis_elementleri@,
                self.satis_elementleri@.len() as int,
                b,
                son,
                m as int,
            ),
    {
        let hn = self.hereketler.len();
        let mut gm: i128 = 0;
        let mut k: usize = 0;
        while k < hn
            invariant
                hn == self.hereketler@.len(),
                0 <= k <= hn,
                gm as int == st_giris_miqdar(self.hereketler@, k as int, b, son, m as int),
                -((k as int) * 0x8000_0000_0000_0000) <= gm as int <= (k as int)
                    * 0x8000_0000_0000_0000,
            decreases hn - k,
        {
            proof {
                assert((k as int) * 0x8000_0000_0000_0000 <= (hn as int) * 0x8000_0000_0000_0000
                    && (hn as int) * 0x8000_0000_0000_0000
                    <= 0x8000_0000_0000_0000_0000_0000_0000_0000 - 0x8000_0000_0000_0000) by (nonlinear_arith)
                    requires
                        0 <= k as int <= hn as int,
                        hn as int <= 0xFFFF_FFFF_FFFF_FFFF,
                ;
                assert((k + 1) as int * 0x8000_0000_0000_0000 == (k as int) * 0x8000_0000_0000_0000
                    + 0x8000_0000_0000_0000) by (nonlinear_arith);
            }
            let h = &self.hereketler[k];
            if h.mehsul_id == m && h.novu == HereketNovu::DaxilOlma && h.tarix.aralikdadir(
                &b,
                &son,
            ) {
                gm = gm + (h.miqdar as i128);
            }
            k = k + 1;
        }
        let en = self.satis_elementleri.len();
        let mut sm: i128 = 0;
        k = 0;
        while k < en
            invariant
                en == self.satis_elementleri@.len(),
                0 <= k <= en,
                sm as int == st_satis_miqdar(
                    self.satislar@,
                    self.satis_elementleri@,
                    k as int,
                    b,
                    son,
                    m as int,
                ),
                -((k as int) * 0x8000_0000_0000_0000) <= sm as int <= (k as int)
                    * 0x8000_0000_0000_0000,
            decreases en - k,
        {
            proof {
                assert((k as int) * 0x8000_0000_0000_0000 <= (en as int) * 0x8000_0000_0000_0000
                    && (en as int) * 0x8000_0000_0000_0000
                    <= 0x8000_0000_0000_0000_0000_0000_0000_0000 - 0x8000_0000_0000_0000) by (nonlinear_arith)
                    requires
                        0 <= k as int <= en as int,
                        en as int <= 0xFFFF_FFFF_FFFF_FFFF,
                ;
                assert((k + 1) as int * 0x8000_0000_0000_0000 == (k as int) * 0x8000_0000_0000_0000
                    + 0x8000_0000_0000_0000) by (nonlinear_arith);
            }
            let e = &self.satis_elementleri[k];
            if e.mehsul_id == m {
                let sayilir: bool = match self.satis_tap(e.satis_id) {
                    Some(si) => self.satislar[si].tarix.aralikdadir(&b, &son),
                    None => false,
                };
                if sayilir {
                    sm = sm + (e.miqdar as i128);
                }
            }
            k = k + 1;
        }
        (gm, sm)
    }

    /// The product-statistics report over the inclusive date range and
    /// optional category filter: one line per product with in-range
    /// activity — incoming quantity and cost from the audit trail,
    /// sold quantity, revenue, profit against the purchase price,
    /// per-unit average profit and current stock — plus the totals and
    /// the profit percentage against the incoming cost. Fails exactly
    /// when a line or a total leaves the representable range.
    #[verifier::loop_isolation(false)]
    #[verifier::rlimit(100)]
    pub fn mehsul_statistikasi(
        &self,
        kateqoriya_id: Option<i64>,
        baslangic: Tarix,
        bitis: Tarix,
    ) -> (r: Result<ProductStatisticsReport, Xeta>)
        requires
            self.kecerli(),
        ensures
            r is Err <==> !statistika_sigar(*self, baslangic, bitis, kateqoriya_id),
            r is Err ==> r == Err::<ProductStatisticsReport, Xeta>(Xeta::HeddenArtiq),
            r matches Ok(g) ==> {
                let pn = self.mehsullar@.len() as int;
                &&& g.baslangic_tarix == baslangic
                &&& g.bitis_tarix == bitis
                &&& g.umumi_alis_miqdar as int == st_cem_giris_miqdar(
                    *self,
                    baslangic,
                    bitis,
                    kateqoriya_id,
                    pn,
                )
                &&& g.umumi_satis_miqdar as int == st_cem_satis_miqdar(
                    *self,
                    baslangic,
                    bitis,
                    kateqoriya_id,
                    pn,
                )
                &&& g.umumi_alis_deyeri as int == st_cem_giris_deyeri(
                    *self,
                    baslangic,
                    bitis,
                    kateqoriya_id,
                    pn,
                )
                &&& g.umumi_satis_deyeri as int == st_cem_satis_deyeri(
                    *self,
                    baslangic,
                    bitis,
                    kateqoriya_id,
                    pn,
                )
                &&& g.umumi_qazanc as int == st_cem_qazanc(*self, baslangic, bitis, kateqoriya_id, pn)
                &&& g.ortalama_qazanc_faizi as int == kesirsiz_bolme(
                    st_cem_qazanc(*self, baslangic, bitis, kateqoriya_id, pn) * 100,
                    st_cem_giris_deyeri(*self, baslangic, bitis, kateqoriya_id, pn),
                )
                &&& (forall|i: int|
                    0 <= i < g.items@.len() ==> statistika_setri_uygun(
                        *self,
                        baslangic,
                        bitis,
                        kateqoriya_id,
                        #[trigger] g.items@[i],
                    ))
                &&& (forall|i: int, j: int|
                    0 <= i < j < g.items@.len() ==> (#[trigger] g.items@[i]).mehsul_id
                        != (#[trigger] g.items@[j]).mehsul_id)
                &&& (forall|m: int|
                    mehsul_movcud(self.mehsullar@, m) && #[trigger] st_saxlanir(
                        *self,
                        baslangic,
                        bitis,
                        kateqoriya_id,
                        m,
                    ) ==> exists|i: int|
                        0 <= i < g.items@.len() && (#[trigger] g.items@[i]).mehsul_id == m)
            },
    {
        let pn = self.mehsullar.len();
        let mut items: Vec<ProductStatistics> = Vec::new();
        let mut t_gm: i128 = 0;
        let mut t_sm: i128 = 0;
        let mut t_gd: i128 = 0;
        let mut t_sd: i128 = 0;
        let mut t_qz: i128 = 0;
        let mut pi: usize = 0;
        while pi < pn
            invariant
                pn == self.mehsullar@.len(),
                0 <= pi <= pn,
                t_gm as int == st_cem_giris_miqdar(*self, baslangic, bitis, kateqoriya_id, pi as int),
                t_sm as int == st_cem_satis_miqdar(*self, baslangic, bitis, kateqoriya_id, pi as int),
                t_gd as int == st_cem_giris_deyeri(*self, baslangic, bitis, kateqoriya_id, pi as int),
                t_sd as int == st_cem_satis_deyeri(*self, baslangic, bitis, kateqoriya_id, pi as int),
                t_qz as int == st_cem_qazanc(*self, baslangic, bitis, kateqoriya_id, pi as int),
                -((items@.len() as int) * 0x8000_0000_0000_0000) <= t_gm as int <= (
                items@.len() as int) * 0x7FFF_FFFF_FFFF_FFFF,
                -((items@.len() as int) * 0x8000_0000_0000_0000) <= t_sm as int <= (
                items@.len() as int) * 0x7FFF_FFFF_FFFF_FFFF,
                -((items@.len() as int) * 0x8000_0000_0000_0000) <= t_gd as int <= (
                items@.len() as int) * 0x7FFF_FFFF_FFFF_FFFF,
                -((items@.len() as int) * 0x8000_0000_0000_0000) <= t_sd as int <= (
                items@.len() as int) * 0x7FFF_FFFF_FFFF_FFFF,
                -((items@.len() as int) * 0x8000_0000_0000_0000) <= t_qz as int <= (
                items@.len() as int) * 0x7FFF_FFFF_FFFF_FFFF,
                forall|a: int|
                    0 <= a < pi ==> #[trigger] st_sigar(
                        *self,
                        baslangic,
                        bitis,
                        kateqoriya_id,
                        self.mehsullar@[a].id as int,
                    ),
                forall|i: int|
                    0 <= i < items@.len() ==> statistika_setri_uygun(
                        *self,
                        baslangic,
                        bitis,
                        kateqoriya_id,
                        #[trigger] items@[i],
                    ),
                forall|i: int|
                    0 <= i < items@.len() ==> mehsul_indeksi(
                        self.mehsullar@,
                        (#[trigger] items@[i]).mehsul_id as int,
                    ) < pi,
                forall|i: int, j: int|
                    0 <= i < j < items@.len() ==> (#[trigger] items@[i]).mehsul_id
                        != (#[trigger] items@[j]).mehsul_id,
                forall|a: int|
                    0 <= a < pi && st_saxlanir(
                        *self,
                        baslangic,
                        bitis,
                        kateqoriya_id,
                        (#[trigger] self.mehsullar@[a]).id as int,
                    ) ==> exists|i: int|
                        0 <= i < items@.len() && (#[trigger] items@[i]).mehsul_id
                            == self.mehsullar@[a].id,
            decreases pn - pi,
        {
            let m = self.mehsullar[pi].id;
            proof {
                if mehsul_indeksi(self.mehsullar@, m as int) != pi as int {
                    let idx = mehsul_indeksi(self.mehsullar@, m as int);
                    assert(mehsul_movcud(self.mehsullar@, m as int));
                    assert(0 <= idx < self.mehsullar@.len() && self.mehsullar@[idx].id == m);
                    if idx < pi as int {
                        assert(self.mehsullar@[idx].id < self.mehsullar@[pi as int].id);
                    } else {
                        assert(self.mehsullar@[pi as int].id < self.mehsullar@[idx].id);
                    }
                }
                assert(mehsul_indeksi(self.mehsullar@, m as int) == pi as int);
            }
            let (gm, sm) = self.st_miqdarlar(baslangic, bitis, m);
            let kat_uygun: bool = match kateqoriya_id {
                Some(kid) => match self.mehsullar[pi].kateqoriya_id {
                    Some(k2) => k2 == kid,
                    None => false,
                },
                None => true,
            };
            let saxla = kat_uygun && (gm > 0 || sm > 0);
            proof {
                assert(saxla == st_saxlanir(*self, baslangic, bitis, kateqoriya_id, m as int));
            }
            if saxla {
                if gm > i64::MAX as i128 || gm < i64::MIN as i128 || sm > i64::MAX as i128 || sm
                    < i64::MIN as i128 {
                    proof {
                        assert(!st_sigar(*self, baslangic, bitis, kateqoriya_id, m as int));
                    }
                    return Err(Xeta::HeddenArtiq);
                }
                let alis = self.mehsullar[pi].alis_qiymeti;
                // incoming cost, checked against the 128-bit range
                let hn = self.hereketler.len();
                let mut gd: i128 = 0;
                let mut k: usize = 0;
                while k < hn
                    invariant
                        hn == self.hereketler@.len(),
                        0 <= k <= hn,
                        m == self.mehsullar@[pi as int].id,
                        pi < pn,
                        mehsul_indeksi(self.mehsullar@, m as int) == pi as int,
                        alis == self.mehsullar@[pi as int].alis_qiymeti,
                        gd as int == st_giris_deyeri(
                            self.mehsullar@,
                            self.hereketler@,
                            k as int,
                            baslangic,
                            bitis,
                            m as int,
                        ),
                        forall|k2: int|
                            0 <= k2 <= k ==> i128_sigar(
                                #[trigger] st_giris_deyeri(
                                    self.mehsullar@,
                                    self.hereketler@,
                                    k2,
                                    baslangic,
                                    bitis,
                                    m as int,
                                ),
                            ),
                    decreases hn - k,
                {
                    let h = &self.hereketler[k];
                    if h.mehsul_id == m && h.novu == HereketNovu::DaxilOlma && h.tarix.aralikdadir(
                        &baslangic,
                        &bitis,
                    ) {
                        proof {
                            assert(forall|a: int, b2: int|
                                -0x8000_0000_0000_0000 <= a <= 0x7FFF_FFFF_FFFF_FFFF
                                    && -0x8000_0000_0000_0000 <= b2 <= 0x7FFF_FFFF_FFFF_FFFF
                                    ==> i128_sigar(#[trigger] (a * b2))) by (nonlinear_arith);
                        }
                        let term: i128 = match h.toplam_deyeri {
                            Some(d) => d as i128,
                            None => (h.miqdar as i128) * (alis as i128),
                        };
                        gd = match gd.checked_add(term) {
                            Some(v) => v,
                            None => {
                                proof {
                                    assert(!i128_sigar(
                                        st_giris_deyeri(
                                            self.mehsullar@,
                                            self.hereketler@,
                                            k as int + 1,
                                            baslangic,
                                            bitis,
                                            m as int,
                                        ),
                                    ));
                                    assert(!st_sigar(
                                        *self,
                                        baslangic,
                                        bitis,
                                        kateqoriya_id,
                                        m as int,
                                    ));
                                }
                                return Err(Xeta::HeddenArtiq);
                            },
                        };
                    }
                    k = k + 1;
                }
                if gd > i64::MAX as i128 || gd < i64::MIN as i128 {
                    proof {
                        assert(!st_sigar(*self, baslangic, bitis, kateqoriya_id, m as int));
                    }
                    return Err(Xeta::HeddenArtiq);
                }
                // revenue
                let en = self.satis_elementleri.len();
                let mut sd: i128 = 0;
                k = 0;
                while k < en
                    invariant
                        en == self.satis_elementleri@.len(),
                        0 <= k <= en,
                        m == self.mehsullar@[pi as int].id,
                        pi < pn,
                        mehsul_indeksi(self.mehsullar@, m as int) == pi as int,
                        sd as int == st_satis_deyeri(
                            self.satislar@,
                            self.satis_elementleri@,
                            k as int,
                            baslangic,
                            bitis,
                            m as int,
                        ),
                        -((k as int) * 0x8000_0000_0000_0000) <= sd as int <= (k as int)
                            * 0x8000_0000_0000_0000,
                    decreases en - k,
                {
                    proof {
                        assert((k as int) * 0x8000_0000_0000_0000 <= (en as int)
                            * 0x8000_0000_0000_0000 && (en as int) * 0x8000_0000_0000_0000
                            <= 0x8000_0000_0000_0000_0000_0000_0000_0000 - 0x8000_0000_0000_0000)
                            by (nonlinear_arith)
                            requires
                                0 <= k as int <= en as int,
                                en as int <= 0xFFFF_FFFF_FFFF_FFFF,
                        ;
                        assert((k + 1) as int * 0x8000_0000_0000_0000 == (k as int)
                            * 0x8000_0000_0000_0000 + 0x8000_0000_0000_0000) by (nonlinear_arith);
                    }
                    let e = &self.satis_elementleri[k];
                    if e.mehsul_id == m {
                        let sayilir: bool = match self.satis_tap(e.satis_id) {
                            Some(si) => self.satislar[si].tarix.aralikdadir(&baslangic, &bitis),
                            None => false,
                        };
                        if sayilir {
                            sd = sd + (e.toplam_qiymet as i128);
                        }
                    }
                    k = k + 1;
                }
                if sd > i64::MAX as i128 || sd < i64::MIN as i128 {
                    proof {
                        assert(!st_sigar(*self, baslangic, bitis, kateqoriya_id, m as int));
                    }
                    return Err(Xeta::HeddenArtiq);
                }
                // profit against the purchase price
                proof {
                    assert(forall|a: int, b2: int|
                        -0x8000_0000_0000_0000 <= a <= 0x7FFF_FFFF_FFFF_FFFF
                            && -0x8000_0000_0000_0000 <= b2 <= 0x7FFF_FFFF_FFFF_FFFF ==> (
                        -0x4000_0000_0000_0000_0000_0000_0000_0000 <= #[trigger] (a * b2)
                            <= 0x4000_0000_0000_0000_0000_0000_0000_0000)) by (nonlinear_arith);
                }
                let maya: i128 = (alis as i128) * sm;
                let qaz: i128 = sd - maya;
                if qaz > i64::MAX as i128 || qaz < i64::MIN as i128 {
                    proof {
                        assert(!st_sigar(*self, baslangic, bitis, kateqoriya_id, m as int));
                    }
                    return Err(Xeta::HeddenArtiq);
                }
                let ort = Store::kesirsiz_bol(qaz as i64, sm as i64);
                // current stock
                let sn2 = self.stoklar.len();
                let mut hs: i128 = 0;
                k = 0;
                while k < sn2
                    invariant
                        sn2 == self.stoklar@.len(),
                        0 <= k <= sn2,
                        m == self.mehsullar@[pi as int].id,
                        pi < pn,
                        mehsul_indeksi(self.mehsullar@, m as int) == pi as int,
                        hs as int == st_hazirki_stok(self.stoklar@, k as int, m as int),
                        -((k as int) * 0x8000_0000_0000_0000) <= hs as int <= (k as int)
                            * 0x8000_0000_0000_0000,
                    decreases sn2 - k,
                {
                    proof {
                        assert((k as int) * 0x8000_0000_0000_0000 <= (sn2 as int)
                            * 0x8000_0000_0000_0000 && (sn2 as int) * 0x8000_0000_0000_0000
                            <= 0x8000_0000_0000_0000_0000_0000_0000_0000 - 0x8000_0000_0000_0000)
                            by (nonlinear_arith)
                            requires
                                0 <= k as int <= sn2 as int,
                                sn2 as int <= 0xFFFF_FFFF_FFFF_FFFF,
                        ;
                        assert((k + 1) as int * 0x8000_0000_0000_0000 == (k as int)
                            * 0x8000_0000_0000_0000 + 0x8000_0000_0000_0000) by (nonlinear_arith);
                    }
                    let s2 = &self.stoklar[k];
                    if s2.mehsul_id == m {
                        hs = hs + (s2.miqdar as i128);
                    }
                    k = k + 1;
                }
                if hs > i64::MAX as i128 || hs < i64::MIN as i128 {
                    proof {
                        assert(!st_sigar(*self, baslangic, bitis, kateqoriya_id, m as int));
                    }
                    return Err(Xeta::HeddenArtiq);
                }
                let kateqoriya_adi: Option<String> = match self.mehsullar[pi].kateqoriya_id {
                    Some(kid) => match self.kateqoriya_tap(kid) {
                        Some(c) => Some(self.kateqoriyalar[c].ad.clone()),
                        None => None,
                    },
                    None => None,
                };
                let setir = ProductStatistics {
                    mehsul_id: m,
                    mehsul_adi: self.mehsullar[pi].ad.clone(),
                    barkod: self.mehsullar[pi].barkod.clone(),
                    kateqoriya_id: self.mehsullar[pi].kateqoriya_id,
                    kateqoriya_adi,
                    toplam_alis_miqdar: gm as i64,
                    toplam_satis_miqdar: sm as i64,
                    toplam_alis_deyeri: gd as i64,
                    toplam_satis_deyeri: sd as i64,
                    ortalama_qazanc_vahid: ort,
                    toplam_qazanc: qaz as i64,
                    hazirki_stok: hs as i64,
                };
                let uzunluq = items.len();
                proof {
                    assert(statistika_setri_uygun(*self, baslangic, bitis, kateqoriya_id, setir));
                    assert((uzunluq as int + 1) * 0x7FFF_FFFF_FFFF_FFFF == (uzunluq as int)
                        * 0x7FFF_FFFF_FFFF_FFFF + 0x7FFF_FFFF_FFFF_FFFF && (uzunluq as int + 1)
                        * 0x8000_0000_0000_0000 == (uzunluq as int) * 0x8000_0000_0000_0000
                        + 0x8000_0000_0000_0000) by (nonlinear_arith);
                    assert((uzunluq as int + 1) * 0x8000_0000_0000_0000
                        <= 0x8000_0000_0000_0000_0000_0000_0000_0000) by (nonlinear_arith)
                        requires
                            uzunluq as int + 1 <= 0x1_0000_0000_0000_0000,
                    ;
                }
                let ghost items_evvel = items@;
                items.push(setir);
                t_gm = t_gm + (gm as i128);
                t_sm = t_sm + (sm as i128);
                t_gd = t_gd + (gd as i128);
                t_sd = t_sd + (sd as i128);
                t_qz = t_qz + qaz;
                proof {
                    let yeni = items@;
                    assert(yeni == items_evvel.push(setir));
                    assert(yeni[yeni.len() - 1].mehsul_id == m);
                    assert forall|a2: int|
                        0 <= a2 <= pi && st_saxlanir(
                            *self,
                            baslangic,
                            bitis,
                            kateqoriya_id,
                            (#[trigger] self.mehsullar@[a2]).id as int,
                        ) implies exists|i: int|
                        0 <= i < yeni.len() && (#[trigger] yeni[i]).mehsul_id
                            == self.mehsullar@[a2].id by {
                        if a2 == pi as int {
                            assert(yeni[yeni.len() - 1].mehsul_id == self.mehsullar@[a2].id);
                        } else {
                            assert(exists|i: int|
                                0 <= i < items_evvel.len() && (#[trigger] items_evvel[i]).mehsul_id
                                    == self.mehsullar@[a2].id);
                            let w = choose|i: int|
                                0 <= i < items_evvel.len() && (#[trigger] items_evvel[i]).mehsul_id
                                    == self.mehsullar@[a2].id;
                            assert(yeni[w] == items_evvel[w]);
                        }
                    }
                }
            }
            pi = pi + 1;
        }
        if t_gm > i64::MAX as i128 || t_gm < i64::MIN as i128 || t_sm > i64::MAX as i128 || t_sm
            < i64::MIN as i128 || t_gd > i64::MAX as i128 || t_gd < i64::MIN as i128 || t_sd
            > i64::MAX as i128 || t_sd < i64::MIN as i128 || t_qz > i64::MAX as i128 || t_qz
            < i64::MIN as i128 {
            return Err(Xeta::HeddenArtiq);
        }
        let q100: i128 = (t_qz as i64 as i128) * 100;
        proof {
            assert(i128_sigar((t_qz as int) * 100)) by (nonlinear_arith)
                requires
                    -0x8000_0000_0000_0000 <= t_qz as int <= 0x7FFF_FFFF_FFFF_FFFF,
            ;
        }
        let faiz: i128 = if (t_gd as i64) <= 0 {
            0
        } else if q100 >= 0 {
            ((q100 as u128) / ((t_gd as i64) as u128)) as i128
        } else {
            let mag: u128 = ((-q100) as u128) / ((t_gd as i64) as u128);
            -(mag as i128)
        };
        if faiz > i64::MAX as i128 || faiz < i64::MIN as i128 {
            return Err(Xeta::HeddenArtiq);
        }
        proof {
            assert forall|m2: int| mehsul_movcud(self.mehsullar@, m2) implies #[trigger] st_sigar(
                *self,
                baslangic,
                bitis,
                kateqoriya_id,
                m2,
            ) by {
                let a = mehsul_indeksi(self.mehsullar@, m2);
                assert(0 <= a < self.mehsullar@.len() && self.mehsullar@[a].id == m2);
            }
            assert(statistika_sigar(*self, baslangic, bitis, kateqoriya_id));
        }
        let ghost son_items = items@;
        let netice = ProductStatisticsReport {
            baslangic_tarix: baslangic,
            bitis_tarix: bitis,
            items,
            umumi_alis_miqdar: t_gm as i64,
            umumi_satis_miqdar: t_sm as i64,
            umumi_alis_deyeri: t_gd as i64,
            umumi_satis_deyeri: t_sd as i64,
            umumi_qazanc: t_qz as i64,
            ortalama_qazanc_faizi: faiz as i64,
        };
        proof {
            assert(netice.items@ == son_items);
            assert forall|m2: int|
                mehsul_movcud(self.mehsullar@, m2) && #[trigger] st_saxlanir(
                    *self,
                    baslangic,
                    bitis,
                    kateqoriya_id,
                    m2,
                ) implies exists|i: int|
                0 <= i < netice.items@.len() && (#[trigger] netice.items@[i]).mehsul_id == m2 by {
                let a = mehsul_indeksi(self.mehsullar@, m2);
                assert(0 <= a < self.mehsullar@.len() && self.mehsullar@[a].id == m2);
                assert(exists|i: int|
                    0 <= i < son_items.len() && (#[trigger] son_items[i]).mehsul_id == m2);
                let w = choose|i: int|
                    0 <= i < son_items.len() && (#[trigger] son_items[i]).mehsul_id == m2;
                assert(netice.items@[w] == son_items[w]);
            }
        }
        Ok(netice)
    }
}

} // verus!

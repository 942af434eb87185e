use vstd::prelude::*;
use crate::borc::i128_sigar;
use crate::model::{MehsulSetri, StokSetri};
use crate::store::{i64_sigar, mehsul_indeksi, mehsul_movcud, Store};
use crate::xeta::Xeta;

verus! {

/// The stock-valuation totals: distinct products in stock, units on
/// hand, and the holdings valued at purchase and at sale prices.
#[derive(Clone, Copy, PartialEq, Eq, Structural, Debug)]
pub struct StockValueReport {
    pub toplam_mehsul: u64,
    pub toplam_stok: i64,
    pub alis_deyeri: i64,
    pub satis_deyeri: i64,
    pub potensial_qazanc: i64,
}

/// A stock row counts toward the valuation: positive quantity and an
/// existing product to price it by.
pub open spec fn deyerde_sayilan(mehsullar: Seq<MehsulSetri>, r: StokSetri) -> bool {
    r.miqdar > 0 && mehsul_movcud(mehsullar, r.mehsul_id as int)
}

/// Units on hand over the first `n` stock rows that count.
pub open spec fn stok_vahid_cemi(mehsullar: Seq<MehsulSetri>, s: Seq<StokSetri>, n: int) -> int
    decreases n,
{
    if n <= 0 {
        0
    } else {
        stok_vahid_cemi(mehsullar, s, n - 1) + if deyerde_sayilan(mehsullar, s[n - 1]) {
            s[n - 1].miqdar as int
        } else {
            0
        }
    }
}

/// Valuation at purchase prices over the first `n` stock rows.
pub open spec fn stok_alis_deyeri(mehsullar: Seq<MehsulSetri>, s: Seq<StokSetri>, n: int) -> int
    decreases n,
{
    if n <= 0 {
        0
    } else {
        stok_alis_deyeri(mehsullar, s, n - 1) + if deyerde_sayilan(mehsullar, s[n - 1]) {
            s[n - 1].miqdar * mehsullar[mehsul_indeksi(
                mehsullar,
                s[n - 1].mehsul_id as int,
            )].alis_qiymeti
        } else {
            0
        }
    }
}

/// Valuation at sale prices over the first `n` stock rows.
pub open spec fn stok_satis_deyeri(mehsullar: Seq<MehsulSetri>, s: Seq<StokSetri>, n: int) -> int
    decreases n,
{
    if n <= 0 {
        0
    } else {
        stok_satis_deyeri(mehsullar, s, n - 1) + if deyerde_sayilan(mehsullar, s[n - 1]) {
            s[n - 1].miqdar * mehsullar[mehsul_indeksi(
                mehsullar,
                s[n - 1].mehsul_id as int,
            )].satis_qiymeti
        } else {
            0
        }
    }
}

/// An earlier counting stock row (before position `n`) already named
/// the product.
pub open spec fn mehsul_evvel_sayilib(s: Seq<StokSetri>, n: int, mehsul_id: int) -> bool {
    exists|j: int| 0 <= j < n && (#[trigger] s[j]).miqdar > 0 && s[j].mehsul_id == mehsul_id
}

/// Distinct products among the first `n` counting stock rows.
pub open spec fn ferqli_mehsul_sayi(mehsullar: Seq<MehsulSetri>, s: Seq<StokSetri>, n: int) -> int
    decreases n,
{
    if n <= 0 {
        0
    } else {
        ferqli_mehsul_sayi(mehsullar, s, n - 1) + if deyerde_sayilan(mehsullar, s[n - 1])
            && !mehsul_evvel_sayilib(s, n - 1, s[n - 1].mehsul_id as int) {
            1int
        } else {
            0int
        }
    }
}

/// Every prefix of the two valuations stays within 128 bits, and the
/// final totals fit the report's 64-bit fields.
pub open spec fn deyer_sigar(s: Store) -> bool {
    let n = s.stoklar@.len() as int;
    &&& forall|k: int|
        0 <= k <= n ==> i128_sigar(#[trigger] stok_alis_deyeri(s.mehsullar@, s.stoklar@, k))
    &&& forall|k: int|
        0 <= k <= n ==> i128_sigar(#[trigger] stok_satis_deyeri(s.mehsullar@, s.stoklar@, k))
    &&& i64_sigar(stok_vahid_cemi(s.mehsullar@, s.stoklar@, n))
    &&& i64_sigar(stok_alis_deyeri(s.mehsullar@, s.stoklar@, n))
    &&& i64_sigar(stok_satis_deyeri(s.mehsullar@, s.stoklar@, n))
    &&& i64_sigar(
        stok_satis_deyeri(s.mehsullar@, s.stoklar@, n) - stok_alis_deyeri(
            s.mehsullar@,
            s.stoklar@,
            n,
        ),
    )
}

impl Store {
    /// The stock valuation: over every stock row with a positive
    /// quantity and an existing product, the distinct products, the
    /// unit total, the valuations at purchase and sale prices, and the
    /// potential margin between them. Zero-filled when nothing is in
    /// stock; fails exactly when a total leaves the representable
    /// range.
    #[verifier::loop_isolation(false)]
    pub fn stok_deyeri_hesabati(&self) -> (r: Result<StockValueReport, Xeta>)
        requires
            self.kecerli(),
        ensures
            r is Err <==> !deyer_sigar(*self),
            r is Err ==> r == Err::<StockValueReport, Xeta>(Xeta::HeddenArtiq),
            r matches Ok(g) ==> {
                let n = self.stoklar@.len() as int;
                &&& g.toplam_mehsul as int == ferqli_mehsul_sayi(self.mehsullar@, self.stoklar@, n)
                &&& g.toplam_stok as int == stok_vahid_cemi(self.mehsullar@, self.stoklar@, n)
                &&& g.alis_deyeri as int == stok_alis_deyeri(self.mehsullar@, self.stoklar@, n)
                &&& g.satis_deyeri as int == stok_satis_deyeri(self.mehsullar@, self.stoklar@, n)
                &&& g.potensial_qazanc as int == stok_satis_deyeri(self.mehsullar@, self.stoklar@, n)
                    - stok_alis_deyeri(self.mehsullar@, self.stoklar@, n)
            },
    {
        let n = self.stoklar.len();
        let mut say: u64 = 0;
        let mut vahid: i128 = 0;
        let mut alis: i128 = 0;
        let mut satis: i128 = 0;
        let mut i: usize = 0;
        while i < n
            invariant
                n == self.stoklar@.len(),
                0 <= i <= n,
                say as int == ferqli_mehsul_sayi(self.mehsullar@, self.stoklar@, i as int),
                say as int <= i,
                vahid as int == stok_vahid_cemi(self.mehsullar@, self.stoklar@, i as int),
                -((i as int) * 0x8000_0000_0000_0000) <= vahid as int <= (i as int)
                    * 0x8000_0000_0000_0000,
                alis as int == stok_alis_deyeri(self.mehsullar@, self.stoklar@, i as int),
                satis as int == stok_satis_deyeri(self.mehsullar@, self.stoklar@, i as int),
                forall|k: int|
                    0 <= k <= i ==> i128_sigar(
                        #[trigger] stok_alis_deyeri(self.mehsullar@, self.stoklar@, k),
                    ),
                forall|k: int|
                    0 <= k <= i ==> i128_sigar(
                        #[trigger] stok_satis_deyeri(self.mehsullar@, self.stoklar@, k),
                    ),
            decreases n - i,
        {
            proof {
                assert((i as int) * 0x8000_0000_0000_0000 <= (n as int) * 0x8000_0000_0000_0000
                    && (n as int) * 0x8000_0000_0000_0000
                    <= 0x8000_0000_0000_0000_0000_0000_0000_0000 - 0x8000_0000_0000_0000) by (nonlinear_arith)
                    requires
                        0 <= i as int <= n as int,
                        n as int <= 0xFFFF_FFFF_FFFF_FFFF,
                ;
                assert((i + 1) as int * 0x8000_0000_0000_0000 == (i as int) * 0x8000_0000_0000_0000
                    + 0x8000_0000_0000_0000) by (nonlinear_arith);
            }
            let setir = self.stoklar[i];
            if setir.miqdar > 0 {
                match self.mehsul_tap(setir.mehsul_id) {
                    Some(k) => {
                        // units
                        vahid = vahid + (setir.miqdar as i128);
                        // valuations, checked against the 128-bit range
                        proof {
                            assert(forall|a: int, b: int|
                                -0x8000_0000_0000_0000 <= a <= 0x7FFF_FFFF_FFFF_FFFF
                                    && -0x8000_0000_0000_0000 <= b <= 0x7FFF_FFFF_FFFF_FFFF
                                    ==> i128_sigar(#[trigger] (a * b))) by (nonlinear_arith);
                        }
                        let m_alis = (setir.miqdar as i128) * (self.mehsullar[k].alis_qiymeti
                            as i128);
                        let m_satis = (setir.miqdar as i128) * (self.mehsullar[k].satis_qiymeti
                            as i128);
                        proof {
                            assert(m_alis as int == setir.miqdar * self.mehsullar@[mehsul_indeksi(
                                self.mehsullar@,
                                setir.mehsul_id as int,
                            )].alis_qiymeti) by (nonlinear_arith)
                                requires
                                    m_alis as int == (setir.miqdar as int) * (
                                    self.mehsullar@[k as int].alis_qiymeti as int),
                                    self.mehsullar@[k as int] == self.mehsullar@[mehsul_indeksi(
                                        self.mehsullar@,
                                        setir.mehsul_id as int,
                                    )],
                            ;
                            assert(m_satis as int == setir.miqdar * self.mehsullar@[mehsul_indeksi(
                                self.mehsullar@,
                                setir.mehsul_id as int,
                            )].satis_qiymeti) by (nonlinear_arith)
                                requires
                                    m_satis as int == (setir.miqdar as int) * (
                                    self.mehsullar@[k as int].satis_qiymeti as int),
                                    self.mehsullar@[k as int] == self.mehsullar@[mehsul_indeksi(
                                        self.mehsullar@,
                                        setir.mehsul_id as int,
                                    )],
                            ;
                        }
                        alis = match alis.checked_add(m_alis) {
                            Some(v) => v,
                            None => {
                                proof {
                                    assert(!i128_sigar(
                                        stok_alis_deyeri(
                                            self.mehsullar@,
                                            self.stoklar@,
                                            i as int + 1,
                                        ),
                                    ));
                                }
                                return Err(Xeta::HeddenArtiq);
                            },
                        };
                        satis = match satis.checked_add(m_satis) {
                            Some(v) => v,
                            None => {
                                proof {
                                    assert(!i128_sigar(
                                        stok_satis_deyeri(
                                            self.mehsullar@,
                                            self.stoklar@,
                                            i as int + 1,
                                        ),
                                    ));
                                }
                                return Err(Xeta::HeddenArtiq);
                            },
                        };
                        // distinct products: first counting row wins
                        let mut gorulub = false;
                        let mut j: usize = 0;
                        while j < i
                            invariant
                                0 <= j <= i < n,
                                n == self.stoklar@.len(),
                                gorulub == mehsul_evvel_sayilib(
                                    self.stoklar@,
                                    j as int,
                                    setir.mehsul_id as int,
                                ),
                            decreases i - j,
                        {
                            let evvelki = self.stoklar[j];
                            if evvelki.miqdar > 0 && evvelki.mehsul_id == setir.mehsul_id {
                                gorulub = true;
                            }
                            j = j + 1;
                        }
                        if !gorulub {
                            say = say + 1;
                        }
                    },
                    None => {},
                }
            }
            i = i + 1;
        }
        if vahid > i64::MAX as i128 || vahid < i64::MIN as i128 {
            return Err(Xeta::HeddenArtiq);
        }
        if alis > i64::MAX as i128 || alis < i64::MIN as i128 {
            return Err(Xeta::HeddenArtiq);
        }
        if satis > i64::MAX as i128 || satis < i64::MIN as i128 {
            return Err(Xeta::HeddenArtiq);
        }
        let ferq: i128 = satis - alis;
        if ferq > i64::MAX as i128 || ferq < i64::MIN as i128 {
            return Err(Xeta::HeddenArtiq);
        }
        Ok(
            StockValueReport {
                toplam_mehsul: say,
                toplam_stok: vahid as i64,
                alis_deyeri: alis as i64,
                satis_deyeri: satis as i64,
                potensial_qazanc: ferq as i64,
            },
        )
    }
}

} // verus!

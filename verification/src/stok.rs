use vstd::prelude::*;
use crate::model::{
    HereketNovu, HereketQeydi, HereketSetri, KateqoriyaSetri, MehsulSetri, OlcuSetri, StokSetri,
};
use crate::store::{
    hereket_sayi, i64_sigar, kateqoriya_indeksi, kateqoriya_movcud, mehsul_indeksi, mehsul_movcud,
    olcu_indeksi, olcu_movcud, stok_indeksi, stok_miqdari, stok_movcud, stok_uygun,
    stoklar_tek_seq, Store,
};
use crate::tarix::Tarix;
use crate::xeta::Xeta;

verus! {

/// A stock row as shown to callers: the stored fields with the product,
/// category and size display data resolved.
#[derive(Clone, PartialEq, Eq, Debug)]
pub struct Stock {
    pub id: i64,
    pub mehsul_id: i64,
    pub mehsul_adi: Option<String>,
    pub mehsul_barkod: Option<String>,
    pub kateqoriya_id: Option<i64>,
    pub kateqoriya_adi: Option<String>,
    pub olcu_id: i64,
    pub olcu: Option<String>,
    pub miqdar: i64,
    pub minimum_miqdar: i64,
}

/// Request to add quantity to a (product, size) pair, creating the row
/// with the given minimum threshold when it does not exist yet.
#[derive(Clone, PartialEq, Eq, Debug)]
pub struct CreateStock {
    pub mehsul_id: i64,
    pub olcu_id: i64,
    pub miqdar: i64,
    pub minimum_miqdar: Option<i64>,
}

/// Request to set a pair's quantity and minimum threshold outright.
#[derive(Clone, PartialEq, Eq, Debug)]
pub struct UpdateStock {
    pub miqdar: i64,
    pub minimum_miqdar: Option<i64>,
}

/// An audit-trail row as shown to callers, with display data resolved.
#[derive(Clone, PartialEq, Eq, Debug)]
pub struct StockMovement {
    pub id: i64,
    pub mehsul_id: i64,
    pub mehsul_adi: Option<String>,
    pub olcu_id: i64,
    pub olcu: Option<String>,
    pub novu: HereketNovu,
    pub miqdar: i64,
    pub evvelki_miqdar: Option<i64>,
    pub yeni_miqdar: Option<i64>,
    pub qeyd: HereketQeydi,
    pub tarix: Tarix,
}

/// `g` shows exactly the stored stock row `setir`, with the display
/// fields resolved against the given reference tables: present when the
/// referenced row exists, absent otherwise.
pub open spec fn stok_gorunusu_uygun(
    mehsullar: Seq<MehsulSetri>,
    kateqoriyalar: Seq<KateqoriyaSetri>,
    olculer: Seq<OlcuSetri>,
    setir: StokSetri,
    g: Stock,
) -> bool {
    &&& g.id == setir.id
    &&& g.mehsul_id == setir.mehsul_id
    &&& g.olcu_id == setir.olcu_id
    &&& g.miqdar == setir.miqdar
    &&& g.minimum_miqdar == setir.minimum_miqdar
    &&& if mehsul_movcud(mehsullar, setir.mehsul_id as int) {
        let p = mehsullar[mehsul_indeksi(mehsullar, setir.mehsul_id as int)];
        &&& g.mehsul_adi matches Some(a) && a@ == p.ad@
        &&& g.mehsul_barkod matches Some(b) && b@ == p.barkod@
        &&& g.kateqoriya_id == p.kateqoriya_id
        &&& match p.kateqoriya_id {
            Some(kid) => if kateqoriya_movcud(kateqoriyalar, kid as int) {
                g.kateqoriya_adi matches Some(ka) && ka@ == kateqoriyalar[kateqoriya_indeksi(
                    kateqoriyalar,
                    kid as int,
                )].ad@
            } else {
                g.kateqoriya_adi is None
            },
            None => g.kateqoriya_adi is None,
        }
    } else {
        &&& g.mehsul_adi is None
        &&& g.mehsul_barkod is None
        &&& g.kateqoriya_id is None
        &&& g.kateqoriya_adi is None
    }
    &&& if olcu_movcud(olculer, setir.olcu_id as int) {
        g.olcu matches Some(oa) && oa@ == olculer[olcu_indeksi(olculer, setir.olcu_id as int)].olcu@
    } else {
        g.olcu is None
    }
}

/// One stock adjustment, as the mathematics sees it: a signed delta for
/// a (product, size) pair.
pub struct StokDuzelisi {
    pub mehsul_id: int,
    pub olcu_id: int,
    pub delta: int,
}

/// The stock table after one adjustment: the pair's row updated in
/// place, or a fresh row appended when the pair had none.
pub open spec fn stok_tetbiq(
    s: Seq<StokSetri>,
    mehsul_id: int,
    olcu_id: int,
    delta: int,
    minimum: int,
    yeni_id: int,
) -> Seq<StokSetri> {
    if stok_movcud(s, mehsul_id, olcu_id) {
        let k = stok_indeksi(s, mehsul_id, olcu_id);
        s.update(k, StokSetri { miqdar: (s[k].miqdar + delta) as i64, ..s[k] })
    } else {
        s.push(
            StokSetri {
                id: yeni_id as i64,
                mehsul_id: mehsul_id as i64,
                olcu_id: olcu_id as i64,
                miqdar: delta as i64,
                minimum_miqdar: minimum as i64,
            },
        )
    }
}

/// How one adjustment changes the pair lookup: the adjusted pair moves
/// by `delta`, every other pair keeps its quantity, and the one-row-per-
/// pair invariant is preserved.
pub proof fn lemma_stok_tetbiq(
    s: Seq<StokSetri>,
    mehsul_id: int,
    olcu_id: int,
    delta: int,
    minimum: int,
    yeni_id: int,
)
    requires
        stoklar_tek_seq(s),
        i64_sigar(stok_miqdari(s, mehsul_id, olcu_id) + delta),
        i64_sigar(delta),
        i64_sigar(minimum),
        i64_sigar(yeni_id),
        i64_sigar(mehsul_id),
        i64_sigar(olcu_id),
    ensures
        stoklar_tek_seq(stok_tetbiq(s, mehsul_id, olcu_id, delta, minimum, yeni_id)),
        stok_movcud(stok_tetbiq(s, mehsul_id, olcu_id, delta, minimum, yeni_id), mehsul_id, olcu_id),
        stok_miqdari(stok_tetbiq(s, mehsul_id, olcu_id, delta, minimum, yeni_id), mehsul_id, olcu_id)
            == stok_miqdari(s, mehsul_id, olcu_id) + delta,
        forall|m2: int, o2: int|
            !(m2 == mehsul_id && o2 == olcu_id) ==> #[trigger] stok_miqdari(
                stok_tetbiq(s, mehsul_id, olcu_id, delta, minimum, yeni_id),
                m2,
                o2,
            ) == stok_miqdari(s, m2, o2),
{
    let t = stok_tetbiq(s, mehsul_id, olcu_id, delta, minimum, yeni_id);
    if stok_movcud(s, mehsul_id, olcu_id) {
        let k = stok_indeksi(s, mehsul_id, olcu_id);
        assert(0 <= k < s.len() && stok_uygun(s[k], mehsul_id, olcu_id));
        // every index of t carries the same pair as in s
        assert forall|i: int| 0 <= i < t.len() implies #[trigger] t[i].mehsul_id
            == s[i].mehsul_id && t[i].olcu_id == s[i].olcu_id by {}
        assert(stoklar_tek_seq(t));
        // the pair still resolves to k
        assert(stok_uygun(t[k], mehsul_id, olcu_id));
        assert(stok_movcud(t, mehsul_id, olcu_id));
        let k2 = stok_indeksi(t, mehsul_id, olcu_id);
        assert(0 <= k2 < t.len() && stok_uygun(t[k2], mehsul_id, olcu_id));
        assert(k2 == k);
        assert(stok_miqdari(t, mehsul_id, olcu_id) == stok_miqdari(s, mehsul_id, olcu_id) + delta);
        assert forall|m2: int, o2: int| !(m2 == mehsul_id && o2 == olcu_id) implies #[trigger]
            stok_miqdari(t, m2, o2) == stok_miqdari(s, m2, o2) by {
            if stok_movcud(s, m2, o2) {
                let j = stok_indeksi(s, m2, o2);
                assert(0 <= j < s.len() && stok_uygun(s[j], m2, o2));
                assert(j != k);
                assert(stok_uygun(t[j], m2, o2));
                assert(stok_movcud(t, m2, o2));
                let j2 = stok_indeksi(t, m2, o2);
                assert(0 <= j2 < t.len() && stok_uygun(t[j2], m2, o2));
                assert(j2 == j);
            } else {
                if stok_movcud(t, m2, o2) {
                    let j2 = stok_indeksi(t, m2, o2);
                    assert(0 <= j2 < t.len() && stok_uygun(t[j2], m2, o2));
                    assert(stok_uygun(s[j2], m2, o2));
                }
            }
        }
    } else {
        let n = s.len() as int;
        assert(t == s.push(
            StokSetri {
                id: yeni_id as i64,
                mehsul_id: mehsul_id as i64,
                olcu_id: olcu_id as i64,
                miqdar: delta as i64,
                minimum_miqdar: minimum as i64,
            },
        ));
        assert(stok_uygun(t[n], mehsul_id, olcu_id));
        assert forall|i: int, j: int| 0 <= i < j < t.len() implies !(stok_uygun(
            #[trigger] t[i],
            (#[trigger] t[j]).mehsul_id as int,
            t[j].olcu_id as int,
        )) by {
            if j < n {
                assert(t[i] == s[i] && t[j] == s[j]);
            } else {
                assert(j == n);
                assert(t[i] == s[i]);
                if stok_uygun(t[i], t[n].mehsul_id as int, t[n].olcu_id as int) {
                    assert(stok_uygun(s[i], mehsul_id, olcu_id));
                    assert(stok_movcud(s, mehsul_id, olcu_id));
                }
            }
        }
        assert(stok_movcud(t, mehsul_id, olcu_id));
        let k2 = stok_indeksi(t, mehsul_id, olcu_id);
        assert(0 <= k2 < t.len() && stok_uygun(t[k2], mehsul_id, olcu_id));
        assert(k2 == n) by {
            if k2 < n {
                assert(stok_uygun(s[k2], mehsul_id, olcu_id));
                assert(stok_movcud(s, mehsul_id, olcu_id));
            }
        }
        assert(stok_miqdari(t, mehsul_id, olcu_id) == delta);
        assert forall|m2: int, o2: int| !(m2 == mehsul_id && o2 == olcu_id) implies #[trigger]
            stok_miqdari(t, m2, o2) == stok_miqdari(s, m2, o2) by {
            if stok_movcud(s, m2, o2) {
                let j = stok_indeksi(s, m2, o2);
                assert(0 <= j < s.len() && stok_uygun(s[j], m2, o2));
                assert(stok_uygun(t[j], m2, o2));
                assert(stok_movcud(t, m2, o2));
                let j2 = stok_indeksi(t, m2, o2);
                assert(0 <= j2 < t.len() && stok_uygun(t[j2], m2, o2));
                assert(j2 != n);
                assert(j2 == j);
            } else {
                if stok_movcud(t, m2, o2) {
                    let j2 = stok_indeksi(t, m2, o2);
                    assert(0 <= j2 < t.len() && stok_uygun(t[j2], m2, o2));
                    assert(j2 != n);
                    assert(stok_uygun(s[j2], m2, o2));
                }
            }
        }
    }
}

/// Appending one movement row raises the pair's audit count by one and
/// leaves every other pair's count unchanged.
pub proof fn lemma_hereket_sayi_push(h: Seq<HereketSetri>, r: HereketSetri)
    ensures
        forall|m: int, o: int|
            #[trigger] hereket_sayi(h.push(r), m, o) == hereket_sayi(h, m, o) + if r.mehsul_id == m
                && r.olcu_id == o {
                1int
            } else {
                0int
            },
{
    assert forall|m: int, o: int| #[trigger] hereket_sayi(h.push(r), m, o) == hereket_sayi(h, m, o)
        + if r.mehsul_id == m && r.olcu_id == o {
        1int
    } else {
        0int
    } by {
        assert(h.push(r).drop_last() =~= h);
        assert(h.push(r).last() == r);
    }
}

impl Store {
    /// The arithmetic of one adjustment stays within the store's
    /// 64-bit fields and the identity counters are not exhausted.
    pub open spec fn duzelis_sigar(self, mehsul_id: int, olcu_id: int, delta: int) -> bool {
        &&& i64_sigar(stok_miqdari(self.stoklar@, mehsul_id, olcu_id) + delta)
        &&& delta != i64::MIN
        &&& self.novbeti_stok_id < i64::MAX
        &&& self.novbeti_hereket_id < i64::MAX
    }

    /// The ledger primitive: apply a signed quantity delta to one
    /// (product, size) pair and append the audit-trail row for it, as
    /// one indivisible step. Absence of the pair's row counts as
    /// quantity zero and the row is created, with the given minimum
    /// threshold or the store's default. On any failure the store is
    /// left untouched.
    pub fn stok_duzelt(
        &mut self,
        mehsul_id: i64,
        olcu_id: i64,
        delta: i64,
        novu: HereketNovu,
        qeyd: HereketQeydi,
        vahid_alis_qiymeti: Option<i64>,
        toplam_deyeri: Option<i64>,
        minimum: Option<i64>,
        tarix: Tarix,
    ) -> (r: Result<(), Xeta>)
        requires
            old(self).kecerli(),
        ensures
            final(self).kecerli(),
            r is Err <==> !old(self).duzelis_sigar(mehsul_id as int, olcu_id as int, delta as int),
            r is Err ==> r == Err::<(), Xeta>(Xeta::HeddenArtiq) && Store::butov_eyni(
                *final(self),
                *old(self),
            ),
            r is Ok ==> final(self).stoklar@ == stok_tetbiq(
                old(self).stoklar@,
                mehsul_id as int,
                olcu_id as int,
                delta as int,
                match minimum {
                    Some(x) => x as int,
                    None => old(self).stok_minimumu as int,
                },
                old(self).novbeti_stok_id as int,
            ),
            r is Ok ==> final(self).hereketler@ == old(self).hereketler@.push(
                HereketSetri {
                    id: old(self).novbeti_hereket_id,
                    mehsul_id,
                    olcu_id,
                    novu,
                    miqdar: (if delta < 0 {
                        -(delta as int)
                    } else {
                        delta as int
                    }) as i64,
                    evvelki_miqdar: Some(
                        stok_miqdari(old(self).stoklar@, mehsul_id as int, olcu_id as int) as i64,
                    ),
                    yeni_miqdar: Some(
                        (stok_miqdari(old(self).stoklar@, mehsul_id as int, olcu_id as int)
                            + delta) as i64,
                    ),
                    vahid_alis_qiymeti,
                    toplam_deyeri,
                    qeyd,
                    tarix,
                },
            ),
            r is Ok ==> stok_movcud(final(self).stoklar@, mehsul_id as int, olcu_id as int),
            r is Ok ==> stok_miqdari(final(self).stoklar@, mehsul_id as int, olcu_id as int)
                == stok_miqdari(old(self).stoklar@, mehsul_id as int, olcu_id as int) + delta,
            r is Ok ==> forall|m2: int, o2: int|
                !(m2 == mehsul_id as int && o2 == olcu_id as int) ==> #[trigger] stok_miqdari(
                    final(self).stoklar@,
                    m2,
                    o2,
                ) == stok_miqdari(old(self).stoklar@, m2, o2),
            r is Ok ==> forall|m2: int, o2: int|
                #[trigger] hereket_sayi(final(self).hereketler@, m2, o2) == hereket_sayi(
                    old(self).hereketler@,
                    m2,
                    o2,
                ) + if m2 == mehsul_id as int && o2 == olcu_id as int {
                    1int
                } else {
                    0int
                },
            r is Ok ==> final(self).novbeti_hereket_id == old(self).novbeti_hereket_id + 1,
            r is Ok ==> final(self).novbeti_stok_id == old(self).novbeti_stok_id + (
            if stok_movcud(old(self).stoklar@, mehsul_id as int, olcu_id as int) {
                0int
            } else {
                1int
            }),
            Store::varliglar_eyni(*final(self), *old(self)),
            Store::senedler_eyni(*final(self), *old(self)),
    {
        if self.novbeti_stok_id == i64::MAX || self.novbeti_hereket_id == i64::MAX {
            return Err(Xeta::HeddenArtiq);
        }
        if delta == i64::MIN {
            return Err(Xeta::HeddenArtiq);
        }
        let mutleq: i64 = if delta < 0 {
            -delta
        } else {
            delta
        };
        let tapilan = self.stok_tap(mehsul_id, olcu_id);
        match tapilan {
            Some(k) => {
                let setir = self.stoklar[k];
                let evvelki = setir.miqdar;
                proof {
                    let idx = stok_indeksi(self.stoklar@, mehsul_id as int, olcu_id as int);
                    assert(0 <= idx < self.stoklar@.len() && stok_uygun(
                        self.stoklar@[idx],
                        mehsul_id as int,
                        olcu_id as int,
                    ));
                    if idx != k as int {
                        assert(stok_uygun(
                            self.stoklar@[k as int],
                            mehsul_id as int,
                            olcu_id as int,
                        ));
                    }
                    assert(idx == k as int);
                    assert(stok_miqdari(self.stoklar@, mehsul_id as int, olcu_id as int)
                        == evvelki as int);
                }
                let yeni = match evvelki.checked_add(delta) {
                    Some(y) => y,
                    None => {
                        return Err(Xeta::HeddenArtiq);
                    },
                };
                self.stoklar.set(
                    k,
                    StokSetri {
                        miqdar: yeni,
                        id: setir.id,
                        mehsul_id: setir.mehsul_id,
                        olcu_id: setir.olcu_id,
                        minimum_miqdar: setir.minimum_miqdar,
                    },
                );
                let hid = self.novbeti_hereket_id;
                self.hereketler.push(
                    HereketSetri {
                        id: hid,
                        mehsul_id,
                        olcu_id,
                        novu,
                        miqdar: mutleq,
                        evvelki_miqdar: Some(evvelki),
                        yeni_miqdar: Some(yeni),
                        vahid_alis_qiymeti,
                        toplam_deyeri,
                        qeyd,
                        tarix,
                    },
                );
                self.novbeti_hereket_id = hid + 1;
                proof {
                    lemma_stok_tetbiq(
                        old(self).stoklar@,
                        mehsul_id as int,
                        olcu_id as int,
                        delta as int,
                        match minimum {
                            Some(x) => x as int,
                            None => old(self).stok_minimumu as int,
                        },
                        old(self).novbeti_stok_id as int,
                    );
                    lemma_hereket_sayi_push(old(self).hereketler@, final(self).hereketler@.last());
                    assert(final(self).stoklar@ =~= stok_tetbiq(
                        old(self).stoklar@,
                        mehsul_id as int,
                        olcu_id as int,
                        delta as int,
                        match minimum {
                            Some(x) => x as int,
                            None => old(self).stok_minimumu as int,
                        },
                        old(self).novbeti_stok_id as int,
                    ));
                }
                Ok(())
            },
            None => {
                let min = match minimum {
                    Some(x) => x,
                    None => self.stok_minimumu,
                };
                let sid = self.novbeti_stok_id;
                self.stoklar.push(
                    StokSetri { id: sid, mehsul_id, olcu_id, miqdar: delta, minimum_miqdar: min },
                );
                self.novbeti_stok_id = sid + 1;
                let hid = self.novbeti_hereket_id;
                self.hereketler.push(
                    HereketSetri {
                        id: hid,
                        mehsul_id,
                        olcu_id,
                        novu,
                        miqdar: mutleq,
                        evvelki_miqdar: Some(0),
                        yeni_miqdar: Some(delta),
                        vahid_alis_qiymeti,
                        toplam_deyeri,
                        qeyd,
                        tarix,
                    },
                );
                self.novbeti_hereket_id = hid + 1;
                proof {
                    lemma_stok_tetbiq(
                        old(self).stoklar@,
                        mehsul_id as int,
                        olcu_id as int,
                        delta as int,
                        match minimum {
                            Some(x) => x as int,
                            None => old(self).stok_minimumu as int,
                        },
                        old(self).novbeti_stok_id as int,
                    );
                    lemma_hereket_sayi_push(old(self).hereketler@, final(self).hereketler@.last());
                    assert(final(self).stoklar@ =~= stok_tetbiq(
                        old(self).stoklar@,
                        mehsul_id as int,
                        olcu_id as int,
                        delta as int,
                        match minimum {
                            Some(x) => x as int,
                            None => old(self).stok_minimumu as int,
                        },
                        old(self).novbeti_stok_id as int,
                    ));
                }
                Ok(())
            },
        }
    }
}

impl Store {
    /// Resolve one stored stock row into its caller-facing view.
    pub fn stok_gorunusu(&self, setir: &StokSetri) -> (g: Stock)
        requires
            self.kecerli(),
        ensures
            stok_gorunusu_uygun(self.mehsullar@, self.kateqoriyalar@, self.olculer@, *setir, g),
    {
        let mut mehsul_adi: Option<String> = None;
        let mut mehsul_barkod: Option<String> = None;
        let mut kateqoriya_id: Option<i64> = None;
        let mut kateqoriya_adi: Option<String> = None;
        match self.mehsul_tap(setir.mehsul_id) {
            Some(k) => {
                let p = &self.mehsullar[k];
                mehsul_adi = Some(p.ad.clone());
                mehsul_barkod = Some(p.barkod.clone());
                kateqoriya_id = p.kateqoriya_id;
                match p.kateqoriya_id {
                    Some(kid) => {
                        match self.kateqoriya_tap(kid) {
                            Some(c) => {
                                kateqoriya_adi = Some(self.kateqoriyalar[c].ad.clone());
                            },
                            None => {},
                        }
                    },
                    None => {},
                }
            },
            None => {},
        }
        let olcu: Option<String> = match self.olcu_tap(setir.olcu_id) {
            Some(k) => Some(self.olculer[k].olcu.clone()),
            None => None,
        };
        Stock {
            id: setir.id,
            mehsul_id: setir.mehsul_id,
            mehsul_adi,
            mehsul_barkod,
            kateqoriya_id,
            kateqoriya_adi,
            olcu_id: setir.olcu_id,
            olcu,
            miqdar: setir.miqdar,
            minimum_miqdar: setir.minimum_miqdar,
        }
    }

    /// The arithmetic of adding `stok.miqdar` units stays within the
    /// 64-bit fields, including the movement's cost valuation against
    /// the product's purchase price. Meaningful when the product exists.
    pub open spec fn stok_elave_sigar(self, stok: CreateStock) -> bool {
        &&& i64_sigar(
            stok.miqdar * self.mehsullar@[mehsul_indeksi(
                self.mehsullar@,
                stok.mehsul_id as int,
            )].alis_qiymeti,
        )
        &&& self.duzelis_sigar(stok.mehsul_id as int, stok.olcu_id as int, stok.miqdar as int)
    }

    /// Add quantity to a (product, size) pair: the pair's row is
    /// upserted and one incoming movement is logged, valued at the
    /// product's purchase price — one indivisible step. On any failure
    /// the store is left untouched.
    pub fn stok_elave_et(&mut self, stok: CreateStock, tarix: Tarix) -> (r: Result<Stock, Xeta>)
        requires
            old(self).kecerli(),
        ensures
            final(self).kecerli(),
            Store::varliglar_eyni(*final(self), *old(self)),
            Store::senedler_eyni(*final(self), *old(self)),
            r is Err ==> Store::butov_eyni(*final(self), *old(self)),
            r == Err::<Stock, Xeta>(Xeta::MehsulTapilmadi) <==> !mehsul_movcud(
                old(self).mehsullar@,
                stok.mehsul_id as int,
            ),
            r == Err::<Stock, Xeta>(Xeta::OlcuTapilmadi) <==> (mehsul_movcud(
                old(self).mehsullar@,
                stok.mehsul_id as int,
            ) && !olcu_movcud(old(self).olculer@, stok.olcu_id as int)),
            r == Err::<Stock, Xeta>(Xeta::HeddenArtiq) <==> (mehsul_movcud(
                old(self).mehsullar@,
                stok.mehsul_id as int,
            ) && olcu_movcud(old(self).olculer@, stok.olcu_id as int) && !old(
                self,
            ).stok_elave_sigar(stok)),
            r is Ok <==> (mehsul_movcud(old(self).mehsullar@, stok.mehsul_id as int)
                && olcu_movcud(old(self).olculer@, stok.olcu_id as int) && old(
                self,
            ).stok_elave_sigar(stok)),
            r is Ok ==> final(self).stoklar@ == stok_tetbiq(
                old(self).stoklar@,
                stok.mehsul_id as int,
                stok.olcu_id as int,
                stok.miqdar as int,
                match stok.minimum_miqdar {
                    Some(x) => x as int,
                    None => 1,
                },
                old(self).novbeti_stok_id as int,
            ),
            r is Ok ==> final(self).hereketler@ == old(self).hereketler@.push(
                HereketSetri {
                    id: old(self).novbeti_hereket_id,
                    mehsul_id: stok.mehsul_id,
                    olcu_id: stok.olcu_id,
                    novu: HereketNovu::DaxilOlma,
                    miqdar: (if stok.miqdar < 0 {
                        -(stok.miqdar as int)
                    } else {
                        stok.miqdar as int
                    }) as i64,
                    evvelki_miqdar: Some(
                        stok_miqdari(
                            old(self).stoklar@,
                            stok.mehsul_id as int,
                            stok.olcu_id as int,
                        ) as i64,
                    ),
                    yeni_miqdar: Some(
                        (stok_miqdari(old(self).stoklar@, stok.mehsul_id as int, stok.olcu_id as int)
                            + stok.miqdar) as i64,
                    ),
                    vahid_alis_qiymeti: Some(
                        old(self).mehsullar@[mehsul_indeksi(
                            old(self).mehsullar@,
                            stok.mehsul_id as int,
                        )].alis_qiymeti,
                    ),
                    toplam_deyeri: Some(
                        (stok.miqdar * old(self).mehsullar@[mehsul_indeksi(
                            old(self).mehsullar@,
                            stok.mehsul_id as int,
                        )].alis_qiymeti) as i64,
                    ),
                    qeyd: HereketQeydi::StokElaveEdildi,
                    tarix,
                },
            ),
            r is Ok ==> stok_miqdari(final(self).stoklar@, stok.mehsul_id as int, stok.olcu_id as int)
                == stok_miqdari(old(self).stoklar@, stok.mehsul_id as int, stok.olcu_id as int)
                + stok.miqdar,
            r matches Ok(g) ==> stok_gorunusu_uygun(
                old(self).mehsullar@,
                old(self).kateqoriyalar@,
                old(self).olculer@,
                final(self).stoklar@[stok_indeksi(
                    final(self).stoklar@,
                    stok.mehsul_id as int,
                    stok.olcu_id as int,
                )],
                g,
            ),
    {
        let mk = match self.mehsul_tap(stok.mehsul_id) {
            Some(k) => k,
            None => {
                return Err(Xeta::MehsulTapilmadi);
            },
        };
        if self.olcu_tap(stok.olcu_id).is_none() {
            return Err(Xeta::OlcuTapilmadi);
        }
        let alis = self.mehsullar[mk].alis_qiymeti;
        let toplam = match stok.miqdar.checked_mul(alis) {
            Some(t) => t,
            None => {
                return Err(Xeta::HeddenArtiq);
            },
        };
        let min: i64 = match stok.minimum_miqdar {
            Some(x) => x,
            None => 1,
        };
        match self.stok_duzelt(
            stok.mehsul_id,
            stok.olcu_id,
            stok.miqdar,
            HereketNovu::DaxilOlma,
            HereketQeydi::StokElaveEdildi,
            Some(alis),
            Some(toplam),
            Some(min),
            tarix,
        ) {
            Ok(()) => {},
            Err(e) => {
                return Err(e);
            },
        }
        let idx = match self.stok_tap(stok.mehsul_id, stok.olcu_id) {
            Some(i) => i,
            None => {
                proof {
                    assert(false);
                }
                return Err(Xeta::HeddenArtiq);
            },
        };
        let setir = self.stoklar[idx];
        Ok(self.stok_gorunusu(&setir))
    }
}

/// The stock table after setting a pair's quantity and minimum
/// outright: the row updated in place, or appended when absent.
pub open spec fn stok_qoy_tetbiq(
    s: Seq<StokSetri>,
    mehsul_id: int,
    olcu_id: int,
    miqdar: int,
    minimum: int,
    yeni_id: int,
) -> Seq<StokSetri> {
    if stok_movcud(s, mehsul_id, olcu_id) {
        let k = stok_indeksi(s, mehsul_id, olcu_id);
        s.update(
            k,
            StokSetri {
                id: s[k].id,
                mehsul_id: s[k].mehsul_id,
                olcu_id: s[k].olcu_id,
                miqdar: miqdar as i64,
                minimum_miqdar: minimum as i64,
            },
        )
    } else {
        s.push(
            StokSetri {
                id: yeni_id as i64,
                mehsul_id: mehsul_id as i64,
                olcu_id: olcu_id as i64,
                miqdar: miqdar as i64,
                minimum_miqdar: minimum as i64,
            },
        )
    }
}

impl Store {
    /// Overwrite the minimum threshold of the stock row at position `k`.
    fn stok_minimum_yaz(&mut self, k: usize, minimum: i64)
        requires
            old(self).kecerli(),
            k < old(self).stoklar@.len(),
        ensures
            final(self).kecerli(),
            final(self).stoklar@ == old(self).stoklar@.update(
                k as int,
                StokSetri {
                    id: old(self).stoklar@[k as int].id,
                    mehsul_id: old(self).stoklar@[k as int].mehsul_id,
                    olcu_id: old(self).stoklar@[k as int].olcu_id,
                    miqdar: old(self).stoklar@[k as int].miqdar,
                    minimum_miqdar: minimum,
                },
            ),
            final(self).hereketler@ == old(self).hereketler@,
            final(self).novbeti_stok_id == old(self).novbeti_stok_id,
            final(self).novbeti_hereket_id == old(self).novbeti_hereket_id,
            Store::varliglar_eyni(*final(self), *old(self)),
            Store::senedler_eyni(*final(self), *old(self)),
    {
        let setir = self.stoklar[k];
        self.stoklar.set(
            k,
            StokSetri {
                id: setir.id,
                mehsul_id: setir.mehsul_id,
                olcu_id: setir.olcu_id,
                miqdar: setir.miqdar,
                minimum_miqdar: minimum,
            },
        );
        proof {
            assert forall|i: int| 0 <= i < self.stoklar@.len() implies (#[trigger] self.stoklar@[i]).id
                == old(self).stoklar@[i].id && self.stoklar@[i].mehsul_id
                == old(self).stoklar@[i].mehsul_id && self.stoklar@[i].olcu_id
                == old(self).stoklar@[i].olcu_id by {}
        }
    }

    /// The arithmetic of setting the pair's quantity to `stok.miqdar`
    /// stays in range: the signed difference from the current level
    /// fits, as do the counters the write needs and, for an increase,
    /// the movement's cost valuation. Meaningful when the product exists.
    pub open spec fn stok_yenile_sigar(self, mehsul_id: int, olcu_id: int, stok: UpdateStock) -> bool {
        let evvelki = stok_miqdari(self.stoklar@, mehsul_id, olcu_id);
        let ferq = stok.miqdar - evvelki;
        &&& i64_sigar(ferq)
        &&& if ferq == 0 {
            stok_movcud(self.stoklar@, mehsul_id, olcu_id) || self.novbeti_stok_id < i64::MAX
        } else {
            &&& self.duzelis_sigar(mehsul_id, olcu_id, ferq)
            &&& (ferq > 0 ==> i64_sigar(
                ferq * self.mehsullar@[mehsul_indeksi(self.mehsullar@, mehsul_id)].alis_qiymeti,
            ))
        }
    }

    /// Set a pair's quantity and minimum threshold outright. When the
    /// level actually changes, one movement is logged for the
    /// difference — incoming movements valued at the product's purchase
    /// price — in the same indivisible step. On any failure the store
    /// is left untouched.
    pub fn stok_yenile(
        &mut self,
        mehsul_id: i64,
        olcu_id: i64,
        stok: UpdateStock,
        tarix: Tarix,
    ) -> (r: Result<Stock, Xeta>)
        requires
            old(self).kecerli(),
        ensures
            final(self).kecerli(),
            Store::varliglar_eyni(*final(self), *old(self)),
            Store::senedler_eyni(*final(self), *old(self)),
            r is Err ==> Store::butov_eyni(*final(self), *old(self)),
            r == Err::<Stock, Xeta>(Xeta::MehsulTapilmadi) <==> !mehsul_movcud(
                old(self).mehsullar@,
                mehsul_id as int,
            ),
            r == Err::<Stock, Xeta>(Xeta::OlcuTapilmadi) <==> (mehsul_movcud(
                old(self).mehsullar@,
                mehsul_id as int,
            ) && !olcu_movcud(old(self).olculer@, olcu_id as int)),
            r == Err::<Stock, Xeta>(Xeta::HeddenArtiq) <==> (mehsul_movcud(
                old(self).mehsullar@,
                mehsul_id as int,
            ) && olcu_movcud(old(self).olculer@, olcu_id as int) && !old(self).stok_yenile_sigar(
                mehsul_id as int,
                olcu_id as int,
                stok,
            )),
            r is Ok <==> (mehsul_movcud(old(self).mehsullar@, mehsul_id as int) && olcu_movcud(
                old(self).olculer@,
                olcu_id as int,
            ) && old(self).stok_yenile_sigar(mehsul_id as int, olcu_id as int, stok)),
            r is Ok ==> final(self).stoklar@ == stok_qoy_tetbiq(
                old(self).stoklar@,
                mehsul_id as int,
                olcu_id as int,
                stok.miqdar as int,
                match stok.minimum_miqdar {
                    Some(x) => x as int,
                    None => 1,
                },
                old(self).novbeti_stok_id as int,
            ),
            r is Ok ==> stok_miqdari(final(self).stoklar@, mehsul_id as int, olcu_id as int)
                == stok.miqdar,
            r is Ok ==> {
                let evvelki = stok_miqdari(old(self).stoklar@, mehsul_id as int, olcu_id as int);
                let ferq = stok.miqdar - evvelki;
                if ferq == 0 {
                    final(self).hereketler@ == old(self).hereketler@
                } else {
                    final(self).hereketler@ == old(self).hereketler@.push(
                        HereketSetri {
                            id: old(self).novbeti_hereket_id,
                            mehsul_id,
                            olcu_id,
                            novu: if ferq > 0 {
                                HereketNovu::DaxilOlma
                            } else {
                                HereketNovu::Cixis
                            },
                            miqdar: (if ferq < 0 {
                                -ferq
                            } else {
                                ferq
                            }) as i64,
                            evvelki_miqdar: Some(evvelki as i64),
                            yeni_miqdar: Some(stok.miqdar),
                            vahid_alis_qiymeti: if ferq > 0 {
                                Some(
                                    old(self).mehsullar@[mehsul_indeksi(
                                        old(self).mehsullar@,
                                        mehsul_id as int,
                                    )].alis_qiymeti,
                                )
                            } else {
                                None
                            },
                            toplam_deyeri: if ferq > 0 {
                                Some(
                                    (ferq * old(self).mehsullar@[mehsul_indeksi(
                                        old(self).mehsullar@,
                                        mehsul_id as int,
                                    )].alis_qiymeti) as i64,
                                )
                            } else {
                                None
                            },
                            qeyd: HereketQeydi::StokDuzelisi,
                            tarix,
                        },
                    )
                }
            },
            r matches Ok(g) ==> stok_gorunusu_uygun(
                old(self).mehsullar@,
                old(self).kateqoriyalar@,
                old(self).olculer@,
                final(self).stoklar@[stok_indeksi(
                    final(self).stoklar@,
                    mehsul_id as int,
                    olcu_id as int,
                )],
                g,
            ),
    {
        let mk = match self.mehsul_tap(mehsul_id) {
            Some(k) => k,
            None => {
                return Err(Xeta::MehsulTapilmadi);
            },
        };
        if self.olcu_tap(olcu_id).is_none() {
            return Err(Xeta::OlcuTapilmadi);
        }
        let evvelki: i64 = match self.stok_tap(mehsul_id, olcu_id) {
            Some(k) => self.stoklar[k].miqdar,
            None => 0,
        };
        let ferq = match stok.miqdar.checked_sub(evvelki) {
            Some(f) => f,
            None => {
                return Err(Xeta::HeddenArtiq);
            },
        };
        let min: i64 = match stok.minimum_miqdar {
            Some(x) => x,
            None => 1,
        };
        if ferq == 0 {
            match self.stok_tap(mehsul_id, olcu_id) {
                Some(k) => {
                    self.stok_minimum_yaz(k, min);
                    proof {
                        let m = mehsul_id as int;
                        let o = olcu_id as int;
                        assert(self.stoklar@ =~= stok_qoy_tetbiq(
                            old(self).stoklar@,
                            m,
                            o,
                            stok.miqdar as int,
                            min as int,
                            old(self).novbeti_stok_id as int,
                        ));
                        assert(stok_uygun(self.stoklar@[k as int], m, o));
                        assert(stok_movcud(self.stoklar@, m, o));
                        let k2 = stok_indeksi(self.stoklar@, m, o);
                        assert(0 <= k2 < self.stoklar@.len() && stok_uygun(self.stoklar@[k2], m, o));
                        assert(k2 == k as int);
                        assert(stok_miqdari(self.stoklar@, m, o) == stok.miqdar);
                    }
                },
                None => {
                    if self.novbeti_stok_id == i64::MAX {
                        return Err(Xeta::HeddenArtiq);
                    }
                    let sid = self.novbeti_stok_id;
                    self.stoklar.push(
                        StokSetri {
                            id: sid,
                            mehsul_id,
                            olcu_id,
                            miqdar: stok.miqdar,
                            minimum_miqdar: min,
                        },
                    );
                    self.novbeti_stok_id = sid + 1;
                    proof {
                        assert forall|i: int, j: int|
                            0 <= i < j < self.stoklar@.len() implies !(stok_uygun(
                            #[trigger] self.stoklar@[i],
                            (#[trigger] self.stoklar@[j]).mehsul_id as int,
                            self.stoklar@[j].olcu_id as int,
                        )) by {
                            if j < old(self).stoklar@.len() {
                                assert(self.stoklar@[i] == old(self).stoklar@[i]);
                                assert(self.stoklar@[j] == old(self).stoklar@[j]);
                            } else {
                                assert(self.stoklar@[i] == old(self).stoklar@[i]);
                                if stok_uygun(
                                    self.stoklar@[i],
                                    mehsul_id as int,
                                    olcu_id as int,
                                ) {
                                    assert(stok_movcud(
                                        old(self).stoklar@,
                                        mehsul_id as int,
                                        olcu_id as int,
                                    ));
                                }
                            }
                        }
                        let n = old(self).stoklar@.len() as int;
                        assert(stok_uygun(self.stoklar@[n], mehsul_id as int, olcu_id as int));
                        assert(stok_movcud(self.stoklar@, mehsul_id as int, olcu_id as int));
                        let k2 = stok_indeksi(self.stoklar@, mehsul_id as int, olcu_id as int);
                        assert(0 <= k2 < self.stoklar@.len() && stok_uygun(
                            self.stoklar@[k2],
                            mehsul_id as int,
                            olcu_id as int,
                        ));
                        if k2 < n {
                            assert(stok_uygun(
                                old(self).stoklar@[k2],
                                mehsul_id as int,
                                olcu_id as int,
                            ));
                        }
                        assert(k2 == n);
                        assert(self.stoklar@ =~= stok_qoy_tetbiq(
                            old(self).stoklar@,
                            mehsul_id as int,
                            olcu_id as int,
                            stok.miqdar as int,
                            min as int,
                            old(self).novbeti_stok_id as int,
                        ));
                        assert(stok_miqdari(self.stoklar@, mehsul_id as int, olcu_id as int)
                            == stok.miqdar);
                    }
                },
            }
            let idx = match self.stok_tap(mehsul_id, olcu_id) {
                Some(i) => i,
                None => {
                    proof {
                        assert(false);
                    }
                    return Err(Xeta::HeddenArtiq);
                },
            };
            let setir = self.stoklar[idx];
            return Ok(self.stok_gorunusu(&setir));
        }
        let mut vahid: Option<i64> = None;
        let mut toplam: Option<i64> = None;
        if ferq > 0 {
            let alis = self.mehsullar[mk].alis_qiymeti;
            let t = match ferq.checked_mul(alis) {
                Some(t) => t,
                None => {
                    return Err(Xeta::HeddenArtiq);
                },
            };
            vahid = Some(alis);
            toplam = Some(t);
        }
        let novu = if ferq > 0 {
            HereketNovu::DaxilOlma
        } else {
            HereketNovu::Cixis
        };
        match self.stok_duzelt(
            mehsul_id,
            olcu_id,
            ferq,
            novu,
            HereketQeydi::StokDuzelisi,
            vahid,
            toplam,
            Some(min),
            tarix,
        ) {
            Ok(()) => {},
            Err(e) => {
                return Err(e);
            },
        }
        proof {
            lemma_stok_tetbiq(
                old(self).stoklar@,
                mehsul_id as int,
                olcu_id as int,
                ferq as int,
                min as int,
                old(self).novbeti_stok_id as int,
            );
        }
        let ghost s1 = self.stoklar@;
        let idx = match self.stok_tap(mehsul_id, olcu_id) {
            Some(i) => i,
            None => {
                proof {
                    assert(false);
                }
                return Err(Xeta::HeddenArtiq);
            },
        };
        self.stok_minimum_yaz(idx, min);
        proof {
            let m = mehsul_id as int;
            let o = olcu_id as int;
            let s0 = old(self).stoklar@;
            assert(idx as int == stok_indeksi(s1, m, o));
            if stok_movcud(s0, m, o) {
                let k0 = stok_indeksi(s0, m, o);
                assert(0 <= k0 < s0.len() && stok_uygun(s0[k0], m, o));
                assert(stok_uygun(s1[k0], m, o));
                if stok_indeksi(s1, m, o) != k0 {
                    assert(stok_uygun(s1[stok_indeksi(s1, m, o)], m, o));
                    assert(false);
                }
                assert(idx as int == k0);
                assert(self.stoklar@ =~= stok_qoy_tetbiq(
                    s0,
                    m,
                    o,
                    stok.miqdar as int,
                    min as int,
                    old(self).novbeti_stok_id as int,
                ));
            } else {
                let n = s0.len() as int;
                assert(stok_uygun(s1[n], m, o));
                if stok_indeksi(s1, m, o) != n {
                    let kx = stok_indeksi(s1, m, o);
                    assert(stok_uygun(s1[kx], m, o));
                    assert(stok_uygun(s0[kx], m, o));
                    assert(false);
                }
                assert(idx as int == n);
                assert(self.stoklar@ =~= stok_qoy_tetbiq(
                    s0,
                    m,
                    o,
                    stok.miqdar as int,
                    min as int,
                    old(self).novbeti_stok_id as int,
                ));
            }
            assert(stok_uygun(self.stoklar@[idx as int], m, o));
            assert(stok_movcud(self.stoklar@, m, o));
            let kf = stok_indeksi(self.stoklar@, m, o);
            assert(0 <= kf < self.stoklar@.len() && stok_uygun(self.stoklar@[kf], m, o));
            assert(kf == idx as int);
            assert(stok_miqdari(self.stoklar@, m, o) == stok.miqdar);
        }
        let idx2 = match self.stok_tap(mehsul_id, olcu_id) {
            Some(i) => i,
            None => {
                proof {
                    assert(false);
                }
                return Err(Xeta::HeddenArtiq);
            },
        };
        let setir = self.stoklar[idx2];
        Ok(self.stok_gorunusu(&setir))
    }

    /// Delete the pair's stock row, if any, and log one outgoing
    /// movement for the quantity that was on hand — one indivisible
    /// step. On any failure the store is left untouched.
    pub fn stok_sil(&mut self, mehsul_id: i64, olcu_id: i64, tarix: Tarix) -> (r: Result<
        (),
        Xeta,
    >)
        requires
            old(self).kecerli(),
        ensures
            final(self).kecerli(),
            Store::varliglar_eyni(*final(self), *old(self)),
            Store::senedler_eyni(*final(self), *old(self)),
            r is Err ==> Store::butov_eyni(*final(self), *old(self)),
            r == Err::<(), Xeta>(Xeta::MehsulTapilmadi) <==> !mehsul_movcud(
                old(self).mehsullar@,
                mehsul_id as int,
            ),
            r == Err::<(), Xeta>(Xeta::OlcuTapilmadi) <==> (mehsul_movcud(
                old(self).mehsullar@,
                mehsul_id as int,
            ) && !olcu_movcud(old(self).olculer@, olcu_id as int)),
            r == Err::<(), Xeta>(Xeta::HeddenArtiq) <==> (mehsul_movcud(
                old(self).mehsullar@,
                mehsul_id as int,
            ) && olcu_movcud(old(self).olculer@, olcu_id as int) && old(self).novbeti_hereket_id
                == i64::MAX),
            r is Ok ==> final(self).stoklar@ == if stok_movcud(
                old(self).stoklar@,
                mehsul_id as int,
                olcu_id as int,
            ) {
                old(self).stoklar@.remove(
                    stok_indeksi(old(self).stoklar@, mehsul_id as int, olcu_id as int),
                )
            } else {
                old(self).stoklar@
            },
            r is Ok ==> !stok_movcud(final(self).stoklar@, mehsul_id as int, olcu_id as int),
            r is Ok ==> final(self).hereketler@ == old(self).hereketler@.push(
                HereketSetri {
                    id: old(self).novbeti_hereket_id,
                    mehsul_id,
                    olcu_id,
                    novu: HereketNovu::Cixis,
                    miqdar: stok_miqdari(
                        old(self).stoklar@,
                        mehsul_id as int,
                        olcu_id as int,
                    ) as i64,
                    evvelki_miqdar: None,
                    yeni_miqdar: None,
                    vahid_alis_qiymeti: None,
                    toplam_deyeri: None,
                    qeyd: HereketQeydi::StokSilindi,
                    tarix,
                },
            ),
            r is Ok ==> final(self).novbeti_hereket_id == old(self).novbeti_hereket_id + 1,
            r is Ok ==> final(self).novbeti_stok_id == old(self).novbeti_stok_id,
    {
        if self.mehsul_tap(mehsul_id).is_none() {
            return Err(Xeta::MehsulTapilmadi);
        }
        if self.olcu_tap(olcu_id).is_none() {
            return Err(Xeta::OlcuTapilmadi);
        }
        if self.novbeti_hereket_id == i64::MAX {
            return Err(Xeta::HeddenArtiq);
        }
        let miqdar: i64 = match self.stok_tap(mehsul_id, olcu_id) {
            Some(k) => {
                let q = self.stoklar[k].miqdar;
                self.stoklar.remove(k);
                proof {
                    let s0 = old(self).stoklar@;
                    let t = self.stoklar@;
                    let ki = k as int;
                    assert(t =~= s0.subrange(0, ki) + s0.subrange(ki + 1, s0.len() as int));
                    assert forall|i: int| 0 <= i < t.len() implies #[trigger] t[i] == (if i < ki {
                        s0[i]
                    } else {
                        s0[i + 1]
                    }) by {}
                    assert forall|i: int, j: int| 0 <= i < j < t.len() implies !(stok_uygun(
                        #[trigger] t[i],
                        (#[trigger] t[j]).mehsul_id as int,
                        t[j].olcu_id as int,
                    )) by {
                        let i0 = if i < ki {
                            i
                        } else {
                            i + 1
                        };
                        let j0 = if j < ki {
                            j
                        } else {
                            j + 1
                        };
                        assert(t[i] == s0[i0] && t[j] == s0[j0]);
                        assert(i0 < j0);
                    }
                    assert forall|i: int| 0 <= i < t.len() implies !stok_uygun(
                        #[trigger] t[i],
                        mehsul_id as int,
                        olcu_id as int,
                    ) by {
                        let i0 = if i < ki {
                            i
                        } else {
                            i + 1
                        };
                        assert(t[i] == s0[i0]);
                        if stok_uygun(s0[i0], mehsul_id as int, olcu_id as int) {
                            assert(stok_uygun(s0[ki], mehsul_id as int, olcu_id as int));
                            if i0 < ki {
                                assert(!(stok_uygun(
                                    s0[i0],
                                    s0[ki].mehsul_id as int,
                                    s0[ki].olcu_id as int,
                                )));
                            } else {
                                assert(!(stok_uygun(
                                    s0[ki],
                                    s0[i0].mehsul_id as int,
                                    s0[i0].olcu_id as int,
                                )));
                            }
                            assert(false);
                        }
                    }
                }
                q
            },
            None => 0,
        };
        let hid = self.novbeti_hereket_id;
        self.hereketler.push(
            HereketSetri {
                id: hid,
                mehsul_id,
                olcu_id,
                novu: HereketNovu::Cixis,
                miqdar,
                evvelki_miqdar: None,
                yeni_miqdar: None,
                vahid_alis_qiymeti: None,
                toplam_deyeri: None,
                qeyd: HereketQeydi::StokSilindi,
                tarix,
            },
        );
        self.novbeti_hereket_id = hid + 1;
        Ok(())
    }

    /// Every stock row, in storage order, with display data resolved.
    pub fn stok_siyahisi(&self) -> (r: Vec<Stock>)
        requires
            self.kecerli(),
        ensures
            r@.len() == self.stoklar@.len(),
            forall|i: int|
                0 <= i < r@.len() ==> stok_gorunusu_uygun(
                    self.mehsullar@,
                    self.kateqoriyalar@,
                    self.olculer@,
                    self.stoklar@[i],
                    #[trigger] r@[i],
                ),
    {
        let mut r: Vec<Stock> = Vec::new();
        let mut i: usize = 0;
        while i < self.stoklar.len()
            invariant
                self.kecerli(),
                0 <= i <= self.stoklar@.len(),
                r@.len() == i,
                forall|j: int|
                    0 <= j < i ==> stok_gorunusu_uygun(
                        self.mehsullar@,
                        self.kateqoriyalar@,
                        self.olculer@,
                        self.stoklar@[j],
                        #[trigger] r@[j],
                    ),
            decreases self.stoklar@.len() - i,
        {
            let setir = self.stoklar[i];
            let g = self.stok_gorunusu(&setir);
            r.push(g);
            i = i + 1;
        }
        r
    }

    /// The stock rows of one product, in storage order, with display
    /// data resolved.
    pub fn stok_mehsul_ucun(&self, mehsul_id: i64) -> (r: Vec<Stock>)
        requires
            self.kecerli(),
        ensures
            r@.len() == self.stoklar@.filter(|x: StokSetri| x.mehsul_id == mehsul_id).len(),
            forall|i: int|
                0 <= i < r@.len() ==> stok_gorunusu_uygun(
                    self.mehsullar@,
                    self.kateqoriyalar@,
                    self.olculer@,
                    self.stoklar@.filter(|x: StokSetri| x.mehsul_id == mehsul_id)[i],
                    #[trigger] r@[i],
                ),
    {
        let mut r: Vec<Stock> = Vec::new();
        let mut i: usize = 0;
        while i < self.stoklar.len()
            invariant
                self.kecerli(),
                0 <= i <= self.stoklar@.len(),
                r@.len() == self.stoklar@.subrange(0, i as int).filter(
                    |x: StokSetri| x.mehsul_id == mehsul_id,
                ).len(),
                forall|j: int|
                    0 <= j < r@.len() ==> stok_gorunusu_uygun(
                        self.mehsullar@,
                        self.kateqoriyalar@,
                        self.olculer@,
                        self.stoklar@.subrange(0, i as int).filter(
                            |x: StokSetri| x.mehsul_id == mehsul_id,
                        )[j],
                        #[trigger] r@[j],
                    ),
            decreases self.stoklar@.len() - i,
        {
            let ghost evvel = self.stoklar@.subrange(0, i as int);
            let setir = self.stoklar[i];
            if setir.mehsul_id == mehsul_id {
                let g = self.stok_gorunusu(&setir);
                r.push(g);
            }
            i = i + 1;
            proof {
                let sonra = self.stoklar@.subrange(0, i as int);
                assert(sonra.drop_last() =~= evvel);
                assert(sonra.last() == setir);
                reveal_with_fuel(Seq::filter, 2);
                assert(sonra.filter(|x: StokSetri| x.mehsul_id == mehsul_id)
                    == if setir.mehsul_id == mehsul_id {
                    evvel.filter(|x: StokSetri| x.mehsul_id == mehsul_id).push(setir)
                } else {
                    evvel.filter(|x: StokSetri| x.mehsul_id == mehsul_id)
                });
            }
        }
        proof {
            assert(self.stoklar@.subrange(0, self.stoklar@.len() as int) =~= self.stoklar@);
        }
        r
    }
}

} // verus!

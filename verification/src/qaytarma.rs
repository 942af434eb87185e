use vstd::prelude::*;
use crate::kenar::{ad_soyad_birlesdir, tesadufi_nomre};
use crate::model::{
    HereketNovu, HereketQeydi, HereketSetri, MusteriSetri, OdemeSetri, OdenisUsulu,
    QaytarmaElementi, QaytarmaSetri, SatisSetri, StokSetri,
};
use crate::store::{
    i64_sigar, mehsul_movcud, musteri_indeksi, musteri_movcud, olcu_movcud, qaytarma_indeksi,
    satis_indeksi, satis_movcud, stok_miqdari, Store,
};
use crate::tarix::Tarix;
use crate::xeta::Xeta;

verus! {

/// One requested return line: quantity of a (product, size) going back
/// into stock at the unit price it is refunded at.
#[derive(Clone, Copy, PartialEq, Eq, Structural, Debug)]
pub struct CreateReturnItem {
    pub mehsul_id: i64,
    pub olcu_id: i64,
    pub miqdar: i64,
    pub vahid_qiymeti: i64,
}

/// A requested return against one recorded sale.
#[derive(Clone, PartialEq, Eq, Debug)]
pub struct CreateReturn {
    pub satis_id: i64,
    pub items: Vec<CreateReturnItem>,
    pub sebebi: Option<String>,
    pub qeyd: Option<String>,
}

/// A persisted return header as shown to callers, with the sale number
/// and the customer's display name resolved.
#[derive(Clone, PartialEq, Eq, Debug)]
pub struct Return {
    pub id: i64,
    pub iade_nomresi: String,
    pub satis_id: i64,
    pub satis_nomresi: Option<String>,
    pub musteri_id: Option<i64>,
    pub musteri_adi: Option<String>,
    pub toplam_mebleg: i64,
    pub sebebi: Option<String>,
    pub qeyd: Option<String>,
    pub tarix: Tarix,
}

/// A persisted return line as shown to callers.
#[derive(Clone, PartialEq, Eq, Debug)]
pub struct ReturnItem {
    pub id: i64,
    pub iade_id: i64,
    pub mehsul_id: i64,
    pub mehsul_adi: Option<String>,
    pub mehsul_barkod: Option<String>,
    pub olcu_id: i64,
    pub olcu: Option<String>,
    pub miqdar: i64,
    pub vahid_qiymeti: i64,
    pub toplam_qiymet: i64,
}

/// A return header together with its lines.
#[derive(Clone, PartialEq, Eq, Debug)]
pub struct ReturnWithItems {
    pub iade: Return,
    pub items: Vec<ReturnItem>,
}

/// The refund of one requested line: unit price times quantity.
pub open spec fn iade_setir_toplami(it: CreateReturnItem) -> int {
    it.vahid_qiymeti * it.miqdar
}

/// The total refund of the first `n` requested lines.
pub open spec fn iade_cemi(items: Seq<CreateReturnItem>, n: int) -> int
    decreases n,
{
    if n <= 0 {
        0
    } else {
        iade_cemi(items, n - 1) + iade_setir_toplami(items[n - 1])
    }
}

/// Every line refund and every running total fit the 64-bit amounts.
pub open spec fn iade_hesabi_sigar(items: Seq<CreateReturnItem>) -> bool {
    &&& forall|k: int| 0 <= k < items.len() ==> i64_sigar(iade_setir_toplami(#[trigger] items[k]))
    &&& forall|k: int| 0 <= k <= items.len() ==> i64_sigar(#[trigger] iade_cemi(items, k))
}

/// The stock level of pair (m, o) after the first `n` requested lines
/// have been put back into stock, line by line.
pub open spec fn iadeden_sonra_stok(
    stoklar: Seq<StokSetri>,
    items: Seq<CreateReturnItem>,
    n: int,
    m: int,
    o: int,
) -> int
    decreases n,
{
    if n <= 0 {
        stok_miqdari(stoklar, m, o)
    } else {
        iadeden_sonra_stok(stoklar, items, n - 1, m, o) + if items[n - 1].mehsul_id == m && items[n
            - 1].olcu_id == o {
            items[n - 1].miqdar as int
        } else {
            0
        }
    }
}

/// The total quantity of the first `t` requested lines naming pair
/// (m, o).
pub open spec fn iade_olunan_cem(items: Seq<CreateReturnItem>, t: int, m: int, o: int) -> int
    decreases t,
{
    if t <= 0 {
        0
    } else {
        iade_olunan_cem(items, t - 1, m, o) + if items[t - 1].mehsul_id == m && items[t - 1].olcu_id
            == o {
            items[t - 1].miqdar as int
        } else {
            0
        }
    }
}

/// The level after `t` lines is the starting level plus what those
/// lines returned of the pair.
pub proof fn lemma_iadeden_sonra_stok(
    stoklar: Seq<StokSetri>,
    items: Seq<CreateReturnItem>,
    t: int,
    m: int,
    o: int,
)
    ensures
        iadeden_sonra_stok(stoklar, items, t, m, o) == stok_miqdari(stoklar, m, o)
            + iade_olunan_cem(items, t, m, o),
    decreases t,
{
    if t > 0 {
        lemma_iadeden_sonra_stok(stoklar, items, t - 1, m, o);
    }
}

/// Every intermediate stock level along the lines fits, and no line
/// quantity is the one value whose magnitude overflows.
pub open spec fn iade_stoku_sigar(stoklar: Seq<StokSetri>, items: Seq<CreateReturnItem>) -> bool {
    forall|k: int|
        0 <= k < items.len() ==> i64_sigar(
            iadeden_sonra_stok(
                stoklar,
                items,
                k + 1,
                (#[trigger] items[k]).mehsul_id as int,
                items[k].olcu_id as int,
            ),
        ) && items[k].miqdar != i64::MIN
}

/// Every product and size a requested line names exists.
pub open spec fn iade_fk_hamisi(
    mehsullar: Seq<crate::model::MehsulSetri>,
    olculer: Seq<crate::model::OlcuSetri>,
    items: Seq<CreateReturnItem>,
) -> bool {
    forall|k: int|
        0 <= k < items.len() ==> mehsul_movcud(mehsullar, (#[trigger] items[k]).mehsul_id as int)
            && olcu_movcud(olculer, items[k].olcu_id as int)
}

/// A return with this number is already recorded.
pub open spec fn iade_nomresi_movcud(s: Seq<QaytarmaSetri>, nomre: Seq<char>) -> bool {
    exists|i: int| 0 <= i < s.len() && (#[trigger] s[i]).iade_nomresi@ == nomre
}

/// Some line of this (sale, product, size) combination was already
/// returned once: the recorded conflict that makes a second return of
/// the same line fail.
pub open spec fn evvel_qaytarilib(
    qaytarmalar: Seq<QaytarmaSetri>,
    qelementler: Seq<QaytarmaElementi>,
    satis_id: int,
    mehsul_id: int,
    olcu_id: int,
) -> bool {
    exists|i: int, j: int|
        #![trigger qelementler[i], qaytarmalar[j]]
        0 <= i < qelementler.len() && 0 <= j < qaytarmalar.len() && qelementler[i].iade_id
            == qaytarmalar[j].id && qaytarmalar[j].satis_id == satis_id && qelementler[i].mehsul_id
            == mehsul_id && qelementler[i].olcu_id == olcu_id
}

/// No requested line repeats a combination that was already returned.
pub open spec fn iade_konflikti_yox(
    qaytarmalar: Seq<QaytarmaSetri>,
    qelementler: Seq<QaytarmaElementi>,
    satis_id: int,
    items: Seq<CreateReturnItem>,
) -> bool {
    forall|k: int|
        0 <= k < items.len() ==> !evvel_qaytarilib(
            qaytarmalar,
            qelementler,
            satis_id,
            (#[trigger] items[k]).mehsul_id as int,
            items[k].olcu_id as int,
        )
}

/// The return-line rows written for the first `n` requested lines of
/// return `iade_id`, with identities from `qelement0` up.
pub open spec fn iade_elementleri_qur(
    items: Seq<CreateReturnItem>,
    n: int,
    iade_id: int,
    qelement0: int,
) -> Seq<QaytarmaElementi>
    decreases n,
{
    if n <= 0 {
        Seq::empty()
    } else {
        iade_elementleri_qur(items, n - 1, iade_id, qelement0).push(
            QaytarmaElementi {
                id: (qelement0 + n - 1) as i64,
                iade_id: iade_id as i64,
                mehsul_id: items[n - 1].mehsul_id,
                olcu_id: items[n - 1].olcu_id,
                miqdar: items[n - 1].miqdar,
                vahid_qiymeti: items[n - 1].vahid_qiymeti,
                toplam_qiymet: iade_setir_toplami(items[n - 1]) as i64,
            },
        )
    }
}

/// The audit-trail rows written for the first `n` requested lines: one
/// incoming movement per line, noting the return number.
pub open spec fn iade_hereketleri_qur(
    stoklar: Seq<StokSetri>,
    items: Seq<CreateReturnItem>,
    n: int,
    nomre: String,
    tarix: Tarix,
    hereket0: int,
) -> Seq<HereketSetri>
    decreases n,
{
    if n <= 0 {
        Seq::empty()
    } else {
        let it = items[n - 1];
        iade_hereketleri_qur(stoklar, items, n - 1, nomre, tarix, hereket0).push(
            HereketSetri {
                id: (hereket0 + n - 1) as i64,
                mehsul_id: it.mehsul_id,
                olcu_id: it.olcu_id,
                novu: HereketNovu::DaxilOlma,
                miqdar: (if it.miqdar < 0 {
                    -(it.miqdar as int)
                } else {
                    it.miqdar as int
                }) as i64,
                evvelki_miqdar: Some(
                    iadeden_sonra_stok(
                        stoklar,
                        items,
                        n - 1,
                        it.mehsul_id as int,
                        it.olcu_id as int,
                    ) as i64,
                ),
                yeni_miqdar: Some(
                    iadeden_sonra_stok(
                        stoklar,
                        items,
                        n,
                        it.mehsul_id as int,
                        it.olcu_id as int,
                    ) as i64,
                ),
                vahid_alis_qiymeti: None,
                toplam_deyeri: None,
                qeyd: HereketQeydi::QaytarmaGirisi(nomre),
                tarix,
            },
        )
    }
}

/// `g` shows exactly the stored return header `setir`, with the sale
/// number and the customer's display name resolved.
pub open spec fn iade_gorunusu_uygun(
    satislar: Seq<SatisSetri>,
    musteriler: Seq<MusteriSetri>,
    setir: QaytarmaSetri,
    g: Return,
) -> bool {
    &&& g.id == setir.id
    &&& g.iade_nomresi@ == setir.iade_nomresi@
    &&& g.satis_id == setir.satis_id
    &&& g.musteri_id == setir.musteri_id
    &&& g.toplam_mebleg == setir.toplam_mebleg
    &&& g.sebebi == setir.sebebi
    &&& g.qeyd == setir.qeyd
    &&& g.tarix == setir.tarix
    &&& if satis_movcud(satislar, setir.satis_id as int) {
        g.satis_nomresi matches Some(n) && n@ == satislar[satis_indeksi(
            satislar,
            setir.satis_id as int,
        )].satis_nomresi@
    } else {
        g.satis_nomresi is None
    }
    &&& match setir.musteri_id {
        Some(c) => if musteri_movcud(musteriler, c as int) {
            let m = musteriler[musteri_indeksi(musteriler, c as int)];
            g.musteri_adi matches Some(n) && n@ == m.ad@ + seq![' '] + m.soyad@
        } else {
            g.musteri_adi is None
        },
        None => g.musteri_adi is None,
    }
}

impl Store {
    /// A return with this number is already recorded.
    pub fn iade_nomresi_movcuddur(&self, nomre: &String) -> (r: bool)
        ensures
            r == iade_nomresi_movcud(self.qaytarmalar@, nomre@),
    {
        let mut i: usize = 0;
        while i < self.qaytarmalar.len()
            invariant
                0 <= i <= self.qaytarmalar@.len(),
                forall|j: int|
                    0 <= j < i ==> (#[trigger] self.qaytarmalar@[j]).iade_nomresi@ != nomre@,
            decreases self.qaytarmalar@.len() - i,
        {
            if self.qaytarmalar[i].iade_nomresi.eq(nomre) {
                return true;
            }
            i = i + 1;
        }
        false
    }

    /// Was any line of this (sale, product, size) combination already
    /// returned?
    pub fn evvel_qaytarilibdir(&self, satis_id: i64, mehsul_id: i64, olcu_id: i64) -> (r: bool)
        requires
            self.kecerli(),
        ensures
            r == evvel_qaytarilib(
                self.qaytarmalar@,
                self.qaytarma_elementleri@,
                satis_id as int,
                mehsul_id as int,
                olcu_id as int,
            ),
    {
        let mut i: usize = 0;
        while i < self.qaytarma_elementleri.len()
            invariant
                self.kecerli(),
                0 <= i <= self.qaytarma_elementleri@.len(),
                forall|i2: int, j2: int|
                    #![trigger self.qaytarma_elementleri@[i2], self.qaytarmalar@[j2]]
                    0 <= i2 < i && 0 <= j2 < self.qaytarmalar@.len() ==> !(
                    self.qaytarma_elementleri@[i2].iade_id == self.qaytarmalar@[j2].id
                        && self.qaytarmalar@[j2].satis_id == satis_id
                        && self.qaytarma_elementleri@[i2].mehsul_id == mehsul_id
                        && self.qaytarma_elementleri@[i2].olcu_id == olcu_id),
            decreases self.qaytarma_elementleri@.len() - i,
        {
            let e = &self.qaytarma_elementleri[i];
            if e.mehsul_id == mehsul_id && e.olcu_id == olcu_id {
                match self.qaytarma_tap(e.iade_id) {
                    Some(j) => {
                        if self.qaytarmalar[j].satis_id == satis_id {
                            return true;
                        }
                        proof {
                            assert forall|j2: int|
                                0 <= j2 < self.qaytarmalar@.len() && (#[trigger] self.qaytarmalar@[j2]).id
                                    == self.qaytarma_elementleri@[i as int].iade_id implies
                                self.qaytarmalar@[j2].satis_id != satis_id by {
                                if j2 != j as int {
                                    if j2 < j as int {
                                        assert(self.qaytarmalar@[j2].id
                                            < self.qaytarmalar@[j as int].id);
                                    } else {
                                        assert(self.qaytarmalar@[j as int].id
                                            < self.qaytarmalar@[j2].id);
                                    }
                                }
                            }
                        }
                    },
                    None => {},
                }
            }
            i = i + 1;
        }
        false
    }

    /// Resolve one stored return header into its caller-facing view.
    pub fn iade_gorunusu(&self, setir: &QaytarmaSetri) -> (g: Return)
        requires
            self.kecerli(),
        ensures
            iade_gorunusu_uygun(self.satislar@, self.musteriler@, *setir, g),
    {
        let satis_nomresi: Option<String> = match self.satis_tap(setir.satis_id) {
            Some(k) => Some(self.satislar[k].satis_nomresi.clone()),
            None => None,
        };
        let musteri_adi: Option<String> = match setir.musteri_id {
            Some(c) => match self.musteri_tap(c) {
                Some(k) => {
                    let m = &self.musteriler[k];
                    Some(ad_soyad_birlesdir(m.ad.as_str(), m.soyad.as_str()))
                },
                None => None,
            },
            None => None,
        };
        Return {
            id: setir.id,
            iade_nomresi: setir.iade_nomresi.clone(),
            satis_id: setir.satis_id,
            satis_nomresi,
            musteri_id: setir.musteri_id,
            musteri_adi,
            toplam_mebleg: setir.toplam_mebleg,
            sebebi: setir.sebebi.clone(),
            qeyd: setir.qeyd.clone(),
            tarix: setir.tarix,
        }
    }

    /// The identity counters can still number a return header, its
    /// lines, movements and possible stock rows, and the compensating
    /// debt payment.
    pub open spec fn iade_yeri_sigar(self, setir_sayi: int) -> bool {
        &&& self.novbeti_qaytarma_id < i64::MAX
        &&& self.novbeti_qelement_id + setir_sayi <= i64::MAX
        &&& self.novbeti_hereket_id + setir_sayi <= i64::MAX
        &&& self.novbeti_stok_id + setir_sayi <= i64::MAX
        &&& self.novbeti_odeme_id < i64::MAX
    }

    /// Everything a return request must satisfy to be recorded: the
    /// sale exists, no requested line was already returned for it,
    /// every product and size exists, all amounts and stock levels
    /// fit, and the counters have room.
    pub open spec fn iade_qebul_olunur(self, iade: CreateReturn) -> bool {
        &&& satis_movcud(self.satislar@, iade.satis_id as int)
        &&& iade_konflikti_yox(
            self.qaytarmalar@,
            self.qaytarma_elementleri@,
            iade.satis_id as int,
            iade.items@,
        )
        &&& iade_fk_hamisi(self.mehsullar@, self.olculer@, iade.items@)
        &&& iade_hesabi_sigar(iade.items@)
        &&& iade_stoku_sigar(self.stoklar@, iade.items@)
        &&& self.iade_yeri_sigar(iade.items@.len() as int)
    }

    /// The compensating debt payment a return writes: when the source
    /// sale was on credit and names a customer, one payment of the
    /// refund total, tagged as a return credit and noting the return
    /// number, is recorded against that customer.
    pub open spec fn iade_odemesi_qur(
        satis: SatisSetri,
        mebleg: int,
        nomre: String,
        tarix: Tarix,
        odeme0: int,
    ) -> Seq<OdemeSetri> {
        match satis.musteri_id {
            Some(c) => if satis.odenis_usulu == OdenisUsulu::Nisye {
                seq![
                    OdemeSetri {
                        id: odeme0 as i64,
                        musteri_id: c,
                        mebleg: mebleg as i64,
                        odenis_usulu: OdenisUsulu::GeriQaytarma,
                        qeyd: Some(nomre),
                        tarix,
                    },
                ]
            } else {
                Seq::empty()
            },
            None => Seq::empty(),
        }
    }

    /// Record a return under the given document number: one header, one
    /// line row, stock increment and incoming audit row per requested
    /// line, and — for an on-credit sale with a customer — the
    /// compensating debt payment, all as a single indivisible step. A
    /// line whose (sale, product, size) combination was returned
    /// before is rejected with a conflict and nothing is written. On
    /// any failure the store is left exactly as it was.
    #[verifier::loop_isolation(false)]
    #[verifier::rlimit(80)]
    pub fn iade_yarat_nomre_ile(
        &mut self,
        iade_nomresi: String,
        iade: CreateReturn,
        tarix: Tarix,
    ) -> (r: Result<Return, Xeta>)
        requires
            old(self).kecerli(),
        ensures
            final(self).kecerli(),
            Store::varliglar_eyni(*final(self), *old(self)),
            final(self).satislar@ == old(self).satislar@,
            final(self).satis_elementleri@ == old(self).satis_elementleri@,
            final(self).novbeti_satis_id == old(self).novbeti_satis_id,
            final(self).novbeti_element_id == old(self).novbeti_element_id,
            r is Err ==> Store::butov_eyni(*final(self), *old(self)),
            r == Err::<Return, Xeta>(Xeta::NomreMovcuddur) <==> iade_nomresi_movcud(
                old(self).qaytarmalar@,
                iade_nomresi@,
            ),
            r == Err::<Return, Xeta>(Xeta::SatisTapilmadi) <==> (!iade_nomresi_movcud(
                old(self).qaytarmalar@,
                iade_nomresi@,
            ) && !satis_movcud(old(self).satislar@, iade.satis_id as int)),
            r matches Err(Xeta::ArtiqQaytarilib { mehsul_id, olcu_id }) ==> (
            evvel_qaytarilib(
                old(self).qaytarmalar@,
                old(self).qaytarma_elementleri@,
                iade.satis_id as int,
                mehsul_id as int,
                olcu_id as int,
            ) && exists|k: int|
                0 <= k < iade.items@.len() && (#[trigger] iade.items@[k]).mehsul_id == mehsul_id
                    && iade.items@[k].olcu_id == olcu_id),
            r == Err::<Return, Xeta>(Xeta::MehsulTapilmadi) ==> exists|k: int|
                0 <= k < iade.items@.len() && !mehsul_movcud(
                    old(self).mehsullar@,
                    (#[trigger] iade.items@[k]).mehsul_id as int,
                ),
            r == Err::<Return, Xeta>(Xeta::OlcuTapilmadi) ==> exists|k: int|
                0 <= k < iade.items@.len() && !olcu_movcud(
                    old(self).olculer@,
                    (#[trigger] iade.items@[k]).olcu_id as int,
                ),
            r == Err::<Return, Xeta>(Xeta::HeddenArtiq) ==> !(iade_hesabi_sigar(iade.items@)
                && iade_stoku_sigar(old(self).stoklar@, iade.items@) && old(self).iade_yeri_sigar(
                iade.items@.len() as int,
            )),
            // a conflicting line is answered with the conflict, not some
            // other failure
            (!iade_nomresi_movcud(old(self).qaytarmalar@, iade_nomresi@) && satis_movcud(
                old(self).satislar@,
                iade.satis_id as int,
            ) && iade_fk_hamisi(old(self).mehsullar@, old(self).olculer@, iade.items@)
                && !iade_konflikti_yox(
                old(self).qaytarmalar@,
                old(self).qaytarma_elementleri@,
                iade.satis_id as int,
                iade.items@,
            )) ==> r matches Err(Xeta::ArtiqQaytarilib { .. }),
            r is Ok <==> (!iade_nomresi_movcud(old(self).qaytarmalar@, iade_nomresi@) && old(
                self,
            ).iade_qebul_olunur(iade)),
            r is Ok ==> final(self).qaytarmalar@ == old(self).qaytarmalar@.push(
                QaytarmaSetri {
                    id: old(self).novbeti_qaytarma_id,
                    iade_nomresi: iade_nomresi,
                    satis_id: iade.satis_id,
                    musteri_id: old(self).satislar@[satis_indeksi(
                        old(self).satislar@,
                        iade.satis_id as int,
                    )].musteri_id,
                    toplam_mebleg: iade_cemi(iade.items@, iade.items@.len() as int) as i64,
                    sebebi: iade.sebebi,
                    qeyd: iade.qeyd,
                    tarix,
                },
            ),
            r is Ok ==> final(self).qaytarma_elementleri@ == old(self).qaytarma_elementleri@
                + iade_elementleri_qur(
                iade.items@,
                iade.items@.len() as int,
                old(self).novbeti_qaytarma_id as int,
                old(self).novbeti_qelement_id as int,
            ),
            r is Ok ==> final(self).hereketler@ == old(self).hereketler@ + iade_hereketleri_qur(
                old(self).stoklar@,
                iade.items@,
                iade.items@.len() as int,
                iade_nomresi,
                tarix,
                old(self).novbeti_hereket_id as int,
            ),
            r is Ok ==> final(self).odemeler@ == old(self).odemeler@ + Store::iade_odemesi_qur(
                old(self).satislar@[satis_indeksi(old(self).satislar@, iade.satis_id as int)],
                iade_cemi(iade.items@, iade.items@.len() as int),
                iade_nomresi,
                tarix,
                old(self).novbeti_odeme_id as int,
            ),
            r is Ok ==> forall|m: int, o: int|
                #[trigger] stok_miqdari(final(self).stoklar@, m, o) == iadeden_sonra_stok(
                    old(self).stoklar@,
                    iade.items@,
                    iade.items@.len() as int,
                    m,
                    o,
                ),
            r is Ok ==> final(self).novbeti_qaytarma_id == old(self).novbeti_qaytarma_id + 1,
            r is Ok ==> final(self).novbeti_qelement_id == old(self).novbeti_qelement_id
                + iade.items@.len(),
            r is Ok ==> final(self).novbeti_hereket_id == old(self).novbeti_hereket_id
                + iade.items@.len(),
            r matches Ok(g) ==> iade_gorunusu_uygun(
                old(self).satislar@,
                old(self).musteriler@,
                final(self).qaytarmalar@.last(),
                g,
            ),
    {
        if self.iade_nomresi_movcuddur(&iade_nomresi) {
            return Err(Xeta::NomreMovcuddur);
        }
        proof {
            assert(!iade_nomresi_movcud(old(self).qaytarmalar@, iade_nomresi@));
        }
        let satis_k = match self.satis_tap(iade.satis_id) {
            Some(k) => k,
            None => {
                return Err(Xeta::SatisTapilmadi);
            },
        };
        let satis_musteri: Option<i64> = self.satislar[satis_k].musteri_id;
        let satis_usulu = self.satislar[satis_k].odenis_usulu;
        proof {
            assert(satis_k as int == satis_indeksi(old(self).satislar@, iade.satis_id as int));
        }
        let n = iade.items.len();
        // no line may repeat an already-returned combination, and every
        // product and size must exist
        let mut i: usize = 0;
        while i < n
            invariant
                self.kecerli(),
                Store::butov_eyni(*self, *old(self)),
                n == iade.items@.len(),
                0 <= i <= n,
                forall|k: int|
                    0 <= k < i ==> !evvel_qaytarilib(
                        self.qaytarmalar@,
                        self.qaytarma_elementleri@,
                        iade.satis_id as int,
                        (#[trigger] iade.items@[k]).mehsul_id as int,
                        iade.items@[k].olcu_id as int,
                    ) && mehsul_movcud(self.mehsullar@, iade.items@[k].mehsul_id as int)
                        && olcu_movcud(self.olculer@, iade.items@[k].olcu_id as int),
            decreases n - i,
        {
            let it = iade.items[i];
            if self.evvel_qaytarilibdir(iade.satis_id, it.mehsul_id, it.olcu_id) {
                proof {
                    assert(evvel_qaytarilib(
                        old(self).qaytarmalar@,
                        old(self).qaytarma_elementleri@,
                        iade.satis_id as int,
                        (iade.items@[i as int]).mehsul_id as int,
                        iade.items@[i as int].olcu_id as int,
                    ));
                    assert(!iade_konflikti_yox(
                        old(self).qaytarmalar@,
                        old(self).qaytarma_elementleri@,
                        iade.satis_id as int,
                        iade.items@,
                    ));
                }
                return Err(Xeta::ArtiqQaytarilib { mehsul_id: it.mehsul_id, olcu_id: it.olcu_id });
            }
            if self.mehsul_tap(it.mehsul_id).is_none() {
                proof {
                    assert(!mehsul_movcud(
                        self.mehsullar@,
                        (iade.items@[i as int]).mehsul_id as int,
                    ));
                }
                return Err(Xeta::MehsulTapilmadi);
            }
            if self.olcu_tap(it.olcu_id).is_none() {
                proof {
                    assert(!olcu_movcud(self.olculer@, (iade.items@[i as int]).olcu_id as int));
                }
                return Err(Xeta::OlcuTapilmadi);
            }
            i = i + 1;
        }
        // the identity counters must have room for every new row
        if self.novbeti_qaytarma_id == i64::MAX || self.novbeti_odeme_id == i64::MAX {
            return Err(Xeta::HeddenArtiq);
        }
        let bos_qelement: i64 = i64::MAX - self.novbeti_qelement_id;
        let bos_hereket: i64 = i64::MAX - self.novbeti_hereket_id;
        let bos_stok: i64 = i64::MAX - self.novbeti_stok_id;
        if (n as u64) > (bos_qelement as u64) || (n as u64) > (bos_hereket as u64) || (n as u64)
            > (bos_stok as u64) {
            return Err(Xeta::HeddenArtiq);
        }
        proof {
            assert(self.iade_yeri_sigar(n as int));
        }
        // the refund totals must fit
        let mut toplam: i64 = 0;
        i = 0;
        while i < n
            invariant
                self.kecerli(),
                Store::butov_eyni(*self, *old(self)),
                n == iade.items@.len(),
                0 <= i <= n,
                toplam as int == iade_cemi(iade.items@, i as int),
                forall|k: int| 0 <= k < i ==> i64_sigar(iade_setir_toplami(#[trigger] iade.items@[k])),
                forall|k: int| 0 <= k <= i ==> i64_sigar(#[trigger] iade_cemi(iade.items@, k)),
            decreases n - i,
        {
            let it = iade.items[i];
            let st = match it.vahid_qiymeti.checked_mul(it.miqdar) {
                Some(v) => v,
                None => {
                    proof {
                        assert(!i64_sigar(iade_setir_toplami(iade.items@[i as int])));
                    }
                    return Err(Xeta::HeddenArtiq);
                },
            };
            toplam = match toplam.checked_add(st) {
                Some(v) => v,
                None => {
                    proof {
                        assert(!i64_sigar(iade_cemi(iade.items@, i as int + 1)));
                    }
                    return Err(Xeta::HeddenArtiq);
                },
            };
            i = i + 1;
        }
        // every intermediate stock level along the lines must fit
        i = 0;
        while i < n
            invariant
                self.kecerli(),
                Store::butov_eyni(*self, *old(self)),
                n == iade.items@.len(),
                n < i64::MAX,
                0 <= i <= n,
                forall|k: int|
                    0 <= k < i ==> i64_sigar(
                        iadeden_sonra_stok(
                            self.stoklar@,
                            iade.items@,
                            k + 1,
                            (#[trigger] iade.items@[k]).mehsul_id as int,
                            iade.items@[k].olcu_id as int,
                        ),
                    ) && iade.items@[k].miqdar != i64::MIN,
            decreases n - i,
        {
            let it = iade.items[i];
            if it.miqdar == i64::MIN {
                proof {
                    assert(iade.items@[i as int].miqdar == i64::MIN);
                    assert(!iade_stoku_sigar(self.stoklar@, iade.items@));
                }
                return Err(Xeta::HeddenArtiq);
            }
            let baza: i64 = match self.stok_tap(it.mehsul_id, it.olcu_id) {
                Some(k) => self.stoklar[k].miqdar,
                None => 0,
            };
            let mut cem: i128 = 0;
            let mut j: usize = 0;
            while j <= i
                invariant
                    self.kecerli(),
                    Store::butov_eyni(*self, *old(self)),
                    n == iade.items@.len(),
                    n < i64::MAX,
                    0 <= j <= i + 1,
                    i < n,
                    it == iade.items@[i as int],
                    cem as int == iade_olunan_cem(
                        iade.items@,
                        j as int,
                        iade.items@[i as int].mehsul_id as int,
                        iade.items@[i as int].olcu_id as int,
                    ),
                    -((j as int) * 0x8000_0000_0000_0000) <= cem as int <= (j as int)
                        * 0x8000_0000_0000_0000,
                decreases i + 1 - j,
            {
                let o = iade.items[j];
                proof {
                    assert((j as int) * 0x8000_0000_0000_0000 <= (n as int)
                        * 0x8000_0000_0000_0000 && (n as int) * 0x8000_0000_0000_0000
                        < 0x4000_0000_0000_0000_0000_0000_0000_0000) by (nonlinear_arith)
                        requires
                            0 <= j as int <= n as int,
                            n < 0x8000_0000_0000_0000,
                    ;
                    assert((j + 1) as int * 0x8000_0000_0000_0000 == (j as int)
                        * 0x8000_0000_0000_0000 + 0x8000_0000_0000_0000) by (nonlinear_arith);
                }
                if o.mehsul_id == it.mehsul_id && o.olcu_id == it.olcu_id {
                    cem = cem + (o.miqdar as i128);
                }
                proof {
                    assert(iade_olunan_cem(
                        iade.items@,
                        j as int + 1,
                        iade.items@[i as int].mehsul_id as int,
                        iade.items@[i as int].olcu_id as int,
                    ) == iade_olunan_cem(
                        iade.items@,
                        j as int,
                        iade.items@[i as int].mehsul_id as int,
                        iade.items@[i as int].olcu_id as int,
                    ) + if iade.items@[j as int].mehsul_id as int
                        == iade.items@[i as int].mehsul_id as int && iade.items@[j as int].olcu_id
                        as int == iade.items@[i as int].olcu_id as int {
                        iade.items@[j as int].miqdar as int
                    } else {
                        0
                    });
                }
                j = j + 1;
            }
            proof {
                assert((i + 1) as int * 0x8000_0000_0000_0000 <= (n as int)
                    * 0x8000_0000_0000_0000 && (n as int) * 0x8000_0000_0000_0000
                    < 0x4000_0000_0000_0000_0000_0000_0000_0000) by (nonlinear_arith)
                    requires
                        0 <= (i + 1) as int <= n as int,
                        n < 0x8000_0000_0000_0000,
                ;
            }
            let deyer: i128 = (baza as i128) + cem;
            proof {
                lemma_iadeden_sonra_stok(
                    self.stoklar@,
                    iade.items@,
                    i as int + 1,
                    it.mehsul_id as int,
                    it.olcu_id as int,
                );
                assert(stok_miqdari(self.stoklar@, it.mehsul_id as int, it.olcu_id as int)
                    == baza as int);
                assert(deyer as int == iadeden_sonra_stok(
                    self.stoklar@,
                    iade.items@,
                    i as int + 1,
                    it.mehsul_id as int,
                    it.olcu_id as int,
                ));
            }
            if deyer > i64::MAX as i128 || deyer < i64::MIN as i128 {
                proof {
                    assert(!i64_sigar(
                        iadeden_sonra_stok(
                            self.stoklar@,
                            iade.items@,
                            i as int + 1,
                            (iade.items@[i as int]).mehsul_id as int,
                            iade.items@[i as int].olcu_id as int,
                        ),
                    ));
                    assert(!iade_stoku_sigar(self.stoklar@, iade.items@));
                }
                return Err(Xeta::HeddenArtiq);
            }
            i = i + 1;
        }
        proof {
            assert(old(self).iade_qebul_olunur(iade));
        }
        // all checks passed: write the lines, the stock effects and the
        // audit rows, then the header and the compensating payment
        let iade_id = self.novbeti_qaytarma_id;
        let qelement0 = self.novbeti_qelement_id;
        i = 0;
        while i < n
            invariant
                self.kecerli(),
                n == iade.items@.len(),
                0 <= i <= n,
                iade_id == old(self).novbeti_qaytarma_id,
                qelement0 == old(self).novbeti_qelement_id,
                old(self).iade_qebul_olunur(iade),
                Store::varliglar_eyni(*self, *old(self)),
                self.satislar@ == old(self).satislar@,
                self.satis_elementleri@ == old(self).satis_elementleri@,
                self.qaytarmalar@ == old(self).qaytarmalar@,
                self.odemeler@ == old(self).odemeler@,
                self.novbeti_satis_id == old(self).novbeti_satis_id,
                self.novbeti_element_id == old(self).novbeti_element_id,
                self.novbeti_qaytarma_id == old(self).novbeti_qaytarma_id,
                self.novbeti_odeme_id == old(self).novbeti_odeme_id,
                self.novbeti_qelement_id == old(self).novbeti_qelement_id + i,
                self.novbeti_hereket_id == old(self).novbeti_hereket_id + i,
                self.novbeti_stok_id as int <= old(self).novbeti_stok_id + i,
                self.qaytarma_elementleri@ == old(self).qaytarma_elementleri@
                    + iade_elementleri_qur(
                    iade.items@,
                    i as int,
                    iade_id as int,
                    qelement0 as int,
                ),
                self.hereketler@ == old(self).hereketler@ + iade_hereketleri_qur(
                    old(self).stoklar@,
                    iade.items@,
                    i as int,
                    iade_nomresi,
                    tarix,
                    old(self).novbeti_hereket_id as int,
                ),
                forall|m: int, o: int|
                    #[trigger] stok_miqdari(self.stoklar@, m, o) == iadeden_sonra_stok(
                        old(self).stoklar@,
                        iade.items@,
                        i as int,
                        m,
                        o,
                    ),
            decreases n - i,
        {
            let it = iade.items[i];
            let st = match it.vahid_qiymeti.checked_mul(it.miqdar) {
                Some(v) => v,
                None => {
                    proof {
                        assert(i64_sigar(iade_setir_toplami(iade.items@[i as int])));
                        assert(false);
                    }
                    return Err(Xeta::HeddenArtiq);
                },
            };
            let eid = self.novbeti_qelement_id;
            self.qaytarma_elementleri.push(
                QaytarmaElementi {
                    id: eid,
                    iade_id,
                    mehsul_id: it.mehsul_id,
                    olcu_id: it.olcu_id,
                    miqdar: it.miqdar,
                    vahid_qiymeti: it.vahid_qiymeti,
                    toplam_qiymet: st,
                },
            );
            self.novbeti_qelement_id = eid + 1;
            let ghost stok_evvel = self.stoklar@;
            let netice = self.stok_duzelt(
                it.mehsul_id,
                it.olcu_id,
                it.miqdar,
                HereketNovu::DaxilOlma,
                HereketQeydi::QaytarmaGirisi(iade_nomresi.clone()),
                None,
                None,
                None,
                tarix,
            );
            proof {
                lemma_iadeden_sonra_stok(
                    old(self).stoklar@,
                    iade.items@,
                    i as int,
                    it.mehsul_id as int,
                    it.olcu_id as int,
                );
            }
            match netice {
                Ok(()) => {},
                Err(_) => {
                    proof {
                        assert(i64_sigar(
                            iadeden_sonra_stok(
                                old(self).stoklar@,
                                iade.items@,
                                i as int + 1,
                                it.mehsul_id as int,
                                it.olcu_id as int,
                            ),
                        ));
                        assert(stok_miqdari(stok_evvel, it.mehsul_id as int, it.olcu_id as int)
                            == iadeden_sonra_stok(
                            old(self).stoklar@,
                            iade.items@,
                            i as int,
                            it.mehsul_id as int,
                            it.olcu_id as int,
                        ));
                        assert(false);
                    }
                    return Err(Xeta::HeddenArtiq);
                },
            }
            i = i + 1;
            proof {
                assert(self.qaytarma_elementleri@ =~= old(self).qaytarma_elementleri@
                    + iade_elementleri_qur(
                    iade.items@,
                    i as int,
                    iade_id as int,
                    qelement0 as int,
                ));
                assert(self.hereketler@ =~= old(self).hereketler@ + iade_hereketleri_qur(
                    old(self).stoklar@,
                    iade.items@,
                    i as int,
                    iade_nomresi,
                    tarix,
                    old(self).novbeti_hereket_id as int,
                ));
                assert forall|m: int, o: int| #[trigger] stok_miqdari(self.stoklar@, m, o)
                    == iadeden_sonra_stok(
                    old(self).stoklar@,
                    iade.items@,
                    i as int,
                    m,
                    o,
                ) by {
                    if m == it.mehsul_id as int && o == it.olcu_id as int {
                        assert(stok_miqdari(self.stoklar@, m, o) == stok_miqdari(stok_evvel, m, o)
                            + it.miqdar);
                    } else {
                        assert(stok_miqdari(self.stoklar@, m, o) == stok_miqdari(
                            stok_evvel,
                            m,
                            o,
                        ));
                    }
                }
            }
        }
        // the compensating debt payment for an on-credit sale
        if satis_usulu == OdenisUsulu::Kart || satis_usulu == OdenisUsulu::Nagd || satis_usulu
            == OdenisUsulu::GeriQaytarma {
        } else {
            match satis_musteri {
                Some(c) => {
                    let oid = self.novbeti_odeme_id;
                    self.odemeler.push(
                        OdemeSetri {
                            id: oid,
                            musteri_id: c,
                            mebleg: toplam,
                            odenis_usulu: OdenisUsulu::GeriQaytarma,
                            qeyd: Some(iade_nomresi.clone()),
                            tarix,
                        },
                    );
                    self.novbeti_odeme_id = oid + 1;
                },
                None => {},
            }
        }
        proof {
            assert(self.odemeler@ =~= old(self).odemeler@ + Store::iade_odemesi_qur(
                old(self).satislar@[satis_indeksi(old(self).satislar@, iade.satis_id as int)],
                iade_cemi(iade.items@, iade.items@.len() as int),
                iade_nomresi,
                tarix,
                old(self).novbeti_odeme_id as int,
            ));
        }
        let setir = QaytarmaSetri {
            id: iade_id,
            iade_nomresi,
            satis_id: iade.satis_id,
            musteri_id: satis_musteri,
            toplam_mebleg: toplam,
            sebebi: iade.sebebi,
            qeyd: iade.qeyd,
            tarix,
        };
        self.qaytarmalar.push(setir);
        self.novbeti_qaytarma_id = iade_id + 1;
        let son_indeks = self.qaytarmalar.len() - 1;
        let gorunus = self.iade_gorunusu(&self.qaytarmalar[son_indeks]);
        Ok(gorunus)
    }

    /// Record a return under a freshly generated document number: the
    /// letter I, a dash, and eight random characters. As with sales,
    /// everything that holds of the outcome is stated for every number
    /// the generator may produce; [`Store::iade_yarat_nomre_ile`] gives
    /// the exact contract for a chosen number. For an acceptable
    /// request the only possible failure is a collision of the
    /// generated number.
    pub fn iade_yarat(&mut self, iade: CreateReturn, tarix: Tarix) -> (r: Result<Return, Xeta>)
        requires
            old(self).kecerli(),
        ensures
            final(self).kecerli(),
            Store::varliglar_eyni(*final(self), *old(self)),
            final(self).satislar@ == old(self).satislar@,
            final(self).satis_elementleri@ == old(self).satis_elementleri@,
            r is Err ==> Store::butov_eyni(*final(self), *old(self)),
            r is Err ==> (r == Err::<Return, Xeta>(Xeta::NomreMovcuddur) || !old(
                self,
            ).iade_qebul_olunur(iade)),
            // a number can only collide with a stored return, so against
            // a store with no return an acceptable request must succeed
            r == Err::<Return, Xeta>(Xeta::NomreMovcuddur) ==> old(self).qaytarmalar@.len() > 0,
            (old(self).iade_qebul_olunur(iade) && old(self).qaytarmalar@.len() == 0) ==> r is Ok,
            (satis_movcud(old(self).satislar@, iade.satis_id as int) && iade_fk_hamisi(
                old(self).mehsullar@,
                old(self).olculer@,
                iade.items@,
            ) && !iade_konflikti_yox(
                old(self).qaytarmalar@,
                old(self).qaytarma_elementleri@,
                iade.satis_id as int,
                iade.items@,
            )) ==> (r matches Err(Xeta::ArtiqQaytarilib { .. }) || r == Err::<Return, Xeta>(
                Xeta::NomreMovcuddur,
            )),
            r matches Err(Xeta::ArtiqQaytarilib { mehsul_id, olcu_id }) ==> (
            evvel_qaytarilib(
                old(self).qaytarmalar@,
                old(self).qaytarma_elementleri@,
                iade.satis_id as int,
                mehsul_id as int,
                olcu_id as int,
            ) && exists|k: int|
                0 <= k < iade.items@.len() && (#[trigger] iade.items@[k]).mehsul_id == mehsul_id
                    && iade.items@[k].olcu_id == olcu_id),
            r == Err::<Return, Xeta>(Xeta::SatisTapilmadi) ==> !satis_movcud(
                old(self).satislar@,
                iade.satis_id as int,
            ),
            r is Ok ==> old(self).iade_qebul_olunur(iade),
            r matches Ok(g) ==> {
                let yeni = final(self).qaytarmalar@.last();
                &&& final(self).qaytarmalar@ == old(self).qaytarmalar@.push(yeni)
                &&& yeni.id == old(self).novbeti_qaytarma_id
                &&& yeni.iade_nomresi@ == g.iade_nomresi@
                &&& g.iade_nomresi@.len() == 10
                &&& g.iade_nomresi@[0] == 'I'
                &&& g.iade_nomresi@[1] == '-'
                &&& (forall|i: int|
                    2 <= i < 10 ==> ('0' <= #[trigger] g.iade_nomresi@[i] <= '9' || 'A'
                        <= g.iade_nomresi@[i] <= 'F'))
                &&& !iade_nomresi_movcud(old(self).qaytarmalar@, g.iade_nomresi@)
                &&& yeni.satis_id == iade.satis_id
                &&& yeni.musteri_id == old(self).satislar@[satis_indeksi(
                    old(self).satislar@,
                    iade.satis_id as int,
                )].musteri_id
                &&& yeni.toplam_mebleg == iade_cemi(iade.items@, iade.items@.len() as int)
                &&& yeni.sebebi == iade.sebebi
                &&& yeni.qeyd == iade.qeyd
                &&& yeni.tarix == tarix
                &&& final(self).qaytarma_elementleri@ == old(self).qaytarma_elementleri@
                    + iade_elementleri_qur(
                    iade.items@,
                    iade.items@.len() as int,
                    old(self).novbeti_qaytarma_id as int,
                    old(self).novbeti_qelement_id as int,
                )
                &&& final(self).hereketler@ == old(self).hereketler@ + iade_hereketleri_qur(
                    old(self).stoklar@,
                    iade.items@,
                    iade.items@.len() as int,
                    yeni.iade_nomresi,
                    tarix,
                    old(self).novbeti_hereket_id as int,
                )
                &&& final(self).odemeler@ == old(self).odemeler@ + Store::iade_odemesi_qur(
                    old(self).satislar@[satis_indeksi(old(self).satislar@, iade.satis_id as int)],
                    iade_cemi(iade.items@, iade.items@.len() as int),
                    yeni.iade_nomresi,
                    tarix,
                    old(self).novbeti_odeme_id as int,
                )
                &&& (forall|m: int, o: int|
                    #[trigger] stok_miqdari(final(self).stoklar@, m, o) == iadeden_sonra_stok(
                        old(self).stoklar@,
                        iade.items@,
                        iade.items@.len() as int,
                        m,
                        o,
                    ))
                &&& iade_gorunusu_uygun(old(self).satislar@, old(self).musteriler@, yeni, g)
            },
    {
        let nomre = tesadufi_nomre("I");
        proof {
            reveal_strlit("I");
            assert(nomre@.len() == 10);
            assert(nomre@.subrange(0, 1) == "I"@);
            assert(nomre@[0] == "I"@[0]);
            assert(nomre@[0] == 'I');
            assert(nomre@[1] == '-');
        }
        self.iade_yarat_nomre_ile(nomre, iade, tarix)
    }
}

} // verus!

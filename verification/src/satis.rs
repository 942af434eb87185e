use vstd::prelude::*;
use crate::kenar::{ad_soyad_birlesdir, tesadufi_nomre};
use crate::model::{
    HereketNovu, HereketQeydi, HereketSetri, MusteriSetri, OdenisUsulu, SatisElementi, SatisSetri,
    StokSetri,
};
use crate::store::{
    i64_sigar, mehsul_indeksi, mehsul_movcud, musteri_indeksi, musteri_movcud, olcu_indeksi,
    olcu_movcud, stok_miqdari, Store,
};
use crate::tarix::Tarix;
use crate::xeta::Xeta;

verus! {

/// One requested sale line: quantity of a (product, size) at a unit
/// price in qepik.
#[derive(Clone, Copy, PartialEq, Eq, Structural, Debug)]
pub struct CreateSaleItem {
    pub mehsul_id: i64,
    pub olcu_id: i64,
    pub miqdar: i64,
    pub vahid_qiymeti: i64,
}

/// A requested sale: its lines, the discount off the gross amount, the
/// payment method, and the optional customer and note.
#[derive(Clone, PartialEq, Eq, Debug)]
pub struct CreateSale {
    pub items: Vec<CreateSaleItem>,
    pub endirim: i64,
    pub odenis_usulu: OdenisUsulu,
    pub musteri_id: Option<i64>,
    pub qeyd: Option<String>,
}

/// A persisted sale header as shown to callers, with the customer's
/// display name resolved.
#[derive(Clone, PartialEq, Eq, Debug)]
pub struct Sale {
    pub id: i64,
    pub satis_nomresi: String,
    pub musteri_id: Option<i64>,
    pub musteri_adi: Option<String>,
    pub toplam_mebleg: i64,
    pub endirim: i64,
    pub son_mebleg: i64,
    pub odenis_usulu: OdenisUsulu,
    pub qeyd: Option<String>,
    pub tarix: Tarix,
}

/// A persisted sale line as shown to callers, with display data
/// resolved.
#[derive(Clone, PartialEq, Eq, Debug)]
pub struct SaleItem {
    pub id: i64,
    pub satis_id: i64,
    pub mehsul_id: i64,
    pub mehsul_adi: Option<String>,
    pub mehsul_barkod: Option<String>,
    pub olcu_id: i64,
    pub olcu: Option<String>,
    pub miqdar: i64,
    pub vahid_qiymeti: i64,
    pub toplam_qiymet: i64,
}

/// A sale header together with its lines.
#[derive(Clone, PartialEq, Eq, Debug)]
pub struct SaleWithItems {
    pub sale: Sale,
    pub items: Vec<SaleItem>,
}

/// The line total of one requested line: unit price times quantity.
pub open spec fn setir_toplami(it: CreateSaleItem) -> int {
    it.vahid_qiymeti * it.miqdar
}

/// The gross amount of the first `n` requested lines.
pub open spec fn satis_cemi(items: Seq<CreateSaleItem>, n: int) -> int
    decreases n,
{
    if n <= 0 {
        0
    } else {
        satis_cemi(items, n - 1) + setir_toplami(items[n - 1])
    }
}

/// Every line total and every running gross prefix, and the net after
/// the discount, fit the store's 64-bit amounts.
pub open spec fn satis_hesabi_sigar(items: Seq<CreateSaleItem>, endirim: int) -> bool {
    &&& forall|k: int| 0 <= k < items.len() ==> i64_sigar(setir_toplami(#[trigger] items[k]))
    &&& forall|k: int| 0 <= k <= items.len() ==> i64_sigar(#[trigger] satis_cemi(items, k))
    &&& i64_sigar(satis_cemi(items, items.len() as int) - endirim)
}

/// The stock level of pair (m, o) after the first `n` requested lines
/// have been taken out of stock, line by line.
pub open spec fn satisdan_sonra_stok(
    stoklar: Seq<StokSetri>,
    items: Seq<CreateSaleItem>,
    n: int,
    m: int,
    o: int,
) -> int
    decreases n,
{
    if n <= 0 {
        stok_miqdari(stoklar, m, o)
    } else {
        satisdan_sonra_stok(stoklar, items, n - 1, m, o) - if items[n - 1].mehsul_id == m
            && items[n - 1].olcu_id == o {
            items[n - 1].miqdar as int
        } else {
            0
        }
    }
}

/// Every intermediate stock level along the lines fits, and no line
/// quantity is the one value whose negation overflows.
pub open spec fn satis_stoku_sigar(stoklar: Seq<StokSetri>, items: Seq<CreateSaleItem>) -> bool {
    forall|k: int|
        0 <= k < items.len() ==> i64_sigar(
            satisdan_sonra_stok(
                stoklar,
                items,
                k + 1,
                (#[trigger] items[k]).mehsul_id as int,
                items[k].olcu_id as int,
            ),
        ) && items[k].miqdar != i64::MIN
}

/// Every product and size a requested line names exists.
pub open spec fn satis_fk_hamisi(
    mehsullar: Seq<crate::model::MehsulSetri>,
    olculer: Seq<crate::model::OlcuSetri>,
    items: Seq<CreateSaleItem>,
) -> bool {
    forall|k: int|
        0 <= k < items.len() ==> mehsul_movcud(mehsullar, (#[trigger] items[k]).mehsul_id as int)
            && olcu_movcud(olculer, items[k].olcu_id as int)
}

/// A sale with this number is already recorded.
pub open spec fn satis_nomresi_movcud(s: Seq<SatisSetri>, nomre: Seq<char>) -> bool {
    exists|i: int| 0 <= i < s.len() && (#[trigger] s[i]).satis_nomresi@ == nomre
}

/// The sale-line rows written for the first `n` requested lines of sale
/// `satis_id`, with identities from `element0` up.
pub open spec fn satis_elementleri_qur(
    items: Seq<CreateSaleItem>,
    n: int,
    satis_id: int,
    element0: int,
) -> Seq<SatisElementi>
    decreases n,
{
    if n <= 0 {
        Seq::empty()
    } else {
        satis_elementleri_qur(items, n - 1, satis_id, element0).push(
            SatisElementi {
                id: (element0 + n - 1) as i64,
                satis_id: satis_id as i64,
                mehsul_id: items[n - 1].mehsul_id,
                olcu_id: items[n - 1].olcu_id,
                miqdar: items[n - 1].miqdar,
                vahid_qiymeti: items[n - 1].vahid_qiymeti,
                toplam_qiymet: setir_toplami(items[n - 1]) as i64,
            },
        )
    }
}

/// The audit-trail rows written for the first `n` requested lines: one
/// outgoing movement per line, noting the sale number, with the
/// before/after stock levels along the way.
pub open spec fn satis_hereketleri_qur(
    stoklar: Seq<StokSetri>,
    items: Seq<CreateSaleItem>,
    n: int,
    nomre: String,
    tarix: Tarix,
    hereket0: int,
) -> Seq<HereketSetri>
    decreases n,
{
    if n <= 0 {
        Seq::empty()
    } else {
        let it = items[n - 1];
        satis_hereketleri_qur(stoklar, items, n - 1, nomre, tarix, hereket0).push(
            HereketSetri {
                id: (hereket0 + n - 1) as i64,
                mehsul_id: it.mehsul_id,
                olcu_id: it.olcu_id,
                novu: HereketNovu::Cixis,
                miqdar: (if it.miqdar < 0 {
                    -(it.miqdar as int)
                } else {
                    it.miqdar as int
                }) as i64,
                evvelki_miqdar: Some(
                    satisdan_sonra_stok(
                        stoklar,
                        items,
                        n - 1,
                        it.mehsul_id as int,
                        it.olcu_id as int,
                    ) as i64,
                ),
                yeni_miqdar: Some(
                    satisdan_sonra_stok(
                        stoklar,
                        items,
                        n,
                        it.mehsul_id as int,
                        it.olcu_id as int,
                    ) as i64,
                ),
                vahid_alis_qiymeti: None,
                toplam_deyeri: None,
                qeyd: HereketQeydi::SatisCixisi(nomre),
                tarix,
            },
        )
    }
}

/// The total quantity of the first `t` requested lines that name the
/// pair (m, o).
pub open spec fn satilan_cem(items: Seq<CreateSaleItem>, t: int, m: int, o: int) -> int
    decreases t,
{
    if t <= 0 {
        0
    } else {
        satilan_cem(items, t - 1, m, o) + if items[t - 1].mehsul_id == m && items[t - 1].olcu_id
            == o {
            items[t - 1].miqdar as int
        } else {
            0
        }
    }
}

/// The level after `t` lines is the starting level minus what those
/// lines sold of the pair.
pub proof fn lemma_satisdan_sonra_stok(
    stoklar: Seq<StokSetri>,
    items: Seq<CreateSaleItem>,
    t: int,
    m: int,
    o: int,
)
    ensures
        satisdan_sonra_stok(stoklar, items, t, m, o) == stok_miqdari(stoklar, m, o) - satilan_cem(
            items,
            t,
            m,
            o,
        ),
    decreases t,
{
    if t > 0 {
        lemma_satisdan_sonra_stok(stoklar, items, t - 1, m, o);
    }
}

/// `g` shows exactly the stored sale header `setir`, with the
/// customer's display name resolved: first name, a space, last name.
pub open spec fn satis_gorunusu_uygun(
    musteriler: Seq<MusteriSetri>,
    setir: SatisSetri,
    g: Sale,
) -> bool {
    &&& g.id == setir.id
    &&& g.satis_nomresi@ == setir.satis_nomresi@
    &&& g.musteri_id == setir.musteri_id
    &&& g.toplam_mebleg == setir.toplam_mebleg
    &&& g.endirim == setir.endirim
    &&& g.son_mebleg == setir.son_mebleg
    &&& g.odenis_usulu == setir.odenis_usulu
    &&& g.qeyd == setir.qeyd
    &&& g.tarix == setir.tarix
    &&& match setir.musteri_id {
        Some(c) => if musteri_movcud(musteriler, c as int) {
            let m = musteriler[musteri_indeksi(musteriler, c as int)];
            g.musteri_adi matches Some(n) && n@ == m.ad@ + seq![' '] + m.soyad@
        } else {
            g.musteri_adi is None
        },
        None => g.musteri_adi is None,
    }
}

impl Store {
    /// A sale with this number is already recorded.
    pub fn satis_nomresi_movcuddur(&self, nomre: &String) -> (r: bool)
        ensures
            r == satis_nomresi_movcud(self.satislar@, nomre@),
    {
        let mut i: usize = 0;
        while i < self.satislar.len()
            invariant
                0 <= i <= self.satislar@.len(),
                forall|j: int| 0 <= j < i ==> (#[trigger] self.satislar@[j]).satis_nomresi@ != nomre@,
            decreases self.satislar@.len() - i,
        {
            if self.satislar[i].satis_nomresi.eq(nomre) {
                return true;
            }
            i = i + 1;
        }
        false
    }

    /// Resolve one stored sale header into its caller-facing view.
    pub fn satis_gorunusu(&self, setir: &SatisSetri) -> (g: Sale)
        requires
            self.kecerli(),
        ensures
            satis_gorunusu_uygun(self.musteriler@, *setir, g),
    {
        let musteri_adi: Option<String> = match setir.musteri_id {
            Some(c) => match self.musteri_tap(c) {
                Some(k) => {
                    let m = &self.musteriler[k];
                    Some(ad_soyad_birlesdir(m.ad.as_str(), m.soyad.as_str()))
                },
                None => None,
            },
            None => None,
        };
        Sale {
            id: setir.id,
            satis_nomresi: setir.satis_nomresi.clone(),
            musteri_id: setir.musteri_id,
            musteri_adi,
            toplam_mebleg: setir.toplam_mebleg,
            endirim: setir.endirim,
            son_mebleg: setir.son_mebleg,
            odenis_usulu: setir.odenis_usulu,
            qeyd: setir.qeyd.clone(),
            tarix: setir.tarix,
        }
    }

    /// The identity counters can still number a sale header and one
    /// line, movement and possible stock row per requested line.
    pub open spec fn satis_yeri_sigar(self, setir_sayi: int) -> bool {
        &&& self.novbeti_satis_id < i64::MAX
        &&& self.novbeti_element_id + setir_sayi <= i64::MAX
        &&& self.novbeti_hereket_id + setir_sayi <= i64::MAX
        &&& self.novbeti_stok_id + setir_sayi <= i64::MAX
    }

    /// Everything a sale request must satisfy to be recorded: the
    /// customer, if named, exists; every line's product and size exist;
    /// all amounts and intermediate stock levels fit; and the counters
    /// have room.
    pub open spec fn satis_qebul_olunur(self, satis: CreateSale) -> bool {
        &&& match satis.musteri_id {
            Some(c) => musteri_movcud(self.musteriler@, c as int),
            None => true,
        }
        &&& satis_fk_hamisi(self.mehsullar@, self.olculer@, satis.items@)
        &&& satis_hesabi_sigar(satis.items@, satis.endirim as int)
        &&& satis_stoku_sigar(self.stoklar@, satis.items@)
        &&& self.satis_yeri_sigar(satis.items@.len() as int)
    }

    /// Record a sale under the given document number: one header, one
    /// line row per requested line, one stock decrement and one
    /// outgoing audit row per line — all as a single indivisible step.
    /// The gross amount is the sum of the line totals and the net is
    /// the gross minus the discount. On any failure the store is left
    /// exactly as it was.
    #[verifier::loop_isolation(false)]
    #[verifier::rlimit(80)]
    pub fn satis_yarat_nomre_ile(
        &mut self,
        satis_nomresi: String,
        satis: CreateSale,
        tarix: Tarix,
    ) -> (r: Result<Sale, Xeta>)
        requires
            old(self).kecerli(),
        ensures
            final(self).kecerli(),
            Store::varliglar_eyni(*final(self), *old(self)),
            final(self).qaytarmalar@ == old(self).qaytarmalar@,
            final(self).qaytarma_elementleri@ == old(self).qaytarma_elementleri@,
            final(self).odemeler@ == old(self).odemeler@,
            final(self).novbeti_qaytarma_id == old(self).novbeti_qaytarma_id,
            final(self).novbeti_qelement_id == old(self).novbeti_qelement_id,
            final(self).novbeti_odeme_id == old(self).novbeti_odeme_id,
            r is Err ==> Store::butov_eyni(*final(self), *old(self)),
            r == Err::<Sale, Xeta>(Xeta::NomreMovcuddur) <==> satis_nomresi_movcud(
                old(self).satislar@,
                satis_nomresi@,
            ),
            r == Err::<Sale, Xeta>(Xeta::MusteriTapilmadi) <==> (!satis_nomresi_movcud(
                old(self).satislar@,
                satis_nomresi@,
            ) && (satis.musteri_id matches Some(c) && !musteri_movcud(
                old(self).musteriler@,
                c as int,
            ))),
            r == Err::<Sale, Xeta>(Xeta::MehsulTapilmadi) ==> exists|k: int|
                0 <= k < satis.items@.len() && !mehsul_movcud(
                    old(self).mehsullar@,
                    (#[trigger] satis.items@[k]).mehsul_id as int,
                ),
            r == Err::<Sale, Xeta>(Xeta::OlcuTapilmadi) ==> exists|k: int|
                0 <= k < satis.items@.len() && !olcu_movcud(
                    old(self).olculer@,
                    (#[trigger] satis.items@[k]).olcu_id as int,
                ),
            r == Err::<Sale, Xeta>(Xeta::HeddenArtiq) ==> !(satis_hesabi_sigar(
                satis.items@,
                satis.endirim as int,
            ) && satis_stoku_sigar(old(self).stoklar@, satis.items@) && old(self).satis_yeri_sigar(
                satis.items@.len() as int,
            )),
            r is Ok <==> (!satis_nomresi_movcud(old(self).satislar@, satis_nomresi@) && old(
                self,
            ).satis_qebul_olunur(satis)),
            r is Ok ==> final(self).satislar@ == old(self).satislar@.push(
                SatisSetri {
                    id: old(self).novbeti_satis_id,
                    satis_nomresi: satis_nomresi,
                    musteri_id: satis.musteri_id,
                    toplam_mebleg: satis_cemi(satis.items@, satis.items@.len() as int) as i64,
                    endirim: satis.endirim,
                    son_mebleg: (satis_cemi(satis.items@, satis.items@.len() as int)
                        - satis.endirim) as i64,
                    odenis_usulu: satis.odenis_usulu,
                    qeyd: satis.qeyd,
                    tarix,
                },
            ),
            r is Ok ==> final(self).satis_elementleri@ == old(self).satis_elementleri@
                + satis_elementleri_qur(
                satis.items@,
                satis.items@.len() as int,
                old(self).novbeti_satis_id as int,
                old(self).novbeti_element_id as int,
            ),
            r is Ok ==> final(self).hereketler@ == old(self).hereketler@ + satis_hereketleri_qur(
                old(self).stoklar@,
                satis.items@,
                satis.items@.len() as int,
                satis_nomresi,
                tarix,
                old(self).novbeti_hereket_id as int,
            ),
            r is Ok ==> forall|m: int, o: int|
                #[trigger] stok_miqdari(final(self).stoklar@, m, o) == satisdan_sonra_stok(
                    old(self).stoklar@,
                    satis.items@,
                    satis.items@.len() as int,
                    m,
                    o,
                ),
            r is Ok ==> final(self).novbeti_satis_id == old(self).novbeti_satis_id + 1,
            r is Ok ==> final(self).novbeti_element_id == old(self).novbeti_element_id
                + satis.items@.len(),
            r is Ok ==> final(self).novbeti_hereket_id == old(self).novbeti_hereket_id
                + satis.items@.len(),
            r matches Ok(g) ==> satis_gorunusu_uygun(
                old(self).musteriler@,
                final(self).satislar@.last(),
                g,
            ),
    {
        if self.satis_nomresi_movcuddur(&satis_nomresi) {
            return Err(Xeta::NomreMovcuddur);
        }
        proof {
            assert(!satis_nomresi_movcud(old(self).satislar@, satis_nomresi@));
        }
        let musteri_yoxdur: bool = match satis.musteri_id {
            Some(c) => self.musteri_tap(c).is_none(),
            None => false,
        };
        if musteri_yoxdur {
            return Err(Xeta::MusteriTapilmadi);
        }
        proof {
            assert(match satis.musteri_id {
                Some(c) => musteri_movcud(old(self).musteriler@, c as int),
                None => true,
            });
        }
        let n = satis.items.len();
        // referenced products and sizes must exist
        let mut i: usize = 0;
        while i < n
            invariant
                self.kecerli(),
                Store::butov_eyni(*self, *old(self)),
                n == satis.items@.len(),
                0 <= i <= n,
                forall|k: int|
                    0 <= k < i ==> mehsul_movcud(
                        self.mehsullar@,
                        (#[trigger] satis.items@[k]).mehsul_id as int,
                    ) && olcu_movcud(self.olculer@, satis.items@[k].olcu_id as int),
            decreases n - i,
        {
            let it = satis.items[i];
            if self.mehsul_tap(it.mehsul_id).is_none() {
                proof {
                    assert(!mehsul_movcud(
                        self.mehsullar@,
                        (satis.items@[i as int]).mehsul_id as int,
                    ));
                }
                return Err(Xeta::MehsulTapilmadi);
            }
            if self.olcu_tap(it.olcu_id).is_none() {
                proof {
                    assert(!olcu_movcud(self.olculer@, (satis.items@[i as int]).olcu_id as int));
                }
                return Err(Xeta::OlcuTapilmadi);
            }
            i = i + 1;
        }
        // the identity counters must have room for every new row
        if self.novbeti_satis_id == i64::MAX {
            return Err(Xeta::HeddenArtiq);
        }
        proof {
            assert(self.novbeti_element_id >= 1);
            assert(self.novbeti_hereket_id >= 1);
            assert(self.novbeti_stok_id >= 1);
        }
        let bos_element: i64 = i64::MAX - self.novbeti_element_id;
        let bos_hereket: i64 = i64::MAX - self.novbeti_hereket_id;
        let bos_stok: i64 = i64::MAX - self.novbeti_stok_id;
        if (n as u64) > (bos_element as u64) || (n as u64) > (bos_hereket as u64) || (n as u64)
            > (bos_stok as u64) {
            return Err(Xeta::HeddenArtiq);
        }
        proof {
            assert(self.satis_yeri_sigar(n as int));
        }
        // the gross, the line totals and the net must fit
        let mut toplam: i64 = 0;
        i = 0;
        while i < n
            invariant
                self.kecerli(),
                Store::butov_eyni(*self, *old(self)),
                n == satis.items@.len(),
                0 <= i <= n,
                toplam as int == satis_cemi(satis.items@, i as int),
                forall|k: int| 0 <= k < i ==> i64_sigar(setir_toplami(#[trigger] satis.items@[k])),
                forall|k: int| 0 <= k <= i ==> i64_sigar(#[trigger] satis_cemi(satis.items@, k)),
            decreases n - i,
        {
            let it = satis.items[i];
            let st = match it.vahid_qiymeti.checked_mul(it.miqdar) {
                Some(v) => v,
                None => {
                    proof {
                        assert(!i64_sigar(setir_toplami(satis.items@[i as int])));
                        assert(!satis_hesabi_sigar(satis.items@, satis.endirim as int));
                    }
                    return Err(Xeta::HeddenArtiq);
                },
            };
            toplam = match toplam.checked_add(st) {
                Some(v) => v,
                None => {
                    proof {
                        assert(!i64_sigar(satis_cemi(satis.items@, i as int + 1)));
                        assert(!satis_hesabi_sigar(satis.items@, satis.endirim as int));
                    }
                    return Err(Xeta::HeddenArtiq);
                },
            };
            i = i + 1;
        }
        let son = match toplam.checked_sub(satis.endirim) {
            Some(v) => v,
            None => {
                proof {
                    assert(!satis_hesabi_sigar(satis.items@, satis.endirim as int));
                }
                return Err(Xeta::HeddenArtiq);
            },
        };
        // every intermediate stock level along the lines must fit
        i = 0;
        while i < n
            invariant
                self.kecerli(),
                Store::butov_eyni(*self, *old(self)),
                n == satis.items@.len(),
                n < i64::MAX,
                0 <= i <= n,
                forall|k: int|
                    0 <= k < i ==> i64_sigar(
                        satisdan_sonra_stok(
                            self.stoklar@,
                            satis.items@,
                            k + 1,
                            (#[trigger] satis.items@[k]).mehsul_id as int,
                            satis.items@[k].olcu_id as int,
                        ),
                    ) && satis.items@[k].miqdar != i64::MIN,
            decreases n - i,
        {
            let it = satis.items[i];
            if it.miqdar == i64::MIN {
                proof {
                    assert(satis.items@[i as int].miqdar == i64::MIN);
                    assert(!satis_stoku_sigar(self.stoklar@, satis.items@));
                }
                return Err(Xeta::HeddenArtiq);
            }
            let baza: i64 = match self.stok_tap(it.mehsul_id, it.olcu_id) {
                Some(k) => self.stoklar[k].miqdar,
                None => 0,
            };
            let mut cem: i128 = 0;
            let mut j: usize = 0;
            while j <= i
                invariant
                    self.kecerli(),
                    Store::butov_eyni(*self, *old(self)),
                    n == satis.items@.len(),
                    n < i64::MAX,
                    0 <= j <= i + 1,
                    i < n,
                    it == satis.items@[i as int],
                    cem as int == satilan_cem(
                        satis.items@,
                        j as int,
                        satis.items@[i as int].mehsul_id as int,
                        satis.items@[i as int].olcu_id as int,
                    ),
                    -((j as int) * 0x8000_0000_0000_0000) <= cem as int <= (j as int)
                        * 0x8000_0000_0000_0000,
                decreases i + 1 - j,
            {
                let o = satis.items[j];
                proof {
                    assert((j as int) * 0x8000_0000_0000_0000 <= (n as int)
                        * 0x8000_0000_0000_0000 && (n as int) * 0x8000_0000_0000_0000
                        < 0x4000_0000_0000_0000_0000_0000_0000_0000) by (nonlinear_arith)
                        requires
                            0 <= j as int <= n as int,
                            n < 0x8000_0000_0000_0000,
                    ;
                    assert((j + 1) as int * 0x8000_0000_0000_0000 == (j as int)
                        * 0x8000_0000_0000_0000 + 0x8000_0000_0000_0000) by (nonlinear_arith);
                }
                if o.mehsul_id == it.mehsul_id && o.olcu_id == it.olcu_id {
                    cem = cem + (o.miqdar as i128);
                }
                proof {
                    assert(satilan_cem(
                        satis.items@,
                        j as int + 1,
                        satis.items@[i as int].mehsul_id as int,
                        satis.items@[i as int].olcu_id as int,
                    ) == satilan_cem(
                        satis.items@,
                        j as int,
                        satis.items@[i as int].mehsul_id as int,
                        satis.items@[i as int].olcu_id as int,
                    ) + if satis.items@[j as int].mehsul_id as int
                        == satis.items@[i as int].mehsul_id as int && satis.items@[j as int].olcu_id
                        as int == satis.items@[i as int].olcu_id as int {
                        satis.items@[j as int].miqdar as int
                    } else {
                        0
                    });
                }
                j = j + 1;
            }
            proof {
                assert((i + 1) as int * 0x8000_0000_0000_0000 <= (n as int)
                    * 0x8000_0000_0000_0000 && (n as int) * 0x8000_0000_0000_0000
                    < 0x4000_0000_0000_0000_0000_0000_0000_0000) by (nonlinear_arith)
                    requires
                        0 <= (i + 1) as int <= n as int,
                        n < 0x8000_0000_0000_0000,
                ;
            }
            let deyer: i128 = (baza as i128) - cem;
            proof {
                lemma_satisdan_sonra_stok(
                    self.stoklar@,
                    satis.items@,
                    i as int + 1,
                    it.mehsul_id as int,
                    it.olcu_id as int,
                );
                assert(stok_miqdari(self.stoklar@, it.mehsul_id as int, it.olcu_id as int)
                    == baza as int);
                assert(deyer as int == satisdan_sonra_stok(
                    self.stoklar@,
                    satis.items@,
                    i as int + 1,
                    it.mehsul_id as int,
                    it.olcu_id as int,
                ));
            }
            if deyer > i64::MAX as i128 || deyer < i64::MIN as i128 {
                proof {
                    assert(!i64_sigar(
                        satisdan_sonra_stok(
                            self.stoklar@,
                            satis.items@,
                            i as int + 1,
                            (satis.items@[i as int]).mehsul_id as int,
                            satis.items@[i as int].olcu_id as int,
                        ),
                    ));
                    assert(!satis_stoku_sigar(self.stoklar@, satis.items@));
                }
                return Err(Xeta::HeddenArtiq);
            }
            i = i + 1;
        }
        proof {
            assert(old(self).satis_qebul_olunur(satis));
        }
        // all checks passed: write the lines, the stock effects and the
        // audit rows, then the header
        let satis_id = self.novbeti_satis_id;
        let element0 = self.novbeti_element_id;
        i = 0;
        while i < n
            invariant
                self.kecerli(),
                n == satis.items@.len(),
                0 <= i <= n,
                satis_id == old(self).novbeti_satis_id,
                element0 == old(self).novbeti_element_id,
                old(self).satis_qebul_olunur(satis),
                !satis_nomresi_movcud(old(self).satislar@, satis_nomresi@),
                Store::varliglar_eyni(*self, *old(self)),
                self.satislar@ == old(self).satislar@,
                self.qaytarmalar@ == old(self).qaytarmalar@,
                self.qaytarma_elementleri@ == old(self).qaytarma_elementleri@,
                self.odemeler@ == old(self).odemeler@,
                self.novbeti_satis_id == old(self).novbeti_satis_id,
                self.novbeti_qaytarma_id == old(self).novbeti_qaytarma_id,
                self.novbeti_qelement_id == old(self).novbeti_qelement_id,
                self.novbeti_odeme_id == old(self).novbeti_odeme_id,
                self.novbeti_element_id == old(self).novbeti_element_id + i,
                self.novbeti_hereket_id == old(self).novbeti_hereket_id + i,
                self.novbeti_stok_id as int <= old(self).novbeti_stok_id + i,
                self.satis_elementleri@ == old(self).satis_elementleri@ + satis_elementleri_qur(
                    satis.items@,
                    i as int,
                    satis_id as int,
                    element0 as int,
                ),
                self.hereketler@ == old(self).hereketler@ + satis_hereketleri_qur(
                    old(self).stoklar@,
                    satis.items@,
                    i as int,
                    satis_nomresi,
                    tarix,
                    old(self).novbeti_hereket_id as int,
                ),
                forall|m: int, o: int|
                    #[trigger] stok_miqdari(self.stoklar@, m, o) == satisdan_sonra_stok(
                        old(self).stoklar@,
                        satis.items@,
                        i as int,
                        m,
                        o,
                    ),
            decreases n - i,
        {
            let it = satis.items[i];
            let st = match it.vahid_qiymeti.checked_mul(it.miqdar) {
                Some(v) => v,
                None => {
                    proof {
                        assert(i64_sigar(setir_toplami(satis.items@[i as int])));
                        assert(false);
                    }
                    return Err(Xeta::HeddenArtiq);
                },
            };
            let eid = self.novbeti_element_id;
            self.satis_elementleri.push(
                SatisElementi {
                    id: eid,
                    satis_id,
                    mehsul_id: it.mehsul_id,
                    olcu_id: it.olcu_id,
                    miqdar: it.miqdar,
                    vahid_qiymeti: it.vahid_qiymeti,
                    toplam_qiymet: st,
                },
            );
            self.novbeti_element_id = eid + 1;
            let delta = -it.miqdar;
            let ghost stok_evvel = self.stoklar@;
            let netice = self.stok_duzelt(
                it.mehsul_id,
                it.olcu_id,
                delta,
                HereketNovu::Cixis,
                HereketQeydi::SatisCixisi(satis_nomresi.clone()),
                None,
                None,
                None,
                tarix,
            );
            proof {
                lemma_satisdan_sonra_stok(
                    old(self).stoklar@,
                    satis.items@,
                    i as int,
                    it.mehsul_id as int,
                    it.olcu_id as int,
                );
            }
            match netice {
                Ok(()) => {},
                Err(_) => {
                    proof {
                        assert(i64_sigar(
                            satisdan_sonra_stok(
                                old(self).stoklar@,
                                satis.items@,
                                i as int + 1,
                                it.mehsul_id as int,
                                it.olcu_id as int,
                            ),
                        ));
                        assert(stok_miqdari(stok_evvel, it.mehsul_id as int, it.olcu_id as int)
                            == satisdan_sonra_stok(
                            old(self).stoklar@,
                            satis.items@,
                            i as int,
                            it.mehsul_id as int,
                            it.olcu_id as int,
                        ));
                        assert(false);
                    }
                    return Err(Xeta::HeddenArtiq);
                },
            }
            i = i + 1;
            proof {
                assert(self.satis_elementleri@ =~= old(self).satis_elementleri@
                    + satis_elementleri_qur(
                    satis.items@,
                    i as int,
                    satis_id as int,
                    element0 as int,
                ));
                assert(self.hereketler@ =~= old(self).hereketler@ + satis_hereketleri_qur(
                    old(self).stoklar@,
                    satis.items@,
                    i as int,
                    satis_nomresi,
                    tarix,
                    old(self).novbeti_hereket_id as int,
                ));
                assert forall|m: int, o: int| #[trigger] stok_miqdari(self.stoklar@, m, o)
                    == satisdan_sonra_stok(
                    old(self).stoklar@,
                    satis.items@,
                    i as int,
                    m,
                    o,
                ) by {
                    if m == it.mehsul_id as int && o == it.olcu_id as int {
                        assert(stok_miqdari(self.stoklar@, m, o) == stok_miqdari(stok_evvel, m, o)
                            + delta);
                    } else {
                        assert(stok_miqdari(self.stoklar@, m, o) == stok_miqdari(
                            stok_evvel,
                            m,
                            o,
                        ));
                    }
                }
            }
        }
        let setir = SatisSetri {
            id: satis_id,
            satis_nomresi,
            musteri_id: satis.musteri_id,
            toplam_mebleg: toplam,
            endirim: satis.endirim,
            son_mebleg: son,
            odenis_usulu: satis.odenis_usulu,
            qeyd: satis.qeyd,
            tarix,
        };
        self.satislar.push(setir);
        self.novbeti_satis_id = satis_id + 1;
        let son_indeks = self.satislar.len() - 1;
        let gorunus = self.satis_gorunusu(&self.satislar[son_indeks]);
        Ok(gorunus)
    }

    /// Record a sale under a freshly generated document number: the
    /// letter S, a dash, and eight random characters. The generated
    /// number is the one input the caller does not choose, so this
    /// contract states what holds whichever number comes back;
    /// [`Store::satis_yarat_nomre_ile`] gives the exact contract for a
    /// chosen number. For an acceptable request the only possible
    /// failure is a collision of the generated number.
    pub fn satis_yarat(&mut self, satis: CreateSale, tarix: Tarix) -> (r: Result<Sale, Xeta>)
        requires
            old(self).kecerli(),
        ensures
            final(self).kecerli(),
            Store::varliglar_eyni(*final(self), *old(self)),
            final(self).qaytarmalar@ == old(self).qaytarmalar@,
            final(self).qaytarma_elementleri@ == old(self).qaytarma_elementleri@,
            final(self).odemeler@ == old(self).odemeler@,
            r is Err ==> Store::butov_eyni(*final(self), *old(self)),
            r is Err ==> (r == Err::<Sale, Xeta>(Xeta::NomreMovcuddur) || !old(
                self,
            ).satis_qebul_olunur(satis)),
            // a number can only collide with a stored sale, so against a
            // store with no sale an acceptable request must succeed
            r == Err::<Sale, Xeta>(Xeta::NomreMovcuddur) ==> old(self).satislar@.len() > 0,
            (old(self).satis_qebul_olunur(satis) && old(self).satislar@.len() == 0) ==> r is Ok,
            r == Err::<Sale, Xeta>(Xeta::MusteriTapilmadi) ==> (satis.musteri_id matches Some(c)
                && !musteri_movcud(old(self).musteriler@, c as int)),
            r == Err::<Sale, Xeta>(Xeta::MehsulTapilmadi) ==> exists|k: int|
                0 <= k < satis.items@.len() && !mehsul_movcud(
                    old(self).mehsullar@,
                    (#[trigger] satis.items@[k]).mehsul_id as int,
                ),
            r == Err::<Sale, Xeta>(Xeta::OlcuTapilmadi) ==> exists|k: int|
                0 <= k < satis.items@.len() && !olcu_movcud(
                    old(self).olculer@,
                    (#[trigger] satis.items@[k]).olcu_id as int,
                ),
            r == Err::<Sale, Xeta>(Xeta::HeddenArtiq) ==> !(satis_hesabi_sigar(
                satis.items@,
                satis.endirim as int,
            ) && satis_stoku_sigar(old(self).stoklar@, satis.items@) && old(self).satis_yeri_sigar(
                satis.items@.len() as int,
            )),
            r is Ok ==> old(self).satis_qebul_olunur(satis),
            r matches Ok(g) ==> {
                let yeni = final(self).satislar@.last();
                &&& final(self).satislar@ == old(self).satislar@.push(yeni)
                &&& yeni.id == old(self).novbeti_satis_id
                &&& yeni.satis_nomresi@ == g.satis_nomresi@
                &&& g.satis_nomresi@.len() == 10
                &&& g.satis_nomresi@[0] == 'S'
                &&& g.satis_nomresi@[1] == '-'
                &&& (forall|i: int|
                    2 <= i < 10 ==> ('0' <= #[trigger] g.satis_nomresi@[i] <= '9' || 'A'
                        <= g.satis_nomresi@[i] <= 'F'))
                &&& !satis_nomresi_movcud(old(self).satislar@, g.satis_nomresi@)
                &&& yeni.musteri_id == satis.musteri_id
                &&& yeni.toplam_mebleg == satis_cemi(satis.items@, satis.items@.len() as int)
                &&& yeni.endirim == satis.endirim
                &&& yeni.son_mebleg == satis_cemi(satis.items@, satis.items@.len() as int)
                    - satis.endirim
                &&& yeni.odenis_usulu == satis.odenis_usulu
                &&& yeni.qeyd == satis.qeyd
                &&& yeni.tarix == tarix
                &&& final(self).satis_elementleri@ == old(self).satis_elementleri@
                    + satis_elementleri_qur(
                    satis.items@,
                    satis.items@.len() as int,
                    old(self).novbeti_satis_id as int,
                    old(self).novbeti_element_id as int,
                )
                &&& final(self).hereketler@ == old(self).hereketler@ + satis_hereketleri_qur(
                    old(self).stoklar@,
                    satis.items@,
                    satis.items@.len() as int,
                    yeni.satis_nomresi,
                    tarix,
                    old(self).novbeti_hereket_id as int,
                )
                &&& (forall|m: int, o: int|
                    #[trigger] stok_miqdari(final(self).stoklar@, m, o) == satisdan_sonra_stok(
                        old(self).stoklar@,
                        satis.items@,
                        satis.items@.len() as int,
                        m,
                        o,
                    ))
                &&& satis_gorunusu_uygun(old(self).musteriler@, yeni, g)
            },
    {
        let nomre = tesadufi_nomre("S");
        proof {
            reveal_strlit("S");
            assert(nomre@.len() == 10);
            assert(nomre@.subrange(0, 1) == "S"@);
            assert(nomre@[0] == "S"@[0]);
            assert(nomre@[0] == 'S');
            assert(nomre@[1] == '-');
        }
        self.satis_yarat_nomre_ile(nomre, satis, tarix)
    }
}

} // verus!

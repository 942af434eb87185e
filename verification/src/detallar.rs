use vstd::prelude::*;
use crate::model::{
    HereketNovu, HereketQeydi, HereketSetri, KateqoriyaSetri, MehsulSetri, OlcuSetri,
    QaytarmaElementi, SatisElementi,
};
use crate::qaytarma::{iade_gorunusu_uygun, Return, ReturnItem, ReturnWithItems};
use crate::satis::{satis_gorunusu_uygun, Sale, SaleItem, SaleWithItems};
use crate::store::{
    mehsul_indeksi, mehsul_movcud, olcu_indeksi, olcu_movcud, qaytarma_indeksi, qaytarma_movcud,
    satis_indeksi, satis_movcud, Store,
};
use crate::tarix::Tarix;
use crate::xeta::Xeta;

verus! {

/// One audit-trail row of a product's movement history.
#[derive(Clone, PartialEq, Eq, Debug)]
pub struct ProductMovementDetail {
    pub id: i64,
    pub tarix: Tarix,
    pub novu: HereketNovu,
    pub miqdar: i64,
    pub vahid_qiymet: Option<i64>,
    pub toplam_deyeri: Option<i64>,
    pub qeyd: HereketQeydi,
}

/// `g` shows exactly the stored sale line `e`, with display data
/// resolved against the reference tables.
pub open spec fn satis_elementi_gorunusu_uygun(
    mehsullar: Seq<MehsulSetri>,
    olculer: Seq<OlcuSetri>,
    e: SatisElementi,
    g: SaleItem,
) -> bool {
    &&& g.id == e.id
    &&& g.satis_id == e.satis_id
    &&& g.mehsul_id == e.mehsul_id
    &&& g.olcu_id == e.olcu_id
    &&& g.miqdar == e.miqdar
    &&& g.vahid_qiymeti == e.vahid_qiymeti
    &&& g.toplam_qiymet == e.toplam_qiymet
    &&& if mehsul_movcud(mehsullar, e.mehsul_id as int) {
        let p = mehsullar[mehsul_indeksi(mehsullar, e.mehsul_id as int)];
        (g.mehsul_adi matches Some(a) && a@ == p.ad@) && (g.mehsul_barkod matches Some(b) && b@
            == p.barkod@)
    } else {
        g.mehsul_adi is None && g.mehsul_barkod is None
    }
    &&& if olcu_movcud(olculer, e.olcu_id as int) {
        g.olcu matches Some(oa) && oa@ == olculer[olcu_indeksi(olculer, e.olcu_id as int)].olcu@
    } else {
        g.olcu is None
    }
}

/// `g` shows exactly the stored return line `e`.
pub open spec fn iade_elementi_gorunusu_uygun(
    mehsullar: Seq<MehsulSetri>,
    olculer: Seq<OlcuSetri>,
    e: QaytarmaElementi,
    g: ReturnItem,
) -> bool {
    &&& g.id == e.id
    &&& g.iade_id == e.iade_id
    &&& g.mehsul_id == e.mehsul_id
    &&& g.olcu_id == e.olcu_id
    &&& g.miqdar == e.miqdar
    &&& g.vahid_qiymeti == e.vahid_qiymeti
    &&& g.toplam_qiymet == e.toplam_qiymet
    &&& if mehsul_movcud(mehsullar, e.mehsul_id as int) {
        let p = mehsullar[mehsul_indeksi(mehsullar, e.mehsul_id as int)];
        (g.mehsul_adi matches Some(a) && a@ == p.ad@) && (g.mehsul_barkod matches Some(b) && b@
            == p.barkod@)
    } else {
        g.mehsul_adi is None && g.mehsul_barkod is None
    }
    &&& if olcu_movcud(olculer, e.olcu_id as int) {
        g.olcu matches Some(oa) && oa@ == olculer[olcu_indeksi(olculer, e.olcu_id as int)].olcu@
    } else {
        g.olcu is None
    }
}

/// The movement row belongs to the product and falls inside the
/// optional date range.
pub open spec fn hereket_suzgeci(
    h: HereketSetri,
    mehsul_id: int,
    baslangic: Option<Tarix>,
    bitis: Option<Tarix>,
) -> bool {
    &&& h.mehsul_id == mehsul_id
    &&& match baslangic {
        Some(b) => b.evvel_ve_ya_eyni(h.tarix),
        None => true,
    }
    &&& match bitis {
        Some(e) => h.tarix.evvel_ve_ya_eyni(e),
        None => true,
    }
}

impl Store {
    /// Resolve one stored sale line into its caller-facing view.
    fn satis_elementi_gorunusu(&self, e: &SatisElementi) -> (g: SaleItem)
        requires
            self.kecerli(),
        ensures
            satis_elementi_gorunusu_uygun(self.mehsullar@, self.olculer@, *e, g),
    {
        let mut mehsul_adi: Option<String> = None;
        let mut mehsul_barkod: Option<String> = None;
        match self.mehsul_tap(e.mehsul_id) {
            Some(k) => {
                mehsul_adi = Some(self.mehsullar[k].ad.clone());
                mehsul_barkod = Some(self.mehsullar[k].barkod.clone());
            },
            None => {},
        }
        let olcu: Option<String> = match self.olcu_tap(e.olcu_id) {
            Some(k) => Some(self.olculer[k].olcu.clone()),
            None => None,
        };
        SaleItem {
            id: e.id,
            satis_id: e.satis_id,
            mehsul_id: e.mehsul_id,
            mehsul_adi,
            mehsul_barkod,
            olcu_id: e.olcu_id,
            olcu,
            miqdar: e.miqdar,
            vahid_qiymeti: e.vahid_qiymeti,
            toplam_qiymet: e.toplam_qiymet,
        }
    }

    /// Resolve one stored return line into its caller-facing view.
    fn iade_elementi_gorunusu(&self, e: &QaytarmaElementi) -> (g: ReturnItem)
        requires
            self.kecerli(),
        ensures
            iade_elementi_gorunusu_uygun(self.mehsullar@, self.olculer@, *e, g),
    {
        let mut mehsul_adi: Option<String> = None;
        let mut mehsul_barkod: Option<String> = None;
        match self.mehsul_tap(e.mehsul_id) {
            Some(k) => {
                mehsul_adi = Some(self.mehsullar[k].ad.clone());
                mehsul_barkod = Some(self.mehsullar[k].barkod.clone());
            },
            None => {},
        }
        let olcu: Option<String> = match self.olcu_tap(e.olcu_id) {
            Some(k) => Some(self.olculer[k].olcu.clone()),
            None => None,
        };
        ReturnItem {
            id: e.id,
            iade_id: e.iade_id,
            mehsul_id: e.mehsul_id,
            mehsul_adi,
            mehsul_barkod,
            olcu_id: e.olcu_id,
            olcu,
            miqdar: e.miqdar,
            vahid_qiymeti: e.vahid_qiymeti,
            toplam_qiymet: e.toplam_qiymet,
        }
    }

    /// One sale with its lines: the header view and, in recording
    /// order, exactly the sale's line rows with display data resolved.
    #[verifier::loop_isolation(false)]
    pub fn satis_detallari(&self, satis_id: i64) -> (r: Result<SaleWithItems, Xeta>)
        requires
            self.kecerli(),
        ensures
            r is Err <==> !satis_movcud(self.satislar@, satis_id as int),
            r is Err ==> r == Err::<SaleWithItems, Xeta>(Xeta::SatisTapilmadi),
            r matches Ok(g) ==> satis_gorunusu_uygun(
                self.musteriler@,
                self.satislar@[satis_indeksi(self.satislar@, satis_id as int)],
                g.sale,
            ),
            r matches Ok(g) ==> g.items@.len() == self.satis_elementleri@.filter(
                |x: SatisElementi| x.satis_id == satis_id,
            ).len(),
            r matches Ok(g) ==> forall|i: int|
                0 <= i < g.items@.len() ==> satis_elementi_gorunusu_uygun(
                    self.mehsullar@,
                    self.olculer@,
                    self.satis_elementleri@.filter(|x: SatisElementi| x.satis_id == satis_id)[i],
                    #[trigger] g.items@[i],
                ),
    {
        let k = match self.satis_tap(satis_id) {
            Some(k) => k,
            None => {
                return Err(Xeta::SatisTapilmadi);
            },
        };
        let sale: Sale = self.satis_gorunusu(&self.satislar[k]);
        let mut items: Vec<SaleItem> = Vec::new();
        let n = self.satis_elementleri.len();
        let mut i: usize = 0;
        while i < n
            invariant
                n == self.satis_elementleri@.len(),
                0 <= i <= n,
                items@.len() == self.satis_elementleri@.subrange(0, i as int).filter(
                    |x: SatisElementi| x.satis_id == satis_id,
                ).len(),
                forall|j: int|
                    0 <= j < items@.len() ==> satis_elementi_gorunusu_uygun(
                        self.mehsullar@,
                        self.olculer@,
                        self.satis_elementleri@.subrange(0, i as int).filter(
                            |x: SatisElementi| x.satis_id == satis_id,
                        )[j],
                        #[trigger] items@[j],
                    ),
            decreases n - i,
        {
            let ghost evvel = self.satis_elementleri@.subrange(0, i as int);
            let e = &self.satis_elementleri[i];
            let uygundur = e.satis_id == satis_id;
            if uygundur {
                let g = self.satis_elementi_gorunusu(e);
                items.push(g);
            }
            i = i + 1;
            proof {
                let sonra = self.satis_elementleri@.subrange(0, i as int);
                assert(sonra.drop_last() =~= evvel);
                assert(sonra.last() == self.satis_elementleri@[i - 1]);
                reveal_with_fuel(Seq::filter, 2);
                assert(sonra.filter(|x: SatisElementi| x.satis_id == satis_id) == if uygundur {
                    evvel.filter(|x: SatisElementi| x.satis_id == satis_id).push(
                        self.satis_elementleri@[i - 1],
                    )
                } else {
                    evvel.filter(|x: SatisElementi| x.satis_id == satis_id)
                });
            }
        }
        proof {
            assert(self.satis_elementleri@.subrange(0, n as int) =~= self.satis_elementleri@);
        }
        Ok(SaleWithItems { sale, items })
    }

    /// One return with its lines, mirroring [`Store::satis_detallari`].
    #[verifier::loop_isolation(false)]
    pub fn iade_detallari(&self, iade_id: i64) -> (r: Result<ReturnWithItems, Xeta>)
        requires
            self.kecerli(),
        ensures
            r is Err <==> !qaytarma_movcud(self.qaytarmalar@, iade_id as int),
            r is Err ==> r == Err::<ReturnWithItems, Xeta>(Xeta::SatisTapilmadi),
            r matches Ok(g) ==> iade_gorunusu_uygun(
                self.satislar@,
                self.musteriler@,
                self.qaytarmalar@[qaytarma_indeksi(self.qaytarmalar@, iade_id as int)],
                g.iade,
            ),
            r matches Ok(g) ==> g.items@.len() == self.qaytarma_elementleri@.filter(
                |x: QaytarmaElementi| x.iade_id == iade_id,
            ).len(),
            r matches Ok(g) ==> forall|i: int|
                0 <= i < g.items@.len() ==> iade_elementi_gorunusu_uygun(
                    self.mehsullar@,
                    self.olculer@,
                    self.qaytarma_elementleri@.filter(
                        |x: QaytarmaElementi| x.iade_id == iade_id,
                    )[i],
                    #[trigger] g.items@[i],
                ),
    {
        let k = match self.qaytarma_tap(iade_id) {
            Some(k) => k,
            None => {
                return Err(Xeta::SatisTapilmadi);
            },
        };
        let iade: Return = self.iade_gorunusu(&self.qaytarmalar[k]);
        let mut items: Vec<ReturnItem> = Vec::new();
        let n = self.qaytarma_elementleri.len();
        let mut i: usize = 0;
        while i < n
            invariant
                n == self.qaytarma_elementleri@.len(),
                0 <= i <= n,
                items@.len() == self.qaytarma_elementleri@.subrange(0, i as int).filter(
                    |x: QaytarmaElementi| x.iade_id == iade_id,
                ).len(),
                forall|j: int|
                    0 <= j < items@.len() ==> iade_elementi_gorunusu_uygun(
                        self.mehsullar@,
                        self.olculer@,
                        self.qaytarma_elementleri@.subrange(0, i as int).filter(
                            |x: QaytarmaElementi| x.iade_id == iade_id,
                        )[j],
                        #[trigger] items@[j],
                    ),
            decreases n - i,
        {
            let ghost evvel = self.qaytarma_elementleri@.subrange(0, i as int);
            let e = &self.qaytarma_elementleri[i];
            let uygundur = e.iade_id == iade_id;
            if uygundur {
                let g = self.iade_elementi_gorunusu(e);
                items.push(g);
            }
            i = i + 1;
            proof {
                let sonra = self.qaytarma_elementleri@.subrange(0, i as int);
                assert(sonra.drop_last() =~= evvel);
                assert(sonra.last() == self.qaytarma_elementleri@[i - 1]);
                reveal_with_fuel(Seq::filter, 2);
                assert(sonra.filter(|x: QaytarmaElementi| x.iade_id == iade_id) == if uygundur {
                    evvel.filter(|x: QaytarmaElementi| x.iade_id == iade_id).push(
                        self.qaytarma_elementleri@[i - 1],
                    )
                } else {
                    evvel.filter(|x: QaytarmaElementi| x.iade_id == iade_id)
                });
            }
        }
        proof {
            assert(self.qaytarma_elementleri@.subrange(0, n as int) =~= self.qaytarma_elementleri@);
        }
        Ok(ReturnWithItems { iade, items })
    }

    /// Every recorded return, in recording order, with the sale number
    /// and customer display name resolved.
    pub fn iade_siyahisi(&self) -> (r: Vec<Return>)
        requires
            self.kecerli(),
        ensures
            r@.len() == self.qaytarmalar@.len(),
            forall|i: int|
                0 <= i < r@.len() ==> iade_gorunusu_uygun(
                    self.satislar@,
                    self.musteriler@,
                    self.qaytarmalar@[i],
                    #[trigger] r@[i],
                ),
    {
        let mut r: Vec<Return> = Vec::new();
        let mut i: usize = 0;
        while i < self.qaytarmalar.len()
            invariant
                self.kecerli(),
                0 <= i <= self.qaytarmalar@.len(),
                r@.len() == i,
                forall|j: int|
                    0 <= j < i ==> iade_gorunusu_uygun(
                        self.satislar@,
                        self.musteriler@,
                        self.qaytarmalar@[j],
                        #[trigger] r@[j],
                    ),
            decreases self.qaytarmalar@.len() - i,
        {
            let g = self.iade_gorunusu(&self.qaytarmalar[i]);
            r.push(g);
            i = i + 1;
        }
        r
    }

    /// One product's movement history inside the optional date range,
    /// in recording order.
    #[verifier::loop_isolation(false)]
    pub fn mehsul_hereketleri(
        &self,
        mehsul_id: i64,
        baslangic: Option<Tarix>,
        bitis: Option<Tarix>,
    ) -> (r: Vec<ProductMovementDetail>)
        ensures
            r@.len() == self.hereketler@.filter(
                |x: HereketSetri| hereket_suzgeci(x, mehsul_id as int, baslangic, bitis),
            ).len(),
            forall|i: int|
                0 <= i < r@.len() ==> {
                    let h = self.hereketler@.filter(
                        |x: HereketSetri| hereket_suzgeci(x, mehsul_id as int, baslangic, bitis),
                    )[i];
                    &&& (#[trigger] r@[i]).id == h.id
                    &&& r@[i].tarix == h.tarix
                    &&& r@[i].novu == h.novu
                    &&& r@[i].miqdar == h.miqdar
                    &&& r@[i].vahid_qiymet == h.vahid_alis_qiymeti
                    &&& r@[i].toplam_deyeri == h.toplam_deyeri
                    &&& r@[i].qeyd == h.qeyd
                },
    {
        let mut r: Vec<ProductMovementDetail> = Vec::new();
        let n = self.hereketler.len();
        let mut i: usize = 0;
        while i < n
            invariant
                n == self.hereketler@.len(),
                0 <= i <= n,
                r@.len() == self.hereketler@.subrange(0, i as int).filter(
                    |x: HereketSetri| hereket_suzgeci(x, mehsul_id as int, baslangic, bitis),
                ).len(),
                forall|j: int|
                    0 <= j < r@.len() ==> {
                        let h = self.hereketler@.subrange(0, i as int).filter(
                            |x: HereketSetri| hereket_suzgeci(x, mehsul_id as int, baslangic, bitis),
                        )[j];
                        &&& (#[trigger] r@[j]).id == h.id
                        &&& r@[j].tarix == h.tarix
                        &&& r@[j].novu == h.novu
                        &&& r@[j].miqdar == h.miqdar
                        &&& r@[j].vahid_qiymet == h.vahid_alis_qiymeti
                        &&& r@[j].toplam_deyeri == h.toplam_deyeri
                        &&& r@[j].qeyd == h.qeyd
                    },
            decreases n - i,
        {
            let ghost evvel = self.hereketler@.subrange(0, i as int);
            let h = &self.hereketler[i];
            let uygundur = h.mehsul_id == mehsul_id && match &baslangic {
                Some(b) => b.evvel_ve_ya_eynidir(&h.tarix),
                None => true,
            } && match &bitis {
                Some(e) => h.tarix.evvel_ve_ya_eynidir(e),
                None => true,
            };
            if uygundur {
                let qeyd: HereketQeydi = match &h.qeyd {
                    HereketQeydi::SatisCixisi(nomre) => HereketQeydi::SatisCixisi(nomre.clone()),
                    HereketQeydi::QaytarmaGirisi(nomre) => HereketQeydi::QaytarmaGirisi(
                        nomre.clone(),
                    ),
                    HereketQeydi::StokElaveEdildi => HereketQeydi::StokElaveEdildi,
                    HereketQeydi::StokDuzelisi => HereketQeydi::StokDuzelisi,
                    HereketQeydi::StokSilindi => HereketQeydi::StokSilindi,
                };
                r.push(
                    ProductMovementDetail {
                        id: h.id,
                        tarix: h.tarix,
                        novu: h.novu,
                        miqdar: h.miqdar,
                        vahid_qiymet: h.vahid_alis_qiymeti,
                        toplam_deyeri: h.toplam_deyeri,
                        qeyd,
                    },
                );
            }
            i = i + 1;
            proof {
                let sonra = self.hereketler@.subrange(0, i as int);
                assert(sonra.drop_last() =~= evvel);
                assert(sonra.last() == self.hereketler@[i - 1]);
                reveal_with_fuel(Seq::filter, 2);
                assert(sonra.filter(
                    |x: HereketSetri| hereket_suzgeci(x, mehsul_id as int, baslangic, bitis),
                ) == if uygundur {
                    evvel.filter(
                        |x: HereketSetri| hereket_suzgeci(x, mehsul_id as int, baslangic, bitis),
                    ).push(self.hereketler@[i - 1])
                } else {
                    evvel.filter(
                        |x: HereketSetri| hereket_suzgeci(x, mehsul_id as int, baslangic, bitis),
                    )
                });
            }
        }
        proof {
            assert(self.hereketler@.subrange(0, n as int) =~= self.hereketler@);
        }
        r
    }
}

} // verus!

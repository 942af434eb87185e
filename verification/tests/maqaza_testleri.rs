use magaza::{
    CreateCustomer, CreateDebtPayment, CreateProduct, CreateReturn, CreateReturnItem, CreateSale,
    CreateSaleItem, CreateStock, HereketNovu, HereketQeydi, IadeDurumu, OdenisUsulu,
    SalesListFilter, Store, Tarix, UpdateCustomer, UpdateProduct, UpdateStock, Xeta,
};

fn gun(g: i64) -> Tarix {
    Tarix { il: 2024, ay: 3, gun: g }
}

fn mehsul_qur(s: &mut Store, barkod: &str, alis: i64, satis: i64) -> i64 {
    let m = s
        .mehsul_elave_et(
            CreateProduct {
                barkod: barkod.to_string(),
                ad: format!("Mehsul {}", barkod),
                kateqoriya_id: Some(1),
                reng: None,
                marka: None,
                alis_qiymeti: alis,
                satis_qiymeti: satis,
                tesvir: None,
                sekil_yolu: None,
            },
            gun(1),
        )
        .unwrap();
    m.id
}

fn musteri_qur(s: &mut Store, telefon: &str, borc: i64) -> i64 {
    let c = s
        .musteri_elave_et(
            CreateCustomer {
                ad: "Ali".to_string(),
                soyad: "Verdi".to_string(),
                telefon: telefon.to_string(),
                qeyd: None,
                baslangic_borcu: Some(borc),
            },
            gun(1),
        )
        .unwrap();
    c.id
}

fn stok_miqdari(s: &Store, mehsul_id: i64, olcu_id: i64) -> i64 {
    match s.stok_tap(mehsul_id, olcu_id) {
        Some(i) => s.stoklar[i].miqdar,
        None => 0,
    }
}

fn hereket_sayi(s: &Store, mehsul_id: i64, olcu_id: i64) -> usize {
    s.hereketler
        .iter()
        .filter(|h| h.mehsul_id == mehsul_id && h.olcu_id == olcu_id)
        .count()
}

#[test]
fn acilis_toxum_verilenleri() {
    let s = Store::new();
    assert_eq!(s.olculer.len(), 20);
    assert_eq!(s.kateqoriyalar.len(), 5);
    assert_eq!(s.rengler.len(), 10);
    assert_eq!(s.istifadeciler.len(), 1);
    assert_eq!(s.istifadeciler[0].istifadeci_adi, "admin");
    assert!(s.satislar.is_empty());
    assert!(s.stoklar.is_empty());
}

#[test]
fn p1_stok_duzelisleri_cemlenir() {
    let mut s = Store::new();
    let m = mehsul_qur(&mut s, "B1", 7, 12);
    // +5, set to 3 (delta -2), +4: final must be 7, three movements
    s.stok_elave_et(
        CreateStock { mehsul_id: m, olcu_id: 1, miqdar: 5, minimum_miqdar: Some(2) },
        gun(2),
    )
    .unwrap();
    s.stok_yenile(m, 1, UpdateStock { miqdar: 3, minimum_miqdar: Some(2) }, gun(2)).unwrap();
    s.stok_elave_et(
        CreateStock { mehsul_id: m, olcu_id: 1, miqdar: 4, minimum_miqdar: None },
        gun(3),
    )
    .unwrap();
    assert_eq!(stok_miqdari(&s, m, 1), 7);
    assert_eq!(hereket_sayi(&s, m, 1), 3);
    // a no-op update logs nothing
    s.stok_yenile(m, 1, UpdateStock { miqdar: 7, minimum_miqdar: Some(2) }, gun(3)).unwrap();
    assert_eq!(hereket_sayi(&s, m, 1), 3);
}

#[test]
fn p2_satis_cemleri_ve_stok() {
    let mut s = Store::new();
    let m1 = mehsul_qur(&mut s, "B1", 5, 10);
    let m2 = mehsul_qur(&mut s, "B2", 8, 20);
    s.stok_elave_et(
        CreateStock { mehsul_id: m1, olcu_id: 1, miqdar: 10, minimum_miqdar: Some(1) },
        gun(2),
    )
    .unwrap();
    s.stok_elave_et(
        CreateStock { mehsul_id: m2, olcu_id: 2, miqdar: 5, minimum_miqdar: Some(1) },
        gun(2),
    )
    .unwrap();
    let herekt_evvel_1 = hereket_sayi(&s, m1, 1);
    let sale = s
        .satis_yarat(
            CreateSale {
                items: vec![
                    CreateSaleItem { mehsul_id: m1, olcu_id: 1, miqdar: 2, vahid_qiymeti: 10 },
                    CreateSaleItem { mehsul_id: m2, olcu_id: 2, miqdar: 1, vahid_qiymeti: 20 },
                ],
                endirim: 5,
                odenis_usulu: OdenisUsulu::Nagd,
                musteri_id: None,
                qeyd: None,
            },
            gun(3),
        )
        .unwrap();
    assert_eq!(sale.toplam_mebleg, 40);
    assert_eq!(sale.son_mebleg, 35);
    assert_eq!(sale.endirim, 5);
    assert!(sale.satis_nomresi.starts_with("S-"));
    assert_eq!(sale.satis_nomresi.chars().count(), 10);
    assert_eq!(stok_miqdari(&s, m1, 1), 8);
    assert_eq!(stok_miqdari(&s, m2, 2), 4);
    // each line logged as an outgoing movement noting the sale
    assert_eq!(hereket_sayi(&s, m1, 1), herekt_evvel_1 + 1);
    let son = s.hereketler.last().unwrap();
    assert_eq!(son.novu, HereketNovu::Cixis);
    assert!(matches!(&son.qeyd, HereketQeydi::SatisCixisi(n) if *n == sale.satis_nomresi));
    // line rows persisted
    assert_eq!(s.satis_elementleri.len(), 2);
    assert_eq!(s.satis_elementleri[0].toplam_qiymet, 20);
    assert_eq!(s.satis_elementleri[1].toplam_qiymet, 20);
}

#[test]
fn p3_iade_durumu_kecidleri() {
    let mut s = Store::new();
    let m1 = mehsul_qur(&mut s, "B1", 5, 10);
    let m2 = mehsul_qur(&mut s, "B2", 8, 20);
    let sale = s
        .satis_yarat(
            CreateSale {
                items: vec![
                    CreateSaleItem { mehsul_id: m1, olcu_id: 1, miqdar: 2, vahid_qiymeti: 10 },
                    CreateSaleItem { mehsul_id: m2, olcu_id: 2, miqdar: 1, vahid_qiymeti: 20 },
                ],
                endirim: 0,
                odenis_usulu: OdenisUsulu::Nagd,
                musteri_id: None,
                qeyd: None,
            },
            gun(3),
        )
        .unwrap();
    let suzgec = SalesListFilter { baslangic_tarix: None, bitis_tarix: None };
    let siyahi = s.satis_siyahisi_tarixe_gore(suzgec);
    assert_eq!(siyahi.len(), 1);
    assert_eq!(siyahi[0].iade_durumu, IadeDurumu::Yoxdur);
    assert_eq!(siyahi[0].mehsul_sayi, 2);
    // return the full quantity of the first line only: partial
    s.iade_yarat(
        CreateReturn {
            satis_id: sale.id,
            items: vec![CreateReturnItem { mehsul_id: m1, olcu_id: 1, miqdar: 2, vahid_qiymeti: 10 }],
            sebebi: None,
            qeyd: None,
        },
        gun(4),
    )
    .unwrap();
    let siyahi = s.satis_siyahisi_tarixe_gore(suzgec);
    assert_eq!(siyahi[0].iade_durumu, IadeDurumu::Qismen);
    // return the remaining line in full: the whole sale counts as returned
    s.iade_yarat(
        CreateReturn {
            satis_id: sale.id,
            items: vec![CreateReturnItem { mehsul_id: m2, olcu_id: 2, miqdar: 1, vahid_qiymeti: 20 }],
            sebebi: None,
            qeyd: None,
        },
        gun(4),
    )
    .unwrap();
    let siyahi = s.satis_siyahisi_tarixe_gore(suzgec);
    assert_eq!(siyahi[0].iade_durumu, IadeDurumu::Tam);
}

#[test]
fn p4_tekrar_iade_konflikti() {
    let mut s = Store::new();
    let m1 = mehsul_qur(&mut s, "B1", 5, 10);
    let sale = s
        .satis_yarat(
            CreateSale {
                items: vec![CreateSaleItem { mehsul_id: m1, olcu_id: 1, miqdar: 2, vahid_qiymeti: 10 }],
                endirim: 0,
                odenis_usulu: OdenisUsulu::Nagd,
                musteri_id: None,
                qeyd: None,
            },
            gun(3),
        )
        .unwrap();
    s.iade_yarat(
        CreateReturn {
            satis_id: sale.id,
            items: vec![CreateReturnItem { mehsul_id: m1, olcu_id: 1, miqdar: 1, vahid_qiymeti: 10 }],
            sebebi: None,
            qeyd: None,
        },
        gun(4),
    )
    .unwrap();
    let q_evvel = s.qaytarmalar.len();
    let qe_evvel = s.qaytarma_elementleri.len();
    let h_evvel = s.hereketler.len();
    let stok_evvel = stok_miqdari(&s, m1, 1);
    let r = s.iade_yarat(
        CreateReturn {
            satis_id: sale.id,
            items: vec![CreateReturnItem { mehsul_id: m1, olcu_id: 1, miqdar: 1, vahid_qiymeti: 10 }],
            sebebi: None,
            qeyd: None,
        },
        gun(5),
    );
    assert!(matches!(
        r,
        Err(Xeta::ArtiqQaytarilib { mehsul_id, olcu_id }) if mehsul_id == m1 && olcu_id == 1
    ));
    // no trace: nothing inserted, stock untouched
    assert_eq!(s.qaytarmalar.len(), q_evvel);
    assert_eq!(s.qaytarma_elementleri.len(), qe_evvel);
    assert_eq!(s.hereketler.len(), h_evvel);
    assert_eq!(stok_miqdari(&s, m1, 1), stok_evvel);
}

#[test]
fn p5_borc_hesabi() {
    let mut s = Store::new();
    let m1 = mehsul_qur(&mut s, "B1", 5, 10);
    let c = musteri_qur(&mut s, "055-000-00-01", 100);
    // an on-credit sale of net 50
    s.satis_yarat(
        CreateSale {
            items: vec![CreateSaleItem { mehsul_id: m1, olcu_id: 1, miqdar: 5, vahid_qiymeti: 11 }],
            endirim: 5,
            odenis_usulu: OdenisUsulu::Nisye,
            musteri_id: Some(c),
            qeyd: None,
        },
        gun(3),
    )
    .unwrap();
    // a payment of 30: 100 + 50 - 30 = 120
    s.borc_odeme_yarat(
        CreateDebtPayment { musteri_id: c, mebleg: 30, odenis_usulu: OdenisUsulu::Nagd, qeyd: None },
        gun(4),
    )
    .unwrap();
    assert_eq!(s.musteri_nisye_borclari(c).unwrap(), 120);
    // a further payment of 200 overpays: the outstanding view clamps at zero
    s.borc_odeme_yarat(
        CreateDebtPayment { musteri_id: c, mebleg: 200, odenis_usulu: OdenisUsulu::Nagd, qeyd: None },
        gun(5),
    )
    .unwrap();
    assert_eq!(s.musteri_nisye_borclari(c).unwrap(), 0);
}

#[test]
fn p6_yarimciq_emeliyyat_iz_qoymur() {
    let mut s = Store::new();
    let m1 = mehsul_qur(&mut s, "B1", 5, 10);
    s.stok_elave_et(
        CreateStock { mehsul_id: m1, olcu_id: 1, miqdar: 10, minimum_miqdar: Some(1) },
        gun(2),
    )
    .unwrap();
    let satis_evvel = s.satislar.len();
    let el_evvel = s.satis_elementleri.len();
    let h_evvel = s.hereketler.len();
    let stok_evvel = stok_miqdari(&s, m1, 1);
    // the second line names a product that does not exist: the whole
    // sale must leave no trace
    let r = s.satis_yarat(
        CreateSale {
            items: vec![
                CreateSaleItem { mehsul_id: m1, olcu_id: 1, miqdar: 2, vahid_qiymeti: 10 },
                CreateSaleItem { mehsul_id: 9999, olcu_id: 1, miqdar: 1, vahid_qiymeti: 10 },
            ],
            endirim: 0,
            odenis_usulu: OdenisUsulu::Nagd,
            musteri_id: None,
            qeyd: None,
        },
        gun(3),
    );
    assert_eq!(r.unwrap_err(), Xeta::MehsulTapilmadi);
    assert_eq!(s.satislar.len(), satis_evvel);
    assert_eq!(s.satis_elementleri.len(), el_evvel);
    assert_eq!(s.hereketler.len(), h_evvel);
    assert_eq!(stok_miqdari(&s, m1, 1), stok_evvel);
}

#[test]
fn nomre_toqqusmasi_ve_secilmis_nomre() {
    let mut s = Store::new();
    let m1 = mehsul_qur(&mut s, "B1", 5, 10);
    let sorgu = || CreateSale {
        items: vec![CreateSaleItem { mehsul_id: m1, olcu_id: 1, miqdar: 1, vahid_qiymeti: 10 }],
        endirim: 0,
        odenis_usulu: OdenisUsulu::Nagd,
        musteri_id: None,
        qeyd: None,
    };
    let a = s.satis_yarat_nomre_ile("S-TEST0001".to_string(), sorgu(), gun(3)).unwrap();
    assert_eq!(a.satis_nomresi, "S-TEST0001");
    let b = s.satis_yarat_nomre_ile("S-TEST0001".to_string(), sorgu(), gun(3));
    assert_eq!(b.unwrap_err(), Xeta::NomreMovcuddur);
}

#[test]
fn iade_nisye_borcu_azaldir() {
    let mut s = Store::new();
    let m1 = mehsul_qur(&mut s, "B1", 5, 10);
    let c = musteri_qur(&mut s, "055-000-00-02", 0);
    let sale = s
        .satis_yarat(
            CreateSale {
                items: vec![CreateSaleItem { mehsul_id: m1, olcu_id: 1, miqdar: 2, vahid_qiymeti: 10 }],
                endirim: 0,
                odenis_usulu: OdenisUsulu::Nisye,
                musteri_id: Some(c),
                qeyd: None,
            },
            gun(3),
        )
        .unwrap();
    assert_eq!(s.musteri_nisye_borclari(c).unwrap(), 20);
    assert_eq!(sale.musteri_adi.as_deref(), Some("Ali Verdi"));
    let iade = s
        .iade_yarat(
            CreateReturn {
                satis_id: sale.id,
                items: vec![CreateReturnItem { mehsul_id: m1, olcu_id: 1, miqdar: 2, vahid_qiymeti: 10 }],
                sebebi: Some("qusur".to_string()),
                qeyd: None,
            },
            gun(4),
        )
        .unwrap();
    assert!(iade.iade_nomresi.starts_with("I-"));
    assert_eq!(iade.toplam_mebleg, 20);
    // the compensating payment wiped the debt and is tagged as a return credit
    assert_eq!(s.musteri_nisye_borclari(c).unwrap(), 0);
    assert_eq!(s.odemeler.last().unwrap().odenis_usulu, OdenisUsulu::GeriQaytarma);
    // stock came back
    assert_eq!(stok_miqdari(&s, m1, 1), 0);
}

#[test]
fn xeta_variantlari() {
    let mut s = Store::new();
    let m1 = mehsul_qur(&mut s, "B1", 5, 10);
    let c = musteri_qur(&mut s, "055-1", 0);
    // duplicate phone
    let r = s.musteri_elave_et(
        CreateCustomer {
            ad: "X".to_string(),
            soyad: "Y".to_string(),
            telefon: "055-1".to_string(),
            qeyd: None,
            baslangic_borcu: None,
        },
        gun(1),
    );
    assert_eq!(r.unwrap_err(), Xeta::TelefonMovcuddur);
    // duplicate barcode
    let r = s.mehsul_elave_et(
        CreateProduct {
            barkod: "B1".to_string(),
            ad: "Z".to_string(),
            kateqoriya_id: None,
            reng: None,
            marka: None,
            alis_qiymeti: 1,
            satis_qiymeti: 2,
            tesvir: None,
            sekil_yolu: None,
        },
        gun(1),
    );
    assert_eq!(r.unwrap_err(), Xeta::BarkodMovcuddur);
    // unknown size on a stock write
    let r = s.stok_elave_et(
        CreateStock { mehsul_id: m1, olcu_id: 999, miqdar: 1, minimum_miqdar: None },
        gun(1),
    );
    assert_eq!(r.unwrap_err(), Xeta::OlcuTapilmadi);
    // unknown customer on a payment
    let r = s.borc_odeme_yarat(
        CreateDebtPayment { musteri_id: 777, mebleg: 1, odenis_usulu: OdenisUsulu::Nagd, qeyd: None },
        gun(1),
    );
    assert_eq!(r.unwrap_err(), Xeta::MusteriTapilmadi);
    // unknown sale on a return
    let r = s.iade_yarat(
        CreateReturn { satis_id: 424242, items: vec![], sebebi: None, qeyd: None },
        gun(1),
    );
    assert_eq!(r.unwrap_err(), Xeta::SatisTapilmadi);
    // unknown customer on a sale
    let r = s.satis_yarat(
        CreateSale {
            items: vec![],
            endirim: 0,
            odenis_usulu: OdenisUsulu::Nagd,
            musteri_id: Some(31337),
            qeyd: None,
        },
        gun(1),
    );
    assert_eq!(r.unwrap_err(), Xeta::MusteriTapilmadi);
    // arithmetic that cannot fit is rejected whole
    let boyuk = mehsul_qur(&mut s, "B9", i64::MAX, 1);
    let r = s.stok_elave_et(
        CreateStock { mehsul_id: boyuk, olcu_id: 1, miqdar: 2, minimum_miqdar: None },
        gun(1),
    );
    assert_eq!(r.unwrap_err(), Xeta::HeddenArtiq);
    let _ = c;
}

#[test]
fn stok_sil_ve_hereket() {
    let mut s = Store::new();
    let m1 = mehsul_qur(&mut s, "B1", 5, 10);
    s.stok_elave_et(
        CreateStock { mehsul_id: m1, olcu_id: 1, miqdar: 4, minimum_miqdar: Some(1) },
        gun(2),
    )
    .unwrap();
    s.stok_sil(m1, 1, gun(3)).unwrap();
    assert!(s.stok_tap(m1, 1).is_none());
    let son = s.hereketler.last().unwrap();
    assert_eq!(son.novu, HereketNovu::Cixis);
    assert_eq!(son.miqdar, 4);
    assert!(matches!(son.qeyd, HereketQeydi::StokSilindi));
}

#[test]
fn az_stok_hesabati_siralidir() {
    let mut s = Store::new();
    let m1 = mehsul_qur(&mut s, "B1", 5, 10);
    let m2 = mehsul_qur(&mut s, "B2", 5, 10);
    let m3 = mehsul_qur(&mut s, "B3", 5, 10);
    s.stok_elave_et(CreateStock { mehsul_id: m1, olcu_id: 1, miqdar: 5, minimum_miqdar: Some(5) }, gun(2)).unwrap();
    s.stok_elave_et(CreateStock { mehsul_id: m2, olcu_id: 1, miqdar: 0, minimum_miqdar: Some(5) }, gun(2)).unwrap();
    s.stok_elave_et(CreateStock { mehsul_id: m3, olcu_id: 1, miqdar: 1, minimum_miqdar: Some(5) }, gun(2)).unwrap();
    // a well-stocked row stays out of the report
    let m4 = mehsul_qur(&mut s, "B4", 5, 10);
    s.stok_elave_et(CreateStock { mehsul_id: m4, olcu_id: 1, miqdar: 50, minimum_miqdar: Some(5) }, gun(2)).unwrap();
    let alert = s.stok_hesabati();
    assert_eq!(alert.len(), 3);
    assert_eq!(alert[0].miqdar, 0);
    assert_eq!(alert[1].miqdar, 1);
    assert_eq!(alert[2].miqdar, 5);
    assert_eq!(alert[0].mehsul_id, m2);
    assert_eq!(alert[0].mehsul_adi, "Mehsul B2");
}

#[test]
fn gunluk_ve_ayliq_hesabatlar() {
    let mut s = Store::new();
    let m1 = mehsul_qur(&mut s, "B1", 5, 10);
    let sorgu = |qiymet: i64, endirim: i64| CreateSale {
        items: vec![CreateSaleItem { mehsul_id: m1, olcu_id: 1, miqdar: 1, vahid_qiymeti: qiymet }],
        endirim,
        odenis_usulu: OdenisUsulu::Nagd,
        musteri_id: None,
        qeyd: None,
    };
    s.satis_yarat(sorgu(100, 10), gun(5)).unwrap();
    s.satis_yarat(sorgu(50, 0), gun(5)).unwrap();
    s.satis_yarat(sorgu(70, 5), gun(6)).unwrap();
    let g = s.gunluk_satis_hesabati(gun(5)).unwrap();
    assert_eq!(g.satis_sayi, 2);
    assert_eq!(g.toplam_mebleg, 150);
    assert_eq!(g.endirim, 10);
    assert_eq!(g.net_mebleg, 140);
    // a day with no sales is zero-filled, not an error
    let bos = s.gunluk_satis_hesabati(gun(20)).unwrap();
    assert_eq!(bos.satis_sayi, 0);
    assert_eq!(bos.toplam_mebleg, 0);
    let a = s.ayliq_satis_hesabati(2024, 3).unwrap();
    assert_eq!(a.satis_sayi, 3);
    assert_eq!(a.toplam_mebleg, 220);
    assert_eq!(a.endirim, 15);
    assert_eq!(a.net_mebleg, 205);
    let bos_ay = s.ayliq_satis_hesabati(2023, 1).unwrap();
    assert_eq!(bos_ay.satis_sayi, 0);
}

#[test]
fn yenilemeler_secilmis_saheleri_deyisir() {
    let mut s = Store::new();
    let m1 = mehsul_qur(&mut s, "B1", 5, 10);
    let g = s
        .mehsul_yenile(
            m1,
            UpdateProduct {
                barkod: None,
                ad: Some("Yeni Ad".to_string()),
                kateqoriya_id: None,
                reng: None,
                marka: None,
                alis_qiymeti: Some(6),
                satis_qiymeti: None,
                tesvir: None,
                sekil_yolu: None,
            },
        )
        .unwrap();
    assert_eq!(g.ad, "Yeni Ad");
    assert_eq!(g.barkod, "B1");
    assert_eq!(g.alis_qiymeti, 6);
    assert_eq!(g.satis_qiymeti, 10);
    let tapilan = s.mehsul_barkod_ile_axtar(&"B1".to_string()).unwrap();
    assert_eq!(tapilan.ad, "Yeni Ad");
    let c = musteri_qur(&mut s, "055-7", 3);
    let g = s
        .musteri_yenile(
            c,
            UpdateCustomer {
                ad: None,
                soyad: Some("Quliyev".to_string()),
                telefon: None,
                qeyd: None,
            },
        )
        .unwrap();
    assert_eq!(g.ad, "Ali");
    assert_eq!(g.soyad, "Quliyev");
    assert_eq!(g.telefon, "055-7");
    assert_eq!(g.baslangic_borcu, 3);
}

#[test]
fn bugun_kecerli_tarix_verir() {
    let t = magaza::bugun();
    assert!(t.ay >= 1 && t.ay <= 12);
    assert!(t.gun >= 1 && t.gun <= 31);
}

#[test]
fn stok_deyeri_hesabati_cemleri() {
    let mut s = Store::new();
    let m1 = mehsul_qur(&mut s, "B1", 5, 10);
    let m2 = mehsul_qur(&mut s, "B2", 3, 4);
    s.stok_elave_et(CreateStock { mehsul_id: m1, olcu_id: 1, miqdar: 2, minimum_miqdar: None }, gun(2)).unwrap();
    s.stok_elave_et(CreateStock { mehsul_id: m1, olcu_id: 2, miqdar: 1, minimum_miqdar: None }, gun(2)).unwrap();
    s.stok_elave_et(CreateStock { mehsul_id: m2, olcu_id: 1, miqdar: 4, minimum_miqdar: None }, gun(2)).unwrap();
    let g = s.stok_deyeri_hesabati().unwrap();
    assert_eq!(g.toplam_mehsul, 2);
    assert_eq!(g.toplam_stok, 7);
    // 3*5 + 4*3 = 27 at purchase, 3*10 + 4*4 = 46 at sale
    assert_eq!(g.alis_deyeri, 27);
    assert_eq!(g.satis_deyeri, 46);
    assert_eq!(g.potensial_qazanc, 19);
    // an empty store reports zeroes
    let bos = Store::new().stok_deyeri_hesabati().unwrap();
    assert_eq!(bos.toplam_mehsul, 0);
    assert_eq!(bos.alis_deyeri, 0);
}

#[test]
fn qazanc_hesabati_iadeli() {
    let mut s = Store::new();
    let m1 = mehsul_qur(&mut s, "B1", 5, 10);
    let sale = s
        .satis_yarat(
            CreateSale {
                items: vec![CreateSaleItem { mehsul_id: m1, olcu_id: 1, miqdar: 3, vahid_qiymeti: 10 }],
                endirim: 4,
                odenis_usulu: OdenisUsulu::Nagd,
                musteri_id: None,
                qeyd: None,
            },
            gun(5),
        )
        .unwrap();
    s.iade_yarat(
        CreateReturn {
            satis_id: sale.id,
            items: vec![CreateReturnItem { mehsul_id: m1, olcu_id: 1, miqdar: 1, vahid_qiymeti: 10 }],
            sebebi: None,
            qeyd: None,
        },
        gun(6),
    )
    .unwrap();
    let g = s.qazanc_hesabati(gun(1), gun(28)).unwrap();
    assert_eq!(g.items.len(), 1);
    // 3 sold, 1 returned: net 2, cost 2*5, revenue 30-10
    assert_eq!(g.items[0].miqdar, 2);
    assert_eq!(g.items[0].toplam_alis, 10);
    assert_eq!(g.items[0].toplam_satis, 20);
    assert_eq!(g.items[0].qazanc, 10);
    assert_eq!(g.items[0].satis_qiymeti, 10);
    assert_eq!(g.toplam_qazanc, 10);
    assert_eq!(g.toplam_endirim, 4);
    assert_eq!(g.net_qazanc, 6);
    // fully returned pairs are omitted
    let m2 = mehsul_qur(&mut s, "B2", 1, 2);
    let sale2 = s
        .satis_yarat(
            CreateSale {
                items: vec![CreateSaleItem { mehsul_id: m2, olcu_id: 1, miqdar: 1, vahid_qiymeti: 2 }],
                endirim: 0,
                odenis_usulu: OdenisUsulu::Nagd,
                musteri_id: None,
                qeyd: None,
            },
            gun(7),
        )
        .unwrap();
    s.iade_yarat(
        CreateReturn {
            satis_id: sale2.id,
            items: vec![CreateReturnItem { mehsul_id: m2, olcu_id: 1, miqdar: 1, vahid_qiymeti: 2 }],
            sebebi: None,
            qeyd: None,
        },
        gun(7),
    )
    .unwrap();
    let g2 = s.qazanc_hesabati(gun(1), gun(28)).unwrap();
    assert_eq!(g2.items.len(), 1);
    assert_eq!(g2.items[0].mehsul_id, m1);
}

#[test]
fn mehsul_statistikasi_cemleri() {
    let mut s = Store::new();
    let m1 = mehsul_qur(&mut s, "B1", 5, 10);
    s.stok_elave_et(CreateStock { mehsul_id: m1, olcu_id: 1, miqdar: 4, minimum_miqdar: None }, gun(2)).unwrap();
    s.satis_yarat(
        CreateSale {
            items: vec![CreateSaleItem { mehsul_id: m1, olcu_id: 1, miqdar: 3, vahid_qiymeti: 10 }],
            endirim: 0,
            odenis_usulu: OdenisUsulu::Nagd,
            musteri_id: None,
            qeyd: None,
        },
        gun(5),
    )
    .unwrap();
    let g = s.mehsul_statistikasi(None, gun(1), gun(28)).unwrap();
    assert_eq!(g.items.len(), 1);
    assert_eq!(g.items[0].toplam_alis_miqdar, 4);
    assert_eq!(g.items[0].toplam_alis_deyeri, 20);
    assert_eq!(g.items[0].toplam_satis_miqdar, 3);
    assert_eq!(g.items[0].toplam_satis_deyeri, 30);
    // profit 30 - 3*5 = 15, per unit 5
    assert_eq!(g.items[0].toplam_qazanc, 15);
    assert_eq!(g.items[0].ortalama_qazanc_vahid, 5);
    assert_eq!(g.items[0].hazirki_stok, 1);
    assert_eq!(g.umumi_qazanc, 15);
    // 15 * 100 / 20 = 75 percent
    assert_eq!(g.ortalama_qazanc_faizi, 75);
    // a category filter that matches nothing empties the report
    let bos = s.mehsul_statistikasi(Some(999), gun(1), gun(28)).unwrap();
    assert_eq!(bos.items.len(), 0);
}

#[test]
fn detallar_ve_siyahilar() {
    let mut s = Store::new();
    let m1 = mehsul_qur(&mut s, "B1", 5, 10);
    let sale = s
        .satis_yarat(
            CreateSale {
                items: vec![CreateSaleItem { mehsul_id: m1, olcu_id: 1, miqdar: 2, vahid_qiymeti: 10 }],
                endirim: 0,
                odenis_usulu: OdenisUsulu::Nagd,
                musteri_id: None,
                qeyd: None,
            },
            gun(3),
        )
        .unwrap();
    let d = s.satis_detallari(sale.id).unwrap();
    assert_eq!(d.sale.id, sale.id);
    assert_eq!(d.items.len(), 1);
    assert_eq!(d.items[0].miqdar, 2);
    assert_eq!(d.items[0].toplam_qiymet, 20);
    assert_eq!(d.items[0].mehsul_adi.as_deref(), Some("Mehsul B1"));
    assert_eq!(d.items[0].olcu.as_deref(), Some("XS"));
    assert_eq!(s.satis_detallari(777).unwrap_err(), Xeta::SatisTapilmadi);
    let iade = s
        .iade_yarat(
            CreateReturn {
                satis_id: sale.id,
                items: vec![CreateReturnItem { mehsul_id: m1, olcu_id: 1, miqdar: 1, vahid_qiymeti: 10 }],
                sebebi: None,
                qeyd: None,
            },
            gun(4),
        )
        .unwrap();
    let di = s.iade_detallari(iade.id).unwrap();
    assert_eq!(di.iade.id, iade.id);
    assert_eq!(di.items.len(), 1);
    assert_eq!(di.iade.satis_nomresi.as_deref(), Some(sale.satis_nomresi.as_str()));
    let siyahi = s.iade_siyahisi();
    assert_eq!(siyahi.len(), 1);
    assert_eq!(siyahi[0].id, iade.id);
    // the product's movements: stock out for the sale, back in for the return
    let herekler = s.mehsul_hereketleri(m1, None, None);
    assert_eq!(herekler.len(), 2);
    assert_eq!(herekler[0].novu, HereketNovu::Cixis);
    assert_eq!(herekler[1].novu, HereketNovu::DaxilOlma);
    let bos = s.mehsul_hereketleri(m1, Some(gun(10)), None);
    assert_eq!(bos.len(), 0);
}

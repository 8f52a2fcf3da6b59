use bogahost_native::bildirim::{
    besleme_basligi, besleme_isle, bildirim_basligi, ozet_metni, rozet, BeslemeKaydi,
};
use bogahost_native::kabuk::{
    belge_adimi, boyut_uygun, devam_taze, durum_kaydedilir, gecis_hedefi, guncelleme_mesaji, konum_uygun,
    kurulum_sorusu, menu_eylemi, sahne_sonu, BelgeAdimi, KurulumSonucu, MenuEylemi,
};

fn kayit(key: &str, yas: Option<i64>) -> BeslemeKaydi {
    BeslemeKaydi { key: key.into(), title: None, body: None, url: None, age_s: yas }
}

#[test]
fn besleme_tekrarlari_ve_bos_anahtarlari_atlar() {
    let items = vec![kayit("a", None), kayit(" ", None), kayit("b", None), kayit("a", None), kayit("c", None)];
    let s = besleme_isle(&items, vec!["c".to_string()], false).unwrap();
    assert_eq!(s.gorulen, vec!["c", "a", "b"]);
    assert_eq!(s.ozet, None);
    assert_eq!(s.gosterilecek, vec![0, 2]);
    assert!(besleme_isle(&[], vec![], true).is_none());
}

#[test]
fn ilk_calismada_eski_kayit_duyurulmaz_ama_hatirlanir() {
    let items = vec![kayit("eski", Some(500)), kayit("yeni", Some(30)), kayit("yassiz", None)];
    let s = besleme_isle(&items, vec![], true).unwrap();
    assert_eq!(s.gorulen, vec!["eski", "yeni", "yassiz"]);
    assert_eq!(s.gosterilecek, vec![1, 2]);
    let s = besleme_isle(&items, vec![], false).unwrap();
    assert_eq!(s.gosterilecek, vec![0, 1, 2]);
}

#[test]
fn cok_birikince_ozet_ve_son_dort() {
    let items: Vec<BeslemeKaydi> = (0..7).map(|i| kayit(&format!("k{i}"), None)).collect();
    let s = besleme_isle(&items, vec![], false).unwrap();
    assert_eq!(s.ozet, Some(7));
    assert_eq!(s.gosterilecek, vec![3, 4, 5, 6]);
    assert_eq!(ozet_metni(7), "7 yeni bildirim var.");
}

#[test]
fn gorulen_halkasi_uc_yuzu_asmaz() {
    let eski: Vec<String> = (0..300).map(|i| format!("e{i}")).collect();
    let s = besleme_isle(&[kayit("x", None), kayit("y", None)], eski, false).unwrap();
    assert_eq!(s.gorulen.len(), 300);
    assert_eq!(s.gorulen[0], "e2");
    assert_eq!(s.gorulen[299], "y");
}

#[test]
fn basliklar_ve_rozet() {
    assert_eq!(bildirim_basligi(None), "Bogahost Görevler");
    assert_eq!(bildirim_basligi(Some("  ".into())), "Bogahost Görevler");
    assert_eq!(bildirim_basligi(Some(" Yeni ".into())), " Yeni ");
    assert_eq!(besleme_basligi(&Some(" Yeni ".into())), "Yeni");
    assert_eq!(besleme_basligi(&None), "Bogahost Görevler");
    assert_eq!(rozet(Some(3)), Some(3));
    assert_eq!(rozet(Some(0)), None);
    assert_eq!(rozet(None), None);
}

#[test]
fn menu_ogeleri() {
    assert_eq!(menu_eylemi("show"), MenuEylemi::Goster);
    assert_eq!(menu_eylemi("view-zoom-reset"), MenuEylemi::YakinlikSifirla);
    assert_eq!(menu_eylemi("version-info"), MenuEylemi::Hicbiri);
    assert_eq!(menu_eylemi("app:finans"), MenuEylemi::UygulamayaGec("finans".into()));
    assert_eq!(menu_eylemi("bilinmeyen"), MenuEylemi::Hicbiri);
}

#[test]
fn uygulama_gecisi() {
    assert_eq!(gecis_hedefi("chat", "task"), Some(("Chat", "https://chat.bogahost.com/admin")));
    assert_eq!(gecis_hedefi("task", "task"), None);
    assert_eq!(gecis_hedefi("yok", "task"), None);
}

#[test]
fn devam_adresi_ve_guncelleme_mesaji() {
    assert!(devam_taze(1000, 1000));
    assert!(devam_taze(21600, 0));
    assert!(!devam_taze(21601, 0));
    assert!(devam_taze(5, 10));
    assert_eq!(
        guncelleme_mesaji("1.3.0", "1.2.0", None),
        "Yeni sürüm 1.3.0 yayınlandı (yüklü: 1.2.0). Tepsi menüsünden \"İndirme sayfasını aç\"."
    );
    assert_eq!(
        guncelleme_mesaji("1.3.0", "1.2.0", Some("Hata düzeltmeleri.".into())),
        "Yeni sürüm 1.3.0 yayınlandı (yüklü: 1.2.0). Hata düzeltmeleri."
    );
}

#[test]
fn pencere_durumu_kararlari() {
    assert!(boyut_uygun(400, 300));
    assert!(!boyut_uygun(399, 800));
    assert!(konum_uygun(-19999, 19999));
    assert!(!konum_uygun(20000, 0));
    assert!(durum_kaydedilir(true, Some(0)));
    assert!(durum_kaydedilir(false, None));
    assert!(!durum_kaydedilir(false, Some(1_999_999_999)));
    assert!(durum_kaydedilir(false, Some(2_000_000_000)));
}

#[test]
fn belge_korumasi() {
    assert_eq!(belge_adimi(true, true, 1), BelgeAdimi::PaneleDon);
    assert_eq!(belge_adimi(false, true, 1), BelgeAdimi::Birak);
    assert_eq!(belge_adimi(false, false, 3), BelgeAdimi::TekrarBak);
    assert_eq!(belge_adimi(false, false, 12), BelgeAdimi::Birak);
}

#[test]
fn guncelleme_sahnesi() {
    let r = sahne_sonu(KurulumSonucu::IndirmeHatasi, "1.9.0", false);
    assert!(!r.bekliyor && r.bildirim.is_none());
    let r = sahne_sonu(KurulumSonucu::Kuruldu, "1.9.0", true);
    assert!(r.yeniden_baslat && r.bildirim.is_none());
    assert!(!r.bekliyor && !r.elle);
    let r = sahne_sonu(KurulumSonucu::Kuruldu, "1.9.0", false);
    assert_eq!(
        r.bildirim,
        Some(("Güncelleme hazır".to_string(), "Sürüm 1.9.0 kuruldu. Uygun olduğunuzda \"Şimdi uygula\" deyin.".to_string()))
    );
    let r = sahne_sonu(KurulumSonucu::KurulumHatasi, "1.9.0", true);
    assert!(r.elle && r.bekliyor && !r.yeniden_baslat);
    assert_eq!(r.bildirim.unwrap().0, "Güncelleme mevcut");
    let r = sahne_sonu(KurulumSonucu::Indirildi, "2.0.0", false);
    assert_eq!(r.bildirim.unwrap().1, "Sürüm 2.0.0 indirildi. Uygun olduğunuzda \"Şimdi uygula\" deyin.");
}

#[test]
fn kurulum_sorusu_notlarla() {
    assert_eq!(
        kurulum_sorusu("1.2.0", "1.1.0", &None),
        "Yeni sürüm 1.2.0 hazır (yüklü: 1.1.0). Şimdi kurulsun mu?"
    );
    assert_eq!(
        kurulum_sorusu("1.2.0", "1.1.0", &Some("  Düzeltmeler \n".into())),
        "Yeni sürüm 1.2.0 hazır (yüklü: 1.1.0). Şimdi kurulsun mu?\n\nDüzeltmeler"
    );
    assert_eq!(
        kurulum_sorusu("1.2.0", "1.1.0", &Some("   ".into())),
        "Yeni sürüm 1.2.0 hazır (yüklü: 1.1.0). Şimdi kurulsun mu?"
    );
}

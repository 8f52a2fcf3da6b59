use bogahost_native::alan::{Uygun, PAROLA_ROLU};
use bogahost_native::doldurma::{
    alan_engeli, alinamadi, az_once_dolduruldu, az_once_dolduruldu_gecen, bilgisayar_adi, doldur_denetimi, dolduruldu_bildirimi,
    dolduruldu_isaretle, eklentiye_iletildi, kisayol_alan_notu, kisayol_karari, panel_on_karari,
    panel_son_karari, pano_temizlenir, parola_yazilabilir, yazma_hatasi_notu, yazma_sonucu, DoldurYolu,
    KisayolKarari, PanelEylemi,
};
use bogahost_native::kasa::Kayit;
use bogahost_native::pencere::Hedef;
use std::time::Instant;

fn kayit(id: i64, label: &str, url: Option<&str>) -> Kayit {
    Kayit { id, label: label.into(), url: url.map(str::to_string), ..Default::default() }
}

fn hedef(program: &str, tarayici: bool, url: Option<&str>) -> Hedef {
    Hedef {
        baslik: program.into(),
        program: program.into(),
        kimlik: program.into(),
        tarayici,
        url: url.map(str::to_string),
    }
}

#[test]
fn doldurma_denetimleri_sirayla() {
    let kayitlar = vec![kayit(1, "Sunucu", Some("https://a.com/giris"))];
    let h = hedef("Terminal", false, None);
    let e = doldur_denetimi(false, &h, 1, &kayitlar, true).unwrap_err();
    assert!(!e.tamam && e.mesaj.starts_with("macOS Erişilebilirlik izni gerekiyor"));
    let e = doldur_denetimi(true, &hedef("", false, None), 1, &kayitlar, true).unwrap_err();
    assert!(e.mesaj.starts_with("Hedef pencere seçilmedi."));
    assert_eq!(doldur_denetimi(true, &h, 1, &kayitlar, false), Ok(DoldurYolu::Yaz));

    let yanlis = hedef("Google Chrome", true, Some("https://a.com/panel"));
    let e = doldur_denetimi(true, &yanlis, 1, &kayitlar, true).unwrap_err();
    assert_eq!(e.mesaj, "\"Sunucu\" bu adrese ait değil (https://a.com/panel). Parola yazılmadı.");

    let dogru = hedef("Google Chrome", true, Some("https://a.com/giris?x=1"));
    assert_eq!(
        doldur_denetimi(true, &dogru, 1, &kayitlar, true),
        Ok(DoldurYolu::EklentiyeIlet("https://a.com/giris?x=1".into()))
    );
    let e = doldur_denetimi(true, &dogru, 1, &kayitlar, false).unwrap_err();
    assert!(e.mesaj.starts_with("Tarayıcıda doldurmayı eklenti yapıyor"));
    let adressiz = hedef("Google Chrome", true, None);
    let e = doldur_denetimi(true, &adressiz, 1, &kayitlar, true).unwrap_err();
    assert_eq!(e.mesaj, "Tarayıcının adresi okunamadı. Sekmeye tıklayıp tekrar deneyin.");
}

#[test]
fn sonuc_metinleri() {
    assert!(eklentiye_iletildi().tamam);
    assert_eq!(alinamadi("ag").mesaj, "Alınamadı: ag");
    assert_eq!(yazma_sonucu(Ok(())).mesaj, "Dolduruldu.");
    let s = yazma_sonucu(Err("izin".into()));
    assert!(!s.tamam);
    assert_eq!(s.mesaj, "Yazılamadı: izin. Kopyala düğmelerini kullanabilirsiniz.");
    assert!(alan_engeli(&Uygun::Bos).is_none());
    assert!(alan_engeli(&Uygun::Bilinmiyor).is_none());
    assert!(alan_engeli(&Uygun::Dolu).is_some());
    assert_eq!(dolduruldu_bildirimi("Sunucu"), "\"Sunucu\" dolduruldu.");
    assert_eq!(yazma_hatasi_notu("x"), "yazma-hatasi:x");
}

#[test]
fn kisayol_yalniz_tek_uyani_doldurur() {
    let url = Some("https://a.com/giris".to_string());
    let liste = vec![kayit(1, "a", Some("https://a.com/panel")), kayit(2, "b", Some("https://a.com/giris"))];
    assert_eq!(kisayol_karari(false, &url, Some(&liste)), KisayolKarari::PencereAc("izin-yok".into()));
    assert_eq!(kisayol_karari(true, &None, Some(&liste)), KisayolKarari::PencereAc(String::new()));
    assert_eq!(kisayol_karari(true, &url, None), KisayolKarari::PencereAc(String::new()));
    assert_eq!(kisayol_karari(true, &url, Some(&liste)), KisayolKarari::Doldur(1));
    let iki = vec![kayit(1, "a", None), kayit(2, "b", Some("https://a.com/giris"))];
    assert_eq!(kisayol_karari(true, &url, Some(&iki)), KisayolKarari::PencereAc("coklu-eslesme".into()));
    let hic = vec![kayit(1, "a", Some("https://a.com/x"))];
    assert_eq!(kisayol_karari(true, &url, Some(&hic)), KisayolKarari::PencereAc("eslesme-yok".into()));
}

#[test]
fn kisayol_alan_notlari() {
    assert_eq!(kisayol_alan_notu(&Uygun::Bos, false), None);
    assert!(kisayol_alan_notu(&Uygun::Bos, true).unwrap().starts_with("alan:Tarayıcıda"));
    assert!(kisayol_alan_notu(&Uygun::Dolu, true).unwrap().starts_with("alan:Odaktaki alanda"));
}

#[test]
fn panel_kararlari() {
    assert_eq!(panel_on_karari(true, true, false, false, false, false), Some(PanelEylemi::Dokunma));
    assert_eq!(panel_on_karari(true, false, false, true, true, false), Some(PanelEylemi::Gizle));
    assert_eq!(panel_on_karari(false, false, true, false, true, false), Some(PanelEylemi::Dokunma));
    assert_eq!(panel_on_karari(true, false, true, true, true, true), Some(PanelEylemi::Gizle));
    assert_eq!(panel_on_karari(false, false, true, true, true, false), None);
    assert_eq!(panel_son_karari(false, true), PanelEylemi::Goster);
    assert_eq!(panel_son_karari(true, false), PanelEylemi::Gizle);
    assert_eq!(panel_son_karari(false, false), PanelEylemi::Dokunma);
}

#[test]
fn az_once_doldurulan_siteler() {
    let mut liste: Vec<(String, Instant)> = Vec::new();
    assert!(!az_once_dolduruldu(&mut liste, "https://www.a.com/giris", 5));
    dolduruldu_isaretle(&mut liste, "https://www.a.com/giris");
    assert_eq!(liste.len(), 1);
    assert_eq!(liste[0].0, "a.com");
    assert!(az_once_dolduruldu(&mut liste, "https://a.com/panel", 5));
    assert!(!az_once_dolduruldu(&mut liste, "https://b.com/", 5));
    dolduruldu_isaretle(&mut liste, "https://b.com/");
    dolduruldu_isaretle(&mut liste, "https://a.com/x");
    let adlar: Vec<&str> = liste.iter().map(|e| e.0.as_str()).collect();
    assert_eq!(adlar, vec!["b.com", "a.com"]);
    dolduruldu_isaretle(&mut liste, "");
    assert_eq!(liste.len(), 2);
    assert!(!az_once_dolduruldu(&mut liste, "", 5));
}

#[test]
fn parola_yalniz_parola_alanina() {
    let odak = |rol: &str, deger: Option<&str>| Some((rol.to_string(), deger.map(str::to_string)));
    assert_eq!(parola_yazilabilir(&None), Ok(()));
    assert_eq!(parola_yazilabilir(&odak(PAROLA_ROLU, None)), Ok(()));
    assert!(parola_yazilabilir(&odak("AXTextField", Some(""))).unwrap_err().starts_with("Odaktaki alan bir parola alanı değil"));
    assert!(parola_yazilabilir(&odak(PAROLA_ROLU, Some("x"))).unwrap_err().contains("boş değil"));
    assert_eq!(
        parola_yazilabilir(&odak("AXButton", None)),
        Err("Kullanıcı adı yazıldı ama Tab bir metin alanına gitmedi (AXButton); parola yazılmadı. Parola alanına tıklayıp tekrar deneyin.".to_string())
    );
}

#[test]
fn pano_ve_bilgisayar_adi() {
    assert!(pano_temizlenir("gizli", "gizli"));
    assert!(!pano_temizlenir("baska", "gizli"));
    assert_eq!(bilgisayar_adi(Some("PC1".into()), Some("h".into()), None), "PC1");
    assert_eq!(bilgisayar_adi(Some("  ".into()), Some("h".into()), None), "h");
    assert_eq!(bilgisayar_adi(None, None, Some(" mac-mini \n".into())), "mac-mini");
    assert_eq!(bilgisayar_adi(None, None, Some("  ".into())), "Bilgisayar");
    assert_eq!(bilgisayar_adi(None, None, None), "Bilgisayar");
}

#[test]
fn eski_isaretler_atilir_tazeler_kalir() {
    let t = Instant::now();
    let mut liste: Vec<(String, Instant)> = vec![
        ("a.com".to_string(), t),
        ("b.com".to_string(), t),
        ("c.com".to_string(), t),
    ];
    // Quiet time 1 minute: a.com is 61 s old, b.com 10 s, c.com 59 s.
    let gecen = [61_000_000_000u128, 10_000_000_000, 59_000_000_000];
    assert!(!az_once_dolduruldu_gecen(&mut liste, &gecen, "https://a.com/giris", 1));
    let adlar: Vec<&str> = liste.iter().map(|e| e.0.as_str()).collect();
    assert_eq!(adlar, vec!["b.com", "c.com"]);
    assert!(az_once_dolduruldu_gecen(&mut liste, &[0, 0], "https://www.b.com/", 0));
    // 0 minutes counts as 1: exactly 60 s is no longer fresh.
    assert!(!az_once_dolduruldu_gecen(&mut liste, &[60_000_000_000, 60_000_000_000], "https://c.com/", 0));
    assert!(liste.is_empty());
    // No domain: nothing is dropped.
    let mut l2 = vec![("a.com".to_string(), t)];
    assert!(!az_once_dolduruldu_gecen(&mut l2, &[u128::MAX], "", 5));
    assert_eq!(l2.len(), 1);
}

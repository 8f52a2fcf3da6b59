use bogahost_native::gorev::{
    cerez_secimi, indirme_adi, indirme_karari, kaydetme_denetimi, kullanici_ajani, url_dosya_adi, IndirmeKarari,
    app_home_url, aday_adi, decode_base64, disposition_filename, dosya_adi_bol, ensure_extension,
    is_internal_url, looks_like_document_url, overlay_apps_json, percent_decode, sanitize_file_name,
    settings_url, uygulama_adresi, Platform,
};

#[test]
fn dosya_adi_temizleme() {
    assert_eq!(sanitize_file_name("rapor.pdf"), "rapor.pdf");
    assert_eq!(sanitize_file_name("../../etc/passwd"), "-..-etc-passwd");
    assert_eq!(sanitize_file_name("   "), "indirilen-dosya");
}

#[test]
fn base64_cozme() {
    assert_eq!(decode_base64("Qm9nYQ==").unwrap(), b"Boga");
    assert_eq!(decode_base64("").unwrap(), Vec::<u8>::new());
    assert!(decode_base64("!!!").is_none());
}

#[test]
fn base64_url_alfabesi_ve_bosluk() {
    assert_eq!(decode_base64("-_8=").unwrap(), vec![0xfb, 0xff]);
    assert_eq!(decode_base64("+/8=").unwrap(), vec![0xfb, 0xff]);
    assert_eq!(decode_base64("Qm9n\nYQ").unwrap(), b"Boga");
    assert_eq!(decode_base64("QQ==QUFB").unwrap(), b"A");
}

#[test]
fn dosya_adi_denetim_karakterleri_ve_uzunluk() {
    assert_eq!(sanitize_file_name("a\u{1}b:c"), "ab-c");
    assert_eq!(sanitize_file_name("..gizli.."), "gizli");
    let uzun: String = std::iter::repeat('x').take(130).collect();
    assert_eq!(sanitize_file_name(&uzun).chars().count(), 120);
}

#[test]
fn yuzde_kacislari_cozulur() {
    assert_eq!(percent_decode("ad%20soyad.pdf"), "ad soyad.pdf");
    assert_eq!(percent_decode("%C5%9F"), "ş");
    assert_eq!(percent_decode("%zz%2"), "%zz%2");
    assert_eq!(percent_decode("a%41"), "aA");
    assert_eq!(percent_decode("a%4"), "a%4");
    assert_eq!(percent_decode("%41b"), "Ab");
}

#[test]
fn disposition_adlari() {
    assert_eq!(
        disposition_filename("attachment; filename*=UTF-8''fatura%20123.pdf").as_deref(),
        Some("fatura 123.pdf")
    );
    assert_eq!(disposition_filename("attachment; filename=\"rapor.csv\"").as_deref(), Some("rapor.csv"));
    assert_eq!(disposition_filename("inline"), None);
    assert_eq!(disposition_filename("attachment; filename=\"  \""), None);
}

#[test]
fn uzanti_eklenir() {
    assert_eq!(ensure_extension("rapor".into(), "application/pdf"), "rapor.pdf");
    assert_eq!(ensure_extension("tablo".into(), "application/vnd.ms-excel"), "tablo.xlsx");
    assert_eq!(ensure_extension("resim".into(), "image/jpeg"), "resim.jpg");
    assert_eq!(ensure_extension("ad.txt".into(), "application/pdf"), "ad.txt");
    assert_eq!(ensure_extension("ham".into(), "text/plain"), "ham");
}

#[test]
fn belge_adresleri() {
    assert!(looks_like_document_url("/finans/parasut/fatura/sales/123", "indir=1"));
    assert!(looks_like_document_url("/x", "a=1&DL"));
    assert!(looks_like_document_url("/finans/parasut/e-fatura-pdf/123", ""));
    assert!(looks_like_document_url("/hesap/dekont", ""));
    assert!(looks_like_document_url("/Rapor.PDF", ""));
    assert!(!looks_like_document_url("/raporlar/pdf", ""));
    assert!(!looks_like_document_url("/a.html", "indirme=1"));
}

#[test]
fn ic_adresler() {
    assert!(is_internal_url("https", Some("bogahost.com")));
    assert!(is_internal_url("http", Some("Task.Bogahost.com.")));
    assert!(!is_internal_url("https", Some("evilbogahost.com")));
    assert!(!is_internal_url("ftp", Some("bogahost.com")));
    assert!(!is_internal_url("https", None));
}

#[test]
fn ayar_adresleri() {
    assert_eq!(settings_url(Platform::Windows, "camera"), Some("ms-settings:privacy-webcam"));
    assert_eq!(
        settings_url(Platform::MacOs, "notifications"),
        Some("x-apple.systempreferences:com.apple.preference.notifications")
    );
    assert_eq!(settings_url(Platform::MacOs, "disk"), None);
    assert_eq!(settings_url(Platform::Diger, "camera"), None);
}

#[test]
fn uygulama_adresleri() {
    assert_eq!(app_home_url(), "https://task.bogahost.com/admin");
    assert_eq!(uygulama_adresi("chat"), Some("https://chat.bogahost.com/admin"));
    assert_eq!(uygulama_adresi("yok"), None);
    assert!(overlay_apps_json().starts_with("{\"finans.bogahost.com\""));
}

#[test]
fn yeni_dosya_adlari() {
    let (kok, uzanti) = dosya_adi_bol("rapor.pdf");
    assert_eq!(kok, "rapor");
    assert_eq!(uzanti, ".pdf");
    assert_eq!(aday_adi(&kok, &uzanti, 0), "rapor.pdf");
    assert_eq!(aday_adi(&kok, &uzanti, 12), "rapor-12.pdf");
    let (kok, uzanti) = dosya_adi_bol("BENIOKU");
    assert_eq!(kok, "BENIOKU");
    assert_eq!(uzanti, "");
}

#[test]
fn kaydedilecek_dosya_denetlenir() {
    let (ad, bayt) = kaydetme_denetimi(Some("a/b.txt".into()), "Qm9nYQ==").unwrap();
    assert_eq!(ad, "a-b.txt");
    assert_eq!(bayt, b"Boga");
    assert_eq!(kaydetme_denetimi(None, "Qm9nYQ==").unwrap().0, "indirilen-dosya");
    assert_eq!(kaydetme_denetimi(None, "!!"), Err("veri çözülemedi".to_string()));
    assert_eq!(kaydetme_denetimi(None, "=="), Err("boş dosya".to_string()));
}

#[test]
fn indirme_kararlari() {
    assert_eq!(indirme_karari(404, "", "", true, None, "x".into()), Err("status:404".to_string()));
    assert_eq!(indirme_karari(200, "Text/HTML; charset=utf-8", "", true, None, "x".into()), Ok(IndirmeKarari::Gezin));
    assert_eq!(
        indirme_karari(200, "text/html", "", false, None, "sayfa".into()),
        Ok(IndirmeKarari::Kaydet("sayfa".into()))
    );
    assert_eq!(
        indirme_karari(200, "Application/PDF", "attachment; filename=\"fatura\"", true, Some("x".into()), "y".into()),
        Ok(IndirmeKarari::Kaydet("fatura.pdf".into()))
    );
    assert_eq!(
        indirme_karari(201, "text/csv", "", true, Some("rapor".into()), "y".into()),
        Ok(IndirmeKarari::Kaydet("rapor.csv".into()))
    );
    assert_eq!(url_dosya_adi(Some("e%20fatura.pdf".into())), "e fatura.pdf");
    assert_eq!(url_dosya_adi(None), "indirilen-dosya");
    assert_eq!(cerez_secimi(String::new(), Some("a=1".into())), "a=1");
    assert_eq!(cerez_secimi(String::new(), Some("  ".into())), "");
    assert_eq!(cerez_secimi("s=2".into(), Some("a=1".into())), "s=2");
    assert_eq!(kullanici_ajani(None, "1.9.0"), "BogahostNative/1.9.0 (task)");
    assert_eq!(kullanici_ajani(Some("Mozilla".into()), "1.9.0"), "Mozilla");
}

#[test]
fn webview_indirme_adi() {
    assert_eq!(indirme_adi(Some("rapor.pdf".into()), "x".into()), "rapor.pdf");
    assert_eq!(indirme_adi(Some("  ".into()), "../x.csv".into()), "-x.csv");
    assert_eq!(indirme_adi(None, "".into()), "indirilen-dosya");
}

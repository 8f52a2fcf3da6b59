use bogahost_native::adres::{alan_adi, yol_al, yol_uyar};
use bogahost_native::kasa::Kayit;
use bogahost_native::kopru::{
    bizden, doldurma_istegi, doldurma_uygun, eklenti_bagli, eslesen_ozetleri, olay_al, olay_ekle, sorgu_al, yonlendir,
    yuzde_coz, Karar, Uc, TEMAS_SURESI_NS,
};
use bogahost_native::politika::EKLENTI_ID;

fn origin() -> String {
    format!("chrome-extension://{EKLENTI_ID}")
}

#[test]
fn yalniz_eklenti_konusur() {
    assert!(bizden(&origin(), ""));
    assert!(bizden("", EKLENTI_ID));
    assert!(!bizden("https://kotu.example", EKLENTI_ID));
    assert!(!bizden("", "baska"));
    assert!(!bizden("chrome-extension://baska", ""));
}

#[test]
fn eklenti_temasi() {
    assert!(!eklenti_bagli(None));
    assert!(eklenti_bagli(Some(0)));
    assert!(eklenti_bagli(Some(TEMAS_SURESI_NS - 1)));
    assert!(!eklenti_bagli(Some(TEMAS_SURESI_NS)));
    assert!(!eklenti_bagli(Some(130_000_000_000)));
    assert!(eklenti_bagli(Some(119_000_000_000)));
}

#[test]
fn kuyruk_dokuzu_asmaz_ve_son_gelen_alinir() {
    let mut k: Vec<u32> = Vec::new();
    for i in 0..20 {
        olay_ekle(&mut k, i);
        assert!(k.len() <= 9);
    }
    assert_eq!(k, (11..20).collect::<Vec<u32>>());
    assert_eq!(olay_al(&mut k), Some(19));
    assert_eq!(k.len(), 8);
    let mut bos: Vec<u32> = Vec::new();
    assert_eq!(olay_al(&mut bos), None);
}

#[test]
fn yuzde_ve_arti_cozulur() {
    assert_eq!(yuzde_coz("a%20b+c"), "a b c");
    assert_eq!(yuzde_coz("%C3%BC"), "ü");
    assert_eq!(yuzde_coz("%G1"), "%G1");
    assert_eq!(yuzde_coz("%+Fx"), "\u{f}x");
    assert_eq!(yuzde_coz("%FF"), "\u{FFFD}");
}

#[test]
fn yuzde_kodlu_adres_cozulur() {
    assert_eq!(yuzde_coz("https%3A%2F%2Fornek.com%2Fgiris"), "https://ornek.com/giris");
    assert_eq!(yuzde_coz("a+b"), "a b");
    assert_eq!(yuzde_coz("%zz%4"), "%zz%4");
    assert_eq!(yuzde_coz("%C5%9F"), "ş");
    assert_eq!(yuzde_coz(""), "");
}

#[test]
fn sorgu_degeri_okunur() {
    assert_eq!(sorgu_al("url=https%3A%2F%2Fa.com%2Fx&b=1", "url"), "https://a.com/x");
    assert_eq!(sorgu_al("a=1&b=2", "b"), "2");
    assert_eq!(sorgu_al("a=1&b=2", "c"), "");
    assert_eq!(sorgu_al("b&b=3", "b"), "3");
}

#[test]
fn istekler_yonlendirilir() {
    let o = origin();
    assert_eq!(yonlendir("GET", "/durum", "https://kotu.example", ""), Karar::Reddet);
    assert_eq!(yonlendir("OPTIONS", "/durum", &o, ""), Karar::OnKontrol);
    assert_eq!(yonlendir("GET", "/durum", &o, ""), Karar::Yanitla(Uc::Durum));
    assert_eq!(yonlendir("GET", "/olay?x=1", &o, ""), Karar::Yanitla(Uc::Olay));
    assert_eq!(yonlendir("POST", "/doldur", "", EKLENTI_ID), Karar::Yanitla(Uc::Doldur));
    assert_eq!(
        yonlendir("GET", "/eslesenler?url=https%3A%2F%2Fa.com", &o, ""),
        Karar::Yanitla(Uc::Eslesenler("https://a.com".to_string()))
    );
    assert_eq!(yonlendir("GET", "/baska", &o, ""), Karar::Yanitla(Uc::Bilinmeyen));
}

fn kayit(id: i64, url: Option<&str>) -> Kayit {
    Kayit { id, label: "k".into(), url: url.map(str::to_string), ..Default::default() }
}

#[test]
fn doldurma_yol_duzeyinde_denetlenir() {
    let kayitlar = vec![kayit(1, Some("https://a.com/giris")), kayit(2, None), kayit(3, Some("a.com"))];
    assert!(doldurma_uygun(1, "https://a.com/giris/", &kayitlar));
    assert!(!doldurma_uygun(1, "https://a.com/panel", &kayitlar));
    assert!(doldurma_uygun(2, "https://b.com/x", &kayitlar));
    assert!(doldurma_uygun(3, "https://a.com/her/yer", &kayitlar));
    assert!(!doldurma_uygun(4, "https://a.com/giris", &kayitlar));
}

#[test]
fn doldurma_istegi_tam_olmali() {
    assert_eq!(doldurma_istegi(Some(5), Some("https://a.com".into())), Ok((5, "https://a.com".to_string())));
    assert_eq!(doldurma_istegi(Some(0), Some("https://a.com".into())), Err("eksik istek".to_string()));
    assert_eq!(doldurma_istegi(Some(5), Some(String::new())), Err("eksik istek".to_string()));
    assert_eq!(doldurma_istegi(None, None), Err("eksik istek".to_string()));
}

#[test]
fn adres_parcalari() {
    assert_eq!(yol_al("https://a.com/giris/?x=1#y"), "/giris");
    assert_eq!(yol_al("https://a.com"), "");
    assert_eq!(yol_al("a.com/x/"), "/x");
    assert_eq!(alan_adi("https://kul@www.Ornek.com:8443/x?y"), "ornek.com");
    assert_eq!(alan_adi("https://WWW.Ornek.com/"), "www.ornek.com");
    assert_eq!(alan_adi("ornek.com"), "ornek.com");
    assert!(yol_uyar(&None, "https://a.com/x"));
    assert!(yol_uyar(&Some("https://a.com".into()), "https://a.com/x"));
    assert!(!yol_uyar(&Some("https://a.com/giris".into()), "https://a.com/giris/alt"));
    let u = "https://b.com/hesap/giris?x=1";
    assert!(yol_uyar(&Some(u.into()), u));
}

#[test]
fn eslesenler_sunucu_sirasiyla_ve_yol_duzeyinde_ozetlenir() {
    let mut a = kayit(7, Some("https://a.com/panel"));
    a.label = "Panel".into();
    a.username = Some("yonetici".into());
    a.domain = Some("a.com".into());
    let b = kayit(3, None);
    let c = kayit(4, Some("https://a.com/giris"));
    let d = kayit(5, Some("a.com"));
    let ozet = eslesen_ozetleri(&[a, b, c, d], "https://a.com/panel");
    let idler: Vec<i64> = ozet.iter().map(|o| o.id).collect();
    assert_eq!(idler, vec![7, 3, 5]);
    assert_eq!(ozet[0].etiket, "Panel");
    assert_eq!(ozet[0].kullanici.as_deref(), Some("yonetici"));
    assert_eq!(ozet[0].alan.as_deref(), Some("a.com"));
    assert_eq!(ozet[1].kullanici, None);
    assert!(eslesen_ozetleri(&[], "https://a.com/").is_empty());
    // A sub-page of a login page is no login page.
    assert!(eslesen_ozetleri(&[kayit(4, Some("https://a.com/giris"))], "https://a.com/giris/panel").is_empty());
}

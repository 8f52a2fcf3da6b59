use bogahost_native::alan::{aciklama, odakli_alan, odakli_rol, parola_alani_mi, Uygun, PAROLA_ROLU};
use bogahost_native::pencere::{
    aktif_url, aktif_url_betigi, hedef_degisti, hedef_yap, izlenir, kacisla, listele, ondeki,
    one_getir_betigi, tarayici_mi,
};

fn odak(rol: &str, deger: Option<&str>) -> Option<(String, Option<String>)> {
    Some((rol.to_string(), deger.map(str::to_string)))
}

#[test]
fn odakli_alan_siniflanir() {
    assert_eq!(odakli_alan(odak("AXTextField", Some(""))), Uygun::Bos);
    assert_eq!(odakli_alan(odak("AXTextField", Some("  \n"))), Uygun::Bos);
    assert_eq!(odakli_alan(odak("AXTextField", Some(" ali "))), Uygun::Dolu);
    assert_eq!(odakli_alan(odak(PAROLA_ROLU, None)), Uygun::Bos);
    assert_eq!(odakli_alan(odak("AXButton", None)), Uygun::AlanDegil("AXButton".into()));
    assert_eq!(odakli_alan(odak("", None)), Uygun::AlanDegil("bilinmeyen".into()));
    assert_eq!(odakli_alan(None), Uygun::Bilinmiyor);
}

#[test]
fn odak_rolu_ve_parola_alani() {
    assert_eq!(odakli_rol(&odak("AXTextArea", None)).as_deref(), Some("AXTextArea"));
    assert_eq!(odakli_rol(&None), None);
    assert!(parola_alani_mi(&odak(PAROLA_ROLU, None)));
    assert!(!parola_alani_mi(&odak("AXTextField", None)));
}

#[test]
fn aciklamalar() {
    assert_eq!(aciklama(&Uygun::Bos), "");
    assert_eq!(aciklama(&Uygun::Bilinmiyor), "");
    assert_eq!(
        aciklama(&Uygun::AlanDegil("AXLink".into())),
        "Odakta bir metin alanı yok (AXLink). Doldurulacak kullanıcı adı alanına tıklayıp tekrar deneyin."
    );
    assert!(aciklama(&Uygun::Dolu).starts_with("Odaktaki alanda zaten veri var"));
}

#[test]
fn tarayicilar_taninir() {
    assert!(tarayici_mi("Google Chrome"));
    assert!(tarayici_mi("MSEDGE.EXE"));
    assert!(tarayici_mi("Firefox"));
    assert!(!tarayici_mi("Terminal"));
}

#[test]
fn pencere_listesi() {
    let l = listele(Some("Safari, Bogahost Kasa, ,Terminal".into()));
    let adlar: Vec<&str> = l.iter().map(|h| h.program.as_str()).collect();
    assert_eq!(adlar, vec!["Safari", "Terminal"]);
    assert!(listele(None).is_empty());
}

#[test]
fn ondeki_pencere() {
    let h = ondeki(Some("Google Chrome".into()), Some("https://a.com".into()));
    assert!(h.tarayici);
    assert_eq!(h.kimlik, "Google Chrome");
    assert_eq!(h.url.as_deref(), Some("https://a.com"));
    let b = ondeki(Some(String::new()), Some("https://a.com".into()));
    assert!(b.program.is_empty() && b.url.is_none());
    let h = hedef_yap("Notes".into());
    assert!(!h.tarayici && h.url.is_none());
}

#[test]
fn adres_sorgusu() {
    assert_eq!(aktif_url(Some("missing value".into())), None);
    assert_eq!(aktif_url(Some(String::new())), None);
    assert_eq!(aktif_url(Some("https://a.com".into())).as_deref(), Some("https://a.com"));
    assert_eq!(
        aktif_url_betigi("Safari").as_deref(),
        Some("tell application \"Safari\" to get URL of front document")
    );
    assert_eq!(
        aktif_url_betigi("Brave Browser").as_deref(),
        Some("tell application \"Brave Browser\" to get URL of active tab of front window")
    );
    assert_eq!(aktif_url_betigi("Firefox"), None);
}

#[test]
fn betik_kacisi() {
    let g: String = kacisla(&"a\"b\\c".chars().collect::<Vec<char>>()).into_iter().collect();
    assert_eq!(g, "a\\\"b\\\\c");
    assert_eq!(
        one_getir_betigi("X\" to true\ndo shell script \"rm"),
        "tell application \"System Events\" to set frontmost of application process \"X\\\" to true\ndo shell script \\\"rm\" to true"
    );
}

#[test]
fn hedef_izleme() {
    let a = ondeki(Some("Google Chrome".into()), Some("https://a.com".into()));
    let b = ondeki(Some("Google Chrome".into()), Some("https://b.com".into()));
    let c = ondeki(Some("Google Chrome".into()), Some("https://a.com".into()));
    assert!(hedef_degisti(&a, &b));
    assert!(!hedef_degisti(&a, &c));
    assert!(hedef_degisti(&a, &hedef_yap("Notes".into())));
    assert!(izlenir(&a));
    assert!(!izlenir(&hedef_yap("Bogahost Kasa".into())));
    assert!(!izlenir(&ondeki(None, None)));
}

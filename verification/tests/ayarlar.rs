use bogahost_native::ayarlar::{okunan_ayar, Ayar};

#[test]
fn varsayilanlar_makul() {
    let a = Ayar::default();
    assert_eq!(a.otomatik_kilit_dk, 15);
    assert_eq!(a.pano_temizleme_sn, 30);
    assert!(a.doldurunca_enter);
}

#[test]
fn asiri_degerler_kirpilir() {
    let a = Ayar { otomatik_kilit_dk: 99999, pano_temizleme_sn: 9999, sessizlik_dk: 9999, ..Default::default() }.duzelt();
    assert_eq!(a.otomatik_kilit_dk, 480);
    assert_eq!(a.pano_temizleme_sn, 300);
    assert_eq!(a.sessizlik_dk, 240);
}

#[test]
fn cok_kisa_pano_suresi_yukseltilir() {
    let a = Ayar { pano_temizleme_sn: 1, ..Default::default() }.duzelt();
    assert_eq!(a.pano_temizleme_sn, 5);
}

#[test]
fn sifir_korunur() {
    let a = Ayar { otomatik_kilit_dk: 0, pano_temizleme_sn: 0, ..Default::default() }.duzelt();
    assert_eq!(a.otomatik_kilit_dk, 0);
    assert_eq!(a.pano_temizleme_sn, 0);
}

#[test]
fn duzeltme_iki_kez_ayni() {
    let a = Ayar { otomatik_kilit_dk: 1000, pano_temizleme_sn: 2, doldurunca_enter: false, panel_kendiliginden: false, sessizlik_dk: 500 };
    let b = a.duzelt();
    assert_eq!(b.duzelt(), b);
    assert!(!b.doldurunca_enter && !b.panel_kendiliginden);
}

#[test]
fn bozuk_dosya_varsayilana_doner() {
    assert_eq!(okunan_ayar(None), Ayar::default());
    let a = Ayar { otomatik_kilit_dk: 5000, ..Default::default() };
    assert_eq!(okunan_ayar(Some(a)).otomatik_kilit_dk, 480);
}

/// Reads a preference file's text as the program does: every field must be
/// there with its type, or the text does not parse.
fn ayar_metni(metin: &str) -> Option<Ayar> {
    let j: serde_json::Value = serde_json::from_str(metin).ok()?;
    Some(Ayar {
        otomatik_kilit_dk: j.get("otomatik_kilit_dk")?.as_u64()?,
        pano_temizleme_sn: j.get("pano_temizleme_sn")?.as_u64()?,
        doldurunca_enter: j.get("doldurunca_enter")?.as_bool()?,
        panel_kendiliginden: j.get("panel_kendiliginden")?.as_bool()?,
        sessizlik_dk: j.get("sessizlik_dk")?.as_u64()?,
    })
}

fn ayar_json(a: &Ayar) -> String {
    let mut m = serde_json::Map::new();
    m.insert("otomatik_kilit_dk".into(), serde_json::Value::from(a.otomatik_kilit_dk));
    m.insert("pano_temizleme_sn".into(), serde_json::Value::from(a.pano_temizleme_sn));
    m.insert("doldurunca_enter".into(), serde_json::Value::from(a.doldurunca_enter));
    m.insert("panel_kendiliginden".into(), serde_json::Value::from(a.panel_kendiliginden));
    m.insert("sessizlik_dk".into(), serde_json::Value::from(a.sessizlik_dk));
    serde_json::Value::Object(m).to_string()
}

#[test]
fn json_dolasir() {
    let a = Ayar { otomatik_kilit_dk: 5, doldurunca_enter: false, ..Default::default() };
    let m = ayar_json(&a);
    assert_eq!(ayar_metni(&m), Some(a));
    assert_eq!(okunan_ayar(ayar_metni(&m)), a);
}

#[test]
fn bozuk_json_varsayilana_doner() {
    assert!(ayar_metni("{bozuk").is_none());
    let a = okunan_ayar(ayar_metni("{bozuk"));
    assert_eq!(a, Ayar::default());
}

#[test]
fn eksik_alanli_dosya_varsayilana_doner() {
    let a = okunan_ayar(ayar_metni(r#"{"otomatik_kilit_dk":5}"#));
    assert_eq!(a, Ayar::default());
}

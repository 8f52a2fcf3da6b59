use base64::engine::general_purpose::STANDARD;
use base64::Engine;
use bogahost_native::kripto::{
    aad_kayit, aad_ozel_anahtar, anahtar_cifti, anahtar_uret, coz as kripto_coz, kilit_anahtari, rastgele,
    sifrele as kripto_sifrele,
    KdfParam,
};
use bogahost_native::zarf::{
    coz, jsondan, kasa_anahtari_ac, kasa_anahtari_muhurle, kilidi_ac, sifrele,
    DuzKayit, KayitZarfi, Kimlik, Nonceler, ZarfBelgesi, zarflari_kur,
};
use serde_json::Value;

fn ornek() -> DuzKayit {
    DuzKayit {
        parola: Some("S3rver!Root#2026".into()),
        kullanici: Some("root".into()),
        ekstra: None,
        notlar: Some("Notlar — Türkçe karakter: şğüöçİ".into()),
    }
}

fn metin(j: &Value, ad: &str) -> Option<String> {
    j[ad].as_str().map(str::to_owned)
}

fn belge(j: &Value) -> ZarfBelgesi {
    ZarfBelgesi {
        kayit_anahtar_zarf: metin(j, "kayit_anahtar_zarf"),
        parola_zarf: metin(j, "parola_zarf"),
        kullanici_zarf: metin(j, "kullanici_zarf"),
        ekstra_zarf: metin(j, "ekstra_zarf"),
        notlar_zarf: metin(j, "notlar_zarf"),
    }
}

fn kimlik(j: &Value) -> Kimlik {
    Kimlik {
        kdf_tuz: metin(j, "kdf_tuz"),
        bellek: j["kdf_param"]["bellek"].as_u64(),
        tur: j["kdf_param"]["tur"].as_u64(),
        paralel: j["kdf_param"]["paralel"].as_u64(),
        ozel_anahtar_zarf: metin(j, "ozel_anahtar_zarf"),
    }
}

fn zarf_json(z: &KayitZarfi) -> Value {
    let mut m = serde_json::Map::new();
    m.insert("kayit_anahtar_zarf".into(), Value::String(z.kayit_anahtar_zarf.clone()));
    let alanlar = [
        ("parola_zarf", &z.parola_zarf),
        ("kullanici_zarf", &z.kullanici_zarf),
        ("ekstra_zarf", &z.ekstra_zarf),
        ("notlar_zarf", &z.notlar_zarf),
    ];
    for (ad, deger) in alanlar {
        let v = match deger {
            Some(s) => Value::String(s.clone()),
            None => Value::Null,
        };
        m.insert(ad.into(), v);
    }
    Value::Object(m)
}

#[test]
fn kayit_dolasir() {
    let vk = anahtar_uret().unwrap();
    let d = ornek();
    let z = sifrele(&vk, 8, 3, 56, &d).unwrap();
    assert_eq!(coz(&vk, 8, 3, 56, &z).unwrap(), d);
}

#[test]
fn bos_alanlar_zarfsiz_kalir() {
    let vk = anahtar_uret().unwrap();
    let d = DuzKayit { parola: Some("x".into()), ..Default::default() };
    let z = sifrele(&vk, 1, 1, 1, &d).unwrap();
    assert!(z.parola_zarf.is_some());
    assert!(z.kullanici_zarf.is_none());
    assert_eq!(coz(&vk, 1, 1, 1, &z).unwrap().kullanici, None);
}

#[test]
fn baska_kayitta_cozulmez() {
    let vk = anahtar_uret().unwrap();
    let z = sifrele(&vk, 8, 3, 56, &ornek()).unwrap();
    assert!(coz(&vk, 8, 3, 57, &z).is_err());
    assert!(coz(&vk, 8, 4, 56, &z).is_err());
    assert!(coz(&vk, 9, 3, 56, &z).is_err());
}

#[test]
fn baska_kasa_anahtariyla_cozulmez() {
    let z = sifrele(&anahtar_uret().unwrap(), 8, 3, 56, &ornek()).unwrap();
    assert!(coz(&anahtar_uret().unwrap(), 8, 3, 56, &z).is_err());
}

#[test]
fn her_sifrelemede_yeni_kayit_anahtari() {
    let vk = anahtar_uret().unwrap();
    let a = sifrele(&vk, 1, 1, 1, &ornek()).unwrap();
    let b = sifrele(&vk, 1, 1, 1, &ornek()).unwrap();
    assert_ne!(a.kayit_anahtar_zarf, b.kayit_anahtar_zarf);
    assert_ne!(a.parola_zarf, b.parola_zarf);
    assert_eq!(coz(&vk, 1, 1, 1, &a).unwrap(), coz(&vk, 1, 1, 1, &b).unwrap());
}

#[test]
fn bozuk_zarf_hata_verir_bos_donmez() {
    let vk = anahtar_uret().unwrap();
    let mut z = sifrele(&vk, 1, 1, 1, &ornek()).unwrap();
    z.parola_zarf = Some("bh1.AAAA.BBBB".into());
    assert!(coz(&vk, 1, 1, 1, &z).is_err());
}

#[test]
fn jsondan_okur() {
    let vk = anahtar_uret().unwrap();
    let z = sifrele(&vk, 1, 1, 1, &ornek()).unwrap();
    let j = zarf_json(&z);
    assert_eq!(jsondan(&belge(&j)).unwrap(), z);
}

#[test]
fn jsondan_anahtarsiz_zarf_reddedilir() {
    let mut m = serde_json::Map::new();
    m.insert("parola_zarf".into(), Value::String("bh1.x.y".into()));
    let j = Value::Object(m);
    assert_eq!(
        jsondan(&belge(&j)),
        Err("Kayıt anahtarı zarfı yok — kayıt zero-knowledge değil.".to_string())
    );
}

#[test]
fn jsondan_bos_alan_yok_sayilir() {
    let mut m = serde_json::Map::new();
    m.insert("kayit_anahtar_zarf".into(), Value::String("bh1.a.b".into()));
    m.insert("parola_zarf".into(), Value::String(String::new()));
    m.insert("notlar_zarf".into(), Value::Number(5.into()));
    let z = jsondan(&belge(&Value::Object(m))).unwrap();
    assert_eq!(z.kayit_anahtar_zarf, "bh1.a.b");
    assert_eq!(z.parola_zarf, None);
    assert_eq!(z.notlar_zarf, None);

    let mut bos = serde_json::Map::new();
    bos.insert("kayit_anahtar_zarf".into(), Value::String(String::new()));
    assert_eq!(
        jsondan(&belge(&Value::Object(bos))),
        Err("Kayıt anahtarı zarfı yok — kayıt zero-knowledge değil.".to_string())
    );
}

#[test]
fn kisa_kasa_anahtariyla_sifrelenmez() {
    assert!(sifrele(&[1u8; 16], 1, 1, 1, &ornek()).is_err());
}

#[test]
fn kasa_anahtari_muhurlenir_ve_acilir() {
    let (ozel, acik) = anahtar_cifti().unwrap();
    let vk = anahtar_uret().unwrap();
    let zarf = kasa_anahtari_muhurle(&STANDARD.encode(acik), &vk, 3, 8).unwrap();
    assert_eq!(kasa_anahtari_ac(&ozel, &zarf, 3, 8).unwrap(), vk);
    assert!(kasa_anahtari_ac(&ozel, &zarf, 4, 8).is_err());
    assert_eq!(
        kasa_anahtari_muhurle("!!!", &vk, 3, 8),
        Err("Açık anahtar okunamadı.".to_string())
    );
}

#[test]
fn kimlikle_kilit_acilir() {
    let u = 8i64;
    let tuz = rastgele(16).unwrap();
    let p = KdfParam { bellek: 1024, tur: 1, paralel: 1 };
    let kilit = kilit_anahtari("cok-guclu-ana-parola", &tuz, p).unwrap();
    let (ozel, _) = anahtar_cifti().unwrap();
    let ozel_zarf = kripto_sifrele(&kilit, &ozel, &aad_ozel_anahtar(u)).unwrap();

    let k = Kimlik {
        kdf_tuz: Some(STANDARD.encode(&tuz)),
        bellek: Some(1024),
        tur: Some(1),
        paralel: Some(1),
        ozel_anahtar_zarf: Some(ozel_zarf.clone()),
    };
    let (kilit2, ozel2) = kilidi_ac(u, "cok-guclu-ana-parola", &k).unwrap();
    assert_eq!(kilit2, kilit);
    assert_eq!(ozel2, ozel);
    assert_eq!(
        kilidi_ac(u, "yanlis-parola-uzun", &k),
        Err("Ana parola hatalı.".to_string())
    );

    let tuzsuz = Kimlik { kdf_tuz: Some("!!!".into()), ..k };
    assert_eq!(
        kilidi_ac(u, "cok-guclu-ana-parola", &tuzsuz),
        Err("Tuz okunamadı.".to_string())
    );

    let mut param = serde_json::Map::new();
    param.insert("bellek".into(), Value::Number(1024.into()));
    param.insert("tur".into(), Value::Number(1.into()));
    param.insert("paralel".into(), Value::Number(1.into()));
    let mut j = serde_json::Map::new();
    j.insert("kdf_tuz".into(), Value::String(STANDARD.encode(&tuz)));
    j.insert("kdf_param".into(), Value::Object(param));
    j.insert("ozel_anahtar_zarf".into(), Value::String(ozel_zarf));
    let j = Value::Object(j);
    let (kilit3, ozel3) = kilidi_ac(u, "cok-guclu-ana-parola", &kimlik(&j)).unwrap();
    assert_eq!(kilit3, kilit);
    assert_eq!(ozel3, ozel);
    assert_eq!(
        kilidi_ac(u, "yanlis-parola-uzun", &kimlik(&j)),
        Err("Ana parola hatalı.".to_string())
    );
}

#[test]
fn kisa_tuzlu_kimlik_reddedilir() {
    let k = Kimlik {
        kdf_tuz: Some(STANDARD.encode([0u8; 8])),
        bellek: None,
        tur: None,
        paralel: None,
        ozel_anahtar_zarf: None,
    };
    assert_eq!(
        kilidi_ac(1, "parola", &k),
        Err("Tuz en az 16 bayt olmalı.".to_string())
    );
}

#[test]
fn verilen_anahtar_ve_noncelerle_zarflar_kurulur() {
    let vk = [2u8; 32];
    let ik = [6u8; 32];
    let n = || Nonceler {
        ik: vec![1u8; 24],
        parola: vec![2u8; 24],
        kullanici: vec![3u8; 24],
        ekstra: vec![4u8; 24],
        notlar: vec![5u8; 24],
    };
    let mut d = ornek();
    d.kullanici = Some(String::new());
    let z = zarflari_kur(&vk, 8, 3, 56, &d, &ik, &n()).unwrap();
    assert_eq!(zarflari_kur(&vk, 8, 3, 56, &d, &ik, &n()).unwrap(), z);
    assert!(z.parola_zarf.is_some() && z.notlar_zarf.is_some());
    assert_eq!(z.kullanici_zarf, None);
    assert_eq!(z.ekstra_zarf, None);
    assert_eq!(kripto_coz(&vk, &z.kayit_anahtar_zarf, &aad_kayit(8, 3, 56, "ikey")).unwrap(), ik.to_vec());
    let geri = coz(&vk, 8, 3, 56, &z).unwrap();
    assert_eq!(geri.parola, d.parola);
    assert_eq!(geri.kullanici, None);
    assert_eq!(geri.notlar, d.notlar);
    assert_eq!(zarflari_kur(&[0u8; 16], 8, 3, 56, &d, &ik, &n()), Err("Anahtar boyu hatalı.".to_string()));
}

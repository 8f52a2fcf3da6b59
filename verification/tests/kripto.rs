use base64::engine::general_purpose::STANDARD;
use base64::Engine;
use bogahost_native::kripto::{
    aad_kasa_anahtari, aad_kayit, aad_ozel_anahtar, anahtar_cifti, anahtar_uret, bizim_mi, coz,
    kilit_anahtari, muhur_ac, muhurle, rastgele, sifrele, KdfParam, zarf_kur, muhur_kur, cift_kur,
};

#[test]
fn sifrele_coz_dolasir() {
    let k = anahtar_uret().unwrap();
    let aad = aad_kayit(1, 2, 3, "parola");
    let z = sifrele(&k, b"gizli-parola", &aad).unwrap();
    assert!(bizim_mi(&z));
    assert_eq!(coz(&k, &z, &aad).unwrap(), b"gizli-parola");
}

#[test]
fn yanlis_anahtar_cozemez() {
    let k = anahtar_uret().unwrap();
    let baska = anahtar_uret().unwrap();
    let aad = aad_kayit(1, 2, 3, "parola");
    let z = sifrele(&k, b"x", &aad).unwrap();
    assert!(coz(&baska, &z, &aad).is_err());
}

#[test]
fn baska_baglamda_cozemez() {
    let k = anahtar_uret().unwrap();
    let z = sifrele(&k, b"x", &aad_kayit(1, 2, 3, "parola")).unwrap();
    assert!(coz(&k, &z, &aad_kayit(1, 2, 4, "parola")).is_err());
    assert!(coz(&k, &z, &aad_kayit(9, 2, 3, "parola")).is_err());
    assert!(coz(&k, &z, &aad_kayit(1, 2, 3, "kullanici")).is_err());
}

#[test]
fn ciphertext_kurcalanirsa_cozemez() {
    let k = anahtar_uret().unwrap();
    let aad = aad_kayit(1, 2, 3, "parola");
    let z = sifrele(&k, b"gizli", &aad).unwrap();
    let mut bozuk: Vec<char> = z.chars().collect();
    let son = bozuk.len() - 2;
    bozuk[son] = if bozuk[son] == 'A' { 'B' } else { 'A' };
    let bozuk: String = bozuk.into_iter().collect();
    assert!(coz(&k, &bozuk, &aad).is_err());
}

#[test]
fn nonce_asla_tekrar_etmez() {
    let k = anahtar_uret().unwrap();
    let aad = aad_kayit(1, 2, 3, "parola");
    let mut gorulen = std::collections::HashSet::new();
    for _ in 0..2000 {
        let z = sifrele(&k, b"ayni-metin", &aad).unwrap();
        let nonce = z.strip_prefix("bh1.").unwrap().split('.').next().unwrap().to_string();
        assert!(gorulen.insert(nonce), "nonce tekrar etti");
    }
    let a = sifrele(&k, b"ayni-metin", &aad).unwrap();
    let b = sifrele(&k, b"ayni-metin", &aad).unwrap();
    assert_ne!(a, b);
}

#[test]
fn kdf_ayni_girdiye_ayni_anahtar() {
    let tuz = rastgele(16).unwrap();
    let p = KdfParam::default();
    let a = kilit_anahtari("ana-parola", &tuz, p).unwrap();
    let b = kilit_anahtari("ana-parola", &tuz, p).unwrap();
    assert_eq!(a, b);
    let c = kilit_anahtari("baska-parola", &tuz, p).unwrap();
    assert_ne!(a, c);
    let d = kilit_anahtari("ana-parola", &rastgele(16).unwrap(), p).unwrap();
    assert_ne!(a, d);
}

#[test]
fn kisa_tuz_reddedilir() {
    assert!(kilit_anahtari("x", &rastgele(8).unwrap(), KdfParam::default()).is_err());
}

#[test]
fn argon2_reddi_sebebiyle_doner() {
    let tuz = rastgele(16).unwrap();
    let p = |bellek, tur, paralel| KdfParam { bellek, tur, paralel };
    assert_eq!(
        kilit_anahtari("x", &tuz, p(4, 1, 1)),
        Err("Argon2 parametreleri geçersiz: memory cost is too small".to_string())
    );
    assert_eq!(
        kilit_anahtari("x", &tuz, p(64, 1, 9)),
        Err("Argon2 parametreleri geçersiz: memory cost is too small".to_string())
    );
    assert_eq!(
        kilit_anahtari("x", &tuz, p(64, 0, 1)),
        Err("Argon2 parametreleri geçersiz: time cost is too small".to_string())
    );
    assert_eq!(
        kilit_anahtari("x", &tuz, p(64, 1, 0)),
        Err("Argon2 parametreleri geçersiz: not enough threads".to_string())
    );
    assert_eq!(kilit_anahtari("x", &tuz[..8], p(64, 1, 1)), Err("Tuz en az 16 bayt olmalı.".to_string()));
    assert!(kilit_anahtari("x", &tuz, p(64, 1, 1)).is_ok());
}

#[test]
fn muhur_alicida_acilir() {
    let (ozel, acik) = anahtar_cifti().unwrap();
    let vk = anahtar_uret().unwrap();
    let aad = aad_kasa_anahtari(7, 42);
    let z = muhurle(&acik, &vk, &aad).unwrap();
    assert_eq!(muhur_ac(&ozel, &z, &aad).unwrap(), vk.to_vec());
}

#[test]
fn muhur_baskasinda_acilmaz() {
    let (_, acik) = anahtar_cifti().unwrap();
    let (baska_ozel, _) = anahtar_cifti().unwrap();
    let vk = anahtar_uret().unwrap();
    let aad = aad_kasa_anahtari(7, 42);
    let z = muhurle(&acik, &vk, &aad).unwrap();
    assert!(muhur_ac(&baska_ozel, &z, &aad).is_err());
}

#[test]
fn muhur_baska_kasada_acilmaz() {
    let (ozel, acik) = anahtar_cifti().unwrap();
    let vk = anahtar_uret().unwrap();
    let z = muhurle(&acik, &vk, &aad_kasa_anahtari(7, 42)).unwrap();
    assert!(muhur_ac(&ozel, &z, &aad_kasa_anahtari(8, 42)).is_err());
}

#[test]
fn tam_zincir() {
    let kullanici = 8i64;
    let kasa = 3i64;
    let kayit = 56i64;

    let tuz = rastgele(16).unwrap();
    let ka = kilit_anahtari("cok-guclu-ana-parola", &tuz, KdfParam::default()).unwrap();
    let (ozel, acik) = anahtar_cifti().unwrap();
    let ozel_zarf = sifrele(&ka, &ozel, &aad_ozel_anahtar(kullanici)).unwrap();

    let vk = anahtar_uret().unwrap();
    let vk_zarf = muhurle(&acik, &vk, &aad_kasa_anahtari(kasa, kullanici)).unwrap();

    let ik = anahtar_uret().unwrap();
    let ik_zarf = sifrele(&vk, &ik, &aad_kayit(kullanici, kasa, kayit, "ikey")).unwrap();
    let parola_zarf =
        sifrele(&ik, b"S3rver!Root#2026", &aad_kayit(kullanici, kasa, kayit, "parola")).unwrap();

    let ka2 = kilit_anahtari("cok-guclu-ana-parola", &tuz, KdfParam::default()).unwrap();
    let ozel2 = coz(&ka2, &ozel_zarf, &aad_ozel_anahtar(kullanici)).unwrap();
    let vk2 = muhur_ac(&ozel2, &vk_zarf, &aad_kasa_anahtari(kasa, kullanici)).unwrap();
    let ik2 = coz(&vk2, &ik_zarf, &aad_kayit(kullanici, kasa, kayit, "ikey")).unwrap();
    let parola = coz(&ik2, &parola_zarf, &aad_kayit(kullanici, kasa, kayit, "parola")).unwrap();

    assert_eq!(parola, b"S3rver!Root#2026");

    let yanlis = kilit_anahtari("yanlis-parola", &tuz, KdfParam::default()).unwrap();
    assert!(coz(&yanlis, &ozel_zarf, &aad_ozel_anahtar(kullanici)).is_err());
}

#[test]
fn aad_metinleri_tam_bicimde() {
    assert_eq!(aad_kayit(1, 2, 3, "parola"), "v1|u1|k2|i3|parola");
    assert_eq!(aad_kasa_anahtari(7, 42), "v1|kasa7|uye42");
    assert_eq!(aad_ozel_anahtar(-5), "v1|ozel|u-5");
}

#[test]
fn aad_baglamlari_ayrisir() {
    assert_ne!(aad_kayit(1, 23, 4, "parola"), aad_kayit(12, 3, 4, "parola"));
    assert_ne!(aad_kayit(1, 2, 3, "parola"), aad_kayit(1, 2, 3, "kullanici"));
    assert_ne!(aad_kasa_anahtari(12, 3), aad_kasa_anahtari(1, 23));
    assert_ne!(aad_ozel_anahtar(1), aad_ozel_anahtar(-1));
}

#[test]
fn bizim_mi_onekten_bakar() {
    assert!(bizim_mi("bh1.abc.def"));
    assert!(!bizim_mi("bh2.abc.def"));
    assert!(!bizim_mi(""));
}

#[test]
fn kisa_anahtarla_sifreleme_reddedilir() {
    assert_eq!(sifrele(&[0u8; 16], b"x", "aad"), Err("Anahtar boyu hatalı.".to_string()));
    let z = sifrele(&anahtar_uret().unwrap(), b"x", "aad").unwrap();
    assert!(coz(&[0u8; 16], &z, "aad").is_err());
    assert_eq!(coz(&[0u8; 32], "bh1.abc", "aad"), Err("Zarf bozuk.".to_string()));
}

#[test]
fn onek_yoksa_cozulmez() {
    let k = anahtar_uret().unwrap();
    let z = sifrele(&k, b"x", "aad").unwrap();
    let onsuz = z.strip_prefix("bh1.").unwrap().to_string();
    assert_eq!(coz(&k, &onsuz, "aad"), Err("Tanınmayan zarf sürümü.".to_string()));
}

#[test]
fn rastgele_istenen_boyda() {
    assert_eq!(rastgele(0).unwrap().len(), 0);
    assert_eq!(rastgele(16).unwrap().len(), 16);
    assert_ne!(rastgele(32).unwrap(), rastgele(32).unwrap());
}

#[test]
fn anahtar_cifti_acik_anahtari_ozelden_gelir() {
    let (ozel, acik) = anahtar_cifti().unwrap();
    let (ozel2, acik2) = anahtar_cifti().unwrap();
    assert_ne!(ozel, ozel2);
    assert_ne!(acik, acik2);
    assert_ne!(ozel, acik);
}

#[test]
fn verilen_nonce_ile_zarf_kurulur() {
    let k = [5u8; 32];
    let nonce = [7u8; 24];
    let z = zarf_kur(&k, &nonce, b"gizli", "aad").unwrap();
    assert!(z.starts_with(&format!("bh1.{}.", STANDARD.encode(nonce))));
    let ct = STANDARD.decode(z.rsplit('.').next().unwrap()).unwrap();
    assert_eq!(ct.len(), 5 + 16);
    assert_ne!(&ct[..5], b"gizli");
    assert_eq!(coz(&k, &z, "aad").unwrap(), b"gizli".to_vec());
    assert_eq!(zarf_kur(&k, &nonce, b"gizli", "aad").unwrap(), z);
    assert_eq!(zarf_kur(&[1u8; 16], &nonce, b"x", "aad"), Err("Anahtar boyu hatalı.".to_string()));
}

#[test]
fn verilen_anahtarlarla_muhur_kurulur() {
    let (ozel, acik) = cift_kur([3u8; 32]);
    assert_eq!(ozel, [3u8; 32]);
    assert_ne!(acik, ozel);
    let (gecici, gecici_acik) = cift_kur([9u8; 32]);
    let nonce = [1u8; 24];
    let z = muhur_kur(acik, gecici, &nonce, b"kasa-anahtari", "aad").unwrap();
    assert!(z.starts_with(&format!("bh1.{}.{}.", STANDARD.encode(gecici_acik), STANDARD.encode(nonce))));
    assert_eq!(muhur_kur(acik, gecici, &nonce, b"kasa-anahtari", "aad").unwrap(), z);
    assert_eq!(muhur_ac(&ozel, &z, "aad").unwrap(), b"kasa-anahtari".to_vec());
    assert!(muhur_ac(&[4u8; 32], &z, "aad").is_err());
}

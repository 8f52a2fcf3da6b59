use bogahost_native::politika::{
    durum, durum_windows, eklenti_dosyasi_yolu, eklenti_kaldir, eklenti_kur, eklenti_tazele,
    eklenti_zip_adresi, kur_ilk_adim, kur_windows, profil_kaldir, profil_kaldir_betigi,
    profil_metni, surum_ayikla, surum_kucuk_mu, windows_kur_komutlari, windows_yonetici_komutu, yayin_taze,
    EKLENTI_ID, WINDOWS_ANAHTARI, YAYIN_TAZELIK_NS,
};

#[test]
fn macos_durumu_okunur() {
    let d = durum(Some("0".into()), Some(format!("{{ {EKLENTI_ID} = ... }}")), None);
    assert!(d.kasa_kapali && d.eklenti_zorunlu && d.kurulabilir);
    assert!(d.tamam());
    let d = durum(Some("1".into()), None, Some(format!("( \"{EKLENTI_ID};x\" )")));
    assert!(!d.kasa_kapali && d.eklenti_zorunlu);
    assert!(!d.tamam());
    let d = durum(None, Some("baska".into()), Some(EKLENTI_ID.into()));
    assert!(!d.eklenti_zorunlu);
}

#[test]
fn windows_durumu_okunur() {
    let d = durum_windows(Some("PasswordManagerEnabled REG_DWORD 0x0".into()), None, None);
    assert!(d.kasa_kapali && !d.eklenti_zorunlu);
    let d = durum_windows(Some("REG_DWORD 0x1".into()), Some(EKLENTI_ID.into()), None);
    assert!(!d.kasa_kapali && d.eklenti_zorunlu);
}

#[test]
fn profil_eklentiyi_ve_guncelleme_adresini_tasir() {
    let p = profil_metni();
    assert!(p.starts_with("<?xml"));
    assert!(p.contains(&format!("<key>{EKLENTI_ID}</key>")));
    assert!(p.contains("https://native.bogahost.com/eklenti/update.xml"));
    assert!(p.ends_with("</plist>\n"));
    assert_eq!(
        profil_kaldir_betigi(),
        "do shell script \"/usr/bin/profiles remove -identifier com.bogahost.kasa.tarayici\" with administrator privileges"
    );
}

#[test]
fn betik_sonuclari_okunur() {
    assert_eq!(profil_kaldir(Ok((true, String::new()))), Ok(()));
    assert_eq!(
        profil_kaldir(Ok((false, "execution error: User canceled. (-128)".into()))),
        Err("İptal edildi.".to_string())
    );
    assert_eq!(
        profil_kaldir(Ok((false, " yok \n".into()))),
        Err("Kaldırılamadı (profil yüklü olmayabilir): yok".to_string())
    );
    assert_eq!(eklenti_kur(Err("bulunamadı".into())), Err("osascript çalıştırılamadı: bulunamadı".to_string()));
    assert_eq!(
        eklenti_kaldir(Ok((false, "(-128)".into()))),
        Err("Kaldırılamadı: (-128)".to_string())
    );
    assert_eq!(
        kur_windows(Ok((false, "erisim".into()))),
        Err("Kurulamadı (yönetici izni verilmemiş olabilir): erisim".to_string())
    );
    assert_eq!(kur_ilk_adim(Ok((false, "okunamadi".into()))), None);
    assert_eq!(kur_ilk_adim(Ok((false, "(-128)".into()))), Some(Err("İptal edildi.".to_string())));
    assert_eq!(kur_ilk_adim(Ok((true, String::new()))), None);
}

#[test]
fn eklenti_adresleri() {
    assert!(eklenti_zip_adresi().ends_with(".zip"));
    assert_eq!(
        eklenti_dosyasi_yolu(),
        format!("/Library/Application Support/Google/Chrome/External Extensions/{EKLENTI_ID}.json")
    );
    assert!(yayin_taze(0));
    assert!(!yayin_taze(YAYIN_TAZELIK_NS));
}

#[test]
fn surumler_karsilastirilir() {
    assert_eq!(
        surum_ayikla("<app><updatecheck codebase='x' version='1.4.2' /></app>").as_deref(),
        Some("1.4.2")
    );
    assert_eq!(surum_ayikla("version='1.0"), None);
    assert_eq!(surum_ayikla("yok"), None);
    assert!(surum_kucuk_mu("1.2", "1.10"));
    assert!(surum_kucuk_mu("1.2", "1.2.1"));
    assert!(!surum_kucuk_mu("1.2.0", "1.2"));
    assert!(!surum_kucuk_mu("2.0", "1.9.9"));
    assert!(surum_kucuk_mu("x.1", "0.2"));
    assert_eq!(eklenti_tazele(Some("1.0.0".into()), Some("1.0.1".into())).as_deref(), Some("1.0.1"));
    assert_eq!(eklenti_tazele(Some("1.0.1".into()), Some("1.0.1".into())), None);
    assert_eq!(eklenti_tazele(None, Some("1.0.1".into())), None);
}

#[test]
fn windows_politika_komutlari() {
    let k = windows_kur_komutlari();
    assert_eq!(WINDOWS_ANAHTARI, r"HKLM\SOFTWARE\Policies\Google\Chrome");
    assert_eq!(k, r#"reg add "HKLM\SOFTWARE\Policies\Google\Chrome" /v PasswordManagerEnabled /t REG_DWORD /d 0 /f; reg add "HKLM\SOFTWARE\Policies\Google\Chrome" /v AutofillAddressEnabled /t REG_DWORD /d 0 /f; reg add "HKLM\SOFTWARE\Policies\Google\Chrome" /v AutofillCreditCardEnabled /t REG_DWORD /d 0 /f; reg add "HKLM\SOFTWARE\Policies\Google\Chrome" /v ExtensionSettings /t REG_SZ /d "{\"nfoohkianbefpbobbbgfikiiicnghjeh\":{\"installation_mode\":\"force_installed\",\"update_url\":\"https://native.bogahost.com/eklenti/update.xml\",\"override_update_url\":true}}" /f; reg add "HKLM\SOFTWARE\Policies\Google\Chrome\ExtensionInstallSources" /v 1 /t REG_SZ /d "https://native.bogahost.com/*" /f"#);
    assert!(k.contains(EKLENTI_ID));
    assert_eq!(k.matches("reg add").count(), 5);
    assert_eq!(
        windows_yonetici_komutu("echo 'a'"),
        "Start-Process powershell -Verb RunAs -Wait -WindowStyle Hidden -ArgumentList '-NoProfile','-Command','echo ''a'''"
    );
    assert!(windows_yonetici_komutu(&k).ends_with(&format!("'{k}'")));
}

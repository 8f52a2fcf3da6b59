use bogahost_native::kasa::{
    bilet_yok, cihaz_iptal, cop_geri, cop_kalici_sil, diger_cihazlari_kapat, dogrulama_yaniti,
    giris_yaniti, kayit_sil, oturum_gecerli, oturum_istegi, parola_gucu, parola_uret, surume_don,
    ulasilamadi, yanit_sonucu, Metot, giris_sonrasi, dogrulama_sonrasi, OturumAnahtarlari,
    oturumlu_istek, donus_sonucu, Donus, sec_bayttan, parola_kur,
};

const BUYUK: &str = "ABCDEFGHJKLMNPQRSTUVWXYZ";
const KUCUK: &str = "abcdefghijkmnopqrstuvwxyz";
const RAKAM: &str = "23456789";
const SIMGE: &str = "!@#$%^&*()-_=+[]{}<>?";

#[test]
fn parola_boyu_sinirlanir() {
    assert_eq!(parola_uret(4, true, true).unwrap().chars().count(), 8);
    assert_eq!(parola_uret(20, true, true).unwrap().chars().count(), 20);
    assert_eq!(parola_uret(500, false, false).unwrap().chars().count(), 128);
}

#[test]
fn parola_her_secilen_sinifi_tasir() {
    for _ in 0..50 {
        let p = parola_uret(8, true, true).unwrap();
        assert!(p.chars().any(|c| BUYUK.contains(c)));
        assert!(p.chars().any(|c| KUCUK.contains(c)));
        assert!(p.chars().any(|c| RAKAM.contains(c)));
        assert!(p.chars().any(|c| SIMGE.contains(c)));
    }
}

#[test]
fn parola_secilmeyen_siniftan_almaz() {
    for _ in 0..50 {
        let p = parola_uret(32, false, false).unwrap();
        assert!(p.chars().all(|c| BUYUK.contains(c) || KUCUK.contains(c)));
    }
}

#[test]
fn parola_gucu_olcer() {
    assert_eq!(parola_gucu("abc"), 0);
    assert_eq!(parola_gucu("abcdefghij"), 0);
    assert_eq!(parola_gucu("abcdefgh1"), 1);
    assert_eq!(parola_gucu("abcdefghij1X"), 2);
    assert_eq!(parola_gucu("abcdefghijklmn1X"), 3);
    assert_eq!(parola_gucu("abcdefghijklmnop1"), 1);
}

#[test]
fn istek_adresleri() {
    let r = oturum_istegi();
    assert_eq!(r.metot, Metot::Get);
    assert_eq!(r.adres, "https://dcim.bogahost.com/vault/api/me");
    let r = kayit_sil(42);
    assert_eq!(r.metot, Metot::Delete);
    assert_eq!(r.adres, "https://dcim.bogahost.com/vault/api/items/42");
    assert_eq!(cop_geri(7).adres, "https://dcim.bogahost.com/vault/api/cop/7/geri");
    assert_eq!(cop_kalici_sil(-3).adres, "https://dcim.bogahost.com/vault/api/cop/-3");
    assert_eq!(surume_don(5, 12).adres, "https://dcim.bogahost.com/vault/api/items/5/surum/12");
    assert_eq!(cihaz_iptal(9).metot, Metot::Delete);
    assert_eq!(
        diger_cihazlari_kapat().adres,
        "https://dcim.bogahost.com/vault/api/cihazlar/digerlerini-kapat"
    );
}

#[test]
fn oturum_denetimi() {
    assert!(oturum_gecerli(true, Some(200)));
    assert!(!oturum_gecerli(true, Some(401)));
    assert!(!oturum_gecerli(false, Some(200)));
    assert!(!oturum_gecerli(true, None));
}

#[test]
fn yanitlar_okunur() {
    assert_eq!(yanit_sonucu(Some(true), None, 200), Ok(()));
    assert_eq!(yanit_sonucu(Some(false), Some("Yetki yok".into()), 403), Err("Yetki yok".to_string()));
    assert_eq!(yanit_sonucu(None, None, 502), Err("HTTP 502".to_string()));
}

#[test]
fn giris_adimlari() {
    let g = giris_yaniti(Some(true), None, None, Some("ali".into()));
    assert!(g.tamam && g.iki_adim);
    assert_eq!(g.kullanici.as_deref(), Some("ali"));

    let g = giris_yaniti(Some(false), Some(true), None, Some("ali".into()));
    assert!(!g.tamam && g.kurulum_gerekli);
    assert_eq!(g.hata.as_deref(), Some("Giris yapilamadi."));
    assert_eq!(g.kullanici, None);

    let (g, dusur) = dogrulama_yaniti(Some(false), Some("Kodun zamani doldu".into()), None);
    assert!(!g.tamam);
    assert!(dusur);
    let (_, dusur) = dogrulama_yaniti(Some(false), Some("Kod yanlis".into()), None);
    assert!(!dusur);
    let (g, dusur) = dogrulama_yaniti(Some(true), None, Some("ali".into()));
    assert!(g.tamam && !g.iki_adim && !dusur);

    assert_eq!(bilet_yok().hata.as_deref(), Some("Once giris yapin."));
    assert_eq!(ulasilamadi("zaman asimi").hata.as_deref(), Some("Sunucuya ulasilamadi: zaman asimi"));
}

fn anahtarlar(jeton: Option<&str>, bilet: Option<&str>) -> OturumAnahtarlari {
    OturumAnahtarlari { jeton: jeton.map(str::to_string), bilet: bilet.map(str::to_string) }
}

#[test]
fn giris_bileti_saklanir() {
    let a = giris_sonrasi(anahtarlar(None, None), Some(true), Some("b1".into()));
    assert_eq!(a.bilet.as_deref(), Some("b1"));
    assert_eq!(a.jeton, None);
    let a = giris_sonrasi(anahtarlar(Some("j"), Some("eski")), Some(false), Some("b2".into()));
    assert_eq!(a.bilet.as_deref(), Some("eski"));
    assert_eq!(a.jeton.as_deref(), Some("j"));
    let a = giris_sonrasi(anahtarlar(None, Some("eski")), Some(true), None);
    assert_eq!(a.bilet.as_deref(), Some("eski"));
}

#[test]
fn dogrulama_jetonu_alir_bileti_dusurur() {
    let (a, kaydet) = dogrulama_sonrasi(anahtarlar(None, Some("b")), Some(true), &None, Some("jt".into()));
    assert_eq!(a.jeton.as_deref(), Some("jt"));
    assert_eq!(a.bilet, None);
    assert_eq!(kaydet.as_deref(), Some("jt"));

    let (a, kaydet) = dogrulama_sonrasi(anahtarlar(None, Some("b")), Some(false), &Some("Kodun zamani doldu".into()), None);
    assert_eq!(a.bilet, None);
    assert_eq!(kaydet, None);

    let (a, kaydet) = dogrulama_sonrasi(anahtarlar(Some("j"), Some("b")), Some(false), &Some("Kod yanlis".into()), Some("x".into()));
    assert_eq!(a.bilet.as_deref(), Some("b"));
    assert_eq!(a.jeton.as_deref(), Some("j"));
    assert_eq!(kaydet, None);

    let (a, kaydet) = dogrulama_sonrasi(anahtarlar(None, Some("b")), Some(true), &None, None);
    assert_eq!(a.bilet.as_deref(), Some("b"));
    assert_eq!(a.jeton, None);
    assert_eq!(kaydet, None);
}

#[test]
fn uretilen_parolanin_gucu_boyuna_ve_sinifina_baglidir() {
    for _ in 0..20 {
        assert_eq!(parola_gucu(&parola_uret(30, false, false).unwrap()), 1);
        assert_eq!(parola_gucu(&parola_uret(4, true, true).unwrap()), 1);
        assert_eq!(parola_gucu(&parola_uret(11, true, false).unwrap()), 1);
        assert_eq!(parola_gucu(&parola_uret(12, false, true).unwrap()), 2);
        assert_eq!(parola_gucu(&parola_uret(15, true, true).unwrap()), 2);
        assert_eq!(parola_gucu(&parola_uret(16, true, false).unwrap()), 3);
        assert_eq!(parola_gucu(&parola_uret(500, false, true).unwrap()), 3);
    }
}

#[test]
fn oturumsuz_istek_gonderilmez() {
    assert_eq!(oturumlu_istek(None, kayit_sil(5)).err().as_deref(), Some("Oturum yok."));
    let (t, istek) = oturumlu_istek(Some("jt".into()), kayit_sil(5)).unwrap();
    assert_eq!(t, "jt");
    assert!(matches!(istek.metot, Metot::Delete));
    assert!(istek.adres.ends_with("/vault/api/items/5"));
}

#[test]
fn donus_okunur() {
    assert_eq!(donus_sonucu(Donus::Ulasilamadi("zaman asimi".into())), Err("Sunucuya ulasilamadi: zaman asimi".to_string()));
    assert_eq!(donus_sonucu(Donus::Okunamadi("EOF".into())), Err("Yanit okunamadi: EOF".to_string()));
    assert_eq!(donus_sonucu(Donus::Geldi { ok: Some(true), hata: None, kod: 200 }), Ok(()));
    assert_eq!(
        donus_sonucu(Donus::Geldi { ok: Some(false), hata: Some("Yetki yok".into()), kod: 403 }),
        Err("Yetki yok".to_string())
    );
    assert_eq!(donus_sonucu(Donus::Geldi { ok: None, hata: None, kod: 500 }), Err("HTTP 500".to_string()));
}

#[test]
fn bayttan_secim_tarafsizdir() {
    let h: Vec<char> = "abcdefghij".chars().collect();
    // 256 - 256 % 10 = 250: bytes from 250 on are thrown away.
    assert_eq!(sec_bayttan(&h, 0), Some('a'));
    assert_eq!(sec_bayttan(&h, 13), Some('d'));
    assert_eq!(sec_bayttan(&h, 249), Some('j'));
    assert_eq!(sec_bayttan(&h, 250), None);
    assert_eq!(sec_bayttan(&h, 255), None);
    let tek = ['x'];
    assert_eq!(sec_bayttan(&tek, 255), Some('x'));
}

#[test]
fn parola_cekilenlerden_kurulur() {
    let secilen: Vec<char> = "Ab3!cdefghijkmno".chars().collect();
    // Every pick '0' (code 48): place i is swapped with 48 mod (i+1).
    let secimler = vec!['0'; 15];
    let p = parola_kur(16, true, true, &secilen, &secimler);
    let mut c = secilen.clone();
    for i in (1..16).rev() {
        let j = 48 % (i + 1);
        c.swap(i, j);
    }
    assert_eq!(p, c.iter().collect::<String>());
    assert_eq!(p.chars().count(), 16);
    assert_eq!(parola_gucu(&p), 3);
}

use bogahost_native::anahtarlik::Anahtarlik;
use std::time::Instant;

fn ornek() -> ([u8; 32], [u8; 32]) {
    ([7u8; 32], [9u8; 32])
}

#[test]
fn baslangicta_kilitli() {
    let mut a = Anahtarlik::yeni(15);
    assert!(!a.acik_mi());
    assert!(a.ozel().is_none());
    assert!(a.kilit().is_none());
}

#[test]
fn acilinca_anahtarlar_gelir() {
    let (k, o) = ornek();
    let mut a = Anahtarlik::yeni(15);
    a.ac(k, o);
    assert!(a.acik_mi());
    assert_eq!(a.ozel(), Some(o));
    assert_eq!(a.kilit(), Some(k));
}

#[test]
fn kilitlenince_hicbir_sey_donmez() {
    let (k, o) = ornek();
    let mut a = Anahtarlik::yeni(15);
    a.ac(k, o);
    a.kasa_koy(3, [1u8; 32]);
    a.kilitle();
    assert!(!a.acik_mi());
    assert!(a.ozel().is_none());
    assert!(a.kilit().is_none());
    assert!(a.kasa_al(3).is_none());
}

#[test]
fn kasa_anahtarlari_saklanir_ve_dusurulur() {
    let (k, o) = ornek();
    let mut a = Anahtarlik::yeni(15);
    a.ac(k, o);
    a.kasa_koy(3, [1u8; 32]);
    a.kasa_koy(4, [2u8; 32]);
    assert_eq!(a.kasa_al(3), Some([1u8; 32]));
    a.kasa_dusur(3);
    assert!(a.kasa_al(3).is_none());
    assert_eq!(a.kasa_al(4), Some([2u8; 32]));
}

#[test]
fn yeniden_acmak_kasalari_temizler() {
    let (k, o) = ornek();
    let mut a = Anahtarlik::yeni(15);
    a.ac(k, o);
    a.kasa_koy(3, [1u8; 32]);
    a.ac([8u8; 32], [6u8; 32]);
    assert!(a.kasa_al(3).is_none());
}

#[test]
fn sure_dolunca_kendiliginden_kilitlenir() {
    let (k, o) = ornek();
    let mut a = Anahtarlik::yeni(1);
    a.ac(k, o);
    // 59 s idle: still open; 60 s: locks by itself.
    assert!(a.acik_mi_gecen(59_000_000_000));
    assert!(!a.acik_mi_gecen(60_000_000_000));
    assert!(a.ozel().is_none());
    assert!(a.kalan_sn().is_none());
}

#[test]
fn sifir_dakika_kendiliginden_kilitlemez() {
    let (k, o) = ornek();
    let mut a = Anahtarlik::yeni(0);
    a.ac(k, o);
    assert!(a.kalan_sn().is_none());
    assert!(a.acik_mi_gecen(u128::MAX));
    assert_eq!(a.ozel(), Some(o));
}

#[test]
fn kalan_sure_azalir() {
    let (k, o) = ornek();
    let mut a = Anahtarlik::yeni(1);
    a.ac(k, o);
    assert_eq!(a.kalan_sn_gecen(0), Some(60));
    assert_eq!(a.kalan_sn_gecen(1_500_000_000), Some(58));
    assert_eq!(a.kalan_sn_gecen(61_000_000_000), Some(0));
    let ilk = a.kalan_sn_gecen(1_000_000_000).unwrap();
    let sonra = a.kalan_sn_gecen(2_100_000_000).unwrap();
    assert!(sonra < ilk);
}

#[test]
fn kilit_suresi_sonradan_ayarlanir() {
    let (k, o) = ornek();
    let mut a = Anahtarlik::yeni(0);
    a.ac(k, o);
    a.kilit_suresini_ayarla(2);
    assert_eq!(a.kalan_sn_gecen(0), Some(120));
    a.kilit_suresini_ayarla(0);
    assert_eq!(a.kalan_sn_gecen(0), None);
}

#[test]
fn kilitliyken_kasa_konmaz() {
    let mut a = Anahtarlik::yeni(15);
    a.kasa_koy(5, [3u8; 32]);
    let (k, o) = ornek();
    a.ac(k, o);
    assert!(a.kasa_al(5).is_none());
}

#[test]
fn acik_halka_gecen_sureyle_anahtar_verir() {
    let (k, o) = ornek();
    let mut a = Anahtarlik::yeni(1);
    a.ac(k, o);
    let an = Instant::now();
    assert_eq!(a.ozel_gecen(0, an), Some(o));
    assert_eq!(a.kilit_gecen(10_000_000_000, an), Some(k));
    a.kasa_koy_gecen(3, [1u8; 32], 0, an);
    assert_eq!(a.kasa_al_gecen(3, 0, an), Some([1u8; 32]));
    assert_eq!(a.kasa_al_gecen(4, 0, an), None);
    assert!(a.acik_mi_gecen(0));
}

#[test]
fn kullanim_sureyi_yeniler() {
    let (k, o) = ornek();
    let mut a = Anahtarlik::yeni(1);
    a.ac(k, o);
    // Each use comes 50 s after the one before: 200 s in all, never 60 idle.
    for _ in 0..4 {
        assert_eq!(a.ozel_gecen(50_000_000_000, Instant::now()), Some(o));
    }
    // A gap of a full minute locks the ring, and every key goes.
    assert_eq!(a.kasa_al_gecen(3, 60_000_000_000, Instant::now()), None);
    assert_eq!(a.ozel_gecen(0, Instant::now()), None);
    assert_eq!(a.kilit_gecen(0, Instant::now()), None);
}

#[test]
fn suresi_dolan_halkaya_kasa_konmaz() {
    let (k, o) = ornek();
    let mut a = Anahtarlik::yeni(1);
    a.ac(k, o);
    a.kasa_koy_gecen(3, [1u8; 32], 61_000_000_000, Instant::now());
    assert!(!a.acik_mi_gecen(0));
    a.ac(k, o);
    assert_eq!(a.kasa_al_gecen(3, 0, Instant::now()), None);
}

#[test]
fn yeniden_acilan_halka_yeni_anahtarlari_verir() {
    let (k, o) = ornek();
    let mut a = Anahtarlik::yeni(15);
    a.ac(k, o);
    a.kasa_koy(3, [1u8; 32]);
    a.ac([8u8; 32], [6u8; 32]);
    assert!(a.kasa_al(3).is_none());
    assert!(a.acik_mi());
    assert_eq!(a.ozel(), Some([6u8; 32]));
    assert_eq!(a.kilit(), Some([8u8; 32]));
}

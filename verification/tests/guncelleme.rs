use bogahost_native::guncelleme::{bekleyen, bildirilir, bos, denetim_baslangici, indirme_sonrasi};

#[test]
fn guncelleme_durumu() {
    let d = bos();
    assert!(!d.var && d.surum.is_none() && !d.elle);
    assert!(!bildirilir(&d, false));
    assert!(bildirilir(&d, true));
    let b = bekleyen("1.4.0".into(), true);
    assert!(b.var && b.elle);
    assert_eq!(b.surum.as_deref(), Some("1.4.0"));
    assert!(bildirilir(&b, false));
}

#[test]
fn denetim_akisi() {
    let d = denetim_baslangici(Some("1.5.0".into()), true, true).unwrap();
    assert!(d.var && d.elle);
    assert_eq!(d.surum.as_deref(), Some("1.5.0"));
    let d = denetim_baslangici(None, false, true).unwrap();
    assert!(!d.var);
    assert!(denetim_baslangici(None, false, false).is_none());
    let (d, elle) = indirme_sonrasi("1.6.0".into(), false, false, false);
    assert!(elle && d.elle && d.var);
    let (d, elle) = indirme_sonrasi("1.6.0".into(), true, false, false);
    assert!(!elle && !d.elle);
    assert_eq!(d.surum.as_deref(), Some("1.6.0"));
}

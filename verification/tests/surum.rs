use bogahost_native::surum::{is_newer, parse_version};

#[test]
fn surum_karsilastirma() {
    assert!(is_newer("1.2.0", "1.1.0"));
    assert!(is_newer("v1.1.1", "1.1.0"));
    assert!(!is_newer("1.1.0", "1.1.0"));
    assert!(!is_newer("1.0.9", "1.1.0"));
    assert!(!is_newer("bozuk", "1.1.0"));
}

#[test]
fn lib_surum_karsilastirma() {
    assert!(is_newer("1.3.0", "1.2.0"));
    assert!(is_newer("v1.2.1", "1.2.0"));
    assert!(!is_newer("1.2.0", "1.2.0"));
    assert!(!is_newer("1.1.9", "1.2.0"));
    assert!(!is_newer("bozuk", "1.2.0"));
}

#[test]
fn surum_parcalari_ayiklanir() {
    assert_eq!(parse_version("v1.2.0"), vec![1, 2, 0]);
    assert_eq!(parse_version("1.2.3.4.5"), vec![1, 2, 3, 4]);
    assert_eq!(parse_version("2024-rc7"), vec![2024, 7]);
    assert_eq!(parse_version("bozuk"), Vec::<u64>::new());
    // A run too large for 64 bits is left out.
    assert_eq!(parse_version("1.99999999999999999999999.3"), vec![1, 3]);
}

#[test]
fn eksik_parca_sifir_sayilir() {
    assert!(!is_newer("1.2", "1.2.0"));
    assert!(!is_newer("1.2.0", "1.2"));
    assert!(is_newer("1.2.0.1", "1.2"));
}

#[test]
fn surum_sirasi_asimetrik() {
    let pairs = [("1.0.0", "1.0.1"), ("2.0", "1.9.9"), ("v3", "3.0.0"), ("0.1", "0.10")];
    for (a, b) in pairs {
        assert!(!(is_newer(a, b) && is_newer(b, a)));
        assert!(!is_newer(a, a));
    }
}

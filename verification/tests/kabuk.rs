use bogahost_native::kabuk::{gezinme_karari, Gezinme};

#[test]
fn gezinme_semaya_gore_karar_verir() {
    assert_eq!(gezinme_karari("https"), Gezinme::Web);
    assert_eq!(gezinme_karari("http"), Gezinme::Web);
    for sema in ["tauri", "file", "about", "data", "blob", "asset", "ipc"] {
        assert_eq!(gezinme_karari(sema), Gezinme::Ic);
    }
    for sema in ["mailto", "tel", "whatsapp", "", "httpx"] {
        assert_eq!(gezinme_karari(sema), Gezinme::Sisteme);
    }
}

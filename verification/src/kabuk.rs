//! The decisions of the panel shell around its window: what a menu item
//! does, where switching apps goes, whether a saved page is still worth
//! reopening, and what the update notice says. The window, the menus and
//! the network stay with the caller.

use vstd::prelude::*;
use crate::metin::{karakterler, metin_yap, ekle, metin_esit, onekle_baslar, parca_al, kirp, kirpilmis};

verus! {

/// What a menu item does.
#[derive(Debug, Clone, PartialEq, Eq)]
pub enum MenuEylemi {
    Goster,
    Gizle,
    OtomatikBaslatma,
    Cik,
    Yenile,
    Geri,
    Ileri,
    /// Back to this app's panel (the way out of a stuck page).
    AnaSayfa,
    Yazdir,
    Yakinlastir,
    Uzaklastir,
    YakinlikSifirla,
    IndirilenlerKlasoru,
    SonIndirilen,
    BildirimDurumu,
    SonBildirimiAc,
    Hakkinda,
    GuncellemeDenetle,
    IndirmeSayfasi,
    /// Switch to the app with this key.
    UygulamayaGec(String),
    /// Nothing (an information item, or an unknown id).
    Hicbiri,
}

/// A menu action, with the app key by its characters.
pub enum MenuTuru {
    Goster,
    Gizle,
    OtomatikBaslatma,
    Cik,
    Yenile,
    Geri,
    Ileri,
    AnaSayfa,
    Yazdir,
    Yakinlastir,
    Uzaklastir,
    YakinlikSifirla,
    IndirilenlerKlasoru,
    SonIndirilen,
    BildirimDurumu,
    SonBildirimiAc,
    Hakkinda,
    GuncellemeDenetle,
    IndirmeSayfasi,
    UygulamayaGec(Seq<char>),
    Hicbiri,
}

impl View for MenuEylemi {
    type V = MenuTuru;

    open spec fn view(&self) -> MenuTuru {
        match self {
            MenuEylemi::Goster => MenuTuru::Goster,
            MenuEylemi::Gizle => MenuTuru::Gizle,
            MenuEylemi::OtomatikBaslatma => MenuTuru::OtomatikBaslatma,
            MenuEylemi::Cik => MenuTuru::Cik,
            MenuEylemi::Yenile => MenuTuru::Yenile,
            MenuEylemi::Geri => MenuTuru::Geri,
            MenuEylemi::Ileri => MenuTuru::Ileri,
            MenuEylemi::AnaSayfa => MenuTuru::AnaSayfa,
            MenuEylemi::Yazdir => MenuTuru::Yazdir,
            MenuEylemi::Yakinlastir => MenuTuru::Yakinlastir,
            MenuEylemi::Uzaklastir => MenuTuru::Uzaklastir,
            MenuEylemi::YakinlikSifirla => MenuTuru::YakinlikSifirla,
            MenuEylemi::IndirilenlerKlasoru => MenuTuru::IndirilenlerKlasoru,
            MenuEylemi::SonIndirilen => MenuTuru::SonIndirilen,
            MenuEylemi::BildirimDurumu => MenuTuru::BildirimDurumu,
            MenuEylemi::SonBildirimiAc => MenuTuru::SonBildirimiAc,
            MenuEylemi::Hakkinda => MenuTuru::Hakkinda,
            MenuEylemi::GuncellemeDenetle => MenuTuru::GuncellemeDenetle,
            MenuEylemi::IndirmeSayfasi => MenuTuru::IndirmeSayfasi,
            MenuEylemi::UygulamayaGec(k) => MenuTuru::UygulamayaGec(k@),
            MenuEylemi::Hicbiri => MenuTuru::Hicbiri,
        }
    }
}

/// The prefix of the menu items that switch apps.
pub const UYGULAMA_ONEKI: &'static str = "app:";

/// What the menu item `id` does.
pub open spec fn menu_anlami(id: Seq<char>) -> MenuTuru {
    if id == "show"@ {
        MenuTuru::Goster
    } else if id == "hide"@ {
        MenuTuru::Gizle
    } else if id == "autostart-toggle"@ {
        MenuTuru::OtomatikBaslatma
    } else if id == "quit"@ {
        MenuTuru::Cik
    } else if id == "view-reload"@ {
        MenuTuru::Yenile
    } else if id == "view-back"@ {
        MenuTuru::Geri
    } else if id == "view-forward"@ {
        MenuTuru::Ileri
    } else if id == "view-home"@ {
        MenuTuru::AnaSayfa
    } else if id == "view-print"@ {
        MenuTuru::Yazdir
    } else if id == "view-zoom-in"@ {
        MenuTuru::Yakinlastir
    } else if id == "view-zoom-out"@ {
        MenuTuru::Uzaklastir
    } else if id == "view-zoom-reset"@ {
        MenuTuru::YakinlikSifirla
    } else if id == "downloads-folder"@ {
        MenuTuru::IndirilenlerKlasoru
    } else if id == "downloads-last"@ {
        MenuTuru::SonIndirilen
    } else if id == "notify-status"@ {
        MenuTuru::BildirimDurumu
    } else if id == "notify-last-open"@ {
        MenuTuru::SonBildirimiAc
    } else if id == "version-info"@ {
        MenuTuru::Hicbiri
    } else if id == "about"@ {
        MenuTuru::Hakkinda
    } else if id == "check-update"@ {
        MenuTuru::GuncellemeDenetle
    } else if id == "open-downloads"@ {
        MenuTuru::IndirmeSayfasi
    } else if id.len() >= 4 && id.take(4) == UYGULAMA_ONEKI@ {
        MenuTuru::UygulamayaGec(id.skip(4))
    } else {
        MenuTuru::Hicbiri
    }
}

/// What the menu item `id` does.
pub fn menu_eylemi(id: &str) -> (e: MenuEylemi)
    ensures
        e@ == menu_anlami(id@),
{
    if metin_esit(id, "show") {
        MenuEylemi::Goster
    } else if metin_esit(id, "hide") {
        MenuEylemi::Gizle
    } else if metin_esit(id, "autostart-toggle") {
        MenuEylemi::OtomatikBaslatma
    } else if metin_esit(id, "quit") {
        MenuEylemi::Cik
    } else if metin_esit(id, "view-reload") {
        MenuEylemi::Yenile
    } else if metin_esit(id, "view-back") {
        MenuEylemi::Geri
    } else if metin_esit(id, "view-forward") {
        MenuEylemi::Ileri
    } else if metin_esit(id, "view-home") {
        MenuEylemi::AnaSayfa
    } else if metin_esit(id, "view-print") {
        MenuEylemi::Yazdir
    } else if metin_esit(id, "view-zoom-in") {
        MenuEylemi::Yakinlastir
    } else if metin_esit(id, "view-zoom-out") {
        MenuEylemi::Uzaklastir
    } else if metin_esit(id, "view-zoom-reset") {
        MenuEylemi::YakinlikSifirla
    } else if metin_esit(id, "downloads-folder") {
        MenuEylemi::IndirilenlerKlasoru
    } else if metin_esit(id, "downloads-last") {
        MenuEylemi::SonIndirilen
    } else if metin_esit(id, "notify-status") {
        MenuEylemi::BildirimDurumu
    } else if metin_esit(id, "notify-last-open") {
        MenuEylemi::SonBildirimiAc
    } else if metin_esit(id, "version-info") {
        MenuEylemi::Hicbiri
    } else if metin_esit(id, "about") {
        MenuEylemi::Hakkinda
    } else if metin_esit(id, "check-update") {
        MenuEylemi::GuncellemeDenetle
    } else if metin_esit(id, "open-downloads") {
        MenuEylemi::IndirmeSayfasi
    } else {
        let k = karakterler(id);
        let o = karakterler(UYGULAMA_ONEKI);
        proof {
            reveal_strlit("app:");
        }
        if onekle_baslar(&k, &o) {
            let anahtar = parca_al(&k, 4, k.len());
            assert(anahtar@ =~= id@.skip(4));
            MenuEylemi::UygulamayaGec(metin_yap(&anahtar))
        } else {
            MenuEylemi::Hicbiri
        }
    }
}

/// An app of the switching table by its key: its menu label and panel address.
pub open spec fn uygulama_kaydi(key: Seq<char>) -> Option<(&'static str, &'static str)> {
    if key == "finans"@ {
        Some(("Finans", "https://finans.bogahost.com/admin"))
    } else if key == "dcim"@ {
        Some(("DCIM", "https://dcim.bogahost.com/admin"))
    } else if key == "chat"@ {
        Some(("Chat", "https://chat.bogahost.com/admin"))
    } else if key == "task"@ {
        Some(("Görevler", "https://task.bogahost.com/admin"))
    } else {
        None
    }
}

/// Where switching to app `key` goes, from app `mevcut`: its label and
/// address; `None` for an unknown app, or for the app already open (a menu
/// event that fires twice must not reload the page).
pub fn gecis_hedefi(key: &str, mevcut: &str) -> (r: Option<(&'static str, &'static str)>)
    ensures
        r == (if key@ == mevcut@ {
            None
        } else {
            uygulama_kaydi(key@)
        }),
{
    let kayit = if metin_esit(key, "finans") {
        Some(("Finans", "https://finans.bogahost.com/admin"))
    } else if metin_esit(key, "dcim") {
        Some(("DCIM", "https://dcim.bogahost.com/admin"))
    } else if metin_esit(key, "chat") {
        Some(("Chat", "https://chat.bogahost.com/admin"))
    } else if metin_esit(key, "task") {
        Some(("Görevler", "https://task.bogahost.com/admin"))
    } else {
        None
    };
    if kayit.is_none() || metin_esit(key, mevcut) {
        return None;
    }
    kayit
}

/// How long a page saved for reopening after an update stays worth it: six hours.
pub const DEVAM_EN_ESKI_SN: u64 = 21600;

/// Whether a page saved at `ts` (seconds since the epoch) is still reopened
/// at `simdi`: a clock that went back counts as no time passed.
pub fn devam_taze(simdi: u64, ts: u64) -> (b: bool)
    ensures
        b == (simdi <= ts || simdi - ts <= DEVAM_EN_ESKI_SN),
{
    simdi.saturating_sub(ts) <= DEVAM_EN_ESKI_SN
}

/// The notice of a newer version `yeni` over the installed `mevcut`, with
/// the release notes when there are any.
pub fn guncelleme_mesaji(yeni: &str, mevcut: &str, notlar: Option<String>) -> (s: String)
    ensures
        s@ == "Yeni sürüm "@ + yeni@ + " yayınlandı (yüklü: "@ + mevcut@ + "). "@ + match notlar {
            Some(n) => if n@.len() == 0 {
                "Tepsi menüsünden \"İndirme sayfasını aç\"."@
            } else {
                n@
            },
            None => "Tepsi menüsünden \"İndirme sayfasını aç\"."@,
        },
{
    let mut v = karakterler("Yeni sürüm ");
    ekle(&mut v, &karakterler(yeni));
    ekle(&mut v, &karakterler(" yayınlandı (yüklü: "));
    ekle(&mut v, &karakterler(mevcut));
    ekle(&mut v, &karakterler("). "));
    let son = match &notlar {
        Some(n) => {
            if n.as_str().is_empty() {
                "Tepsi menüsünden \"İndirme sayfasını aç\".".to_owned()
            } else {
                n.clone()
            }
        },
        None => "Tepsi menüsünden \"İndirme sayfasını aç\".".to_owned(),
    };
    ekle(&mut v, &karakterler(son.as_str()));
    metin_yap(&v)
}

// ── The window ─────────────────────────────────────────────────────────────

/// Whether a saved window size is restored: at least 400 by 300.
pub fn boyut_uygun(genislik: u32, yukseklik: u32) -> (b: bool)
    ensures
        b == (genislik >= 400 && yukseklik >= 300),
{
    genislik >= 400 && yukseklik >= 300
}

/// Whether a saved window position is restored: positions that fell off
/// every screen (beyond ±20000) are ignored.
pub fn konum_uygun(x: i32, y: i32) -> (b: bool)
    ensures
        b == (-20000 < x < 20000 && -20000 < y < 20000),
{
    x > -20000 && y > -20000 && x < 20000 && y < 20000
}

/// The least time between two saves of the window state while it is being
/// dragged or resized: two seconds.
pub const KAYIT_ARALIGI_NS: u128 = 2_000_000_000;

/// Whether the window state is written now: always when forced (quitting),
/// otherwise unless the last save was under two seconds ago.
/// `son_kayittan` is the time since the last save, if there was one.
pub fn durum_kaydedilir(zorla: bool, son_kayittan: Option<u128>) -> (b: bool)
    ensures
        b == (zorla || !(son_kayittan matches Some(g) && g < KAYIT_ARALIGI_NS)),
{
    if zorla {
        return true;
    }
    match son_kayittan {
        Some(g) => g >= KAYIT_ARALIGI_NS,
        None => true,
    }
}

/// One look at the main window after a navigation that looked like a
/// document: what to do next.
#[derive(Debug, Clone, Copy, PartialEq, Eq, Structural)]
pub enum BelgeAdimi {
    /// The top frame shows the document: go back to the panel, then fetch
    /// the file through the bridge.
    PaneleDon,
    /// The top frame is a panel page (the document was in a frame, or the
    /// user is back already): leave it.
    Birak,
    /// The address is not known yet: look again, unless the looks are used up.
    TekrarBak,
}

/// How many times the window is looked at (every quarter second).
pub const BELGE_BAKISI: u32 = 12;

/// The decision after look number `bakis` (from 1): the top frame's address
/// looks like a document, or is one of ours, or is neither (or unknown).
/// After the last look, an unknown address is left alone.
pub fn belge_adimi(belge: bool, ic: bool, bakis: u32) -> (a: BelgeAdimi)
    ensures
        belge ==> a == BelgeAdimi::PaneleDon,
        !belge && ic ==> a == BelgeAdimi::Birak,
        !belge && !ic ==> a == (if bakis < BELGE_BAKISI { BelgeAdimi::TekrarBak } else { BelgeAdimi::Birak }),
{
    if belge {
        BelgeAdimi::PaneleDon
    } else if ic {
        BelgeAdimi::Birak
    } else if bakis < BELGE_BAKISI {
        BelgeAdimi::TekrarBak
    } else {
        BelgeAdimi::Birak
    }
}

// ── Staging an update ──────────────────────────────────────────────────────

/// How staging a found update went.
#[derive(Debug, Clone, Copy, PartialEq, Eq, Structural)]
pub enum KurulumSonucu {
    /// The download failed (network): nothing changes, the next check retries.
    IndirmeHatasi,
    /// Downloaded and held for the user's approval (Windows installs on approval).
    Indirildi,
    /// Downloaded and installed; it takes effect on restart.
    Kuruldu,
    /// Installing failed for good: the user is sent to the download page.
    KurulumHatasi,
}

/// What follows staging: whether an update now waits (with the banner
/// shown), whether only the download page can install it, whether the
/// program restarts at once, and the notification, if any (title and body).
#[derive(Debug, Clone, PartialEq, Eq)]
pub struct SahneSonu {
    pub bekliyor: bool,
    pub elle: bool,
    pub yeniden_baslat: bool,
    pub bildirim: Option<(String, String)>,
}

/// The bodies of the staging notifications for version `v`.
pub open spec fn sahne_metni(sonuc: KurulumSonucu, v: Seq<char>) -> Seq<char> {
    match sonuc {
        KurulumSonucu::Indirildi => "Sürüm "@ + v + " indirildi. Uygun olduğunuzda \"Şimdi uygula\" deyin."@,
        KurulumSonucu::Kuruldu => "Sürüm "@ + v + " kuruldu. Uygun olduğunuzda \"Şimdi uygula\" deyin."@,
        _ => "Sürüm "@ + v + " otomatik kurulamadı. Şeritten \"İndirme sayfasını aç\" ile indirin."@,
    }
}

/// The outcome of staging version `surum`; `otomatik` when it was found at
/// start-up, where an installed update restarts the program at once.
pub fn sahne_sonu(sonuc: KurulumSonucu, surum: &str, otomatik: bool) -> (r: SahneSonu)
    ensures
        sonuc == KurulumSonucu::IndirmeHatasi ==> !r.bekliyor && !r.yeniden_baslat && r.bildirim is None && !r.elle,
        sonuc == KurulumSonucu::Kuruldu && otomatik ==> r.yeniden_baslat && !r.bekliyor && r.bildirim is None && !r.elle,
        sonuc == KurulumSonucu::Indirildi || (sonuc == KurulumSonucu::Kuruldu && !otomatik) ==> {
            &&& r.bekliyor && !r.elle && !r.yeniden_baslat
            &&& r.bildirim matches Some((b, g)) && b@ == "Güncelleme hazır"@ && g@ == sahne_metni(sonuc, surum@)
        },
        sonuc == KurulumSonucu::KurulumHatasi ==> {
            &&& r.bekliyor && r.elle && !r.yeniden_baslat
            &&& r.bildirim matches Some((b, g)) && b@ == "Güncelleme mevcut"@ && g@ == sahne_metni(sonuc, surum@)
        },
{
    let govde = |son: &str| -> (g: String)
        ensures
            g@ == "Sürüm "@ + surum@ + son@,
    {
        let mut v = karakterler("Sürüm ");
        ekle(&mut v, &karakterler(surum));
        ekle(&mut v, &karakterler(son));
        metin_yap(&v)
    };
    match sonuc {
        KurulumSonucu::IndirmeHatasi => SahneSonu { bekliyor: false, elle: false, yeniden_baslat: false, bildirim: None },
        KurulumSonucu::Indirildi => SahneSonu {
            bekliyor: true,
            elle: false,
            yeniden_baslat: false,
            bildirim: Some(("Güncelleme hazır".to_owned(), govde(" indirildi. Uygun olduğunuzda \"Şimdi uygula\" deyin."))),
        },
        KurulumSonucu::Kuruldu => {
            if otomatik {
                SahneSonu { bekliyor: false, elle: false, yeniden_baslat: true, bildirim: None }
            } else {
                SahneSonu {
                    bekliyor: true,
                    elle: false,
                    yeniden_baslat: false,
                    bildirim: Some(("Güncelleme hazır".to_owned(), govde(" kuruldu. Uygun olduğunuzda \"Şimdi uygula\" deyin."))),
                }
            }
        },
        KurulumSonucu::KurulumHatasi => SahneSonu {
            bekliyor: true,
            elle: true,
            yeniden_baslat: false,
            bildirim: Some(("Güncelleme mevcut".to_owned(), govde(" otomatik kurulamadı. Şeritten \"İndirme sayfasını aç\" ile indirin."))),
        },
    }
}

/// The question before installing version `yeni` over `mevcut`, with the
/// release notes (trimmed) below it when there are any.
pub fn kurulum_sorusu(yeni: &str, mevcut: &str, notlar: &Option<String>) -> (s: String)
    ensures
        s@ == "Yeni sürüm "@ + yeni@ + " hazır (yüklü: "@ + mevcut@ + "). Şimdi kurulsun mu?"@ + match notlar {
            Some(n) => if kirpilmis(n@).len() == 0 {
                Seq::<char>::empty()
            } else {
                "\n\n"@ + kirpilmis(n@)
            },
            None => Seq::<char>::empty(),
        },
{
    let mut v = karakterler("Yeni sürüm ");
    ekle(&mut v, &karakterler(yeni));
    ekle(&mut v, &karakterler(" hazır (yüklü: "));
    ekle(&mut v, &karakterler(mevcut));
    ekle(&mut v, &karakterler("). Şimdi kurulsun mu?"));
    if let Some(n) = notlar {
        let k = kirp(&karakterler(n.as_str()));
        if k.len() > 0 {
            ekle(&mut v, &karakterler("\n\n"));
            ekle(&mut v, &k);
        }
    }
    proof {
        reveal_strlit("");
    }
    metin_yap(&v)
}

/// What the main window does with a navigation, by the URL's scheme.
#[derive(Debug, Clone, Copy, PartialEq, Eq)]
pub enum Gezinme {
    /// A web page: it stays in the window (frames and redirects need it),
    /// with the check that a top-level document is sent back to the panel.
    Web,
    /// The program's own, local or in-memory schemes: they stay in the window.
    Ic,
    /// A scheme the web view cannot open (`mailto:`, `tel:`, ...): it goes to
    /// the system's own handler and the window does not move.
    Sisteme,
}

/// The schemes that stay in the window without a check.
pub open spec fn ic_sema(s: Seq<char>) -> bool {
    s == "tauri"@ || s == "file"@ || s == "about"@ || s == "data"@ || s == "blob"@ || s == "asset"@
        || s == "ipc"@
}

/// What a navigation to a URL of scheme `sema` does.
pub open spec fn gezinme_turu(sema: Seq<char>) -> Gezinme {
    if sema == "http"@ || sema == "https"@ {
        Gezinme::Web
    } else if ic_sema(sema) {
        Gezinme::Ic
    } else {
        Gezinme::Sisteme
    }
}

/// The main window's navigation rule, by the URL's (lower-case) scheme: a
/// link the web view cannot open must not do nothing when clicked.
pub fn gezinme_karari(sema: &str) -> (g: Gezinme)
    ensures
        g == gezinme_turu(sema@),
{
    if metin_esit(sema, "http") || metin_esit(sema, "https") {
        Gezinme::Web
    } else if metin_esit(sema, "tauri") || metin_esit(sema, "file") || metin_esit(sema, "about")
        || metin_esit(sema, "data") || metin_esit(sema, "blob") || metin_esit(sema, "asset")
        || metin_esit(sema, "ipc") {
        Gezinme::Ic
    } else {
        Gezinme::Sisteme
    }
}

} // verus!

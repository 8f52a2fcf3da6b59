//! Browser protection: the browser's own password store switched off and the
//! vault extension installed by policy. Reading the state needs no
//! administrator rights; installing does, through the system's own prompt.

use vstd::prelude::*;
use crate::metin::{karakterler, metin_yap, ekle, metin_esit, icerir, alt_metin_var, kirp, kirpilmis,
    ilk_konum, ilk_konum_bul, parca_al, parcalar, parcala};
use crate::adres::{ilk_alt, ilk_alt_bul, ilk_alt_mi};
use crate::surum::{rakam_mi, sayi};
use crate::pencere::kacisli;

verus! {

/// The extension's id: it comes from the signing key and NEVER changes.
pub const EKLENTI_ID: &'static str = "nfoohkianbefpbobbbgfikiiicnghjeh";

/// Where the browser finds the extension's updates.
pub const GUNCELLEME_URL: &'static str = "https://native.bogahost.com/eklenti/update.xml";

/// Where extensions may be installed from.
pub const KAYNAK: &'static str = "https://native.bogahost.com/*";

/// The configuration profile's id: removal goes by it.
pub const PROFIL_KIMLIK: &'static str = "com.bogahost.kasa.tarayici";

/// The state of the browser protection.
#[derive(Debug, Clone, Copy, Default, PartialEq, Eq, Structural)]
pub struct Durum {
    /// Whether the browser's own password store is off.
    pub kasa_kapali: bool,
    /// Whether the extension is on the forced-install list.
    pub eklenti_zorunlu: bool,
    /// Whether installing is supported on this platform.
    pub kurulabilir: bool,
}

impl Durum {
    /// Protected: the password store is off AND the extension is forced.
    pub fn tamam(&self) -> (b: bool)
        ensures
            b == (self.kasa_kapali && self.eklenti_zorunlu),
    {
        self.kasa_kapali && self.eklenti_zorunlu
    }
}

/// The extension package for installing by hand: needs no rights.
pub const EKLENTI_ZIP: &'static str = "https://native.bogahost.com/eklenti/bogahost-kasa-eklenti.zip";

/// How long the published version is kept before asking again: half an hour.
pub const YAYIN_TAZELIK_NS: u128 = 1_800_000_000_000;

/// The state on macOS, from what `defaults read` printed for the password
/// store switch (`0` is off), and for the extension settings or, failing
/// those, the older forced-install list (either must name our extension).
pub fn durum(parola_yoneticisi: Option<String>, uzanti_ayarlari: Option<String>, zorunlu_liste: Option<String>) -> (d: Durum)
    ensures
        d.kasa_kapali == (parola_yoneticisi matches Some(v) && v@ == "0"@),
        d.eklenti_zorunlu == match uzanti_ayarlari {
            Some(a) => icerir(a@, EKLENTI_ID@),
            None => zorunlu_liste matches Some(z) && icerir(z@, EKLENTI_ID@),
        },
        d.kurulabilir,
{
    let kasa_kapali = match &parola_yoneticisi {
        Some(v) => metin_esit(v.as_str(), "0"),
        None => false,
    };
    let kaynak = match uzanti_ayarlari {
        Some(a) => Some(a),
        None => zorunlu_liste,
    };
    let eklenti_zorunlu = match &kaynak {
        Some(k) => alt_metin_var(&karakterler(k.as_str()), &karakterler(EKLENTI_ID)),
        None => false,
    };
    Durum { kasa_kapali, eklenti_zorunlu, kurulabilir: true }
}

/// The state on Windows, from what `reg query` printed: the password store
/// is off when the value reads `0x0`.
pub fn durum_windows(parola_yoneticisi: Option<String>, uzanti_ayarlari: Option<String>, zorunlu_liste: Option<String>) -> (d: Durum)
    ensures
        d.kasa_kapali == (parola_yoneticisi matches Some(v) && icerir(v@, "0x0"@)),
        d.eklenti_zorunlu == match uzanti_ayarlari {
            Some(a) => icerir(a@, EKLENTI_ID@),
            None => zorunlu_liste matches Some(z) && icerir(z@, EKLENTI_ID@),
        },
        d.kurulabilir,
{
    let kasa_kapali = match &parola_yoneticisi {
        Some(v) => alt_metin_var(&karakterler(v.as_str()), &karakterler("0x0")),
        None => false,
    };
    let kaynak = match uzanti_ayarlari {
        Some(a) => Some(a),
        None => zorunlu_liste,
    };
    let eklenti_zorunlu = match &kaynak {
        Some(k) => alt_metin_var(&karakterler(k.as_str()), &karakterler(EKLENTI_ID)),
        None => false,
    };
    Durum { kasa_kapali, eklenti_zorunlu, kurulabilir: true }
}

/// The configuration profile that carries the browser policy: the password
/// store and autofill off, the extension forced from our update address.
/// Since Ventura `/Library/Managed Preferences` is made only from installed
/// profiles; hand-written files there are ignored.
pub open spec fn profil() -> Seq<char> {
    "<?xml version=\"1.0\" encoding=\"UTF-8\"?>\n<!DOCTYPE plist PUBLIC \"-//Apple//DTD PLIST 1.0//EN\" \"http://www.apple.com/DTDs/PropertyList-1.0.dtd\">\n<plist version=\"1.0\">\n<dict>\n  <key>PayloadDisplayName</key><string>Bogahost Kasa — Tarayıcı Koruması</string>\n  <key>PayloadDescription</key><string>Chrome'un kendi parola kasasını kapatır ve Bogahost Kasa eklentisini kurar.</string>\n  <key>PayloadOrganization</key><string>Bogahost</string>\n  <key>PayloadIdentifier</key><string>com.bogahost.kasa.tarayici</string>\n  <key>PayloadType</key><string>Configuration</string>\n  <key>PayloadUUID</key><string>7B2F1C64-9A3D-4E51-9C77-BOGAHOSTKASA01</string>\n  <key>PayloadVersion</key><integer>1</integer>\n  <key>PayloadScope</key><string>System</string>\n  <key>PayloadRemovalDisallowed</key><false/>\n  <key>PayloadContent</key>\n  <array>\n    <dict>\n      <key>PayloadType</key><string>com.google.Chrome</string>\n      <key>PayloadIdentifier</key><string>com.bogahost.kasa.tarayici.chrome</string>\n      <key>PayloadUUID</key><string>7B2F1C64-9A3D-4E51-9C77-BOGAHOSTKASA02</string>\n      <key>PayloadVersion</key><integer>1</integer>\n      <key>PayloadDisplayName</key><string>Google Chrome</string>\n      <key>PasswordManagerEnabled</key><false/>\n      <key>AutofillAddressEnabled</key><false/>\n      <key>AutofillCreditCardEnabled</key><false/>\n      <!-- MAĞAZA DIŞI EKLENTİ İÇİN DOĞRU MEKANİZMA BU.\n           ExtensionInstallForcelist tek başına yetmiyor: chrome://policy\n           sayfasında girdi \"[BLOCKED]\" olarak görünüyor ve durum \"Hata, Uyarı\"\n           oluyordu. Chrome, Web Mağazası dışından zorunlu kurulumu ancak\n           ExtensionSettings içinde override_update_url ile açıkça izin\n           verildiğinde yapıyor. -->\n      <key>ExtensionSettings</key>\n      <dict>\n        <key>"@
        + EKLENTI_ID@
        + "</key>\n        <dict>\n          <key>installation_mode</key><string>force_installed</string>\n          <key>update_url</key><string>"@
        + GUNCELLEME_URL@
        + "</string>\n          <key>override_update_url</key><true/>\n        </dict>\n      </dict>\n      <key>ExtensionInstallSources</key>\n      <array><string>"@
        + KAYNAK@
        + "</string></array>\n    </dict>\n    <dict>\n      <key>PayloadType</key><string>com.microsoft.Edge</string>\n      <key>PayloadIdentifier</key><string>com.bogahost.kasa.tarayici.edge</string>\n      <key>PayloadUUID</key><string>7B2F1C64-9A3D-4E51-9C77-BOGAHOSTKASA03</string>\n      <key>PayloadVersion</key><integer>1</integer>\n      <key>PayloadDisplayName</key><string>Microsoft Edge</string>\n      <key>PasswordManagerEnabled</key><false/>\n    </dict>\n  </array>\n</dict>\n</plist>\n"@
}

/// The text of the configuration profile.
pub fn profil_metni() -> (s: String)
    ensures
        s@ == profil(),
{
    let mut v: Vec<char> = Vec::new();
    ekle(&mut v, &karakterler("<?xml version=\"1.0\" encoding=\"UTF-8\"?>\n<!DOCTYPE plist PUBLIC \"-//Apple//DTD PLIST 1.0//EN\" \"http://www.apple.com/DTDs/PropertyList-1.0.dtd\">\n<plist version=\"1.0\">\n<dict>\n  <key>PayloadDisplayName</key><string>Bogahost Kasa — Tarayıcı Koruması</string>\n  <key>PayloadDescription</key><string>Chrome'un kendi parola kasasını kapatır ve Bogahost Kasa eklentisini kurar.</string>\n  <key>PayloadOrganization</key><string>Bogahost</string>\n  <key>PayloadIdentifier</key><string>com.bogahost.kasa.tarayici</string>\n  <key>PayloadType</key><string>Configuration</string>\n  <key>PayloadUUID</key><string>7B2F1C64-9A3D-4E51-9C77-BOGAHOSTKASA01</string>\n  <key>PayloadVersion</key><integer>1</integer>\n  <key>PayloadScope</key><string>System</string>\n  <key>PayloadRemovalDisallowed</key><false/>\n  <key>PayloadContent</key>\n  <array>\n    <dict>\n      <key>PayloadType</key><string>com.google.Chrome</string>\n      <key>PayloadIdentifier</key><string>com.bogahost.kasa.tarayici.chrome</string>\n      <key>PayloadUUID</key><string>7B2F1C64-9A3D-4E51-9C77-BOGAHOSTKASA02</string>\n      <key>PayloadVersion</key><integer>1</integer>\n      <key>PayloadDisplayName</key><string>Google Chrome</string>\n      <key>PasswordManagerEnabled</key><false/>\n      <key>AutofillAddressEnabled</key><false/>\n      <key>AutofillCreditCardEnabled</key><false/>\n      <!-- MAĞAZA DIŞI EKLENTİ İÇİN DOĞRU MEKANİZMA BU.\n           ExtensionInstallForcelist tek başına yetmiyor: chrome://policy\n           sayfasında girdi \"[BLOCKED]\" olarak görünüyor ve durum \"Hata, Uyarı\"\n           oluyordu. Chrome, Web Mağazası dışından zorunlu kurulumu ancak\n           ExtensionSettings içinde override_update_url ile açıkça izin\n           verildiğinde yapıyor. -->\n      <key>ExtensionSettings</key>\n      <dict>\n        <key>"));
    ekle(&mut v, &karakterler(EKLENTI_ID));
    ekle(&mut v, &karakterler("</key>\n        <dict>\n          <key>installation_mode</key><string>force_installed</string>\n          <key>update_url</key><string>"));
    ekle(&mut v, &karakterler(GUNCELLEME_URL));
    ekle(&mut v, &karakterler("</string>\n          <key>override_update_url</key><true/>\n        </dict>\n      </dict>\n      <key>ExtensionInstallSources</key>\n      <array><string>"));
    ekle(&mut v, &karakterler(KAYNAK));
    ekle(&mut v, &karakterler("</string></array>\n    </dict>\n    <dict>\n      <key>PayloadType</key><string>com.microsoft.Edge</string>\n      <key>PayloadIdentifier</key><string>com.bogahost.kasa.tarayici.edge</string>\n      <key>PayloadUUID</key><string>7B2F1C64-9A3D-4E51-9C77-BOGAHOSTKASA03</string>\n      <key>PayloadVersion</key><integer>1</integer>\n      <key>PayloadDisplayName</key><string>Microsoft Edge</string>\n      <key>PasswordManagerEnabled</key><false/>\n    </dict>\n  </array>\n</dict>\n</plist>\n"));
    metin_yap(&v)
}

/// The shell commands of the older macOS way: the managed preferences written
/// directly, then read back so that a write that did not take is seen.
pub open spec fn kur_komutu() -> Seq<char> {
    "mkdir -p '/Library/Managed Preferences' && defaults write '/Library/Managed Preferences/com.google.Chrome' PasswordManagerEnabled -bool false && defaults write '/Library/Managed Preferences/com.google.Chrome' AutofillAddressEnabled -bool false && defaults write '/Library/Managed Preferences/com.google.Chrome' AutofillCreditCardEnabled -bool false && defaults write '/Library/Managed Preferences/com.google.Chrome' ExtensionInstallForcelist -array 'nfoohkianbefpbobbbgfikiiicnghjeh;https://native.bogahost.com/eklenti/update.xml' && defaults write '/Library/Managed Preferences/com.google.Chrome' ExtensionInstallSources -array 'https://native.bogahost.com/*' && chmod 644 '/Library/Managed Preferences/com.google.Chrome.plist' && killall cfprefsd 2>/dev/null; defaults read '/Library/Managed Preferences/com.google.Chrome' PasswordManagerEnabled"@
}

/// The commands that write the managed preferences.
pub fn kur_komutlari() -> (s: String)
    ensures
        s@ == kur_komutu(),
{
    "mkdir -p '/Library/Managed Preferences' && defaults write '/Library/Managed Preferences/com.google.Chrome' PasswordManagerEnabled -bool false && defaults write '/Library/Managed Preferences/com.google.Chrome' AutofillAddressEnabled -bool false && defaults write '/Library/Managed Preferences/com.google.Chrome' AutofillCreditCardEnabled -bool false && defaults write '/Library/Managed Preferences/com.google.Chrome' ExtensionInstallForcelist -array 'nfoohkianbefpbobbbgfikiiicnghjeh;https://native.bogahost.com/eklenti/update.xml' && defaults write '/Library/Managed Preferences/com.google.Chrome' ExtensionInstallSources -array 'https://native.bogahost.com/*' && chmod 644 '/Library/Managed Preferences/com.google.Chrome.plist' && killall cfprefsd 2>/dev/null; defaults read '/Library/Managed Preferences/com.google.Chrome' PasswordManagerEnabled".to_owned()
}

/// The shell commands of the external-extension install: the package put
/// where Chrome reads it, and a file named by the extension id that points to
/// it with the version `surum` (which must be the update manifest's).
pub open spec fn eklenti_kur_komutu(surum: Seq<char>) -> Seq<char> {
    "mkdir -p '/Library/Application Support/Bogahost' && mkdir -p '/Library/Application Support/Google/Chrome/External Extensions' && /usr/bin/curl -fsSL 'https://native.bogahost.com/eklenti/bogahost-kasa.crx' -o '/Library/Application Support/Bogahost/bogahost-kasa.crx' && chmod 644 '/Library/Application Support/Bogahost/bogahost-kasa.crx' && printf '%s' '{\\\"external_crx\\\": \\\"/Library/Application Support/Bogahost/bogahost-kasa.crx\\\", \\\"external_version\\\": \\\""@ + surum + "\\\"}' > '/Library/Application Support/Google/Chrome/External Extensions/nfoohkianbefpbobbbgfikiiicnghjeh.json' && chmod 644 '/Library/Application Support/Google/Chrome/External Extensions/nfoohkianbefpbobbbgfikiiicnghjeh.json' && echo tamam"@
}

/// The commands of the external-extension install for version `surum`.
pub fn eklenti_kur_komutlari(surum: &str) -> (s: String)
    ensures
        s@ == eklenti_kur_komutu(surum@),
{
    let mut v = karakterler("mkdir -p '/Library/Application Support/Bogahost' && mkdir -p '/Library/Application Support/Google/Chrome/External Extensions' && /usr/bin/curl -fsSL 'https://native.bogahost.com/eklenti/bogahost-kasa.crx' -o '/Library/Application Support/Bogahost/bogahost-kasa.crx' && chmod 644 '/Library/Application Support/Bogahost/bogahost-kasa.crx' && printf '%s' '{\\\"external_crx\\\": \\\"/Library/Application Support/Bogahost/bogahost-kasa.crx\\\", \\\"external_version\\\": \\\"");
    ekle(&mut v, &karakterler(surum));
    ekle(&mut v, &karakterler("\\\"}' > '/Library/Application Support/Google/Chrome/External Extensions/nfoohkianbefpbobbbgfikiiicnghjeh.json' && chmod 644 '/Library/Application Support/Google/Chrome/External Extensions/nfoohkianbefpbobbbgfikiiicnghjeh.json' && echo tamam"));
    metin_yap(&v)
}

/// The command that undoes the external install.
pub open spec fn eklenti_kaldir_komutu() -> Seq<char> {
    "rm -f '/Library/Application Support/Google/Chrome/External Extensions/nfoohkianbefpbobbbgfikiiicnghjeh.json' '/Library/Application Support/Bogahost/bogahost-kasa.crx'; echo tamam"@
}

/// The command that removes the external-install file and the package.
pub fn eklenti_kaldir_komutlari() -> (s: String)
    ensures
        s@ == eklenti_kaldir_komutu(),
{
    "rm -f '/Library/Application Support/Google/Chrome/External Extensions/nfoohkianbefpbobbbgfikiiicnghjeh.json' '/Library/Application Support/Bogahost/bogahost-kasa.crx'; echo tamam".to_owned()
}

/// The AppleScript that runs `komut` as a shell command with administrator
/// rights: the system's own prompt asks for the password, not us. The command
/// is escaped so that it stays one string.
pub open spec fn yonetici_betik(komut: Seq<char>) -> Seq<char> {
    "do shell script \""@ + kacisli(komut) + "\" with administrator privileges"@
}

/// The script that runs `komut` with administrator rights.
pub fn yonetici_betigi(komut: &str) -> (b: String)
    ensures
        b@ == yonetici_betik(komut@),
{
    let mut v = karakterler("do shell script \"");
    ekle(&mut v, &crate::pencere::kacisla(&karakterler(komut)));
    ekle(&mut v, &karakterler("\" with administrator privileges"));
    metin_yap(&v)
}

/// The script that removes the installed protection profile (by its id).
pub fn profil_kaldir_betigi() -> (b: String)
    ensures
        b@ == "do shell script \"/usr/bin/profiles remove -identifier "@ + PROFIL_KIMLIK@
            + "\" with administrator privileges"@,
{
    let mut v = karakterler("do shell script \"/usr/bin/profiles remove -identifier ");
    ekle(&mut v, &karakterler(PROFIL_KIMLIK));
    ekle(&mut v, &karakterler("\" with administrator privileges"));
    metin_yap(&v)
}

// ── Windows ────────────────────────────────────────────────────────────────

/// The registry key of Chrome's machine policies on Windows.
pub const WINDOWS_ANAHTARI: &'static str = "HKLM\\SOFTWARE\\Policies\\Google\\Chrome";

/// The registry commands of the Windows install: the password store and
/// autofill off, and the extension forced in through `ExtensionSettings`
/// written as one line of JSON (the only way an off-store forced install
/// works; a `ExtensionInstallForcelist` entry shows as blocked).
pub open spec fn windows_kur_komutu() -> Seq<char> {
    "reg add \"HKLM\\SOFTWARE\\Policies\\Google\\Chrome\" /v PasswordManagerEnabled /t REG_DWORD /d 0 /f; reg add \"HKLM\\SOFTWARE\\Policies\\Google\\Chrome\" /v AutofillAddressEnabled /t REG_DWORD /d 0 /f; reg add \"HKLM\\SOFTWARE\\Policies\\Google\\Chrome\" /v AutofillCreditCardEnabled /t REG_DWORD /d 0 /f; reg add \"HKLM\\SOFTWARE\\Policies\\Google\\Chrome\" /v ExtensionSettings /t REG_SZ /d \"{\\\"nfoohkianbefpbobbbgfikiiicnghjeh\\\":{\\\"installation_mode\\\":\\\"force_installed\\\",\\\"update_url\\\":\\\"https://native.bogahost.com/eklenti/update.xml\\\",\\\"override_update_url\\\":true}}\" /f; reg add \"HKLM\\SOFTWARE\\Policies\\Google\\Chrome\\ExtensionInstallSources\" /v 1 /t REG_SZ /d \"https://native.bogahost.com/*\" /f"@
}

/// The commands that write the Windows policies.
pub fn windows_kur_komutlari() -> (s: String)
    ensures
        s@ == windows_kur_komutu(),
{
    "reg add \"HKLM\\SOFTWARE\\Policies\\Google\\Chrome\" /v PasswordManagerEnabled /t REG_DWORD /d 0 /f; reg add \"HKLM\\SOFTWARE\\Policies\\Google\\Chrome\" /v AutofillAddressEnabled /t REG_DWORD /d 0 /f; reg add \"HKLM\\SOFTWARE\\Policies\\Google\\Chrome\" /v AutofillCreditCardEnabled /t REG_DWORD /d 0 /f; reg add \"HKLM\\SOFTWARE\\Policies\\Google\\Chrome\" /v ExtensionSettings /t REG_SZ /d \"{\\\"nfoohkianbefpbobbbgfikiiicnghjeh\\\":{\\\"installation_mode\\\":\\\"force_installed\\\",\\\"update_url\\\":\\\"https://native.bogahost.com/eklenti/update.xml\\\",\\\"override_update_url\\\":true}}\" /f; reg add \"HKLM\\SOFTWARE\\Policies\\Google\\Chrome\\ExtensionInstallSources\" /v 1 /t REG_SZ /d \"https://native.bogahost.com/*\" /f".to_owned()
}

/// `s` with every `'` doubled, as a PowerShell single-quoted string needs.
pub open spec fn tirnak_ikili(s: Seq<char>) -> Seq<char>
    decreases s.len(),
{
    if s.len() == 0 {
        Seq::empty()
    } else {
        tirnak_ikili(s.drop_last()) + (if s.last() == '\'' {
            seq!['\'', '\'']
        } else {
            seq![s.last()]
        })
    }
}

fn tirnak_ikile(k: &[char]) -> (g: Vec<char>)
    ensures
        g@ == tirnak_ikili(k@),
{
    let mut g: Vec<char> = Vec::new();
    let n = k.len();
    for i in 0..n
        invariant
            n == k@.len(),
            g@ == tirnak_ikili(k@.take(i as int)),
    {
        let c = k[i];
        assert(k@.take(i + 1).drop_last() =~= k@.take(i as int));
        if c == '\'' {
            g.push('\'');
            g.push('\'');
        } else {
            g.push(c);
        }
        assert(g@ =~= tirnak_ikili(k@.take(i + 1)));
    }
    assert(k@.take(n as int) =~= k@);
    g
}

/// The PowerShell command that runs `komut` in a hidden PowerShell with
/// administrator rights (`-Verb RunAs` brings up the system's own prompt)
/// and waits for it; `komut` stays one single-quoted argument.
pub open spec fn windows_yonetici(komut: Seq<char>) -> Seq<char> {
    "Start-Process powershell -Verb RunAs -Wait -WindowStyle Hidden -ArgumentList '-NoProfile','-Command','"@
        + tirnak_ikili(komut) + "'"@
}

/// The command that runs `komut` with administrator rights on Windows.
pub fn windows_yonetici_komutu(komut: &str) -> (s: String)
    ensures
        s@ == windows_yonetici(komut@),
{
    let mut v = karakterler("Start-Process powershell -Verb RunAs -Wait -WindowStyle Hidden -ArgumentList '-NoProfile','-Command','");
    ekle(&mut v, &tirnak_ikile(&karakterler(komut)));
    ekle(&mut v, &karakterler("'"));
    metin_yap(&v)
}

/// What running a script gave: it could not start (the reason), or it ran
/// and succeeded or not (with what it wrote to its error stream).
pub type Cikti = Result<(bool, String), String>;

/// A script's run read: a start failure names the runner; a dismissed
/// administrator prompt (`-128`) is a cancel when `iptal_var`; any other
/// failure is `basarisiz` and the trimmed error text.
pub open spec fn calisma_sonucu(c: Result<(bool, Seq<char>), Seq<char>>, calistirici: Seq<char>, iptal_var: bool, basarisiz: Seq<char>) -> Result<(), Seq<char>> {
    match c {
        Err(e) => Err(calistirici + " çalıştırılamadı: "@ + e),
        Ok((true, _)) => Ok(()),
        Ok((false, h)) => if iptal_var && icerir(h, "-128"@) {
            Err("İptal edildi."@)
        } else {
            Err(basarisiz + kirpilmis(h))
        },
    }
}

/// A script's run, by its views.
pub open spec fn cikti_gorunumu(c: Cikti) -> Result<(bool, Seq<char>), Seq<char>> {
    match c {
        Err(e) => Err(e@),
        Ok((b, h)) => Ok((b, h@)),
    }
}

/// A `Result` of nothing or a message, by its view.
pub open spec fn bos_sonuc(r: Result<(), String>) -> Result<(), Seq<char>> {
    match r {
        Ok(()) => Ok(()),
        Err(e) => Err(e@),
    }
}

fn calisma_sonucunu_oku(c: Cikti, calistirici: &str, iptal_var: bool, basarisiz: &str) -> (r: Result<(), String>)
    ensures
        bos_sonuc(r) == calisma_sonucu(cikti_gorunumu(c), calistirici@, iptal_var, basarisiz@),
{
    match c {
        Err(e) => {
            let mut v = karakterler(calistirici);
            ekle(&mut v, &karakterler(" çalıştırılamadı: "));
            ekle(&mut v, &karakterler(e.as_str()));
            Err(metin_yap(&v))
        },
        Ok((true, _)) => Ok(()),
        Ok((false, h)) => {
            let hk = karakterler(h.as_str());
            if iptal_var && alt_metin_var(&hk, &karakterler("-128")) {
                return Err("İptal edildi.".to_owned());
            }
            let mut v = karakterler(basarisiz);
            ekle(&mut v, &kirp(&hk));
            Err(metin_yap(&v))
        },
    }
}

/// Removing the protection profile, read from its run. A profile that is
/// not there makes `profiles remove` fail; that is said, not hidden.
pub fn profil_kaldir(c: Cikti) -> (r: Result<(), String>)
    ensures
        bos_sonuc(r) == calisma_sonucu(cikti_gorunumu(c), "osascript"@, true, "Kaldırılamadı (profil yüklü olmayabilir): "@),
{
    calisma_sonucunu_oku(c, "osascript", true, "Kaldırılamadı (profil yüklü olmayabilir): ")
}

/// The external-extension install, read from its run.
pub fn eklenti_kur(c: Cikti) -> (r: Result<(), String>)
    ensures
        bos_sonuc(r) == calisma_sonucu(cikti_gorunumu(c), "osascript"@, true, "Eklenti kurulamadı: "@),
{
    calisma_sonucunu_oku(c, "osascript", true, "Eklenti kurulamadı: ")
}

/// Undoing the external install, read from its run.
pub fn eklenti_kaldir(c: Cikti) -> (r: Result<(), String>)
    ensures
        bos_sonuc(r) == calisma_sonucu(cikti_gorunumu(c), "osascript"@, false, "Kaldırılamadı: "@),
{
    calisma_sonucunu_oku(c, "osascript", false, "Kaldırılamadı: ")
}

/// The first step of installing on macOS (the managed preferences written
/// directly), read from its run: a start failure or a cancel ends the
/// install; any other failure is NOT fatal, since modern macOS no longer
/// takes such files and the profile way follows. `None`: go on.
pub fn kur_ilk_adim(c: Cikti) -> (r: Option<Result<(), String>>)
    ensures
        match cikti_gorunumu(c) {
            Err(e) => r matches Some(Err(m)) && m@ == "osascript çalıştırılamadı: "@ + e,
            Ok((false, h)) => if icerir(h, "-128"@) {
                r matches Some(Err(m)) && m@ == "İptal edildi."@
            } else {
                r is None
            },
            Ok((true, _)) => r is None,
        },
{
    match c {
        Err(e) => {
            let mut v = karakterler("osascript çalıştırılamadı: ");
            ekle(&mut v, &karakterler(e.as_str()));
            Some(Err(metin_yap(&v)))
        },
        Ok((true, _)) => None,
        Ok((false, h)) => {
            if alt_metin_var(&karakterler(h.as_str()), &karakterler("-128")) {
                Some(Err("İptal edildi.".to_owned()))
            } else {
                None
            }
        },
    }
}

/// Installing on Windows, read from the elevated PowerShell's run.
pub fn kur_windows(c: Cikti) -> (r: Result<(), String>)
    ensures
        bos_sonuc(r) == calisma_sonucu(cikti_gorunumu(c), "powershell"@, false, "Kurulamadı (yönetici izni verilmemiş olabilir): "@),
{
    calisma_sonucunu_oku(c, "powershell", false, "Kurulamadı (yönetici izni verilmemiş olabilir): ")
}

/// The address of the extension package, shown as a link that can be copied.
pub fn eklenti_zip_adresi() -> (s: &'static str)
    ensures
        s@ == EKLENTI_ZIP@,
{
    EKLENTI_ZIP
}

/// Where the external-install file lies: named by the extension id in
/// Chrome's external extensions folder.
pub fn eklenti_dosyasi_yolu() -> (s: String)
    ensures
        s@ == "/Library/Application Support/Google/Chrome/External Extensions/"@ + EKLENTI_ID@ + ".json"@,
{
    let mut v = karakterler("/Library/Application Support/Google/Chrome/External Extensions/");
    ekle(&mut v, &karakterler(EKLENTI_ID));
    ekle(&mut v, &karakterler(".json"));
    metin_yap(&v)
}

/// Whether the cached published version is still fresh after `gecen`
/// nanoseconds: asking the server every minute would be rude.
pub fn yayin_taze(gecen: u128) -> (b: bool)
    ensures
        b == (gecen < YAYIN_TAZELIK_NS),
{
    gecen < YAYIN_TAZELIK_NS
}

// ── Versions of the extension ───────────────────────────────────────────────

/// The version in an update manifest: what stands between `version='` and
/// the next `'`.
pub open spec fn manifest_surumu(m: Seq<char>) -> Option<Seq<char>> {
    match ilk_alt(m, "version='"@) {
        None => None,
        Some(i) => {
            let k = m.skip(i + 9);
            match ilk_konum(k, '\'') {
                Some(j) => Some(k.take(j)),
                None => None,
            }
        },
    }
}

/// Reads the version out of the update manifest's text.
pub fn surum_ayikla(metin: &str) -> (r: Option<String>)
    ensures
        match r {
            Some(v) => manifest_surumu(metin@) == Some(v@),
            None => manifest_surumu(metin@) is None,
        },
{
    proof {
        reveal_strlit("version='");
    }
    let m = karakterler(metin);
    let mlen = m.len();
    let i = match ilk_alt_bul(&m, &karakterler("version='")) {
        Some(i) => i,
        None => return None,
    };
    assert(i + 9 <= mlen) by {
        let w = choose|w: int| ilk_alt_mi(m@, "version='"@, w);
    }
    let k = parca_al(&m, i + 9, mlen);
    assert(k@ =~= m@.skip(i + 9));
    match ilk_konum_bul(&k, '\'') {
        Some(j) => {
            proof {
                crate::metin::ilk_konum_ozellik(k@, '\'');
            }
            let v = parca_al(&k, 0, j);
            assert(v@ =~= k@.take(j as int));
            Some(metin_yap(&v))
        },
        None => None,
    }
}

/// `s` without one leading `+`.
pub open spec fn isaretsiz(s: Seq<char>) -> Seq<char> {
    if s.len() > 0 && s[0] == '+' {
        s.drop_first()
    } else {
        s
    }
}

/// Whether `d` holds only decimal digits.
pub open spec fn hep_rakam(d: Seq<char>) -> bool {
    forall|k: int| 0 <= k < d.len() ==> rakam_mi(#[trigger] d[k])
}

/// What `str::parse::<u32>` gives: an optional `+`, then only decimal
/// digits (at least one), of a value that fits in 32 bits.
pub open spec fn u32_degeri(s: Seq<char>) -> Option<u32> {
    let d = isaretsiz(s);
    if d.len() > 0 && hep_rakam(d) && sayi(d) <= u32::MAX {
        Some(sayi(d) as u32)
    } else {
        None
    }
}

proof fn sayi_onek(s: Seq<char>, i: int)
    requires
        0 <= i <= s.len(),
    ensures
        sayi(s.take(i)) <= sayi(s),
    decreases s.len() - i,
{
    if i < s.len() {
        sayi_onek(s.drop_last(), i);
        assert(s.drop_last().take(i) =~= s.take(i));
    } else {
        assert(s.take(i) =~= s);
    }
}

fn u32_ayristir(s: &[char]) -> (r: Option<u32>)
    ensures
        r == u32_degeri(s@),
{
    let n = s.len();
    let bas: usize = if n > 0 && s[0] == '+' { 1 } else { 0 };
    let d = parca_al(s, bas, n);
    assert(d@ == isaretsiz(s@)) by {
        if bas == 1 {
            assert(d@ =~= s@.drop_first());
        } else {
            assert(d@ =~= s@);
        }
    }
    let m = d.len();
    if m == 0 {
        return None;
    }
    let mut deger: u64 = 0;
    let mut i: usize = 0;
    while i < m
        invariant
            m == d@.len(),
            d@ == isaretsiz(s@),
            0 <= i <= m,
            forall|k: int| 0 <= k < i ==> rakam_mi(#[trigger] d@[k]),
            deger == sayi(d@.take(i as int)),
            deger <= u32::MAX,
        decreases m - i,
    {
        let c = d[i];
        if !('0' <= c && c <= '9') {
            assert(!rakam_mi(d@[i as int]));
            assert(!(forall|k: int| 0 <= k < d@.len() ==> rakam_mi(#[trigger] d@[k])));
            assert(u32_degeri(s@) is None);
            return None;
        }
        let yeni: u64 = deger * 10 + ((c as u32) - ('0' as u32)) as u64;
        assert(d@.take(i + 1).drop_last() =~= d@.take(i as int));
        assert(sayi(d@.take(i + 1)) == sayi(d@.take(i as int)) * 10 + crate::surum::rakam_degeri(c));
        if yeni > 0xFFFF_FFFF {
            proof {
                sayi_onek(d@, i + 1);
            }
            return None;
        }
        deger = yeni;
        i = i + 1;
    }
    assert(d@.take(m as int) =~= d@);
    Some(deger as u32)
}

/// The numbers of a dotted version; a part that is no number counts as 0.
pub open spec fn surum_sayilari(v: Seq<char>) -> Seq<u32> {
    let ps = parcalar(v, '.');
    Seq::new(ps.len(), |i: int| match u32_degeri(ps[i]) {
        Some(x) => x,
        None => 0,
    })
}

/// The `i`th number of a version, 0 past its end.
pub open spec fn sayi_ya_da_sifir(x: Seq<u32>, i: int) -> u32 {
    if 0 <= i < x.len() {
        x[i]
    } else {
        0
    }
}

/// Whether `x` is below `y` from position `i` on: at the first difference,
/// the smaller number; equal (with missing parts as 0) is not below.
pub open spec fn kucuk_sirali(x: Seq<u32>, y: Seq<u32>, i: int) -> bool
    decreases (if x.len() > y.len() { x.len() } else { y.len() }) - i,
{
    if i < 0 || i >= (if x.len() > y.len() { x.len() } else { y.len() }) {
        false
    } else if sayi_ya_da_sifir(x, i) != sayi_ya_da_sifir(y, i) {
        sayi_ya_da_sifir(x, i) < sayi_ya_da_sifir(y, i)
    } else {
        kucuk_sirali(x, y, i + 1)
    }
}

fn surum_sayilarini_al(v: &str) -> (x: Vec<u32>)
    ensures
        x@ == surum_sayilari(v@),
{
    let ps = parcala(&karakterler(v), '.');
    let ghost tum = parcalar(v@, '.');
    let n = ps.len();
    let mut x: Vec<u32> = Vec::new();
    for i in 0..n
        invariant
            n == ps@.len(),
            n == tum.len(),
            tum == parcalar(v@, '.'),
            forall|j: int| 0 <= j < n ==> #[trigger] ps@[j]@ == tum[j],
            x@.len() == i,
            forall|j: int| 0 <= j < i ==> #[trigger] x@[j] == surum_sayilari(v@)[j],
    {
        let d = match u32_ayristir(&ps[i]) {
            Some(d) => d,
            None => 0,
        };
        x.push(d);
    }
    assert(x@ =~= surum_sayilari(v@));
    x
}

/// Whether version `a` is older than version `b`, part by part.
pub fn surum_kucuk_mu(a: &str, b: &str) -> (r: bool)
    ensures
        r == kucuk_sirali(surum_sayilari(a@), surum_sayilari(b@), 0),
{
    let x = surum_sayilarini_al(a);
    let y = surum_sayilarini_al(b);
    let n = if x.len() > y.len() { x.len() } else { y.len() };
    let mut i: usize = 0;
    while i < n
        invariant
            n == (if x@.len() > y@.len() { x@.len() } else { y@.len() }),
            x@ == surum_sayilari(a@),
            y@ == surum_sayilari(b@),
            0 <= i <= n,
            kucuk_sirali(x@, y@, 0) == kucuk_sirali(x@, y@, i as int),
        decreases n - i,
    {
        let m = if i < x.len() { x[i] } else { 0 };
        let k = if i < y.len() { y[i] } else { 0 };
        assert(m == sayi_ya_da_sifir(x@, i as int));
        assert(k == sayi_ya_da_sifir(y@, i as int));
        if m != k {
            return m < k;
        }
        i = i + 1;
    }
    false
}

/// Whether the unpacked extension must be refreshed: its folder holds a
/// version and the server publishes a newer one. The version to fetch, if so.
pub fn eklenti_tazele(yerel: Option<String>, uzak: Option<String>) -> (r: Option<String>)
    ensures
        match (yerel, uzak) {
            (Some(y), Some(u)) => if kucuk_sirali(surum_sayilari(y@), surum_sayilari(u@), 0) {
                r is Some && r->0@ == u@
            } else {
                r is None
            },
            _ => r is None,
        },
{
    match (yerel, uzak) {
        (Some(y), Some(u)) => {
            if surum_kucuk_mu(y.as_str(), u.as_str()) {
                Some(u)
            } else {
                None
            }
        },
        _ => None,
    }
}

/// A version is never older than itself, and of two versions at most one
/// is older than the other.
pub proof fn surum_sirasi(x: Seq<u32>, y: Seq<u32>, i: int)
    ensures
        !kucuk_sirali(x, x, i),
        !(kucuk_sirali(x, y, i) && kucuk_sirali(y, x, i)),
    decreases (if x.len() > y.len() { x.len() } else { y.len() }) - i,
{
    if 0 <= i < (if x.len() > y.len() { x.len() } else { y.len() }) {
        if sayi_ya_da_sifir(x, i) == sayi_ya_da_sifir(y, i) {
            surum_sirasi(x, y, i + 1);
        }
    }
    if 0 <= i < x.len() {
        surum_sirasi(x, x, i + 1);
    }
}

} // verus!

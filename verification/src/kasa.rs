//! The vault server's protocol as the client speaks it: which request each
//! action sends, what a reply means, the sign-in steps, and the password
//! generator and strength meter that run on the device.
//!
//! Tokens and passwords are never handed to the web view: the interface sees
//! labels and user names only.

use vstd::prelude::*;
use crate::metin::{karakterler, metin_yap, ekle, i64_ondalik, ondalik, icerir, alt_metin_var};

verus! {

/// The server, of the same domain family as the other programs.
pub const SUNUCU: &'static str = "https://dcim.bogahost.com";

/// The server's address, as characters.
pub open spec fn sunucu() -> Seq<char> {
    SUNUCU@
}

/// An item as the list shows it: never its password.
#[derive(Debug, Clone, Default, PartialEq, Eq)]
pub struct Kayit {
    pub id: i64,
    pub label: String,
    pub domain: Option<String>,
    pub url: Option<String>,
    pub username: Option<String>,
    pub category: Option<String>,
    pub ip: Option<String>,
    /// Whether the item belongs to this user: editing and deleting depend on it.
    pub benim: bool,
    /// Last fill or reveal (ISO 8601).
    pub son_kullanim: Option<String>,
    /// When the item was made: how old the password is.
    pub olusturma: Option<String>,
    pub guncelleme: Option<String>,
    /// Password strength 0–3, computed ON THE SERVER: the password never comes.
    pub guc: Option<u8>,
    /// Hidden item: the person it is shared with may FILL it but not see it.
    pub gizli: bool,
    /// Whether this user may see or copy it (the owner always may).
    pub gosterilebilir: bool,
}

/// The outcome of a sign-in step, as the interface sees it.
#[derive(Debug, Clone, PartialEq, Eq)]
pub struct GirisSonuc {
    pub tamam: bool,
    pub iki_adim: bool,
    pub hata: Option<String>,
    pub kurulum_gerekli: bool,
    pub kullanici: Option<String>,
}

/// An HTTP method.
#[derive(Debug, Clone, Copy, PartialEq, Eq, Structural)]
pub enum Metot {
    Get,
    Post,
    Put,
    Delete,
}

/// A request to the server: the method and the full address. Every request
/// carries the device token as a bearer credential.
#[derive(Debug, Clone, PartialEq, Eq)]
pub struct Istek {
    pub metot: Metot,
    pub adres: String,
}

// ── Requests ────────────────────────────────────────────────────────────────

/// `{server}{on}{id}{son}`.
pub open spec fn adres_metni(on: Seq<char>, id: int, son: Seq<char>) -> Seq<char> {
    sunucu() + on + ondalik(id) + son
}

fn adres(on: &str, id: i64, son: &str) -> (s: String)
    ensures
        s@ == adres_metni(on@, id as int, son@),
{
    let mut v = karakterler(SUNUCU);
    ekle(&mut v, &karakterler(on));
    ekle(&mut v, &i64_ondalik(id));
    ekle(&mut v, &karakterler(son));
    metin_yap(&v)
}

fn sabit_adres(yol: &str) -> (s: String)
    ensures
        s@ == sunucu() + yol@,
{
    let mut v = karakterler(SUNUCU);
    ekle(&mut v, &karakterler(yol));
    metin_yap(&v)
}

/// Checks the session: `GET /vault/api/me`.
pub fn oturum_istegi() -> (r: Istek)
    ensures
        r.metot == Metot::Get,
        r.adres@ == sunucu() + "/vault/api/me"@,
{
    Istek { metot: Metot::Get, adres: sabit_adres("/vault/api/me") }
}

/// Whether the session holds: a token is kept and the server answered the
/// check with a success status (2xx). `durum_kodu` is `None` when the
/// request did not get through.
pub fn oturum_gecerli(jeton_var: bool, durum_kodu: Option<u16>) -> (b: bool)
    ensures
        b == (jeton_var && (durum_kodu matches Some(k) && 200 <= k <= 299)),
{
    if !jeton_var {
        return false;
    }
    match durum_kodu {
        Some(k) => 200 <= k && k <= 299,
        None => false,
    }
}

/// Deletes an item (it goes to the bin): `DELETE /vault/api/items/{id}`.
pub fn kayit_sil(id: i64) -> (r: Istek)
    ensures
        r.metot == Metot::Delete,
        r.adres@ == adres_metni("/vault/api/items/"@, id as int, ""@),
{
    Istek { metot: Metot::Delete, adres: adres("/vault/api/items/", id, "") }
}

/// Restores an item from the bin: `POST /vault/api/cop/{id}/geri`.
pub fn cop_geri(id: i64) -> (r: Istek)
    ensures
        r.metot == Metot::Post,
        r.adres@ == adres_metni("/vault/api/cop/"@, id as int, "/geri"@),
{
    Istek { metot: Metot::Post, adres: adres("/vault/api/cop/", id, "/geri") }
}

/// Deletes an item from the bin for good: `DELETE /vault/api/cop/{id}`.
pub fn cop_kalici_sil(id: i64) -> (r: Istek)
    ensures
        r.metot == Metot::Delete,
        r.adres@ == adres_metni("/vault/api/cop/"@, id as int, ""@),
{
    Istek { metot: Metot::Delete, adres: adres("/vault/api/cop/", id, "") }
}

/// Rolls an item back to a revision: `POST /vault/api/items/{id}/surum/{revizyon}`.
pub fn surume_don(id: i64, revizyon: i64) -> (r: Istek)
    ensures
        r.metot == Metot::Post,
        r.adres@ == adres_metni("/vault/api/items/"@, id as int, "/surum/"@) + ondalik(revizyon as int),
{
    let mut v = karakterler(adres("/vault/api/items/", id, "/surum/").as_str());
    ekle(&mut v, &i64_ondalik(revizyon));
    Istek { metot: Metot::Post, adres: metin_yap(&v) }
}

/// Signs a device out: `DELETE /vault/api/cihazlar/{id}`.
pub fn cihaz_iptal(id: i64) -> (r: Istek)
    ensures
        r.metot == Metot::Delete,
        r.adres@ == adres_metni("/vault/api/cihazlar/"@, id as int, ""@),
{
    Istek { metot: Metot::Delete, adres: adres("/vault/api/cihazlar/", id, "") }
}

/// Signs out every device but this one:
/// `POST /vault/api/cihazlar/digerlerini-kapat`.
pub fn diger_cihazlari_kapat() -> (r: Istek)
    ensures
        r.metot == Metot::Post,
        r.adres@ == sunucu() + "/vault/api/cihazlar/digerlerini-kapat"@,
{
    Istek { metot: Metot::Post, adres: sabit_adres("/vault/api/cihazlar/digerlerini-kapat") }
}

// ── Replies ─────────────────────────────────────────────────────────────────

/// What a reply means: `ok: true` is success; anything else is the server's
/// own error text, or `HTTP {code}` when it sent none. The reason is shown
/// as it is: it leads the user to the fix.
pub open spec fn yanit_anlami(ok: Option<bool>, hata: Option<Seq<char>>, kod: u16) -> Result<(), Seq<char>> {
    if ok == Some(true) {
        Ok(())
    } else {
        match hata {
            Some(h) => Err(h),
            None => Err("HTTP "@ + ondalik(kod as int)),
        }
    }
}

/// Reads a reply by its `ok` flag, its `error` text and its status code.
pub fn yanit_sonucu(ok: Option<bool>, hata: Option<String>, kod: u16) -> (r: Result<(), String>)
    ensures
        match r {
            Ok(()) => yanit_anlami(ok, secenek_metin(hata), kod) is Ok,
            Err(e) => yanit_anlami(ok, secenek_metin(hata), kod) == Err::<(), Seq<char>>(e@),
        },
{
    if ok == Some(true) {
        return Ok(());
    }
    match hata {
        Some(h) => Err(h),
        None => {
            let mut v = karakterler("HTTP ");
            ekle(&mut v, &i64_ondalik(kod as i64));
            Err(metin_yap(&v))
        },
    }
}

/// A request that needs a session, with the token to send it with. Without
/// a token nothing is sent: the answer is "Oturum yok.".
pub fn oturumlu_istek(jeton: Option<String>, istek: Istek) -> (r: Result<(String, Istek), String>)
    ensures
        jeton is None ==> r is Err && r->Err_0@ == "Oturum yok."@,
        jeton matches Some(t) ==> r is Ok && r->Ok_0.0@ == t@ && r->Ok_0.1 == istek,
{
    match jeton {
        Some(t) => Ok((t, istek)),
        None => Err("Oturum yok.".to_owned()),
    }
}

/// How a sent request came back.
pub enum Donus {
    /// It could not be sent or answered; the transport's reason.
    Ulasilamadi(String),
    /// The reply's body is not JSON; the reader's reason.
    Okunamadi(String),
    /// A JSON reply: its `ok` flag, its `error` text (if a string) and the
    /// HTTP status.
    Geldi { ok: Option<bool>, hata: Option<String>, kod: u16 },
}

/// What a request's return means.
pub open spec fn donus_anlami(d: Donus) -> Result<(), Seq<char>> {
    match d {
        Donus::Ulasilamadi(e) => Err("Sunucuya ulasilamadi: "@ + e@),
        Donus::Okunamadi(e) => Err("Yanit okunamadi: "@ + e@),
        Donus::Geldi { ok, hata, kod } => yanit_anlami(ok, secenek_metin(hata), kod),
    }
}

/// Reads how a request came back: a transport or reading failure with its
/// reason, or the reply by `yanit_sonucu`.
pub fn donus_sonucu(d: Donus) -> (r: Result<(), String>)
    ensures
        match r {
            Ok(()) => donus_anlami(d) is Ok,
            Err(e) => donus_anlami(d) == Err::<(), Seq<char>>(e@),
        },
{
    match d {
        Donus::Ulasilamadi(e) => {
            let mut v = karakterler("Sunucuya ulasilamadi: ");
            ekle(&mut v, &karakterler(e.as_str()));
            Err(metin_yap(&v))
        },
        Donus::Okunamadi(e) => {
            let mut v = karakterler("Yanit okunamadi: ");
            ekle(&mut v, &karakterler(e.as_str()));
            Err(metin_yap(&v))
        },
        Donus::Geldi { ok, hata, kod } => yanit_sonucu(ok, hata, kod),
    }
}

/// An optional string by its characters.
pub open spec fn secenek_metin(o: Option<String>) -> Option<Seq<char>> {
    match o {
        Some(s) => Some(s@),
        None => None,
    }
}

/// The sign-in outcome when the server could not be reached.
pub fn ulasilamadi(neden: &str) -> (g: GirisSonuc)
    ensures
        !g.tamam && !g.iki_adim && !g.kurulum_gerekli && g.kullanici is None,
        g.hata matches Some(h) && h@ == "Sunucuya ulasilamadi: "@ + neden@,
{
    let mut v = karakterler("Sunucuya ulasilamadi: ");
    ekle(&mut v, &karakterler(neden));
    GirisSonuc {
        tamam: false,
        iki_adim: false,
        kurulum_gerekli: false,
        kullanici: None,
        hata: Some(metin_yap(&v)),
    }
}

/// The first sign-in step's reply: on success the second step (the code)
/// follows; on failure the server's reason, and whether the vault still has
/// to be set up.
pub fn giris_yaniti(ok: Option<bool>, kurulum_gerekli: Option<bool>, hata: Option<String>, kullanici: Option<String>) -> (g: GirisSonuc)
    ensures
        ok == Some(true) ==> g.tamam && g.iki_adim && g.hata is None && !g.kurulum_gerekli
            && secenek_metin(g.kullanici) == secenek_metin(kullanici),
        ok != Some(true) ==> {
            &&& !g.tamam && !g.iki_adim && g.kullanici is None
            &&& g.kurulum_gerekli == (kurulum_gerekli == Some(true))
            &&& (g.hata matches Some(h) && h@ == (match hata {
                Some(m) => m@,
                None => "Giris yapilamadi."@,
            }))
        },
{
    if ok != Some(true) {
        let h = match hata {
            Some(m) => m,
            None => "Giris yapilamadi.".to_owned(),
        };
        return GirisSonuc {
            tamam: false,
            iki_adim: false,
            kurulum_gerekli: kurulum_gerekli == Some(true),
            kullanici: None,
            hata: Some(h),
        };
    }
    GirisSonuc { tamam: true, iki_adim: true, hata: None, kurulum_gerekli: false, kullanici }
}

/// The second step refused before any request: no ticket from the first step.
pub fn bilet_yok() -> (g: GirisSonuc)
    ensures
        !g.tamam && !g.iki_adim && !g.kurulum_gerekli && g.kullanici is None,
        g.hata matches Some(h) && h@ == "Once giris yapin."@,
{
    GirisSonuc {
        tamam: false,
        iki_adim: false,
        kurulum_gerekli: false,
        kullanici: None,
        hata: Some("Once giris yapin.".to_owned()),
    }
}

/// The second step's reply. A failure keeps the ticket unless the server
/// says it timed out ("zaman"): the ticket is single-use. The boolean tells
/// whether to drop the ticket.
pub fn dogrulama_yaniti(ok: Option<bool>, hata: Option<String>, kullanici: Option<String>) -> (r: (GirisSonuc, bool))
    ensures
        ok == Some(true) ==> r.0.tamam && !r.0.iki_adim && r.0.hata is None && !r.0.kurulum_gerekli
            && secenek_metin(r.0.kullanici) == secenek_metin(kullanici) && !r.1,
        ok != Some(true) ==> {
            &&& !r.0.tamam && !r.0.iki_adim && !r.0.kurulum_gerekli && r.0.kullanici is None
            &&& (r.0.hata matches Some(h) && h@ == (match hata {
                Some(m) => m@,
                None => "Kod dogrulanamadi."@,
            }))
            &&& r.1 == (hata matches Some(m) && icerir(m@, "zaman"@))
        },
{
    if ok == Some(true) {
        return (
            GirisSonuc { tamam: true, iki_adim: false, hata: None, kurulum_gerekli: false, kullanici },
            false,
        );
    }
    let (h, dusur) = match hata {
        Some(m) => {
            let d = alt_metin_var(&karakterler(m.as_str()), &karakterler("zaman"));
            (m, d)
        },
        None => ("Kod dogrulanamadi.".to_owned(), false),
    };
    (GirisSonuc { tamam: false, iki_adim: false, kurulum_gerekli: false, kullanici: None, hata: Some(h) }, dusur)
}

/// What the client keeps of a sign-in: the device token, and the ticket of
/// an unfinished two-step sign-in.
pub struct OturumAnahtarlari {
    pub jeton: Option<String>,
    pub bilet: Option<String>,
}

/// After the first step: a successful reply's ticket is kept for the second
/// step; otherwise nothing changes.
pub fn giris_sonrasi(o: OturumAnahtarlari, ok: Option<bool>, bilet: Option<String>) -> (r: OturumAnahtarlari)
    ensures
        secenek_metin(r.jeton) == secenek_metin(o.jeton),
        ok == Some(true) && bilet is Some ==> secenek_metin(r.bilet) == secenek_metin(bilet),
        !(ok == Some(true) && bilet is Some) ==> secenek_metin(r.bilet) == secenek_metin(o.bilet),
{
    if ok == Some(true) {
        if let Some(b) = bilet {
            return OturumAnahtarlari { jeton: o.jeton, bilet: Some(b) };
        }
    }
    o
}

/// After the second step, with the reply's `ok`, `error` and `jeton`. A
/// refusal drops the ticket when the server says it timed out ("zaman"),
/// since a ticket is single-use, and keeps everything else. A success that
/// brings a token makes it the session's token, drops the ticket, and hands
/// the token back to be saved on the device; a success without one changes
/// nothing.
pub fn dogrulama_sonrasi(o: OturumAnahtarlari, ok: Option<bool>, hata: &Option<String>, jeton: Option<String>)
    -> (r: (OturumAnahtarlari, Option<String>))
    ensures
        ok != Some(true) ==> {
            &&& secenek_metin(r.0.jeton) == secenek_metin(o.jeton)
            &&& (match hata {
                Some(m) if icerir(m@, "zaman"@) => r.0.bilet is None,
                _ => secenek_metin(r.0.bilet) == secenek_metin(o.bilet),
            })
            &&& r.1 is None
        },
        ok == Some(true) && jeton is Some ==> {
            &&& secenek_metin(r.0.jeton) == secenek_metin(jeton)
            &&& r.0.bilet is None
            &&& secenek_metin(r.1) == secenek_metin(jeton)
        },
        ok == Some(true) && jeton is None ==> {
            &&& secenek_metin(r.0.jeton) == secenek_metin(o.jeton)
            &&& secenek_metin(r.0.bilet) == secenek_metin(o.bilet)
            &&& r.1 is None
        },
{
    if ok != Some(true) {
        let dusur = match hata {
            Some(m) => alt_metin_var(&karakterler(m.as_str()), &karakterler("zaman")),
            None => false,
        };
        if dusur {
            return (OturumAnahtarlari { jeton: o.jeton, bilet: None }, None);
        }
        return (o, None);
    }
    match jeton {
        Some(t) => {
            let kayit = t.clone();
            (OturumAnahtarlari { jeton: Some(t), bilet: None }, Some(kayit))
        },
        None => (o, None),
    }
}

// ── Password generator ──────────────────────────────────────────────────────
//
// Randomness comes from the operating system (getrandom); a home-made mixer
// is the worst thing a password generator can have.

/// Upper-case letters without `I` and `O`.
pub open spec fn buyuk_harfler() -> Seq<char> {
    "ABCDEFGHJKLMNPQRSTUVWXYZ"@
}

/// Lower-case letters without `l`.
pub open spec fn kucuk_harfler() -> Seq<char> {
    "abcdefghijkmnopqrstuvwxyz"@
}

/// Digits without `0` and `1`.
pub open spec fn rakamlar() -> Seq<char> {
    "23456789"@
}

/// The symbols.
pub open spec fn simgeler() -> Seq<char> {
    "!@#$%^&*()-_=+[]{}<>?"@
}

/// The characters from which the shuffle draws its positions.
pub open spec fn alfanumerik() -> Seq<char> {
    "0123456789abcdefghijklmnopqrstuvwxyz"@
}

/// The characters a password may hold, for the chosen classes.
pub open spec fn havuz(rakam: bool, simge: bool) -> Seq<char> {
    buyuk_harfler() + kucuk_harfler() + (if rakam {
        rakamlar()
    } else {
        Seq::empty()
    }) + (if simge {
        simgeler()
    } else {
        Seq::empty()
    })
}

/// The length asked for, held between 8 and 128.
pub open spec fn parola_boyu(uzunluk: usize) -> int {
    if uzunluk < 8 {
        8
    } else if uzunluk > 128 {
        128
    } else {
        uzunluk as int
    }
}

/// Whether some character of `s` belongs to `h`.
pub open spec fn sinifi_var(s: Seq<char>, h: Seq<char>) -> bool {
    exists|k: int| 0 <= k < s.len() && h.contains(#[trigger] s[k])
}

/// `getrandom::getrandom` into one byte: `None` when the operating system
/// refuses randomness. Nothing is claimed of the value, which is random.
#[verifier::external_body]
fn rastgele_bayt() -> (b: Option<u8>) {
    let mut b = [0u8; 1];
    getrandom::getrandom(&mut b).ok().map(|_| b[0])
}

/// What one drawn byte `b` picks from `havuz`: the character at `b mod n`
/// when `b` falls below the last whole multiple of `n` under 256; nothing
/// otherwise (the draw is thrown away, since `b mod n` would favour the first
/// characters).
pub open spec fn bayttan_secim(havuz: Seq<char>, b: u8) -> Option<char> {
    let n = havuz.len() as int;
    if (b as int) < 256int - 256int % n {
        Some(havuz[(b as int) % n])
    } else {
        None
    }
}

/// The pick that one drawn byte makes from `havuz` (see `bayttan_secim`).
pub fn sec_bayttan(havuz: &[char], b: u8) -> (c: Option<char>)
    requires
        0 < havuz@.len() <= 256,
    ensures
        c == bayttan_secim(havuz@, b),
{
    let n = havuz.len();
    let sinir: usize = 256 - (256 % n);
    let bu = b as usize;
    if bu < sinir {
        Some(havuz[bu % n])
    } else {
        None
    }
}

/// An unbiased pick from `havuz`. `byte % len` favours the first characters
/// when 256 is not a multiple of the length, so draws past the last whole
/// multiple are thrown away and drawn again. `None` when the operating
/// system refuses randomness, or after 2⁶⁴−1 thrown draws (each thrown with
/// probability under one half): a source that never lands is broken too.
fn sec(havuz: &[char]) -> (c: Option<char>)
    requires
        0 < havuz@.len() <= 256,
    ensures
        c matches Some(x) ==> havuz@.contains(x),
{
    let n = havuz.len();
    let mut deneme: u64 = u64::MAX;
    while deneme > 0
        invariant
            n == havuz@.len(),
            0 < n <= 256,
        decreases deneme,
    {
        let b = match rastgele_bayt() {
            Some(b) => b,
            None => return None,
        };
        if let Some(c) = sec_bayttan(havuz, b) {
            assert(havuz@[(b as int) % (n as int)] == c);
            return Some(c);
        }
        deneme = deneme - 1;
    }
    None
}

/// The strength that a generated password of `n` characters has: fair with
/// letters only; with digits or symbols as well, fair under 12 characters,
/// good under 16, strong from 16 on.
pub open spec fn uretilen_guc(n: nat, rakam: bool, simge: bool) -> u8 {
    if !rakam && !simge {
        1
    } else if n < 12 {
        1
    } else if n < 16 {
        2
    } else {
        3
    }
}

fn rastgelelik_yok() -> (r: Result<String, String>)
    ensures
        r matches Err(e) && e@ == crate::kripto::rastgele_hatasi(),
{
    Err("İşletim sistemi rastgeleliği alınamadı.".to_owned())
}

/// Swapping two places keeps every class that the sequence holds.
proof fn takas_sinifi_korur(s: Seq<char>, i: int, j: int, h: Seq<char>)
    requires
        0 <= i < s.len(),
        0 <= j < s.len(),
        sinifi_var(s, h),
    ensures
        sinifi_var(s.update(i, s[j]).update(j, s[i]), h),
{
    let t = s.update(i, s[j]).update(j, s[i]);
    let w = choose|k: int| 0 <= k < s.len() && h.contains(#[trigger] s[k]);
    if w == i {
        assert(t[j] == s[i]);
    } else if w == j {
        if i == j {
            assert(t[j] == s[i]);
        } else {
            assert(t[i] == s[j]);
        }
    } else {
        assert(t[w] == s[w]);
    }
}

/// Appending keeps every class that the sequence holds.
proof fn ekleme_sinifi_korur(s: Seq<char>, x: char, h: Seq<char>)
    requires
        sinifi_var(s, h),
    ensures
        sinifi_var(s.push(x), h),
{
    let w = choose|k: int| 0 <= k < s.len() && h.contains(#[trigger] s[k]);
    assert(s.push(x)[w] == s[w]);
}

/// The characters drawn for a password fit for it: every one from the pool
/// of the chosen classes, and each chosen class there at least once.
pub open spec fn secim_uygun(s: Seq<char>, rakam: bool, simge: bool) -> bool {
    &&& forall|k: int| 0 <= k < s.len() ==> havuz(rakam, simge).contains(#[trigger] s[k])
    &&& sinifi_var(s, buyuk_harfler())
    &&& sinifi_var(s, kucuk_harfler())
    &&& rakam ==> sinifi_var(s, rakamlar())
    &&& simge ==> sinifi_var(s, simgeler())
}

/// The Fisher–Yates shuffle of `c` from place `i` down to place 1, driven by
/// the picks `k`: place `i` is swapped with place `code(k[len-1-i]) mod (i+1)`.
pub open spec fn karistirilmis(c: Seq<char>, k: Seq<char>, i: int) -> Seq<char>
    decreases i,
{
    if i < 1 || i >= c.len() {
        c
    } else {
        let j = ((k[c.len() - 1 - i] as u32) as int) % (i + 1);
        karistirilmis(c.update(i, c[j]).update(j, c[i]), k, i - 1)
    }
}

/// The password from the drawn characters `secilen` (the guaranteed ones
/// first, then the rest) shuffled by the drawn picks `secimler`. When the
/// drawn characters fit the chosen classes, so does the password: its
/// length, pool, classes and strength are those that `parola_uret` promises.
pub fn parola_kur(uzunluk: usize, rakam: bool, simge: bool, secilen: &[char], secimler: &[char]) -> (p: String)
    requires
        secilen@.len() == parola_boyu(uzunluk),
        secimler@.len() == secilen@.len() - 1,
    ensures
        p@ == karistirilmis(secilen@, secimler@, secilen@.len() - 1),
        secim_uygun(secilen@, rakam, simge) ==> {
            &&& p@.len() == parola_boyu(uzunluk)
            &&& secim_uygun(p@, rakam, simge)
            &&& guc(p@) == uretilen_guc(p@.len(), rakam, simge)
        },
{
    let mut c: Vec<char> = Vec::new();
    ekle(&mut c, secilen);
    assert(c@ =~= secilen@);
    let len = c.len();
    let ghost hedef = karistirilmis(secilen@, secimler@, len - 1);
    let ghost uygun = secim_uygun(secilen@, rakam, simge);
    let ghost hv = havuz(rakam, simge);
    let mut i: usize = len - 1;
    while i >= 1
        invariant
            c@.len() == len,
            8 <= len <= 128,
            secimler@.len() == len - 1,
            i < len,
            hv == havuz(rakam, simge),
            karistirilmis(c@, secimler@, i as int) == hedef,
            uygun ==> secim_uygun(c@, rakam, simge),
        decreases i,
    {
        let a = secimler[len - 1 - i];
        let j: usize = (a as u32 as usize) % (i + 1);
        let ghost once = c@;
        let ci = c[i];
        let cj = c[j];
        c[i] = cj;
        c[j] = ci;
        proof {
            assert(c@ == once.update(i as int, once[j as int]).update(j as int, once[i as int]));
            if uygun {
                takas_sinifi_korur(once, i as int, j as int, buyuk_harfler());
                takas_sinifi_korur(once, i as int, j as int, kucuk_harfler());
                if rakam {
                    takas_sinifi_korur(once, i as int, j as int, rakamlar());
                }
                if simge {
                    takas_sinifi_korur(once, i as int, j as int, simgeler());
                }
                assert forall|k: int| 0 <= k < c@.len() implies hv.contains(#[trigger] c@[k]) by {
                    if k == j {
                        assert(c@[k] == once[i as int]);
                    } else if k == i {
                        assert(c@[k] == once[j as int]);
                    } else {
                        assert(c@[k] == once[k]);
                    }
                }
            }
        }
        i = i - 1;
    }
    let p = metin_yap(&c);
    proof {
        if uygun {
            uretilen_parola_gucu(p@, uzunluk, rakam, simge);
        }
    }
    p
}

/// A random password of `uzunluk` characters, held between 8 and 128, from
/// upper- and lower-case letters and, when asked, digits and symbols. Each
/// chosen class is there at least once, and the guaranteed characters are
/// shuffled in (Fisher–Yates) so that they do not always stand first. Its
/// strength follows from the length and the classes (`uretilen_parola_gucu`).
/// An error only if the operating system refuses randomness.
pub fn parola_uret(uzunluk: usize, rakam: bool, simge: bool) -> (r: Result<String, String>)
    ensures
        r matches Ok(p) ==> p@.len() == parola_boyu(uzunluk),
        r matches Ok(p) ==> forall|k: int| 0 <= k < p@.len() ==> havuz(rakam, simge).contains(#[trigger] p@[k]),
        r matches Ok(p) ==> sinifi_var(p@, buyuk_harfler()),
        r matches Ok(p) ==> sinifi_var(p@, kucuk_harfler()),
        r matches Ok(p) ==> (rakam ==> sinifi_var(p@, rakamlar())),
        r matches Ok(p) ==> (simge ==> sinifi_var(p@, simgeler())),
        r matches Ok(p) ==> guc(p@) == uretilen_guc(p@.len(), rakam, simge),
        r matches Ok(p) ==> exists|s: Seq<char>, k: Seq<char>|
            s.len() == parola_boyu(uzunluk) && k.len() == s.len() - 1 && secim_uygun(s, rakam, simge)
            && #[trigger] karistirilmis(s, k, s.len() - 1) == p@,
        r matches Err(e) ==> e@ == crate::kripto::rastgele_hatasi(),
{
    let n: usize = if uzunluk < 8 {
        8
    } else if uzunluk > 128 {
        128
    } else {
        uzunluk
    };
    proof {
        reveal_strlit("ABCDEFGHJKLMNPQRSTUVWXYZ");
        reveal_strlit("abcdefghijkmnopqrstuvwxyz");
        reveal_strlit("23456789");
        reveal_strlit("!@#$%^&*()-_=+[]{}<>?");
        reveal_strlit("0123456789abcdefghijklmnopqrstuvwxyz");
    }
    let b_h = karakterler("ABCDEFGHJKLMNPQRSTUVWXYZ");
    let k_h = karakterler("abcdefghijkmnopqrstuvwxyz");
    let r_h = karakterler("23456789");
    let s_h = karakterler("!@#$%^&*()-_=+[]{}<>?");
    let a_h = karakterler("0123456789abcdefghijklmnopqrstuvwxyz");
    let mut h: Vec<char> = Vec::new();
    ekle(&mut h, &b_h);
    ekle(&mut h, &k_h);
    if rakam {
        ekle(&mut h, &r_h);
    }
    if simge {
        ekle(&mut h, &s_h);
    }
    assert(h@ =~= havuz(rakam, simge));
    let ghost hv = havuz(rakam, simge);
    let mut c: Vec<char> = Vec::new();
    let x = match sec(&b_h) {
        Some(c) => c,
        None => return rastgelelik_yok(),
    };
    c.push(x);
    let y = match sec(&k_h) {
        Some(c) => c,
        None => return rastgelelik_yok(),
    };
    c.push(y);
    assert(c@[0] == x && hv.contains(x)) by {
        let i = choose|i: int| 0 <= i < b_h@.len() && b_h@[i] == x;
        assert(hv[i] == x);
    }
    assert(hv.contains(y)) by {
        let i = choose|i: int| 0 <= i < k_h@.len() && k_h@[i] == y;
        assert(hv[24 + i] == y);
    }
    if rakam {
        let z = match sec(&r_h) {
            Some(c) => c,
            None => return rastgelelik_yok(),
        };
        c.push(z);
        assert(hv.contains(z)) by {
            let i = choose|i: int| 0 <= i < r_h@.len() && r_h@[i] == z;
            assert(hv[49 + i] == z);
        }
    }
    if simge {
        let z = match sec(&s_h) {
            Some(c) => c,
            None => return rastgelelik_yok(),
        };
        c.push(z);
        assert(hv.contains(z)) by {
            let i = choose|i: int| 0 <= i < s_h@.len() && s_h@[i] == z;
            if rakam {
                assert(hv[57 + i] == z);
            } else {
                assert(hv[49 + i] == z);
            }
        }
    }
    assert(c@[0] == x && c@[1] == y);
    assert(sinifi_var(c@, buyuk_harfler()));
    assert(sinifi_var(c@, kucuk_harfler()));
    assert(rakam ==> sinifi_var(c@, rakamlar())) by {
        if rakam {
            assert(rakamlar().contains(c@[2]));
        }
    }
    assert(simge ==> sinifi_var(c@, simgeler())) by {
        if simge {
            let k: int = if rakam { 3 } else { 2 };
            assert(simgeler().contains(c@[k]));
        }
    }
    assert(0 < hv.len() <= 256);
    assert(a_h@.len() == 36);
    while c.len() < n
        invariant
            c@.len() <= n,
            8 <= n <= 128,
            h@ == hv,
            hv == havuz(rakam, simge),
            0 < hv.len() <= 256,
            forall|k: int| 0 <= k < c@.len() ==> hv.contains(#[trigger] c@[k]),
            sinifi_var(c@, buyuk_harfler()),
            sinifi_var(c@, kucuk_harfler()),
            rakam ==> sinifi_var(c@, rakamlar()),
            simge ==> sinifi_var(c@, simgeler()),
        decreases n - c@.len(),
    {
        let z = match sec(&h) {
            Some(c) => c,
            None => return rastgelelik_yok(),
        };
        proof {
            ekleme_sinifi_korur(c@, z, buyuk_harfler());
            ekleme_sinifi_korur(c@, z, kucuk_harfler());
            if rakam {
                ekleme_sinifi_korur(c@, z, rakamlar());
            }
            if simge {
                ekleme_sinifi_korur(c@, z, simgeler());
            }
        }
        c.push(z);
    }
    let len = c.len();
    let mut secimler: Vec<char> = Vec::new();
    while secimler.len() < len - 1
        invariant
            c@.len() == len,
            8 <= len <= 128,
            secimler@.len() <= len - 1,
            a_h@ == alfanumerik(),
            a_h@.len() == 36,
        decreases len - 1 - secimler@.len(),
    {
        let a = match sec(&a_h) {
            Some(c) => c,
            None => return rastgelelik_yok(),
        };
        secimler.push(a);
    }
    let p = parola_kur(uzunluk, rakam, simge, c.as_slice(), secimler.as_slice());
    assert(karistirilmis(c@, secimler@, c@.len() - 1) == p@);
    Ok(p)
}

// ── Strength meter ──────────────────────────────────────────────────────────

/// An ASCII lower-case letter.
pub open spec fn kucuk_mu(c: char) -> bool {
    'a' <= c && c <= 'z'
}

/// An ASCII upper-case letter.
pub open spec fn buyuk_mu(c: char) -> bool {
    'A' <= c && c <= 'Z'
}

/// An ASCII digit.
pub open spec fn hane_mi(c: char) -> bool {
    '0' <= c && c <= '9'
}

/// Anything but an ASCII letter or digit.
pub open spec fn diger_mi(c: char) -> bool {
    !kucuk_mu(c) && !buyuk_mu(c) && !hane_mi(c)
}

/// How many of the four kinds (lower, upper, digit, other) `s` holds.
pub open spec fn cesit(s: Seq<char>) -> int {
    (if exists|k: int| 0 <= k < s.len() && kucuk_mu(#[trigger] s[k]) { 1int } else { 0int })
        + (if exists|k: int| 0 <= k < s.len() && buyuk_mu(#[trigger] s[k]) { 1int } else { 0int })
        + (if exists|k: int| 0 <= k < s.len() && hane_mi(#[trigger] s[k]) { 1int } else { 0int })
        + (if exists|k: int| 0 <= k < s.len() && diger_mi(#[trigger] s[k]) { 1int } else { 0int })
}

/// Strength 0 weak, 1 fair, 2 good, 3 strong, by length and variety alone.
pub open spec fn guc(s: Seq<char>) -> u8 {
    if s.len() < 8 || cesit(s) < 2 {
        0
    } else if s.len() < 12 || cesit(s) < 3 {
        1
    } else if s.len() < 16 {
        2
    } else {
        3
    }
}

/// Password strength: 0 weak, 1 fair, 2 good, 3 strong. A rough but honest
/// measure, length and variety of characters: no entropy figure, which would
/// lie about a dictionary word.
pub fn parola_gucu(p: &str) -> (g: u8)
    ensures
        g == guc(p@),
{
    let v = karakterler(p);
    let n = v.len();
    let mut kucuk = false;
    let mut buyuk = false;
    let mut hane = false;
    let mut diger = false;
    for i in 0..n
        invariant
            n == v@.len(),
            kucuk == exists|k: int| 0 <= k < i && kucuk_mu(#[trigger] v@[k]),
            buyuk == exists|k: int| 0 <= k < i && buyuk_mu(#[trigger] v@[k]),
            hane == exists|k: int| 0 <= k < i && hane_mi(#[trigger] v@[k]),
            diger == exists|k: int| 0 <= k < i && diger_mi(#[trigger] v@[k]),
    {
        let c = v[i];
        let a = 'a' <= c && c <= 'z';
        let b = 'A' <= c && c <= 'Z';
        let d = '0' <= c && c <= '9';
        assert(a == kucuk_mu(v@[i as int]));
        kucuk = kucuk || a;
        buyuk = buyuk || b;
        hane = hane || d;
        diger = diger || (!a && !b && !d);
    }
    let cesit_sayisi: u8 = (if kucuk { 1u8 } else { 0u8 }) + (if buyuk { 1u8 } else { 0u8 }) + (if hane {
        1u8
    } else {
        0u8
    }) + (if diger { 1u8 } else { 0u8 });
    assert(cesit_sayisi == cesit(p@));
    if n < 8 || cesit_sayisi < 2 {
        0
    } else if n < 12 || cesit_sayisi < 3 {
        1
    } else if n < 16 {
        2
    } else {
        3
    }
}

/// Every character of the four classes falls in its own kind: letters are
/// upper- or lower-case letters, digits are digits, symbols are neither.
proof fn siniflar_turlerine_duser(c: char)
    ensures
        buyuk_harfler().contains(c) ==> buyuk_mu(c),
        kucuk_harfler().contains(c) ==> kucuk_mu(c),
        rakamlar().contains(c) ==> hane_mi(c),
        simgeler().contains(c) ==> diger_mi(c),
{
    reveal_strlit("ABCDEFGHJKLMNPQRSTUVWXYZ");
    reveal_strlit("abcdefghijkmnopqrstuvwxyz");
    reveal_strlit("23456789");
    reveal_strlit("!@#$%^&*()-_=+[]{}<>?");
    if buyuk_harfler().contains(c) {
        let i = choose|i: int| 0 <= i < buyuk_harfler().len() && buyuk_harfler()[i] == c;
        assert(buyuk_mu(buyuk_harfler()[i]));
    }
    if kucuk_harfler().contains(c) {
        let i = choose|i: int| 0 <= i < kucuk_harfler().len() && kucuk_harfler()[i] == c;
        assert(kucuk_mu(kucuk_harfler()[i]));
    }
    if rakamlar().contains(c) {
        let i = choose|i: int| 0 <= i < rakamlar().len() && rakamlar()[i] == c;
        assert(hane_mi(rakamlar()[i]));
    }
    if simgeler().contains(c) {
        let i = choose|i: int| 0 <= i < simgeler().len() && simgeler()[i] == c;
        assert(diger_mi(simgeler()[i]));
    }
}

/// A character of the pool comes from one of the chosen classes.
proof fn havuzdan_gelen(rakam: bool, simge: bool, c: char)
    requires
        havuz(rakam, simge).contains(c),
    ensures
        buyuk_harfler().contains(c) || kucuk_harfler().contains(c) || (rakam && rakamlar().contains(c))
            || (simge && simgeler().contains(c)),
{
    reveal_strlit("ABCDEFGHJKLMNPQRSTUVWXYZ");
    reveal_strlit("abcdefghijkmnopqrstuvwxyz");
    reveal_strlit("23456789");
    reveal_strlit("!@#$%^&*()-_=+[]{}<>?");
    let h = havuz(rakam, simge);
    let i = choose|i: int| 0 <= i < h.len() && h[i] == c;
    let r: Seq<char> = if rakam { rakamlar() } else { Seq::empty() };
    let s: Seq<char> = if simge { simgeler() } else { Seq::empty() };
    let bk = buyuk_harfler() + kucuk_harfler();
    assert(h == bk + r + s);
    if i < 24 {
        assert(h[i] == buyuk_harfler()[i]);
    } else if i < 49 {
        assert(h[i] == kucuk_harfler()[i - 24]);
    } else if i < 49 + r.len() {
        assert(h[i] == r[i - 49]);
    } else {
        assert(h[i] == s[i - 49 - r.len()]);
    }
}

/// A generated password's strength follows from its length and classes
/// alone: with letters only it is fair; with digits or symbols as well it is
/// fair under 12 characters, good under 16, and strong from 16 on.
pub proof fn uretilen_parola_gucu(p: Seq<char>, uzunluk: usize, rakam: bool, simge: bool)
    requires
        p.len() == parola_boyu(uzunluk),
        forall|k: int| 0 <= k < p.len() ==> havuz(rakam, simge).contains(#[trigger] p[k]),
        sinifi_var(p, buyuk_harfler()),
        sinifi_var(p, kucuk_harfler()),
        rakam ==> sinifi_var(p, rakamlar()),
        simge ==> sinifi_var(p, simgeler()),
    ensures
        guc(p) == uretilen_guc(p.len(), rakam, simge),
{
    assert forall|k: int| 0 <= k < p.len() implies {
        &&& (buyuk_mu(#[trigger] p[k]) || kucuk_mu(p[k]) || (rakam && hane_mi(p[k])) || (simge && diger_mi(p[k])))
    } by {
        havuzdan_gelen(rakam, simge, p[k]);
        siniflar_turlerine_duser(p[k]);
    }
    let b = choose|k: int| 0 <= k < p.len() && buyuk_harfler().contains(#[trigger] p[k]);
    siniflar_turlerine_duser(p[b]);
    assert(buyuk_mu(p[b]));
    let kk = choose|k: int| 0 <= k < p.len() && kucuk_harfler().contains(#[trigger] p[k]);
    siniflar_turlerine_duser(p[kk]);
    assert(kucuk_mu(p[kk]));
    if rakam {
        let r = choose|k: int| 0 <= k < p.len() && rakamlar().contains(#[trigger] p[k]);
        siniflar_turlerine_duser(p[r]);
        assert(hane_mi(p[r]));
    } else {
        assert(!exists|k: int| 0 <= k < p.len() && hane_mi(#[trigger] p[k]));
    }
    if simge {
        let d = choose|k: int| 0 <= k < p.len() && simgeler().contains(#[trigger] p[k]);
        siniflar_turlerine_duser(p[d]);
        assert(diger_mi(p[d]));
    } else {
        assert(!exists|k: int| 0 <= k < p.len() && diger_mi(#[trigger] p[k]));
    }
    if !rakam && !simge {
        assert(cesit(p) == 2);
    } else {
        assert(cesit(p) >= 3);
    }
}

/// A password made of one kind of character only (all lower-case letters,
/// all upper-case letters, all digits, or all other characters) is weak,
/// whatever its length: variety is half of strength.
pub proof fn tek_turlu_parola_zayif(s: Seq<char>)
    requires
        (forall|k: int| 0 <= k < s.len() ==> 'a' <= #[trigger] s[k] && s[k] <= 'z')
        || (forall|k: int| 0 <= k < s.len() ==> 'A' <= #[trigger] s[k] && s[k] <= 'Z')
        || (forall|k: int| 0 <= k < s.len() ==> '0' <= #[trigger] s[k] && s[k] <= '9')
        || (forall|k: int| 0 <= k < s.len() ==> !('a' <= #[trigger] s[k] && s[k] <= 'z') && !('A' <= s[k] && s[k] <= 'Z')
            && !('0' <= s[k] && s[k] <= '9')),
    ensures
        guc(s) == 0,
{
    assert(cesit(s) <= 1);
}

/// Strength comes with length: anything under 8 characters is weak, and
/// only 16 characters or more can be strong.
pub proof fn guc_boyla_gelir(s: Seq<char>)
    ensures
        s.len() < 8 ==> guc(s) == 0,
        s.len() < 12 ==> guc(s) <= 1,
        s.len() < 16 ==> guc(s) <= 2,
        guc(s) <= 3,
{
}

} // verus!

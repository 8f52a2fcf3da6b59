//! The target window: which program the keys will go to, whether it is a
//! browser, and the scripts that ask macOS about windows. Showing the user
//! WHICH window will receive the password is the one guard against it going
//! to the wrong place.

use vstd::prelude::*;
use crate::metin::{karakterler, metin_yap, ekle, metin_esit, icerir, alt_metin_var, kirp, kirpilmis,
    parcalar, parcala};

verus! {

/// What `str::to_lowercase` makes of `s` (Unicode lower case, which can
/// change a string's length).
pub uninterp spec fn kucuk_harfli(s: Seq<char>) -> Seq<char>;

/// `str::to_lowercase`. Claims that the result is named by `kucuk_harfli`.
#[verifier::external_body]
fn kucuk_harfe(s: &str) -> (r: String)
    ensures
        r@ == kucuk_harfli(s@),
{
    s.to_lowercase()
}

/// The browsers, by a part of their program name in lower case.
pub open spec fn tarayici(program: Seq<char>) -> bool {
    let p = kucuk_harfli(program);
    ||| icerir(p, "chrome"@)
    ||| icerir(p, "msedge"@)
    ||| icerir(p, "edge"@)
    ||| icerir(p, "firefox"@)
    ||| icerir(p, "opera"@)
    ||| icerir(p, "brave"@)
    ||| icerir(p, "vivaldi"@)
    ||| icerir(p, "safari"@)
    ||| icerir(p, "chromium"@)
}

fn icinde(p: &[char], t: &str) -> (b: bool)
    ensures
        b == icerir(p@, t@),
{
    alt_metin_var(p, &karakterler(t))
}

/// Whether the target is a browser. The list is short and fixed; a false
/// positive is better than a false negative: sending the user to the
/// extension in a browser is harmless.
pub fn tarayici_mi(program: &str) -> (b: bool)
    ensures
        b == tarayici(program@),
{
    let k = kucuk_harfe(program);
    let p = karakterler(k.as_str());
    icinde(&p, "chrome") || icinde(&p, "msedge") || icinde(&p, "edge") || icinde(&p, "firefox")
        || icinde(&p, "opera") || icinde(&p, "brave") || icinde(&p, "vivaldi") || icinde(&p, "safari")
        || icinde(&p, "chromium")
}

/// The window that will receive the keys.
#[derive(Debug, Clone, Default, PartialEq, Eq)]
pub struct Hedef {
    /// The window title (on macOS the application's name).
    pub baslik: String,
    /// The program's name.
    pub program: String,
    /// The handle that brings the window to the front again (on macOS the
    /// application's name).
    pub kimlik: String,
    /// Whether the target is a browser: there the extension fills, seeing the page.
    pub tarayici: bool,
    /// In a browser, the address of the open tab, for matching an item.
    pub url: Option<String>,
}

/// The target made of an application's name: title, program and handle are
/// that name, and no address is known yet.
pub open spec fn ad_hedefi(h: Hedef, ad: Seq<char>) -> bool {
    &&& h.baslik@ == ad
    &&& h.program@ == ad
    &&& h.kimlik@ == ad
    &&& h.tarayici == tarayici(ad)
    &&& h.url is None
}

/// The target of an application called `ad`.
pub fn hedef_yap(ad: String) -> (h: Hedef)
    ensures
        ad_hedefi(h, ad@),
{
    Hedef { tarayici: tarayici_mi(ad.as_str()), baslik: ad.clone(), program: ad.clone(), kimlik: ad, url: None }
}

/// The empty target: nothing is in front.
pub open spec fn bos_hedef(h: Hedef) -> bool {
    h.baslik@.len() == 0 && h.program@.len() == 0 && h.kimlik@.len() == 0 && !h.tarayici && h.url is None
}

/// The front window, from the name of the frontmost application (as the
/// system reported it) and the address of its open tab. No name, or an
/// empty one, gives the empty target.
pub fn ondeki(ad: Option<String>, url: Option<String>) -> (h: Hedef)
    ensures
        match ad {
            Some(a) => if a@.len() > 0 {
                &&& h.baslik@ == a@ && h.program@ == a@ && h.kimlik@ == a@
                &&& h.tarayici == tarayici(a@)
                &&& h.url == url
            } else {
                bos_hedef(h)
            },
            None => bos_hedef(h),
        },
{
    match ad {
        Some(a) => {
            if a.as_str().is_empty() {
                return Hedef { baslik: String::new(), program: String::new(), kimlik: String::new(), tarayici: false, url: None };
            }
            let mut h = hedef_yap(a);
            h.url = url;
            h
        },
        None => Hedef { baslik: String::new(), program: String::new(), kimlik: String::new(), tarayici: false, url: None },
    }
}

/// This program's own name, which the list leaves out.
pub open spec fn kendi_adimiz() -> Seq<char> {
    "Bogahost Kasa"@
}

/// The names that the window list keeps from the pieces of the system's
/// comma-separated answer: each trimmed, without empty ones and without our own.
pub open spec fn secilen_adlar(ps: Seq<Seq<char>>) -> Seq<Seq<char>>
    decreases ps.len(),
{
    if ps.len() == 0 {
        Seq::empty()
    } else {
        let onceki = secilen_adlar(ps.drop_last());
        let k = kirpilmis(ps.last());
        if k.len() > 0 && k != kendi_adimiz() {
            onceki.push(k)
        } else {
            onceki
        }
    }
}

/// The programs that have a window, from the system's answer (the names of
/// the application processes that are not background-only, separated by
/// commas). No answer gives no program.
pub fn listele(cikti: Option<String>) -> (l: Vec<Hedef>)
    ensures
        cikti is None ==> l@.len() == 0,
        cikti matches Some(c) ==> {
            let adlar = secilen_adlar(parcalar(c@, ','));
            &&& l@.len() == adlar.len()
            &&& forall|i: int| 0 <= i < l@.len() ==> ad_hedefi(#[trigger] l@[i], adlar[i])
        },
{
    let c = match cikti {
        Some(c) => c,
        None => return Vec::new(),
    };
    let ps = parcala(&karakterler(c.as_str()), ',');
    let ghost tum = parcalar(c@, ',');
    let mut l: Vec<Hedef> = Vec::new();
    let n = ps.len();
    for i in 0..n
        invariant
            n == ps@.len(),
            n == tum.len(),
            forall|j: int| 0 <= j < n ==> #[trigger] ps@[j]@ == tum[j],
            l@.len() == secilen_adlar(tum.take(i as int)).len(),
            forall|j: int| 0 <= j < l@.len() ==> ad_hedefi(#[trigger] l@[j], secilen_adlar(tum.take(i as int))[j]),
    {
        assert(tum.take(i + 1).drop_last() =~= tum.take(i as int));
        assert(tum.take(i + 1).last() == ps@[i as int]@);
        let k = kirp(&ps[i]);
        let ad = metin_yap(&k);
        if k.len() > 0 && !metin_esit(ad.as_str(), "Bogahost Kasa") {
            l.push(hedef_yap(ad));
        }
    }
    assert(tum.take(n as int) =~= tum);
    l
}

/// What the address query returned, read: nothing, an empty answer or
/// `missing value` mean that no address is known.
pub fn aktif_url(cikti: Option<String>) -> (u: Option<String>)
    ensures
        match cikti {
            None => u is None,
            Some(c) => if c@.len() == 0 || c@ == "missing value"@ {
                u is None
            } else {
                u is Some && u->0@ == c@
            },
        },
{
    match cikti {
        None => None,
        Some(c) => {
            if c.as_str().is_empty() || metin_esit(c.as_str(), "missing value") {
                None
            } else {
                Some(c)
            }
        },
    }
}

/// The AppleScript that asks a browser for the address of its open tab:
/// Safari answers for its front document, Chromium-based browsers for the
/// active tab of the front window; others (Firefox) give no address.
pub open spec fn url_betigi(program: Seq<char>) -> Option<Seq<char>> {
    let p = kucuk_harfli(program);
    if icerir(p, "safari"@) {
        Some("tell application \""@ + program + "\" to get URL of front document"@)
    } else if icerir(p, "chrome"@) || icerir(p, "brave"@) || icerir(p, "edge"@) || icerir(p, "vivaldi"@)
        || icerir(p, "chromium"@) || icerir(p, "opera"@) {
        Some("tell application \""@ + program + "\" to get URL of active tab of front window"@)
    } else {
        None
    }
}

/// The script that asks `program` for the address of its open tab, if it has one.
pub fn aktif_url_betigi(program: &str) -> (b: Option<String>)
    ensures
        match b {
            Some(s) => url_betigi(program@) == Some(s@),
            None => url_betigi(program@) is None,
        },
{
    let k = kucuk_harfe(program);
    let p = karakterler(k.as_str());
    let son = if icinde(&p, "safari") {
        "\" to get URL of front document"
    } else if icinde(&p, "chrome") || icinde(&p, "brave") || icinde(&p, "edge") || icinde(&p, "vivaldi")
        || icinde(&p, "chromium") || icinde(&p, "opera") {
        "\" to get URL of active tab of front window"
    } else {
        return None;
    };
    let mut v = karakterler("tell application \"");
    ekle(&mut v, &karakterler(program));
    ekle(&mut v, &karakterler(son));
    Some(metin_yap(&v))
}

/// A name made safe inside an AppleScript string: every backslash doubled and
/// every `"` escaped, so that no name can end the string and inject code.
pub open spec fn kacisli(s: Seq<char>) -> Seq<char>
    decreases s.len(),
{
    if s.len() == 0 {
        Seq::empty()
    } else {
        let c = s.last();
        kacisli(s.drop_last()) + (if c == '\\' {
            seq!['\\', '\\']
        } else if c == '"' {
            seq!['\\', '"']
        } else {
            seq![c]
        })
    }
}

/// `k` escaped for an AppleScript string.
pub fn kacisla(k: &[char]) -> (g: Vec<char>)
    ensures
        g@ == kacisli(k@),
{
    let mut g: Vec<char> = Vec::new();
    let n = k.len();
    for i in 0..n
        invariant
            n == k@.len(),
            g@ == kacisli(k@.take(i as int)),
    {
        let c = k[i];
        assert(k@.take(i + 1).drop_last() =~= k@.take(i as int));
        if c == '\\' {
            g.push('\\');
            g.push('\\');
        } else if c == '"' {
            g.push('\\');
            g.push('"');
        } else {
            g.push(c);
        }
        assert(g@ =~= kacisli(k@.take(i + 1)));
    }
    assert(k@.take(n as int) =~= k@);
    g
}

/// The script that brings the application `kimlik` to the front.
pub fn one_getir_betigi(kimlik: &str) -> (b: String)
    ensures
        b@ == "tell application \"System Events\" to set frontmost of application process \""@
            + kacisli(kimlik@) + "\" to true"@,
{
    let g = kacisla(&karakterler(kimlik));
    let mut v = karakterler("tell application \"System Events\" to set frontmost of application process \"");
    ekle(&mut v, &g);
    ekle(&mut v, &karakterler("\" to true"));
    metin_yap(&v)
}

/// In an escaped name every `"` follows a backslash: the name cannot close the
/// script's string.
pub proof fn kacisli_tirnak_kapatmaz(s: Seq<char>)
    ensures
        forall|i: int| 0 <= i < kacisli(s).len() && #[trigger] kacisli(s)[i] == '"' ==> i > 0 && kacisli(s)[i - 1] == '\\',
    decreases s.len(),
{
    if s.len() > 0 {
        kacisli_tirnak_kapatmaz(s.drop_last());
        let o = kacisli(s.drop_last());
        let c = s.last();
        let ek: Seq<char> = if c == '\\' {
            seq!['\\', '\\']
        } else if c == '"' {
            seq!['\\', '"']
        } else {
            seq![c]
        };
        assert(kacisli(s) == o + ek);
        assert forall|i: int| 0 <= i < kacisli(s).len() && #[trigger] kacisli(s)[i] == '"' implies i > 0
            && kacisli(s)[i - 1] == '\\' by {
            if i < o.len() {
                assert(kacisli(s)[i] == o[i]);
                assert(kacisli(s)[i - 1] == o[i - 1]);
            } else {
                assert(kacisli(s)[i] == ek[i - o.len()]);
                if c == '"' {
                    assert(i == o.len() + 1);
                    assert(kacisli(s)[i - 1] == ek[0]);
                }
            }
        }
    }
}

/// Whether the window in front is worth following as the target: it has a
/// program name and is not this program.
pub fn izlenir(h: &Hedef) -> (b: bool)
    ensures
        b == (h.program@.len() > 0 && h.program@ != kendi_adimiz()),
{
    !h.program.as_str().is_empty() && !metin_esit(h.program.as_str(), "Bogahost Kasa")
}

/// Whether the target changed: another window, or the same browser on
/// another address (switching tabs changes the address, not the window).
pub fn hedef_degisti(mevcut: &Hedef, yeni: &Hedef) -> (b: bool)
    ensures
        b == (mevcut.kimlik@ != yeni.kimlik@ || match (mevcut.url, yeni.url) {
            (Some(a), Some(c)) => a@ != c@,
            (None, None) => false,
            _ => true,
        }),
{
    if !metin_esit(mevcut.kimlik.as_str(), yeni.kimlik.as_str()) {
        return true;
    }
    match (&mevcut.url, &yeni.url) {
        (Some(a), Some(c)) => !metin_esit(a.as_str(), c.as_str()),
        (None, None) => false,
        _ => true,
    }
}

} // verus!

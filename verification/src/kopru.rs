//! The local bridge: the browser extension uses the vault session of this
//! computer through a listener on 127.0.0.1. Here stand its rules: who may
//! talk to it, which endpoint a request reaches, how a query is decoded, the
//! job queue from the application to the extension, and when the extension
//! counts as connected.

use vstd::prelude::*;
use vstd::utf8::{encode_utf8, decode_utf8, valid_utf8};
use crate::metin::{karakterler, ekle, metin_esit, ilk_konum, ilk_konum_bul, parca_al, metin_yap,
    parcalar, parcala};
use crate::politika::EKLENTI_ID;
use crate::adres::{yol_metni, kayit_uyar};
use crate::kasa::Kayit;
use crate::zarf::{secenek, secenek_kopya};

verus! {

/// The largest request body read, in bytes: the bridge's JSON is a few hundred.
pub const EN_BUYUK_GOVDE: usize = 8 * 1024;

/// The longest a long poll waits for a job, in seconds.
pub const OLAY_BEKLEME_SN: u64 = 25;

/// The most jobs kept: one more pushes out the oldest.
pub const EN_FAZLA_OLAY: usize = 9;

/// Silence after which the extension counts as gone, in nanoseconds: two
/// minutes (it asks every minute and keeps the job endpoint open).
pub const TEMAS_SURESI_NS: u128 = 120_000_000_000;

// ── Who may talk ────────────────────────────────────────────────────────────

/// The origin that the browser writes for our extension.
pub open spec fn izinli_origin() -> Seq<char> {
    "chrome-extension://"@ + EKLENTI_ID@
}

/// Whether a request comes from our extension: its `Origin` is exactly
/// ours, or it has no `Origin` (Chrome leaves it out on some requests) and
/// carries our id in `X-Kasa`, a header that a page can only add through a
/// preflight that only our extension is allowed through. Neither can be
/// forged from a web page.
pub open spec fn bizden_mi(origin: Seq<char>, imza: Seq<char>) -> bool {
    origin == izinli_origin() || (origin.len() == 0 && imza == EKLENTI_ID@)
}

/// Whether a request comes from our extension.
pub fn bizden(origin: &str, imza: &str) -> (b: bool)
    ensures
        b == bizden_mi(origin@, imza@),
{
    let mut izinli = karakterler("chrome-extension://");
    ekle(&mut izinli, &karakterler(EKLENTI_ID));
    let izinli = metin_yap(&izinli);
    metin_esit(origin, izinli.as_str()) || (origin.is_empty() && metin_esit(imza, EKLENTI_ID))
}

/// Whether the extension has been heard from lately: `son_temas` is the time
/// since its last authenticated request, in nanoseconds, if there was one.
/// Saying "passed on" while the extension is gone would be a lie: the job
/// would rot in the queue.
pub fn eklenti_bagli(son_temas: Option<u128>) -> (b: bool)
    ensures
        b == (son_temas matches Some(g) && g < TEMAS_SURESI_NS),
{
    match son_temas {
        Some(g) => g < TEMAS_SURESI_NS,
        None => false,
    }
}

// ── The job queue ───────────────────────────────────────────────────────────

/// Queues a job for the extension. The queue does not pile up: whatever was
/// clicked while the extension was off would otherwise all be filled at once
/// when it comes back, so past eight jobs the oldest goes.
pub fn olay_ekle<T>(kuyruk: &mut Vec<T>, olay: T)
    ensures
        old(kuyruk)@.len() > 8 ==> final(kuyruk)@ == old(kuyruk)@.drop_first().push(olay),
        old(kuyruk)@.len() <= 8 ==> final(kuyruk)@ == old(kuyruk)@.push(olay),
{
    if kuyruk.len() > 8 {
        kuyruk.remove(0);
    }
    kuyruk.push(olay);
}

/// Takes the job queued last.
pub fn olay_al<T>(kuyruk: &mut Vec<T>) -> (r: Option<T>)
    ensures
        old(kuyruk)@.len() == 0 ==> r is None && final(kuyruk)@ == old(kuyruk)@,
        old(kuyruk)@.len() > 0 ==> r == Some(old(kuyruk)@.last()) && final(kuyruk)@ == old(kuyruk)@.drop_last(),
{
    kuyruk.pop()
}

/// The queue never holds more than nine jobs, and the job just queued is the
/// one taken next.
pub proof fn kuyruk_sinirli<T>(k: Seq<T>, olay: T)
    requires
        k.len() <= EN_FAZLA_OLAY,
    ensures
        (if k.len() > 8 { k.drop_first().push(olay) } else { k.push(olay) }).len() <= EN_FAZLA_OLAY,
        (if k.len() > 8 { k.drop_first().push(olay) } else { k.push(olay) }).last() == olay,
{
}

// ── Decoding a query ────────────────────────────────────────────────────────

/// The value of an ASCII hexadecimal digit, if `b` is one.
pub open spec fn onaltilik(b: u8) -> Option<u8> {
    if 0x30 <= b <= 0x39 {
        Some((b - 0x30) as u8)
    } else if 0x41 <= b <= 0x46 {
        Some((b - 0x41 + 10) as u8)
    } else if 0x61 <= b <= 0x66 {
        Some((b - 0x61 + 10) as u8)
    } else {
        None
    }
}

/// What `u8::from_str_radix(.., 16)` makes of the two bytes after a `%`:
/// two hexadecimal digits, or a `+` sign and one digit.
pub open spec fn iki_hane(x: u8, y: u8) -> Option<u8> {
    match (onaltilik(x), onaltilik(y)) {
        (Some(a), Some(b)) => Some((a * 16 + b) as u8),
        (None, Some(b)) => if x == 0x2B {
            Some(b)
        } else {
            None
        },
        _ => None,
    }
}

/// The bytes that percent-decoding gives: a `%` with two bytes after it that
/// read as a number becomes that byte, `+` becomes a space, everything else
/// stays.
pub open spec fn yuzde_cozulmus(b: Seq<u8>) -> Seq<u8>
    decreases b.len(),
{
    if b.len() == 0 {
        Seq::empty()
    } else if b[0] == 0x25 && b.len() > 2 && iki_hane(b[1], b[2]) is Some {
        seq![iki_hane(b[1], b[2])->0] + yuzde_cozulmus(b.skip(3))
    } else if b[0] == 0x2B {
        seq![0x20u8] + yuzde_cozulmus(b.skip(1))
    } else {
        seq![b[0]] + yuzde_cozulmus(b.skip(1))
    }
}

/// What `String::from_utf8_lossy` makes of `b`: invalid sequences become
/// U+FFFD.
pub uninterp spec fn utf8_onarilmis(b: Seq<u8>) -> Seq<char>;

/// `String::from_utf8_lossy(..).into_owned()`. Claims: the result is named by
/// `utf8_onarilmis`, and valid UTF-8 comes through unchanged (as the
/// documentation says).
#[verifier::external_body]
pub(crate) fn utf8_onar(b: &[u8]) -> (s: String)
    ensures
        s@ == utf8_onarilmis(b@),
        valid_utf8(b@) ==> s@ == decode_utf8(b@),
{
    String::from_utf8_lossy(b).into_owned()
}

pub(crate) fn onaltilik_al(b: u8) -> (r: Option<u8>)
    ensures
        r == onaltilik(b),
{
    if 0x30 <= b && b <= 0x39 {
        Some(b - 0x30)
    } else if 0x41 <= b && b <= 0x46 {
        Some(b - 0x41 + 10)
    } else if 0x61 <= b && b <= 0x66 {
        Some(b - 0x61 + 10)
    } else {
        None
    }
}

fn iki_hane_al(x: u8, y: u8) -> (r: Option<u8>)
    ensures
        r == iki_hane(x, y),
{
    match (onaltilik_al(x), onaltilik_al(y)) {
        (Some(a), Some(b)) => Some(a * 16 + b),
        (None, Some(b)) => if x == 0x2B {
            Some(b)
        } else {
            None
        },
        _ => None,
    }
}

proof fn yuzde_adim(b: Seq<u8>, i: int)
    requires
        0 <= i < b.len(),
    ensures
        yuzde_cozulmus(b.skip(i)) == (if b[i] == 0x25 && i + 2 < b.len() && iki_hane(b[i + 1], b[i + 2]) is Some {
            seq![iki_hane(b[i + 1], b[i + 2])->0] + yuzde_cozulmus(b.skip(i + 3))
        } else if b[i] == 0x2B {
            seq![0x20u8] + yuzde_cozulmus(b.skip(i + 1))
        } else {
            seq![b[i]] + yuzde_cozulmus(b.skip(i + 1))
        }),
{
    let r = b.skip(i);
    assert(r[0] == b[i]);
    if r.len() > 2 {
        assert(r[1] == b[i + 1]);
        assert(r[2] == b[i + 2]);
    }
    if i + 3 <= b.len() {
        assert(r.skip(3) =~= b.skip(i + 3));
    }
    assert(r.skip(1) =~= b.skip(i + 1));
}

/// Percent-decodes the bytes of `s`; bytes that are not UTF-8 then are
/// replaced as `from_utf8_lossy` does.
pub fn yuzde_coz(s: &str) -> (c: String)
    ensures
        c@ == utf8_onarilmis(yuzde_cozulmus(encode_utf8(s@))),
        valid_utf8(yuzde_cozulmus(encode_utf8(s@))) ==> c@ == decode_utf8(
            yuzde_cozulmus(encode_utf8(s@)),
        ),
{
    let bayt = s.as_bytes();
    let n = bayt.len();
    let mut cikti: Vec<u8> = Vec::new();
    let mut i: usize = 0;
    assert(bayt@.skip(0) =~= bayt@);
    assert(cikti@ + yuzde_cozulmus(bayt@) =~= yuzde_cozulmus(bayt@));
    while i < n
        invariant
            n == bayt@.len(),
            bayt@ == encode_utf8(s@),
            0 <= i <= n,
            yuzde_cozulmus(bayt@) == cikti@ + yuzde_cozulmus(bayt@.skip(i as int)),
        decreases n - i,
    {
        proof {
            yuzde_adim(bayt@, i as int);
        }
        let b = bayt[i];
        if b == 0x25 && n - i > 2 {
            match iki_hane_al(bayt[i + 1], bayt[i + 2]) {
                Some(v) => {
                    proof {
                        assert(cikti@.push(v) + yuzde_cozulmus(bayt@.skip(i + 3)) =~= cikti@ + (seq![v]
                            + yuzde_cozulmus(bayt@.skip(i + 3))));
                    }
                    cikti.push(v);
                    i = i + 3;
                    continue;
                },
                None => {},
            }
        }
        let o: u8 = if b == 0x2B { 0x20 } else { b };
        proof {
            assert(cikti@.push(o) + yuzde_cozulmus(bayt@.skip(i + 1)) =~= cikti@ + (seq![o]
                + yuzde_cozulmus(bayt@.skip(i + 1))));
        }
        cikti.push(o);
        i = i + 1;
    }
    proof {
        assert(bayt@.skip(n as int) =~= Seq::<u8>::empty());
        assert(cikti@ + Seq::<u8>::empty() =~= cikti@);
    }
    utf8_onar(cikti.as_slice())
}

/// The value of key `anahtar` among the `&`-separated pieces `ps`: the
/// first piece that holds a `=` with exactly that name before it.
pub open spec fn sorgudaki(ps: Seq<Seq<char>>, anahtar: Seq<char>) -> Option<Seq<char>>
    decreases ps.len(),
{
    if ps.len() == 0 {
        None
    } else {
        let p = ps[0];
        match ilk_konum(p, '=') {
            Some(k) => if p.take(k) == anahtar {
                Some(p.skip(k + 1))
            } else {
                sorgudaki(ps.drop_first(), anahtar)
            },
            None => sorgudaki(ps.drop_first(), anahtar),
        }
    }
}

/// `url=https%3A%2F%2F…` → the decoded value; empty when the key is not there.
pub fn sorgu_al(sorgu: &str, anahtar: &str) -> (d: String)
    ensures
        match sorgudaki(parcalar(sorgu@, '&'), anahtar@) {
            Some(v) => d@ == utf8_onarilmis(yuzde_cozulmus(encode_utf8(v))),
            None => d@.len() == 0,
        },
{
    let ps = parcala(&karakterler(sorgu), '&');
    let ghost tum = parcalar(sorgu@, '&');
    let n = ps.len();
    let mut i: usize = 0;
    assert(tum.skip(0) =~= tum);
    while i < n
        invariant
            n == ps@.len(),
            n == tum.len(),
            tum == parcalar(sorgu@, '&'),
            forall|j: int| 0 <= j < n ==> #[trigger] ps@[j]@ == tum[j],
            0 <= i <= n,
            sorgudaki(tum, anahtar@) == sorgudaki(tum.skip(i as int), anahtar@),
        decreases n - i,
    {
        let p = &ps[i];
        proof {
            let r = tum.skip(i as int);
            assert(r[0] == ps@[i as int]@);
            assert(r.drop_first() =~= tum.skip(i + 1));
            crate::metin::ilk_konum_ozellik(p@, '=');
        }
        match ilk_konum_bul(p, '=') {
            Some(k) => {
                let plen = p.len();
                assert(k < plen);
                let ad = metin_yap(&parca_al(p, 0, k));
                assert(ad@ =~= p@.take(k as int));
                if metin_esit(ad.as_str(), anahtar) {
                    let deger = metin_yap(&parca_al(p, k + 1, plen));
                    assert(deger@ =~= p@.skip(k + 1));
                    proof {
                        let r = tum.skip(i as int);
                        assert(r.len() > 0);
                        assert(r[0] == p@);
                        assert(r[0].take(k as int) == anahtar@);
                        assert(sorgudaki(r, anahtar@) == Some(deger@));
                    }
                    return yuzde_coz(deger.as_str());
                }
            },
            None => {},
        }
        i = i + 1;
    }
    proof {
        assert(tum.skip(n as int) =~= Seq::<Seq<char>>::empty());
    }
    String::new()
}

// ── Routing ─────────────────────────────────────────────────────────────────

/// The endpoints of the bridge.
#[derive(Debug, Clone, PartialEq, Eq)]
pub enum Uc {
    /// `/durum`: session and version numbers.
    Durum,
    /// `/olay`: the long poll for jobs.
    Olay,
    /// `/eslesenler`: the items that fit the page, with the decoded `url`.
    Eslesenler(String),
    /// `/doldur`: the password for one item.
    Doldur,
    /// Any other path.
    Bilinmeyen,
}

/// What the bridge does with a request.
#[derive(Debug, Clone, PartialEq, Eq)]
pub enum Karar {
    /// 403: not from our extension.
    Reddet,
    /// 204: the browser's preflight.
    OnKontrol,
    /// 200 with the endpoint's answer.
    Yanitla(Uc),
}

/// The path of a request target, before any `?`.
pub open spec fn istek_yolu(yol: Seq<char>) -> Seq<char> {
    match ilk_konum(yol, '?') {
        Some(i) => yol.take(i),
        None => yol,
    }
}

/// The query of a request target, after the first `?`.
pub open spec fn istek_sorgusu(yol: Seq<char>) -> Seq<char> {
    match ilk_konum(yol, '?') {
        Some(i) => yol.skip(i + 1),
        None => Seq::empty(),
    }
}

/// Decides a request by its method, target, `Origin` and `X-Kasa` header.
/// Whatever is not from our extension is refused before anything else.
pub fn yonlendir(yontem: &str, yol: &str, origin: &str, imza: &str) -> (k: Karar)
    ensures
        !bizden_mi(origin@, imza@) <==> k == Karar::Reddet,
        bizden_mi(origin@, imza@) && yontem@ == "OPTIONS"@ ==> k == Karar::OnKontrol,
        bizden_mi(origin@, imza@) && yontem@ != "OPTIONS"@ ==> {
            let p = istek_yolu(yol@);
            &&& p == "/durum"@ ==> k == Karar::Yanitla(Uc::Durum)
            &&& p == "/olay"@ ==> k == Karar::Yanitla(Uc::Olay)
            &&& p == "/doldur"@ ==> k == Karar::Yanitla(Uc::Doldur)
            &&& p == "/eslesenler"@ ==> (k matches Karar::Yanitla(Uc::Eslesenler(u)) && match sorgudaki(
                parcalar(istek_sorgusu(yol@), '&'),
                "url"@,
            ) {
                Some(v) => u@ == utf8_onarilmis(yuzde_cozulmus(encode_utf8(v))),
                None => u@.len() == 0,
            })
            &&& p != "/durum"@ && p != "/olay"@ && p != "/doldur"@ && p != "/eslesenler"@ ==> k
                == Karar::Yanitla(Uc::Bilinmeyen)
        },
{
    proof {
        reveal_strlit("/durum");
        reveal_strlit("/olay");
        reveal_strlit("/eslesenler");
        reveal_strlit("/doldur");
    }
    if !bizden(origin, imza) {
        return Karar::Reddet;
    }
    if metin_esit(yontem, "OPTIONS") {
        return Karar::OnKontrol;
    }
    let h = karakterler(yol);
    let hlen = h.len();
    let (p, sorgu) = match ilk_konum_bul(&h, '?') {
        Some(i) => {
            proof {
                crate::metin::ilk_konum_ozellik(h@, '?');
            }
            assert(i < hlen);
            let p = metin_yap(&parca_al(&h, 0, i));
            let s = metin_yap(&parca_al(&h, i + 1, hlen));
            assert(p@ =~= h@.take(i as int));
            assert(s@ =~= h@.skip(i + 1));
            (p, s)
        },
        None => (metin_yap(&h), String::new()),
    };
    assert(p@ == istek_yolu(yol@));
    assert(sorgu@ == istek_sorgusu(yol@));
    if metin_esit(p.as_str(), "/durum") {
        Karar::Yanitla(Uc::Durum)
    } else if metin_esit(p.as_str(), "/olay") {
        Karar::Yanitla(Uc::Olay)
    } else if metin_esit(p.as_str(), "/eslesenler") {
        Karar::Yanitla(Uc::Eslesenler(sorgu_al(sorgu.as_str(), "url")))
    } else if metin_esit(p.as_str(), "/doldur") {
        Karar::Yanitla(Uc::Doldur)
    } else {
        Karar::Yanitla(Uc::Bilinmeyen)
    }
}

// ── Listing the matches ─────────────────────────────────────────────────────

/// What the extension is told of a matching item, to draw the menu beside a
/// field: never a password.
pub struct KayitOzeti {
    pub id: i64,
    pub etiket: String,
    pub kullanici: Option<String>,
    pub alan: Option<String>,
}

/// Whether `o` is the summary of item `k`.
pub open spec fn ozet_mu(o: KayitOzeti, k: Kayit) -> bool {
    &&& o.id == k.id
    &&& o.etiket@ == k.label@
    &&& secenek(o.kullanici) == secenek(k.username)
    &&& secenek(o.alan) == secenek(k.domain)
}

fn ozet_al(k: &Kayit) -> (o: KayitOzeti)
    ensures
        ozet_mu(o, *k),
{
    KayitOzeti {
        id: k.id,
        etiket: k.label.clone(),
        kullanici: secenek_kopya(&k.username),
        alan: secenek_kopya(&k.domain),
    }
}

/// The first `n` items of `s` whose address fits the page `url` at path
/// level, in order.
pub open spec fn yola_uyanlar(s: Seq<Kayit>, url: Seq<char>, n: int) -> Seq<Kayit>
    decreases n,
{
    if n <= 0 {
        Seq::empty()
    } else {
        let once = yola_uyanlar(s, url, n - 1);
        if kayit_uyar(secenek(s[n - 1].url), url) {
            once.push(s[n - 1])
        } else {
            once
        }
    }
}

/// The summaries of the items that the server matched for page `url`, in
/// the server's order, keeping only those whose address fits the page at
/// path level (as `yol_uyar` says): the server matches by domain, and a
/// sub-page of a login page is no login page, so the fill menu must not
/// offer its item there. The same rule guards filling (`doldurma_uygun`)
/// and the shortcut.
pub fn eslesen_ozetleri(kayitlar: &[Kayit], url: &str) -> (r: Vec<KayitOzeti>)
    ensures
        r@.len() == yola_uyanlar(kayitlar@, url@, kayitlar@.len() as int).len(),
        forall|i: int| 0 <= i < r@.len() ==> ozet_mu(#[trigger] r@[i], yola_uyanlar(kayitlar@, url@, kayitlar@.len() as int)[i]),
{
    let mut r: Vec<KayitOzeti> = Vec::new();
    let n = kayitlar.len();
    for i in 0..n
        invariant
            n == kayitlar@.len(),
            r@.len() == yola_uyanlar(kayitlar@, url@, i as int).len(),
            forall|j: int| 0 <= j < r@.len() ==> ozet_mu(#[trigger] r@[j], yola_uyanlar(kayitlar@, url@, i as int)[j]),
    {
        let ghost once = yola_uyanlar(kayitlar@, url@, i as int);
        let k = &kayitlar[i];
        assert(secenek(k.url) == (match k.url {
            None => None::<Seq<char>>,
            Some(u) => Some(u@),
        }));
        if crate::adres::yol_uyar(&k.url, url) {
            r.push(ozet_al(k));
            assert(yola_uyanlar(kayitlar@, url@, i + 1) == once.push(*k));
        } else {
            assert(yola_uyanlar(kayitlar@, url@, i + 1) == once);
        }
    }
    r
}

// ── Handing out a password ──────────────────────────────────────────────────

/// Whether item `id` may be filled on page `url`: the item is among those the
/// server matched for the page AND its address fits the page at path level.
pub open spec fn doldurulabilir(id: i64, url: Seq<char>, kayitlar: Seq<Kayit>) -> bool {
    exists|i: int|
        0 <= i < kayitlar.len() && #[trigger] kayitlar[i].id == id && match kayitlar[i].url {
            None => true,
            Some(k) => yol_metni(k@).len() == 0 || yol_metni(url) == yol_metni(k@),
        }
}

/// The password goes to the extension ONLY for an item that fits the page
/// asking for it: passing the identity check does not mean "any item".
pub fn doldurma_uygun(id: i64, url: &str, kayitlar: &[Kayit]) -> (b: bool)
    ensures
        b == doldurulabilir(id, url@, kayitlar@),
{
    let n = kayitlar.len();
    for i in 0..n
        invariant
            n == kayitlar@.len(),
            forall|j: int|
                0 <= j < i ==> !(#[trigger] kayitlar@[j].id == id && match kayitlar@[j].url {
                    None => true,
                    Some(k) => yol_metni(k@).len() == 0 || yol_metni(url@) == yol_metni(k@),
                }),
    {
        let k = &kayitlar[i];
        if k.id == id && crate::adres::yol_uyar(&k.url, url) {
            assert(kayitlar@[i as int].id == id);
            return true;
        }
    }
    false
}

/// Whether a fill request names an item (non-zero id) and a page.
pub open spec fn tam_istek(id: Option<i64>, url: Option<String>) -> bool {
    &&& id matches Some(i) && i != 0
    &&& url matches Some(u) && u@.len() > 0
}

/// A fill request as the extension sent it: the item id (0 when missing)
/// and the page address (empty when missing) must both be there.
pub fn doldurma_istegi(id: Option<i64>, url: Option<String>) -> (r: Result<(i64, String), String>)
    ensures
        match r {
            Ok((i, u)) => id == Some(i) && i != 0 && url is Some && u@ == url->0@ && u@.len() > 0,
            Err(e) => e@ == "eksik istek"@ && !tam_istek(id, url),
        },
{
    let i = match id {
        Some(i) => i,
        None => 0,
    };
    let u = match url {
        Some(u) => u,
        None => String::new(),
    };
    if i == 0 || u.as_str().is_empty() {
        return Err("eksik istek".to_owned());
    }
    Ok((i, u))
}

} // verus!

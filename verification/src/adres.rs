//! Cutting addresses by hand: the path and the host of a URL, and the rule
//! that decides whether an item's address fits the page a password would be
//! written to.

use vstd::prelude::*;
use crate::metin::{karakterler, metin_yap, parca_al, onekle_baslar};

verus! {

// ── Searching ───────────────────────────────────────────────────────────────

/// `i` is the first place where `s` holds a character of `k`.
pub open spec fn ilk_kumede_mi(s: Seq<char>, k: Seq<char>, i: int) -> bool {
    &&& 0 <= i < s.len()
    &&& k.contains(s[i])
    &&& forall|j: int| 0 <= j < i ==> !k.contains(#[trigger] s[j])
}

/// The first place where `s` holds a character of `k`.
pub open spec fn ilk_kumede(s: Seq<char>, k: Seq<char>) -> Option<int> {
    if exists|i: int| ilk_kumede_mi(s, k, i) {
        Some(choose|i: int| ilk_kumede_mi(s, k, i))
    } else {
        None
    }
}

/// `i` is the first place where `p` starts in `s`.
pub open spec fn ilk_alt_mi(s: Seq<char>, p: Seq<char>, i: int) -> bool {
    &&& 0 <= i && i + p.len() <= s.len()
    &&& s.subrange(i, i + p.len()) == p
    &&& forall|j: int| 0 <= j < i ==> #[trigger] s.subrange(j, j + p.len()) != p
}

/// The first place where `p` starts in `s`.
pub open spec fn ilk_alt(s: Seq<char>, p: Seq<char>) -> Option<int> {
    if exists|i: int| ilk_alt_mi(s, p, i) {
        Some(choose|i: int| ilk_alt_mi(s, p, i))
    } else {
        None
    }
}

/// `i` is the last place of `c` in `s`.
pub open spec fn son_konum_mu(s: Seq<char>, c: char, i: int) -> bool {
    &&& 0 <= i < s.len()
    &&& s[i] == c
    &&& forall|j: int| i < j < s.len() ==> #[trigger] s[j] != c
}

/// The last place of `c` in `s`.
pub open spec fn son_konum(s: Seq<char>, c: char) -> Option<int> {
    if exists|i: int| son_konum_mu(s, c, i) {
        Some(choose|i: int| son_konum_mu(s, c, i))
    } else {
        None
    }
}

proof fn ilk_kumede_tek(s: Seq<char>, k: Seq<char>, i: int)
    requires
        ilk_kumede_mi(s, k, i),
    ensures
        ilk_kumede(s, k) == Some(i),
{
    let m = choose|m: int| ilk_kumede_mi(s, k, m);
    if m < i {
        assert(!k.contains(s[m]));
    } else if m > i {
        assert(!k.contains(s[i]));
    }
}

proof fn ilk_alt_tek(s: Seq<char>, p: Seq<char>, i: int)
    requires
        ilk_alt_mi(s, p, i),
    ensures
        ilk_alt(s, p) == Some(i),
{
    let m = choose|m: int| ilk_alt_mi(s, p, m);
    if m < i {
        assert(s.subrange(m, m + p.len()) != p);
    } else if m > i {
        assert(s.subrange(i, i + p.len()) != p);
    }
}

proof fn son_konum_tek(s: Seq<char>, c: char, i: int)
    requires
        son_konum_mu(s, c, i),
    ensures
        son_konum(s, c) == Some(i),
{
    let m = choose|m: int| son_konum_mu(s, c, m);
    if m < i {
        assert(s[i] != c);
    } else if m > i {
        assert(s[m] != c);
    }
}

/// The first place in `v` of a character of `k`.
pub fn ilk_kumede_bul(v: &[char], k: &[char]) -> (r: Option<usize>)
    ensures
        match r {
            Some(i) => ilk_kumede(v@, k@) == Some(i as int),
            None => ilk_kumede(v@, k@) is None,
        },
{
    let n = v.len();
    for i in 0..n
        invariant
            n == v@.len(),
            forall|j: int| 0 <= j < i ==> !k@.contains(#[trigger] v@[j]),
    {
        let c = v[i];
        let mut var = false;
        let m = k.len();
        for t in 0..m
            invariant
                m == k@.len(),
                c == v@[i as int],
                var == exists|u: int| 0 <= u < t && k@[u] == c,
        {
            if k[t] == c {
                var = true;
            }
        }
        if var {
            proof {
                ilk_kumede_tek(v@, k@, i as int);
            }
            return Some(i);
        }
    }
    proof {
        if exists|i: int| ilk_kumede_mi(v@, k@, i) {
            let i = choose|i: int| ilk_kumede_mi(v@, k@, i);
            assert(!k@.contains(v@[i]));
        }
    }
    None
}

/// The first place in `v` where `p` starts.
pub fn ilk_alt_bul(v: &[char], p: &[char]) -> (r: Option<usize>)
    ensures
        match r {
            Some(i) => ilk_alt(v@, p@) == Some(i as int),
            None => ilk_alt(v@, p@) is None,
        },
{
    let vlen = v.len();
    let plen = p.len();
    if plen > vlen {
        proof {
            if exists|i: int| ilk_alt_mi(v@, p@, i) {
                let i = choose|i: int| ilk_alt_mi(v@, p@, i);
            }
        }
        return None;
    }
    let son = vlen - plen;
    let mut i: usize = 0;
    while i <= son
        invariant
            vlen == v@.len(),
            plen == p@.len(),
            son == vlen - plen,
            plen <= vlen,
            0 <= i <= son + 1,
            forall|j: int| 0 <= j < i ==> #[trigger] v@.subrange(j, j + p@.len()) != p@,
        decreases son + 1 - i,
    {
        let mut esit = true;
        let mut k: usize = 0;
        while k < plen
            invariant
                vlen == v@.len(),
                plen == p@.len(),
                son == vlen - plen,
                0 <= i <= son,
                0 <= k <= plen,
                esit == (forall|m: int| 0 <= m < k ==> v@[i + m] == p@[m]),
            decreases plen - k,
        {
            if v[i + k] != p[k] {
                esit = false;
            }
            k = k + 1;
        }
        if esit {
            assert(v@.subrange(i as int, i + p@.len()) =~= p@);
            proof {
                ilk_alt_tek(v@, p@, i as int);
            }
            return Some(i);
        }
        assert(v@.subrange(i as int, i + p@.len()) != p@) by {
            let m = choose|m: int| 0 <= m < p@.len() && v@[i + m] != p@[m];
            assert(v@.subrange(i as int, i + p@.len())[m] == v@[i + m]);
        }
        if i == son {
            proof {
                if exists|j: int| ilk_alt_mi(v@, p@, j) {
                    let j = choose|j: int| ilk_alt_mi(v@, p@, j);
                    assert(v@.subrange(j, j + p@.len()) != p@);
                }
            }
            return None;
        }
        i = i + 1;
    }
    proof {
        if exists|j: int| ilk_alt_mi(v@, p@, j) {
            let j = choose|j: int| ilk_alt_mi(v@, p@, j);
            assert(v@.subrange(j, j + p@.len()) != p@);
        }
    }
    None
}

/// The last place of `c` in `v`.
pub fn son_konum_bul(v: &[char], c: char) -> (r: Option<usize>)
    ensures
        match r {
            Some(i) => son_konum(v@, c) == Some(i as int),
            None => son_konum(v@, c) is None,
        },
{
    let n = v.len();
    let mut i: usize = n;
    while i > 0
        invariant
            n == v@.len(),
            0 <= i <= n,
            forall|j: int| i <= j < n ==> #[trigger] v@[j] != c,
        decreases i,
    {
        i = i - 1;
        if v[i] == c {
            proof {
                son_konum_tek(v@, c, i as int);
            }
            return Some(i);
        }
    }
    proof {
        if exists|j: int| son_konum_mu(v@, c, j) {
            let j = choose|j: int| son_konum_mu(v@, c, j);
            assert(v@[j] != c);
        }
    }
    None
}

// ── Cutting ─────────────────────────────────────────────────────────────────

/// `s` up to the first character of `k`, or all of it.
pub open spec fn kumeye_kadar(s: Seq<char>, k: Seq<char>) -> Seq<char> {
    match ilk_kumede(s, k) {
        Some(i) => s.take(i),
        None => s,
    }
}

/// `s` without every `c` at its end.
pub open spec fn sondan_kirp(s: Seq<char>, c: char) -> Seq<char>
    decreases s.len(),
{
    if s.len() > 0 && s.last() == c {
        sondan_kirp(s.drop_last(), c)
    } else {
        s
    }
}

/// `s` without every `www.` at its start.
pub open spec fn www_kirp(s: Seq<char>) -> Seq<char>
    decreases s.len(),
{
    if s.len() >= 4 && s.take(4) == "www."@ {
        www_kirp(s.skip(4))
    } else {
        s
    }
}

/// An ASCII upper-case letter made lower-case; anything else kept.
pub open spec fn ascii_kucuk(c: char) -> char {
    if 'A' <= c && c <= 'Z' {
        ((c as u32) + 32) as char
    } else {
        c
    }
}

/// `s` with its ASCII letters in lower case.
pub open spec fn ascii_kucuk_metin(s: Seq<char>) -> Seq<char> {
    s.map_values(|c: char| ascii_kucuk(c))
}

/// What follows the first `://` of `u`, up to the next one; all of `u`
/// when it holds none (`u.split("://").nth(1).unwrap_or(u)`).
pub open spec fn sema_sonrasi(u: Seq<char>) -> Seq<char> {
    match ilk_alt(u, "://"@) {
        None => u,
        Some(i) => {
            let r = u.skip(i + 3);
            match ilk_alt(r, "://"@) {
                Some(j) => r.take(j),
                None => r,
            }
        },
    }
}

/// The path of an address: `https://a.com/giris/?x=1#y` → `/giris`. From
/// the first `/` after the scheme, up to a query or an anchor, without
/// trailing `/`.
pub open spec fn yol_metni(u: Seq<char>) -> Seq<char> {
    let s = sema_sonrasi(u);
    let p = match ilk_kumede(s, seq!['/']) {
        Some(i) => s.skip(i),
        None => Seq::empty(),
    };
    sondan_kirp(kumeye_kadar(p, seq!['?', '#']), '/')
}

/// The host of an address: `https://www.A.com:8080/x?y` → `a.com`. Up to
/// the path, query or anchor; after the last `@`; before the port; without
/// leading `www.`; ASCII letters in lower case.
pub open spec fn alan_metni(u: Seq<char>) -> Seq<char> {
    let s = sema_sonrasi(u);
    let host = kumeye_kadar(s, seq!['/', '?', '#']);
    let kisi_sonrasi = match son_konum(host, '@') {
        Some(i) => host.skip(i + 1),
        None => host,
    };
    ascii_kucuk_metin(www_kirp(kumeye_kadar(kisi_sonrasi, seq![':'])))
}

fn sema() -> (v: Vec<char>)
    ensures
        v@ == "://"@,
{
    proof {
        reveal_strlit("://");
    }
    let mut v = Vec::new();
    v.push(':');
    v.push('/');
    v.push('/');
    assert(v@ =~= "://"@);
    v
}

fn sema_sonrasi_al(u: &[char]) -> (s: Vec<char>)
    ensures
        s@ == sema_sonrasi(u@),
{
    proof {
        reveal_strlit("://");
    }
    let ulen = u.len();
    let sm = sema();
    match ilk_alt_bul(u, &sm) {
        None => parca_al(u, 0, u.len()),
        Some(i) => {
            proof {
                let w = choose|w: int| ilk_alt_mi(u@, "://"@, w);
            }
            assert(i + 3 <= u@.len()) by {
                assert(ilk_alt_mi(u@, "://"@, i as int)) by {
                    let w = choose|w: int| ilk_alt_mi(u@, "://"@, w);
                }
            }
            let r = parca_al(u, i + 3, u.len());
            assert(r@ =~= u@.skip(i + 3));
            match ilk_alt_bul(&r, &sm) {
                Some(j) => {
                    assert(j <= r@.len()) by {
                        let w = choose|w: int| ilk_alt_mi(r@, "://"@, w);
                    }
                    let t = parca_al(&r, 0, j);
                    assert(t@ =~= r@.take(j as int));
                    t
                },
                None => r,
            }
        },
    }
}

pub fn kumeye_kadar_al(s: &[char], k: &[char]) -> (t: Vec<char>)
    ensures
        t@ == kumeye_kadar(s@, k@),
{
    match ilk_kumede_bul(s, k) {
        Some(i) => {
            assert(i < s@.len()) by {
                let w = choose|w: int| ilk_kumede_mi(s@, k@, w);
            }
            let t = parca_al(s, 0, i);
            assert(t@ =~= s@.take(i as int));
            t
        },
        None => parca_al(s, 0, s.len()),
    }
}

proof fn sondan_kirp_on_ek(s: Seq<char>, c: char, n: int)
    requires
        0 <= n <= s.len(),
        forall|j: int| n <= j < s.len() ==> s[j] == c,
    ensures
        sondan_kirp(s, c) == sondan_kirp(s.take(n), c),
    decreases s.len() - n,
{
    if n < s.len() {
        assert(s.len() > 0 && s.last() == c);
        sondan_kirp_on_ek(s.drop_last(), c, n);
        assert(s.drop_last().take(n) =~= s.take(n));
    } else {
        assert(s.take(n) =~= s);
    }
}

pub fn sondan_kirp_al(s: &[char], c: char) -> (t: Vec<char>)
    ensures
        t@ == sondan_kirp(s@, c),
{
    let mut n = s.len();
    while n > 0 && s[n - 1] == c
        invariant
            0 <= n <= s@.len(),
            forall|j: int| n <= j < s@.len() ==> s@[j] == c,
        decreases n,
    {
        n = n - 1;
    }
    proof {
        sondan_kirp_on_ek(s@, c, n as int);
        if n > 0 {
            assert(s@.take(n as int).last() == s@[n - 1]);
        }
    }
    let t = parca_al(s, 0, n);
    assert(t@ =~= s@.take(n as int));
    t
}

fn www() -> (v: Vec<char>)
    ensures
        v@ == "www."@,
{
    proof {
        reveal_strlit("www.");
    }
    let mut v = Vec::new();
    v.push('w');
    v.push('w');
    v.push('w');
    v.push('.');
    assert(v@ =~= "www."@);
    v
}

fn www_kirp_al(s: &[char]) -> (t: Vec<char>)
    ensures
        t@ == www_kirp(s@),
{
    let w = www();
    let mut i: usize = 0;
    proof {
        reveal_strlit("www.");
    }
    let slen = s.len();
    assert(s@.skip(0) =~= s@);
    loop
        invariant
            w@ == "www."@,
            slen == s@.len(),
            0 <= i <= s@.len(),
            www_kirp(s@) == www_kirp(s@.skip(i as int)),
        ensures
            0 <= i <= s@.len(),
            www_kirp(s@) == s@.skip(i as int),
        decreases s@.len() - i,
    {
        proof {
            reveal_strlit("www.");
        }
        if slen - i < 4 {
            break;
        }
        let parca = parca_al(s, i, slen);
        if !onekle_baslar(&parca, &w) {
            proof {
                let r = s@.skip(i as int);
                assert(parca@ =~= r);
            }
            break;
        }
        proof {
            let r = s@.skip(i as int);
            assert(parca@ =~= r);
            assert(r.take(4) =~= "www."@);
            assert(r.skip(4) =~= s@.skip(i + 4));
        }
        i = i + 4;
    }
    let t = parca_al(s, i, s.len());
    proof {
        let r = s@.skip(i as int);
        assert(t@ =~= r);
    }
    t
}

pub fn ascii_kucuk_al(s: &[char]) -> (t: Vec<char>)
    ensures
        t@ == ascii_kucuk_metin(s@),
{
    let mut t: Vec<char> = Vec::new();
    let n = s.len();
    for i in 0..n
        invariant
            n == s@.len(),
            t@ == ascii_kucuk_metin(s@.take(i as int)),
    {
        let c = s[i];
        let d = if 'A' <= c && c <= 'Z' {
            (((c as u32) + 32) as u8) as char
        } else {
            c
        };
        assert(d == ascii_kucuk(c));
        t.push(d);
        assert(ascii_kucuk_metin(s@.take(i + 1)) =~= ascii_kucuk_metin(s@.take(i as int)).push(d));
    }
    assert(s@.take(n as int) =~= s@);
    t
}

/// The path of an address, for comparing an item with a page.
pub fn yol_al(u: &str) -> (p: String)
    ensures
        p@ == yol_metni(u@),
{
    let s = sema_sonrasi_al(&karakterler(u));
    let mut bolu: Vec<char> = Vec::new();
    bolu.push('/');
    assert(bolu@ =~= seq!['/']);
    let p = match ilk_kumede_bul(&s, &bolu) {
        Some(i) => {
            assert(i < s@.len()) by {
                let w = choose|w: int| ilk_kumede_mi(s@, seq!['/'], w);
            }
            let p = parca_al(&s, i, s.len());
            assert(p@ =~= s@.skip(i as int));
            p
        },
        None => Vec::new(),
    };
    let mut sorgu: Vec<char> = Vec::new();
    sorgu.push('?');
    sorgu.push('#');
    assert(sorgu@ =~= seq!['?', '#']);
    let q = kumeye_kadar_al(&p, &sorgu);
    let y = sondan_kirp_al(&q, '/');
    assert(p@ == (match ilk_kumede(s@, seq!['/']) {
        Some(i) => s@.skip(i),
        None => Seq::<char>::empty(),
    }));
    metin_yap(&y)
}

/// Whether an item with address `kayit_url` fits the page at `hedef`: by
/// equal paths, or always when the item has no path.
pub open spec fn kayit_uyar(kayit_url: Option<Seq<char>>, hedef: Seq<char>) -> bool {
    match kayit_url {
        None => true,
        Some(k) => yol_metni(k).len() == 0 || yol_metni(hedef) == yol_metni(k),
    }
}

/// Whether an item's address fits the target address AT PATH LEVEL.
///
/// Matching by domain alone let an item for `ornek.com/giris` match
/// `ornek.com/panel/arama` too, and after signing in the password went into
/// whatever field was there. The path must be EQUAL: a sub-path of a login
/// page is no login page. An item without a path (domain only) fits any
/// path of the domain: the user left it wide on purpose.
pub fn yol_uyar(kayit_url: &Option<String>, hedef_url: &str) -> (b: bool)
    ensures
        b == kayit_uyar(
            match kayit_url {
                None => None,
                Some(k) => Some(k@),
            },
            hedef_url@,
        ),
{
    let k = match kayit_url {
        Some(k) => k,
        None => return true,
    };
    let kayit_yol = karakterler(yol_al(k.as_str()).as_str());
    if kayit_yol.len() == 0 {
        return true;
    }
    let hedef_yol = karakterler(yol_al(hedef_url).as_str());
    if hedef_yol.len() != kayit_yol.len() {
        return false;
    }
    let n = hedef_yol.len();
    for i in 0..n
        invariant
            n == hedef_yol@.len(),
            n == kayit_yol@.len(),
            hedef_yol@ == yol_metni(hedef_url@),
            kayit_yol@ == yol_metni(k@),
            kayit_yol@.len() > 0,
            *kayit_url == Some(*k),
            forall|j: int| 0 <= j < i ==> hedef_yol@[j] == kayit_yol@[j],
    {
        if hedef_yol[i] != kayit_yol[i] {
            assert(hedef_yol@[i as int] != kayit_yol@[i as int]);
            return false;
        }
    }
    assert(hedef_yol@ =~= kayit_yol@);
    true
}

/// The host of an address: `https://a.com/x?y` → `a.com`.
pub fn alan_adi(u: &str) -> (a: String)
    ensures
        a@ == alan_metni(u@),
{
    let s = sema_sonrasi_al(&karakterler(u));
    let mut ayrac: Vec<char> = Vec::new();
    ayrac.push('/');
    ayrac.push('?');
    ayrac.push('#');
    assert(ayrac@ =~= seq!['/', '?', '#']);
    let host = kumeye_kadar_al(&s, &ayrac);
    let hlen = host.len();
    let kisi_sonrasi = match son_konum_bul(&host, '@') {
        Some(i) => {
            assert(i < host@.len()) by {
                let w = choose|w: int| son_konum_mu(host@, '@', w);
            }
            let t = parca_al(&host, i + 1, hlen);
            assert(t@ =~= host@.skip(i + 1));
            t
        },
        None => host,
    };
    let mut iki_nokta: Vec<char> = Vec::new();
    iki_nokta.push(':');
    assert(iki_nokta@ =~= seq![':']);
    let port_oncesi = kumeye_kadar_al(&kisi_sonrasi, &iki_nokta);
    let w = www_kirp_al(&port_oncesi);
    metin_yap(&ascii_kucuk_al(&w))
}

/// An item always fits the page at its own address, and an item without an
/// address fits every page.
pub proof fn kendi_adresine_uyar(u: Seq<char>, h: Seq<char>)
    ensures
        kayit_uyar(Some(u), u),
        kayit_uyar(None, h),
{
}

/// `s` holds neither a query mark nor an anchor mark.
pub open spec fn sorgusuz(s: Seq<char>) -> bool {
    forall|k: int| 0 <= k < s.len() ==> s[k] != '?' && s[k] != '#'
}

/// A tail without `:` or `/` neither makes nor completes a `://`.
proof fn sema_ayraci_ekte_yok(u: Seq<char>, e: Seq<char>)
    requires
        forall|k: int| 0 <= k < e.len() ==> e[k] != ':' && e[k] != '/',
    ensures
        ilk_alt(u + e, "://"@) == ilk_alt(u, "://"@),
        ilk_alt(u, "://"@) matches Some(i) ==> 0 <= i && i + 3 <= u.len(),
{
    reveal_strlit("://");
    let p = "://"@;
    let w = u + e;
    match ilk_alt(u, p) {
        Some(i) => {
            assert(ilk_alt_mi(u, p, i));
            assert(w.subrange(i, i + 3) =~= u.subrange(i, i + 3));
            assert forall|j: int| 0 <= j < i implies #[trigger] w.subrange(j, j + p.len()) != p by {
                assert(w.subrange(j, j + 3) =~= u.subrange(j, j + 3));
            }
            ilk_alt_tek(w, p, i);
        },
        None => {
            if ilk_alt(w, p) is Some {
                let i = ilk_alt(w, p)->0;
                assert(ilk_alt_mi(w, p, i));
                if i + 3 <= u.len() {
                    assert(w.subrange(i, i + 3) =~= u.subrange(i, i + 3));
                    assert forall|j: int| 0 <= j < i implies #[trigger] u.subrange(j, j + p.len()) != p by {
                        assert(w.subrange(j, j + 3) =~= u.subrange(j, j + 3));
                    }
                    assert(ilk_alt_mi(u, p, i));
                } else {
                    assert(w.subrange(i, i + 3)[2] == w[i + 2]);
                    assert(w[i + 2] == e[i + 2 - u.len()]);
                }
            }
        },
    }
}

/// Removing the scheme from `u` followed by such a tail either drops the
/// tail with it or keeps it whole at the end; and it keeps `u` free of
/// query and anchor marks.
proof fn sema_sonrasi_ekli(u: Seq<char>, e: Seq<char>)
    requires
        forall|k: int| 0 <= k < e.len() ==> e[k] != ':' && e[k] != '/',
    ensures
        sema_sonrasi(u + e) == sema_sonrasi(u) || sema_sonrasi(u + e) == sema_sonrasi(u) + e,
        sorgusuz(u) ==> sorgusuz(sema_sonrasi(u)),
{
    reveal_strlit("://");
    sema_ayraci_ekte_yok(u, e);
    let w = u + e;
    match ilk_alt(u, "://"@) {
        None => {
            assert(sema_sonrasi(w) == w);
        },
        Some(i) => {
            let ru = u.skip(i + 3);
            let rw = w.skip(i + 3);
            assert(rw =~= ru + e);
            sema_ayraci_ekte_yok(ru, e);
            match ilk_alt(ru, "://"@) {
                Some(j) => {
                    assert(rw.take(j) =~= ru.take(j));
                    assert(sorgusuz(u) ==> sorgusuz(ru.take(j))) by {
                        if sorgusuz(u) {
                            assert forall|k: int| 0 <= k < ru.take(j).len() implies ru.take(j)[k] != '?' && ru.take(j)[k] != '#' by {
                                assert(ru.take(j)[k] == u[k + i + 3]);
                            }
                        }
                    }
                },
                None => {
                    assert(sorgusuz(u) ==> sorgusuz(ru)) by {
                        if sorgusuz(u) {
                            assert forall|k: int| 0 <= k < ru.len() implies ru[k] != '?' && ru[k] != '#' by {
                                assert(ru[k] == u[k + i + 3]);
                            }
                        }
                    }
                },
            }
        },
    }
}

/// A query or an anchor does not change the path of an address: for an
/// address `u` without query or anchor, a mark `c` that is `?` or `#`, and a
/// tail `a` without `:` or `/`, the page `u` + `c` + `a` has the same path as
/// `u`. So an item always fits its own page with a query or an anchor
/// appended.
pub proof fn sorgu_ve_capa_yolu_degistirmez(u: Seq<char>, c: char, a: Seq<char>)
    requires
        forall|k: int| 0 <= k < u.len() ==> u[k] != '?' && u[k] != '#',
        c == '?' || c == '#',
        forall|k: int| 0 <= k < a.len() ==> a[k] != ':' && a[k] != '/',
    ensures
        yol_metni(u + seq![c] + a) == yol_metni(u),
        kayit_uyar(Some(u), u + seq![c] + a),
{
    let e = seq![c] + a;
    let w = u + seq![c] + a;
    assert(w =~= u + e);
    assert forall|k: int| 0 <= k < e.len() implies e[k] != ':' && e[k] != '/' by {
        if k > 0 {
            assert(e[k] == a[k - 1]);
        }
    }
    assert(sorgusuz(u));
    sema_sonrasi_ekli(u, e);
    let su = sema_sonrasi(u);
    let sw = sema_sonrasi(w);
    if sw != su {
        assert(sw == su + e);
        let bolu = seq!['/'];
        let isaret = seq!['?', '#'];
        let pu = match ilk_kumede(su, bolu) {
            Some(i) => su.skip(i),
            None => Seq::empty(),
        };
        let pw = match ilk_kumede(sw, bolu) {
            Some(i) => sw.skip(i),
            None => Seq::empty(),
        };
        match ilk_kumede(su, bolu) {
            Some(i) => {
                assert(ilk_kumede_mi(su, bolu, i));
                assert(sw[i] == su[i]);
                assert forall|j: int| 0 <= j < i implies !bolu.contains(#[trigger] sw[j]) by {
                    assert(sw[j] == su[j]);
                }
                ilk_kumede_tek(sw, bolu, i);
                assert(pw =~= pu + e);
                assert(sorgusuz(pu)) by {
                    assert forall|k: int| 0 <= k < pu.len() implies pu[k] != '?' && pu[k] != '#' by {
                        assert(pu[k] == su[k + i]);
                    }
                }
                assert(pw[pu.len() as int] == c);
                assert(isaret.contains(pw[pu.len() as int])) by {
                    if c == '?' {
                        assert(isaret[0] == c);
                    } else {
                        assert(isaret[1] == c);
                    }
                }
                assert forall|j: int| 0 <= j < pu.len() implies !isaret.contains(#[trigger] pw[j]) by {
                    assert(pw[j] == pu[j]);
                    if isaret.contains(pw[j]) {
                        let m = choose|m: int| 0 <= m < isaret.len() && isaret[m] == pw[j];
                    }
                }
                ilk_kumede_tek(pw, isaret, pu.len() as int);
                assert(pw.take(pu.len() as int) =~= pu);
                if ilk_kumede(pu, isaret) is Some {
                    let m = ilk_kumede(pu, isaret)->0;
                    assert(ilk_kumede_mi(pu, isaret, m));
                    let x = choose|x: int| 0 <= x < isaret.len() && isaret[x] == pu[m];
                }
                assert(kumeye_kadar(pw, isaret) == kumeye_kadar(pu, isaret));
            },
            None => {
                if ilk_kumede(sw, bolu) is Some {
                    let m = ilk_kumede(sw, bolu)->0;
                    assert(ilk_kumede_mi(sw, bolu, m));
                    let x = choose|x: int| 0 <= x < bolu.len() && bolu[x] == sw[m];
                    if m < su.len() {
                        assert(sw[m] == su[m]);
                        assert forall|j: int| 0 <= j < m implies !bolu.contains(#[trigger] su[j]) by {
                            assert(sw[j] == su[j]);
                        }
                        assert(ilk_kumede_mi(su, bolu, m));
                    } else {
                        assert(sw[m] == e[m - su.len()]);
                    }
                }
            },
        }
    }
}

} // verus!

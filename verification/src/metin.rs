//! Character-level helpers that the parsers and formatters of the crate share.

use vstd::prelude::*;
use vstd::std_specs::iter::IteratorSpec;
use crate::surum::{rakam_mi, rakam_degeri, sayi};

verus! {

/// `String::push` appends one character to the end of the string.
pub assume_specification[ String::push ](s: &mut String, ch: char)
    ensures
        final(s)@ == old(s)@.push(ch),
;

/// The characters of `s`, in order.
pub fn karakterler(s: &str) -> (v: Vec<char>)
    ensures
        v@ == s@,
{
    broadcast use vstd::string::group_string_axioms;
    let mut v: Vec<char> = Vec::new();
    let mut it = s.chars();
    loop
        invariant
            v@ + it.remaining() == s@,
            it.decrease() is Some,
        ensures
            v@ == s@,
        decreases it.decrease()->0,
    {
        match it.next() {
            Some(c) => {
                v.push(c);
                assert(v@ + it.remaining() =~= s@);
            },
            None => {
                assert(v@ =~= s@);
                break;
            },
        }
    }
    v
}

/// A string holding exactly the characters of `v`.
pub fn metin_yap(v: &[char]) -> (s: String)
    ensures
        s@ == v@,
{
    let mut s = String::new();
    let n = v.len();
    for i in 0..n
        invariant
            n == v@.len(),
            s@ == v@.take(i as int),
    {
        s.push(v[i]);
        assert(v@.take(i + 1) =~= v@.take(i as int).push(v@[i as int]));
    }
    assert(v@.take(n as int) =~= v@);
    s
}

/// The ASCII digit for `d` (0 to 9).
pub open spec fn rakam(d: int) -> char {
    (('0' as u32) + d) as char
}

/// Decimal digits of a natural number, without sign or leading zeros.
pub open spec fn dogal_ondalik(n: nat) -> Seq<char>
    decreases n,
{
    if n < 10 {
        seq![rakam(n as int)]
    } else {
        dogal_ondalik(n / 10).push(rakam((n % 10) as int))
    }
}

/// Decimal notation of an integer, as `{}` formats it: a `-` before the
/// digits of a negative number.
pub open spec fn ondalik(n: int) -> Seq<char> {
    if n < 0 {
        seq!['-'] + dogal_ondalik((-n) as nat)
    } else {
        dogal_ondalik(n as nat)
    }
}

pub proof fn rakam_geri(d: int)
    requires
        0 <= d < 10,
    ensures
        rakam_degeri(rakam(d)) == d,
        rakam_mi(rakam(d)),
{
    assert(('0' as u32) == 48);
    assert(rakam(d) as u32 == 48 + d);
}

pub proof fn dogal_ondalik_rakamlar(n: nat)
    ensures
        dogal_ondalik(n).len() > 0,
        forall|k: int| 0 <= k < dogal_ondalik(n).len() ==> rakam_mi(#[trigger] dogal_ondalik(n)[k]),
        sayi(dogal_ondalik(n)) == n,
    decreases n,
{
    if n >= 10 {
        dogal_ondalik_rakamlar(n / 10);
        rakam_geri((n % 10) as int);
        let d = dogal_ondalik(n);
        assert(d.drop_last() =~= dogal_ondalik(n / 10));
        assert(d.last() == rakam((n % 10) as int));
        assert(sayi(d) == sayi(dogal_ondalik(n / 10)) * 10 + rakam_degeri(d.last()));
        assert(sayi(d) == (n / 10) * 10 + n % 10);
        assert forall|k: int| 0 <= k < d.len() implies rakam_mi(#[trigger] d[k]) by {
            if k < d.len() - 1 {
                assert(d[k] == dogal_ondalik(n / 10)[k]);
            }
        }
    } else {
        rakam_geri(n as int);
        let d = dogal_ondalik(n);
        assert(d.drop_last() =~= Seq::<char>::empty());
        assert(sayi(Seq::<char>::empty()) == 0);
        assert(sayi(d) == sayi(d.drop_last()) * 10 + rakam_degeri(d.last()));
    }
}

/// Decimal notation is one-to-one, and holds no character but digits and `-`.
pub proof fn ondalik_birebir(a: int, b: int)
    ensures
        ondalik(a) == ondalik(b) ==> a == b,
        ondalik(a).len() > 0,
        forall|k: int|
            0 <= k < ondalik(a).len() ==> rakam_mi(#[trigger] ondalik(a)[k]) || ondalik(a)[k] == '-',
{
    dogal_ondalik_rakamlar(if a < 0 { (-a) as nat } else { a as nat });
    dogal_ondalik_rakamlar(if b < 0 { (-b) as nat } else { b as nat });
    if ondalik(a) == ondalik(b) {
        if a < 0 {
            assert(ondalik(a)[0] == '-');
            assert(b < 0);
            assert(ondalik(a).drop_first() =~= dogal_ondalik((-a) as nat));
            assert(ondalik(b).drop_first() =~= dogal_ondalik((-b) as nat));
        } else {
            assert(rakam_mi(ondalik(a)[0]));
            assert(b >= 0);
        }
    }
    if a < 0 {
        assert forall|k: int| 0 <= k < ondalik(a).len() implies rakam_mi(#[trigger] ondalik(a)[k])
            || ondalik(a)[k] == '-' by {
            if k > 0 {
                assert(ondalik(a)[k] == dogal_ondalik((-a) as nat)[k - 1]);
            }
        }
    }
}

/// Decimal digits of a `u64`.
pub fn u64_ondalik(n: u64) -> (v: Vec<char>)
    ensures
        v@ == dogal_ondalik(n as nat),
    decreases n,
{
    if n < 10 {
        let c = ((('0' as u32) + (n as u32)) as u8) as char;
        let mut v = Vec::new();
        v.push(c);
        assert(v@ =~= seq![rakam(n as int)]);
        v
    } else {
        let mut v = u64_ondalik(n / 10);
        let d = (n % 10) as u32;
        let c = ((('0' as u32) + d) as u8) as char;
        v.push(c);
        v
    }
}

/// Decimal notation of an `i64`, as `format!("{}", n)` writes it.
pub fn i64_ondalik(n: i64) -> (v: Vec<char>)
    ensures
        v@ == ondalik(n as int),
{
    if n < 0 {
        let m: u64 = (0i128 - (n as i128)) as u64;
        let d = u64_ondalik(m);
        let mut v = Vec::new();
        v.push('-');
        let mut i: usize = 0;
        while i < d.len()
            invariant
                0 <= i <= d@.len(),
                v@ == seq!['-'] + d@.take(i as int),
            decreases d@.len() - i,
        {
            v.push(d[i]);
            assert(d@.take(i + 1) =~= d@.take(i as int).push(d@[i as int]));
            i = i + 1;
        }
        assert(d@.take(d@.len() as int) =~= d@);
        v
    } else {
        u64_ondalik(n as u64)
    }
}

/// Appends the characters of `w` to `v`.
pub fn ekle(v: &mut Vec<char>, w: &[char])
    ensures
        final(v)@ == old(v)@ + w@,
{
    let n = w.len();
    for i in 0..n
        invariant
            n == w@.len(),
            v@ == old(v)@ + w@.take(i as int),
    {
        v.push(w[i]);
        assert(w@.take(i + 1) =~= w@.take(i as int).push(w@[i as int]));
    }
    assert(w@.take(n as int) =~= w@);
}

/// The first position of `c` in `s`, if any.
pub open spec fn ilk_konum(s: Seq<char>, c: char) -> Option<int>
    decreases s.len(),
{
    if s.len() == 0 {
        None
    } else if s[0] == c {
        Some(0)
    } else {
        match ilk_konum(s.drop_first(), c) {
            Some(k) => Some(k + 1),
            None => None,
        }
    }
}

pub proof fn ilk_konum_ozellik(s: Seq<char>, c: char)
    ensures
        match ilk_konum(s, c) {
            Some(k) => 0 <= k < s.len() && s[k] == c && forall|j: int| 0 <= j < k ==> s[j] != c,
            None => forall|j: int| 0 <= j < s.len() ==> s[j] != c,
        },
    decreases s.len(),
{
    if s.len() > 0 && s[0] != c {
        ilk_konum_ozellik(s.drop_first(), c);
        assert forall|j: int| 0 < j < s.len() implies s[j] == s.drop_first()[j - 1] by {}
    }
}

pub proof fn ilk_konum_belirle(s: Seq<char>, c: char, k: int)
    requires
        0 <= k < s.len(),
        s[k] == c,
        forall|j: int| 0 <= j < k ==> s[j] != c,
    ensures
        ilk_konum(s, c) == Some(k),
{
    ilk_konum_ozellik(s, c);
    match ilk_konum(s, c) {
        Some(m) => {
            if m < k {
                assert(s[m] != c);
            } else if m > k {
                assert(s[k] != c);
            }
        },
        None => {
            assert(s[k] != c);
        },
    }
}

pub proof fn ilk_konum_yok(s: Seq<char>, c: char)
    requires
        forall|j: int| 0 <= j < s.len() ==> s[j] != c,
    ensures
        ilk_konum(s, c) is None,
{
    ilk_konum_ozellik(s, c);
    if let Some(k) = ilk_konum(s, c) {
        assert(s[k] == c);
    }
}

/// The first position of `c` in `v`.
pub fn ilk_konum_bul(v: &[char], c: char) -> (r: Option<usize>)
    ensures
        match r {
            Some(k) => ilk_konum(v@, c) == Some(k as int),
            None => ilk_konum(v@, c) is None,
        },
{
    let n = v.len();
    for i in 0..n
        invariant
            n == v@.len(),
            forall|j: int| 0 <= j < i ==> v@[j] != c,
    {
        if v[i] == c {
            proof {
                ilk_konum_belirle(v@, c, i as int);
            }
            return Some(i);
        }
    }
    proof {
        ilk_konum_yok(v@, c);
    }
    None
}

/// The characters of `v` from `a` up to `b`.
pub fn parca_al(v: &[char], a: usize, b: usize) -> (w: Vec<char>)
    requires
        a <= b <= v@.len(),
    ensures
        w@ == v@.subrange(a as int, b as int),
{
    let mut w: Vec<char> = Vec::new();
    let mut i = a;
    while i < b
        invariant
            a <= i <= b <= v@.len(),
            w@ == v@.subrange(a as int, i as int),
        decreases b - i,
    {
        w.push(v[i]);
        assert(v@.subrange(a as int, i + 1) =~= v@.subrange(a as int, i as int).push(v@[i as int]));
        i = i + 1;
    }
    w
}

/// Whether `v` starts with `p`.
pub fn onekle_baslar(v: &[char], p: &[char]) -> (b: bool)
    ensures
        b == (p@.len() <= v@.len() && v@.take(p@.len() as int) == p@),
{
    if p.len() > v.len() {
        return false;
    }
    let n = p.len();
    for i in 0..n
        invariant
            n == p@.len(),
            n <= v@.len(),
            forall|j: int| 0 <= j < i ==> v@[j] == p@[j],
    {
        if v[i] != p[i] {
            assert(v@.take(n as int)[i as int] != p@[i as int]);
            return false;
        }
    }
    assert(v@.take(n as int) =~= p@);
    true
}

/// Splitting at a separator that neither left part holds gives back the parts.
pub proof fn ayrac_ile_esit(a: Seq<char>, b: Seq<char>, c: Seq<char>, d: Seq<char>, x: char)
    requires
        forall|k: int| 0 <= k < a.len() ==> a[k] != x,
        forall|k: int| 0 <= k < c.len() ==> c[k] != x,
        a + seq![x] + b == c + seq![x] + d,
    ensures
        a == c,
        b == d,
{
    let s = a + seq![x] + b;
    assert(s[a.len() as int] == x);
    assert forall|j: int| 0 <= j < a.len() implies s[j] != x by {
        assert(s[j] == a[j]);
    }
    ilk_konum_belirle(s, x, a.len() as int);
    let t = c + seq![x] + d;
    assert(t[c.len() as int] == x);
    assert forall|j: int| 0 <= j < c.len() implies t[j] != x by {
        assert(t[j] == c[j]);
    }
    ilk_konum_belirle(t, x, c.len() as int);
    assert(a =~= s.take(a.len() as int));
    assert(c =~= t.take(c.len() as int));
    assert(b =~= s.skip(a.len() as int + 1));
    assert(d =~= t.skip(c.len() as int + 1));
}

/// Whether `s` holds `p` somewhere.
pub open spec fn icerir(s: Seq<char>, p: Seq<char>) -> bool {
    exists|i: int| 0 <= i && i + p.len() <= s.len() && #[trigger] s.subrange(i, i + p.len()) == p
}

/// Whether `s` holds `p` somewhere.
pub fn alt_metin_var(s: &[char], p: &[char]) -> (b: bool)
    ensures
        b == icerir(s@, p@),
{
    if p.len() > s.len() {
        return false;
    }
    if p.len() == 0 {
        assert(s@.subrange(0, 0 + p@.len() as int) =~= p@);
        return true;
    }
    let slen = s.len();
    let son = slen - p.len();
    let mut i: usize = 0;
    while i <= son
        invariant
            son == s@.len() - p@.len(),
            slen == s@.len(),
            0 < p@.len() <= s@.len(),
            0 <= i <= son + 1,
            forall|j: int| 0 <= j < i ==> #[trigger] s@.subrange(j, j + p@.len()) != p@,
        decreases son + 1 - i,
    {
        let mut esit = true;
        let mut k: usize = 0;
        while k < p.len()
            invariant
                0 <= i <= son,
                son == s@.len() - p@.len(),
                slen == s@.len(),
                p@.len() <= s@.len(),
                0 <= k <= p@.len(),
                esit == (forall|m: int| 0 <= m < k ==> s@[i + m] == p@[m]),
            decreases p@.len() - k,
        {
            assert(i + k < s@.len());
            if s[i + k] != p[k] {
                esit = false;
            }
            k = k + 1;
        }
        if esit {
            assert(s@.subrange(i as int, i + p@.len()) =~= p@);
            return true;
        }
        assert(s@.subrange(i as int, i + p@.len()) != p@) by {
            let m = choose|m: int| 0 <= m < p@.len() && s@[i + m] != p@[m];
            assert(s@.subrange(i as int, i + p@.len())[m] == s@[i + m]);
        }
        i = i + 1;
    }
    assert(!icerir(s@, p@)) by {
        if icerir(s@, p@) {
            let j = choose|j: int| 0 <= j && j + p@.len() <= s@.len() && #[trigger] s@.subrange(j, j + p@.len()) == p@;
            assert(j < i);
        }
    }
    false
}

/// A white-space character, as `char::is_whitespace` has it: the Unicode
/// White_Space property.
pub open spec fn bosluk_mu(c: char) -> bool {
    let n = c as u32;
    ||| 0x09 <= n <= 0x0D
    ||| n == 0x20
    ||| n == 0x85
    ||| n == 0xA0
    ||| n == 0x1680
    ||| 0x2000 <= n <= 0x200A
    ||| n == 0x2028
    ||| n == 0x2029
    ||| n == 0x202F
    ||| n == 0x205F
    ||| n == 0x3000
}

/// `s` without white space at its start.
pub open spec fn bastan_kirpilmis(s: Seq<char>) -> Seq<char>
    decreases s.len(),
{
    if s.len() > 0 && bosluk_mu(s[0]) {
        bastan_kirpilmis(s.drop_first())
    } else {
        s
    }
}

/// `s` without white space at its end.
pub open spec fn sondan_kirpilmis(s: Seq<char>) -> Seq<char>
    decreases s.len(),
{
    if s.len() > 0 && bosluk_mu(s.last()) {
        sondan_kirpilmis(s.drop_last())
    } else {
        s
    }
}

/// `s` without white space at either end, as `str::trim` gives it.
pub open spec fn kirpilmis(s: Seq<char>) -> Seq<char> {
    sondan_kirpilmis(bastan_kirpilmis(s))
}

/// Whether `c` is white space.
pub fn bosluk(c: char) -> (b: bool)
    ensures
        b == bosluk_mu(c),
{
    let n = c as u32;
    (0x09 <= n && n <= 0x0D) || n == 0x20 || n == 0x85 || n == 0xA0 || n == 0x1680 || (0x2000 <= n
        && n <= 0x200A) || n == 0x2028 || n == 0x2029 || n == 0x202F || n == 0x205F || n == 0x3000
}

proof fn bastan_kirp_adim(s: Seq<char>, i: int)
    requires
        0 <= i <= s.len(),
        forall|j: int| 0 <= j < i ==> bosluk_mu(#[trigger] s[j]),
    ensures
        bastan_kirpilmis(s) == bastan_kirpilmis(s.skip(i)),
    decreases i,
{
    if i > 0 {
        bastan_kirp_adim(s.drop_first(), i - 1);
        assert(s.drop_first().skip(i - 1) =~= s.skip(i));
    } else {
        assert(s.skip(0) =~= s);
    }
}

proof fn sondan_kirp_adim(s: Seq<char>, n: int)
    requires
        0 <= n <= s.len(),
        forall|j: int| n <= j < s.len() ==> bosluk_mu(#[trigger] s[j]),
    ensures
        sondan_kirpilmis(s) == sondan_kirpilmis(s.take(n)),
    decreases s.len() - n,
{
    if n < s.len() {
        sondan_kirp_adim(s.drop_last(), n);
        assert(s.drop_last().take(n) =~= s.take(n));
    } else {
        assert(s.take(n) =~= s);
    }
}

/// `v` without white space at either end.
pub fn kirp(v: &[char]) -> (t: Vec<char>)
    ensures
        t@ == kirpilmis(v@),
{
    let n = v.len();
    let mut i: usize = 0;
    while i < n && bosluk(v[i])
        invariant
            n == v@.len(),
            0 <= i <= n,
            forall|j: int| 0 <= j < i ==> bosluk_mu(#[trigger] v@[j]),
        decreases n - i,
    {
        i = i + 1;
    }
    proof {
        bastan_kirp_adim(v@, i as int);
        if i < n {
            assert(v@.skip(i as int)[0] == v@[i as int]);
        }
    }
    let bas = parca_al(v, i, n);
    assert(bas@ =~= v@.skip(i as int));
    assert(bastan_kirpilmis(bas@) == bas@);
    let m = bas.len();
    let mut e: usize = m;
    while e > 0 && bosluk(bas[e - 1])
        invariant
            m == bas@.len(),
            0 <= e <= m,
            forall|j: int| e <= j < m ==> bosluk_mu(#[trigger] bas@[j]),
        decreases e,
    {
        e = e - 1;
    }
    proof {
        sondan_kirp_adim(bas@, e as int);
        if e > 0 {
            assert(bas@.take(e as int).last() == bas@[e - 1]);
        }
    }
    let t = parca_al(&bas, 0, e);
    assert(t@ =~= bas@.take(e as int));
    t
}

/// Whether two strings hold the same characters.
pub fn metin_esit(a: &str, b: &str) -> (e: bool)
    ensures
        e == (a@ == b@),
{
    let x = karakterler(a);
    let y = karakterler(b);
    if x.len() != y.len() {
        return false;
    }
    let n = x.len();
    for i in 0..n
        invariant
            n == x@.len(),
            n == y@.len(),
            x@ == a@,
            y@ == b@,
            forall|j: int| 0 <= j < i ==> x@[j] == y@[j],
    {
        if x[i] != y[i] {
            assert(x@[i as int] != y@[i as int]);
            return false;
        }
    }
    assert(x@ =~= y@);
    true
}

/// The pieces of `s` between the separators `c`, as `str::split` gives them.
pub open spec fn parcalar(s: Seq<char>, c: char) -> Seq<Seq<char>>
    decreases s.len(),
{
    match ilk_konum(s, c) {
        None => seq![s],
        Some(i) => if 0 <= i < s.len() {
            seq![s.take(i)] + parcalar(s.skip(i + 1), c)
        } else {
            seq![s]
        },
    }
}

/// The pieces of `v` between the separators `c`.
pub fn parcala(v: &[char], c: char) -> (r: Vec<Vec<char>>)
    ensures
        r@.len() == parcalar(v@, c).len(),
        forall|i: int| 0 <= i < r@.len() ==> #[trigger] r@[i]@ == parcalar(v@, c)[i],
{
    let n = v.len();
    let mut r: Vec<Vec<char>> = Vec::new();
    let mut bas: usize = 0;
    let ghost mut onceki: Seq<Seq<char>> = Seq::empty();
    assert(v@.skip(0) =~= v@);
    assert(parcalar(v@, c) =~= onceki + parcalar(v@.skip(0), c));
    loop
        invariant_except_break
            parcalar(v@, c) == onceki + parcalar(v@.skip(bas as int), c),
        invariant
            n == v@.len(),
            0 <= bas <= n,
            r@.len() == onceki.len(),
            forall|i: int| 0 <= i < r@.len() ==> #[trigger] r@[i]@ == onceki[i],
        ensures
            r@.len() == parcalar(v@, c).len(),
            forall|i: int| 0 <= i < r@.len() ==> #[trigger] r@[i]@ == parcalar(v@, c)[i],
        decreases n - bas,
    {
        let kalan = parca_al(v, bas, n);
        assert(kalan@ =~= v@.skip(bas as int));
        match ilk_konum_bul(&kalan, c) {
            None => {
                proof {
                    onceki = onceki.push(kalan@);
                    assert(parcalar(v@, c) =~= onceki);
                }
                r.push(kalan);
                break;
            },
            Some(k) => {
                proof {
                    ilk_konum_ozellik(kalan@, c);
                }
                let parca = parca_al(&kalan, 0, k);
                assert(parca@ =~= kalan@.take(k as int));
                assert(kalan@.skip(k + 1) =~= v@.skip(bas + k + 1));
                proof {
                    let eski = onceki;
                    onceki = onceki.push(parca@);
                    assert(eski + parcalar(kalan@, c) =~= onceki + parcalar(kalan@.skip(k + 1), c));
                }
                r.push(parca);
                bas = bas + k + 1;
            },
        }
    }
    r
}

} // verus!

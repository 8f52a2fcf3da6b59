//! Version strings: extracting numeric parts ("v1.2.0" → [1, 2, 0]) and
//! comparing them, as the update checks of the desktop shells do.

use vstd::prelude::*;
use crate::metin::karakterler;

verus! {

/// An ASCII decimal digit.
pub open spec fn rakam_mi(c: char) -> bool {
    '0' <= c && c <= '9'
}

/// The value of an ASCII decimal digit.
pub open spec fn rakam_degeri(c: char) -> nat {
    (c as u32 - '0' as u32) as nat
}

/// The number that a string of decimal digits writes.
pub open spec fn sayi(d: Seq<char>) -> nat
    decreases d.len(),
{
    if d.len() == 0 {
        0
    } else {
        sayi(d.drop_last()) * 10 + rakam_degeri(d.last())
    }
}

/// Length of the run of ASCII digits that starts `s`.
pub open spec fn basta_rakam(s: Seq<char>) -> nat
    decreases s.len(),
{
    if s.len() > 0 && rakam_mi(s[0]) {
        1 + basta_rakam(s.drop_first())
    } else {
        0
    }
}

pub proof fn basta_rakam_sinir(s: Seq<char>)
    ensures
        basta_rakam(s) <= s.len(),
        s.len() > 0 && rakam_mi(s[0]) ==> basta_rakam(s) > 0,
    decreases s.len(),
{
    if s.len() > 0 && rakam_mi(s[0]) {
        basta_rakam_sinir(s.drop_first());
    }
}

/// The maximal runs of ASCII digits in `s`, from left to right.
pub open spec fn rakam_gruplari(s: Seq<char>) -> Seq<Seq<char>>
    decreases s.len(),
{
    if s.len() == 0 {
        seq![]
    } else if !rakam_mi(s[0]) {
        rakam_gruplari(s.drop_first())
    } else {
        let n = basta_rakam(s);
        proof {
            basta_rakam_sinir(s);
        }
        seq![s.take(n as int)] + rakam_gruplari(s.skip(n as int))
    }
}

/// At most the first four elements.
pub open spec fn ilk_dort<A>(g: Seq<A>) -> Seq<A> {
    if g.len() > 4 {
        g.take(4)
    } else {
        g
    }
}

/// The values of the digit runs that fit in a `u64`, in order; a run too
/// large for a `u64` is left out.
pub open spec fn sigan_degerler(g: Seq<Seq<char>>) -> Seq<u64>
    decreases g.len(),
{
    if g.len() == 0 {
        seq![]
    } else {
        let onceki = sigan_degerler(g.drop_last());
        if sayi(g.last()) <= u64::MAX {
            onceki.push(sayi(g.last()) as u64)
        } else {
            onceki
        }
    }
}

/// The numeric parts of a version string: the first four runs of digits,
/// each kept when its value fits in a `u64`.
pub open spec fn surum_parcalari(s: Seq<char>) -> Seq<u64> {
    sigan_degerler(ilk_dort(rakam_gruplari(s)))
}

/// Element `i` of `v`, or 0 beyond its end: missing parts count as zero.
pub open spec fn parca(v: Seq<u64>, i: int) -> u64 {
    if 0 <= i < v.len() {
        v[i]
    } else {
        0
    }
}

/// `r` is a later version than `l`: `r` has at least one part, and at the
/// first position where the two differ (missing parts being zero) `r` is larger.
pub open spec fn daha_yeni(r: Seq<u64>, l: Seq<u64>) -> bool {
    &&& r.len() > 0
    &&& exists|i: int|
        #![trigger parca(r, i), parca(l, i)]
        0 <= i < r.len() + l.len() && parca(r, i) > parca(l, i) && forall|j: int|
            0 <= j < i ==> parca(r, j) == parca(l, j)
}

proof fn gruplar_rakamsiz_bas(s: Seq<char>)
    requires
        s.len() > 0,
        !rakam_mi(s[0]),
    ensures
        rakam_gruplari(s) == rakam_gruplari(s.drop_first()),
{
}

proof fn basta_rakam_ek(cur: Seq<char>, rest: Seq<char>)
    requires
        forall|k: int| 0 <= k < cur.len() ==> rakam_mi(#[trigger] cur[k]),
        rest.len() == 0 || !rakam_mi(rest[0]),
    ensures
        basta_rakam(cur + rest) == cur.len(),
    decreases cur.len(),
{
    if cur.len() == 0 {
        assert(cur + rest =~= rest);
    } else {
        assert((cur + rest).drop_first() =~= cur.drop_first() + rest);
        basta_rakam_ek(cur.drop_first(), rest);
    }
}

proof fn gruplar_kapanan(cur: Seq<char>, rest: Seq<char>)
    requires
        cur.len() > 0,
        forall|k: int| 0 <= k < cur.len() ==> rakam_mi(#[trigger] cur[k]),
        rest.len() == 0 || !rakam_mi(rest[0]),
    ensures
        rakam_gruplari(cur + rest) == seq![cur] + rakam_gruplari(rest),
{
    basta_rakam_ek(cur, rest);
    let s = cur + rest;
    assert(s[0] == cur[0]);
    assert(s.take(cur.len() as int) =~= cur);
    assert(s.skip(cur.len() as int) =~= rest);
}

proof fn sigan_ekle(g: Seq<Seq<char>>, r: Seq<char>)
    ensures
        sigan_degerler(g.push(r)) == (if sayi(r) <= u64::MAX {
            sigan_degerler(g).push(sayi(r) as u64)
        } else {
            sigan_degerler(g)
        }),
{
    assert(g.push(r).drop_last() =~= g);
}

/// Value of one finished run, when it fits in a `u64`.
fn grup_kapat(
    out: &mut Vec<u64>,
    Ghost(gruplar): Ghost<Seq<Seq<char>>>,
    Ghost(cur): Ghost<Seq<char>>,
    deger: Option<u64>,
    adet: usize,
)
    requires
        adet == (if gruplar.len() < 4 { gruplar.len() } else { 4 }),
        old(out)@ == sigan_degerler(ilk_dort(gruplar)),
        deger == (if sayi(cur) <= u64::MAX { Some(sayi(cur) as u64) } else { None::<u64> }),
    ensures
        final(out)@ == sigan_degerler(ilk_dort(gruplar.push(cur))),
{
    if adet < 4 {
        assert(ilk_dort(gruplar.push(cur)) =~= ilk_dort(gruplar).push(cur));
        proof {
            sigan_ekle(ilk_dort(gruplar), cur);
        }
        match deger {
            Some(d) => out.push(d),
            None => {},
        }
    } else {
        assert(ilk_dort(gruplar.push(cur)) =~= ilk_dort(gruplar));
    }
}

/// Splits `"1.2.0"`-style versions into numeric parts; a leading `v` and
/// suffixes are tolerated.
pub fn parse_version(value: &str) -> (parts: Vec<u64>)
    ensures
        parts@ == surum_parcalari(value@),
{
    let s = karakterler(value);
    let n = s.len();
    let mut out: Vec<u64> = Vec::new();
    let ghost mut gruplar: Seq<Seq<char>> = seq![];
    let ghost mut cur: Seq<char> = seq![];
    let mut acik = false;
    let mut adet: usize = 0;
    let mut deger: Option<u64> = Some(0);
    let mut i: usize = 0;
    assert(cur + s@.skip(0) =~= s@);
    assert(gruplar + rakam_gruplari(s@) =~= rakam_gruplari(s@));
    while i < n
        invariant
            n == s@.len(),
            s@ == value@,
            0 <= i <= n,
            rakam_gruplari(s@) == gruplar + rakam_gruplari(cur + s@.skip(i as int)),
            acik == (cur.len() > 0),
            forall|k: int| 0 <= k < cur.len() ==> rakam_mi(#[trigger] cur[k]),
            deger == (if sayi(cur) <= u64::MAX { Some(sayi(cur) as u64) } else { None::<u64> }),
            out@ == sigan_degerler(ilk_dort(gruplar)),
            adet == (if gruplar.len() < 4 { gruplar.len() } else { 4 }),
        decreases n - i,
    {
        let c = s[i];
        if '0' <= c && c <= '9' {
            let d: u64 = (c as u32 - '0' as u32) as u64;
            proof {
                assert(cur.push(c).drop_last() =~= cur);
                assert(cur.push(c) + s@.skip(i + 1) =~= cur + s@.skip(i as int));
            }
            deger = match deger {
                Some(v) => {
                    if v <= (u64::MAX - d) / 10 {
                        Some(v * 10 + d)
                    } else {
                        None
                    }
                },
                None => None,
            };
            proof {
                cur = cur.push(c);
            }
            acik = true;
        } else {
            if acik {
                proof {
                    gruplar_kapanan(cur, s@.skip(i as int));
                    assert(gruplar + (seq![cur] + rakam_gruplari(s@.skip(i as int))) =~= gruplar.push(cur)
                        + rakam_gruplari(s@.skip(i as int)));
                }
                grup_kapat(&mut out, Ghost(gruplar), Ghost(cur), deger, adet);
                if adet < 4 {
                    adet = adet + 1;
                }
                proof {
                    gruplar = gruplar.push(cur);
                    cur = seq![];
                }
                acik = false;
                deger = Some(0);
            }
            proof {
                assert(cur + s@.skip(i as int) =~= s@.skip(i as int));
                assert(s@.skip(i as int).drop_first() =~= s@.skip(i + 1));
                gruplar_rakamsiz_bas(s@.skip(i as int));
                assert(cur + s@.skip(i + 1) =~= s@.skip(i + 1));
            }
        }
        i = i + 1;
    }
    if acik {
        proof {
            gruplar_kapanan(cur, seq![]);
            assert(cur + s@.skip(n as int) =~= cur + Seq::<char>::empty());
            assert(gruplar + (seq![cur] + Seq::<Seq<char>>::empty()) =~= gruplar.push(cur));
        }
        grup_kapat(&mut out, Ghost(gruplar), Ghost(cur), deger, adet);
    } else {
        proof {
            assert(cur + s@.skip(n as int) =~= Seq::<char>::empty());
            assert(gruplar + Seq::<Seq<char>>::empty() =~= gruplar);
        }
    }
    out
}

/// Is `remote` a later version than `local`? A remote version without any
/// numeric part never is.
pub fn is_newer(remote: &str, local: &str) -> (b: bool)
    ensures
        b == daha_yeni(surum_parcalari(remote@), surum_parcalari(local@)),
{
    let r = parse_version(remote);
    let l = parse_version(local);
    sira_yeni(&r, &l)
}

/// Part `i` of `v`, zero past its end.
fn parca_al(v: &Vec<u64>, i: usize) -> (p: u64)
    ensures
        p == parca(v@, i as int),
{
    if i < v.len() {
        v[i]
    } else {
        0
    }
}

fn sira_yeni(r: &Vec<u64>, l: &Vec<u64>) -> (b: bool)
    ensures
        b == daha_yeni(r@, l@),
{
    if r.len() == 0 {
        return false;
    }
    let n = if r.len() > l.len() { r.len() } else { l.len() };
    let mut i: usize = 0;
    while i < n
        invariant
            r@.len() > 0,
            n == (if r@.len() > l@.len() { r@.len() } else { l@.len() }),
            0 <= i <= n,
            forall|j: int| 0 <= j < i ==> parca(r@, j) == parca(l@, j),
        decreases n - i,
    {
        let a = parca_al(r, i);
        let b = parca_al(l, i);
        if a != b {
            if a > b {
                assert(0 <= i < r@.len() + l@.len() && parca(r@, i as int) > parca(l@, i as int));
                return true;
            } else {
                proof {
                    daha_yeni_degil(r@, l@, i as int);
                }
                return false;
            }
        }
        i = i + 1;
    }
    proof {
        if daha_yeni(r@, l@) {
            let k = choose|k: int|
                #![trigger parca(r@, k), parca(l@, k)]
                0 <= k < r@.len() + l@.len() && parca(r@, k) > parca(l@, k) && forall|j: int|
                    0 <= j < k ==> parca(r@, j) == parca(l@, j);
            assert(parca(r@, k) == parca(l@, k));
        }
    }
    false
}

proof fn daha_yeni_degil(r: Seq<u64>, l: Seq<u64>, i: int)
    requires
        0 <= i,
        parca(r, i) < parca(l, i),
        forall|j: int| 0 <= j < i ==> parca(r, j) == parca(l, j),
    ensures
        !daha_yeni(r, l),
{
    if daha_yeni(r, l) {
        let k = choose|k: int|
            #![trigger parca(r, k), parca(l, k)]
            0 <= k < r.len() + l.len() && parca(r, k) > parca(l, k) && forall|j: int|
                0 <= j < k ==> parca(r, j) == parca(l, j);
        if k < i {
            assert(parca(r, k) == parca(l, k));
        } else if k > i {
            assert(parca(r, i) == parca(l, i));
        }
    }
}

/// The ordering of versions is strict: no version is later than itself.
pub proof fn surum_kendinden_yeni_degil(v: Seq<char>)
    ensures
        !daha_yeni(surum_parcalari(v), surum_parcalari(v)),
{
}

/// If `a` is later than `b`, then `b` is not later than `a`.
pub proof fn surum_asimetrik(a: Seq<char>, b: Seq<char>)
    ensures
        daha_yeni(surum_parcalari(a), surum_parcalari(b)) ==> !daha_yeni(
            surum_parcalari(b),
            surum_parcalari(a),
        ),
{
    let x = surum_parcalari(a);
    let y = surum_parcalari(b);
    if daha_yeni(x, y) {
        let k = choose|k: int|
            #![trigger parca(x, k), parca(y, k)]
            0 <= k < x.len() + y.len() && parca(x, k) > parca(y, k) && forall|j: int|
                0 <= j < k ==> parca(x, j) == parca(y, j);
        assert forall|j: int| 0 <= j < k implies parca(y, j) == parca(x, j) by {}
        daha_yeni_degil(y, x, k);
    }
}

/// "Later than" is transitive.
pub proof fn surum_gecisli(a: Seq<char>, b: Seq<char>, c: Seq<char>)
    ensures
        daha_yeni(surum_parcalari(a), surum_parcalari(b)) && daha_yeni(
            surum_parcalari(b),
            surum_parcalari(c),
        ) ==> daha_yeni(surum_parcalari(a), surum_parcalari(c)),
{
    let x = surum_parcalari(a);
    let y = surum_parcalari(b);
    let z = surum_parcalari(c);
    if daha_yeni(x, y) && daha_yeni(y, z) {
        let k1 = choose|k: int|
            #![trigger parca(x, k), parca(y, k)]
            0 <= k < x.len() + y.len() && parca(x, k) > parca(y, k) && forall|j: int|
                0 <= j < k ==> parca(x, j) == parca(y, j);
        let k2 = choose|k: int|
            #![trigger parca(y, k), parca(z, k)]
            0 <= k < y.len() + z.len() && parca(y, k) > parca(z, k) && forall|j: int|
                0 <= j < k ==> parca(y, j) == parca(z, j);
        let k = if k1 < k2 { k1 } else { k2 };
        assert forall|j: int| 0 <= j < k implies parca(x, j) == parca(z, j) by {
            assert(parca(x, j) == parca(y, j));
            assert(parca(y, j) == parca(z, j));
        }
        if k1 < k2 {
            assert(parca(y, k1) == parca(z, k1));
        } else if k2 < k1 {
            assert(parca(x, k2) == parca(y, k2));
        }
        assert(parca(x, k) > parca(z, k));
        if k >= x.len() + z.len() {
            assert(parca(x, k) == 0);
        }
    }
}

} // verus!

//! The task panel's desktop shell: file names of downloads, percent and
//! base64 decoding done by hand, which addresses stay inside the shell, and
//! the small tables the shell carries.

use vstd::prelude::*;
use vstd::arithmetic::power2::{pow2, lemma_pow2_adds, lemma_pow2_pos};
use vstd::arithmetic::div_mod::{lemma_mod_breakdown, lemma_fundamental_div_mod_converse, lemma_mod_mod,
    lemma_div_denominator};
use crate::metin::{karakterler, bosluk, bosluk_mu, metin_yap, ekle, kirp, kirpilmis, parca_al, metin_esit,
    icerir, alt_metin_var, bastan_kirpilmis, sondan_kirpilmis, u64_ondalik, dogal_ondalik};
use crate::adres::{ilk_kumede, ilk_kumede_bul, ilk_kumede_mi, son_konum, son_konum_bul, son_konum_mu, sondan_kirp, sondan_kirp_al, ascii_kucuk_metin, ascii_kucuk_al, kumeye_kadar, kumeye_kadar_al,
    ilk_alt, ilk_alt_bul, ilk_alt_mi};
use crate::kopru::{utf8_onarilmis, utf8_onar, onaltilik};
use vstd::utf8::{encode_utf8, decode_utf8, valid_utf8};

verus! {

// ── Base64 ──────────────────────────────────────────────────────────────────

/// The value of a character of the standard or the URL-safe base64 alphabet.
pub open spec fn b64_degeri(c: char) -> Option<u32> {
    if 'A' <= c && c <= 'Z' {
        Some((c as u32 - 'A' as u32) as u32)
    } else if 'a' <= c && c <= 'z' {
        Some((c as u32 - 'a' as u32 + 26) as u32)
    } else if '0' <= c && c <= '9' {
        Some((c as u32 - '0' as u32 + 52) as u32)
    } else if c == '+' || c == '-' {
        Some(62)
    } else if c == '/' || c == '_' {
        Some(63)
    } else {
        None
    }
}

/// The six-bit values that a base64 text holds: white space is skipped, the
/// first `=` ends the text, any other character outside the alphabets makes
/// it invalid.
pub open spec fn b64_akisi(s: Seq<char>) -> Option<Seq<u32>>
    decreases s.len(),
{
    if s.len() == 0 {
        Some(Seq::empty())
    } else if s[0] == '=' {
        Some(Seq::empty())
    } else {
        match b64_degeri(s[0]) {
            Some(v) => match b64_akisi(s.drop_first()) {
                Some(r) => Some(seq![v] + r),
                None => None,
            },
            None => if bosluk_mu(s[0]) {
                b64_akisi(s.drop_first())
            } else {
                None
            },
        }
    }
}

/// The number that six-bit values write, first value highest.
pub open spec fn tam_deger(v: Seq<u32>) -> nat
    decreases v.len(),
{
    if v.len() == 0 {
        0
    } else {
        (tam_deger(v.drop_last()) * 64 + v.last()) as nat
    }
}

/// The `k`th byte of the bit stream of `v`: bits `8k` to `8k+7`.
pub open spec fn akis_bayti(v: Seq<u32>, k: int) -> u8 {
    ((tam_deger(v) / pow2((6 * v.len() - 8 * k - 8) as nat)) % 256) as u8
}

/// The bytes that the values `v` decode to: every whole byte of their bit
/// stream; leftover bits are dropped.
pub open spec fn b64_baytlari(v: Seq<u32>) -> Seq<u8> {
    Seq::new((6 * v.len() / 8) as nat, |k: int| akis_bayti(v, k))
}

/// The bytes a base64 text decodes to, if it is valid.
pub open spec fn b64_cozulmus(s: Seq<char>) -> Option<Seq<u8>> {
    match b64_akisi(s) {
        Some(v) => Some(b64_baytlari(v)),
        None => None,
    }
}

proof fn kirpik_bolum(a: nat, s: nat)
    requires
        s + 8 <= 32,
    ensures
        ((a % pow2(32)) / pow2(s)) % 256 == (a / pow2(s)) % 256,
{
    lemma_pow2_pos(s);
    lemma_pow2_pos((32 - s) as nat);
    lemma_pow2_pos((24 - s) as nat);
    lemma_pow2_adds(s, (32 - s) as nat);
    lemma_pow2_adds(8, (24 - s) as nat);
    assert(pow2(8) == 256) by {
        vstd::arithmetic::power2::lemma2_to64();
    }
    let d = pow2(s) as int;
    let e = pow2((32 - s) as nat) as int;
    lemma_mod_breakdown(a as int, d, e);
    let q = ((a as int) / d) % e;
    let r = (a as int) % d;
    assert(a % pow2(32) == d * q + r);
    assert(0 <= r < d);
    lemma_fundamental_div_mod_converse((a % pow2(32)) as int, d, q, r);
    lemma_mod_mod((a as int) / d, 256, pow2((24 - s) as nat) as int);
}

proof fn kaydirma_bolum(t: nat, v: u32, e: nat)
    requires
        v < 64,
    ensures
        ((t * 64 + v) as nat) / pow2(e + 6) == t / pow2(e),
{
    lemma_pow2_pos(e);
    lemma_pow2_adds(e, 6);
    assert(pow2(6) == 64) by {
        vstd::arithmetic::power2::lemma2_to64();
    }
    lemma_fundamental_div_mod_converse((t * 64 + v) as int, 64, t as int, v as int);
    lemma_div_denominator((t * 64 + v) as int, 64, pow2(e) as int);
    assert(64 * pow2(e) == pow2(e) * 64) by (nonlinear_arith);
}

/// Decodes base64 written by hand: the standard and the URL-safe alphabet,
/// white space skipped, decoding ends at the first `=`.
pub fn decode_base64(input: &str) -> (r: Option<Vec<u8>>)
    ensures
        match r {
            Some(b) => b64_cozulmus(input@) == Some(b@),
            None => b64_cozulmus(input@) is None,
        },
{
    let s = karakterler(input);
    let n = s.len();
    let mut out: Vec<u8> = Vec::new();
    let mut buffer: u32 = 0;
    let mut bits: u32 = 0;
    let ghost mut vals: Seq<u32> = Seq::empty();
    let mut i: usize = 0;
    assert(s@.skip(0) =~= s@);
    assert(vals + Seq::<u32>::empty() =~= vals);
    assert(out@ =~= b64_baytlari(vals));
    proof {
        lemma_pow2_pos(32);
        assert(tam_deger(vals) == 0);
        vstd::arithmetic::div_mod::lemma_small_mod(0, pow2(32));
    }
    loop
        invariant_except_break
            match b64_akisi(s@.skip(i as int)) {
                Some(r) => b64_akisi(s@) == Some(vals + r),
                None => b64_akisi(s@) is None,
            },
        invariant
            n == s@.len(),
            s@ == input@,
            0 <= i <= n,
            bits < 8,
            6 * vals.len() == 8 * out@.len() + bits,
            buffer == tam_deger(vals) % pow2(32),
            out@ == b64_baytlari(vals),
        ensures
            b64_akisi(s@) == Some(vals),
        decreases n - i,
    {
        if i >= n {
            assert(s@.skip(i as int) =~= Seq::<char>::empty());
            assert(vals + Seq::<u32>::empty() =~= vals);
            break;
        }
        let c = s[i];
        proof {
            let r = s@.skip(i as int);
            assert(r[0] == c);
            assert(r.drop_first() =~= s@.skip(i + 1));
        }
        if c == '=' {
            assert(vals + Seq::<u32>::empty() =~= vals);
            break;
        }
        let value: u32 = if 'A' <= c && c <= 'Z' {
            (c as u32) - ('A' as u32)
        } else if 'a' <= c && c <= 'z' {
            (c as u32) - ('a' as u32) + 26
        } else if '0' <= c && c <= '9' {
            (c as u32) - ('0' as u32) + 52
        } else if c == '+' || c == '-' {
            62
        } else if c == '/' || c == '_' {
            63
        } else if bosluk(c) {
            i = i + 1;
            continue;
        } else {
            return None;
        };
        assert(b64_degeri(c) == Some(value));
        let ghost eski = vals;
        let ghost eski_cikti = out@;
        proof {
            vals = vals.push(value);
            assert(vals.drop_last() =~= eski);
            match b64_akisi(s@.skip(i + 1)) {
                Some(r) => {
                    assert(eski + (seq![value] + r) =~= vals + r);
                },
                None => {},
            }
        }
        let yeni: u32 = (buffer << 6u32) | value;
        proof {
            assert(((buffer << 6u32) | value) as u64 == ((buffer as u64) * 64) % 0x1_0000_0000 + value as u64) by (bit_vector)
                requires
                    value < 64,
            ;
            assert(pow2(32) == 0x1_0000_0000) by {
                vstd::arithmetic::power2::lemma2_to64();
            }
            assert((((tam_deger(eski) % pow2(32)) * 64) as int) % (pow2(32) as int) + value == (((tam_deger(eski) * 64 + value) as nat) % pow2(32)) as int)
                by (nonlinear_arith)
                requires
                    value < 64,
                    pow2(32) == 0x1_0000_0000,
            ;
        }
        buffer = yeni;
        bits = bits + 6;
        assert forall|k: int| 0 <= k < eski_cikti.len() implies #[trigger] eski_cikti[k] == akis_bayti(vals, k) by {
            assert(eski_cikti[k] == akis_bayti(eski, k));
            let e = (6 * eski.len() - 8 * k - 8) as nat;
            assert((6 * vals.len() - 8 * k - 8) as nat == e + 6);
            kaydirma_bolum(tam_deger(eski), value, e);
        }
        if bits >= 8 {
            bits = bits - 8;
            let b: u8 = ((buffer >> bits) & 0xFF) as u8;
            proof {
                vstd::bits::lemma_u32_shr_is_div(buffer, bits);
                assert(((buffer >> bits) & 0xFF) == (buffer >> bits) % 256) by (bit_vector);
                kirpik_bolum(tam_deger(vals), bits as nat);
                assert(b == akis_bayti(vals, eski_cikti.len() as int));
            }
            out.push(b);
        }
        assert(out@ =~= b64_baytlari(vals));
        i = i + 1;
    }
    Some(out)
}

// ── File names ──────────────────────────────────────────────────────────────

/// `s` without every `c` at its start.
pub open spec fn bastan_sil(s: Seq<char>, c: char) -> Seq<char>
    decreases s.len(),
{
    if s.len() > 0 && s[0] == c {
        bastan_sil(s.drop_first(), c)
    } else {
        s
    }
}

/// `s` without every `c` at either end (`str::trim_matches`).
pub open spec fn iki_uctan_sil(s: Seq<char>, c: char) -> Seq<char> {
    sondan_kirp(bastan_sil(s, c), c)
}

proof fn bastan_sil_adim(s: Seq<char>, c: char, i: int)
    requires
        0 <= i <= s.len(),
        forall|j: int| 0 <= j < i ==> #[trigger] s[j] == c,
    ensures
        bastan_sil(s, c) == bastan_sil(s.skip(i), c),
    decreases i,
{
    if i > 0 {
        bastan_sil_adim(s.drop_first(), c, i - 1);
        assert(s.drop_first().skip(i - 1) =~= s.skip(i));
    } else {
        assert(s.skip(0) =~= s);
    }
}

fn bastan_sil_al(s: &[char], c: char) -> (t: Vec<char>)
    ensures
        t@ == bastan_sil(s@, c),
{
    let n = s.len();
    let mut i: usize = 0;
    while i < n && s[i] == c
        invariant
            n == s@.len(),
            0 <= i <= n,
            forall|j: int| 0 <= j < i ==> #[trigger] s@[j] == c,
        decreases n - i,
    {
        i = i + 1;
    }
    proof {
        bastan_sil_adim(s@, c, i as int);
        if i < n {
            assert(s@.skip(i as int)[0] == s@[i as int]);
        }
    }
    let t = parca_al(s, i, n);
    assert(t@ =~= s@.skip(i as int));
    t
}

fn iki_uctan_sil_al(s: &[char], c: char) -> (t: Vec<char>)
    ensures
        t@ == iki_uctan_sil(s@, c),
{
    sondan_kirp_al(&bastan_sil_al(s, c), c)
}

/// A character that a file name may not hold: it becomes `-`.
pub open spec fn yasak_mi(c: char) -> bool {
    c == '/' || c == '\\' || c == ':' || c == '*' || c == '?' || c == '"' || c == '<' || c == '>' || c == '|'
}

/// The characters of a name made safe: path separators and the characters
/// that systems refuse become `-`, control characters go.
pub open spec fn guvenli_karakterler(s: Seq<char>) -> Seq<char>
    decreases s.len(),
{
    if s.len() == 0 {
        Seq::empty()
    } else {
        let c = s.last();
        guvenli_karakterler(s.drop_last()) + (if yasak_mi(c) {
            seq!['-']
        } else if (c as u32) < 0x20 {
            Seq::empty()
        } else {
            seq![c]
        })
    }
}

/// The name given when nothing of a name is left.
pub open spec fn varsayilan_ad() -> Seq<char> {
    "indirilen-dosya"@
}

/// A file name made safe: trimmed, without dots at either end (no `..`
/// climbing out of the folder), separators and refused characters turned
/// into `-`, control characters dropped, at most 120 characters.
pub open spec fn guvenli_ad(raw: Seq<char>) -> Seq<char> {
    let t = kirpilmis(iki_uctan_sil(kirpilmis(raw), '.'));
    let o = kirpilmis(guvenli_karakterler(t));
    let k = if o.len() > 120 {
        o.take(120)
    } else {
        o
    };
    if k.len() == 0 {
        varsayilan_ad()
    } else {
        k
    }
}

/// A character that a safe file name may hold.
pub open spec fn guvenli_karakter(c: char) -> bool {
    !yasak_mi(c) && (c as u32) >= 0x20
}

proof fn guvenli_karakterler_guvenli(s: Seq<char>)
    ensures
        forall|k: int| 0 <= k < guvenli_karakterler(s).len() ==> guvenli_karakter(#[trigger] guvenli_karakterler(s)[k]),
    decreases s.len(),
{
    if s.len() > 0 {
        guvenli_karakterler_guvenli(s.drop_last());
        let o = guvenli_karakterler(s.drop_last());
        let g = guvenli_karakterler(s);
        assert forall|k: int| 0 <= k < g.len() implies guvenli_karakter(#[trigger] g[k]) by {
            if k < o.len() {
                assert(g[k] == o[k]);
            }
        }
    }
}

proof fn bastan_kirpilmis_korur(s: Seq<char>)
    requires
        forall|k: int| 0 <= k < s.len() ==> guvenli_karakter(#[trigger] s[k]),
    ensures
        forall|k: int| 0 <= k < bastan_kirpilmis(s).len() ==> guvenli_karakter(#[trigger] bastan_kirpilmis(s)[k]),
    decreases s.len(),
{
    if s.len() > 0 && bosluk_mu(s[0]) {
        assert forall|k: int| 0 <= k < s.drop_first().len() implies guvenli_karakter(#[trigger] s.drop_first()[k]) by {
            assert(s.drop_first()[k] == s[k + 1]);
        }
        bastan_kirpilmis_korur(s.drop_first());
        assert(bastan_kirpilmis(s) == bastan_kirpilmis(s.drop_first()));
    } else {
        assert(bastan_kirpilmis(s) == s);
    }
}

proof fn sondan_kirpilmis_korur(s: Seq<char>)
    requires
        forall|k: int| 0 <= k < s.len() ==> guvenli_karakter(#[trigger] s[k]),
    ensures
        forall|k: int| 0 <= k < sondan_kirpilmis(s).len() ==> guvenli_karakter(#[trigger] sondan_kirpilmis(s)[k]),
    decreases s.len(),
{
    if s.len() > 0 && bosluk_mu(s.last()) {
        assert forall|k: int| 0 <= k < s.drop_last().len() implies guvenli_karakter(#[trigger] s.drop_last()[k]) by {
            assert(s.drop_last()[k] == s[k]);
        }
        sondan_kirpilmis_korur(s.drop_last());
        assert(sondan_kirpilmis(s) == sondan_kirpilmis(s.drop_last()));
    } else {
        assert(sondan_kirpilmis(s) == s);
    }
}

/// Whatever name comes in, the safe name is never empty, holds at most 120
/// characters, and has no path separator, no character that file systems
/// refuse and no control character.
pub proof fn guvenli_ad_guvenli(raw: Seq<char>)
    ensures
        0 < guvenli_ad(raw).len() <= 120,
        forall|k: int| 0 <= k < guvenli_ad(raw).len() ==> guvenli_karakter(#[trigger] guvenli_ad(raw)[k]),
{
    reveal_strlit("indirilen-dosya");
    let t = kirpilmis(iki_uctan_sil(kirpilmis(raw), '.'));
    let g = guvenli_karakterler(t);
    guvenli_karakterler_guvenli(t);
    bastan_kirpilmis_korur(g);
    sondan_kirpilmis_korur(bastan_kirpilmis(g));
    let o = kirpilmis(g);
    if o.len() > 120 {
        assert forall|k: int| 0 <= k < o.take(120).len() implies guvenli_karakter(#[trigger] o.take(120)[k]) by {
            assert(o.take(120)[k] == o[k]);
        }
    }
    let v = varsayilan_ad();
    assert forall|k: int| 0 <= k < v.len() implies guvenli_karakter(#[trigger] v[k]) by {
        assert(v[k] == "indirilen-dosya"@[k]);
    }
}

/// Makes a file name safe (directory separators and control characters go).
pub fn sanitize_file_name(raw: &str) -> (s: String)
    ensures
        s@ == guvenli_ad(raw@),
{
    let t = kirp(&iki_uctan_sil_al(&kirp(&karakterler(raw)), '.'));
    let mut o: Vec<char> = Vec::new();
    let n = t.len();
    for i in 0..n
        invariant
            n == t@.len(),
            o@ == guvenli_karakterler(t@.take(i as int)),
    {
        let c = t[i];
        assert(t@.take(i + 1).drop_last() =~= t@.take(i as int));
        if c == '/' || c == '\\' || c == ':' || c == '*' || c == '?' || c == '"' || c == '<' || c == '>' || c == '|' {
            o.push('-');
        } else if (c as u32) < 0x20 {
        } else {
            o.push(c);
        }
        assert(o@ =~= guvenli_karakterler(t@.take(i + 1)));
    }
    assert(t@.take(n as int) =~= t@);
    let o = kirp(&o);
    let k = if o.len() > 120 {
        let k = parca_al(&o, 0, 120);
        assert(k@ =~= o@.take(120));
        k
    } else {
        o
    };
    if k.len() == 0 {
        "indirilen-dosya".to_owned()
    } else {
        metin_yap(&k)
    }
}

// ── Percent-decoding ────────────────────────────────────────────────────────

/// The bytes of percent-decoding: a `%` followed by two hexadecimal digits
/// becomes that byte; everything else stays.
pub open spec fn yuzde_baytlari(b: Seq<u8>) -> Seq<u8>
    decreases b.len(),
{
    if b.len() == 0 {
        Seq::empty()
    } else if b[0] == 0x25 && b.len() > 2 && onaltilik(b[1]) is Some && onaltilik(b[2]) is Some {
        seq![(onaltilik(b[1])->0 * 16 + onaltilik(b[2])->0) as u8] + yuzde_baytlari(b.skip(3))
    } else {
        seq![b[0]] + yuzde_baytlari(b.skip(1))
    }
}

/// Decodes `%20`-style escapes; bytes that are not UTF-8 then are replaced
/// as `from_utf8_lossy` does.
pub fn percent_decode(input: &str) -> (s: String)
    ensures
        s@ == utf8_onarilmis(yuzde_baytlari(encode_utf8(input@))),
        valid_utf8(yuzde_baytlari(encode_utf8(input@))) ==> s@ == decode_utf8(
            yuzde_baytlari(encode_utf8(input@)),
        ),
{
    let bayt = input.as_bytes();
    let n = bayt.len();
    let mut out: Vec<u8> = Vec::new();
    let mut i: usize = 0;
    assert(bayt@.skip(0) =~= bayt@);
    assert(out@ + yuzde_baytlari(bayt@) =~= yuzde_baytlari(bayt@));
    while i < n
        invariant
            n == bayt@.len(),
            0 <= i <= n,
            yuzde_baytlari(bayt@) == out@ + yuzde_baytlari(bayt@.skip(i as int)),
        decreases n - i,
    {
        let ghost r = bayt@.skip(i as int);
        assert(r[0] == bayt@[i as int]);
        if bayt[i] == 0x25 && n - i > 2 {
            assert(r[1] == bayt@[i + 1]);
            assert(r[2] == bayt@[i + 2]);
            let hi = crate::kopru::onaltilik_al(bayt[i + 1]);
            let lo = crate::kopru::onaltilik_al(bayt[i + 2]);
            if let (Some(h), Some(l)) = (hi, lo) {
                let v: u8 = h * 16 + l;
                proof {
                    assert(r.skip(3) =~= bayt@.skip(i + 3));
                    assert(out@.push(v) + yuzde_baytlari(bayt@.skip(i + 3)) =~= out@ + (seq![v]
                        + yuzde_baytlari(bayt@.skip(i + 3))));
                }
                out.push(v);
                i = i + 3;
                continue;
            }
        }
        let v = bayt[i];
        proof {
            assert(r.skip(1) =~= bayt@.skip(i + 1));
            assert(out@.push(v) + yuzde_baytlari(bayt@.skip(i + 1)) =~= out@ + (seq![v]
                + yuzde_baytlari(bayt@.skip(i + 1))));
        }
        out.push(v);
        i = i + 1;
    }
    assert(bayt@.skip(n as int) =~= Seq::<u8>::empty());
    assert(out@ + Seq::<u8>::empty() =~= out@);
    utf8_onar(out.as_slice())
}

// ── Content-Disposition ─────────────────────────────────────────────────────

/// `i` is the last place where `p` starts in `s`.
pub open spec fn son_alt_mi(s: Seq<char>, p: Seq<char>, i: int) -> bool {
    &&& 0 <= i && i + p.len() <= s.len()
    &&& s.subrange(i, i + p.len()) == p
    &&& forall|j: int| i < j && j + p.len() <= s.len() ==> #[trigger] s.subrange(j, j + p.len()) != p
}

/// The last place where `p` starts in `s`.
pub open spec fn son_alt(s: Seq<char>, p: Seq<char>) -> Option<int> {
    if exists|i: int| son_alt_mi(s, p, i) {
        Some(choose|i: int| son_alt_mi(s, p, i))
    } else {
        None
    }
}

fn son_alt_bul(v: &[char], p: &[char]) -> (r: Option<usize>)
    ensures
        match r {
            Some(i) => son_alt(v@, p@) == Some(i as int),
            None => son_alt(v@, p@) is None,
        },
{
    let vlen = v.len();
    let plen = p.len();
    if plen > vlen {
        proof {
            if exists|i: int| son_alt_mi(v@, p@, i) {
                let i = choose|i: int| son_alt_mi(v@, p@, i);
            }
        }
        return None;
    }
    if plen == 0 {
        assert(v@.subrange(vlen as int, vlen as int) =~= p@);
        proof {
            let m = choose|m: int| son_alt_mi(v@, p@, m);
            assert(son_alt_mi(v@, p@, vlen as int));
        }
        return Some(vlen);
    }
    let mut i: usize = vlen - plen + 1;
    while i > 0
        invariant
            vlen == v@.len(),
            plen == p@.len(),
            plen <= vlen,
            0 <= i <= vlen - plen + 1,
            forall|j: int| i <= j && j + p@.len() <= v@.len() ==> #[trigger] v@.subrange(j, j + p@.len()) != p@,
        decreases i,
    {
        i = i - 1;
        let mut esit = true;
        let mut k: usize = 0;
        while k < plen
            invariant
                vlen == v@.len(),
                plen == p@.len(),
                i + plen <= vlen,
                0 <= k <= plen,
                esit == (forall|m: int| 0 <= m < k ==> v@[i + m] == p@[m]),
            decreases plen - k,
        {
            if v[i + k] != p[k] {
                esit = false;
            }
            k = k + 1;
        }
        if esit {
            assert(v@.subrange(i as int, i + p@.len()) =~= p@);
            proof {
                let m = choose|m: int| son_alt_mi(v@, p@, m);
                assert(son_alt_mi(v@, p@, i as int));
                if m < i {
                    assert(v@.subrange(i as int, i + p@.len()) != p@);
                } else if m > i {
                    assert(v@.subrange(m, m + p@.len()) != p@);
                }
            }
            return Some(i);
        }
        assert(v@.subrange(i as int, i + p@.len()) != p@) by {
            let m = choose|m: int| 0 <= m < p@.len() && v@[i + m] != p@[m];
            assert(v@.subrange(i as int, i + p@.len())[m] == v@[i + m]);
        }
    }
    proof {
        if exists|j: int| son_alt_mi(v@, p@, j) {
            let j = choose|j: int| son_alt_mi(v@, p@, j);
            assert(v@.subrange(j, j + p@.len()) != p@);
        }
    }
    None
}

/// The value of a header parameter that starts `rest`: up to the first `;`,
/// trimmed, without quotes at either end.
pub open spec fn parametre_degeri(rest: Seq<char>) -> Seq<char> {
    iki_uctan_sil(kirpilmis(kumeye_kadar(rest, seq![';'])), '"')
}

/// An RFC 5987 value without its charset and language: what follows the
/// last `''`.
pub open spec fn dil_sonrasi(v: Seq<char>) -> Seq<char> {
    match son_alt(v, "''"@) {
        Some(i) => v.skip(i + 2),
        None => v,
    }
}

/// A cleaned name that counts: not the fallback name.
pub open spec fn kullanilir(ad: Seq<char>) -> bool {
    ad.len() > 0 && ad != varsayilan_ad()
}

/// The name from `filename*=` (percent-encoded, RFC 5987), if it gives one.
pub open spec fn yildizli_ad(cd: Seq<char>) -> Option<Seq<char>> {
    match ilk_alt(ascii_kucuk_metin(cd), "filename*="@) {
        Some(i) => {
            let ad = guvenli_ad(utf8_onarilmis(yuzde_baytlari(encode_utf8(dil_sonrasi(parametre_degeri(cd.skip(i + 10)))))));
            if kullanilir(ad) {
                Some(ad)
            } else {
                None
            }
        },
        None => None,
    }
}

/// The name from `filename=`, if it gives one.
pub open spec fn duz_ad(cd: Seq<char>) -> Option<Seq<char>> {
    match ilk_alt(ascii_kucuk_metin(cd), "filename="@) {
        Some(i) => {
            let ad = guvenli_ad(parametre_degeri(cd.skip(i + 9)));
            if kullanilir(ad) {
                Some(ad)
            } else {
                None
            }
        },
        None => None,
    }
}

fn parametre_degeri_al(cd: &[char], bas: usize) -> (v: Vec<char>)
    requires
        bas <= cd@.len(),
    ensures
        v@ == parametre_degeri(cd@.skip(bas as int)),
{
    let rest = parca_al(cd, bas, cd.len());
    assert(rest@ =~= cd@.skip(bas as int));
    let mut nv: Vec<char> = Vec::new();
    nv.push(';');
    assert(nv@ =~= seq![';']);
    let k = kumeye_kadar_al(&rest, &nv);
    iki_uctan_sil_al(&kirp(&k), '"')
}

/// The file name in a `Content-Disposition` header: `filename*` (RFC 5987)
/// first, then `filename`. A name that cleans down to nothing gives `None`.
pub fn disposition_filename(cd: &str) -> (r: Option<String>)
    ensures
        match r {
            Some(a) => Some(a@) == (match yildizli_ad(cd@) {
                Some(x) => Some(x),
                None => duz_ad(cd@),
            }),
            None => yildizli_ad(cd@) is None && duz_ad(cd@) is None,
        },
{
    proof {
        reveal_strlit("filename*=");
        reveal_strlit("filename=");
    }
    let c = karakterler(cd);
    let clen = c.len();
    let kucuk = ascii_kucuk_al(&c);
    assert(kucuk@.len() == c@.len());
    let varsayilan = "indirilen-dosya";
    if let Some(i) = ilk_alt_bul(&kucuk, &karakterler("filename*=")) {
        assert(i + 10 <= clen) by {
            let w = choose|w: int| ilk_alt_mi(kucuk@, "filename*="@, w);
        }
        let deger = parametre_degeri_al(&c, i + 10);
        let mut tt: Vec<char> = Vec::new();
        tt.push('\'');
        tt.push('\'');
        proof {
            reveal_strlit("''");
        }
        assert(tt@ =~= "''"@);
        let dlen = deger.len();
        let ad = match son_alt_bul(&deger, &tt) {
            Some(j) => {
                assert(j + 2 <= deger@.len()) by {
                    let w = choose|w: int| son_alt_mi(deger@, "''"@, w);
                }
                let t = parca_al(&deger, j + 2, dlen);
                assert(t@ =~= deger@.skip(j + 2));
                t
            },
            None => deger,
        };
        let temiz = sanitize_file_name(percent_decode(metin_yap(&ad).as_str()).as_str());
        if !temiz.as_str().is_empty() && !metin_esit(temiz.as_str(), varsayilan) {
            return Some(temiz);
        }
    }
    if let Some(i) = ilk_alt_bul(&kucuk, &karakterler("filename=")) {
        assert(i + 9 <= clen) by {
            let w = choose|w: int| ilk_alt_mi(kucuk@, "filename="@, w);
        }
        let deger = parametre_degeri_al(&c, i + 9);
        let temiz = sanitize_file_name(metin_yap(&deger).as_str());
        if !temiz.as_str().is_empty() && !metin_esit(temiz.as_str(), varsayilan) {
            return Some(temiz);
        }
    }
    None
}

/// The extension that a content type calls for, if any.
pub open spec fn ture_gore_uzanti(ct: Seq<char>) -> Seq<char> {
    if icerir(ct, "pdf"@) {
        ".pdf"@
    } else if icerir(ct, "csv"@) {
        ".csv"@
    } else if icerir(ct, "spreadsheet"@) || icerir(ct, "excel"@) {
        ".xlsx"@
    } else if icerir(ct, "zip"@) {
        ".zip"@
    } else if icerir(ct, "json"@) {
        ".json"@
    } else if icerir(ct, "png"@) {
        ".png"@
    } else if icerir(ct, "jpeg"@) {
        ".jpg"@
    } else {
        Seq::empty()
    }
}

fn iceriyor(ct: &[char], t: &str) -> (b: bool)
    ensures
        b == icerir(ct@, t@),
{
    alt_metin_var(ct, &karakterler(t))
}

/// Adds an extension by the content type when the name has none.
pub fn ensure_extension(name: String, content_type: &str) -> (s: String)
    ensures
        s@ == (if name@.contains('.') {
            name@
        } else {
            name@ + ture_gore_uzanti(content_type@)
        }),
{
    let ad = karakterler(name.as_str());
    if let Some(_) = crate::metin::ilk_konum_bul(&ad, '.') {
        proof {
            crate::metin::ilk_konum_ozellik(ad@, '.');
            let k = crate::metin::ilk_konum(ad@, '.')->0;
            assert(name@[k] == '.');
        }
        return name;
    }
    proof {
        crate::metin::ilk_konum_ozellik(ad@, '.');
        assert(!name@.contains('.'));
    }
    proof {
        reveal_strlit("");
    }
    let ct = karakterler(content_type);
    let ek = if iceriyor(&ct, "pdf") {
        ".pdf"
    } else if iceriyor(&ct, "csv") {
        ".csv"
    } else if iceriyor(&ct, "spreadsheet") || iceriyor(&ct, "excel") {
        ".xlsx"
    } else if iceriyor(&ct, "zip") {
        ".zip"
    } else if iceriyor(&ct, "json") {
        ".json"
    } else if iceriyor(&ct, "png") {
        ".png"
    } else if iceriyor(&ct, "jpeg") {
        ".jpg"
    } else {
        ""
    };
    let mut v = ad;
    ekle(&mut v, &karakterler(ek));
    metin_yap(&v)
}

// ── Addresses ───────────────────────────────────────────────────────────────

/// The platform that the shell runs on.
#[derive(Debug, Clone, Copy, PartialEq, Eq, Structural)]
pub enum Platform {
    MacOs,
    Windows,
    Diger,
}

/// The system settings page for a permission kind (camera, microphone,
/// screen, notifications); anything outside that list gives `None`, and so
/// does a platform without such pages.
pub fn settings_url(platform: Platform, kind: &str) -> (r: Option<&'static str>)
    ensures
        platform == Platform::MacOs ==> r == (if kind@ == "camera"@ {
            Some("x-apple.systempreferences:com.apple.preference.security?Privacy_Camera")
        } else if kind@ == "microphone"@ {
            Some("x-apple.systempreferences:com.apple.preference.security?Privacy_Microphone")
        } else if kind@ == "screen"@ {
            Some("x-apple.systempreferences:com.apple.preference.security?Privacy_ScreenCapture")
        } else if kind@ == "notifications"@ {
            Some("x-apple.systempreferences:com.apple.preference.notifications")
        } else {
            None
        }),
        platform == Platform::Windows ==> r == (if kind@ == "camera"@ {
            Some("ms-settings:privacy-webcam")
        } else if kind@ == "microphone"@ {
            Some("ms-settings:privacy-microphone")
        } else if kind@ == "screen"@ {
            Some("ms-settings:privacy")
        } else if kind@ == "notifications"@ {
            Some("ms-settings:notifications")
        } else {
            None
        }),
        platform == Platform::Diger ==> r is None,
{
    match platform {
        Platform::MacOs => {
            if metin_esit(kind, "camera") {
                Some("x-apple.systempreferences:com.apple.preference.security?Privacy_Camera")
            } else if metin_esit(kind, "microphone") {
                Some("x-apple.systempreferences:com.apple.preference.security?Privacy_Microphone")
            } else if metin_esit(kind, "screen") {
                Some("x-apple.systempreferences:com.apple.preference.security?Privacy_ScreenCapture")
            } else if metin_esit(kind, "notifications") {
                Some("x-apple.systempreferences:com.apple.preference.notifications")
            } else {
                None
            }
        },
        Platform::Windows => {
            if metin_esit(kind, "camera") {
                Some("ms-settings:privacy-webcam")
            } else if metin_esit(kind, "microphone") {
                Some("ms-settings:privacy-microphone")
            } else if metin_esit(kind, "screen") {
                Some("ms-settings:privacy")
            } else if metin_esit(kind, "notifications") {
                Some("ms-settings:notifications")
            } else {
                None
            }
        },
        Platform::Diger => None,
    }
}

/// This shell's key in the table of apps.
pub const APP_KEY: &'static str = "task";

/// The panel address of an app in the switching table.
pub fn uygulama_adresi(key: &str) -> (r: Option<&'static str>)
    ensures
        r == (if key@ == "finans"@ {
            Some("https://finans.bogahost.com/admin")
        } else if key@ == "dcim"@ {
            Some("https://dcim.bogahost.com/admin")
        } else if key@ == "chat"@ {
            Some("https://chat.bogahost.com/admin")
        } else if key@ == "task"@ {
            Some("https://task.bogahost.com/admin")
        } else {
            None
        }),
{
    if metin_esit(key, "finans") {
        Some("https://finans.bogahost.com/admin")
    } else if metin_esit(key, "dcim") {
        Some("https://dcim.bogahost.com/admin")
    } else if metin_esit(key, "chat") {
        Some("https://chat.bogahost.com/admin")
    } else if metin_esit(key, "task") {
        Some("https://task.bogahost.com/admin")
    } else {
        None
    }
}

/// This app's panel address, the target of recovery.
pub fn app_home_url() -> (s: &'static str)
    ensures
        s@ == "https://task.bogahost.com/admin"@,
{
    proof {
        reveal_strlit("finans");
        reveal_strlit("dcim");
        reveal_strlit("chat");
        reveal_strlit("task");
    }
    let r = uygulama_adresi("task");
    assert("task"@[0] != "finans"@[0]);
    assert("task"@[0] != "dcim"@[0]);
    assert("task"@ != "chat"@);
    assert(r == Some("https://task.bogahost.com/admin"));
    match r {
        Some(u) => u,
        None => "https://bogahost.com/",
    }
}

/// The apps table for the loading overlay, as the JavaScript object it reads.
pub fn overlay_apps_json() -> (s: String)
    ensures
        s@ == "{\"finans.bogahost.com\":{t:\"Bogahost Finans\",s:\"Finans\",a:\"#22c55e\",g:\"Finans'a geçiliyor…\"},\"dcim.bogahost.com\":{t:\"Bogahost DCIM\",s:\"DCIM\",a:\"#6a58ea\",g:\"DCIM'e geçiliyor…\"},\"chat.bogahost.com\":{t:\"Bogahost Chat\",s:\"Chat\",a:\"#06b6d4\",g:\"Chat'e geçiliyor…\"},\"task.bogahost.com\":{t:\"Bogahost Görevler\",s:\"Görevler\",a:\"#f59e0b\",g:\"Görevler'e geçiliyor…\"}}"@,
{
    "{\"finans.bogahost.com\":{t:\"Bogahost Finans\",s:\"Finans\",a:\"#22c55e\",g:\"Finans'a geçiliyor…\"},\"dcim.bogahost.com\":{t:\"Bogahost DCIM\",s:\"DCIM\",a:\"#6a58ea\",g:\"DCIM'e geçiliyor…\"},\"chat.bogahost.com\":{t:\"Bogahost Chat\",s:\"Chat\",a:\"#06b6d4\",g:\"Chat'e geçiliyor…\"},\"task.bogahost.com\":{t:\"Bogahost Görevler\",s:\"Görevler\",a:\"#f59e0b\",g:\"Görevler'e geçiliyor…\"}}".to_owned()
}

/// The pieces of `s` between separators that are characters of `k`.
pub open spec fn kume_parcalari(s: Seq<char>, k: Seq<char>) -> Seq<Seq<char>>
    decreases s.len(),
{
    match ilk_kumede(s, k) {
        None => seq![s],
        Some(i) => if 0 <= i < s.len() {
            seq![s.take(i)] + kume_parcalari(s.skip(i + 1), k)
        } else {
            seq![s]
        },
    }
}

/// Whether the query holds the key `ad` (with any value): a piece between
/// `&` or `;` whose part before any `=` is exactly `ad`.
pub open spec fn bayrak_var(sorgu: Seq<char>, ad: Seq<char>) -> bool {
    let ps = kume_parcalari(sorgu, seq!['&', ';']);
    exists|i: int| 0 <= i < ps.len() && #[trigger] kumeye_kadar(ps[i], seq!['=']) == ad
}

fn bayrak_bul(sorgu: &[char], ad: &str) -> (b: bool)
    ensures
        b == bayrak_var(sorgu@, ad@),
{
    let mut ayrac: Vec<char> = Vec::new();
    ayrac.push('&');
    ayrac.push(';');
    assert(ayrac@ =~= seq!['&', ';']);
    let mut esit: Vec<char> = Vec::new();
    esit.push('=');
    assert(esit@ =~= seq!['=']);
    let hedef = karakterler(ad);
    let n = sorgu.len();
    let mut bas: usize = 0;
    let ghost tum = kume_parcalari(sorgu@, seq!['&', ';']);
    let ghost mut onceki: Seq<Seq<char>> = Seq::empty();
    assert(sorgu@.skip(0) =~= sorgu@);
    assert(tum =~= onceki + kume_parcalari(sorgu@.skip(0), seq!['&', ';']));
    loop
        invariant
            n == sorgu@.len(),
            ayrac@ == seq!['&', ';'],
            esit@ == seq!['='],
            hedef@ == ad@,
            0 <= bas <= n,
            tum == kume_parcalari(sorgu@, seq!['&', ';']),
            tum == onceki + kume_parcalari(sorgu@.skip(bas as int), seq!['&', ';']),
            forall|i: int| 0 <= i < onceki.len() ==> #[trigger] kumeye_kadar(onceki[i], seq!['=']) != ad@,
        decreases n - bas,
    {
        let kalan = parca_al(sorgu, bas, n);
        assert(kalan@ =~= sorgu@.skip(bas as int));
        let (parca, son) = match ilk_kumede_bul(&kalan, &ayrac) {
            Some(k) => {
                assert(k < kalan@.len()) by {
                    let w = choose|w: int| ilk_kumede_mi(kalan@, seq!['&', ';'], w);
                }
                let p = parca_al(&kalan, 0, k);
                assert(p@ =~= kalan@.take(k as int));
                (p, Some(k))
            },
            None => (kalan, None),
        };
        let anahtar = kumeye_kadar_al(&parca, &esit);
        let eslesti = anahtar.len() == hedef.len() && {
            let m = anahtar.len();
            let mut ok = true;
            let mut j: usize = 0;
            while j < m
                invariant
                    m == anahtar@.len(),
                    m == hedef@.len(),
                    0 <= j <= m,
                    ok == (forall|t: int| 0 <= t < j ==> anahtar@[t] == hedef@[t]),
                decreases m - j,
            {
                if anahtar[j] != hedef[j] {
                    ok = false;
                }
                j = j + 1;
            }
            ok
        };
        assert(eslesti == (anahtar@ == ad@)) by {
            if anahtar@.len() == hedef@.len() && !eslesti {
                let t = choose|t: int| 0 <= t < anahtar@.len() && anahtar@[t] != hedef@[t];
            }
            if eslesti {
                assert(anahtar@ =~= hedef@);
            }
        }
        proof {
            let eski = onceki;
            onceki = onceki.push(parca@);
            match son {
                Some(k) => {
                    assert(kalan@.skip(k + 1) =~= sorgu@.skip(bas + k + 1));
                    assert(eski + kume_parcalari(kalan@, seq!['&', ';']) =~= onceki + kume_parcalari(kalan@.skip(k + 1), seq!['&', ';']));
                },
                None => {
                    assert(tum =~= onceki);
                },
            }
        }
        if eslesti {
            assert(tum[onceki.len() - 1] == parca@);
            return true;
        }
        match son {
            Some(k) => {
                bas = bas + k + 1;
            },
            None => {
                assert(forall|i: int| 0 <= i < tum.len() ==> #[trigger] kumeye_kadar(tum[i], seq!['=']) != ad@);
                return false;
            },
        }
    }
}

/// Whether `s` ends with `p`.
pub open spec fn ile_biter(s: Seq<char>, p: Seq<char>) -> bool {
    s.len() >= p.len() && s.skip(s.len() - p.len()) == p
}

/// The extensions of documents.
pub open spec fn belge_uzantisi(e: Seq<char>) -> bool {
    ||| e == "pdf"@ || e == "csv"@ || e == "xls"@ || e == "xlsx"@
    ||| e == "doc"@ || e == "docx"@ || e == "ppt"@ || e == "pptx"@
    ||| e == "zip"@ || e == "rar"@ || e == "7z"@ || e == "gz"@
    ||| e == "tgz"@ || e == "tar"@ || e == "ics"@ || e == "sql"@
}

/// Whether an address looks like a document (the server's content type
/// cannot be seen here): a download flag in the query (`indir`, `download`,
/// `dl`, `export`, whatever its value), a document path without extension
/// (`/e-fatura-pdf`, `/e-arsiv-pdf`, `/dekont`), or a document extension
/// after the path's last dot. Case does not matter.
pub open spec fn belge_gibi(yol: Seq<char>, sorgu: Seq<char>) -> bool {
    let p = ascii_kucuk_metin(yol);
    let q = ascii_kucuk_metin(sorgu);
    ||| bayrak_var(q, "indir"@) || bayrak_var(q, "download"@) || bayrak_var(q, "dl"@) || bayrak_var(q, "export"@)
    ||| icerir(p, "/e-fatura-pdf"@) || icerir(p, "/e-arsiv-pdf"@) || ile_biter(p, "/dekont"@) || icerir(p, "/dekont/"@)
    ||| (son_konum(p, '.') matches Some(i) && belge_uzantisi(p.skip(i + 1)))
}

/// Whether an address (its path and its query, empty when it has none)
/// looks like a document.
pub fn looks_like_document_url(path: &str, query: &str) -> (b: bool)
    ensures
        b == belge_gibi(path@, query@),
{
    proof {
        reveal_strlit("/dekont");
    }
    let p = ascii_kucuk_al(&karakterler(path));
    let q = ascii_kucuk_al(&karakterler(query));
    if bayrak_bul(&q, "indir") || bayrak_bul(&q, "download") || bayrak_bul(&q, "dl") || bayrak_bul(&q, "export") {
        return true;
    }
    let biter = p.len() >= 7 && {
        let son = parca_al(&p, p.len() - 7, p.len());
        assert(son@ =~= p@.skip(p@.len() - 7));
        metin_esit(metin_yap(&son).as_str(), "/dekont")
    };
    if iceriyor(&p, "/e-fatura-pdf") || iceriyor(&p, "/e-arsiv-pdf") || biter || iceriyor(&p, "/dekont/") {
        return true;
    }
    let plen = p.len();
    match son_konum_bul(&p, '.') {
        Some(i) => {
            assert(i < plen) by {
                let w = choose|w: int| son_konum_mu(p@, '.', w);
            }
            let e = metin_yap(&parca_al(&p, i + 1, plen));
            assert(e@ =~= p@.skip(i + 1));
            let es = e.as_str();
            metin_esit(es, "pdf") || metin_esit(es, "csv") || metin_esit(es, "xls") || metin_esit(es, "xlsx")
                || metin_esit(es, "doc") || metin_esit(es, "docx") || metin_esit(es, "ppt") || metin_esit(es, "pptx")
                || metin_esit(es, "zip") || metin_esit(es, "rar") || metin_esit(es, "7z") || metin_esit(es, "gz")
                || metin_esit(es, "tgz") || metin_esit(es, "tar") || metin_esit(es, "ics") || metin_esit(es, "sql")
        },
        None => false,
    }
}

/// The domain that stays inside the shell; every other address opens in
/// the system browser.
pub const INTERNAL_DOMAIN: &'static str = "bogahost.com";

/// Whether an address stays inside the shell: `http` or `https` on
/// `bogahost.com` or one of its subdomains (a trailing dot of the host
/// ignored, case ignored).
pub open spec fn ic_adres(sema: Seq<char>, host: Option<Seq<char>>) -> bool {
    &&& (sema == "http"@ || sema == "https"@)
    &&& host matches Some(h) && {
        let k = ascii_kucuk_metin(sondan_kirp(h, '.'));
        k == INTERNAL_DOMAIN@ || ile_biter(k, "."@ + INTERNAL_DOMAIN@)
    }
}

/// Whether an address, by its scheme and host, stays inside the shell.
pub fn is_internal_url(scheme: &str, host: Option<&str>) -> (b: bool)
    ensures
        b == ic_adres(scheme@, match host {
            Some(h) => Some(h@),
            None => None,
        }),
{
    if !(metin_esit(scheme, "http") || metin_esit(scheme, "https")) {
        return false;
    }
    let h = match host {
        Some(h) => h,
        None => return false,
    };
    let k = ascii_kucuk_al(&sondan_kirp_al(&karakterler(h), '.'));
    let ks = metin_yap(&k);
    if metin_esit(ks.as_str(), INTERNAL_DOMAIN) {
        return true;
    }
    let mut son = karakterler(".");
    ekle(&mut son, &karakterler(INTERNAL_DOMAIN));
    let klen = k.len();
    let slen = son.len();
    if klen < slen {
        return false;
    }
    let kuyruk = metin_yap(&parca_al(&k, klen - slen, klen));
    assert(kuyruk@ =~= k@.skip(k@.len() - son@.len()));
    metin_esit(kuyruk.as_str(), metin_yap(&son).as_str())
}

// ── Saving and fetching downloads ───────────────────────────────────────────

/// The largest file the page may hand over for saving: 256 MiB.
pub const EN_BUYUK_KAYIT: usize = 268435456;

/// A file the page handed over (a name, maybe, and base64 content), checked:
/// the content must decode, be non-empty and at most 256 MiB; the name is
/// made safe. The safe name and the bytes.
pub fn kaydetme_denetimi(name: Option<String>, b64: &str) -> (r: Result<(String, Vec<u8>), String>)
    ensures
        match b64_cozulmus(b64@) {
            None => r is Err && r->Err_0@ == "veri çözülemedi"@,
            Some(b) => if b.len() == 0 {
                r is Err && r->Err_0@ == "boş dosya"@
            } else if b.len() > EN_BUYUK_KAYIT {
                r is Err && r->Err_0@ == "dosya çok büyük"@
            } else {
                r is Ok && r->Ok_0.1@ == b && r->Ok_0.0@ == guvenli_ad(match name {
                    Some(n) => n@,
                    None => Seq::<char>::empty(),
                })
            },
        },
{
    let bytes = match decode_base64(b64) {
        Some(b) => b,
        None => return Err("veri çözülemedi".to_owned()),
    };
    if bytes.len() == 0 {
        return Err("boş dosya".to_owned());
    }
    if bytes.len() > EN_BUYUK_KAYIT {
        return Err("dosya çok büyük".to_owned());
    }
    let ad = match &name {
        Some(n) => sanitize_file_name(n.as_str()),
        None => sanitize_file_name(""),
    };
    proof {
        reveal_strlit("");
    }
    Ok((ad, bytes))
}

/// The name taken from an address: its last path segment, percent-decoded
/// and made safe (no segment counts as an empty one).
pub fn url_dosya_adi(son_parca: Option<String>) -> (s: String)
    ensures
        s@ == guvenli_ad(utf8_onarilmis(yuzde_baytlari(encode_utf8(match son_parca {
            Some(p) => p@,
            None => Seq::<char>::empty(),
        })))),
{
    let aday = match son_parca {
        Some(p) => p,
        None => String::new(),
    };
    let cozulmus = percent_decode(aday.as_str());
    sanitize_file_name(cozulmus.as_str())
}

/// Whether `s` is blank (white space only).
pub open spec fn bos_mu(s: Seq<char>) -> bool {
    kirpilmis(s).len() == 0
}

/// The cookies sent with a download: the web view's own, or, when it gave
/// none, what the page read from `document.cookie` if that is not blank.
pub fn cerez_secimi(webview: String, sayfadan: Option<String>) -> (s: String)
    ensures
        s@ == (if webview@.len() == 0 && (sayfadan matches Some(c) && !bos_mu(c@)) {
            sayfadan->0@
        } else {
            webview@
        }),
{
    if webview.as_str().is_empty() {
        if let Some(c) = sayfadan {
            if kirp(&karakterler(c.as_str())).len() > 0 {
                return c;
            }
        }
    }
    webview
}

/// The user agent of a download: the web view's own when the page sent a
/// non-blank one (a Cloudflare clearance is bound to it), else
/// `BogahostNative/{version} (task)`.
pub fn kullanici_ajani(ua: Option<String>, surum: &str) -> (s: String)
    ensures
        s@ == (if ua matches Some(u) && !bos_mu(u@) {
            ua->0@
        } else {
            "BogahostNative/"@ + surum@ + " ("@ + APP_KEY@ + ")"@
        }),
{
    if let Some(u) = ua {
        if kirp(&karakterler(u.as_str())).len() > 0 {
            return u;
        }
    }
    let mut v = karakterler("BogahostNative/");
    ekle(&mut v, &karakterler(surum));
    ekle(&mut v, &karakterler(" ("));
    ekle(&mut v, &karakterler(APP_KEY));
    ekle(&mut v, &karakterler(")"));
    metin_yap(&v)
}

/// The name of a download that the web view started: the name it suggested
/// when that is not blank, else the one from the address; made safe.
pub fn indirme_adi(onerilen: Option<String>, url_adi: String) -> (s: String)
    ensures
        s@ == guvenli_ad(if onerilen matches Some(o) && !bos_mu(o@) {
            onerilen->0@
        } else {
            url_adi@
        }),
{
    let ad = match onerilen {
        Some(o) => {
            if kirp(&karakterler(o.as_str())).len() > 0 {
                o
            } else {
                url_adi
            }
        },
        None => url_adi,
    };
    sanitize_file_name(ad.as_str())
}

/// What becomes of a fetched download.
#[derive(Debug, Clone, PartialEq, Eq)]
pub enum IndirmeKarari {
    /// The answer is an HTML page, not an attachment: let the page navigate.
    Gezin,
    /// Save it under this name.
    Kaydet(String),
}

/// Whether a response of content type `ct` and disposition `cd` is an HTML
/// page rather than a file (case ignored).
pub open spec fn html_sayfasi(ct: Seq<char>, cd: Seq<char>) -> bool {
    let c = ascii_kucuk_metin(ct);
    (icerir(c, "text/html"@) || icerir(c, "xhtml"@)) && !icerir(ascii_kucuk_metin(cd), "attachment"@)
}

/// The name a fetched file is saved under: the disposition's name, else the
/// name the page gave, else the one from the address; made safe, with an
/// extension from the (lower-cased) content type when it has none.
pub open spec fn kayit_adi(ct: Seq<char>, cd: Seq<char>, ad: Option<Seq<char>>, url_adi: Seq<char>) -> Seq<char> {
    let taban = match yildizli_ad(cd) {
        Some(x) => x,
        None => match duz_ad(cd) {
            Some(x) => x,
            None => match ad {
                Some(a) => a,
                None => url_adi,
            },
        },
    };
    let g = guvenli_ad(taban);
    if g.contains('.') {
        g
    } else {
        g + ture_gore_uzanti(ascii_kucuk_metin(ct))
    }
}

/// The decision on a fetched download, from its status code, content type,
/// disposition, whether the caller allows navigating, the name the page gave
/// and the name from the address: a status outside 2xx is `status:{code}`.
pub fn indirme_karari(durum: u16, ct: &str, cd: &str, gezinme_izni: bool, ad: Option<String>, url_adi: String) -> (r: Result<IndirmeKarari, String>)
    ensures
        !(200 <= durum <= 299) ==> r is Err && r->Err_0@ == "status:"@ + dogal_ondalik(durum as nat),
        200 <= durum <= 299 && html_sayfasi(ct@, cd@) && gezinme_izni ==> r == Ok::<IndirmeKarari, String>(IndirmeKarari::Gezin),
        200 <= durum <= 299 && !(html_sayfasi(ct@, cd@) && gezinme_izni) ==> (r matches Ok(IndirmeKarari::Kaydet(n))
            && n@ == kayit_adi(ct@, cd@, match ad {
                Some(a) => Some(a@),
                None => None,
            }, url_adi@)),
{
    if !(200 <= durum && durum <= 299) {
        let mut v = karakterler("status:");
        ekle(&mut v, &u64_ondalik(durum as u64));
        return Err(metin_yap(&v));
    }
    let c = ascii_kucuk_al(&karakterler(ct));
    let d = ascii_kucuk_al(&karakterler(cd));
    let html = (iceriyor(&c, "text/html") || iceriyor(&c, "xhtml")) && !iceriyor(&d, "attachment");
    if html && gezinme_izni {
        return Ok(IndirmeKarari::Gezin);
    }
    let taban = match disposition_filename(cd) {
        Some(x) => x,
        None => match ad {
            Some(a) => a,
            None => url_adi,
        },
    };
    let ct_kucuk = metin_yap(&c);
    Ok(IndirmeKarari::Kaydet(ensure_extension(sanitize_file_name(taban.as_str()), ct_kucuk.as_str())))
}

// ── Names of new files ──────────────────────────────────────────────────────

/// What `Path::file_stem` gives for a file name, as text.
pub uninterp spec fn dosya_koku(ad: Seq<char>) -> Option<Seq<char>>;

/// What `Path::extension` gives for a file name, as text.
pub uninterp spec fn dosya_uzantisi(ad: Seq<char>) -> Option<Seq<char>>;

/// `Path::new(ad).file_stem()` as text. Claims that the result is named by
/// `dosya_koku`.
#[verifier::external_body]
fn koku_al(ad: &str) -> (r: Option<String>)
    ensures
        match r {
            Some(k) => dosya_koku(ad@) == Some(k@),
            None => dosya_koku(ad@) is None,
        },
{
    std::path::Path::new(ad).file_stem().and_then(|s| s.to_str()).map(str::to_owned)
}

/// `Path::new(ad).extension()` as text. Claims that the result is named by
/// `dosya_uzantisi`.
#[verifier::external_body]
fn uzanti_al(ad: &str) -> (r: Option<String>)
    ensures
        match r {
            Some(k) => dosya_uzantisi(ad@) == Some(k@),
            None => dosya_uzantisi(ad@) is None,
        },
{
    std::path::Path::new(ad).extension().and_then(|s| s.to_str()).map(str::to_owned)
}

/// A file name split for numbering: its stem (the fallback name when it has
/// none) and its extension with the dot (empty when it has none).
pub fn dosya_adi_bol(ad: &str) -> (r: (String, String))
    ensures
        r.0@ == match dosya_koku(ad@) {
            Some(k) => k,
            None => varsayilan_ad(),
        },
        r.1@ == match dosya_uzantisi(ad@) {
            Some(e) => "."@ + e,
            None => Seq::empty(),
        },
{
    let kok = match koku_al(ad) {
        Some(k) => k,
        None => "indirilen-dosya".to_owned(),
    };
    let uzanti = match uzanti_al(ad) {
        Some(e) => {
            let mut v = karakterler(".");
            ekle(&mut v, &karakterler(e.as_str()));
            metin_yap(&v)
        },
        None => String::new(),
    };
    (kok, uzanti)
}

/// The name tried for a new file: `stem.ext`, then `stem-1.ext`, `stem-2.ext`…
pub fn aday_adi(kok: &str, uzanti: &str, sayac: u32) -> (s: String)
    ensures
        sayac == 0 ==> s@ == kok@ + uzanti@,
        sayac > 0 ==> s@ == kok@ + "-"@ + crate::metin::ondalik(sayac as int) + uzanti@,
{
    let mut v = karakterler(kok);
    if sayac > 0 {
        ekle(&mut v, &karakterler("-"));
        ekle(&mut v, &crate::metin::i64_ondalik(sayac as i64));
    }
    ekle(&mut v, &karakterler(uzanti));
    metin_yap(&v)
}

/// A saved name without a dot gets the extension that its content type
/// calls for, by the first kind the type names in this order: PDF, CSV,
/// spreadsheet or Excel, ZIP, JSON, PNG, JPEG; none for any other type. A
/// name with a dot keeps it.
pub proof fn uzanti_ture_gore(ad: Seq<char>, ct: Seq<char>)
    ensures
        icerir(ct, "pdf"@) ==> ture_gore_uzanti(ct) == ".pdf"@,
        !icerir(ct, "pdf"@) && icerir(ct, "csv"@) ==> ture_gore_uzanti(ct) == ".csv"@,
        !icerir(ct, "pdf"@) && !icerir(ct, "csv"@) && (icerir(ct, "spreadsheet"@) || icerir(ct, "excel"@))
            ==> ture_gore_uzanti(ct) == ".xlsx"@,
        !icerir(ct, "pdf"@) && !icerir(ct, "csv"@) && !icerir(ct, "spreadsheet"@) && !icerir(ct, "excel"@)
            && icerir(ct, "zip"@) ==> ture_gore_uzanti(ct) == ".zip"@,
        !icerir(ct, "pdf"@) && !icerir(ct, "csv"@) && !icerir(ct, "spreadsheet"@) && !icerir(ct, "excel"@)
            && !icerir(ct, "zip"@) && icerir(ct, "json"@) ==> ture_gore_uzanti(ct) == ".json"@,
        !icerir(ct, "pdf"@) && !icerir(ct, "csv"@) && !icerir(ct, "spreadsheet"@) && !icerir(ct, "excel"@)
            && !icerir(ct, "zip"@) && !icerir(ct, "json"@) && icerir(ct, "png"@) ==> ture_gore_uzanti(ct) == ".png"@,
        !icerir(ct, "pdf"@) && !icerir(ct, "csv"@) && !icerir(ct, "spreadsheet"@) && !icerir(ct, "excel"@)
            && !icerir(ct, "zip"@) && !icerir(ct, "json"@) && !icerir(ct, "png"@) && icerir(ct, "jpeg"@)
            ==> ture_gore_uzanti(ct) == ".jpg"@,
        !icerir(ct, "pdf"@) && !icerir(ct, "csv"@) && !icerir(ct, "spreadsheet"@) && !icerir(ct, "excel"@)
            && !icerir(ct, "zip"@) && !icerir(ct, "json"@) && !icerir(ct, "png"@) && !icerir(ct, "jpeg"@)
            ==> ture_gore_uzanti(ct).len() == 0,
        !ad.contains('.') && icerir(ct, "zip"@) && !icerir(ct, "pdf"@) && !icerir(ct, "csv"@)
            && !icerir(ct, "spreadsheet"@) && !icerir(ct, "excel"@) ==> (if ad.contains('.') {
            ad
        } else {
            ad + ture_gore_uzanti(ct)
        }) == ad + ".zip"@,
{
}

} // verus!

//! The zero-knowledge core of the vault: key derivation, authenticated
//! encryption into `bh1.` envelopes, sealing to a public key, and the
//! context labels (AAD) that bind each ciphertext to its place.

use vstd::prelude::*;
use vstd::utf8::encode_utf8;
use crate::metin::{karakterler, metin_yap, ekle, i64_ondalik, ondalik, ondalik_birebir,
    ayrac_ile_esit, onekle_baslar, ilk_konum, ilk_konum_bul, ilk_konum_belirle, parca_al};
use argon2::{Algorithm, Argon2, Params, Version};
use base64::engine::general_purpose::STANDARD;
use base64::Engine;
use chacha20poly1305::aead::{Aead, KeyInit, Payload};
use chacha20poly1305::{XChaCha20Poly1305, XNonce};
use hkdf::Hkdf;
use rand_core::{OsRng, RngCore};
use sha2::Sha256;
use x25519_dalek::{PublicKey, StaticSecret};
use zeroize::Zeroize;

verus! {

/// Envelope format version.
pub const SURUM: u8 = 1;

/// Key length in bytes.
pub const ANAHTAR_BOYU: usize = 32;

/// XChaCha20-Poly1305 nonce length in bytes.
pub const NONCE_BOYU: usize = 24;

/// Poly1305 authentication tag length in bytes.
pub const ETIKET_BOYU: usize = 16;

/// The characters that stand before every envelope this module writes: `bh1.`.
pub open spec fn onek() -> Seq<char> {
    seq!['b', 'h', '1', '.']
}

fn onek_karakterleri() -> (v: Vec<char>)
    ensures
        v@ == onek(),
{
    let mut v = Vec::new();
    v.push('b');
    v.push('h');
    v.push('1');
    v.push('.');
    assert(v@ =~= onek());
    v
}

/// The version label `v1`.
pub open spec fn surum_etiketi() -> Seq<char> {
    seq!['v'] + ondalik(SURUM as int)
}

/// AAD of one field of one item: `v1|u{user}|k{vault}|i{item}|{field}`.
pub open spec fn aad_kayit_metni(kullanici: int, kasa: int, kayit: int, alan: Seq<char>) -> Seq<char> {
    surum_etiketi() + seq!['|', 'u'] + ondalik(kullanici) + seq!['|', 'k'] + ondalik(kasa)
        + seq!['|', 'i'] + ondalik(kayit) + seq!['|'] + alan
}

/// AAD of a vault key sealed to a member: `v1|kasa{vault}|uye{member}`.
pub open spec fn aad_kasa_anahtari_metni(kasa: int, uye: int) -> Seq<char> {
    surum_etiketi() + seq!['|', 'k', 'a', 's', 'a'] + ondalik(kasa) + seq!['|', 'u', 'y', 'e']
        + ondalik(uye)
}

/// AAD of a user's private key: `v1|ozel|u{user}`.
pub open spec fn aad_ozel_anahtar_metni(kullanici: int) -> Seq<char> {
    surum_etiketi() + seq!['|', 'o', 'z', 'e', 'l', '|', 'u'] + ondalik(kullanici)
}

fn surum_karakterleri() -> (v: Vec<char>)
    ensures
        v@ == surum_etiketi(),
{
    let mut v = Vec::new();
    v.push('v');
    let d = i64_ondalik(SURUM as i64);
    ekle(&mut v, &d);
    assert(v@ =~= surum_etiketi());
    v
}

/// The AAD that binds one field of one item to its user, vault and item.
pub fn aad_kayit(kullanici: i64, kasa: i64, kayit: i64, alan: &str) -> (s: String)
    ensures
        s@ == aad_kayit_metni(kullanici as int, kasa as int, kayit as int, alan@),
{
    let mut v = surum_karakterleri();
    v.push('|');
    v.push('u');
    ekle(&mut v, &i64_ondalik(kullanici));
    v.push('|');
    v.push('k');
    ekle(&mut v, &i64_ondalik(kasa));
    v.push('|');
    v.push('i');
    ekle(&mut v, &i64_ondalik(kayit));
    v.push('|');
    ekle(&mut v, &karakterler(alan));
    assert(v@ =~= aad_kayit_metni(kullanici as int, kasa as int, kayit as int, alan@));
    metin_yap(&v)
}

/// The AAD of a vault key sealed to one member.
pub fn aad_kasa_anahtari(kasa: i64, uye: i64) -> (s: String)
    ensures
        s@ == aad_kasa_anahtari_metni(kasa as int, uye as int),
{
    let mut v = surum_karakterleri();
    v.push('|');
    v.push('k');
    v.push('a');
    v.push('s');
    v.push('a');
    ekle(&mut v, &i64_ondalik(kasa));
    v.push('|');
    v.push('u');
    v.push('y');
    v.push('e');
    ekle(&mut v, &i64_ondalik(uye));
    assert(v@ =~= aad_kasa_anahtari_metni(kasa as int, uye as int));
    metin_yap(&v)
}

/// The AAD of a user's private key.
pub fn aad_ozel_anahtar(kullanici: i64) -> (s: String)
    ensures
        s@ == aad_ozel_anahtar_metni(kullanici as int),
{
    let mut v = surum_karakterleri();
    v.push('|');
    v.push('o');
    v.push('z');
    v.push('e');
    v.push('l');
    v.push('|');
    v.push('u');
    ekle(&mut v, &i64_ondalik(kullanici));
    assert(v@ =~= aad_ozel_anahtar_metni(kullanici as int));
    metin_yap(&v)
}

/// Whether an envelope was written by this module (it starts with `bh1.`).
pub fn bizim_mi(zarf: &str) -> (b: bool)
    ensures
        b == (zarf@.len() >= 4 && zarf@.take(4) == onek()),
{
    let z = karakterler(zarf);
    let o = onek_karakterleri();
    onekle_baslar(&z, &o)
}

proof fn ondalik_ayracsiz(n: int, x: char)
    requires
        x != '-',
        !('0' <= x && x <= '9'),
    ensures
        forall|k: int| 0 <= k < ondalik(n).len() ==> ondalik(n)[k] != x,
{
    ondalik_birebir(n, n);
}

/// After equal prefixes, a number, `|` and a rest are recovered.
proof fn ondalik_ayir(p1: Seq<char>, n1: int, r1: Seq<char>, p2: Seq<char>, n2: int, r2: Seq<char>)
    requires
        p1 == p2,
        p1 + ondalik(n1) + seq!['|'] + r1 == p2 + ondalik(n2) + seq!['|'] + r2,
    ensures
        n1 == n2,
        r1 == r2,
{
    let s1 = p1 + ondalik(n1) + seq!['|'] + r1;
    let s2 = p2 + ondalik(n2) + seq!['|'] + r2;
    assert(s1.skip(p1.len() as int) =~= ondalik(n1) + seq!['|'] + r1);
    assert(s2.skip(p2.len() as int) =~= ondalik(n2) + seq!['|'] + r2);
    ondalik_ayracsiz(n1, '|');
    ondalik_ayracsiz(n2, '|');
    ayrac_ile_esit(ondalik(n1), r1, ondalik(n2), r2, '|');
    ondalik_birebir(n1, n2);
}

/// Different items, vaults, users or fields never share an AAD: a field's
/// ciphertext moved to another place no longer matches its context.
pub proof fn aad_kayit_ayirt_eder(
    u1: int, k1: int, i1: int, a1: Seq<char>,
    u2: int, k2: int, i2: int, a2: Seq<char>,
)
    requires
        aad_kayit_metni(u1, k1, i1, a1) == aad_kayit_metni(u2, k2, i2, a2),
    ensures
        u1 == u2,
        k1 == k2,
        i1 == i2,
        a1 == a2,
{
    let p = surum_etiketi() + seq!['|', 'u'];
    let s1 = seq!['i'] + ondalik(i1) + seq!['|'] + a1;
    let s2 = seq!['i'] + ondalik(i2) + seq!['|'] + a2;
    let r1 = seq!['k'] + ondalik(k1) + seq!['|'] + s1;
    let r2 = seq!['k'] + ondalik(k2) + seq!['|'] + s2;
    assert(aad_kayit_metni(u1, k1, i1, a1) =~= p + ondalik(u1) + seq!['|'] + r1);
    assert(aad_kayit_metni(u2, k2, i2, a2) =~= p + ondalik(u2) + seq!['|'] + r2);
    ondalik_ayir(p, u1, r1, p, u2, r2);
    ondalik_ayir(seq!['k'], k1, s1, seq!['k'], k2, s2);
    ondalik_ayir(seq!['i'], i1, a1, seq!['i'], i2, a2);
}

/// Distinct (vault, member) pairs never share the AAD of a sealed vault key.
pub proof fn aad_kasa_anahtari_ayirt_eder(k1: int, u1: int, k2: int, u2: int)
    requires
        aad_kasa_anahtari_metni(k1, u1) == aad_kasa_anahtari_metni(k2, u2),
    ensures
        k1 == k2,
        u1 == u2,
{
    let p = surum_etiketi() + seq!['|', 'k', 'a', 's', 'a'];
    let r1 = seq!['u', 'y', 'e'] + ondalik(u1);
    let r2 = seq!['u', 'y', 'e'] + ondalik(u2);
    assert(aad_kasa_anahtari_metni(k1, u1) =~= p + (ondalik(k1) + seq!['|'] + r1));
    assert(aad_kasa_anahtari_metni(k2, u2) =~= p + (ondalik(k2) + seq!['|'] + r2));
    assert((p + (ondalik(k1) + seq!['|'] + r1)).skip(p.len() as int) =~= ondalik(k1) + seq!['|'] + r1);
    assert((p + (ondalik(k2) + seq!['|'] + r2)).skip(p.len() as int) =~= ondalik(k2) + seq!['|'] + r2);
    ondalik_ayracsiz(k1, '|');
    ondalik_ayracsiz(k2, '|');
    ayrac_ile_esit(ondalik(k1), r1, ondalik(k2), r2, '|');
    ondalik_birebir(k1, k2);
    assert(r1.skip(3) =~= ondalik(u1));
    assert(r2.skip(3) =~= ondalik(u2));
    ondalik_birebir(u1, u2);
}

/// Distinct users never share the AAD of a private key.
pub proof fn aad_ozel_anahtar_ayirt_eder(u1: int, u2: int)
    requires
        aad_ozel_anahtar_metni(u1) == aad_ozel_anahtar_metni(u2),
    ensures
        u1 == u2,
{
    let p = surum_etiketi() + seq!['|', 'o', 'z', 'e', 'l', '|', 'u'];
    assert(aad_ozel_anahtar_metni(u1).skip(p.len() as int) =~= ondalik(u1));
    assert(aad_ozel_anahtar_metni(u2).skip(p.len() as int) =~= ondalik(u2));
    ondalik_birebir(u1, u2);
}

// ── Names for what the outside primitives compute ─────────────────────────

/// Standard base64 (with padding) of `veri`, as the `base64` crate writes it.
pub uninterp spec fn b64_metni(veri: Seq<u8>) -> Seq<char>;

/// What the `base64` crate's standard engine decodes `metin` to, if it accepts it.
pub uninterp spec fn b64_cozumu(metin: Seq<char>) -> Option<Seq<u8>>;

/// XChaCha20-Poly1305 ciphertext (with its 16-byte tag) of `duz`.
pub uninterp spec fn xchacha_sifreli(anahtar: Seq<u8>, nonce: Seq<u8>, duz: Seq<u8>, aad: Seq<u8>) -> Seq<u8>;

/// XChaCha20-Poly1305 decryption of `sifreli`; `None` when authentication fails.
pub uninterp spec fn xchacha_acik(anahtar: Seq<u8>, nonce: Seq<u8>, sifreli: Seq<u8>, aad: Seq<u8>) -> Option<Seq<u8>>;

/// Argon2id (version 0x13) output of 32 bytes.
pub uninterp spec fn argon2id(parola: Seq<u8>, tuz: Seq<u8>, bellek: u32, tur: u32, paralel: u32) -> Seq<u8>;

/// The X25519 public key of a secret key.
pub uninterp spec fn x25519_acik(ozel: Seq<u8>) -> Seq<u8>;

/// The X25519 shared secret of a secret key and a public key.
pub uninterp spec fn x25519_ortak(ozel: Seq<u8>, acik: Seq<u8>) -> Seq<u8>;

/// HKDF-SHA256 (extract with `tuz`, expand with `bilgi`) to 32 bytes.
pub uninterp spec fn hkdf_sha256(tuz: Seq<u8>, ikm: Seq<u8>, bilgi: Seq<u8>) -> Seq<u8>;

/// A character of the standard base64 alphabet, padding included.
pub open spec fn b64_karakteri(c: char) -> bool {
    ('A' <= c && c <= 'Z') || ('a' <= c && c <= 'z') || ('0' <= c && c <= '9') || c == '+'
        || c == '/' || c == '='
}

/// Why one of the cipher calls refused.
pub enum SifreHata {
    /// The key is not 32 bytes.
    AnahtarBoyu,
    /// Encryption refused the input, or decryption failed to authenticate.
    Islem,
}

/// Why key derivation refused.
pub enum Argon2Hata {
    /// `Params::new` refused the cost parameters; the crate's message.
    Param(String),
    /// `hash_password_into` refused the inputs; the crate's message.
    Turetme(String),
}

/// The cost parameters that `argon2::Params::new` accepts (with a 32-byte output).
pub open spec fn argon2_param_gecerli(bellek: u32, tur: u32, paralel: u32) -> bool {
    &&& bellek >= 8
    &&& bellek >= paralel * 8
    &&& tur >= 1
    &&& 1 <= paralel <= 0xFF_FFFF
}

/// Why `argon2::Params::new` refuses the cost parameters, as its error
/// prints: the first check that fails, in the crate's order.
pub open spec fn argon2_param_hatasi(bellek: u32, tur: u32, paralel: u32) -> Option<Seq<char>> {
    if bellek < 8 || bellek < paralel * 8 {
        Some("memory cost is too small"@)
    } else if tur < 1 {
        Some("time cost is too small"@)
    } else if paralel < 1 {
        Some("not enough threads"@)
    } else if paralel > 0xFF_FFFF {
        Some("too many threads"@)
    } else {
        None
    }
}

/// Why `Argon2::hash_password_into` refuses a password and salt of these
/// lengths (with a 32-byte output), as its error prints.
pub open spec fn argon2_girdi_hatasi(parola: nat, tuz: nat) -> Option<Seq<char>> {
    if parola > u32::MAX {
        Some("password is too long"@)
    } else if tuz < 8 {
        Some("salt is too short"@)
    } else if tuz > u32::MAX {
        Some("salt is too long"@)
    } else {
        None
    }
}

// ── Trusted items ──────────────────────────────────────────────────────────

/// `base64`'s standard engine `encode`. Claims: the text is named by
/// `b64_metni`, uses only the standard alphabet, and decodes back to the input.
#[verifier::external_body]
pub(crate) fn b64_kodla(veri: &[u8]) -> (m: String)
    ensures
        m@ == b64_metni(veri@),
        b64_cozumu(m@) == Some(veri@),
        forall|k: int| 0 <= k < m@.len() ==> b64_karakteri(#[trigger] m@[k]),
{
    STANDARD.encode(veri)
}

/// `base64`'s standard engine `decode`. Claims: the result is named by `b64_cozumu`.
#[verifier::external_body]
pub(crate) fn b64_coz(metin: &str) -> (r: Option<Vec<u8>>)
    ensures
        match r {
            Some(v) => b64_cozumu(metin@) == Some(v@),
            None => b64_cozumu(metin@) is None,
        },
{
    STANDARD.decode(metin).ok()
}

/// `XChaCha20Poly1305::new_from_slice` then `encrypt`. Claims: a key of other
/// than 32 bytes is refused; a message under 64·(2³²−1) bytes is encrypted to
/// `xchacha_sifreli`, which is the message's length plus the 16-byte tag and
/// decrypts back to the message; a longer one is refused.
#[verifier::external_body]
fn xchacha_sifrele(anahtar: &[u8], nonce: &[u8], duz: &[u8], aad: &[u8]) -> (r: Result<Vec<u8>, SifreHata>)
    requires
        nonce@.len() == NONCE_BOYU,
    ensures
        anahtar@.len() != ANAHTAR_BOYU ==> r is Err && r->Err_0 == SifreHata::AnahtarBoyu,
        anahtar@.len() == ANAHTAR_BOYU && duz@.len() / 64 >= u32::MAX ==> r is Err && r->Err_0
            == SifreHata::Islem,
        anahtar@.len() == ANAHTAR_BOYU && duz@.len() / 64 < u32::MAX ==> r is Ok,
        r matches Ok(c) ==> c@.len() == duz@.len() + ETIKET_BOYU,
        r matches Ok(c) ==> c@ == xchacha_sifreli(anahtar@, nonce@, duz@, aad@) && xchacha_acik(
            anahtar@,
            nonce@,
            c@,
            aad@,
        ) == Some(duz@),
{
    let c = XChaCha20Poly1305::new_from_slice(anahtar).map_err(|_| SifreHata::AnahtarBoyu)?;
    c.encrypt(XNonce::from_slice(nonce), Payload { msg: duz, aad }).map_err(|_| SifreHata::Islem)
}

/// `XChaCha20Poly1305::new_from_slice` then `decrypt`. Claims: a key of other
/// than 32 bytes is refused; otherwise the result is `xchacha_acik`.
#[verifier::external_body]
fn xchacha_coz(anahtar: &[u8], nonce: &[u8], sifreli: &[u8], aad: &[u8]) -> (r: Result<Vec<u8>, SifreHata>)
    requires
        nonce@.len() == NONCE_BOYU,
    ensures
        anahtar@.len() != ANAHTAR_BOYU ==> r is Err && r->Err_0 == SifreHata::AnahtarBoyu,
        anahtar@.len() == ANAHTAR_BOYU ==> match r {
            Ok(p) => xchacha_acik(anahtar@, nonce@, sifreli@, aad@) == Some(p@),
            Err(e) => e == SifreHata::Islem && xchacha_acik(anahtar@, nonce@, sifreli@, aad@) is None,
        },
{
    let c = XChaCha20Poly1305::new_from_slice(anahtar).map_err(|_| SifreHata::AnahtarBoyu)?;
    c.decrypt(XNonce::from_slice(nonce), Payload { msg: sifreli, aad }).map_err(|_| SifreHata::Islem)
}

/// `argon2::Params::new` then `Argon2::hash_password_into` (Argon2id, v0x13,
/// 32-byte output). Claims: the parameters are refused with the crate's
/// message exactly when `argon2_param_hatasi` names one; then the inputs are
/// refused with the crate's message exactly when `argon2_girdi_hatasi` names
/// one (salt under 8 or over 2³²−1 bytes, password over 2³²−1 bytes);
/// otherwise the key is `argon2id`.
#[verifier::external_body]
fn argon2_turet(parola: &[u8], tuz: &[u8], bellek: u32, tur: u32, paralel: u32) -> (r: Result<[u8; 32], Argon2Hata>)
    requires
        bellek < 8 || paralel * 8 <= u32::MAX,
    ensures
        match r {
            Ok(k) => argon2_param_hatasi(bellek, tur, paralel) is None
                && argon2_girdi_hatasi(parola@.len(), tuz@.len()) is None
                && k@ == argon2id(parola@, tuz@, bellek, tur, paralel),
            Err(Argon2Hata::Param(e)) => argon2_param_hatasi(bellek, tur, paralel) == Some(e@),
            Err(Argon2Hata::Turetme(e)) => argon2_param_hatasi(bellek, tur, paralel) is None
                && argon2_girdi_hatasi(parola@.len(), tuz@.len()) == Some(e@),
        },
{
    let p = Params::new(bellek, tur, paralel, Some(32)).map_err(|e| Argon2Hata::Param(e.to_string()))?;
    let mut cikti = [0u8; 32];
    Argon2::new(Algorithm::Argon2id, Version::V0x13, p)
        .hash_password_into(parola, tuz, &mut cikti)
        .map_err(|e| Argon2Hata::Turetme(e.to_string()))?;
    Ok(cikti)
}

/// `rand_core::OsRng::try_fill_bytes`: fills the buffer from the operating
/// system, or reports that the system refused. Claims only that the length
/// is kept; the bytes are random.
#[verifier::external_body]
fn os_rastgele(v: &mut Vec<u8>) -> (dolu: bool)
    ensures
        final(v)@.len() == old(v)@.len(),
{
    OsRng.try_fill_bytes(v.as_mut_slice()).is_ok()
}

/// `zeroize::Zeroize::zeroize` on a 32-byte array: every byte becomes 0.
#[verifier::external_body]
pub(crate) fn sifirla(k: &mut [u8; 32])
    ensures
        final(k)@ == Seq::new(32, |i: int| 0u8),
{
    k.zeroize()
}

/// `PublicKey::from(&StaticSecret::from(ozel))`. Claims: the key is named by
/// `x25519_acik`, and Diffie-Hellman agrees — any secret `b` with this public
/// key reaches the same shared secret as `ozel` with `b`'s public key (the
/// agreement that the crate documents for `x25519`).
#[verifier::external_body]
fn x25519_acik_anahtar(ozel: [u8; 32]) -> (a: [u8; 32])
    ensures
        a@ == x25519_acik(ozel@),
        forall|b: Seq<u8>| b.len() == 32 ==> #[trigger] x25519_ortak(b, a@) == x25519_ortak(ozel@, x25519_acik(b)),
{
    PublicKey::from(&StaticSecret::from(ozel)).to_bytes()
}

/// `StaticSecret::from(ozel).diffie_hellman(&PublicKey::from(acik))`, as bytes.
#[verifier::external_body]
fn x25519_ortak_sir(ozel: [u8; 32], acik: [u8; 32]) -> (s: [u8; 32])
    ensures
        s@ == x25519_ortak(ozel@, acik@),
{
    StaticSecret::from(ozel).diffie_hellman(&PublicKey::from(acik)).to_bytes()
}

/// `Hkdf::<Sha256>::new(Some(tuz), ikm).expand(bilgi, 32 bytes)`. Claims: a
/// 32-byte expansion always succeeds (the crate refuses only above 255·32
/// bytes) and is named by `hkdf_sha256`.
#[verifier::external_body]
fn hkdf_genislet(tuz: &[u8; 32], ikm: &[u8; 32], bilgi: &[u8]) -> (r: Option<[u8; 32]>)
    ensures
        r is Some,
        r is Some ==> r->0@ == hkdf_sha256(tuz@, ikm@, bilgi@),
{
    let mut k = [0u8; 32];
    Hkdf::<Sha256>::new(Some(tuz), ikm).expand(bilgi, &mut k).ok().map(|_| k)
}

// ── Key derivation ─────────────────────────────────────────────────────────

/// Argon2id cost parameters, stored with the user so that another device
/// derives the same key.
#[derive(Clone, Copy, Debug, PartialEq, Eq, Structural)]
pub struct KdfParam {
    /// Memory in KiB.
    pub bellek: u32,
    pub tur: u32,
    pub paralel: u32,
}

impl Default for KdfParam {
    /// 64 MiB of memory, 3 passes, 4 lanes.
    fn default() -> (p: Self)
        ensures
            p.bellek == 65536 && p.tur == 3 && p.paralel == 4,
    {
        KdfParam { bellek: 64 * 1024, tur: 3, paralel: 4 }
    }
}

/// A `Result` of bytes or a message, by their views.
pub open spec fn bayt_sonucu<const N: usize>(r: Result<[u8; N], String>) -> Result<Seq<u8>, Seq<char>> {
    match r {
        Ok(k) => Ok(k@),
        Err(e) => Err(e@),
    }
}

/// A `Result` of a byte vector or a message, by their views.
pub open spec fn vek_sonucu(r: Result<Vec<u8>, String>) -> Result<Seq<u8>, Seq<char>> {
    match r {
        Ok(k) => Ok(k@),
        Err(e) => Err(e@),
    }
}

/// A `Result` of a string or a message, by their views.
pub open spec fn metin_sonucu(r: Result<String, String>) -> Result<Seq<char>, Seq<char>> {
    match r {
        Ok(k) => Ok(k@),
        Err(e) => Err(e@),
    }
}

fn hata<T>(mesaj: &str) -> (r: Result<T, String>)
    ensures
        r is Err && r->Err_0@ == mesaj@,
{
    Err(mesaj.to_owned())
}

fn hata_ekli<T>(mesaj: &str, ek: &str) -> (r: Result<T, String>)
    ensures
        r is Err && r->Err_0@ == mesaj@ + ek@,
{
    let mut v = karakterler(mesaj);
    ekle(&mut v, &karakterler(ek));
    Err(metin_yap(&v))
}

/// What deriving the lock key gives for password bytes `parola`, salt `tuz`
/// and parameters `p`: a salt under 16 bytes is refused; then the crate's
/// refusals, each with its reason after the message; otherwise Argon2id's key.
pub open spec fn kilit_sonucu(parola: Seq<u8>, tuz: Seq<u8>, p: KdfParam) -> Result<Seq<u8>, Seq<char>> {
    if tuz.len() < 16 {
        Err("Tuz en az 16 bayt olmalı."@)
    } else {
        match argon2_param_hatasi(p.bellek, p.tur, p.paralel) {
            Some(m) => Err("Argon2 parametreleri geçersiz: "@ + m),
            None => match argon2_girdi_hatasi(parola.len(), tuz.len()) {
                Some(m) => Err("Anahtar türetilemedi: "@ + m),
                None => Ok(argon2id(parola, tuz, p.bellek, p.tur, p.paralel)),
            },
        }
    }
}

/// Master password + salt → lock key. The key never leaves the device.
pub fn kilit_anahtari(ana_parola: &str, tuz: &[u8], p: KdfParam) -> (r: Result<[u8; 32], String>)
    requires
        p.bellek < 8 || p.paralel * 8 <= u32::MAX,
    ensures
        bayt_sonucu(r) == kilit_sonucu(encode_utf8(ana_parola@), tuz@, p),
{
    if tuz.len() < 16 {
        return hata("Tuz en az 16 bayt olmalı.");
    }
    match argon2_turet(ana_parola.as_bytes(), tuz, p.bellek, p.tur, p.paralel) {
        Ok(k) => Ok(k),
        Err(Argon2Hata::Param(e)) => hata_ekli("Argon2 parametreleri geçersiz: ", &e),
        Err(Argon2Hata::Turetme(e)) => hata_ekli("Anahtar türetilemedi: ", &e),
    }
}

/// What every function here says when the operating system refuses to give
/// random bytes.
pub open spec fn rastgele_hatasi() -> Seq<char> {
    "İşletim sistemi rastgeleliği alınamadı."@
}

/// `n` bytes from the operating system's random source; an error if the
/// system refuses them.
pub fn rastgele(n: usize) -> (r: Result<Vec<u8>, String>)
    ensures
        r matches Ok(v) ==> v@.len() == n,
        r matches Err(e) ==> e@ == rastgele_hatasi(),
{
    let mut v: Vec<u8> = Vec::new();
    let mut i: usize = 0;
    while i < n
        invariant
            0 <= i <= n,
            v@.len() == i,
        decreases n - i,
    {
        v.push(0);
        i = i + 1;
    }
    if os_rastgele(&mut v) {
        Ok(v)
    } else {
        Err("İşletim sistemi rastgeleliği alınamadı.".to_owned())
    }
}

/// A fresh random 32-byte key; an error if the system refuses randomness.
pub fn anahtar_uret() -> (r: Result<[u8; 32], String>)
    ensures
        r matches Err(e) ==> e@ == rastgele_hatasi(),
{
    let v = match rastgele(ANAHTAR_BOYU) {
        Ok(v) => v,
        Err(e) => return Err(e),
    };
    let mut k = [0u8; 32];
    let mut i: usize = 0;
    while i < 32
        invariant
            0 <= i <= 32,
            v@.len() == 32,
        decreases 32 - i,
    {
        k[i] = v[i];
        i = i + 1;
    }
    Ok(k)
}

// ── Symmetric envelopes ────────────────────────────────────────────────────

/// The envelope text `bh1.<b64 nonce>.<b64 ciphertext>`.
pub open spec fn zarf_metni(nonce: Seq<u8>, sifreli: Seq<u8>) -> Seq<char> {
    onek() + b64_metni(nonce) + seq!['.'] + b64_metni(sifreli)
}

/// What `coz` gives for key `k`, envelope `z` and AAD bytes `aad`: the checks
/// in their order, each with its message.
pub open spec fn zarf_acilisi(k: Seq<u8>, z: Seq<char>, aad: Seq<u8>) -> Result<Seq<u8>, Seq<char>> {
    if !(z.len() >= 4 && z.take(4) == onek()) {
        Err("Tanınmayan zarf sürümü."@)
    } else {
        let g = z.skip(4);
        match ilk_konum(g, '.') {
            None => Err("Zarf bozuk."@),
            Some(i) => match b64_cozumu(g.take(i)) {
                None => Err("Nonce çözülemedi."@),
                Some(nonce) => if nonce.len() != NONCE_BOYU {
                    Err("Nonce boyu hatalı."@)
                } else {
                    match b64_cozumu(g.skip(i + 1)) {
                        None => Err("Ciphertext çözülemedi."@),
                        Some(ct) => if k.len() != ANAHTAR_BOYU {
                            Err("Anahtar boyu hatalı."@)
                        } else {
                            match xchacha_acik(k, nonce, ct, aad) {
                                Some(p) => Ok(p),
                                None => Err("Çözülemedi: anahtar ya da bağlam uyuşmuyor."@),
                            }
                        },
                    }
                },
            },
        }
    }
}

/// An envelope body splits at the dot that follows the nonce.
proof fn zarf_govdesi_ayrilir(a: Seq<char>, b: Seq<char>)
    requires
        forall|k: int| 0 <= k < a.len() ==> b64_karakteri(#[trigger] a[k]),
    ensures
        ilk_konum(a + seq!['.'] + b, '.') == Some(a.len() as int),
        (a + seq!['.'] + b).take(a.len() as int) == a,
        (a + seq!['.'] + b).skip(a.len() as int + 1) == b,
{
    let s = a + seq!['.'] + b;
    assert forall|j: int| 0 <= j < a.len() implies s[j] != '.' by {
        assert(s[j] == a[j]);
        assert(b64_karakteri(a[j]));
    }
    ilk_konum_belirle(s, '.', a.len() as int);
    assert(s.take(a.len() as int) =~= a);
    assert(s.skip(a.len() as int + 1) =~= b);
}

/// The envelope of `duz` under `anahtar` with the nonce `nonce`, bound to
/// the context `aad`: `bh1.<b64 nonce>.<b64 ciphertext>`. A key of other than
/// 32 bytes and a message past the cipher's limit are refused; otherwise the
/// envelope is built, and it opens back to `duz`.
pub fn zarf_kur(anahtar: &[u8], nonce: &[u8], duz: &[u8], aad: &str) -> (r: Result<String, String>)
    requires
        nonce@.len() == NONCE_BOYU,
    ensures
        anahtar@.len() != ANAHTAR_BOYU ==> metin_sonucu(r) == Err::<Seq<char>, Seq<char>>("Anahtar boyu hatalı."@),
        anahtar@.len() == ANAHTAR_BOYU && duz@.len() / 64 >= u32::MAX ==> metin_sonucu(r) == Err::<Seq<char>, Seq<char>>("Şifreleme başarısız."@),
        anahtar@.len() == ANAHTAR_BOYU && duz@.len() / 64 < u32::MAX ==> r is Ok && r->Ok_0@ == zarf_metni(
            nonce@,
            xchacha_sifreli(anahtar@, nonce@, duz@, encode_utf8(aad@)),
        ),
        anahtar@.len() == ANAHTAR_BOYU && duz@.len() / 64 < u32::MAX ==> xchacha_sifreli(anahtar@, nonce@, duz@, encode_utf8(aad@)).len()
            == duz@.len() + ETIKET_BOYU,
        r matches Ok(z) ==> zarf_acilisi(anahtar@, z@, encode_utf8(aad@)) == Ok::<Seq<u8>, Seq<char>>(duz@),
{
    let aad_b = aad.as_bytes();
    let ct = match xchacha_sifrele(anahtar, nonce, duz, aad_b) {
        Ok(c) => c,
        Err(SifreHata::AnahtarBoyu) => return hata("Anahtar boyu hatalı."),
        Err(SifreHata::Islem) => return hata("Şifreleme başarısız."),
    };
    let n_b64 = b64_kodla(nonce);
    let c_b64 = b64_kodla(ct.as_slice());
    let mut v = onek_karakterleri();
    ekle(&mut v, &karakterler(n_b64.as_str()));
    v.push('.');
    ekle(&mut v, &karakterler(c_b64.as_str()));
    let z = metin_yap(&v);
    proof {
        let g = n_b64@ + seq!['.'] + c_b64@;
        assert(z@ =~= onek() + g);
        assert(z@.take(4) =~= onek());
        assert(z@.skip(4) =~= g);
        zarf_govdesi_ayrilir(n_b64@, c_b64@);
        assert(z@ == zarf_metni(nonce@, xchacha_sifreli(anahtar@, nonce@, duz@, encode_utf8(aad@))));
    }
    Ok(z)
}

/// Encrypts `duz` under `anahtar`, bound to the context `aad`, with a fresh
/// random nonce: `bh1.<b64 nonce>.<b64 ciphertext>`. The key and the length
/// are checked before any random byte is drawn; the nonce drawn, the envelope
/// is `zarf_kur`'s.
pub fn sifrele(anahtar: &[u8], duz: &[u8], aad: &str) -> (r: Result<String, String>)
    ensures
        anahtar@.len() != ANAHTAR_BOYU ==> metin_sonucu(r) == Err::<Seq<char>, Seq<char>>("Anahtar boyu hatalı."@),
        anahtar@.len() == ANAHTAR_BOYU && duz@.len() / 64 >= u32::MAX ==> metin_sonucu(r) == Err::<Seq<char>, Seq<char>>("Şifreleme başarısız."@),
        anahtar@.len() == ANAHTAR_BOYU && duz@.len() / 64 < u32::MAX ==> r is Ok || metin_sonucu(r)
            == Err::<Seq<char>, Seq<char>>(rastgele_hatasi()),
        r matches Ok(z) ==> exists|n: Seq<u8>| n.len() == NONCE_BOYU && z@ == zarf_metni(n, xchacha_sifreli(anahtar@, n, duz@, encode_utf8(aad@)))
            && xchacha_sifreli(anahtar@, n, duz@, encode_utf8(aad@)).len() == duz@.len() + ETIKET_BOYU,
        r matches Ok(z) ==> zarf_acilisi(anahtar@, z@, encode_utf8(aad@)) == Ok::<Seq<u8>, Seq<char>>(duz@),
{
    if anahtar.len() != ANAHTAR_BOYU {
        return hata("Anahtar boyu hatalı.");
    }
    if duz.len() / 64 >= 0xFFFF_FFFF {
        return hata("Şifreleme başarısız.");
    }
    let nonce = match rastgele(NONCE_BOYU) {
        Ok(n) => n,
        Err(e) => return Err(e),
    };
    zarf_kur(anahtar, nonce.as_slice(), duz, aad)
}

/// Decrypts an envelope of `sifrele`. The AAD must be the same, byte for byte.
pub fn coz(anahtar: &[u8], zarf: &str, aad: &str) -> (r: Result<Vec<u8>, String>)
    ensures
        vek_sonucu(r) == zarf_acilisi(anahtar@, zarf@, encode_utf8(aad@)),
{
    let z = karakterler(zarf);
    let o = onek_karakterleri();
    if !onekle_baslar(&z, &o) {
        return hata("Tanınmayan zarf sürümü.");
    }
    let g = parca_al(&z, 4, z.len());
    assert(g@ =~= zarf@.skip(4));
    let i = match ilk_konum_bul(&g, '.') {
        Some(i) => i,
        None => return hata("Zarf bozuk."),
    };
    proof {
        crate::metin::ilk_konum_ozellik(g@, '.');
    }
    let n_metin = metin_yap(&parca_al(&g, 0, i));
    let c_metin = metin_yap(&parca_al(&g, i + 1, g.len()));
    assert(n_metin@ =~= g@.take(i as int));
    assert(c_metin@ =~= g@.skip(i + 1));
    let nonce = match b64_coz(n_metin.as_str()) {
        Some(n) => n,
        None => return hata("Nonce çözülemedi."),
    };
    if nonce.len() != NONCE_BOYU {
        return hata("Nonce boyu hatalı.");
    }
    let ct = match b64_coz(c_metin.as_str()) {
        Some(c) => c,
        None => return hata("Ciphertext çözülemedi."),
    };
    match xchacha_coz(anahtar, nonce.as_slice(), ct.as_slice(), aad.as_bytes()) {
        Ok(p) => Ok(p),
        Err(SifreHata::AnahtarBoyu) => hata("Anahtar boyu hatalı."),
        Err(SifreHata::Islem) => hata("Çözülemedi: anahtar ya da bağlam uyuşmuyor."),
    }
}

// ── Sealing to a public key ────────────────────────────────────────────────

/// The HKDF `info` of sealed envelopes.
pub open spec fn muhur_bilgisi() -> Seq<u8> {
    encode_utf8("bogahost-kasa-muhur-v1"@)
}

/// The sealed envelope `bh1.<b64 ephemeral public>.<b64 nonce>.<b64 ciphertext>`.
pub open spec fn muhur_metni(gecici_acik: Seq<u8>, nonce: Seq<u8>, sifreli: Seq<u8>) -> Seq<char> {
    onek() + b64_metni(gecici_acik) + seq!['.'] + b64_metni(nonce) + seq!['.'] + b64_metni(sifreli)
}

/// What `muhur_ac` gives for secret key `ozel`, sealed envelope `z` and AAD
/// bytes `aad`: the checks in their order, then the inner envelope opened
/// with the key that HKDF derives from the shared secret.
pub open spec fn muhur_acilisi(ozel: Seq<u8>, z: Seq<char>, aad: Seq<u8>) -> Result<Seq<u8>, Seq<char>> {
    if ozel.len() != 32 {
        Err("Özel anahtar 32 bayt olmalı."@)
    } else if !(z.len() >= 4 && z.take(4) == onek()) {
        Err("Tanınmayan zarf sürümü."@)
    } else {
        let g = z.skip(4);
        match ilk_konum(g, '.') {
            None => Err("Mühür bozuk."@),
            Some(i) => match b64_cozumu(g.take(i)) {
                None => Err("Geçici anahtar çözülemedi."@),
                Some(gecici) => if gecici.len() != 32 {
                    Err("Geçici anahtar boyu hatalı."@)
                } else {
                    let anahtar = hkdf_sha256(gecici, x25519_ortak(ozel, gecici), muhur_bilgisi());
                    zarf_acilisi(anahtar, onek() + g.skip(i + 1), aad)
                },
            },
        }
    }
}

fn bilgi_baytlari() -> (b: &'static [u8])
    ensures
        b@ == muhur_bilgisi(),
{
    "bogahost-kasa-muhur-v1".as_bytes()
}

fn dizi32(v: &[u8]) -> (k: [u8; 32])
    requires
        v@.len() == 32,
    ensures
        k@ == v@,
{
    let mut k = [0u8; 32];
    let mut i: usize = 0;
    while i < 32
        invariant
            0 <= i <= 32,
            v@.len() == 32,
            forall|j: int| 0 <= j < i ==> k@[j] == v@[j],
        decreases 32 - i,
    {
        k[i] = v[i];
        i = i + 1;
    }
    assert(k@ =~= v@);
    k
}

/// The sealed envelope of `veri` to the recipient's public key `alici`, with
/// the ephemeral secret `gecici` and the nonce `nonce`: the ephemeral key
/// meets the recipient's, HKDF turns the shared secret into the encryption
/// key, and the ephemeral public key travels in the envelope. A message past
/// the cipher's limit is refused; otherwise the envelope is built, and the
/// recipient's private key opens it back to `veri`.
pub fn muhur_kur(alici: [u8; 32], gecici: [u8; 32], nonce: &[u8], veri: &[u8], aad: &str) -> (r: Result<String, String>)
    requires
        nonce@.len() == NONCE_BOYU,
    ensures
        veri@.len() / 64 >= u32::MAX ==> metin_sonucu(r) == Err::<Seq<char>, Seq<char>>("Şifreleme başarısız."@),
        veri@.len() / 64 < u32::MAX ==> r is Ok && r->Ok_0@ == muhur_metni(
            x25519_acik(gecici@),
            nonce@,
            xchacha_sifreli(
                hkdf_sha256(x25519_acik(gecici@), x25519_ortak(gecici@, alici@), muhur_bilgisi()),
                nonce@,
                veri@,
                encode_utf8(aad@),
            ),
        ),
        r matches Ok(z) ==> forall|ozel: Seq<u8>| ozel.len() == 32 && alici@ == x25519_acik(ozel)
            ==> #[trigger] muhur_acilisi(ozel, z@, encode_utf8(aad@)) == Ok::<Seq<u8>, Seq<char>>(veri@),
{
    let gecici_acik = x25519_acik_anahtar(gecici);
    let mut ortak = x25519_ortak_sir(gecici, alici);
    let mut anahtar = match hkdf_genislet(&gecici_acik, &ortak, bilgi_baytlari()) {
        Some(k) => k,
        None => return hata("HKDF başarısız."),
    };
    let ghost anahtar_g = anahtar@;
    sifirla(&mut ortak);
    let ic = zarf_kur(anahtar.as_slice(), nonce, veri, aad);
    sifirla(&mut anahtar);
    let ic = match ic {
        Ok(z) => z,
        Err(e) => return Err(e),
    };
    let ic_k = karakterler(ic.as_str());
    let o = onek_karakterleri();
    let govde = if onekle_baslar(&ic_k, &o) {
        parca_al(&ic_k, 4, ic_k.len())
    } else {
        ic_k
    };
    let g_b64 = b64_kodla(gecici_acik.as_slice());
    let mut v = onek_karakterleri();
    ekle(&mut v, &karakterler(g_b64.as_str()));
    v.push('.');
    ekle(&mut v, &govde);
    let z = metin_yap(&v);
    proof {
        let n = nonce@;
        let ct = xchacha_sifreli(anahtar_g, n, veri@, encode_utf8(aad@));
        let kalan = b64_metni(n) + seq!['.'] + b64_metni(ct);
        assert(ic@ =~= onek() + kalan);
        assert(ic@.take(4) =~= onek());
        assert(govde@ =~= kalan);
        assert(z@ =~= onek() + (g_b64@ + seq!['.'] + kalan));
        assert(z@ =~= muhur_metni(gecici_acik@, n, ct));
        assert forall|ozel: Seq<u8>| ozel.len() == 32 && alici@ == x25519_acik(ozel) implies
            #[trigger] muhur_acilisi(ozel, z@, encode_utf8(aad@)) == Ok::<Seq<u8>, Seq<char>>(veri@) by {
            let g = z@.skip(4);
            assert(z@.take(4) =~= onek());
            assert(g =~= g_b64@ + seq!['.'] + kalan);
            zarf_govdesi_ayrilir(g_b64@, kalan);
            assert(x25519_ortak(ozel, gecici_acik@) == x25519_ortak(gecici@, x25519_acik(ozel)));
            assert(onek() + g.skip(g_b64@.len() as int + 1) =~= ic@);
        }
    }
    Ok(z)
}

/// Seals `veri` (a vault key) to the recipient's PUBLIC key: a fresh
/// ephemeral secret and nonce are drawn, then the envelope is `muhur_kur`'s.
/// The key and the length are checked before any random byte is drawn.
pub fn muhurle(alici_acik: &[u8], veri: &[u8], aad: &str) -> (r: Result<String, String>)
    ensures
        alici_acik@.len() != 32 ==> metin_sonucu(r) == Err::<Seq<char>, Seq<char>>("Açık anahtar 32 bayt olmalı."@),
        alici_acik@.len() == 32 && veri@.len() / 64 >= u32::MAX ==> metin_sonucu(r) == Err::<Seq<char>, Seq<char>>("Şifreleme başarısız."@),
        alici_acik@.len() == 32 && veri@.len() / 64 < u32::MAX ==> r is Ok || metin_sonucu(r)
            == Err::<Seq<char>, Seq<char>>(rastgele_hatasi()),
        r matches Ok(z) ==> exists|e: Seq<u8>, n: Seq<u8>| e.len() == 32 && n.len() == NONCE_BOYU
            && z@ == muhur_metni(x25519_acik(e), n, xchacha_sifreli(
                hkdf_sha256(x25519_acik(e), x25519_ortak(e, alici_acik@), muhur_bilgisi()), n, veri@,
                encode_utf8(aad@))),
        r matches Ok(z) ==> forall|ozel: Seq<u8>| ozel.len() == 32 && alici_acik@ == x25519_acik(ozel)
            ==> #[trigger] muhur_acilisi(ozel, z@, encode_utf8(aad@)) == Ok::<Seq<u8>, Seq<char>>(veri@),
{
    if alici_acik.len() != 32 {
        return hata("Açık anahtar 32 bayt olmalı.");
    }
    if veri.len() / 64 >= 0xFFFF_FFFF {
        return hata("Şifreleme başarısız.");
    }
    let gecici = match anahtar_uret() {
        Ok(k) => k,
        Err(e) => return Err(e),
    };
    let nonce = match rastgele(NONCE_BOYU) {
        Ok(n) => n,
        Err(e) => return Err(e),
    };
    let alici = dizi32(alici_acik);
    let r = muhur_kur(alici, gecici, nonce.as_slice(), veri, aad);
    proof {
        if let Ok(z) = &r {
            assert(z@ == muhur_metni(x25519_acik(gecici@), nonce@, xchacha_sifreli(
                hkdf_sha256(x25519_acik(gecici@), x25519_ortak(gecici@, alici_acik@), muhur_bilgisi()), nonce@, veri@,
                encode_utf8(aad@))));
        }
    }
    r
}

/// Opens a sealed envelope with one's own PRIVATE key.
pub fn muhur_ac(ozel: &[u8], zarf: &str, aad: &str) -> (r: Result<Vec<u8>, String>)
    ensures
        vek_sonucu(r) == muhur_acilisi(ozel@, zarf@, encode_utf8(aad@)),
{
    if ozel.len() != 32 {
        return hata("Özel anahtar 32 bayt olmalı.");
    }
    let z = karakterler(zarf);
    let o = onek_karakterleri();
    if !onekle_baslar(&z, &o) {
        return hata("Tanınmayan zarf sürümü.");
    }
    let g = parca_al(&z, 4, z.len());
    assert(g@ =~= zarf@.skip(4));
    let i = match ilk_konum_bul(&g, '.') {
        Some(i) => i,
        None => return hata("Mühür bozuk."),
    };
    proof {
        crate::metin::ilk_konum_ozellik(g@, '.');
    }
    let gecici_metin = metin_yap(&parca_al(&g, 0, i));
    let kalan = parca_al(&g, i + 1, g.len());
    assert(gecici_metin@ =~= g@.take(i as int));
    assert(kalan@ =~= g@.skip(i + 1));
    let gecici_ham = match b64_coz(gecici_metin.as_str()) {
        Some(v) => v,
        None => return hata("Geçici anahtar çözülemedi."),
    };
    if gecici_ham.len() != 32 {
        return hata("Geçici anahtar boyu hatalı.");
    }
    let gecici_acik = dizi32(gecici_ham.as_slice());
    let benim = dizi32(ozel);
    let mut ortak = x25519_ortak_sir(benim, gecici_acik);
    let mut anahtar = match hkdf_genislet(&gecici_acik, &ortak, bilgi_baytlari()) {
        Some(k) => k,
        None => return hata("HKDF başarısız."),
    };
    sifirla(&mut ortak);
    let mut ic = onek_karakterleri();
    ekle(&mut ic, &kalan);
    let ic_metin = metin_yap(&ic);
    let sonuc = coz(anahtar.as_slice(), ic_metin.as_str(), aad);
    sifirla(&mut anahtar);
    sonuc
}

/// The key pair of the X25519 secret `ozel`: (private, public). Any secret
/// that meets the public key reaches the same shared secret as `ozel` with
/// its own public key.
pub fn cift_kur(ozel: [u8; 32]) -> (c: ([u8; 32], [u8; 32]))
    ensures
        c.0 == ozel,
        c.1@ == x25519_acik(ozel@),
        forall|b: Seq<u8>| b.len() == 32 ==> #[trigger] x25519_ortak(b, c.1@) == x25519_ortak(ozel@, x25519_acik(b)),
{
    (ozel, x25519_acik_anahtar(ozel))
}

/// A new user key pair: (private, public). The private key belongs to the
/// caller and must be encrypted with the lock key before it leaves the device.
/// An X25519 secret is 32 random bytes (clamping happens where it is used);
/// the pair is `cift_kur`'s. An error if the system refuses randomness.
pub fn anahtar_cifti() -> (r: Result<([u8; 32], [u8; 32]), String>)
    ensures
        r matches Ok(c) ==> c.1@ == x25519_acik(c.0@),
        r matches Ok(c) ==> forall|b: Seq<u8>| b.len() == 32 ==> #[trigger] x25519_ortak(b, c.1@) == x25519_ortak(c.0@, x25519_acik(b)),
        r matches Err(e) ==> e@ == rastgele_hatasi(),
{
    match anahtar_uret() {
        Ok(ozel) => Ok(cift_kur(ozel)),
        Err(e) => Err(e),
    }
}

} // verus!

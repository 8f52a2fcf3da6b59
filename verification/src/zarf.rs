//! Item envelopes: an item's fields encrypted under a fresh item key, the
//! item key encrypted under the vault key, each bound to its place by its AAD.

use vstd::prelude::*;
use vstd::utf8::{encode_utf8, decode_utf8, valid_utf8};
use crate::kripto::{self, KdfParam, NONCE_BOYU, zarf_metni, xchacha_sifreli, kilit_sonucu, aad_ozel_anahtar,
    aad_ozel_anahtar_metni, aad_kayit, aad_kayit_metni, aad_kasa_anahtari, aad_kasa_anahtari_metni, zarf_acilisi,
    muhur_acilisi, b64_cozumu, x25519_acik, vek_sonucu, bayt_sonucu, metin_sonucu};
use crate::metin::{karakterler, metin_yap, ekle};

verus! {

/// The envelopes of one item, as the server stores them.
#[derive(Debug, Clone, PartialEq, Eq)]
pub struct KayitZarfi {
    pub kayit_anahtar_zarf: String,
    pub parola_zarf: Option<String>,
    pub kullanici_zarf: Option<String>,
    pub ekstra_zarf: Option<String>,
    pub notlar_zarf: Option<String>,
}

/// The plain fields of one item.
#[derive(Debug, Clone, Default, PartialEq, Eq)]
pub struct DuzKayit {
    pub parola: Option<String>,
    pub kullanici: Option<String>,
    pub ekstra: Option<String>,
    pub notlar: Option<String>,
}

/// An optional string, by its characters.
pub open spec fn secenek(o: Option<String>) -> Option<Seq<char>> {
    match o {
        Some(s) => Some(s@),
        None => None,
    }
}

/// The four plain fields, by their characters.
pub struct DuzAlanlar {
    pub parola: Option<Seq<char>>,
    pub kullanici: Option<Seq<char>>,
    pub ekstra: Option<Seq<char>>,
    pub notlar: Option<Seq<char>>,
}

/// The envelopes, by their characters.
pub struct ZarfAlanlari {
    pub kayit_anahtar_zarf: Seq<char>,
    pub parola_zarf: Option<Seq<char>>,
    pub kullanici_zarf: Option<Seq<char>>,
    pub ekstra_zarf: Option<Seq<char>>,
    pub notlar_zarf: Option<Seq<char>>,
}

impl View for DuzKayit {
    type V = DuzAlanlar;

    open spec fn view(&self) -> DuzAlanlar {
        DuzAlanlar {
            parola: secenek(self.parola),
            kullanici: secenek(self.kullanici),
            ekstra: secenek(self.ekstra),
            notlar: secenek(self.notlar),
        }
    }
}

impl View for KayitZarfi {
    type V = ZarfAlanlari;

    open spec fn view(&self) -> ZarfAlanlari {
        ZarfAlanlari {
            kayit_anahtar_zarf: self.kayit_anahtar_zarf@,
            parola_zarf: secenek(self.parola_zarf),
            kullanici_zarf: secenek(self.kullanici_zarf),
            ekstra_zarf: secenek(self.ekstra_zarf),
            notlar_zarf: secenek(self.notlar_zarf),
        }
    }
}

/// A field that `sifrele` leaves without envelope: absent or empty.
pub open spec fn bos_alan(o: Option<Seq<char>>) -> bool {
    o is None || o->0.len() == 0
}

/// A field as it comes back from a round trip: an empty text is absent.
pub open spec fn duzlesmis(o: Option<Seq<char>>) -> Option<Seq<char>> {
    if bos_alan(o) {
        None
    } else {
        o
    }
}

/// The AAD bytes of field `ad` of an item.
pub open spec fn alan_aad(u: int, k: int, i: int, ad: Seq<char>) -> Seq<u8> {
    encode_utf8(aad_kayit_metni(u, k, i, ad))
}

/// What opening one field envelope gives under item key `ik`.
pub open spec fn alan_acilisi(ik: Seq<u8>, z: Option<Seq<char>>, ad: Seq<char>, aad: Seq<u8>) -> Result<Option<Seq<char>>, Seq<char>> {
    match z {
        None => Ok(None),
        Some(s) => match zarf_acilisi(ik, s, aad) {
            Err(e) => Err(ad + " açılamadı: "@ + e),
            Ok(ham) => if valid_utf8(ham) {
                Ok(Some(decode_utf8(ham)))
            } else {
                Err(ad + " geçerli metin değil"@)
            },
        },
    }
}

/// What `coz` gives: the item key first, then the fields in order.
pub open spec fn kayit_acilisi(vk: Seq<u8>, u: int, k: int, i: int, z: ZarfAlanlari) -> Result<DuzAlanlar, Seq<char>> {
    match zarf_acilisi(vk, z.kayit_anahtar_zarf, alan_aad(u, k, i, "ikey"@)) {
        Err(e) => Err("Kayıt anahtarı açılamadı: "@ + e),
        Ok(ik) => match alan_acilisi(ik, z.parola_zarf, "parola"@, alan_aad(u, k, i, "parola"@)) {
            Err(e) => Err(e),
            Ok(p) => match alan_acilisi(ik, z.kullanici_zarf, "kullanici"@, alan_aad(u, k, i, "kullanici"@)) {
                Err(e) => Err(e),
                Ok(ku) => match alan_acilisi(ik, z.ekstra_zarf, "ekstra"@, alan_aad(u, k, i, "ekstra"@)) {
                    Err(e) => Err(e),
                    Ok(ek) => match alan_acilisi(ik, z.notlar_zarf, "notlar"@, alan_aad(u, k, i, "notlar"@)) {
                        Err(e) => Err(e),
                        Ok(n) => Ok(DuzAlanlar { parola: p, kullanici: ku, ekstra: ek, notlar: n }),
                    },
                },
            },
        },
    }
}

/// `String::from_utf8`: the bytes become a string exactly when they are
/// valid UTF-8, and the string holds what they encode.
#[verifier::external_body]
fn utf8_metin(v: Vec<u8>) -> (r: Option<String>)
    ensures
        r is Some <==> valid_utf8(v@),
        r is Some ==> r->0@ == decode_utf8(v@),
{
    String::from_utf8(v).ok()
}

/// The envelope of field `o` under item key `ik` with nonce `n` and AAD
/// `aad`; none for an absent or empty field.
pub open spec fn alan_zarfi(ik: Seq<u8>, n: Seq<u8>, o: Option<Seq<char>>, aad: Seq<u8>) -> Option<Seq<char>> {
    if bos_alan(o) {
        None
    } else {
        Some(zarf_metni(n, xchacha_sifreli(ik, n, encode_utf8(o->0), aad)))
    }
}

/// Encrypts one field under the item key with nonce `nonce`, bound to field
/// `ad` of the item; an absent or empty field gets no envelope.
fn alan_sar(ik: &[u8; 32], nonce: &[u8], deger: &Option<String>, u: i64, k: i64, i: i64, ad: &str) -> (r: Result<Option<String>, String>)
    requires
        nonce@.len() == NONCE_BOYU,
    ensures
        !sarilabilir(secenek(*deger)) ==> r is Err && r->Err_0@ == "Şifreleme başarısız."@,
        sarilabilir(secenek(*deger)) ==> r is Ok && secenek(r->Ok_0) == alan_zarfi(ik@, nonce@, secenek(*deger),
            alan_aad(u as int, k as int, i as int, ad@)),
        r matches Ok(Some(z)) ==> alan_acilisi(ik@, Some(z@), ad@, alan_aad(u as int, k as int, i as int, ad@))
            == Ok::<Option<Seq<char>>, Seq<char>>(Some(deger->0@)),
{
    match deger {
        Some(d) => {
            if d.as_str().is_empty() {
                return Ok(None);
            }
            let aad = aad_kayit(u, k, i, ad);
            match kripto::zarf_kur(ik.as_slice(), nonce, d.as_str().as_bytes(), aad.as_str()) {
                Ok(z) => {
                    proof {
                        vstd::utf8::encode_utf8_valid_utf8(d@);
                        vstd::utf8::encode_utf8_decode_utf8(d@);
                    }
                    Ok(Some(z))
                },
                Err(e) => Err(e),
            }
        },
        None => Ok(None),
    }
}

/// Whether a field of `duz` can be encrypted: absent, empty, or under the
/// cipher's message limit of 64·(2³²−1) bytes.
pub open spec fn sarilabilir(o: Option<Seq<char>>) -> bool {
    bos_alan(o) || encode_utf8(o->0).len() / 64 < u32::MAX
}

fn sarilabilir_mi(o: &Option<String>) -> (b: bool)
    ensures
        b == sarilabilir(secenek(*o)),
{
    match o {
        Some(d) => d.as_str().is_empty() || d.as_str().as_bytes().len() / 64 < 0xFFFF_FFFF,
        None => true,
    }
}

/// Whether every field of `d` can be encrypted.
pub open spec fn hepsi_sarilabilir(d: DuzAlanlar) -> bool {
    sarilabilir(d.parola) && sarilabilir(d.kullanici) && sarilabilir(d.ekstra) && sarilabilir(d.notlar)
}

/// The fields that a round trip through `sifrele` and `coz` gives back.
pub open spec fn donen_alanlar(d: DuzAlanlar) -> DuzAlanlar {
    DuzAlanlar {
        parola: duzlesmis(d.parola),
        kullanici: duzlesmis(d.kullanici),
        ekstra: duzlesmis(d.ekstra),
        notlar: duzlesmis(d.notlar),
    }
}

/// The nonces of one item's envelopes: the item key's, then one per field.
pub struct Nonceler {
    pub ik: Vec<u8>,
    pub parola: Vec<u8>,
    pub kullanici: Vec<u8>,
    pub ekstra: Vec<u8>,
    pub notlar: Vec<u8>,
}

/// Whether every nonce has the cipher's length.
pub open spec fn nonceler_gecerli(n: Nonceler) -> bool {
    &&& n.ik@.len() == NONCE_BOYU
    &&& n.parola@.len() == NONCE_BOYU
    &&& n.kullanici@.len() == NONCE_BOYU
    &&& n.ekstra@.len() == NONCE_BOYU
    &&& n.notlar@.len() == NONCE_BOYU
}

/// The envelopes of item `d` (user `u`, vault `k`, item `i`) under vault key
/// `vk`, with item key `ik` and nonces `n`: the item key sealed under the
/// vault key, and each non-empty field under the item key, each bound to its
/// place by its AAD.
pub open spec fn kurulan_zarflar(vk: Seq<u8>, ik: Seq<u8>, n: Nonceler, u: int, k: int, i: int, d: DuzAlanlar) -> ZarfAlanlari {
    ZarfAlanlari {
        kayit_anahtar_zarf: zarf_metni(n.ik@, xchacha_sifreli(vk, n.ik@, ik, alan_aad(u, k, i, "ikey"@))),
        parola_zarf: alan_zarfi(ik, n.parola@, d.parola, alan_aad(u, k, i, "parola"@)),
        kullanici_zarf: alan_zarfi(ik, n.kullanici@, d.kullanici, alan_aad(u, k, i, "kullanici"@)),
        ekstra_zarf: alan_zarfi(ik, n.ekstra@, d.ekstra, alan_aad(u, k, i, "ekstra"@)),
        notlar_zarf: alan_zarfi(ik, n.notlar@, d.notlar, alan_aad(u, k, i, "notlar"@)),
    }
}

/// The envelopes of an item with the item key `ik` and the nonces `n`. A
/// vault key of other than 32 bytes and a field past the cipher's limit are
/// refused; otherwise the envelopes are built, and they open back to the
/// item's fields (an empty field as an absent one).
pub fn zarflari_kur(vk: &[u8], kullanici_id: i64, kasa_id: i64, kayit_id: i64, duz: &DuzKayit, ik: &[u8; 32], n: &Nonceler) -> (r: Result<KayitZarfi, String>)
    requires
        nonceler_gecerli(*n),
    ensures
        vk@.len() != 32 ==> r is Err && r->Err_0@ == "Anahtar boyu hatalı."@,
        vk@.len() == 32 && !hepsi_sarilabilir(duz@) ==> r is Err && r->Err_0@ == "Şifreleme başarısız."@,
        vk@.len() == 32 && hepsi_sarilabilir(duz@) ==> r is Ok && r->Ok_0@ == kurulan_zarflar(vk@, ik@, *n,
            kullanici_id as int, kasa_id as int, kayit_id as int, duz@),
        r matches Ok(z) ==> kayit_acilisi(vk@, kullanici_id as int, kasa_id as int, kayit_id as int, z@)
            == Ok::<DuzAlanlar, Seq<char>>(donen_alanlar(duz@)),
{
    if vk.len() != 32 {
        return Err("Anahtar boyu hatalı.".to_owned());
    }
    if !(sarilabilir_mi(&duz.parola) && sarilabilir_mi(&duz.kullanici) && sarilabilir_mi(&duz.ekstra)
        && sarilabilir_mi(&duz.notlar)) {
        return Err("Şifreleme başarısız.".to_owned());
    }
    let ik_aad = aad_kayit(kullanici_id, kasa_id, kayit_id, "ikey");
    let kaz = match kripto::zarf_kur(vk, n.ik.as_slice(), ik.as_slice(), ik_aad.as_str()) {
        Ok(z) => z,
        Err(e) => return Err(e),
    };
    let p = match alan_sar(ik, n.parola.as_slice(), &duz.parola, kullanici_id, kasa_id, kayit_id, "parola") {
        Ok(z) => z,
        Err(e) => return Err(e),
    };
    let ku = match alan_sar(ik, n.kullanici.as_slice(), &duz.kullanici, kullanici_id, kasa_id, kayit_id, "kullanici") {
        Ok(z) => z,
        Err(e) => return Err(e),
    };
    let ek = match alan_sar(ik, n.ekstra.as_slice(), &duz.ekstra, kullanici_id, kasa_id, kayit_id, "ekstra") {
        Ok(z) => z,
        Err(e) => return Err(e),
    };
    let no = match alan_sar(ik, n.notlar.as_slice(), &duz.notlar, kullanici_id, kasa_id, kayit_id, "notlar") {
        Ok(z) => z,
        Err(e) => return Err(e),
    };
    Ok(KayitZarfi { kayit_anahtar_zarf: kaz, parola_zarf: p, kullanici_zarf: ku, ekstra_zarf: ek, notlar_zarf: no })
}

fn nonce_cek() -> (r: Result<Vec<u8>, String>)
    ensures
        r matches Ok(v) ==> v@.len() == NONCE_BOYU,
        r matches Err(e) ==> e@ == kripto::rastgele_hatasi(),
{
    kripto::rastgele(NONCE_BOYU)
}

/// Encrypts an item. Every call draws a NEW item key and new nonces, so
/// encrypting the same item twice gives two independent envelope sets. The
/// key and the fields' lengths are checked before any random byte is drawn;
/// the draws made, the envelopes are `zarflari_kur`'s.
pub fn sifrele(vk: &[u8], kullanici_id: i64, kasa_id: i64, kayit_id: i64, duz: &DuzKayit) -> (r: Result<KayitZarfi, String>)
    ensures
        vk@.len() != 32 ==> r is Err && r->Err_0@ == "Anahtar boyu hatalı."@,
        r is Ok ==> vk@.len() == 32 && hepsi_sarilabilir(duz@),
        vk@.len() == 32 && !hepsi_sarilabilir(duz@) ==> r is Err && r->Err_0@ == "Şifreleme başarısız."@,
        vk@.len() == 32 && hepsi_sarilabilir(duz@) ==> r is Ok || r->Err_0@ == kripto::rastgele_hatasi(),
        r matches Ok(z) ==> exists|ik: Seq<u8>, n: Nonceler| ik.len() == 32 && nonceler_gecerli(n)
            && #[trigger] kurulan_zarflar(vk@, ik, n, kullanici_id as int, kasa_id as int, kayit_id as int, duz@) == z@,
        r matches Ok(z) ==> {
            &&& z.parola_zarf is Some <==> !bos_alan(duz@.parola)
            &&& z.kullanici_zarf is Some <==> !bos_alan(duz@.kullanici)
            &&& z.ekstra_zarf is Some <==> !bos_alan(duz@.ekstra)
            &&& z.notlar_zarf is Some <==> !bos_alan(duz@.notlar)
            &&& kayit_acilisi(vk@, kullanici_id as int, kasa_id as int, kayit_id as int, z@)
                == Ok::<DuzAlanlar, Seq<char>>(donen_alanlar(duz@))
        },
{
    if vk.len() != 32 {
        return Err("Anahtar boyu hatalı.".to_owned());
    }
    if !(sarilabilir_mi(&duz.parola) && sarilabilir_mi(&duz.kullanici) && sarilabilir_mi(&duz.ekstra)
        && sarilabilir_mi(&duz.notlar)) {
        return Err("Şifreleme başarısız.".to_owned());
    }
    let ik = match kripto::anahtar_uret() {
        Ok(k) => k,
        Err(e) => return Err(e),
    };
    let n_ik = match nonce_cek() {
        Ok(v) => v,
        Err(e) => return Err(e),
    };
    let n_p = match nonce_cek() {
        Ok(v) => v,
        Err(e) => return Err(e),
    };
    let n_ku = match nonce_cek() {
        Ok(v) => v,
        Err(e) => return Err(e),
    };
    let n_ek = match nonce_cek() {
        Ok(v) => v,
        Err(e) => return Err(e),
    };
    let n_n = match nonce_cek() {
        Ok(v) => v,
        Err(e) => return Err(e),
    };
    let n = Nonceler { ik: n_ik, parola: n_p, kullanici: n_ku, ekstra: n_ek, notlar: n_n };
    let r = zarflari_kur(vk, kullanici_id, kasa_id, kayit_id, duz, &ik, &n);
    proof {
        if let Ok(z) = &r {
            assert(kurulan_zarflar(vk@, ik@, n, kullanici_id as int, kasa_id as int, kayit_id as int, duz@) == z@);
        }
    }
    r
}

/// A `Result` of an optional string or a message, by their views.
pub open spec fn alan_sonucu(r: Result<Option<String>, String>) -> Result<Option<Seq<char>>, Seq<char>> {
    match r {
        Ok(o) => Ok(secenek(o)),
        Err(e) => Err(e@),
    }
}

/// Opens one field envelope under the item key.
fn alan_ac(ik: &[u8], zarf: &Option<String>, u: i64, k: i64, i: i64, ad: &str) -> (r: Result<Option<String>, String>)
    ensures
        alan_sonucu(r) == alan_acilisi(ik@, secenek(*zarf), ad@, alan_aad(u as int, k as int, i as int, ad@)),
{
    match zarf {
        None => Ok(None),
        Some(s) => {
            let aad = aad_kayit(u, k, i, ad);
            let ham = match kripto::coz(ik, s.as_str(), aad.as_str()) {
                Ok(h) => h,
                Err(e) => {
                    let mut v = karakterler(ad);
                    ekle(&mut v, &karakterler(" açılamadı: "));
                    ekle(&mut v, &karakterler(e.as_str()));
                    return Err(metin_yap(&v));
                },
            };
            match utf8_metin(ham) {
                Some(m) => Ok(Some(m)),
                None => {
                    let mut v = karakterler(ad);
                    ekle(&mut v, &karakterler(" geçerli metin değil"));
                    Err(metin_yap(&v))
                },
            }
        },
    }
}

/// A `Result` of an item's plain fields or a message, by their views.
pub open spec fn kayit_sonucu(r: Result<DuzKayit, String>) -> Result<DuzAlanlar, Seq<char>> {
    match r {
        Ok(d) => Ok(d@),
        Err(e) => Err(e@),
    }
}

/// Decrypts an item. An absent field comes back as `None`; a field that does
/// not open is an ERROR, never an empty field.
pub fn coz(vk: &[u8], kullanici_id: i64, kasa_id: i64, kayit_id: i64, z: &KayitZarfi) -> (r: Result<DuzKayit, String>)
    ensures
        kayit_sonucu(r) == kayit_acilisi(vk@, kullanici_id as int, kasa_id as int, kayit_id as int, z@),
{
    let ik_aad = aad_kayit(kullanici_id, kasa_id, kayit_id, "ikey");
    let ik = match kripto::coz(vk, z.kayit_anahtar_zarf.as_str(), ik_aad.as_str()) {
        Ok(k) => k,
        Err(e) => {
            let mut v = karakterler("Kayıt anahtarı açılamadı: ");
            ekle(&mut v, &karakterler(e.as_str()));
            return Err(metin_yap(&v));
        },
    };
    let p = match alan_ac(ik.as_slice(), &z.parola_zarf, kullanici_id, kasa_id, kayit_id, "parola") {
        Ok(o) => o,
        Err(e) => return Err(e),
    };
    let ku = match alan_ac(ik.as_slice(), &z.kullanici_zarf, kullanici_id, kasa_id, kayit_id, "kullanici") {
        Ok(o) => o,
        Err(e) => return Err(e),
    };
    let ek = match alan_ac(ik.as_slice(), &z.ekstra_zarf, kullanici_id, kasa_id, kayit_id, "ekstra") {
        Ok(o) => o,
        Err(e) => return Err(e),
    };
    let n = match alan_ac(ik.as_slice(), &z.notlar_zarf, kullanici_id, kasa_id, kayit_id, "notlar") {
        Ok(o) => o,
        Err(e) => return Err(e),
    };
    Ok(DuzKayit { parola: p, kullanici: ku, ekstra: ek, notlar: n })
}

/// A key read from a server document: absent or empty counts as absent.
pub open spec fn dolu(o: Option<Seq<char>>) -> Option<Seq<char>> {
    if o is Some && o->0.len() > 0 {
        o
    } else {
        None
    }
}

fn dolu_al(o: Option<String>) -> (r: Option<String>)
    ensures
        secenek(r) == dolu(secenek(o)),
{
    match o {
        Some(s) => {
            if s.as_str().is_empty() {
                None
            } else {
                Some(s)
            }
        },
        None => None,
    }
}

/// Builds the envelope set from the five texts of a server document. An
/// empty text counts as absent; the item-key envelope must be there.
pub fn jsondan_alanlar(
    kayit_anahtar_zarf: Option<String>,
    parola_zarf: Option<String>,
    kullanici_zarf: Option<String>,
    ekstra_zarf: Option<String>,
    notlar_zarf: Option<String>,
) -> (r: Result<KayitZarfi, String>)
    ensures
        dolu(secenek(kayit_anahtar_zarf)) is None ==> r is Err && r->Err_0@
            == "Kayıt anahtarı zarfı yok — kayıt zero-knowledge değil."@,
        dolu(secenek(kayit_anahtar_zarf)) is Some ==> r is Ok && r->Ok_0@ == (ZarfAlanlari {
            kayit_anahtar_zarf: secenek(kayit_anahtar_zarf)->0,
            parola_zarf: dolu(secenek(parola_zarf)),
            kullanici_zarf: dolu(secenek(kullanici_zarf)),
            ekstra_zarf: dolu(secenek(ekstra_zarf)),
            notlar_zarf: dolu(secenek(notlar_zarf)),
        }),
{
    let kaz = match dolu_al(kayit_anahtar_zarf) {
        Some(s) => s,
        None => return Err("Kayıt anahtarı zarfı yok — kayıt zero-knowledge değil.".to_owned()),
    };
    Ok(KayitZarfi {
        kayit_anahtar_zarf: kaz,
        parola_zarf: dolu_al(parola_zarf),
        kullanici_zarf: dolu_al(kullanici_zarf),
        ekstra_zarf: dolu_al(ekstra_zarf),
        notlar_zarf: dolu_al(notlar_zarf),
    })
}

/// The five envelope texts of a server document, each as it stands under
/// its key (`None` where the key is missing or does not hold a string).
pub struct ZarfBelgesi {
    pub kayit_anahtar_zarf: Option<String>,
    pub parola_zarf: Option<String>,
    pub kullanici_zarf: Option<String>,
    pub ekstra_zarf: Option<String>,
    pub notlar_zarf: Option<String>,
}

/// What reading an envelope set from document `b` gives: the item-key
/// envelope must be there and not empty; every other empty text is absent.
pub open spec fn belge_okumasi(b: ZarfBelgesi) -> Result<ZarfAlanlari, Seq<char>> {
    if dolu(secenek(b.kayit_anahtar_zarf)) is None {
        Err("Kayıt anahtarı zarfı yok — kayıt zero-knowledge değil."@)
    } else {
        Ok(ZarfAlanlari {
            kayit_anahtar_zarf: secenek(b.kayit_anahtar_zarf)->0,
            parola_zarf: dolu(secenek(b.parola_zarf)),
            kullanici_zarf: dolu(secenek(b.kullanici_zarf)),
            ekstra_zarf: dolu(secenek(b.ekstra_zarf)),
            notlar_zarf: dolu(secenek(b.notlar_zarf)),
        })
    }
}

/// An envelope set or a message, by their views.
pub open spec fn zarf_sonucu(r: Result<KayitZarfi, String>) -> Result<ZarfAlanlari, Seq<char>> {
    match r {
        Ok(z) => Ok(z@),
        Err(e) => Err(e@),
    }
}

pub(crate) fn secenek_kopya(o: &Option<String>) -> (r: Option<String>)
    ensures
        secenek(r) == secenek(*o),
{
    match o {
        Some(s) => Some(s.clone()),
        None => None,
    }
}

/// Reads an envelope set from the texts of a server document.
pub fn jsondan(j: &ZarfBelgesi) -> (r: Result<KayitZarfi, String>)
    ensures
        zarf_sonucu(r) == belge_okumasi(*j),
{
    jsondan_alanlar(
        secenek_kopya(&j.kayit_anahtar_zarf),
        secenek_kopya(&j.parola_zarf),
        secenek_kopya(&j.kullanici_zarf),
        secenek_kopya(&j.ekstra_zarf),
        secenek_kopya(&j.notlar_zarf),
    )
}

/// The AAD bytes of a vault key sealed to a member.
pub open spec fn kasa_aad(kasa: int, uye: int) -> Seq<u8> {
    encode_utf8(aad_kasa_anahtari_metni(kasa, uye))
}

/// What `kasa_anahtari_ac` gives: the sealed envelope opened, then checked
/// to hold exactly 32 bytes.
pub open spec fn kasa_anahtari_acilisi(ozel: Seq<u8>, z: Seq<char>, kasa: int, uye: int) -> Result<Seq<u8>, Seq<char>> {
    match muhur_acilisi(ozel, z, kasa_aad(kasa, uye)) {
        Err(e) => Err(e),
        Ok(h) => if h.len() == 32 {
            Ok(h)
        } else {
            Err("Kasa anahtarı bozuk."@)
        },
    }
}

/// Seals the vault key to a member's public key (base64), when a vault is set
/// up and when a member is added. The member's private key opens it again.
pub fn kasa_anahtari_muhurle(acik_anahtar_b64: &str, vk: &[u8], kasa_id: i64, uye_id: i64) -> (r: Result<String, String>)
    ensures
        b64_cozumu(acik_anahtar_b64@) is None ==> r is Err && r->Err_0@ == "Açık anahtar okunamadı."@,
        b64_cozumu(acik_anahtar_b64@) matches Some(a) ==> {
            &&& a.len() != 32 ==> r is Err && r->Err_0@ == "Açık anahtar 32 bayt olmalı."@
            &&& r is Ok ==> a.len() == 32 && vk@.len() / 64 < u32::MAX
            &&& a.len() == 32 && vk@.len() / 64 >= u32::MAX ==> r is Err && r->Err_0@ == "Şifreleme başarısız."@
            &&& a.len() == 32 && vk@.len() / 64 < u32::MAX ==> r is Ok || r->Err_0@ == kripto::rastgele_hatasi()
        },
        r matches Ok(z) ==> forall|ozel: Seq<u8>|
            ozel.len() == 32 && b64_cozumu(acik_anahtar_b64@) == Some(x25519_acik(ozel))
                ==> #[trigger] muhur_acilisi(ozel, z@, kasa_aad(kasa_id as int, uye_id as int))
                == Ok::<Seq<u8>, Seq<char>>(vk@),
        r matches Ok(z) ==> forall|ozel: Seq<u8>|
            ozel.len() == 32 && vk@.len() == 32 && b64_cozumu(acik_anahtar_b64@) == Some(x25519_acik(ozel))
                ==> #[trigger] kasa_anahtari_acilisi(ozel, z@, kasa_id as int, uye_id as int)
                == Ok::<Seq<u8>, Seq<char>>(vk@),
{
    let acik = match kripto::b64_coz(acik_anahtar_b64) {
        Some(a) => a,
        None => return Err("Açık anahtar okunamadı.".to_owned()),
    };
    let aad = aad_kasa_anahtari(kasa_id, uye_id);
    let r = kripto::muhurle(acik.as_slice(), vk, aad.as_str());
    proof {
        if let Ok(z) = &r {
            assert forall|ozel: Seq<u8>|
                ozel.len() == 32 && b64_cozumu(acik_anahtar_b64@) == Some(x25519_acik(ozel)) implies
                #[trigger] muhur_acilisi(ozel, z@, kasa_aad(kasa_id as int, uye_id as int))
                    == Ok::<Seq<u8>, Seq<char>>(vk@) by {
                assert(muhur_acilisi(ozel, z@, encode_utf8(aad@)) == Ok::<Seq<u8>, Seq<char>>(vk@));
            }
        }
    }
    r
}

fn dizi32_dene(v: Vec<u8>) -> (r: Option<[u8; 32]>)
    ensures
        r is Some <==> v@.len() == 32,
        r matches Some(k) ==> k@ == v@,
{
    if v.len() != 32 {
        return None;
    }
    let mut k = [0u8; 32];
    let mut i: usize = 0;
    while i < 32
        invariant
            0 <= i <= 32,
            v@.len() == 32,
            forall|j: int| 0 <= j < i ==> k@[j] == v@[j],
        decreases 32 - i,
    {
        k[i] = v[i];
        i = i + 1;
    }
    assert(k@ =~= v@);
    Some(k)
}

/// Opens the vault key with one's own private key.
pub fn kasa_anahtari_ac(ozel: &[u8], zarf: &str, kasa_id: i64, uye_id: i64) -> (r: Result<[u8; 32], String>)
    ensures
        bayt_sonucu(r) == kasa_anahtari_acilisi(ozel@, zarf@, kasa_id as int, uye_id as int),
{
    let aad = aad_kasa_anahtari(kasa_id, uye_id);
    let ham = match kripto::muhur_ac(ozel, zarf, aad.as_str()) {
        Ok(h) => h,
        Err(e) => return Err(e),
    };
    match dizi32_dene(ham) {
        Some(k) => Ok(k),
        None => Err("Kasa anahtarı bozuk.".to_owned()),
    }
}

/// What unlocking reads from the identity document that the server keeps:
/// the salt (base64), the Argon2 parameters and the encrypted private key.
pub struct Kimlik {
    pub kdf_tuz: Option<String>,
    pub bellek: Option<u64>,
    pub tur: Option<u64>,
    pub paralel: Option<u64>,
    pub ozel_anahtar_zarf: Option<String>,
}

/// An absent text read as the empty one.
pub open spec fn ya_da_bos(o: Option<String>) -> Seq<char> {
    match o {
        Some(s) => s@,
        None => Seq::empty(),
    }
}

/// An absent number read as the default, then cut to 32 bits.
pub open spec fn ya_da(o: Option<u64>, varsayilan: u64) -> u32 {
    match o {
        Some(n) => n as u32,
        None => varsayilan as u32,
    }
}

/// The Argon2 parameters of an identity: 64 MiB, 3 passes and 4 lanes
/// where the document gives none.
pub open spec fn kimlik_parametresi(k: Kimlik) -> KdfParam {
    KdfParam { bellek: ya_da(k.bellek, 65536), tur: ya_da(k.tur, 3), paralel: ya_da(k.paralel, 4) }
}

/// What the private-key envelope gives under the lock key: any failure reads
/// as a wrong master password, and the key must be 32 bytes.
pub open spec fn ozel_acilisi(kilit: Seq<u8>, zarf: Seq<char>, kullanici: int) -> Result<Seq<u8>, Seq<char>> {
    match zarf_acilisi(kilit, zarf, encode_utf8(aad_ozel_anahtar_metni(kullanici))) {
        Err(_) => Err("Ana parola hatalı."@),
        Ok(h) => if h.len() == 32 {
            Ok(h)
        } else {
            Err("Özel anahtar bozuk."@)
        },
    }
}

/// What unlocking gives for user `u`, master password `parola` and identity
/// `k`: the salt must decode; then the lock key as `kilit_anahtari` derives
/// it; then the private key opened from its envelope.
pub open spec fn kimlik_acilisi(u: int, parola: Seq<char>, k: Kimlik) -> Result<(Seq<u8>, Seq<u8>), Seq<char>> {
    match b64_cozumu(ya_da_bos(k.kdf_tuz)) {
        None => Err("Tuz okunamadı."@),
        Some(t) => match kilit_sonucu(encode_utf8(parola), t, kimlik_parametresi(k)) {
            Err(e) => Err(e),
            Ok(kilit) => match ozel_acilisi(kilit, ya_da_bos(k.ozel_anahtar_zarf), u) {
                Err(e) => Err(e),
                Ok(o) => Ok((kilit, o)),
            },
        },
    }
}

fn ya_da_u32(o: Option<u64>, varsayilan: u64) -> (n: u32)
    ensures
        n == ya_da(o, varsayilan),
{
    match o {
        Some(n) => n as u32,
        None => varsayilan as u32,
    }
}

/// UNLOCK: identity read from the server + master password → (lock key,
/// private key). A lane count whose eightfold leaves 32 bits (with at least
/// 8 KiB of memory) is left out: Argon2's parameter check overflows on it.
pub fn kilidi_ac(kullanici_id: i64, ana_parola: &str, k: &Kimlik) -> (r: Result<([u8; 32], [u8; 32]), String>)
    requires
        kimlik_parametresi(*k).bellek < 8 || kimlik_parametresi(*k).paralel * 8 <= u32::MAX,
    ensures
        match r {
            Ok((kilit, ozel)) => kimlik_acilisi(kullanici_id as int, ana_parola@, *k) == Ok::<(Seq<u8>, Seq<u8>), Seq<char>>((kilit@, ozel@)),
            Err(e) => kimlik_acilisi(kullanici_id as int, ana_parola@, *k) == Err::<(Seq<u8>, Seq<u8>), Seq<char>>(e@),
        },
{
    let tuz_metni: &str = match &k.kdf_tuz {
        Some(s) => s.as_str(),
        None => "",
    };
    proof {
        reveal_strlit("");
    }
    assert(tuz_metni@ =~= ya_da_bos(k.kdf_tuz));
    let tuz = match kripto::b64_coz(tuz_metni) {
        Some(t) => t,
        None => return Err("Tuz okunamadı.".to_owned()),
    };
    let p = KdfParam {
        bellek: ya_da_u32(k.bellek, 65536),
        tur: ya_da_u32(k.tur, 3),
        paralel: ya_da_u32(k.paralel, 4),
    };
    let kilit = match kripto::kilit_anahtari(ana_parola, tuz.as_slice(), p) {
        Ok(x) => x,
        Err(e) => return Err(e),
    };
    let zarf: &str = match &k.ozel_anahtar_zarf {
        Some(s) => s.as_str(),
        None => "",
    };
    assert(zarf@ =~= ya_da_bos(k.ozel_anahtar_zarf));
    assert(p == kimlik_parametresi(*k));
    let aad = aad_ozel_anahtar(kullanici_id);
    let ham = match kripto::coz(kilit.as_slice(), zarf, aad.as_str()) {
        Ok(h) => h,
        Err(_) => return Err("Ana parola hatalı.".to_owned()),
    };
    match dizi32_dene(ham) {
        Some(o) => Ok((kilit, o)),
        None => Err("Özel anahtar bozuk.".to_owned()),
    }
}

/// Unlocking uses the key-derivation parameters that the identity stores,
/// field for field: for an identity whose salt decodes to `tuz` (at least 16
/// bytes) and which stores memory `b`, passes `t` and lanes `p` (accepted by
/// Argon2), the lock key is Argon2id of the master password with exactly
/// `b`, `t` and `p`; and a 32-byte private key sealed under that key for
/// user `u` comes back with it.
pub proof fn kayitli_parametrelerle_acilir(u: int, parola: Seq<char>, k: Kimlik, tuz: Seq<u8>, b: u32, t: u32, p: u32, ozel: Seq<u8>)
    requires
        k.kdf_tuz matches Some(s) && b64_cozumu(s@) == Some(tuz),
        tuz.len() >= 16,
        k.bellek == Some(b as u64),
        k.tur == Some(t as u64),
        k.paralel == Some(p as u64),
        kripto::argon2_param_hatasi(b, t, p) is None,
        kripto::argon2_girdi_hatasi(encode_utf8(parola).len(), tuz.len()) is None,
        k.ozel_anahtar_zarf matches Some(z) && zarf_acilisi(kripto::argon2id(encode_utf8(parola), tuz, b, t, p), z@,
            encode_utf8(aad_ozel_anahtar_metni(u))) == Ok::<Seq<u8>, Seq<char>>(ozel),
        ozel.len() == 32,
    ensures
        kimlik_parametresi(k) == (KdfParam { bellek: b, tur: t, paralel: p }),
        kimlik_acilisi(u, parola, k) == Ok::<(Seq<u8>, Seq<u8>), Seq<char>>(
            (kripto::argon2id(encode_utf8(parola), tuz, b, t, p), ozel),
        ),
{
    assert((b as u64) as u32 == b);
    assert((t as u64) as u32 == t);
    assert((p as u64) as u32 == p);
}

} // verus!

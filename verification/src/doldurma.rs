//! The decisions of filling: when the "Fill" command may type, when the
//! global shortcut fills by itself and when it asks, when the quick panel
//! comes up, and which sites were filled a moment ago. The typing, the
//! windows and the network stay with the caller; every decision is here.

use vstd::prelude::*;
use std::time::Instant;
use crate::metin::{karakterler, metin_yap, ekle};
use crate::adres::{yol_uyar, yol_metni, alan_adi, alan_metni};
use crate::alan::{Uygun, UygunTuru, Odak, PAROLA_ROLU, aciklama, aciklama_metni, odakli_alan, uygunluk};
use crate::pencere::Hedef;
use crate::kasa::Kayit;
use crate::anahtarlik::{simdi, gecen_ns, SANIYE_NS};

verus! {

/// The outcome of a fill, as the interface shows it.
#[derive(Debug, Clone, PartialEq, Eq)]
pub struct DoldurSonuc {
    pub tamam: bool,
    pub mesaj: String,
}

/// Whether the item's address fits the page at path level (see `yol_uyar`).
pub open spec fn uyar(kayit_url: Option<String>, hedef: Seq<char>) -> bool {
    match kayit_url {
        None => true,
        Some(k) => yol_metni(k@).len() == 0 || yol_metni(hedef) == yol_metni(k@),
    }
}

/// `i` is the first item with id `id`.
pub open spec fn ilk_kayit_mi(kayitlar: Seq<Kayit>, id: i64, i: int) -> bool {
    &&& 0 <= i < kayitlar.len()
    &&& kayitlar[i].id == id
    &&& forall|j: int| 0 <= j < i ==> #[trigger] kayitlar[j].id != id
}

/// The place of the first item with id `id`.
fn ilk_kayit_bul(kayitlar: &[Kayit], id: i64) -> (r: Option<usize>)
    ensures
        match r {
            Some(i) => ilk_kayit_mi(kayitlar@, id, i as int),
            None => forall|j: int| 0 <= j < kayitlar@.len() ==> #[trigger] kayitlar@[j].id != id,
        },
{
    let n = kayitlar.len();
    for i in 0..n
        invariant
            n == kayitlar@.len(),
            forall|j: int| 0 <= j < i ==> #[trigger] kayitlar@[j].id != id,
    {
        if kayitlar[i].id == id {
            return Some(i);
        }
    }
    None
}

/// The way a fill goes on once its checks have passed.
#[derive(Debug, Clone, PartialEq, Eq)]
pub enum DoldurYolu {
    /// In a browser the extension fills, seeing the page: the job (this item
    /// at this address) goes to the bridge; no password goes with it.
    EklentiyeIlet(String),
    /// Elsewhere the keys are typed into the target window.
    Yaz,
}

fn basarisiz(mesaj: &str) -> (s: DoldurSonuc)
    ensures
        !s.tamam && s.mesaj@ == mesaj@,
{
    DoldurSonuc { tamam: false, mesaj: mesaj.to_owned() }
}

/// Whether the item `id` (the first of that id in `kayitlar`) fits the
/// target's address at path level; a target without address fits any item.
pub open spec fn adrese_uyar(url: Option<String>, id: i64, kayitlar: Seq<Kayit>) -> bool {
    url matches Some(u) ==> forall|i: int| #[trigger] ilk_kayit_mi(kayitlar, id, i) ==> uyar(kayitlar[i].url, u@)
}

/// The checks before "Fill" does anything, in their order: typing needs the
/// accessibility permission; there must be a target; on a page with a
/// known address the item's address must fit it (the password must NEVER
/// go to the wrong site); in a browser the address must be known and the
/// extension connected. `kayitlar` is the vault's list when the target has an
/// address.
pub fn doldur_denetimi(izin: bool, h: &Hedef, id: i64, kayitlar: &[Kayit], eklenti_bagli: bool) -> (r: Result<DoldurYolu, DoldurSonuc>)
    ensures
        r matches Err(s) ==> !s.tamam,
        !izin ==> (r matches Err(s) && s.mesaj@ == "macOS Erişilebilirlik izni gerekiyor: Sistem Ayarları → Gizlilik ve Güvenlik → Erişilebilirlik → Bogahost Kasa"@),
        izin && h.program@.len() == 0 ==> (r matches Err(s) && s.mesaj@ == "Hedef pencere seçilmedi. Listeden bir program seçin ya da doldurulacak pencere öndeyken kısayola basın."@),
        izin && h.program@.len() > 0 && h.url is Some ==> forall|i: int|
            #[trigger] ilk_kayit_mi(kayitlar@, id, i) && !uyar(kayitlar@[i].url, h.url->0@) ==> (r matches Err(s)
                && s.mesaj@ == "\""@ + kayitlar@[i].label@ + "\" bu adrese ait değil ("@ + h.url->0@ + "). Parola yazılmadı."@),
        izin && h.program@.len() > 0 && adrese_uyar(h.url, id, kayitlar@) ==> {
            &&& !h.tarayici ==> r == Ok::<DoldurYolu, DoldurSonuc>(DoldurYolu::Yaz)
            &&& h.tarayici && h.url is None ==> (r matches Err(s) && s.mesaj@ == "Tarayıcının adresi okunamadı. Sekmeye tıklayıp tekrar deneyin."@)
            &&& h.tarayici && h.url is Some && !eklenti_bagli ==> (r matches Err(s) && s.mesaj@ == "Tarayıcıda doldurmayı eklenti yapıyor ama eklenti bağlı değil. Ayarlar → Chrome eklentisi'nden kurun."@)
            &&& h.tarayici && h.url is Some && eklenti_bagli ==> r == Ok::<DoldurYolu, DoldurSonuc>(DoldurYolu::EklentiyeIlet(h.url->0))
        },
        r is Ok ==> izin && h.program@.len() > 0 && adrese_uyar(h.url, id, kayitlar@),
{
    if !izin {
        return Err(basarisiz(
            "macOS Erişilebilirlik izni gerekiyor: Sistem Ayarları → Gizlilik ve Güvenlik → Erişilebilirlik → Bogahost Kasa",
        ));
    }
    if h.program.as_str().is_empty() {
        return Err(basarisiz(
            "Hedef pencere seçilmedi. Listeden bir program seçin ya da doldurulacak pencere öndeyken kısayola basın.",
        ));
    }
    if let Some(hedef_url) = &h.url {
        if let Some(i) = ilk_kayit_bul(kayitlar, id) {
            let k = &kayitlar[i];
            if !yol_uyar(&k.url, hedef_url.as_str()) {
                assert forall|m: int| #[trigger] ilk_kayit_mi(kayitlar@, id, m) implies m == i by {
                    if m < i {
                        assert(kayitlar@[m].id != id);
                    } else if m > i {
                        assert(kayitlar@[i as int].id != id);
                    }
                }
                let mut v = karakterler("\"");
                ekle(&mut v, &karakterler(k.label.as_str()));
                ekle(&mut v, &karakterler("\" bu adrese ait değil ("));
                ekle(&mut v, &karakterler(hedef_url.as_str()));
                ekle(&mut v, &karakterler("). Parola yazılmadı."));
                return Err(DoldurSonuc { tamam: false, mesaj: metin_yap(&v) });
            }
            assert forall|m: int| #[trigger] ilk_kayit_mi(kayitlar@, id, m) implies uyar(kayitlar@[m].url, hedef_url@) by {
                if m < i {
                    assert(kayitlar@[m].id != id);
                } else if m > i {
                    assert(kayitlar@[i as int].id != id);
                }
            }
        }
    }
    if h.tarayici {
        let url = match &h.url {
            Some(u) => u.clone(),
            None => {
                return Err(basarisiz("Tarayıcının adresi okunamadı. Sekmeye tıklayıp tekrar deneyin."));
            },
        };
        if !eklenti_bagli {
            return Err(basarisiz(
                "Tarayıcıda doldurmayı eklenti yapıyor ama eklenti bağlı değil. Ayarlar → Chrome eklentisi'nden kurun.",
            ));
        }
        return Ok(DoldurYolu::EklentiyeIlet(url));
    }
    Ok(DoldurYolu::Yaz)
}

/// The outcome when the job went to the extension.
pub fn eklentiye_iletildi() -> (s: DoldurSonuc)
    ensures
        s.tamam && s.mesaj@ == "Eklentiye iletildi."@,
{
    DoldurSonuc { tamam: true, mesaj: "Eklentiye iletildi.".to_owned() }
}

/// The outcome when the item could not be fetched for filling.
pub fn alinamadi(neden: &str) -> (s: DoldurSonuc)
    ensures
        !s.tamam && s.mesaj@ == "Alınamadı: "@ + neden@,
{
    let mut v = karakterler("Alınamadı: ");
    ekle(&mut v, &karakterler(neden));
    DoldurSonuc { tamam: false, mesaj: metin_yap(&v) }
}

/// Whether the focused field forbids typing: a field with data in it (writing
/// over it loses data) or no text field at all. A field that could not be
/// told does not forbid it.
pub open spec fn engelli(u: UygunTuru) -> bool {
    u is Dolu || u is AlanDegil
}

/// The fill refused by the focused field, with the reason; `None` when the
/// field may be filled.
pub fn alan_engeli(u: &Uygun) -> (r: Option<DoldurSonuc>)
    ensures
        engelli(u@) <==> r is Some,
        r matches Some(s) ==> !s.tamam && s.mesaj@ == aciklama_metni(u@),
{
    match u {
        Uygun::Dolu => Some(DoldurSonuc { tamam: false, mesaj: aciklama(u) }),
        Uygun::AlanDegil(_) => Some(DoldurSonuc { tamam: false, mesaj: aciklama(u) }),
        _ => None,
    }
}

/// The outcome of typing.
pub fn yazma_sonucu(r: Result<(), String>) -> (s: DoldurSonuc)
    ensures
        r is Ok ==> s.tamam && s.mesaj@ == "Dolduruldu."@,
        r matches Err(e) ==> !s.tamam && s.mesaj@ == "Yazılamadı: "@ + e@ + ". Kopyala düğmelerini kullanabilirsiniz."@,
{
    match r {
        Ok(()) => DoldurSonuc { tamam: true, mesaj: "Dolduruldu.".to_owned() },
        Err(e) => {
            let mut v = karakterler("Yazılamadı: ");
            ekle(&mut v, &karakterler(e.as_str()));
            ekle(&mut v, &karakterler(". Kopyala düğmelerini kullanabilirsiniz."));
            DoldurSonuc { tamam: false, mesaj: metin_yap(&v) }
        },
    }
}

// ── The global shortcut ─────────────────────────────────────────────────────

/// What the shortcut does: fill the one fitting item by itself, or open the
/// quick window and let the user choose, with a note why.
#[derive(Debug, Clone, PartialEq, Eq)]
pub enum KisayolKarari {
    /// Open the window; the note is empty, `izin-yok`, `eslesme-yok` or `coklu-eslesme`.
    PencereAc(String),
    /// Fill the item at this place of the matched list.
    Doldur(usize),
}

/// How many of `kayitlar` fit `url` at path level.
pub open spec fn uyan_sayisi(kayitlar: Seq<Kayit>, url: Seq<char>) -> nat
    decreases kayitlar.len(),
{
    if kayitlar.len() == 0 {
        0
    } else {
        uyan_sayisi(kayitlar.drop_last(), url) + (if uyar(kayitlar.last().url, url) { 1nat } else { 0nat })
    }
}

/// The shortcut's choice. Without the accessibility permission typing fails
/// SILENTLY, so the window opens to show the way. With no address, or when
/// the server could not be asked, the user chooses. Only ONE item fitting
/// the page at path level is filled by itself: rather ask than write a
/// password into the wrong item. `eslesenler` is the server's match list.
pub fn kisayol_karari(izin: bool, url: &Option<String>, eslesenler: Option<&[Kayit]>) -> (k: KisayolKarari)
    ensures
        !izin ==> (k matches KisayolKarari::PencereAc(n) && n@ == "izin-yok"@),
        izin && (url is None || eslesenler is None) ==> (k matches KisayolKarari::PencereAc(n) && n@.len() == 0),
        k matches KisayolKarari::Doldur(i) ==> izin && url is Some && eslesenler is Some && 0 <= i < eslesenler->0@.len()
            && uyar(eslesenler->0@[i as int].url, url->0@) && uyan_sayisi(eslesenler->0@, url->0@) == 1,
        izin && url is Some && eslesenler is Some && uyan_sayisi(eslesenler->0@, url->0@) == 0 ==> (k matches KisayolKarari::PencereAc(n) && n@ == "eslesme-yok"@),
        izin && url is Some && eslesenler is Some && uyan_sayisi(eslesenler->0@, url->0@) > 1 ==> (k matches KisayolKarari::PencereAc(n) && n@ == "coklu-eslesme"@),
        izin && url is Some && eslesenler is Some && uyan_sayisi(eslesenler->0@, url->0@) == 1 ==> k is Doldur,
{
    if !izin {
        return KisayolKarari::PencereAc("izin-yok".to_owned());
    }
    let u = match url {
        Some(u) => u,
        None => return KisayolKarari::PencereAc(String::new()),
    };
    let liste = match eslesenler {
        Some(l) => l,
        None => return KisayolKarari::PencereAc(String::new()),
    };
    let n = liste.len();
    let mut sayi: usize = 0;
    let mut ilk: usize = 0;
    for i in 0..n
        invariant
            n == liste@.len(),
            sayi == uyan_sayisi(liste@.take(i as int), u@),
            sayi <= i,
            sayi > 0 ==> ilk < i && uyar(liste@[ilk as int].url, u@),
    {
        assert(liste@.take(i + 1).drop_last() =~= liste@.take(i as int));
        if yol_uyar(&liste[i].url, u.as_str()) {
            if sayi == 0 {
                ilk = i;
            }
            sayi = sayi + 1;
        }
    }
    assert(liste@.take(n as int) =~= liste@);
    if sayi == 0 {
        KisayolKarari::PencereAc("eslesme-yok".to_owned())
    } else if sayi > 1 {
        KisayolKarari::PencereAc("coklu-eslesme".to_owned())
    } else {
        KisayolKarari::Doldur(ilk)
    }
}

/// After the item was fetched: the note that opens the window instead of
/// typing, if any. A field that forbids typing says why; in a browser the
/// shortcut does not type at all (the extension fills there, seeing the page).
pub fn kisayol_alan_notu(u: &Uygun, tarayici: bool) -> (r: Option<String>)
    ensures
        engelli(u@) ==> (r matches Some(n) && n@ == "alan:"@ + aciklama_metni(u@)),
        !engelli(u@) && tarayici ==> (r matches Some(n) && n@ == "alan:Tarayıcıda doldurmayı Bogahost Kasa eklentisi yapıyor — parola alanına tıklayınca sayfada menü açılır."@),
        !engelli(u@) && !tarayici ==> r is None,
{
    match u {
        Uygun::Dolu | Uygun::AlanDegil(_) => {
            let mut v = karakterler("alan:");
            ekle(&mut v, &karakterler(aciklama(u).as_str()));
            Some(metin_yap(&v))
        },
        _ => {
            if tarayici {
                Some(
                    "alan:Tarayıcıda doldurmayı Bogahost Kasa eklentisi yapıyor — parola alanına tıklayınca sayfada menü açılır.".to_owned(),
                )
            } else {
                None
            }
        },
    }
}

/// The notification after the shortcut filled an item.
pub fn dolduruldu_bildirimi(etiket: &str) -> (s: String)
    ensures
        s@ == "\""@ + etiket@ + "\" dolduruldu."@,
{
    let mut v = karakterler("\"");
    ekle(&mut v, &karakterler(etiket));
    ekle(&mut v, &karakterler("\" dolduruldu."));
    metin_yap(&v)
}

/// The note after typing failed.
pub fn yazma_hatasi_notu(neden: &str) -> (s: String)
    ensures
        s@ == "yazma-hatasi:"@ + neden@,
{
    let mut v = karakterler("yazma-hatasi:");
    ekle(&mut v, &karakterler(neden));
    metin_yap(&v)
}

// ── The quick panel ─────────────────────────────────────────────────────────

/// What happens to the quick panel when the target changes.
#[derive(Debug, Clone, Copy, PartialEq, Eq, Structural)]
pub enum PanelEylemi {
    /// Leave it as it is.
    Dokunma,
    /// Hide it.
    Gizle,
    /// Show it (placing it first when it was hidden) and tell the interface.
    Goster,
}

/// The panel's fate before asking the server. A panel in the user's hands
/// (open and focused) is left alone; a target without address hides an open
/// panel; without typing permission, or with the automatic panel switched
/// off, nothing happens; on a site filled a moment ago an open panel hides.
/// `None`: ask the server.
pub fn panel_on_karari(acik: bool, odakta: bool, url_var: bool, izin: bool, kendiliginden: bool, az_once: bool) -> (r: Option<PanelEylemi>)
    ensures
        acik && odakta ==> r == Some(PanelEylemi::Dokunma),
        !(acik && odakta) && !url_var ==> r == Some(if acik { PanelEylemi::Gizle } else { PanelEylemi::Dokunma }),
        !(acik && odakta) && url_var && (!izin || !kendiliginden) ==> r == Some(PanelEylemi::Dokunma),
        !(acik && odakta) && url_var && izin && kendiliginden && az_once ==> r == Some(if acik {
            PanelEylemi::Gizle
        } else {
            PanelEylemi::Dokunma
        }),
        !(acik && odakta) && url_var && izin && kendiliginden && !az_once ==> r is None,
{
    if acik && odakta {
        return Some(PanelEylemi::Dokunma);
    }
    if !url_var || az_once && izin && kendiliginden {
        return Some(if acik { PanelEylemi::Gizle } else { PanelEylemi::Dokunma });
    }
    if !izin || !kendiliginden {
        return Some(PanelEylemi::Dokunma);
    }
    None
}

/// The panel's fate once the server's matches are filtered by path: shown
/// when some item fits; otherwise an open panel hides.
pub fn panel_son_karari(acik: bool, uyan_var: bool) -> (e: PanelEylemi)
    ensures
        uyan_var ==> e == PanelEylemi::Goster,
        !uyan_var ==> e == (if acik { PanelEylemi::Gizle } else { PanelEylemi::Dokunma }),
{
    if uyan_var {
        PanelEylemi::Goster
    } else if acik {
        PanelEylemi::Gizle
    } else {
        PanelEylemi::Dokunma
    }
}

// ── Sites filled a moment ago ───────────────────────────────────────────────

/// The entries of `s` whose site is not `alan`, in order.
pub open spec fn alan_disinda(s: Seq<(String, Instant)>, alan: Seq<char>) -> Seq<(String, Instant)>
    decreases s.len(),
{
    if s.len() == 0 {
        Seq::empty()
    } else {
        (if s[0].0@ != alan { seq![s[0]] } else { Seq::empty() }) + alan_disinda(s.drop_first(), alan)
    }
}

/// The quiet time of `dk` minutes (at least one), in nanoseconds.
pub open spec fn sessizlik_suresi(dk: u64) -> int {
    (if dk < 1 { 1 } else { dk as int }) * 60 * (SANIYE_NS as int)
}

/// The first `n` marks of `s` whose elapsed time in `g` is under `sure`, in
/// order: the marks still fresh.
pub open spec fn taze_isaretler(s: Seq<(String, Instant)>, g: Seq<u128>, sure: int, n: int) -> Seq<(String, Instant)>
    decreases n,
{
    if n <= 0 {
        Seq::empty()
    } else {
        let once = taze_isaretler(s, g, sure, n - 1);
        if g[n - 1] < sure {
            once.push(s[n - 1])
        } else {
            once
        }
    }
}

/// Whether some mark of `s` is for site `alan`.
pub open spec fn isaretli(s: Seq<(String, Instant)>, alan: Seq<char>) -> bool {
    exists|j: int| 0 <= j < s.len() && #[trigger] s[j].0@ == alan
}

/// Whether the site of `url` was filled a moment ago, with `gecenler[j]` the
/// nanoseconds since mark `j` was made: the marks older than the quiet time
/// of `sessizlik_dk` minutes (at least one) are dropped, in order, and the
/// answer is whether a fresh one is for the domain of `url`. By domain, not
/// address: after signing in the address changes, the site does not.
pub fn az_once_dolduruldu_gecen(liste: &mut Vec<(String, Instant)>, gecenler: &[u128], url: &str, sessizlik_dk: u64) -> (b: bool)
    requires
        sessizlik_dk * 60 <= u64::MAX,
        gecenler@.len() == old(liste)@.len(),
    ensures
        alan_metni(url@).len() == 0 ==> !b && final(liste)@ == old(liste)@,
        alan_metni(url@).len() > 0 ==> final(liste)@ == taze_isaretler(old(liste)@, gecenler@,
            sessizlik_suresi(sessizlik_dk), old(liste)@.len() as int),
        alan_metni(url@).len() > 0 ==> b == isaretli(final(liste)@, alan_metni(url@)),
{
    let alan = alan_adi(url);
    if alan.as_str().is_empty() {
        return false;
    }
    let dk: u64 = if sessizlik_dk < 1 { 1 } else { sessizlik_dk };
    let sure: u128 = (dk * 60) as u128 * SANIYE_NS;
    assert(sure == sessizlik_suresi(sessizlik_dk));
    let mut eski: Vec<(String, Instant)> = Vec::new();
    std::mem::swap(&mut eski, liste);
    let ghost ilk = eski@;
    let n = eski.len();
    let mut i: usize = 0;
    assert(ilk.skip(0) =~= ilk);
    while i < n
        invariant
            n == ilk.len(),
            gecenler@.len() == n,
            0 <= i <= n,
            eski@ == ilk.skip(i as int),
            liste@ == taze_isaretler(ilk, gecenler@, sure as int, i as int),
        decreases n - i,
    {
        let e = eski.remove(0);
        assert(e == ilk[i as int]);
        assert(eski@ =~= ilk.skip(i + 1));
        if gecenler[i] < sure {
            liste.push(e);
        }
        i = i + 1;
    }
    let m = liste.len();
    let mut var = false;
    for k in 0..m
        invariant
            m == liste@.len(),
            var == exists|j: int| 0 <= j < k && #[trigger] liste@[j].0@ == alan@,
    {
        if crate::metin::metin_esit(liste[k].0.as_str(), alan.as_str()) {
            var = true;
        }
    }
    var
}

/// Whether the site of `url` was filled a moment ago, reading the clock for
/// the age of each mark; what is kept is the fresh marks in order, for some
/// ages the clock gave, and the answer reads them.
pub fn az_once_dolduruldu(liste: &mut Vec<(String, Instant)>, url: &str, sessizlik_dk: u64) -> (b: bool)
    requires
        sessizlik_dk * 60 <= u64::MAX,
    ensures
        alan_metni(url@).len() == 0 ==> !b && final(liste)@ == old(liste)@,
        alan_metni(url@).len() > 0 ==> exists|g: Seq<u128>| g.len() == old(liste)@.len() && #[trigger] taze_isaretler(
            old(liste)@, g, sessizlik_suresi(sessizlik_dk), old(liste)@.len() as int) == final(liste)@,
        alan_metni(url@).len() > 0 ==> b == isaretli(final(liste)@, alan_metni(url@)),
{
    let n = liste.len();
    let mut gecenler: Vec<u128> = Vec::new();
    for i in 0..n
        invariant
            n == liste@.len(),
            gecenler@.len() == i,
    {
        gecenler.push(gecen_ns(&liste[i].1));
    }
    let ghost g = gecenler@;
    let b = az_once_dolduruldu_gecen(liste, gecenler.as_slice(), url, sessizlik_dk);
    proof {
        if alan_metni(url@).len() > 0 {
            assert(taze_isaretler(old(liste)@, g, sessizlik_suresi(sessizlik_dk), old(liste)@.len() as int) == liste@);
        }
    }
    b
}

/// Marks the site of `url` as filled just now: an older mark of the same
/// site is replaced.
pub fn dolduruldu_isaretle(liste: &mut Vec<(String, Instant)>, url: &str)
    ensures
        alan_metni(url@).len() == 0 ==> final(liste)@ == old(liste)@,
        alan_metni(url@).len() > 0 ==> {
            &&& final(liste)@.len() == alan_disinda(old(liste)@, alan_metni(url@)).len() + 1
            &&& final(liste)@.drop_last() == alan_disinda(old(liste)@, alan_metni(url@))
            &&& final(liste)@.last().0@ == alan_metni(url@)
        },
{
    let alan = alan_adi(url);
    if alan.as_str().is_empty() {
        return;
    }
    let mut eski: Vec<(String, Instant)> = Vec::new();
    std::mem::swap(&mut eski, liste);
    let ghost ilk = eski@;
    assert(liste@ + alan_disinda(eski@, alan@) =~= alan_disinda(ilk, alan@));
    while eski.len() > 0
        invariant
            liste@ + alan_disinda(eski@, alan@) == alan_disinda(ilk, alan@),
        decreases eski@.len(),
    {
        let ghost once = eski@;
        let e = eski.remove(0);
        assert(eski@ =~= once.drop_first());
        if !crate::metin::metin_esit(e.0.as_str(), alan.as_str()) {
            let ghost onceki = liste@;
            liste.push(e);
            assert(liste@ + alan_disinda(eski@, alan@) =~= onceki + alan_disinda(once, alan@)) by {
                assert(alan_disinda(once, alan@) == seq![e] + alan_disinda(eski@, alan@));
            }
        } else {
            assert(alan_disinda(once, alan@) == alan_disinda(eski@, alan@));
        }
    }
    assert(liste@ =~= alan_disinda(ilk, alan@));
    let t = simdi();
    liste.push((alan, t));
}

// ── Typing ──────────────────────────────────────────────────────────────────

/// Whether the password may be typed after the user name and Tab, judged by
/// the element that then has the focus. Where the Tab went is NOT assumed:
/// a field with data, or no text field at all, stops it; and where the role
/// can be read, only a PASSWORD field takes the password (an empty search box
/// is an empty text field too, and would show the password in plain text).
/// Nothing read (no permission, no support) does not stop it.
pub fn parola_yazilabilir(odak: &Odak) -> (r: Result<(), String>)
    ensures
        odak is None ==> r is Ok,
        odak matches Some((rol, deger)) ==> {
            let u = uygunluk(rol@, match deger {
                Some(d) => Some(d@),
                None => None,
            });
            &&& u is Dolu ==> (r matches Err(m) && m@ == "Kullanıcı adı yazıldı ama sonraki alan boş değil; parola yazılmadı. Parola alanına tıklayıp tekrar deneyin."@)
            &&& u matches UygunTuru::AlanDegil(x) ==> (r matches Err(m) && m@ == "Kullanıcı adı yazıldı ama Tab bir metin alanına gitmedi ("@ + x + "); parola yazılmadı. Parola alanına tıklayıp tekrar deneyin."@)
            &&& u is Bos && rol@ != PAROLA_ROLU@ ==> (r matches Err(m) && m@ == "Odaktaki alan bir parola alanı değil; parola YAZILMADI. Şifrenin açıkta görünmemesi için yalnızca parola kutularına yazılıyor."@)
            &&& u is Bos && rol@ == PAROLA_ROLU@ ==> r is Ok
        },
        r is Ok ==> (odak matches Some((rol, _)) ==> rol@ == PAROLA_ROLU@),
{
    let (rol, deger) = match odak {
        Some((rol, deger)) => (rol, deger),
        None => return Ok(()),
    };
    let u = odakli_alan(Some((rol.clone(), deger.clone())));
    match u {
        Uygun::Dolu => {
            return Err(
                "Kullanıcı adı yazıldı ama sonraki alan boş değil; parola yazılmadı. Parola alanına tıklayıp tekrar deneyin.".to_owned(),
            );
        },
        Uygun::AlanDegil(x) => {
            let mut v = karakterler("Kullanıcı adı yazıldı ama Tab bir metin alanına gitmedi (");
            ekle(&mut v, &karakterler(x.as_str()));
            ekle(&mut v, &karakterler("); parola yazılmadı. Parola alanına tıklayıp tekrar deneyin."));
            return Err(metin_yap(&v));
        },
        _ => {},
    }
    if !crate::metin::metin_esit(rol.as_str(), PAROLA_ROLU) {
        return Err(
            "Odaktaki alan bir parola alanı değil; parola YAZILMADI. Şifrenin açıkta görünmemesi için yalnızca parola kutularına yazılıyor.".to_owned(),
        );
    }
    Ok(())
}

/// Whether a copied password is wiped from the clipboard when its time is
/// up: only if the clipboard still holds it; something copied since is left.
pub fn pano_temizlenir(mevcut: &str, sifre: &str) -> (b: bool)
    ensures
        b == (mevcut@ == sifre@),
{
    crate::metin::metin_esit(mevcut, sifre)
}

/// The computer's name for the device list: `COMPUTERNAME`, then
/// `HOSTNAME` (each only when not blank), then what `hostname -s` printed
/// (trimmed, when not empty), else `Bilgisayar`.
pub fn bilgisayar_adi(computername: Option<String>, hostname: Option<String>, komut: Option<String>) -> (s: String)
    ensures
        computername matches Some(a) && crate::metin::kirpilmis(a@).len() > 0 ==> s@ == computername->0@,
        !(computername matches Some(a) && crate::metin::kirpilmis(a@).len() > 0) && (hostname matches Some(a)
            && crate::metin::kirpilmis(a@).len() > 0) ==> s@ == hostname->0@,
        !(computername matches Some(a) && crate::metin::kirpilmis(a@).len() > 0) && !(hostname matches Some(a)
            && crate::metin::kirpilmis(a@).len() > 0) ==> s@ == (match komut {
            Some(k) => if crate::metin::kirpilmis(k@).len() > 0 {
                crate::metin::kirpilmis(k@)
            } else {
                "Bilgisayar"@
            },
            None => "Bilgisayar"@,
        }),
{
    if let Some(a) = &computername {
        if crate::metin::kirp(&karakterler(a.as_str())).len() > 0 {
            return a.clone();
        }
    }
    if let Some(a) = &hostname {
        if crate::metin::kirp(&karakterler(a.as_str())).len() > 0 {
            return a.clone();
        }
    }
    if let Some(k) = &komut {
        let t = crate::metin::kirp(&karakterler(k.as_str()));
        if t.len() > 0 {
            return metin_yap(&t);
        }
    }
    "Bilgisayar".to_owned()
}

} // verus!

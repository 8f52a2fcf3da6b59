//! The shell's desktop notifications: which entries of the panel's feed are
//! announced, how a burst is summed up, and the texts around them. The page
//! fetches the feed and the shell shows the notifications; what is shown,
//! and what is remembered as seen, is decided here.

use vstd::prelude::*;
use crate::metin::{karakterler, metin_yap, ekle, kirp, kirpilmis, metin_esit, u64_ondalik, dogal_ondalik};

verus! {

/// How many seen keys are remembered (a ring: the oldest go first).
pub const GORULEN_EN_FAZLA: usize = 300;

/// At most this many notifications in one round; more are summed up.
pub const TOPLU_EN_FAZLA: usize = 4;

/// On the first run (no remembered list yet) only entries younger than this
/// many seconds are announced, so that the past feed does not burst out.
pub const ILK_CALISMA_EN_YASLI: i64 = 120;

/// The program's title, used when a notification has none.
pub const UYGULAMA_BASLIGI: &'static str = "Bogahost Görevler";

/// One entry of the panel's feed, as the page normalised it.
#[derive(Debug, Clone, PartialEq, Eq)]
pub struct BeslemeKaydi {
    /// A key unique to the entry (`feed:123`, `msg:45`…).
    pub key: String,
    pub title: Option<String>,
    pub body: Option<String>,
    pub url: Option<String>,
    /// The entry's age in seconds; only the first run looks at it.
    pub age_s: Option<i64>,
}

/// A list of strings by their characters.
pub open spec fn anahtarlar(v: Seq<String>) -> Seq<Seq<char>> {
    v.map_values(|s: String| s@)
}

/// Whether an entry is too old to announce on the first run (no age counts as 0).
pub open spec fn yasli(k: BeslemeKaydi) -> bool {
    match k.age_s {
        Some(a) => a > ILK_CALISMA_EN_YASLI,
        None => false,
    }
}

/// The feed read in order, from the remembered keys `gorulen`: an entry with
/// a blank key, or one already seen, is skipped; every other entry's key is
/// remembered, shown or not, so that an old entry dropped on the first run
/// does not come back; and it is announced unless it is the first run and
/// the entry is old. The keys remembered and the places of the fresh entries.
pub open spec fn tara(items: Seq<BeslemeKaydi>, gorulen: Seq<Seq<char>>, ilk: bool) -> (Seq<Seq<char>>, Seq<int>)
    decreases items.len(),
{
    if items.len() == 0 {
        (gorulen, Seq::empty())
    } else {
        let onceki = tara(items.drop_last(), gorulen, ilk);
        let i = items.len() - 1;
        let k = items[i].key@;
        if kirpilmis(k).len() == 0 || onceki.0.contains(k) {
            onceki
        } else if ilk && yasli(items[i]) {
            (onceki.0.push(k), onceki.1)
        } else {
            (onceki.0.push(k), onceki.1.push(i))
        }
    }
}

/// Reading the feed keeps every remembered key; every announced entry lies in
/// the feed, had a key that was not remembered before and is remembered
/// after; and the announced entries come in feed order with distinct keys.
proof fn tara_ozellik(items: Seq<BeslemeKaydi>, gorulen: Seq<Seq<char>>, ilk: bool)
    ensures
        forall|x: Seq<char>| gorulen.contains(x) ==> #[trigger] tara(items, gorulen, ilk).0.contains(x),
        forall|a: int| 0 <= a < tara(items, gorulen, ilk).1.len() ==> {
            let j = #[trigger] tara(items, gorulen, ilk).1[a];
            &&& 0 <= j < items.len()
            &&& tara(items, gorulen, ilk).0.contains(items[j].key@)
            &&& !gorulen.contains(items[j].key@)
        },
        forall|a: int, b: int| 0 <= a < b < tara(items, gorulen, ilk).1.len() ==> {
            &&& #[trigger] tara(items, gorulen, ilk).1[a] < #[trigger] tara(items, gorulen, ilk).1[b]
            &&& items[tara(items, gorulen, ilk).1[a]].key@ != items[tara(items, gorulen, ilk).1[b]].key@
        },
    decreases items.len(),
{
    if items.len() > 0 {
        let on = items.drop_last();
        tara_ozellik(on, gorulen, ilk);
        let o = tara(on, gorulen, ilk);
        let i = items.len() - 1;
        let k = items[i].key@;
        assert forall|j: int| 0 <= j < on.len() implies on[j] == items[j] by {}
        let r = tara(items, gorulen, ilk);
        if !(kirpilmis(k).len() == 0 || o.0.contains(k)) {
            assert forall|x: Seq<char>| o.0.contains(x) implies r.0.contains(x) by {
                let w = choose|w: int| 0 <= w < o.0.len() && o.0[w] == x;
                assert(r.0[w] == x);
            }
            assert(r.0[r.0.len() - 1] == k);
            assert forall|a: int| 0 <= a < r.1.len() implies {
                let j = #[trigger] r.1[a];
                &&& 0 <= j < items.len()
                &&& r.0.contains(items[j].key@)
                &&& !gorulen.contains(items[j].key@)
            } by {
                if a < o.1.len() {
                    assert(r.1[a] == o.1[a]);
                    assert(o.0.contains(on[o.1[a]].key@));
                } else {
                    assert(r.1[a] == i);
                }
            }
            assert forall|a: int, b: int| 0 <= a < b < r.1.len() implies {
                &&& #[trigger] r.1[a] < #[trigger] r.1[b]
                &&& items[r.1[a]].key@ != items[r.1[b]].key@
            } by {
                assert(r.1[a] == o.1[a]);
                assert(o.0.contains(on[o.1[a]].key@));
                if b < o.1.len() {
                    assert(r.1[b] == o.1[b]);
                } else {
                    assert(r.1[b] == i);
                }
            }
        }
    }
}

/// Within a round no entry is announced twice and nothing already
/// remembered is announced again; every announced key is remembered after
/// the round (as far as the ring keeps it), and the ring never holds more
/// than `GORULEN_EN_FAZLA` keys.
pub proof fn tekrar_duyurulmaz(items: Seq<BeslemeKaydi>, gorulen: Seq<Seq<char>>, ilk: bool)
    ensures
        halka(tara(items, gorulen, ilk).0).len() <= GORULEN_EN_FAZLA,
        forall|a: int| 0 <= a < tara(items, gorulen, ilk).1.len() ==> {
            let j = #[trigger] tara(items, gorulen, ilk).1[a];
            &&& 0 <= j < items.len()
            &&& !gorulen.contains(items[j].key@)
            &&& tara(items, gorulen, ilk).0.contains(items[j].key@)
        },
        forall|a: int, b: int| 0 <= a < b < tara(items, gorulen, ilk).1.len() ==>
            items[#[trigger] tara(items, gorulen, ilk).1[a]].key@ != items[#[trigger] tara(items, gorulen, ilk).1[b]].key@,
{
    tara_ozellik(items, gorulen, ilk);
}

/// The last `GORULEN_EN_FAZLA` keys.
pub open spec fn halka(g: Seq<Seq<char>>) -> Seq<Seq<char>> {
    if g.len() > GORULEN_EN_FAZLA {
        g.skip(g.len() - GORULEN_EN_FAZLA)
    } else {
        g
    }
}

/// Places as integers.
pub open spec fn yerler(v: Seq<usize>) -> Seq<int> {
    v.map_values(|x: usize| x as int)
}

/// What a round of the feed gives: the keys to remember, the summary count
/// when more fresh entries came than are shown one by one, and the places of
/// the entries to show (the newest ones when there were too many).
pub struct BeslemeSonucu {
    pub gorulen: Vec<String>,
    pub ozet: Option<usize>,
    pub gosterilecek: Vec<usize>,
}

/// Whether `k` is among `g`.
fn gorulmus(g: &Vec<String>, k: &str) -> (b: bool)
    ensures
        b == anahtarlar(g@).contains(k@),
{
    let n = g.len();
    for i in 0..n
        invariant
            n == g@.len(),
            forall|j: int| 0 <= j < i ==> g@[j]@ != k@,
    {
        if metin_esit(g[i].as_str(), k) {
            assert(anahtarlar(g@)[i as int] == k@);
            return true;
        }
    }
    proof {
        if anahtarlar(g@).contains(k@) {
            let j = choose|j: int| 0 <= j < anahtarlar(g@).len() && anahtarlar(g@)[j] == k@;
            assert(g@[j]@ == k@);
        }
    }
    false
}

/// One round of the panel's feed, given the remembered keys and whether this
/// is the first run. `None` when the page sent no entry: then nothing is
/// remembered anew either.
pub fn besleme_isle(items: &[BeslemeKaydi], gorulen: Vec<String>, ilk_calisma: bool) -> (r: Option<BeslemeSonucu>)
    ensures
        items@.len() == 0 <==> r is None,
        r matches Some(s) ==> {
            let g = tara(items@, anahtarlar(gorulen@), ilk_calisma).0;
            let t = tara(items@, anahtarlar(gorulen@), ilk_calisma).1;
            &&& anahtarlar(s.gorulen@) == halka(g)
            &&& t.len() > TOPLU_EN_FAZLA ==> s.ozet == Some(t.len() as usize)
                && yerler(s.gosterilecek@) == t.skip(t.len() - TOPLU_EN_FAZLA)
            &&& t.len() <= TOPLU_EN_FAZLA ==> s.ozet is None && yerler(s.gosterilecek@) == t
        },
{
    let n = items.len();
    if n == 0 {
        return None;
    }
    let ghost ilk_g = anahtarlar(gorulen@);
    let mut g = gorulen;
    let mut t: Vec<usize> = Vec::new();
    for i in 0..n
        invariant
            n == items@.len(),
            anahtarlar(g@) == tara(items@.take(i as int), ilk_g, ilk_calisma).0,
            yerler(t@) == tara(items@.take(i as int), ilk_g, ilk_calisma).1,
            forall|j: int| 0 <= j < t@.len() ==> t@[j] < i,
    {
        let ghost onceki_g = g@;
        let ghost onceki_t = t@;
        proof {
            assert(items@.take(i + 1).drop_last() =~= items@.take(i as int));
            assert(items@.take(i + 1)[i as int] == items@[i as int]);
        }
        let k = &items[i];
        let bos = kirp(&karakterler(k.key.as_str())).len() == 0;
        if bos || gorulmus(&g, k.key.as_str()) {
        } else {
            let yas_asimi = match k.age_s {
                Some(a) => a > ILK_CALISMA_EN_YASLI,
                None => false,
            };
            g.push(k.key.clone());
            proof {
                assert(anahtarlar(g@) =~= anahtarlar(onceki_g).push(k.key@));
            }
            if !(ilk_calisma && yas_asimi) {
                t.push(i);
                proof {
                    assert(yerler(t@) =~= yerler(onceki_t).push(i as int));
                }
            }
        }
    }
    proof {
        assert(items@.take(n as int) =~= items@);
    }
    let gn = g.len();
    let gorulen_son = if gn > GORULEN_EN_FAZLA {
        let mut h: Vec<String> = Vec::new();
        let bas = gn - GORULEN_EN_FAZLA;
        for j in bas..gn
            invariant
                gn == g@.len(),
                bas == gn - GORULEN_EN_FAZLA,
                anahtarlar(h@) == anahtarlar(g@).subrange(bas as int, j as int),
        {
            let ghost onceki = h@;
            h.push(g[j].clone());
            proof {
                assert(anahtarlar(h@) =~= anahtarlar(onceki).push(g@[j as int]@));
                assert(anahtarlar(g@).subrange(bas as int, j + 1) =~= anahtarlar(g@).subrange(bas as int, j as int).push(g@[j as int]@));
            }
        }
        assert(anahtarlar(g@).subrange(bas as int, gn as int) =~= anahtarlar(g@).skip(bas as int));
        h
    } else {
        g
    };
    let tn = t.len();
    if tn > TOPLU_EN_FAZLA {
        let mut s: Vec<usize> = Vec::new();
        let bas = tn - TOPLU_EN_FAZLA;
        for j in bas..tn
            invariant
                tn == t@.len(),
                bas == tn - TOPLU_EN_FAZLA,
                yerler(s@) == yerler(t@).subrange(bas as int, j as int),
        {
            let ghost onceki = s@;
            s.push(t[j]);
            proof {
                assert(yerler(s@) =~= yerler(onceki).push(t@[j as int] as int));
                assert(yerler(t@).subrange(bas as int, j + 1) =~= yerler(t@).subrange(bas as int, j as int).push(t@[j as int] as int));
            }
        }
        assert(yerler(t@).subrange(bas as int, tn as int) =~= yerler(t@).skip(bas as int));
        Some(BeslemeSonucu { gorulen: gorulen_son, ozet: Some(tn), gosterilecek: s })
    } else {
        Some(BeslemeSonucu { gorulen: gorulen_son, ozet: None, gosterilecek: t })
    }
}

/// The title of a notification that the page raised: its own, unless blank.
pub fn bildirim_basligi(title: Option<String>) -> (s: String)
    ensures
        s@ == match title {
            Some(t) => if kirpilmis(t@).len() == 0 {
                UYGULAMA_BASLIGI@
            } else {
                t@
            },
            None => UYGULAMA_BASLIGI@,
        },
{
    match title {
        Some(t) => {
            if kirp(&karakterler(t.as_str())).len() == 0 {
                UYGULAMA_BASLIGI.to_owned()
            } else {
                t
            }
        },
        None => UYGULAMA_BASLIGI.to_owned(),
    }
}

/// The title of a feed entry's notification: its title trimmed, unless blank.
pub fn besleme_basligi(title: &Option<String>) -> (s: String)
    ensures
        s@ == match title {
            Some(t) => if kirpilmis(t@).len() == 0 {
                UYGULAMA_BASLIGI@
            } else {
                kirpilmis(t@)
            },
            None => UYGULAMA_BASLIGI@,
        },
{
    match title {
        Some(t) => {
            let k = kirp(&karakterler(t.as_str()));
            if k.len() == 0 {
                UYGULAMA_BASLIGI.to_owned()
            } else {
                metin_yap(&k)
            }
        },
        None => UYGULAMA_BASLIGI.to_owned(),
    }
}

/// The summary of a burst: `{n} yeni bildirim var.`
pub fn ozet_metni(n: usize) -> (s: String)
    ensures
        s@ == dogal_ondalik(n as nat) + " yeni bildirim var."@,
{
    let mut v = u64_ondalik(n as u64);
    ekle(&mut v, &karakterler(" yeni bildirim var."));
    metin_yap(&v)
}

/// The count on the Dock or taskbar badge: the unread count when positive,
/// otherwise no badge.
pub fn rozet(unread: Option<i64>) -> (r: Option<i64>)
    ensures
        r == match unread {
            Some(n) => if n > 0 {
                Some(n)
            } else {
                None
            },
            None => None,
        },
{
    match unread {
        Some(n) => {
            if n > 0 {
                Some(n)
            } else {
                None
            }
        },
        None => None,
    }
}

} // verus!

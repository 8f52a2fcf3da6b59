//! The keys in memory: the lock key, the private key and the opened vault
//! keys live here and only here. None of them is written to disk, sent to the
//! server or handed to the interface; locking wipes every one of them.

use vstd::prelude::*;
use vstd::std_specs::iter::IteratorSpec;
use std::collections::HashMap;
use std::time::Instant;
use crate::kripto::sifirla;

verus! {

broadcast use vstd::std_specs::hash::group_hash_axioms;

/// Minutes of idleness after which the ring locks itself by default.
pub const VARSAYILAN_KILIT_DK: u64 = 15;

/// Nanoseconds in one second.
pub const SANIYE_NS: u128 = 1_000_000_000;

/// A point of the monotonic clock.
#[verifier::external_type_specification]
#[verifier::external_body]
pub struct SaatAni(Instant);

/// `Instant::now()`. Nothing is claimed: it reads the clock.
#[verifier::external_body]
pub(crate) fn simdi() -> (t: Instant) {
    Instant::now()
}

/// `t.elapsed().as_nanos()`: nanoseconds since `t`. Nothing is claimed: it
/// reads the clock.
#[verifier::external_body]
pub(crate) fn gecen_ns(t: &Instant) -> (n: u128) {
    t.elapsed().as_nanos()
}

/// The key ring.
pub struct Anahtarlik {
    kilit_anahtari: Option<[u8; 32]>,
    ozel_anahtar: Option<[u8; 32]>,
    /// Opened vault keys: each vault's seal is opened once.
    kasa_anahtarlari: HashMap<i64, [u8; 32]>,
    son_kullanim: Option<Instant>,
    /// Idle time after which the ring locks, in nanoseconds; `None` never.
    kilit_suresi: Option<u128>,
}

/// What the ring holds, as values.
pub struct AnahtarlikDurumu {
    pub kilit: Option<[u8; 32]>,
    pub ozel: Option<[u8; 32]>,
    pub kasalar: Map<i64, [u8; 32]>,
    /// The instant of the last use, while the idle clock runs.
    pub son: Option<Instant>,
    pub sure_ns: Option<u128>,
}

impl View for Anahtarlik {
    type V = AnahtarlikDurumu;

    closed spec fn view(&self) -> AnahtarlikDurumu {
        AnahtarlikDurumu {
            kilit: self.kilit_anahtari,
            ozel: self.ozel_anahtar,
            kasalar: self.kasa_anahtarlari@,
            son: self.son_kullanim,
            sure_ns: self.kilit_suresi,
        }
    }
}

/// The idle time of `dk` minutes, in nanoseconds; 0 minutes is never.
pub open spec fn dakika_suresi(dk: u64) -> Option<u128> {
    if dk == 0 {
        None
    } else {
        Some((dk * 60 * 1_000_000_000) as u128)
    }
}

/// The locked ring with idle time `sure`: no key at all, no clock.
pub open spec fn kilitli(sure: Option<u128>) -> AnahtarlikDurumu {
    AnahtarlikDurumu {
        kilit: None,
        ozel: None,
        kasalar: Map::empty(),
        son: None,
        sure_ns: sure,
    }
}

/// Whether `gecen` nanoseconds of idleness have used up the idle time.
pub open spec fn sure_doldu(d: AnahtarlikDurumu, gecen: u128) -> bool {
    d.son is Some && d.sure_ns is Some && gecen >= d.sure_ns->0
}

/// The seconds left before the ring locks, after `gecen` idle nanoseconds.
pub open spec fn kalan(sure: u128, gecen: u128) -> int {
    if gecen >= sure {
        0
    } else {
        (sure - gecen) / (SANIYE_NS as int)
    }
}

impl AnahtarlikDurumu {
    /// The ring's invariant: the lock key, the private key and the idle clock
    /// are there together or not at all, and a locked ring holds no vault key.
    pub open spec fn iyi(self) -> bool {
        &&& (self.ozel is None <==> self.kilit is None)
        &&& (self.ozel is None <==> self.son is None)
        &&& (self.ozel is None ==> self.kasalar == Map::<i64, [u8; 32]>::empty())
        &&& (self.sure_ns matches Some(n) ==> n <= u64::MAX * SANIYE_NS)
    }

    /// Whether the ring is unlocked.
    pub open spec fn acik(self) -> bool {
        self.ozel is Some
    }

    /// The same ring with the idle clock restarted at instant `an`.
    pub open spec fn dokunulmus(self, an: Instant) -> AnahtarlikDurumu {
        AnahtarlikDurumu { son: Some(an), ..self }
    }

    /// Whether the ring is open and `gecen` idle nanoseconds leave it open.
    pub open spec fn acik_kalir(self, gecen: u128) -> bool {
        self.acik() && !sure_doldu(self, gecen)
    }
}

fn dakikadan(dk: u64) -> (s: Option<u128>)
    requires
        dk * 60 <= u64::MAX,
    ensures
        s == dakika_suresi(dk),
{
    if dk == 0 {
        None
    } else {
        let sn: u64 = dk * 60;
        Some((sn as u128) * SANIYE_NS)
    }
}

impl Anahtarlik {
    /// A locked ring that locks itself after `kilit_dk` idle minutes (0 = never).
    pub fn yeni(kilit_dk: u64) -> (a: Self)
        requires
            kilit_dk * 60 <= u64::MAX,
        ensures
            a@ == kilitli(dakika_suresi(kilit_dk)),
            a@.iyi(),
    {
        Anahtarlik {
            kilit_anahtari: None,
            ozel_anahtar: None,
            kasa_anahtarlari: HashMap::new(),
            son_kullanim: None,
            kilit_suresi: dakikadan(kilit_dk),
        }
    }

    /// Unlocks: the lock key and the private key are taken into memory, and
    /// vault keys of an earlier session are dropped.
    pub fn ac(&mut self, kilit: [u8; 32], ozel: [u8; 32])
        requires
            old(self)@.iyi(),
        ensures
            final(self)@.son is Some,
            final(self)@ == (AnahtarlikDurumu {
                kilit: Some(kilit),
                ozel: Some(ozel),
                kasalar: Map::empty(),
                son: final(self)@.son,
                sure_ns: old(self)@.sure_ns,
            }),
            final(self)@.iyi(),
    {
        self.kilit_anahtari = Some(kilit);
        self.ozel_anahtar = Some(ozel);
        self.kasa_anahtarlari.clear();
        self.son_kullanim = Some(simdi());
    }

    /// LOCKS: every key is wiped, not only let go.
    pub fn kilitle(&mut self)
        ensures
            final(self)@ == kilitli(old(self)@.sure_ns),
            old(self)@.iyi() ==> final(self)@.iyi(),
    {
        if let Some(mut k) = self.kilit_anahtari.take() {
            sifirla(&mut k);
        }
        if let Some(mut o) = self.ozel_anahtar.take() {
            sifirla(&mut o);
        }
        let mut anahtarlar: Vec<i64> = Vec::new();
        let ghost hepsi = vstd::std_specs::hash::spec_keys_iter(&self.kasa_anahtarlari).remaining().unref();
        assert(hepsi.to_set() == self.kasa_anahtarlari@.dom());
        for k in it: self.kasa_anahtarlari.keys()
            invariant
                it.seq().unref() == hepsi,
                anahtarlar@.len() == it.index(),
                anahtarlar@ == hepsi.take(it.index() as int),
        {
            anahtarlar.push(*k);
            assert(anahtarlar@ =~= hepsi.take(it.index() + 1));
        }
        assert(anahtarlar@ =~= hepsi);
        assert(anahtarlar@.to_set() =~= self.kasa_anahtarlari@.dom());
        let n = anahtarlar.len();
        for i in 0..n
            invariant
                n == anahtarlar@.len(),
                self.kilit_anahtari is None,
                self.ozel_anahtar is None,
                self.kilit_suresi == old(self).kilit_suresi,
                self.kasa_anahtarlari@.dom() == anahtarlar@.to_set().difference(
                    anahtarlar@.take(i as int).to_set(),
                ),
        {
            let k = anahtarlar[i];
            if let Some(mut v) = self.kasa_anahtarlari.remove(&k) {
                sifirla(&mut v);
            }
            assert(anahtarlar@.take(i + 1) =~= anahtarlar@.take(i as int).push(k));
            proof {
                anahtarlar@.take(i as int).lemma_push_to_set_commute(k);
            }
            assert(self.kasa_anahtarlari@.dom() =~= anahtarlar@.to_set().difference(
                anahtarlar@.take(i + 1).to_set(),
            ));
        }
        assert(anahtarlar@.take(n as int) =~= anahtarlar@);
        assert(self.kasa_anahtarlari@.dom() =~= Set::<i64>::empty());
        assert(self.kasa_anahtarlari@ =~= Map::<i64, [u8; 32]>::empty());
        self.son_kullanim = None;
    }

    /// Whether the ring is open after `gecen` nanoseconds of idleness. If the
    /// idle time is used up, the ring locks HERE: a time limit checked later
    /// is no time limit.
    pub fn acik_mi_gecen(&mut self, gecen: u128) -> (b: bool)
        requires
            old(self)@.iyi(),
        ensures
            b == (old(self)@.acik() && !sure_doldu(old(self)@, gecen)),
            b ==> final(self)@ == old(self)@,
            !b ==> final(self)@ == kilitli(old(self)@.sure_ns),
    {
        if self.ozel_anahtar.is_none() {
            assert(self@ =~= kilitli(self@.sure_ns));
            return false;
        }
        if let Some(sure) = self.kilit_suresi {
            if self.son_kullanim.is_some() && gecen >= sure {
                self.kilitle();
                return false;
            }
        }
        true
    }

    /// Whether the ring is open, reading the clock. A locked ring stays
    /// locked; an open ring without idle limit stays open.
    pub fn acik_mi(&mut self) -> (b: bool)
        requires
            old(self)@.iyi(),
        ensures
            b ==> old(self)@.acik() && final(self)@ == old(self)@,
            !b ==> final(self)@ == kilitli(old(self)@.sure_ns),
            old(self)@.acik() && old(self)@.sure_ns is None ==> b,
    {
        let gecen = self.bosta_gecen();
        self.acik_mi_gecen(gecen)
    }

    /// Seconds left before the ring locks, after `gecen` idle nanoseconds;
    /// `None` when no idle limit runs.
    pub fn kalan_sn_gecen(&self, gecen: u128) -> (r: Option<u64>)
        requires
            self@.iyi(),
        ensures
            r is Some <==> self@.sure_ns is Some && self@.son is Some,
            r matches Some(s) ==> s == kalan(self@.sure_ns->0, gecen),
    {
        let sure = match self.kilit_suresi {
            Some(s) => s,
            None => return None,
        };
        if self.son_kullanim.is_none() {
            return None;
        }
        let kalan_ns: u128 = if gecen >= sure { 0 } else { sure - gecen };
        let sn: u128 = kalan_ns / SANIYE_NS;
        assert(sn <= u64::MAX) by (nonlinear_arith)
            requires
                kalan_ns <= u64::MAX * SANIYE_NS,
                sn == kalan_ns / SANIYE_NS,
        ;
        Some(sn as u64)
    }

    /// Seconds left before the ring locks, for the countdown on screen.
    pub fn kalan_sn(&self) -> (r: Option<u64>)
        requires
            self@.iyi(),
        ensures
            r is Some <==> self@.sure_ns is Some && self@.son is Some,
            r matches Some(s) ==> s <= self@.sure_ns->0 / SANIYE_NS,
    {
        let gecen = self.bosta_gecen();
        self.kalan_sn_gecen(gecen)
    }

    /// Nanoseconds since the last use, read from the clock; 0 when no idle
    /// clock runs.
    fn bosta_gecen(&self) -> (n: u128)
        ensures
            self.son_kullanim is None ==> n == 0,
    {
        match &self.son_kullanim {
            Some(son) => gecen_ns(son),
            None => 0,
        }
    }

    /// The private key after `gecen` idle nanoseconds, used at instant `an`.
    /// While the ring stays open the key comes back and the use restarts the
    /// idle clock at `an`, so the ring does not lock mid-work; otherwise the
    /// ring is (or becomes) locked and nothing comes back.
    pub fn ozel_gecen(&mut self, gecen: u128, an: Instant) -> (r: Option<[u8; 32]>)
        requires
            old(self)@.iyi(),
        ensures
            final(self)@.iyi(),
            old(self)@.acik_kalir(gecen) ==> r == old(self)@.ozel && final(self)@ == old(self)@.dokunulmus(an),
            !old(self)@.acik_kalir(gecen) ==> r is None && final(self)@ == kilitli(old(self)@.sure_ns),
    {
        if !self.acik_mi_gecen(gecen) {
            return None;
        }
        self.son_kullanim = Some(an);
        self.ozel_anahtar
    }

    /// The private key, if the ring is open, reading the clock; the use
    /// restarts the idle clock.
    pub fn ozel(&mut self) -> (r: Option<[u8; 32]>)
        requires
            old(self)@.iyi(),
        ensures
            final(self)@.iyi(),
            !old(self)@.acik() ==> r is None && final(self)@ == old(self)@,
            old(self)@.acik() && old(self)@.sure_ns is None ==> r == old(self)@.ozel,
            r is Some ==> r == old(self)@.ozel && final(self)@.son is Some && final(self)@ == old(self)@.dokunulmus(final(self)@.son->0),
            r is None ==> final(self)@ == kilitli(old(self)@.sure_ns),
    {
        let gecen = self.bosta_gecen();
        let an = simdi();
        self.ozel_gecen(gecen, an)
    }

    /// The lock key after `gecen` idle nanoseconds, used at instant `an`;
    /// as `ozel_gecen`.
    pub fn kilit_gecen(&mut self, gecen: u128, an: Instant) -> (r: Option<[u8; 32]>)
        requires
            old(self)@.iyi(),
        ensures
            final(self)@.iyi(),
            old(self)@.acik_kalir(gecen) ==> r == old(self)@.kilit && final(self)@ == old(self)@.dokunulmus(an),
            !old(self)@.acik_kalir(gecen) ==> r is None && final(self)@ == kilitli(old(self)@.sure_ns),
    {
        if !self.acik_mi_gecen(gecen) {
            return None;
        }
        self.son_kullanim = Some(an);
        self.kilit_anahtari
    }

    /// The lock key, if the ring is open, reading the clock; the use
    /// restarts the idle clock.
    pub fn kilit(&mut self) -> (r: Option<[u8; 32]>)
        requires
            old(self)@.iyi(),
        ensures
            final(self)@.iyi(),
            !old(self)@.acik() ==> r is None && final(self)@ == old(self)@,
            old(self)@.acik() && old(self)@.sure_ns is None ==> r == old(self)@.kilit,
            r is Some ==> r == old(self)@.kilit && final(self)@.son is Some && final(self)@ == old(self)@.dokunulmus(final(self)@.son->0),
            r is None ==> final(self)@ == kilitli(old(self)@.sure_ns),
    {
        let gecen = self.bosta_gecen();
        let an = simdi();
        self.kilit_gecen(gecen, an)
    }

    /// Keeps an opened vault key after `gecen` idle nanoseconds, at instant
    /// `an`: while the ring stays open the key is stored (replacing an
    /// earlier one of that vault) and the idle clock restarts at `an`;
    /// otherwise nothing is stored and the ring is (or becomes) locked.
    pub fn kasa_koy_gecen(&mut self, kasa: i64, anahtar: [u8; 32], gecen: u128, an: Instant)
        requires
            old(self)@.iyi(),
        ensures
            final(self)@.iyi(),
            old(self)@.acik_kalir(gecen) ==> final(self)@ == (AnahtarlikDurumu {
                kasalar: old(self)@.kasalar.insert(kasa, anahtar),
                son: Some(an),
                ..old(self)@
            }),
            !old(self)@.acik_kalir(gecen) ==> final(self)@ == kilitli(old(self)@.sure_ns),
    {
        if self.acik_mi_gecen(gecen) {
            self.kasa_anahtarlari.insert(kasa, anahtar);
            self.son_kullanim = Some(an);
        }
    }

    /// Keeps an opened vault key, if the ring is open, reading the clock.
    pub fn kasa_koy(&mut self, kasa: i64, anahtar: [u8; 32])
        requires
            old(self)@.iyi(),
        ensures
            final(self)@.iyi(),
            !old(self)@.acik() ==> final(self)@ == old(self)@,
            old(self)@.acik() && old(self)@.sure_ns is None ==> final(self)@.acik(),
            final(self)@.acik() ==> final(self)@.son is Some && final(self)@ == (AnahtarlikDurumu {
                kasalar: old(self)@.kasalar.insert(kasa, anahtar),
                son: final(self)@.son,
                ..old(self)@
            }),
            !final(self)@.acik() ==> final(self)@ == kilitli(old(self)@.sure_ns),
    {
        let gecen = self.bosta_gecen();
        let an = simdi();
        self.kasa_koy_gecen(kasa, anahtar, gecen, an)
    }

    /// The opened key of a vault after `gecen` idle nanoseconds, used at
    /// instant `an`: while the ring stays open, the kept key of that vault
    /// (if any) comes back and the idle clock restarts at `an`; otherwise the
    /// ring is (or becomes) locked and nothing comes back.
    pub fn kasa_al_gecen(&mut self, kasa: i64, gecen: u128, an: Instant) -> (r: Option<[u8; 32]>)
        requires
            old(self)@.iyi(),
        ensures
            final(self)@.iyi(),
            old(self)@.acik_kalir(gecen) ==> final(self)@ == old(self)@.dokunulmus(an) && r == (if old(self)@.kasalar.contains_key(kasa) {
                Some(old(self)@.kasalar[kasa])
            } else {
                None
            }),
            !old(self)@.acik_kalir(gecen) ==> r is None && final(self)@ == kilitli(old(self)@.sure_ns),
    {
        if !self.acik_mi_gecen(gecen) {
            return None;
        }
        self.son_kullanim = Some(an);
        match self.kasa_anahtarlari.get(&kasa) {
            Some(v) => Some(*v),
            None => None,
        }
    }

    /// The opened key of a vault, if the ring is open and holds one, reading
    /// the clock; the use restarts the idle clock.
    pub fn kasa_al(&mut self, kasa: i64) -> (r: Option<[u8; 32]>)
        requires
            old(self)@.iyi(),
        ensures
            final(self)@.iyi(),
            !old(self)@.acik() ==> r is None && final(self)@ == old(self)@,
            old(self)@.acik() && old(self)@.sure_ns is None ==> final(self)@.acik(),
            final(self)@.acik() ==> final(self)@.son is Some && final(self)@ == old(self)@.dokunulmus(final(self)@.son->0)
                && r == (if old(self)@.kasalar.contains_key(kasa) {
                Some(old(self)@.kasalar[kasa])
            } else {
                None
            }),
            !final(self)@.acik() ==> r is None && final(self)@ == kilitli(old(self)@.sure_ns),
    {
        let gecen = self.bosta_gecen();
        let an = simdi();
        self.kasa_al_gecen(kasa, gecen, an)
    }

    /// Drops and wipes the kept key of a vault: when we leave the vault or
    /// its key is rotated.
    pub fn kasa_dusur(&mut self, kasa: i64)
        requires
            old(self)@.iyi(),
        ensures
            final(self)@.iyi(),
            final(self)@ == (AnahtarlikDurumu { kasalar: old(self)@.kasalar.remove(kasa), ..old(self)@ }),
    {
        if let Some(mut v) = self.kasa_anahtarlari.remove(&kasa) {
            sifirla(&mut v);
        }
        proof {
            if self@.ozel is None {
                assert(self@.kasalar =~= Map::<i64, [u8; 32]>::empty());
            }
        }
    }

    /// Sets the idle time to `dk` minutes (0 = never).
    pub fn kilit_suresini_ayarla(&mut self, dk: u64)
        requires
            dk * 60 <= u64::MAX,
        ensures
            final(self)@ == (AnahtarlikDurumu { sure_ns: dakika_suresi(dk), ..old(self)@ }),
            old(self)@.iyi() ==> final(self)@.iyi(),
    {
        self.kilit_suresi = dakikadan(dk);
    }
}

/// A locked ring gives nothing back, whatever is asked of it, and stays locked.
pub proof fn kilitli_anahtarlik_bos(d: AnahtarlikDurumu, sure: Option<u128>)
    requires
        d == kilitli(sure),
        sure matches Some(n) ==> n <= u64::MAX * SANIYE_NS,
    ensures
        d.iyi(),
        !d.acik(),
        d.kilit is None && d.ozel is None,
        forall|kasa: i64| !d.kasalar.contains_key(kasa),
{
}

/// The countdown never goes up as idle time passes.
pub proof fn kalan_azalir(sure: u128, g1: u128, g2: u128)
    requires
        g1 <= g2,
    ensures
        kalan(sure, g2) <= kalan(sure, g1),
        0 <= kalan(sure, g2),
{
    if g2 < sure {
        assert((sure - g2) / (SANIYE_NS as int) <= (sure - g1) / (SANIYE_NS as int)) by (nonlinear_arith)
            requires
                sure - g2 <= sure - g1,
                sure - g2 >= 0,
        ;
    }
}

} // verus!

//! User preferences: the auto-lock time, the clipboard wipe time and the
//! fill behaviour, always held within sane bounds.

use vstd::prelude::*;

verus! {

/// The preferences. A value the user cannot change is no preference but an
/// assumption, so these live in a file the user owns.
#[derive(Debug, Clone, Copy, PartialEq, Eq, Structural)]
pub struct Ayar {
    /// Minutes after which the vault locks itself. 0 = never.
    pub otomatik_kilit_dk: u64,
    /// Seconds after which a copied password is wiped. 0 = never.
    pub pano_temizleme_sn: u64,
    /// Whether Enter is pressed after filling.
    pub doldurunca_enter: bool,
    /// Whether the panel comes up by itself on a match.
    pub panel_kendiliginden: bool,
    /// Minutes during which the panel keeps quiet on a site just filled.
    pub sessizlik_dk: u64,
}

/// The defaults: lock after 15 minutes, wipe the clipboard after 30
/// seconds, press Enter, bring the panel up, keep quiet for 20 minutes.
pub open spec fn varsayilan_ayar() -> Ayar {
    Ayar {
        otomatik_kilit_dk: 15,
        pano_temizleme_sn: 30,
        doldurunca_enter: true,
        panel_kendiliginden: true,
        sessizlik_dk: 20,
    }
}

impl Default for Ayar {
    fn default() -> (a: Self)
        ensures
            a == varsayilan_ayar(),
    {
        Ayar {
            otomatik_kilit_dk: 15,
            pano_temizleme_sn: 30,
            doldurunca_enter: true,
            panel_kendiliginden: true,
            sessizlik_dk: 20,
        }
    }
}

/// Longest auto-lock time: 8 hours.
pub const EN_FAZLA_KILIT_DK: u64 = 480;

/// Longest clipboard wipe time: 5 minutes.
pub const EN_FAZLA_PANO_SN: u64 = 300;

/// Shortest clipboard wipe time, when there is one: nobody pastes within a second.
pub const EN_AZ_PANO_SN: u64 = 5;

/// Longest quiet time after a fill.
pub const EN_FAZLA_SESSIZLIK_DK: u64 = 240;

/// `a` after clamping: each time cut to its maximum, and a clipboard wipe
/// time that is on raised to at least 5 seconds.
pub open spec fn duzeltilmis(a: Ayar) -> Ayar {
    Ayar {
        otomatik_kilit_dk: if a.otomatik_kilit_dk > EN_FAZLA_KILIT_DK {
            EN_FAZLA_KILIT_DK
        } else {
            a.otomatik_kilit_dk
        },
        pano_temizleme_sn: if a.pano_temizleme_sn > EN_FAZLA_PANO_SN {
            EN_FAZLA_PANO_SN
        } else if a.pano_temizleme_sn != 0 && a.pano_temizleme_sn < EN_AZ_PANO_SN {
            EN_AZ_PANO_SN
        } else {
            a.pano_temizleme_sn
        },
        sessizlik_dk: if a.sessizlik_dk > EN_FAZLA_SESSIZLIK_DK {
            EN_FAZLA_SESSIZLIK_DK
        } else {
            a.sessizlik_dk
        },
        ..a
    }
}

/// Whether every value of `a` is within its bounds.
pub open spec fn sinirlarda(a: Ayar) -> bool {
    &&& a.otomatik_kilit_dk <= EN_FAZLA_KILIT_DK
    &&& a.pano_temizleme_sn <= EN_FAZLA_PANO_SN
    &&& (a.pano_temizleme_sn == 0 || a.pano_temizleme_sn >= EN_AZ_PANO_SN)
    &&& a.sessizlik_dk <= EN_FAZLA_SESSIZLIK_DK
}

impl Ayar {
    /// Pulls the values within bounds. A value from the interface is not
    /// trusted: a wipe time of 9999 seconds leaves a password on the
    /// clipboard for hours. Zero stays zero: it means off.
    pub fn duzelt(self) -> (a: Self)
        ensures
            a == duzeltilmis(self),
            sinirlarda(a),
    {
        let mut a = self;
        if a.otomatik_kilit_dk > EN_FAZLA_KILIT_DK {
            a.otomatik_kilit_dk = EN_FAZLA_KILIT_DK;
        }
        if a.pano_temizleme_sn > EN_FAZLA_PANO_SN {
            a.pano_temizleme_sn = EN_FAZLA_PANO_SN;
        }
        if a.pano_temizleme_sn != 0 && a.pano_temizleme_sn < EN_AZ_PANO_SN {
            a.pano_temizleme_sn = EN_AZ_PANO_SN;
        }
        if a.sessizlik_dk > EN_FAZLA_SESSIZLIK_DK {
            a.sessizlik_dk = EN_FAZLA_SESSIZLIK_DK;
        }
        a
    }
}

/// The preferences that reading gives: a file that did not parse falls back
/// to the defaults, a parsed one is clamped. A broken preference file must
/// never keep the program from starting.
pub fn okunan_ayar(okunan: Option<Ayar>) -> (a: Ayar)
    ensures
        okunan matches Some(o) ==> a == duzeltilmis(o),
        okunan is None ==> a == varsayilan_ayar(),
        sinirlarda(a),
{
    match okunan {
        Some(o) => o.duzelt(),
        None => Ayar::default(),
    }
}

/// Clamping changes nothing within bounds, so it is idempotent, and it keeps
/// every value that is already within bounds.
pub proof fn duzeltme_sabit(a: Ayar)
    ensures
        sinirlarda(a) ==> duzeltilmis(a) == a,
        duzeltilmis(duzeltilmis(a)) == duzeltilmis(a),
        sinirlarda(duzeltilmis(a)),
{
}

/// The defaults are within bounds.
pub proof fn varsayilan_sinirlarda()
    ensures
        sinirlarda(varsayilan_ayar()),
{
}

} // verus!

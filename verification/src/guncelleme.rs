//! The state of the self-update, as the interface sees it.

use vstd::prelude::*;

verus! {

/// Whether an update waits, its version, and whether it must be installed
/// by hand (the automatic install failed).
#[derive(Debug, Clone, PartialEq, Eq)]
pub struct Durum {
    pub var: bool,
    pub surum: Option<String>,
    pub elle: bool,
}

/// The state when no update waits.
pub fn bos() -> (d: Durum)
    ensures
        !d.var && d.surum is None && !d.elle,
{
    Durum { var: false, surum: None, elle: false }
}

/// The state when version `surum` was fetched and waits; `elle` when it
/// must be installed from the download page.
pub fn bekleyen(surum: String, elle: bool) -> (d: Durum)
    ensures
        d.var && d.surum == Some(surum) && d.elle == elle,
{
    Durum { var: true, surum: Some(surum), elle }
}

/// Whether the interface hears of a check's result: when an update waits,
/// or when the user asked.
pub fn bildirilir(d: &Durum, elle_istendi: bool) -> (b: bool)
    ensures
        b == (d.var || elle_istendi),
{
    d.var || elle_istendi
}

/// The start of a check: a fetched update that waits is reported again
/// without asking the server; a check already running answers "nothing";
/// otherwise `None`, and the check goes on.
pub fn denetim_baslangici(bekleyen_surum: Option<String>, elle: bool, suruyor: bool) -> (r: Option<Durum>)
    ensures
        bekleyen_surum is Some ==> r == Some((Durum { var: true, surum: bekleyen_surum, elle })),
        bekleyen_surum is None && suruyor ==> r == Some((Durum { var: false, surum: None, elle: false })),
        bekleyen_surum is None && !suruyor ==> r is None,
{
    match bekleyen_surum {
        Some(v) => Some(bekleyen(v, elle)),
        None => {
            if suruyor {
                Some(bos())
            } else {
                None
            }
        },
    }
}

/// After version `surum` was downloaded: on Windows it waits for the user's
/// approval to install; elsewhere it was installed now, and a failed install
/// leaves only the download page. The state and whether installing by hand
/// is required from now on (`elle_onceden` is what was required before).
pub fn indirme_sonrasi(surum: String, windows: bool, kuruldu: bool, elle_onceden: bool) -> (r: (Durum, bool))
    ensures
        r.1 == (elle_onceden || (!windows && !kuruldu)),
        r.0 == (Durum { var: true, surum: Some(surum), elle: r.1 }),
{
    let elle = elle_onceden || (!windows && !kuruldu);
    (bekleyen(surum, elle), elle)
}

} // verus!

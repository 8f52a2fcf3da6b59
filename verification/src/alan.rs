//! What the focused field is. Filling types into whatever has the keyboard
//! focus; on a page whose address matched, a focused search box would have
//! received the password. The role and value of the focused element (read
//! through the macOS accessibility interface) decide whether it may be filled.

use vstd::prelude::*;
use crate::metin::{karakterler, metin_yap, ekle, metin_esit, kirp, kirpilmis};

verus! {

/// Whether the focused field may be filled.
#[derive(PartialEq, Debug)]
pub enum Uygun {
    /// A text or password field, EMPTY: safe to write.
    Bos,
    /// A text or password field that holds data: writing over it loses data.
    Dolu,
    /// Not a text field (button, link, page body, list…), with its role.
    AlanDegil(String),
    /// Could not be told (no permission, platform without support).
    Bilinmiyor,
}

/// The role of a password field on macOS: the surest sign of a login form.
pub const PAROLA_ROLU: &'static str = "AXSecureTextField";

/// The roles that take text.
pub open spec fn yazilabilir(rol: Seq<char>) -> bool {
    ||| rol == "AXTextField"@
    ||| rol == PAROLA_ROLU@
    ||| rol == "AXTextArea"@
    ||| rol == "AXComboBox"@
}

/// The verdict on a focused element with role `rol` and value `deger`.
pub open spec fn uygunluk(rol: Seq<char>, deger: Option<Seq<char>>) -> UygunTuru {
    if !yazilabilir(rol) {
        UygunTuru::AlanDegil(if rol.len() == 0 {
            "bilinmeyen"@
        } else {
            rol
        })
    } else if deger matches Some(d) && kirpilmis(d).len() > 0 {
        UygunTuru::Dolu
    } else {
        UygunTuru::Bos
    }
}

/// A verdict, with the role by its characters.
pub enum UygunTuru {
    Bos,
    Dolu,
    AlanDegil(Seq<char>),
    Bilinmiyor,
}

impl View for Uygun {
    type V = UygunTuru;

    open spec fn view(&self) -> UygunTuru {
        match self {
            Uygun::Bos => UygunTuru::Bos,
            Uygun::Dolu => UygunTuru::Dolu,
            Uygun::AlanDegil(r) => UygunTuru::AlanDegil(r@),
            Uygun::Bilinmiyor => UygunTuru::Bilinmiyor,
        }
    }
}

/// The focused element as it was read: its role and, when it gave one, its
/// value. `None` when nothing could be read.
pub type Odak = Option<(String, Option<String>)>;

/// The role of the focused element.
pub fn odakli_rol(odak: &Odak) -> (r: Option<String>)
    ensures
        match odak {
            Some((rol, _)) => r is Some && r->0@ == rol@,
            None => r is None,
        },
{
    match odak {
        Some((rol, _)) => Some(rol.clone()),
        None => None,
    }
}

/// Whether the focused element is a PASSWORD field.
pub fn parola_alani_mi(odak: &Odak) -> (b: bool)
    ensures
        b == (odak matches Some((rol, _)) && rol@ == PAROLA_ROLU@),
{
    match odak {
        Some((rol, _)) => metin_esit(rol.as_str(), PAROLA_ROLU),
        None => false,
    }
}

/// Whether the focused element may be filled. A password field gives no
/// value: counting it empty is right, writing there is the point.
pub fn odakli_alan(odak: Odak) -> (u: Uygun)
    ensures
        match odak {
            None => u@ == UygunTuru::Bilinmiyor,
            Some((rol, deger)) => u@ == uygunluk(rol@, match deger {
                Some(d) => Some(d@),
                None => None,
            }),
        },
{
    let (rol, deger) = match odak {
        Some(o) => o,
        None => return Uygun::Bilinmiyor,
    };
    let yazilir = metin_esit(rol.as_str(), "AXTextField") || metin_esit(rol.as_str(), PAROLA_ROLU)
        || metin_esit(rol.as_str(), "AXTextArea") || metin_esit(rol.as_str(), "AXComboBox");
    if !yazilir {
        if rol.as_str().is_empty() {
            return Uygun::AlanDegil("bilinmeyen".to_owned());
        }
        return Uygun::AlanDegil(rol);
    }
    match deger {
        Some(d) => {
            let k = kirp(&karakterler(d.as_str()));
            if k.len() > 0 {
                Uygun::Dolu
            } else {
                Uygun::Bos
            }
        },
        None => Uygun::Bos,
    }
}

/// The message for the user.
pub open spec fn aciklama_metni(u: UygunTuru) -> Seq<char> {
    match u {
        UygunTuru::Bos => Seq::empty(),
        UygunTuru::Dolu => "Odaktaki alanda zaten veri var — üstüne yazmadım. Alanı temizleyip tekrar deneyin."@,
        UygunTuru::AlanDegil(rol) => "Odakta bir metin alanı yok ("@ + rol
            + "). Doldurulacak kullanıcı adı alanına tıklayıp tekrar deneyin."@,
        UygunTuru::Bilinmiyor => Seq::empty(),
    }
}

/// The message for the user: empty when the field may be filled or could
/// not be told.
pub fn aciklama(u: &Uygun) -> (s: String)
    ensures
        s@ == aciklama_metni(u@),
{
    match u {
        Uygun::Bos => String::new(),
        Uygun::Dolu => "Odaktaki alanda zaten veri var — üstüne yazmadım. Alanı temizleyip tekrar deneyin.".to_owned(),
        Uygun::AlanDegil(rol) => {
            let mut v = karakterler("Odakta bir metin alanı yok (");
            ekle(&mut v, &karakterler(rol.as_str()));
            ekle(&mut v, &karakterler("). Doldurulacak kullanıcı adı alanına tıklayıp tekrar deneyin."));
            metin_yap(&v)
        },
        Uygun::Bilinmiyor => String::new(),
    }
}

/// The four roles that take text (plain, secure, multi-line and combo-box
/// fields) are text fields: with no value or a blank one the verdict is
/// `Bos`, with a value that is not blank `Dolu`. Every other role is refused
/// as not a text field, naming the role.
pub proof fn metin_alani_rolleri(rol: Seq<char>, deger: Option<Seq<char>>)
    ensures
        rol == "AXTextField"@ || rol == "AXSecureTextField"@ || rol == "AXTextArea"@ || rol == "AXComboBox"@
            ==> uygunluk(rol, deger) == (if deger matches Some(d) && kirpilmis(d).len() > 0 {
                UygunTuru::Dolu
            } else {
                UygunTuru::Bos
            }),
        !(rol == "AXTextField"@ || rol == "AXSecureTextField"@ || rol == "AXTextArea"@ || rol == "AXComboBox"@)
            ==> uygunluk(rol, deger) is AlanDegil,
{
}

} // verus!

//! Bogahost native shells and the Kasa password vault: the logic of the
//! desktop programs, with its contracts.

pub mod metin;
pub mod surum;
pub mod kripto;
pub mod zarf;
pub mod anahtarlik;
pub mod ayarlar;
pub mod kasa;
pub mod adres;
pub mod alan;
pub mod pencere;
pub mod politika;
pub mod kopru;
pub mod doldurma;
pub mod gorev;
pub mod guncelleme;
pub mod bildirim;
pub mod kabuk;

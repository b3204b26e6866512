//! Character-level settings: fonts, underline, page codes and
//! international character sets, with their wire ordinals.

use vstd::prelude::*;

verus! {

/// Underline mode.
#[derive(Debug, Clone, Copy, PartialEq, Eq, Structural)]
pub enum UnderlineMode {
    Off,
    Single,
    Double,
}

impl Default for UnderlineMode {
    fn default() -> (r: Self)
        ensures
            r == UnderlineMode::Off,
    {
        UnderlineMode::Off
    }
}

/// Text font.
#[derive(Debug, Clone, Copy, PartialEq, Eq, Structural)]
pub enum Font {
    A,
    B,
    C,
}

impl Default for Font {
    fn default() -> (r: Self)
        ensures
            r == Font::A,
    {
        Font::A
    }
}

/// Character page code selectable on the device.
#[derive(Debug, Clone, Copy, PartialEq, Eq, Structural)]
#[allow(non_camel_case_types)]
pub enum PageCode {
    PC437,
    Katakana,
    PC850,
    PC860,
    PC863,
    PC865,
    Hiragana,
    PC851,
    PC853,
    PC857,
    PC737,
    ISO8859_7,
    WPC1252,
    PC866,
    PC852,
    PC858,
    PC720,
    WPC775,
    PC855,
    PC861,
    PC862,
    PC864,
    PC869,
    ISO8859_2,
    ISO8859_15,
    PC1098,
    PC1118,
    PC1119,
    PC1125,
    WPC1250,
    WPC1251,
    WPC1253,
    WPC1254,
    WPC1255,
    WPC1256,
    WPC1257,
    WPC1258,
    KZ1048,
}

impl Default for PageCode {
    fn default() -> (r: Self)
        ensures
            r == PageCode::PC437,
    {
        PageCode::PC437
    }
}

/// The wire ordinal of each page code.
pub open spec fn page_code_ordinal(code: PageCode) -> u8 {
    match code {
        PageCode::PC437 => 0,
        PageCode::Katakana => 1,
        PageCode::PC850 => 2,
        PageCode::PC860 => 3,
        PageCode::PC863 => 4,
        PageCode::PC865 => 5,
        PageCode::Hiragana => 6,
        PageCode::PC851 => 11,
        PageCode::PC853 => 12,
        PageCode::PC857 => 13,
        PageCode::PC737 => 14,
        PageCode::ISO8859_7 => 15,
        PageCode::WPC1252 => 16,
        PageCode::PC866 => 17,
        PageCode::PC852 => 18,
        PageCode::PC858 => 19,
        PageCode::PC720 => 32,
        PageCode::WPC775 => 33,
        PageCode::PC855 => 34,
        PageCode::PC861 => 35,
        PageCode::PC862 => 36,
        PageCode::PC864 => 37,
        PageCode::PC869 => 38,
        PageCode::ISO8859_2 => 39,
        PageCode::ISO8859_15 => 40,
        PageCode::PC1098 => 41,
        PageCode::PC1118 => 42,
        PageCode::PC1119 => 43,
        PageCode::PC1125 => 44,
        PageCode::WPC1250 => 45,
        PageCode::WPC1251 => 46,
        PageCode::WPC1253 => 47,
        PageCode::WPC1254 => 48,
        PageCode::WPC1255 => 49,
        PageCode::WPC1256 => 50,
        PageCode::WPC1257 => 51,
        PageCode::WPC1258 => 52,
        PageCode::KZ1048 => 53,
    }
}

impl PageCode {
    /// The single byte that selects this page code on the device.
    pub fn to_u8(self) -> (r: u8)
        ensures
            r == page_code_ordinal(self),
    {
        match self {
            PageCode::PC437 => 0,
            PageCode::Katakana => 1,
            PageCode::PC850 => 2,
            PageCode::PC860 => 3,
            PageCode::PC863 => 4,
            PageCode::PC865 => 5,
            PageCode::Hiragana => 6,
            PageCode::PC851 => 11,
            PageCode::PC853 => 12,
            PageCode::PC857 => 13,
            PageCode::PC737 => 14,
            PageCode::ISO8859_7 => 15,
            PageCode::WPC1252 => 16,
            PageCode::PC866 => 17,
            PageCode::PC852 => 18,
            PageCode::PC858 => 19,
            PageCode::PC720 => 32,
            PageCode::WPC775 => 33,
            PageCode::PC855 => 34,
            PageCode::PC861 => 35,
            PageCode::PC862 => 36,
            PageCode::PC864 => 37,
            PageCode::PC869 => 38,
            PageCode::ISO8859_2 => 39,
            PageCode::ISO8859_15 => 40,
            PageCode::PC1098 => 41,
            PageCode::PC1118 => 42,
            PageCode::PC1119 => 43,
            PageCode::PC1125 => 44,
            PageCode::WPC1250 => 45,
            PageCode::WPC1251 => 46,
            PageCode::WPC1253 => 47,
            PageCode::WPC1254 => 48,
            PageCode::WPC1255 => 49,
            PageCode::WPC1256 => 50,
            PageCode::WPC1257 => 51,
            PageCode::WPC1258 => 52,
            PageCode::KZ1048 => 53,
        }
    }
}

/// International character set.
#[derive(Debug, Clone, Copy, PartialEq, Eq, Structural)]
pub enum CharacterSet {
    USA,
    France,
    Germany,
    UK,
    Denmark1,
    Sweden,
    Italy,
    Spain1,
    Japan,
    Norway,
    Denmark2,
    Spain2,
    LatinAmerica,
    Korea,
    SloveniaCroatia,
    China,
    Vietnam,
    Arabia,
    IndiaDevanagari,
    IndiaBengali,
    IndiaTamil,
    IndiaTelugu,
    IndiaAssamese,
    IndiaOriya,
    IndiaKannada,
    IndiaMalayalam,
    IndiaGujarati,
    IndiaPunjabi,
    IndiaMarathi,
}

/// The wire ordinal of each international character set.
pub open spec fn character_set_ordinal(code: CharacterSet) -> u8 {
    match code {
        CharacterSet::USA => 0,
        CharacterSet::France => 1,
        CharacterSet::Germany => 2,
        CharacterSet::UK => 3,
        CharacterSet::Denmark1 => 4,
        CharacterSet::Sweden => 5,
        CharacterSet::Italy => 6,
        CharacterSet::Spain1 => 7,
        CharacterSet::Japan => 8,
        CharacterSet::Norway => 9,
        CharacterSet::Denmark2 => 10,
        CharacterSet::Spain2 => 11,
        CharacterSet::LatinAmerica => 12,
        CharacterSet::Korea => 13,
        CharacterSet::SloveniaCroatia => 14,
        CharacterSet::China => 15,
        CharacterSet::Vietnam => 16,
        CharacterSet::Arabia => 17,
        CharacterSet::IndiaDevanagari => 66,
        CharacterSet::IndiaBengali => 67,
        CharacterSet::IndiaTamil => 68,
        CharacterSet::IndiaTelugu => 69,
        CharacterSet::IndiaAssamese => 70,
        CharacterSet::IndiaOriya => 71,
        CharacterSet::IndiaKannada => 72,
        CharacterSet::IndiaMalayalam => 73,
        CharacterSet::IndiaGujarati => 74,
        CharacterSet::IndiaPunjabi => 75,
        CharacterSet::IndiaMarathi => 82,
    }
}

impl CharacterSet {
    /// The single byte that selects this character set on the device.
    pub fn to_u8(self) -> (r: u8)
        ensures
            r == character_set_ordinal(self),
    {
        match self {
            CharacterSet::USA => 0,
            CharacterSet::France => 1,
            CharacterSet::Germany => 2,
            CharacterSet::UK => 3,
            CharacterSet::Denmark1 => 4,
            CharacterSet::Sweden => 5,
            CharacterSet::Italy => 6,
            CharacterSet::Spain1 => 7,
            CharacterSet::Japan => 8,
            CharacterSet::Norway => 9,
            CharacterSet::Denmark2 => 10,
            CharacterSet::Spain2 => 11,
            CharacterSet::LatinAmerica => 12,
            CharacterSet::Korea => 13,
            CharacterSet::SloveniaCroatia => 14,
            CharacterSet::China => 15,
            CharacterSet::Vietnam => 16,
            CharacterSet::Arabia => 17,
            CharacterSet::IndiaDevanagari => 66,
            CharacterSet::IndiaBengali => 67,
            CharacterSet::IndiaTamil => 68,
            CharacterSet::IndiaTelugu => 69,
            CharacterSet::IndiaAssamese => 70,
            CharacterSet::IndiaOriya => 71,
            CharacterSet::IndiaKannada => 72,
            CharacterSet::IndiaMalayalam => 73,
            CharacterSet::IndiaGujarati => 74,
            CharacterSet::IndiaPunjabi => 75,
            CharacterSet::IndiaMarathi => 82,
        }
    }
}

} // verus!

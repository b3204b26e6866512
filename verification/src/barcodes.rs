//! 1D barcode symbologies: per-symbology payload validation and options.

use vstd::prelude::*;

use crate::errors::PrinterError;

verus! {

/// Barcode symbology (function A opcodes).
#[derive(Debug, Clone, Copy, PartialEq, Eq, Structural)]
#[allow(clippy::upper_case_acronyms)]
pub enum BarcodeSystem {
    UPCA,
    UPCE,
    EAN13,
    EAN8,
    CODE39,
    ITF,
    CODABAR,
}

/// The wire ordinal of each symbology.
pub open spec fn barcode_system_ordinal(system: BarcodeSystem) -> u8 {
    match system {
        BarcodeSystem::UPCA => 0,
        BarcodeSystem::UPCE => 1,
        BarcodeSystem::EAN13 => 2,
        BarcodeSystem::EAN8 => 3,
        BarcodeSystem::CODE39 => 4,
        BarcodeSystem::ITF => 5,
        BarcodeSystem::CODABAR => 6,
    }
}

impl BarcodeSystem {
    /// The symbology byte of the print command.
    pub fn to_u8(self) -> (r: u8)
        ensures
            r == barcode_system_ordinal(self),
    {
        match self {
            BarcodeSystem::UPCA => 0,
            BarcodeSystem::UPCE => 1,
            BarcodeSystem::EAN13 => 2,
            BarcodeSystem::EAN8 => 3,
            BarcodeSystem::CODE39 => 4,
            BarcodeSystem::ITF => 5,
            BarcodeSystem::CODABAR => 6,
        }
    }
}

/// HRI font.
#[derive(Debug, Clone, Copy, PartialEq, Eq, Structural)]
pub enum BarcodeFont {
    A,
    B,
    C,
    D,
    E,
}

impl Default for BarcodeFont {
    fn default() -> (r: Self)
        ensures
            r == BarcodeFont::A,
    {
        BarcodeFont::A
    }
}

/// The wire ordinal of each HRI font.
pub open spec fn barcode_font_ordinal(font: BarcodeFont) -> u8 {
    match font {
        BarcodeFont::A => 0u8,
        BarcodeFont::B => 1u8,
        BarcodeFont::C => 2u8,
        BarcodeFont::D => 3u8,
        BarcodeFont::E => 4u8,
    }
}

impl BarcodeFont {
    /// The font byte of the HRI font command.
    pub fn to_u8(self) -> (r: u8)
        ensures
            r == barcode_font_ordinal(self),
    {
        match self {
            BarcodeFont::A => 0,
            BarcodeFont::B => 1,
            BarcodeFont::C => 2,
            BarcodeFont::D => 3,
            BarcodeFont::E => 4,
        }
    }
}

/// Position of the human-readable interpretation text.
#[derive(Debug, Clone, Copy, PartialEq, Eq, Structural)]
pub enum BarcodePosition {
    Off,
    Above,
    Below,
    Both,
}

/// The wire ordinal of each HRI position.
pub open spec fn barcode_position_ordinal(position: BarcodePosition) -> u8 {
    match position {
        BarcodePosition::Off => 0u8,
        BarcodePosition::Above => 1u8,
        BarcodePosition::Below => 2u8,
        BarcodePosition::Both => 3u8,
    }
}

impl BarcodePosition {
    /// The position byte of the HRI position command.
    pub fn to_u8(self) -> (r: u8)
        ensures
            r == barcode_position_ordinal(self),
    {
        match self {
            BarcodePosition::Off => 0,
            BarcodePosition::Above => 1,
            BarcodePosition::Below => 2,
            BarcodePosition::Both => 3,
        }
    }
}

/// Module width class of the bars.
#[derive(Debug, Clone, Copy, PartialEq, Eq, Structural)]
pub enum BarcodeWidth {
    XS,
    S,
    M,
    L,
    XL,
}

impl Default for BarcodeWidth {
    fn default() -> (r: Self)
        ensures
            r == BarcodeWidth::M,
    {
        BarcodeWidth::M
    }
}

/// The module width in dots of each width class.
pub open spec fn barcode_width_dots(width: BarcodeWidth) -> u8 {
    match width {
        BarcodeWidth::XS => 1u8,
        BarcodeWidth::S => 2u8,
        BarcodeWidth::M => 3u8,
        BarcodeWidth::L => 4u8,
        BarcodeWidth::XL => 5u8,
    }
}

impl BarcodeWidth {
    /// The module width in dots.
    pub fn to_u8(self) -> (r: u8)
        ensures
            r == barcode_width_dots(self),
    {
        match self {
            BarcodeWidth::XS => 1,
            BarcodeWidth::S => 2,
            BarcodeWidth::M => 3,
            BarcodeWidth::L => 4,
            BarcodeWidth::XL => 5,
        }
    }
}

/// Bar height class.
#[derive(Debug, Clone, Copy, PartialEq, Eq, Structural)]
pub enum BarcodeHeight {
    XS,
    S,
    M,
    L,
    XL,
}

impl Default for BarcodeHeight {
    fn default() -> (r: Self)
        ensures
            r == BarcodeHeight::S,
    {
        BarcodeHeight::S
    }
}

/// The bar height in dots of each height class.
pub open spec fn barcode_height_dots(height: BarcodeHeight) -> u8 {
    match height {
        BarcodeHeight::XS => 51u8,
        BarcodeHeight::S => 102u8,
        BarcodeHeight::M => 153u8,
        BarcodeHeight::L => 204u8,
        BarcodeHeight::XL => 255u8,
    }
}

impl BarcodeHeight {
    /// The bar height in dots.
    pub fn to_u8(self) -> (r: u8)
        ensures
            r == barcode_height_dots(self),
    {
        match self {
            BarcodeHeight::XS => 51,
            BarcodeHeight::S => 102,
            BarcodeHeight::M => 153,
            BarcodeHeight::L => 204,
            BarcodeHeight::XL => 255,
        }
    }
}

/// Width, height, HRI font and HRI position of one barcode.
#[derive(Debug, Clone)]
pub struct BarcodeOption {
    width: BarcodeWidth,
    height: BarcodeHeight,
    font: BarcodeFont,
    position: BarcodePosition,
}

impl BarcodeOption {
    /// The width class of the option.
    pub closed spec fn spec_width(&self) -> BarcodeWidth {
        self.width
    }

    /// The height class of the option.
    pub closed spec fn spec_height(&self) -> BarcodeHeight {
        self.height
    }

    /// The HRI font of the option.
    pub closed spec fn spec_font(&self) -> BarcodeFont {
        self.font
    }

    /// The HRI position of the option.
    pub closed spec fn spec_position(&self) -> BarcodePosition {
        self.position
    }
}

impl Default for BarcodeOption {
    fn default() -> (r: Self)
        ensures
            r.spec_width() == BarcodeWidth::M,
            r.spec_height() == BarcodeHeight::S,
            r.spec_font() == BarcodeFont::A,
            r.spec_position() == BarcodePosition::Below,
    {
        BarcodeOption {
            width: BarcodeWidth::M,
            height: BarcodeHeight::S,
            font: BarcodeFont::A,
            position: BarcodePosition::Below,
        }
    }
}

impl BarcodeOption {
    /// Create a new `BarcodeOption`.
    pub fn new(
        width: BarcodeWidth,
        height: BarcodeHeight,
        font: BarcodeFont,
        position: BarcodePosition,
    ) -> (r: Self)
        ensures
            r.spec_width() == width,
            r.spec_height() == height,
            r.spec_font() == font,
            r.spec_position() == position,
    {
        BarcodeOption { width, height, font, position }
    }

    /// Get width.
    pub fn width(&self) -> (r: BarcodeWidth)
        ensures
            r == self.spec_width(),
    {
        self.width
    }

    /// Get height.
    pub fn height(&self) -> (r: BarcodeHeight)
        ensures
            r == self.spec_height(),
    {
        self.height
    }

    /// Get font.
    pub fn font(&self) -> (r: BarcodeFont)
        ensures
            r == self.spec_font(),
    {
        self.font
    }

    /// Get position.
    pub fn position(&self) -> (r: BarcodePosition)
        ensures
            r == self.spec_position(),
    {
        self.position
    }
}

/// True when every character of `s` is a decimal digit.
pub open spec fn all_digits(s: Seq<char>) -> bool {
    forall|i: int| 0 <= i < s.len() ==> '0' <= #[trigger] s[i] <= '9'
}

/// The 44-symbol CODE39 alphabet: digits, upper-case letters,
/// `$ % * + - . /` and space.
pub open spec fn code39_char(c: char) -> bool {
    ('0' <= c <= '9') || ('A' <= c <= 'Z') || c == '$' || c == '%' || c == '*' || c == '+'
        || c == '-' || c == '.' || c == '/' || c == ' '
}

/// The 24-symbol CODABAR alphabet: digits, `A`-`D`, `a`-`d` and
/// `$ + - . / :`.
pub open spec fn codabar_char(c: char) -> bool {
    ('0' <= c <= '9') || ('A' <= c <= 'D') || ('a' <= c <= 'd') || c == '$' || c == '+'
        || c == '-' || c == '.' || c == '/' || c == ':'
}

/// The per-symbology payload predicate: length and alphabet rules under
/// which a payload is accepted for printing.
pub open spec fn barcode_data_valid(system: BarcodeSystem, s: Seq<char>) -> bool {
    match system {
        BarcodeSystem::UPCA => all_digits(s) && (s.len() == 11 || s.len() == 12),
        BarcodeSystem::UPCE => (all_digits(s) && s.len() == 6) || (s.len() > 0 && s[0] == '0'),
        BarcodeSystem::EAN8 => all_digits(s) && (s.len() == 7 || s.len() == 8),
        BarcodeSystem::EAN13 => all_digits(s) && (s.len() == 12 || s.len() == 13),
        BarcodeSystem::ITF => all_digits(s) && s.len() >= 2,
        BarcodeSystem::CODE39 => s.len() >= 1 && (forall|i: int|
            0 <= i < s.len() ==> code39_char(#[trigger] s[i])),
        BarcodeSystem::CODABAR => s.len() >= 2 && (forall|i: int|
            0 <= i < s.len() ==> codabar_char(#[trigger] s[i])),
    }
}

fn is_all_digits(data: &str) -> (r: bool)
    ensures
        r == all_digits(data@),
{
    let n = data.unicode_len();
    let mut i: usize = 0;
    while i < n
        invariant
            i <= n,
            n == data@.len(),
            forall|j: int| 0 <= j < i ==> '0' <= #[trigger] data@[j] <= '9',
        decreases n - i,
    {
        let c = data.get_char(i);
        if c < '0' || c > '9' {
            return false;
        }
        i += 1;
    }
    true
}

fn is_code39_char(c: char) -> (r: bool)
    ensures
        r == code39_char(c),
{
    (c >= '0' && c <= '9') || (c >= 'A' && c <= 'Z') || c == '$' || c == '%' || c == '*'
        || c == '+' || c == '-' || c == '.' || c == '/' || c == ' '
}

fn is_codabar_char(c: char) -> (r: bool)
    ensures
        r == codabar_char(c),
{
    (c >= '0' && c <= '9') || (c >= 'A' && c <= 'D') || (c >= 'a' && c <= 'd') || c == '$'
        || c == '+' || c == '-' || c == '.' || c == '/' || c == ':'
}

fn all_code39_chars(data: &str) -> (r: bool)
    ensures
        r == forall|i: int| 0 <= i < data@.len() ==> code39_char(#[trigger] data@[i]),
{
    let n = data.unicode_len();
    let mut i: usize = 0;
    while i < n
        invariant
            i <= n,
            n == data@.len(),
            forall|j: int| 0 <= j < i ==> code39_char(#[trigger] data@[j]),
        decreases n - i,
    {
        if !is_code39_char(data.get_char(i)) {
            return false;
        }
        i += 1;
    }
    true
}

fn all_codabar_chars(data: &str) -> (r: bool)
    ensures
        r == forall|i: int| 0 <= i < data@.len() ==> codabar_char(#[trigger] data@[i]),
{
    let n = data.unicode_len();
    let mut i: usize = 0;
    while i < n
        invariant
            i <= n,
            n == data@.len(),
            forall|j: int| 0 <= j < i ==> codabar_char(#[trigger] data@[j]),
        decreases n - i,
    {
        if !is_codabar_char(data.get_char(i)) {
            return false;
        }
        i += 1;
    }
    true
}

/// A validated barcode: symbology, payload and options.
///
/// A value exists only for payloads that satisfy the symbology's
/// length and alphabet predicate.
#[derive(Debug, Clone)]
pub struct Barcode {
    pub system: BarcodeSystem,
    pub data: String,
    pub option: BarcodeOption,
}

impl Barcode {
    /// Create a new `Barcode`; accepts the payload exactly when it
    /// satisfies the symbology's predicate.
    pub fn new(system: BarcodeSystem, data: &str, option: BarcodeOption) -> (r: Result<
        Self,
        PrinterError,
    >)
        ensures
            r is Ok <==> barcode_data_valid(system, data@),
            r matches Ok(b) ==> b.system == system && b.data@ == data@,
            r matches Err(e) ==> e is Input,
    {
        match Self::validate(system, data) {
            Ok(_) => Ok(Barcode { system, data: data.to_owned(), option }),
            Err(e) => Err(e),
        }
    }

    /// Accept exactly the payloads that satisfy the symbology's length
    /// and alphabet predicate.
    pub fn validate(system: BarcodeSystem, data: &str) -> (r: Result<(), PrinterError>)
        ensures
            r is Ok <==> barcode_data_valid(system, data@),
            r matches Err(e) ==> e is Input,
    {
        let len = data.unicode_len();
        let ok = match system {
            BarcodeSystem::UPCA => is_all_digits(data) && (len == 11 || len == 12),
            BarcodeSystem::UPCE => (is_all_digits(data) && len == 6) || (len > 0
                && data.get_char(0) == '0'),
            BarcodeSystem::EAN8 => is_all_digits(data) && (len == 7 || len == 8),
            BarcodeSystem::EAN13 => is_all_digits(data) && (len == 12 || len == 13),
            BarcodeSystem::ITF => len >= 2 && is_all_digits(data),
            BarcodeSystem::CODE39 => len >= 1 && all_code39_chars(data),
            BarcodeSystem::CODABAR => len >= 2 && all_codabar_chars(data),
        };
        if ok {
            Ok(())
        } else {
            Err(PrinterError::Input("invalid barcode data".to_owned()))
        }
    }
}

} // verus!

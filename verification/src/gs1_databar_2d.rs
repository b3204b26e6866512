//! 2D GS1 DataBar options and payload validation.

use vstd::prelude::*;

use crate::barcodes::all_digits;
use crate::errors::PrinterError;

verus! {

/// 2D GS1 DataBar kind.
#[derive(Debug, Clone, Copy, PartialEq, Eq, Structural)]
pub enum GS1DataBar2DType {
    Stacked,
    StackedOmnidirectional,
    ExpandedStacked,
}

impl Default for GS1DataBar2DType {
    fn default() -> (r: Self)
        ensures
            r == GS1DataBar2DType::Stacked,
    {
        GS1DataBar2DType::Stacked
    }
}

/// The symbol ordinal of each kind.
pub open spec fn gs1_databar_2d_type_ordinal(code_type: GS1DataBar2DType) -> u8 {
    match code_type {
        GS1DataBar2DType::Stacked => 72u8,
        GS1DataBar2DType::StackedOmnidirectional => 73u8,
        GS1DataBar2DType::ExpandedStacked => 76u8,
    }
}

impl GS1DataBar2DType {
    /// The symbol byte of the data frame.
    pub fn to_u8(self) -> (r: u8)
        ensures
            r == gs1_databar_2d_type_ordinal(self),
    {
        match self {
            GS1DataBar2DType::Stacked => 72,
            GS1DataBar2DType::StackedOmnidirectional => 73,
            GS1DataBar2DType::ExpandedStacked => 76,
        }
    }
}

/// Module width class; the wire ordinals are deliberately
/// non-monotonic.
#[derive(Debug, Clone, Copy, PartialEq, Eq, Structural)]
pub enum GS1DataBar2DWidth {
    S,
    M,
    L,
}

impl Default for GS1DataBar2DWidth {
    fn default() -> (r: Self)
        ensures
            r == GS1DataBar2DWidth::M,
    {
        GS1DataBar2DWidth::M
    }
}

/// The width ordinal of each width class: S, M and L map to 2, 1 and 4
/// respectively.
pub open spec fn gs1_databar_2d_width_ordinal(width: GS1DataBar2DWidth) -> u8 {
    match width {
        GS1DataBar2DWidth::S => 2u8,
        GS1DataBar2DWidth::M => 1u8,
        GS1DataBar2DWidth::L => 4u8,
    }
}

impl GS1DataBar2DWidth {
    /// The width byte of the module-width command: S, M and L map to
    /// 2, 1 and 4 respectively.
    pub fn to_u8(self) -> (r: u8)
        ensures
            r == gs1_databar_2d_width_ordinal(self),
    {
        match self {
            GS1DataBar2DWidth::S => 2,
            GS1DataBar2DWidth::M => 1,
            GS1DataBar2DWidth::L => 4,
        }
    }
}

/// Width and kind of one 2D GS1 DataBar symbol.
#[derive(Debug, Clone)]
pub struct GS1DataBar2DOption {
    width: GS1DataBar2DWidth,
    code_type: GS1DataBar2DType,
}

impl Default for GS1DataBar2DOption {
    fn default() -> (r: Self)
        ensures
            r.spec_width() == GS1DataBar2DWidth::M,
            r.spec_code_type() == GS1DataBar2DType::Stacked,
    {
        GS1DataBar2DOption { width: GS1DataBar2DWidth::M, code_type: GS1DataBar2DType::Stacked }
    }
}

impl GS1DataBar2DOption {
    /// The width class of the option.
    pub closed spec fn spec_width(&self) -> GS1DataBar2DWidth {
        self.width
    }

    /// The kind of the option.
    pub closed spec fn spec_code_type(&self) -> GS1DataBar2DType {
        self.code_type
    }

    /// Create a new `GS1DataBar2DOption`.
    pub fn new(width: GS1DataBar2DWidth, code_type: GS1DataBar2DType) -> (r: Self)
        ensures
            r.spec_width() == width,
            r.spec_code_type() == code_type,
    {
        GS1DataBar2DOption { width, code_type }
    }

    /// Get width.
    pub fn width(&self) -> (r: GS1DataBar2DWidth)
        ensures
            r == self.spec_width(),
    {
        self.width
    }

    /// Get code type.
    pub fn code_type(&self) -> (r: GS1DataBar2DType)
        ensures
            r == self.spec_code_type(),
    {
        self.code_type
    }
}

/// The 36-symbol alphabet of the expanded stacked kind: digits, `A`-`D`
/// and the punctuation the device accepts.
pub open spec fn expanded_stacked_char(c: char) -> bool {
    ('0' <= c <= '9') || ('A' <= c <= 'D') || c == ' ' || c == '!' || c == '"' || c == '%' || c
        == '$' || c == '\'' || c == '(' || c == ')' || c == '*' || c == '+' || c == ',' || c == '-'
        || c == '.' || c == '/' || c == ':' || c == ';' || c == '<' || c == '=' || c == '>' || c
        == '?' || c == '_' || c == '{'
}

/// The payload predicate of each kind: the stacked kinds take exactly 13
/// digits, the expanded stacked kind up to 255 characters of its
/// alphabet.
pub open spec fn gs1_databar_2d_data_valid(code_type: GS1DataBar2DType, s: Seq<char>) -> bool {
    match code_type {
        GS1DataBar2DType::Stacked | GS1DataBar2DType::StackedOmnidirectional => all_digits(s)
            && s.len() == 13,
        GS1DataBar2DType::ExpandedStacked => s.len() < 256 && (forall|i: int|
            0 <= i < s.len() ==> expanded_stacked_char(#[trigger] s[i])),
    }
}

pub(crate) fn is_expanded_stacked_char(c: char) -> (r: bool)
    ensures
        r == expanded_stacked_char(c),
{
    (c >= '0' && c <= '9') || (c >= 'A' && c <= 'D') || c == ' ' || c == '!' || c == '"' || c
        == '%' || c == '$' || c == '\'' || c == '(' || c == ')' || c == '*' || c == '+' || c == ','
        || c == '-' || c == '.' || c == '/' || c == ':' || c == ';' || c == '<' || c == '=' || c
        == '>' || c == '?' || c == '_' || c == '{'
}

pub(crate) fn all_expanded_stacked_chars(data: &str) -> (r: bool)
    ensures
        r == forall|i: int| 0 <= i < data@.len() ==> expanded_stacked_char(#[trigger] data@[i]),
{
    let n = data.unicode_len();
    let mut i: usize = 0;
    while i < n
        invariant
            i <= n,
            n == data@.len(),
            forall|j: int| 0 <= j < i ==> expanded_stacked_char(#[trigger] data@[j]),
        decreases n - i,
    {
        if !is_expanded_stacked_char(data.get_char(i)) {
            return false;
        }
        i += 1;
    }
    true
}

pub(crate) fn is_all_digits_exact(data: &str, expect: usize) -> (r: bool)
    ensures
        r == (all_digits(data@) && data@.len() == expect),
{
    let n = data.unicode_len();
    if n != expect {
        return false;
    }
    let mut i: usize = 0;
    while i < n
        invariant
            i <= n,
            n == data@.len(),
            forall|j: int| 0 <= j < i ==> '0' <= #[trigger] data@[j] <= '9',
        decreases n - i,
    {
        let c = data.get_char(i);
        if c < '0' || c > '9' {
            return false;
        }
        i += 1;
    }
    true
}

/// A validated 2D GS1 DataBar: payload and options.
#[derive(Debug, Clone)]
pub struct GS1DataBar2D {
    pub data: String,
    pub option: GS1DataBar2DOption,
}

impl GS1DataBar2D {
    /// Create a new `GS1DataBar2D`; accepts the payload exactly when it
    /// satisfies the kind's predicate.
    pub fn new(data: &str, option: GS1DataBar2DOption) -> (r: Result<Self, PrinterError>)
        ensures
            r is Ok <==> gs1_databar_2d_data_valid(option.spec_code_type(), data@),
            r matches Ok(g) ==> g.data@ == data@,
            r matches Err(e) ==> e is Input,
    {
        let code_type = option.code_type();
        Self::check_data(data, code_type)?;
        Ok(GS1DataBar2D { data: data.to_owned(), option })
    }

    /// Accept exactly the payloads that satisfy the kind's length and
    /// alphabet predicate.
    pub fn check_data(data: &str, code_type: GS1DataBar2DType) -> (r: Result<(), PrinterError>)
        ensures
            r is Ok <==> gs1_databar_2d_data_valid(code_type, data@),
            r matches Err(e) ==> e is Input,
    {
        let ok = match code_type {
            GS1DataBar2DType::Stacked | GS1DataBar2DType::StackedOmnidirectional => {
                is_all_digits_exact(data, 13)
            },
            GS1DataBar2DType::ExpandedStacked => {
                data.unicode_len() < 256 && all_expanded_stacked_chars(data)
            },
        };
        if ok {
            Ok(())
        } else {
            Err(PrinterError::Input("invalid GS1 DataBar data".to_owned()))
        }
    }
}

} // verus!

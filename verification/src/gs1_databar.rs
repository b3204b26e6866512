//! GS1 DataBar options and payload validation (stacked family).

use vstd::prelude::*;

use crate::barcodes::all_digits;
use crate::errors::PrinterError;
use crate::gs1_databar_2d::{
    all_expanded_stacked_chars, expanded_stacked_char, is_all_digits_exact,
};

verus! {

/// GS1 DataBar kind.
#[derive(Debug, Clone, Copy, PartialEq, Eq, Structural)]
pub enum GS1DataBarType {
    Stacked,
    StackedOmnidirectional,
    ExpandedStacked,
}

impl GS1DataBarType {
    /// The symbol byte of the data frame.
    pub fn to_u8(self) -> (r: u8)
        ensures
            r == match self {
                GS1DataBarType::Stacked => 72u8,
                GS1DataBarType::StackedOmnidirectional => 73u8,
                GS1DataBarType::ExpandedStacked => 76u8,
            },
    {
        match self {
            GS1DataBarType::Stacked => 72,
            GS1DataBarType::StackedOmnidirectional => 73,
            GS1DataBarType::ExpandedStacked => 76,
        }
    }
}

/// Kind of one GS1 DataBar symbol.
#[derive(Debug, Clone)]
pub struct GS1DataBarOption {
    pub code_type: GS1DataBarType,
}

impl GS1DataBarOption {
    /// Create a new `GS1DataBarOption`.
    pub fn new(code_type: GS1DataBarType) -> (r: Self)
        ensures
            r.code_type == code_type,
    {
        GS1DataBarOption { code_type }
    }
}

/// The payload predicate of each kind: the stacked kinds take exactly 13
/// digits, the expanded stacked kind up to 255 characters of its
/// alphabet.
pub open spec fn gs1_databar_data_valid(code_type: GS1DataBarType, s: Seq<char>) -> bool {
    match code_type {
        GS1DataBarType::Stacked | GS1DataBarType::StackedOmnidirectional => all_digits(s)
            && s.len() == 13,
        GS1DataBarType::ExpandedStacked => s.len() < 256 && (forall|i: int|
            0 <= i < s.len() ==> expanded_stacked_char(#[trigger] s[i])),
    }
}

/// A validated GS1 DataBar: payload and options.
#[derive(Debug, Clone)]
pub struct GS1DataBar {
    pub data: String,
    pub option: GS1DataBarOption,
}

impl GS1DataBar {
    /// Create a new `GS1DataBar`; accepts the payload exactly when it
    /// satisfies the kind's predicate.
    pub fn new(data: &str, option: GS1DataBarOption) -> (r: Result<Self, PrinterError>)
        ensures
            r is Ok <==> gs1_databar_data_valid(option.code_type, data@),
            r matches Ok(g) ==> g.data@ == data@,
            r matches Err(e) ==> e is Input,
    {
        let code_type = option.code_type;
        Self::check_data(data, code_type)?;
        Ok(GS1DataBar { data: data.to_owned(), option })
    }

    /// Accept exactly the payloads that satisfy the kind's length and
    /// alphabet predicate.
    pub fn check_data(data: &str, code_type: GS1DataBarType) -> (r: Result<(), PrinterError>)
        ensures
            r is Ok <==> gs1_databar_data_valid(code_type, data@),
            r matches Err(e) ==> e is Input,
    {
        let ok = match code_type {
            GS1DataBarType::Stacked | GS1DataBarType::StackedOmnidirectional => {
                is_all_digits_exact(data, 13)
            },
            GS1DataBarType::ExpandedStacked => {
                data.unicode_len() < 256 && all_expanded_stacked_chars(data)
            },
        };
        if ok {
            Ok(())
        } else {
            Err(PrinterError::Input("invalid GS1 DataBar data".to_owned()))
        }
    }
}

} // verus!

//! MaxiCode mode option.

use vstd::prelude::*;

verus! {

/// MaxiCode mode.
#[derive(Debug, Clone, Copy, PartialEq, Eq, Structural)]
pub enum MaxiCodeMode {
    Mode2,
    Mode3,
    Mode4,
    Mode5,
    Mode6,
}

impl Default for MaxiCodeMode {
    fn default() -> (r: Self)
        ensures
            r == MaxiCodeMode::Mode2,
    {
        MaxiCodeMode::Mode2
    }
}

/// The wire ordinal of each MaxiCode mode.
pub open spec fn maxi_code_mode_ordinal(mode: MaxiCodeMode) -> u8 {
    match mode {
        MaxiCodeMode::Mode2 => 50u8,
        MaxiCodeMode::Mode3 => 51u8,
        MaxiCodeMode::Mode4 => 52u8,
        MaxiCodeMode::Mode5 => 53u8,
        MaxiCodeMode::Mode6 => 54u8,
    }
}

impl MaxiCodeMode {
    /// The mode byte of the mode command.
    pub fn to_u8(self) -> (r: u8)
        ensures
            r == maxi_code_mode_ordinal(self),
    {
        match self {
            MaxiCodeMode::Mode2 => 50,
            MaxiCodeMode::Mode3 => 51,
            MaxiCodeMode::Mode4 => 52,
            MaxiCodeMode::Mode5 => 53,
            MaxiCodeMode::Mode6 => 54,
        }
    }
}

/// A MaxiCode payload with its mode.
#[derive(Debug, Clone)]
pub struct MaxiCode {
    pub data: String,
    pub mode: MaxiCodeMode,
}

impl MaxiCode {
    /// Create a new `MaxiCode`.
    pub fn new(data: &str, mode: MaxiCodeMode) -> (r: Self)
        ensures
            r.data@ == data@,
            r.mode == mode,
    {
        MaxiCode { data: data.to_owned(), mode }
    }
}

} // verus!

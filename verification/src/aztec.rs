//! Aztec code mode, size and correction-level options.

use vstd::prelude::*;

use crate::errors::PrinterError;

verus! {

/// Aztec code mode with its number of data layers.
#[derive(Debug, Clone, Copy, PartialEq, Eq, Structural)]
pub enum AztecMode {
    FullRange(u8),
    Compact(u8),
}

impl Default for AztecMode {
    fn default() -> (r: Self)
        ensures
            r == AztecMode::FullRange(0),
    {
        AztecMode::FullRange(0)
    }
}

/// True when the layer count is legal for the mode: full-range takes 0
/// or 4..=32 layers, compact 0..=4 (0 selects automatic sizing).
pub open spec fn aztec_mode_valid(mode: AztecMode) -> bool {
    match mode {
        AztecMode::FullRange(n) => n == 0 || (4 <= n <= 32),
        AztecMode::Compact(n) => n <= 4,
    }
}

/// The `(n1, n2)` bytes of the mode command for a legal mode.
pub open spec fn aztec_mode_pair(mode: AztecMode) -> (u8, u8) {
    match mode {
        AztecMode::FullRange(n) => (0u8, n),
        AztecMode::Compact(n) => (1u8, n),
    }
}

impl AztecMode {
    /// The `(n1, n2)` bytes of the mode command; accepts exactly the
    /// legal layer counts of the mode.
    pub fn to_pair(self) -> (r: Result<(u8, u8), PrinterError>)
        ensures
            r is Ok <==> aztec_mode_valid(self),
            r matches Ok(p) ==> p == aztec_mode_pair(self),
            r matches Err(e) ==> e is Input,
    {
        match self {
            AztecMode::FullRange(n) => {
                if n != 0 && (n < 4 || n > 32) {
                    Err(
                        PrinterError::Input(
                            "invalid Aztec code Full-Range number of data layers".to_owned(),
                        ),
                    )
                } else {
                    Ok((0, n))
                }
            },
            AztecMode::Compact(n) => {
                if n > 4 {
                    Err(
                        PrinterError::Input(
                            "invalid Aztec code Compact number of data layers".to_owned(),
                        ),
                    )
                } else {
                    Ok((1, n))
                }
            },
        }
    }
}

/// Mode, module size and correction level of one Aztec code.
#[derive(Debug, Clone)]
pub struct AztecOption {
    mode: AztecMode,
    size: u8,
    correction_level: u8,
}

impl Default for AztecOption {
    fn default() -> (r: Self)
        ensures
            r.spec_mode() == AztecMode::FullRange(0),
            r.spec_size() == 3,
            r.spec_correction_level() == 23,
    {
        AztecOption { mode: AztecMode::FullRange(0), size: 3, correction_level: 23 }
    }
}

impl AztecOption {
    /// The mode of the option.
    pub closed spec fn spec_mode(&self) -> AztecMode {
        self.mode
    }

    /// The module size of the option.
    pub closed spec fn spec_size(&self) -> u8 {
        self.size
    }

    /// The correction level of the option.
    pub closed spec fn spec_correction_level(&self) -> u8 {
        self.correction_level
    }

    /// Create a new `AztecOption`; accepts exactly module sizes 2..=16
    /// and correction levels 5..=95.
    pub fn new(mode: AztecMode, size: u8, correction_level: u8) -> (r: Result<Self, PrinterError>)
        ensures
            r is Ok <==> (2 <= size <= 16) && (5 <= correction_level <= 95),
            r matches Ok(o) ==> o.spec_mode() == mode && o.spec_size() == size
                && o.spec_correction_level() == correction_level,
            r matches Err(e) ==> e is Input,
    {
        if size < 2 || size > 16 {
            return Err(PrinterError::Input("invalid Aztec size".to_owned()));
        }
        if correction_level < 5 || correction_level > 95 {
            return Err(PrinterError::Input("invalid Aztec error correction level".to_owned()));
        }
        Ok(AztecOption { mode, size, correction_level })
    }

    /// Get mode.
    pub fn mode(&self) -> (r: AztecMode)
        ensures
            r == self.spec_mode(),
    {
        self.mode
    }

    /// Get size.
    pub fn size(&self) -> (r: u8)
        ensures
            r == self.spec_size(),
    {
        self.size
    }

    /// Get error correction level.
    pub fn correction_level(&self) -> (r: u8)
        ensures
            r == self.spec_correction_level(),
    {
        self.correction_level
    }
}

/// An Aztec code payload with its options.
#[derive(Debug, Clone)]
pub struct Aztec {
    pub data: String,
    pub option: AztecOption,
}

impl Aztec {
    /// Create a new `Aztec`.
    pub fn new(data: &str, option: AztecOption) -> (r: Self)
        ensures
            r.data@ == data@,
            r.option == option,
    {
        Aztec { data: data.to_owned(), option }
    }
}

} // verus!

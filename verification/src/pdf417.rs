//! PDF417 options: columns, rows, module width, row height, type and
//! correction level.

use vstd::prelude::*;

use crate::errors::PrinterError;

verus! {

/// PDF417 correction level: a fixed level 0..=8 or a ratio 1..=40.
#[derive(Debug, Clone, Copy, PartialEq, Eq, Structural)]
pub enum Pdf417CorrectionLevel {
    Level0,
    Level1,
    Level2,
    Level3,
    Level4,
    Level5,
    Level6,
    Level7,
    Level8,
    Ratio(u8),
}

impl Default for Pdf417CorrectionLevel {
    fn default() -> (r: Self)
        ensures
            r == Pdf417CorrectionLevel::Ratio(1),
    {
        Pdf417CorrectionLevel::Ratio(1)
    }
}

/// True when the correction level is representable on the wire: every
/// fixed level, and a ratio between 1 and 40.
pub open spec fn pdf417_level_valid(level: Pdf417CorrectionLevel) -> bool {
    match level {
        Pdf417CorrectionLevel::Ratio(v) => 1 <= v <= 40,
        _ => true,
    }
}

/// The `(m, n)` byte pair of the correction-level command.
pub open spec fn pdf417_level_pair(level: Pdf417CorrectionLevel) -> (u8, u8) {
    match level {
        Pdf417CorrectionLevel::Level0 => (48u8, 48u8),
        Pdf417CorrectionLevel::Level1 => (48u8, 49u8),
        Pdf417CorrectionLevel::Level2 => (48u8, 50u8),
        Pdf417CorrectionLevel::Level3 => (48u8, 51u8),
        Pdf417CorrectionLevel::Level4 => (48u8, 52u8),
        Pdf417CorrectionLevel::Level5 => (48u8, 53u8),
        Pdf417CorrectionLevel::Level6 => (48u8, 54u8),
        Pdf417CorrectionLevel::Level7 => (48u8, 55u8),
        Pdf417CorrectionLevel::Level8 => (48u8, 56u8),
        Pdf417CorrectionLevel::Ratio(v) => (49u8, v),
    }
}

impl Pdf417CorrectionLevel {
    /// The `(m, n)` byte pair of the correction-level command; rejects
    /// exactly the ratios outside 1..=40.
    pub fn to_pair(self) -> (r: Result<(u8, u8), PrinterError>)
        ensures
            r is Ok <==> pdf417_level_valid(self),
            r matches Ok(p) ==> p == pdf417_level_pair(self),
            r matches Err(e) ==> e is Input,
    {
        match self {
            Pdf417CorrectionLevel::Level0 => Ok((48, 48)),
            Pdf417CorrectionLevel::Level1 => Ok((48, 49)),
            Pdf417CorrectionLevel::Level2 => Ok((48, 50)),
            Pdf417CorrectionLevel::Level3 => Ok((48, 51)),
            Pdf417CorrectionLevel::Level4 => Ok((48, 52)),
            Pdf417CorrectionLevel::Level5 => Ok((48, 53)),
            Pdf417CorrectionLevel::Level6 => Ok((48, 54)),
            Pdf417CorrectionLevel::Level7 => Ok((48, 55)),
            Pdf417CorrectionLevel::Level8 => Ok((48, 56)),
            Pdf417CorrectionLevel::Ratio(v) => {
                if 1 <= v && v <= 40 {
                    Ok((49, v))
                } else {
                    Err(PrinterError::Input("invalid PDF417 correction level ratio".to_owned()))
                }
            },
        }
    }
}

/// PDF417 type.
#[derive(Debug, Clone, Copy, PartialEq, Eq, Structural)]
pub enum Pdf417Type {
    Standard,
    Truncated,
}

impl Default for Pdf417Type {
    fn default() -> (r: Self)
        ensures
            r == Pdf417Type::Standard,
    {
        Pdf417Type::Standard
    }
}

impl Pdf417Type {
    /// The type byte of the type command.
    pub fn to_u8(self) -> (r: u8)
        ensures
            r == match self {
                Pdf417Type::Standard => 0u8,
                Pdf417Type::Truncated => 1u8,
            },
    {
        match self {
            Pdf417Type::Standard => 0,
            Pdf417Type::Truncated => 1,
        }
    }
}

/// Columns, rows, module width, row height, type and correction level
/// of one PDF417 symbol.
#[derive(Debug, Clone)]
pub struct Pdf417Option {
    columns: u8,
    rows: u8,
    width: u8,
    row_height: u8,
    code_type: Pdf417Type,
    correction_level: Pdf417CorrectionLevel,
}

impl Pdf417Option {
    /// The number of columns of the option.
    pub closed spec fn spec_columns(&self) -> u8 {
        self.columns
    }

    /// The number of rows of the option.
    pub closed spec fn spec_rows(&self) -> u8 {
        self.rows
    }

    /// The module width of the option.
    pub closed spec fn spec_width(&self) -> u8 {
        self.width
    }

    /// The row height of the option.
    pub closed spec fn spec_row_height(&self) -> u8 {
        self.row_height
    }

    /// The type of the option.
    pub closed spec fn spec_code_type(&self) -> Pdf417Type {
        self.code_type
    }

    /// The correction level of the option.
    pub closed spec fn spec_correction_level(&self) -> Pdf417CorrectionLevel {
        self.correction_level
    }

    /// Create a new `Pdf417Option`; accepts exactly 0..=30 columns and
    /// a row count of 0 or 3..=90.
    pub fn new(
        columns: u8,
        rows: u8,
        width: u8,
        row_height: u8,
        code_type: Pdf417Type,
        correction_level: Pdf417CorrectionLevel,
    ) -> (r: Result<Self, PrinterError>)
        ensures
            r is Ok <==> columns <= 30 && (rows == 0 || (3 <= rows <= 90)),
            r matches Ok(o) ==> o.spec_columns() == columns && o.spec_rows() == rows
                && o.spec_width() == width && o.spec_row_height() == row_height
                && o.spec_code_type() == code_type && o.spec_correction_level()
                == correction_level,
            r matches Err(e) ==> e is Input,
    {
        if columns > 30 {
            return Err(PrinterError::Input("number of PDF417 columns is not valid".to_owned()));
        }
        if rows != 0 && (rows < 3 || rows > 90) {
            return Err(PrinterError::Input("number of PDF417 rows is not valid".to_owned()));
        }
        Ok(Pdf417Option { columns, rows, width, row_height, code_type, correction_level })
    }

    /// Get number of columns.
    pub fn columns(&self) -> (r: u8)
        ensures
            r == self.spec_columns(),
    {
        self.columns
    }

    /// Get number of rows.
    pub fn rows(&self) -> (r: u8)
        ensures
            r == self.spec_rows(),
    {
        self.rows
    }

    /// Get width.
    pub fn width(&self) -> (r: u8)
        ensures
            r == self.spec_width(),
    {
        self.width
    }

    /// Get row height.
    pub fn row_height(&self) -> (r: u8)
        ensures
            r == self.spec_row_height(),
    {
        self.row_height
    }

    /// Get code type.
    pub fn code_type(&self) -> (r: Pdf417Type)
        ensures
            r == self.spec_code_type(),
    {
        self.code_type
    }

    /// Get correction level.
    pub fn correction_level(&self) -> (r: Pdf417CorrectionLevel)
        ensures
            r == self.spec_correction_level(),
    {
        self.correction_level
    }
}

impl Default for Pdf417Option {
    fn default() -> (r: Self)
        ensures
            r.spec_columns() == 0,
            r.spec_rows() == 0,
            r.spec_width() == 0,
            r.spec_row_height() == 0,
            r.spec_code_type() == Pdf417Type::Standard,
            r.spec_correction_level() == Pdf417CorrectionLevel::Ratio(1),
    {
        Pdf417Option {
            columns: 0,
            rows: 0,
            width: 0,
            row_height: 0,
            code_type: Pdf417Type::Standard,
            correction_level: Pdf417CorrectionLevel::Ratio(1),
        }
    }
}

/// A PDF417 payload with its options.
#[derive(Debug, Clone)]
pub struct Pdf417 {
    pub data: String,
    pub option: Pdf417Option,
}

impl Pdf417 {
    /// Create a new `Pdf417`.
    pub fn new(data: &str, option: Pdf417Option) -> (r: Self)
        ensures
            r.data@ == data@,
            r.option == option,
    {
        Pdf417 { data: data.to_owned(), option }
    }
}

} // verus!

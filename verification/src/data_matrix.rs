//! DataMatrix type resolution and options.

use vstd::prelude::*;

use crate::errors::PrinterError;

verus! {

/// DataMatrix shape: a square side or a rectangle pair.
#[derive(Debug, Clone, Copy, PartialEq, Eq, Structural)]
pub enum DataMatrixType {
    Square(u8),
    Rectangle(u8, u8),
}

impl Default for DataMatrixType {
    fn default() -> (r: Self)
        ensures
            r == DataMatrixType::Square(0),
    {
        DataMatrixType::Square(0)
    }
}

/// The 25 legal square sides (0 selects automatic sizing).
pub open spec fn data_matrix_square_valid(d: u8) -> bool {
    d == 0 || d == 10 || d == 12 || d == 14 || d == 16 || d == 18 || d == 20 || d == 22 || d == 24
        || d == 26 || d == 32 || d == 36 || d == 40 || d == 44 || d == 48 || d == 52 || d == 64
        || d == 72 || d == 80 || d == 88 || d == 96 || d == 104 || d == 120 || d == 132 || d == 144
}

/// The 9 legal rectangle pairs (a 0 column count selects automatic
/// sizing).
pub open spec fn data_matrix_rectangle_valid(d1: u8, d2: u8) -> bool {
    (d1 == 8 && (d2 == 0 || d2 == 18 || d2 == 32)) || (d1 == 12 && (d2 == 0 || d2 == 26 || d2
        == 36)) || (d1 == 16 && (d2 == 0 || d2 == 36 || d2 == 48))
}

/// True when the shape is one the device accepts.
pub open spec fn data_matrix_type_valid(t: DataMatrixType) -> bool {
    match t {
        DataMatrixType::Square(d) => data_matrix_square_valid(d),
        DataMatrixType::Rectangle(d1, d2) => data_matrix_rectangle_valid(d1, d2),
    }
}

/// The `(m, d1, d2)` bytes of the type command for a legal shape.
pub open spec fn data_matrix_type_bytes(t: DataMatrixType) -> (u8, u8, u8) {
    match t {
        DataMatrixType::Square(d) => (0u8, d, d),
        DataMatrixType::Rectangle(d1, d2) => (1u8, d1, d2),
    }
}

impl DataMatrixType {
    /// The `(m, d1, d2)` bytes of the type command; accepts exactly the
    /// 25 legal square sides and the 9 legal rectangle pairs.
    pub fn to_bytes(self) -> (r: Result<(u8, u8, u8), PrinterError>)
        ensures
            r is Ok <==> data_matrix_type_valid(self),
            r matches Ok(b) ==> b == data_matrix_type_bytes(self),
            r matches Err(e) ==> e is Input,
    {
        match self {
            DataMatrixType::Square(d) => {
                let ok = d == 0 || d == 10 || d == 12 || d == 14 || d == 16 || d == 18 || d == 20
                    || d == 22 || d == 24 || d == 26 || d == 32 || d == 36 || d == 40 || d == 44
                    || d == 48 || d == 52 || d == 64 || d == 72 || d == 80 || d == 88 || d == 96
                    || d == 104 || d == 120 || d == 132 || d == 144;
                if ok {
                    Ok((0, d, d))
                } else {
                    Err(
                        PrinterError::Input(
                            "invalid DataMatrix number of rows and columns".to_owned(),
                        ),
                    )
                }
            },
            DataMatrixType::Rectangle(d1, d2) => {
                let ok = (d1 == 8 && (d2 == 0 || d2 == 18 || d2 == 32)) || (d1 == 12 && (d2 == 0
                    || d2 == 26 || d2 == 36)) || (d1 == 16 && (d2 == 0 || d2 == 36 || d2 == 48));
                if ok {
                    Ok((1, d1, d2))
                } else {
                    Err(
                        PrinterError::Input(
                            "invalid DataMatrix number of rows and columns".to_owned(),
                        ),
                    )
                }
            },
        }
    }
}

/// Shape and module size of one DataMatrix symbol.
#[derive(Debug, Clone)]
pub struct DataMatrixOption {
    pub code_type: DataMatrixType,
    pub size: u8,
}

impl Default for DataMatrixOption {
    fn default() -> (r: Self)
        ensures
            r.code_type == DataMatrixType::Square(0),
            r.size == 3,
    {
        DataMatrixOption { code_type: DataMatrixType::Square(0), size: 3 }
    }
}

impl DataMatrixOption {
    /// Create a new `DataMatrixOption`; accepts exactly module sizes
    /// 2..=16.
    pub fn new(code_type: DataMatrixType, size: u8) -> (r: Result<Self, PrinterError>)
        ensures
            r is Ok <==> 2 <= size <= 16,
            r matches Ok(o) ==> o.code_type == code_type && o.size == size,
            r matches Err(e) ==> e is Input,
    {
        if size < 2 || size > 16 {
            return Err(PrinterError::Input("DataMatrix size must be in 2 - 16".to_owned()));
        }
        Ok(DataMatrixOption { code_type, size })
    }
}

/// A DataMatrix payload with its options.
#[derive(Debug, Clone)]
pub struct DataMatrix {
    pub data: String,
    pub option: DataMatrixOption,
}

impl DataMatrix {
    /// Create a new `DataMatrix`.
    pub fn new(data: &str, option: DataMatrixOption) -> (r: Self)
        ensures
            r.data@ == data@,
            r.option == option,
    {
        DataMatrix { data: data.to_owned(), option }
    }
}

} // verus!

//! QR code model, size and correction-level options.

use vstd::prelude::*;
use vstd::string::StringSliceAdditionalSpecFns;

use crate::codec::{recompose_2, split_length_2};
use crate::errors::PrinterError;

verus! {

/// Largest accepted QR payload in bytes.
pub const QRCODE_MAX_DATA_SIZE: usize = 7089;

/// QR code model.
#[derive(Debug, Clone, Copy, PartialEq, Eq, Structural)]
pub enum QRCodeModel {
    Model1,
    Model2,
    Micro,
}

/// The wire ordinal of each QR code model.
pub open spec fn qrcode_model_ordinal(model: QRCodeModel) -> u8 {
    match model {
        QRCodeModel::Model1 => 49u8,
        QRCodeModel::Model2 => 50u8,
        QRCodeModel::Micro => 51u8,
    }
}

impl QRCodeModel {
    /// The model byte of the model-select command.
    pub fn to_u8(self) -> (r: u8)
        ensures
            r == qrcode_model_ordinal(self),
    {
        match self {
            QRCodeModel::Model1 => 49,
            QRCodeModel::Model2 => 50,
            QRCodeModel::Micro => 51,
        }
    }
}

/// QR code error correction level.
#[derive(Debug, Clone, Copy, PartialEq, Eq, Structural)]
pub enum QRCodeCorrectionLevel {
    L,
    M,
    Q,
    H,
}

/// The wire ordinal of each QR code correction level.
pub open spec fn qrcode_level_ordinal(level: QRCodeCorrectionLevel) -> u8 {
    match level {
        QRCodeCorrectionLevel::L => 48u8,
        QRCodeCorrectionLevel::M => 49u8,
        QRCodeCorrectionLevel::Q => 50u8,
        QRCodeCorrectionLevel::H => 51u8,
    }
}

impl QRCodeCorrectionLevel {
    /// The level byte of the correction-level command.
    pub fn to_u8(self) -> (r: u8)
        ensures
            r == qrcode_level_ordinal(self),
    {
        match self {
            QRCodeCorrectionLevel::L => 48,
            QRCodeCorrectionLevel::M => 49,
            QRCodeCorrectionLevel::Q => 50,
            QRCodeCorrectionLevel::H => 51,
        }
    }
}

/// Model, size and correction level of one QR code.
#[derive(Debug, Clone)]
pub struct QRCodeOption {
    model: QRCodeModel,
    size: u8,
    correction_level: QRCodeCorrectionLevel,
}

impl QRCodeOption {
    /// The model of the option.
    pub closed spec fn spec_model(&self) -> QRCodeModel {
        self.model
    }

    /// The module size of the option.
    pub closed spec fn spec_size(&self) -> u8 {
        self.size
    }

    /// The correction level of the option.
    pub closed spec fn spec_correction_level(&self) -> QRCodeCorrectionLevel {
        self.correction_level
    }

    /// Create a new `QRCodeOption`.
    pub fn new(model: QRCodeModel, size: u8, correction_level: QRCodeCorrectionLevel) -> (r: Self)
        ensures
            r.spec_model() == model,
            r.spec_size() == size,
            r.spec_correction_level() == correction_level,
    {
        QRCodeOption { model, size, correction_level }
    }

    /// Get model.
    pub fn model(&self) -> (r: QRCodeModel)
        ensures
            r == self.spec_model(),
    {
        self.model
    }

    /// Get size.
    pub fn size(&self) -> (r: u8)
        ensures
            r == self.spec_size(),
    {
        self.size
    }

    /// Get error correction level.
    pub fn correction_level(&self) -> (r: QRCodeCorrectionLevel)
        ensures
            r == self.spec_correction_level(),
    {
        self.correction_level
    }
}

impl Default for QRCodeOption {
    fn default() -> (r: Self)
        ensures
            r.spec_model() == QRCodeModel::Model1,
            r.spec_size() == 4,
            r.spec_correction_level() == QRCodeCorrectionLevel::H,
    {
        QRCodeOption {
            model: QRCodeModel::Model1,
            size: 4,
            correction_level: QRCodeCorrectionLevel::H,
        }
    }
}

/// A QR code payload with its options; the payload holds at most
/// `QRCODE_MAX_DATA_SIZE` bytes.
#[derive(Debug, Clone)]
pub struct QRCode {
    pub data: String,
    pub option: QRCodeOption,
}

impl QRCode {
    /// Create a new `QRCode`; without an option the default option is
    /// used.  Accepts the payload exactly when it is short enough.
    pub fn new(data: &str, option: Option<QRCodeOption>) -> (r: Result<Self, PrinterError>)
        ensures
            r is Ok <==> data.spec_bytes().len() <= QRCODE_MAX_DATA_SIZE,
            r matches Ok(q) ==> q.data@ == data@,
            r matches Err(e) ==> e is Input,
    {
        Self::check_data(data)?;
        let option = match option {
            Some(option) => option,
            Option::None => QRCodeOption::default(),
        };
        Ok(QRCode { data: data.to_owned(), option })
    }

    /// Accept exactly the payloads of at most `QRCODE_MAX_DATA_SIZE`
    /// bytes.
    pub fn check_data(data: &str) -> (r: Result<(), PrinterError>)
        ensures
            r is Ok <==> data.spec_bytes().len() <= QRCODE_MAX_DATA_SIZE,
            r matches Err(e) ==> e is Input,
    {
        let bytes = data.as_bytes();
        if bytes.len() > QRCODE_MAX_DATA_SIZE {
            Err(PrinterError::Input("QR code data is too long".to_owned()))
        } else {
            Ok(())
        }
    }

    /// The `(pL, pH)` pair of the payload's data frame: its byte length
    /// plus the three header bytes the device counts, split little-endian.
    pub fn get_size_values(data: &str) -> (r: Result<(u8, u8), PrinterError>)
        ensures
            r is Ok <==> data.spec_bytes().len() <= QRCODE_MAX_DATA_SIZE,
            r matches Ok(p) ==> recompose_2(p.0, p.1) == data.spec_bytes().len() + 3,
            r matches Err(e) ==> e is Input,
    {
        Self::check_data(data)?;
        let bytes = data.as_bytes();
        split_length_2(bytes.len() + 3)
    }
}

} // verus!

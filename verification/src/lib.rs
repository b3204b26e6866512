//! Command and codec engine for the ESC/POS thermal-printer control language.
//!
//! The crate builds the exact byte sequences that an ESC/POS printer expects:
//! text with page-code transcoding, style commands, 1D barcodes, 2D symbols
//! (QR, PDF417, GS1 DataBar, DataMatrix, Aztec, MaxiCode), raster images and
//! real-time status requests, and it decodes the status bytes a printer sends
//! back.  Every command builder carries a contract that pins the produced
//! bytes down; transports that move the bytes to a device live outside the
//! crate.

pub mod aztec;
pub mod barcodes;
pub mod bit_image;
pub mod character;
pub mod codec;
pub mod data_matrix;
pub mod encoder;
pub mod errors;
pub mod graphics;
pub mod gs1_databar;
pub mod gs1_databar_2d;
pub mod maxi_code;
pub mod page_codes;
pub mod pdf417;
pub mod printer_options;
pub mod protocol;
pub mod qrcode;
pub mod status;
pub mod types;
pub mod ui_line;

pub use errors::PrinterError;

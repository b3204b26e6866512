//! Parameter-length codec: little-endian, fixed-width byte splits of a
//! payload length, reused by every frame-producing builder of the crate.

use vstd::prelude::*;
use vstd::string::StringSliceAdditionalSpecFns;

use crate::errors::PrinterError;

verus! {

/// The value a two-byte little-endian split `(pL, pH)` stands for.
pub open spec fn recompose_2(pl: u8, ph: u8) -> int {
    pl + 256 * ph
}

/// The value a four-byte little-endian split `(p1, p2, p3, p4)` stands for.
pub open spec fn recompose_4(p1: u8, p2: u8, p3: u8, p4: u8) -> int {
    p1 + 256 * p2 + 65536 * p3 + 16777216 * p4
}

/// Every two-byte split stands for a value the split form can carry:
/// recomposition never leaves `0..=65535`.
pub proof fn lemma_recompose_2_range(pl: u8, ph: u8)
    ensures
        0 <= recompose_2(pl, ph) <= 65535,
{
}

/// Every four-byte split stands for a value the split form can carry:
/// recomposition never leaves `0..=4294967295`.
pub proof fn lemma_recompose_4_range(p1: u8, p2: u8, p3: u8, p4: u8)
    ensures
        0 <= recompose_4(p1, p2, p3, p4) <= 0xFFFF_FFFF,
{
}

/// Split a length into the two-byte little-endian form `(pL, pH)`.
///
/// Succeeds exactly on lengths up to 65535; recomposing the split gives
/// the length back.
pub fn split_length_2(total: usize) -> (r: Result<(u8, u8), PrinterError>)
    ensures
        r is Ok <==> total <= 65535,
        r matches Ok(p) ==> recompose_2(p.0, p.1) == total,
        r matches Err(e) ==> e is Input,
{
    if total > 65535 {
        Err(PrinterError::Input("length does not fit in two parameter bytes".to_owned()))
    } else {
        let ph = total / 256;
        let pl = total % 256;
        Ok((pl as u8, ph as u8))
    }
}

/// Split a length into the four-byte little-endian form `(p1, p2, p3, p4)`.
///
/// Succeeds exactly on lengths up to 4294967295; recomposing the split
/// gives the length back.
pub fn split_length_4(total: usize) -> (r: Result<(u8, u8, u8, u8), PrinterError>)
    ensures
        r is Ok <==> total <= 0xFFFF_FFFF,
        r matches Ok(p) ==> recompose_4(p.0, p.1, p.2, p.3) == total,
        r matches Err(e) ==> e is Input,
{
    if total > 0xFFFF_FFFFusize {
        Err(PrinterError::Input("length does not fit in four parameter bytes".to_owned()))
    } else {
        let p1 = total % 256;
        let p2 = (total / 256) % 256;
        let p3 = (total / 65536) % 256;
        let p4 = total / 16777216;
        Ok((p1 as u8, p2 as u8, p3 as u8, p4 as u8))
    }
}

/// Two-byte split `(pL, pH)` of a payload's byte length plus the padding
/// that the device counts with it (the frame's header bytes).
///
/// Succeeds exactly when byte length plus padding is at most 65535.
pub fn get_parameters_number_2(data: &str, padding: u8) -> (r: Result<(u8, u8), PrinterError>)
    ensures
        r is Ok <==> data.spec_bytes().len() + padding <= 65535,
        r matches Ok(p) ==> recompose_2(p.0, p.1) == data.spec_bytes().len() + padding,
        r matches Err(e) ==> e is Input,
{
    let bytes = data.as_bytes();
    let len = bytes.len();
    if len > 65535 {
        Err(PrinterError::Input("data is too long for a two-byte length field".to_owned()))
    } else {
        split_length_2(len + padding as usize)
    }
}

/// Number of characters that fit on a line of `width` columns when every
/// character is `size` columns wide.  `size` must lie in `1..=8`.
pub fn chars_number(width: u8, size: u8) -> (r: Result<u8, PrinterError>)
    ensures
        r is Ok <==> 1 <= size <= 8,
        r matches Ok(n) ==> n == width / size,
        r matches Err(e) ==> e is Input,
{
    if size < 1 || size > 8 {
        Err(PrinterError::Input("invalid text size".to_owned()))
    } else {
        Ok(width / size)
    }
}

} // verus!

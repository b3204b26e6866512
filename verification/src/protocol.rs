//! The command builders: one function per device feature, each with a
//! byte-exact contract.

use vstd::prelude::*;
use vstd::string::StringSliceAdditionalSpecFns;
use vstd::utf8::encode_utf8;

use crate::aztec::{aztec_mode_pair, aztec_mode_valid, AztecMode, AztecOption};
use crate::barcodes::{barcode_system_ordinal, BarcodeOption, BarcodePosition, BarcodeSystem};
use crate::barcodes::{barcode_font_ordinal, barcode_height_dots, barcode_position_ordinal};
use crate::barcodes::{barcode_width_dots, BarcodeFont, BarcodeHeight, BarcodeWidth};
use crate::character::{character_set_ordinal, page_code_ordinal, CharacterSet, Font, PageCode};
use crate::bit_image::{
    bit_image_command, bit_image_size_ordinal, decoded_rgba, fit_dims, gray_of, raster_spec,
    scaled_gray, width_bytes_of, BitImage, BitImageOption,
};
use crate::character::UnderlineMode;
use crate::codec::split_length_2;
use crate::data_matrix::{
    data_matrix_type_bytes, data_matrix_type_valid, DataMatrixOption, DataMatrixType,
};
use crate::encoder::{char_to_string, Encoder};
use crate::errors::PrinterError;
use crate::gs1_databar_2d::{
    gs1_databar_2d_type_ordinal, gs1_databar_2d_width_ordinal, GS1DataBar2DOption,
    GS1DataBar2DType, GS1DataBar2DWidth,
};
use crate::maxi_code::{maxi_code_mode_ordinal, MaxiCodeMode};
use crate::page_codes::{
    lookup, page_table_spec, table_for_page_code, table_lookup, PageCodeTable,
};
use crate::pdf417::{pdf417_level_pair, pdf417_level_valid, Pdf417Option, Pdf417Type};
use crate::qrcode::{
    qrcode_level_ordinal, qrcode_model_ordinal, QRCodeCorrectionLevel, QRCodeModel, QRCodeOption,
};
use crate::status::{request_pair, RealTimeStatusRequest};
use crate::printer_options::{PrinterOptions, PrinterStyleState};
use crate::types::{CashDrawer, Command, JustifyMode};
use crate::ui_line::{line_payload, Line};

verus! {

/// A 2D symbol command: the fixed prefix, the little-endian length of
/// the tail, then the tail itself.
pub open spec fn frame_2d(tail: Seq<u8>) -> Seq<u8>
    recommends
        tail.len() <= 65535,
{
    seq![
        0x1Du8,
        0x28u8,
        0x6Bu8,
        (tail.len() % 256) as u8,
        ((tail.len() / 256) % 256) as u8,
    ] + tail
}

/// Append the bytes of `s` to `out`.
fn push_bytes(out: &mut Vec<u8>, s: &[u8])
    ensures
        final(out)@ == old(out)@ + s@,
{
    let mut i: usize = 0;
    while i < s.len()
        invariant
            i <= s@.len(),
            out@ == old(out)@ + s@.subrange(0, i as int),
        decreases s@.len() - i,
    {
        out.push(s[i]);
        proof {
            assert(s@.subrange(0, i + 1) =~= s@.subrange(0, i as int).push(s@[i as int]));
            assert(out@ =~= old(out)@ + s@.subrange(0, i + 1));
        }
        i += 1;
    }
    proof {
        assert(s@.subrange(0, s@.len() as int) =~= s@);
    }
}

/// Wrap a tail into the 2D symbol frame; rejects exactly the tails
/// whose length does not fit the two length bytes.
fn build_frame_2d(tail: Vec<u8>) -> (r: Result<Command, PrinterError>)
    ensures
        r is Ok <==> tail@.len() <= 65535,
        r matches Ok(v) ==> v@ == frame_2d(tail@),
        r matches Err(e) ==> e is Input,
{
    let (pl, ph) = match split_length_2(tail.len()) {
        Ok(p) => p,
        Err(e) => {
            return Err(e);
        },
    };
    let mut v: Vec<u8> = Vec::new();
    v.push(0x1D);
    v.push(0x28);
    v.push(0x6B);
    v.push(pl);
    v.push(ph);
    push_bytes(&mut v, tail.as_slice());
    proof {
        assert(v@ =~= frame_2d(tail@));
    }
    Ok(v)
}

/// The bytes one character contributes under a page-code table: its
/// single mapped byte where the table defines it, else the UTF-8
/// encoding the fallback encoder produces for it.
pub open spec fn char_unit(table: Seq<(char, u8)>, c: char) -> Seq<u8> {
    match table_lookup(table, c) {
        Some(b) => seq![b],
        Option::None => encode_utf8(seq![c]),
    }
}

/// Page-code encoding with an optional byte budget: characters
/// contribute their units in order until one would exceed the budget;
/// there the encoding stops, so no unit is ever split.
pub open spec fn page_encode(
    chars: Seq<char>,
    table: Seq<(char, u8)>,
    budget: Option<int>,
) -> Seq<u8>
    decreases chars.len(),
{
    if chars.len() == 0 {
        Seq::empty()
    } else {
        let u = char_unit(table, chars[0]);
        match budget {
            Option::None => u + page_encode(chars.drop_first(), table, Option::None),
            Some(m) => if u.len() <= m {
                u + page_encode(chars.drop_first(), table, Some(m - u.len()))
            } else {
                Seq::empty()
            },
        }
    }
}

/// A character inside a table's domain always contributes exactly one
/// output byte: its mapped byte.
pub proof fn lemma_mapped_char_single_byte(table: Seq<(char, u8)>, c: char)
    requires
        table_lookup(table, c) is Some,
    ensures
        char_unit(table, c).len() == 1,
        char_unit(table, c) == seq![table_lookup(table, c)->Some_0],
{
}

/// A character outside a table's domain always contributes its whole
/// generic encoding, the UTF-8 bytes of the single character.
pub proof fn lemma_unmapped_char_fallback(table: Seq<(char, u8)>, c: char)
    requires
        table_lookup(table, c) is None,
    ensures
        char_unit(table, c) == encode_utf8(seq![c]),
{
}

/// The page-code encoding never emits more bytes than its budget.
pub proof fn lemma_page_encode_budget(chars: Seq<char>, table: Seq<(char, u8)>, m: int)
    requires
        m >= 0,
    ensures
        page_encode(chars, table, Some(m)).len() <= m,
    decreases chars.len(),
{
    if chars.len() == 0 {
    } else {
        let u = char_unit(table, chars[0]);
        if u.len() <= m {
            lemma_page_encode_budget(chars.drop_first(), table, m - u.len());
        }
    }
}

/// The budgeted page-code encoding never splits a character's unit: it
/// is the unbudgeted encoding of some prefix of the characters.
pub proof fn lemma_page_encode_whole_units(chars: Seq<char>, table: Seq<(char, u8)>, m: int)
    requires
        m >= 0,
    ensures
        exists|k: int|
            0 <= k <= chars.len() && page_encode(chars, table, Some(m)) == page_encode(
                #[trigger] chars.take(k),
                table,
                Option::None,
            ),
    decreases chars.len(),
{
    if chars.len() == 0 {
        assert(chars.take(0) =~= chars);
    } else {
        let u = char_unit(table, chars[0]);
        if u.len() <= m {
            lemma_page_encode_whole_units(chars.drop_first(), table, m - u.len());
            let k0 = choose|k: int|
                0 <= k <= chars.drop_first().len() && page_encode(
                    chars.drop_first(),
                    table,
                    Some(m - u.len()),
                ) == page_encode(#[trigger] chars.drop_first().take(k), table, Option::None);
            assert(chars.take(k0 + 1).drop_first() =~= chars.drop_first().take(k0));
            assert(chars.take(k0 + 1).len() != 0 && chars.take(k0 + 1)[0] == chars[0]);
            assert(page_encode(chars.take(k0 + 1), table, Option::None) == u + page_encode(
                chars.drop_first().take(k0),
                table,
                Option::None,
            ));
            assert(page_encode(chars, table, Some(m)) == page_encode(
                chars.take(k0 + 1),
                table,
                Option::None,
            ));
        } else {
            assert(chars.take(0) =~= Seq::empty());
            assert(page_encode(chars, table, Some(m)) == page_encode(
                chars.take(0),
                table,
                Option::None,
            ));
        }
    }
}

/// The first `max` bytes of `s` where a byte limit is given, else `s`
/// whole.
pub open spec fn truncate_bytes(s: Seq<u8>, max: Option<usize>) -> Seq<u8> {
    match max {
        Some(m) => if s.len() > m {
            s.take(m as int)
        } else {
            s
        },
        Option::None => s,
    }
}

/// An optional byte limit as a mathematical budget.
pub open spec fn budget_of(max: Option<usize>) -> Option<int> {
    match max {
        Some(m) => Some(m as int),
        Option::None => Option::None,
    }
}

/// Protocol: every command of the control language as one builder
/// method, sharing one text encoder.
#[derive(Clone, Copy)]
pub struct Protocol {
    encoder: Encoder,
}

impl Default for Protocol {
    fn default() -> (r: Self)
        ensures
            r.spec_is_utf8(),
    {
        Protocol { encoder: Encoder::default() }
    }
}

impl Protocol {
    /// True when the protocol's encoder is known to encode UTF-8.
    pub closed spec fn spec_is_utf8(&self) -> bool {
        self.encoder.is_utf8()
    }

    /// True when the protocol's encoder replaces unmappable characters.
    pub closed spec fn spec_allows_unencodable(&self) -> bool {
        self.encoder.allows_unencodable()
    }

    /// Create a new protocol around an encoder.
    pub fn new(encoder: Encoder) -> (r: Self)
        ensures
            r.spec_is_utf8() == encoder.is_utf8(),
            r.spec_allows_unencodable() == encoder.allows_unencodable(),
    {
        Protocol { encoder }
    }

    /// Hardware initialization: `ESC @`.
    pub fn init(&self) -> (r: Command)
        ensures
            r@ == seq![0x1Bu8, 0x40u8],
    {
        let mut v: Vec<u8> = Vec::new();
        v.push(0x1B);
        v.push(0x40);
        proof {
            assert(v@ =~= seq![0x1Bu8, 0x40u8]);
        }
        v
    }

    /// Hardware reset.
    pub fn reset(&self) -> (r: Command)
        ensures
            r@ == seq![0x1Bu8, 0x3Fu8, 0x0Au8, 0x00u8],
    {
        let mut v: Vec<u8> = Vec::new();
        v.push(0x1B);
        v.push(0x3F);
        v.push(0x0A);
        v.push(0x00);
        proof {
            assert(v@ =~= seq![0x1Bu8, 0x3Fu8, 0x0Au8, 0x00u8]);
        }
        v
    }

    /// Cancel the data in the current print buffer.
    pub fn cancel(&self) -> (r: Command)
        ensures
            r@ == seq![0x18u8],
    {
        let mut v: Vec<u8> = Vec::new();
        v.push(0x18);
        proof {
            assert(v@ =~= seq![0x18u8]);
        }
        v
    }

    /// Paper cut, full or partial.
    pub fn cut(&self, partial: bool) -> (r: Command)
        ensures
            r@ == seq![0x1Du8, 0x56u8, 0x41u8, if partial { 1u8 } else { 0u8 }],
    {
        let mut v: Vec<u8> = Vec::new();
        v.push(0x1D);
        v.push(0x56);
        v.push(0x41);
        v.push(if partial { 1 } else { 0 });
        proof {
            assert(v@ =~= seq![0x1Du8, 0x56u8, 0x41u8, if partial { 1u8 } else { 0u8 }]);
        }
        v
    }

    /// Select a character page code.
    pub fn page_code(&self, code: PageCode) -> (r: Command)
        ensures
            r@ == seq![0x1Bu8, 0x74u8, page_code_ordinal(code)],
    {
        let mut v: Vec<u8> = Vec::new();
        v.push(0x1B);
        v.push(0x74);
        v.push(code.to_u8());
        proof {
            assert(v@ =~= seq![0x1Bu8, 0x74u8, page_code_ordinal(code)]);
        }
        v
    }

    /// Select an international character set.
    pub fn character_set(&self, code: CharacterSet) -> (r: Command)
        ensures
            r@ == seq![0x1Bu8, 0x52u8, character_set_ordinal(code)],
    {
        let mut v: Vec<u8> = Vec::new();
        v.push(0x1B);
        v.push(0x52);
        v.push(code.to_u8());
        proof {
            assert(v@ =~= seq![0x1Bu8, 0x52u8, character_set_ordinal(code)]);
        }
        v
    }

    /// Emphasis on or off.
    pub fn bold(&self, enabled: bool) -> (r: Command)
        ensures
            r@ == seq![0x1Bu8, 0x45u8, if enabled { 1u8 } else { 0u8 }],
    {
        let mut v: Vec<u8> = Vec::new();
        v.push(0x1B);
        v.push(0x45);
        v.push(if enabled { 1 } else { 0 });
        proof {
            assert(v@ =~= seq![0x1Bu8, 0x45u8, if enabled { 1u8 } else { 0u8 }]);
        }
        v
    }

    /// Underline mode.
    pub fn underline(&self, mode: UnderlineMode) -> (r: Command)
        ensures
            r@ == seq![
                0x1Bu8,
                0x2Du8,
                match mode {
                    UnderlineMode::Off => 0u8,
                    UnderlineMode::Single => 1u8,
                    UnderlineMode::Double => 2u8,
                },
            ],
    {
        let b: u8 = match mode {
            UnderlineMode::Off => 0,
            UnderlineMode::Single => 1,
            UnderlineMode::Double => 2,
        };
        let mut v: Vec<u8> = Vec::new();
        v.push(0x1B);
        v.push(0x2D);
        v.push(b);
        proof {
            assert(v@ =~= seq![0x1Bu8, 0x2Du8, b]);
        }
        v
    }

    /// Double strike on or off.
    pub fn double_strike(&self, enabled: bool) -> (r: Command)
        ensures
            r@ == seq![0x1Bu8, 0x47u8, if enabled { 1u8 } else { 0u8 }],
    {
        let mut v: Vec<u8> = Vec::new();
        v.push(0x1B);
        v.push(0x47);
        v.push(if enabled { 1 } else { 0 });
        proof {
            assert(v@ =~= seq![0x1Bu8, 0x47u8, if enabled { 1u8 } else { 0u8 }]);
        }
        v
    }

    /// Select a font.
    pub fn font(&self, font: Font) -> (r: Command)
        ensures
            r@ == seq![
                0x1Bu8,
                0x4Du8,
                match font {
                    Font::A => 0u8,
                    Font::B => 1u8,
                    Font::C => 2u8,
                },
            ],
    {
        let b: u8 = match font {
            Font::A => 0,
            Font::B => 1,
            Font::C => 2,
        };
        let mut v: Vec<u8> = Vec::new();
        v.push(0x1B);
        v.push(0x4D);
        v.push(b);
        proof {
            assert(v@ =~= seq![0x1Bu8, 0x4Du8, b]);
        }
        v
    }

    /// Flip on or off.
    pub fn flip(&self, enabled: bool) -> (r: Command)
        ensures
            r@ == seq![0x1Bu8, 0x56u8, if enabled { 1u8 } else { 0u8 }],
    {
        let mut v: Vec<u8> = Vec::new();
        v.push(0x1B);
        v.push(0x56);
        v.push(if enabled { 1 } else { 0 });
        proof {
            assert(v@ =~= seq![0x1Bu8, 0x56u8, if enabled { 1u8 } else { 0u8 }]);
        }
        v
    }

    /// Justify text left, center or right.
    pub fn justify(&self, mode: JustifyMode) -> (r: Command)
        ensures
            r@ == seq![
                0x1Bu8,
                0x61u8,
                match mode {
                    JustifyMode::LEFT => 0u8,
                    JustifyMode::CENTER => 1u8,
                    JustifyMode::RIGHT => 2u8,
                },
            ],
    {
        let b: u8 = match mode {
            JustifyMode::LEFT => 0,
            JustifyMode::CENTER => 1,
            JustifyMode::RIGHT => 2,
        };
        let mut v: Vec<u8> = Vec::new();
        v.push(0x1B);
        v.push(0x61);
        v.push(b);
        proof {
            assert(v@ =~= seq![0x1Bu8, 0x61u8, b]);
        }
        v
    }

    /// Reverse colours on or off.
    pub fn reverse_colours(&self, enabled: bool) -> (r: Command)
        ensures
            r@ == seq![0x1Du8, 0x42u8, if enabled { 1u8 } else { 0u8 }],
    {
        let mut v: Vec<u8> = Vec::new();
        v.push(0x1D);
        v.push(0x42);
        v.push(if enabled { 1 } else { 0 });
        proof {
            assert(v@ =~= seq![0x1Du8, 0x42u8, if enabled { 1u8 } else { 0u8 }]);
        }
        v
    }

    /// Smoothing mode on or off.
    pub fn smoothing(&self, enabled: bool) -> (r: Command)
        ensures
            r@ == seq![0x1Du8, 0x62u8, if enabled { 1u8 } else { 0u8 }],
    {
        let mut v: Vec<u8> = Vec::new();
        v.push(0x1D);
        v.push(0x62);
        v.push(if enabled { 1 } else { 0 });
        proof {
            assert(v@ =~= seq![0x1Du8, 0x62u8, if enabled { 1u8 } else { 0u8 }]);
        }
        v
    }

    /// Feed `lines` lines.
    pub fn feed(&self, lines: u8) -> (r: Command)
        ensures
            r@ == seq![0x1Bu8, 0x64u8, lines],
    {
        let mut v: Vec<u8> = Vec::new();
        v.push(0x1B);
        v.push(0x64);
        v.push(lines);
        proof {
            assert(v@ =~= seq![0x1Bu8, 0x64u8, lines]);
        }
        v
    }

    /// Reset the line spacing to its default.
    pub fn reset_line_spacing(&self) -> (r: Command)
        ensures
            r@ == seq![0x1Bu8, 0x32u8],
    {
        let mut v: Vec<u8> = Vec::new();
        v.push(0x1B);
        v.push(0x32);
        proof {
            assert(v@ =~= seq![0x1Bu8, 0x32u8]);
        }
        v
    }

    /// Set the line spacing.
    pub fn line_spacing(&self, value: u8) -> (r: Command)
        ensures
            r@ == seq![0x1Bu8, 0x33u8, value],
    {
        let mut v: Vec<u8> = Vec::new();
        v.push(0x1B);
        v.push(0x33);
        v.push(value);
        proof {
            assert(v@ =~= seq![0x1Bu8, 0x33u8, value]);
        }
        v
    }

    /// Set the text size; width and height must both lie in 1..=8, and
    /// are packed into one byte.
    pub fn text_size(&self, width: u8, height: u8) -> (r: Result<Command, PrinterError>)
        ensures
            r is Ok <==> (1 <= width <= 8 && 1 <= height <= 8),
            r matches Ok(v) ==> v@ == seq![
                0x1Du8,
                0x21u8,
                (((width - 1) as u8) << 4) | ((height - 1) as u8),
            ],
            r matches Err(e) ==> e is Input,
    {
        if width < 1 || width > 8 {
            return Err(PrinterError::Input("invalid text size width".to_owned()));
        }
        if height < 1 || height > 8 {
            return Err(PrinterError::Input("invalid text size height".to_owned()));
        }
        let b: u8 = ((width - 1) << 4) | (height - 1);
        let mut v: Vec<u8> = Vec::new();
        v.push(0x1D);
        v.push(0x21);
        v.push(b);
        proof {
            assert(v@ =~= seq![0x1Du8, 0x21u8, b]);
        }
        Ok(v)
    }

    /// Upside-down mode on or off.
    pub fn upside_down(&self, enabled: bool) -> (r: Command)
        ensures
            r@ == seq![0x1Bu8, 0x7Bu8, if enabled { 1u8 } else { 0u8 }],
    {
        let mut v: Vec<u8> = Vec::new();
        v.push(0x1B);
        v.push(0x7B);
        v.push(if enabled { 1 } else { 0 });
        proof {
            assert(v@ =~= seq![0x1Bu8, 0x7Bu8, if enabled { 1u8 } else { 0u8 }]);
        }
        v
    }

    /// Send a pulse to the cash drawer pin.
    pub fn cash_drawer(&self, pin: CashDrawer) -> (r: Command)
        ensures
            r@ == seq![
                0x1Bu8,
                0x70u8,
                match pin {
                    CashDrawer::Pin2 => 0u8,
                    CashDrawer::Pin5 => 1u8,
                },
            ],
    {
        let b: u8 = match pin {
            CashDrawer::Pin2 => 0,
            CashDrawer::Pin5 => 1,
        };
        let mut v: Vec<u8> = Vec::new();
        v.push(0x1B);
        v.push(0x70);
        v.push(b);
        proof {
            assert(v@ =~= seq![0x1Bu8, 0x70u8, b]);
        }
        v
    }

    /// Set horizontal and vertical motion units.
    pub fn motion_units(&self, x: u8, y: u8) -> (r: Command)
        ensures
            r@ == seq![0x1Du8, 0x50u8, x, y],
    {
        let mut v: Vec<u8> = Vec::new();
        v.push(0x1D);
        v.push(0x50);
        v.push(x);
        v.push(y);
        proof {
            assert(v@ =~= seq![0x1Du8, 0x50u8, x, y]);
        }
        v
    }

    /// Request a real-time status transmission.
    pub fn real_time_status(&self, status: RealTimeStatusRequest) -> (r: Command)
        ensures
            r@ == seq![0x10u8, 0x04u8, request_pair(status).0, request_pair(status).1],
    {
        let (n, a) = status.to_pair();
        let mut v: Vec<u8> = Vec::new();
        v.push(0x10);
        v.push(0x04);
        v.push(n);
        v.push(a);
        proof {
            assert(v@ =~= seq![0x10u8, 0x04u8, request_pair(status).0, request_pair(status).1]);
        }
        v
    }

    /// Set the HRI font of the next barcode.
    pub fn barcode_font(&self, font: BarcodeFont) -> (r: Command)
        ensures
            r@ == seq![
                0x1Du8,
                0x66u8,
                match font {
                    BarcodeFont::A => 0u8,
                    BarcodeFont::B => 1u8,
                    BarcodeFont::C => 2u8,
                    BarcodeFont::D => 3u8,
                    BarcodeFont::E => 4u8,
                },
            ],
    {
        let b = font.to_u8();
        let mut v: Vec<u8> = Vec::new();
        v.push(0x1D);
        v.push(0x66);
        v.push(b);
        proof {
            assert(v@ =~= seq![0x1Du8, 0x66u8, b]);
        }
        v
    }

    /// Set the bar height of the next barcode; zero is rejected.
    pub fn barcode_height(&self, height: u8) -> (r: Result<Command, PrinterError>)
        ensures
            r is Ok <==> height != 0,
            r matches Ok(v) ==> v@ == seq![0x1Du8, 0x68u8, height],
            r matches Err(e) ==> e is Input,
    {
        if height == 0 {
            return Err(PrinterError::Input("barcode height cannot be equal to 0".to_owned()));
        }
        let mut v: Vec<u8> = Vec::new();
        v.push(0x1D);
        v.push(0x68);
        v.push(height);
        proof {
            assert(v@ =~= seq![0x1Du8, 0x68u8, height]);
        }
        Ok(v)
    }

    /// Set the module width of the next barcode; zero is rejected and a
    /// width above 5 is clamped to 5.
    pub fn barcode_width(&self, width: u8) -> (r: Result<Command, PrinterError>)
        ensures
            r is Ok <==> width != 0,
            r matches Ok(v) ==> v@ == seq![0x1Du8, 0x77u8, if width > 5 { 5u8 } else { width }],
            r matches Err(e) ==> e is Input,
    {
        if width == 0 {
            return Err(PrinterError::Input("barcode width cannot be equal to 0".to_owned()));
        }
        let w: u8 = if width > 5 { 5 } else { width };
        let mut v: Vec<u8> = Vec::new();
        v.push(0x1D);
        v.push(0x77);
        v.push(w);
        proof {
            assert(v@ =~= seq![0x1Du8, 0x77u8, w]);
        }
        Ok(v)
    }

    /// Set the HRI position of the next barcode.
    pub fn barcode_position(&self, position: BarcodePosition) -> (r: Command)
        ensures
            r@ == seq![
                0x1Du8,
                0x48u8,
                match position {
                    BarcodePosition::Off => 0u8,
                    BarcodePosition::Above => 1u8,
                    BarcodePosition::Below => 2u8,
                    BarcodePosition::Both => 3u8,
                },
            ],
    {
        let b = position.to_u8();
        let mut v: Vec<u8> = Vec::new();
        v.push(0x1D);
        v.push(0x48);
        v.push(b);
        proof {
            assert(v@ =~= seq![0x1Du8, 0x48u8, b]);
        }
        v
    }

    /// The print command of a barcode: opcode, symbology ordinal, the
    /// payload bytes and a terminating NUL.
    pub fn barcode_print(&self, system: BarcodeSystem, data: &str) -> (r: Command)
        ensures
            r@ == seq![0x1Du8, 0x6Bu8, barcode_system_ordinal(system)] + data.spec_bytes()
                + seq![0x00u8],
    {
        let mut v: Vec<u8> = Vec::new();
        v.push(0x1D);
        v.push(0x6B);
        v.push(system.to_u8());
        push_bytes(&mut v, data.as_bytes());
        v.push(0x00);
        proof {
            assert(v@ =~= seq![0x1Du8, 0x6Bu8, barcode_system_ordinal(system)]
                + data.spec_bytes() + seq![0x00u8]);
        }
        v
    }

    /// Configure and print a barcode: module width, bar height, HRI
    /// font and HRI position commands, then the print command, in that
    /// order.
    pub fn barcode(&self, data: &str, system: BarcodeSystem, option: BarcodeOption) -> (r: Result<
        Vec<Command>,
        PrinterError,
    >)
        ensures
            r is Ok,
            r matches Ok(c) ==> c@.len() == 5 && c@[0]@ == seq![
                0x1Du8,
                0x77u8,
                barcode_width_dots(option.spec_width()),
            ] && c@[1]@ == seq![0x1Du8, 0x68u8, barcode_height_dots(option.spec_height())]
                && c@[2]@ == seq![
                0x1Du8,
                0x66u8,
                barcode_font_ordinal(option.spec_font()),
            ] && c@[3]@ == seq![0x1Du8, 0x48u8, barcode_position_ordinal(option.spec_position())]
                && c@[4]@ == seq![
                0x1Du8,
                0x6Bu8,
                barcode_system_ordinal(system),
            ] + data.spec_bytes() + seq![0x00u8],
    {
        let width_cmd = self.barcode_width(option.width().to_u8())?;
        let height_cmd = self.barcode_height(option.height().to_u8())?;
        let mut out: Vec<Command> = Vec::new();
        out.push(width_cmd);
        out.push(height_cmd);
        out.push(self.barcode_font(option.font()));
        out.push(self.barcode_position(option.position()));
        out.push(self.barcode_print(system, data));
        Ok(out)
    }

    /// Select the QR code model.
    pub fn qrcode_model(&self, model: QRCodeModel) -> (r: Command)
        ensures
            r@ == seq![
                0x1Du8,
                0x28u8,
                0x6Bu8,
                4u8,
                0u8,
                49u8,
                65u8,
                qrcode_model_ordinal(model),
                0u8,
            ],
    {
        let b = model.to_u8();
        let mut v: Vec<u8> = Vec::new();
        v.push(0x1D);
        v.push(0x28);
        v.push(0x6B);
        v.push(4);
        v.push(0);
        v.push(49);
        v.push(65);
        v.push(b);
        v.push(0);
        proof {
            assert(v@ =~= seq![0x1Du8, 0x28u8, 0x6Bu8, 4u8, 0u8, 49u8, 65u8, b, 0u8]);
        }
        v
    }

    /// Select the QR code error correction level.
    pub fn qrcode_correction_level(&self, level: QRCodeCorrectionLevel) -> (r: Command)
        ensures
            r@ == seq![
                0x1Du8,
                0x28u8,
                0x6Bu8,
                3u8,
                0u8,
                49u8,
                69u8,
                qrcode_level_ordinal(level),
            ],
    {
        let b = level.to_u8();
        let mut v: Vec<u8> = Vec::new();
        v.push(0x1D);
        v.push(0x28);
        v.push(0x6B);
        v.push(3);
        v.push(0);
        v.push(49);
        v.push(69);
        v.push(b);
        proof {
            assert(v@ =~= seq![0x1Du8, 0x28u8, 0x6Bu8, 3u8, 0u8, 49u8, 69u8, b]);
        }
        v
    }

    /// Select the QR code module size; sizes above 15 are clamped to
    /// 15.
    pub fn qrcode_size(&self, size: u8) -> (r: Command)
        ensures
            r@ == seq![
                0x1Du8,
                0x28u8,
                0x6Bu8,
                3u8,
                0u8,
                49u8,
                67u8,
                if size > 15 { 15u8 } else { size },
            ],
    {
        let s: u8 = if size > 15 { 15 } else { size };
        let mut v: Vec<u8> = Vec::new();
        v.push(0x1D);
        v.push(0x28);
        v.push(0x6B);
        v.push(3);
        v.push(0);
        v.push(49);
        v.push(67);
        v.push(s);
        proof {
            assert(v@ =~= seq![0x1Du8, 0x28u8, 0x6Bu8, 3u8, 0u8, 49u8, 67u8, s]);
        }
        v
    }

    /// The data frame of a QR code; rejects exactly the payloads whose
    /// byte length plus the three header bytes exceeds 65535.
    pub fn qrcode_data(&self, data: &str) -> (r: Result<Command, PrinterError>)
        ensures
            r is Ok <==> data.spec_bytes().len() + 3 <= 65535,
            r matches Ok(v) ==> v@ == frame_2d(seq![49u8, 80u8, 48u8] + data.spec_bytes()),
            r matches Err(e) ==> e is Input,
    {
        let mut tail: Vec<u8> = Vec::new();
        tail.push(49);
        tail.push(80);
        tail.push(48);
        push_bytes(&mut tail, data.as_bytes());
        proof {
            assert(tail@ =~= seq![49u8, 80u8, 48u8] + data.spec_bytes());
        }
        build_frame_2d(tail)
    }

    /// Print the stored QR code symbol data.
    pub fn qrcode_print(&self) -> (r: Command)
        ensures
            r@ == seq![0x1Du8, 0x28u8, 0x6Bu8, 3u8, 0u8, 49u8, 81u8, 48u8],
    {
        let mut v: Vec<u8> = Vec::new();
        v.push(0x1D);
        v.push(0x28);
        v.push(0x6B);
        v.push(3);
        v.push(0);
        v.push(49);
        v.push(81);
        v.push(48);
        proof {
            assert(v@ =~= seq![0x1Du8, 0x28u8, 0x6Bu8, 3u8, 0u8, 49u8, 81u8, 48u8]);
        }
        v
    }

    /// Configure and print a QR code: model, size and correction-level
    /// commands, the data frame, then the print command, in that order.
    pub fn qrcode(&self, data: &str, option: QRCodeOption) -> (r: Result<
        Vec<Command>,
        PrinterError,
    >)
        ensures
            r is Ok <==> data.spec_bytes().len() + 3 <= 65535,
            r matches Ok(c) ==> c@.len() == 5 && c@[0]@ == seq![
                0x1Du8,
                0x28u8,
                0x6Bu8,
                4u8,
                0u8,
                49u8,
                65u8,
                qrcode_model_ordinal(option.spec_model()),
                0u8,
            ] && c@[1]@ == seq![
                0x1Du8,
                0x28u8,
                0x6Bu8,
                3u8,
                0u8,
                49u8,
                67u8,
                if option.spec_size() > 15 { 15u8 } else { option.spec_size() },
            ] && c@[2]@ == seq![
                0x1Du8,
                0x28u8,
                0x6Bu8,
                3u8,
                0u8,
                49u8,
                69u8,
                qrcode_level_ordinal(option.spec_correction_level()),
            ] && c@[3]@ == frame_2d(seq![49u8, 80u8, 48u8] + data.spec_bytes()) && c@[4]@ == seq![
                0x1Du8,
                0x28u8,
                0x6Bu8,
                3u8,
                0u8,
                49u8,
                81u8,
                48u8,
            ],
            r matches Err(e) ==> e is Input,
    {
        let data_cmd = self.qrcode_data(data)?;
        let mut out: Vec<Command> = Vec::new();
        out.push(self.qrcode_model(option.model()));
        out.push(self.qrcode_size(option.size()));
        out.push(self.qrcode_correction_level(option.correction_level()));
        out.push(data_cmd);
        out.push(self.qrcode_print());
        Ok(out)
    }

    /// Set the 2D GS1 DataBar module width.
    pub fn gs1_databar_2d_width(&self, size: GS1DataBar2DWidth) -> (r: Command)
        ensures
            r@ == seq![
                0x1Du8,
                0x28u8,
                0x6Bu8,
                3u8,
                0u8,
                51u8,
                67u8,
                gs1_databar_2d_width_ordinal(size),
            ],
    {
        let b = size.to_u8();
        let mut v: Vec<u8> = Vec::new();
        v.push(0x1D);
        v.push(0x28);
        v.push(0x6B);
        v.push(3);
        v.push(0);
        v.push(51);
        v.push(67);
        v.push(b);
        proof {
            assert(v@ =~= seq![0x1Du8, 0x28u8, 0x6Bu8, 3u8, 0u8, 51u8, 67u8, b]);
        }
        v
    }

    /// Set the 2D GS1 DataBar expanded maximum width; the device
    /// currently always receives the fixed placeholder pair.
    pub fn gs1_databar_2d_expanded_width(&self, _max: u8) -> (r: Command)
        ensures
            r@ == seq![0x1Du8, 0x28u8, 0x6Bu8, 3u8, 0u8, 51u8, 71u8, 0u8, 0u8],
    {
        let mut v: Vec<u8> = Vec::new();
        v.push(0x1D);
        v.push(0x28);
        v.push(0x6B);
        v.push(3);
        v.push(0);
        v.push(51);
        v.push(71);
        v.push(0);
        v.push(0);
        proof {
            assert(v@ =~= seq![0x1Du8, 0x28u8, 0x6Bu8, 3u8, 0u8, 51u8, 71u8, 0u8, 0u8]);
        }
        v
    }

    /// The data frame of a 2D GS1 DataBar; rejects exactly the payloads
    /// whose byte length plus the four header bytes exceeds 65535.
    pub fn gs1_databar_2d_data(&self, data: &str, code_type: GS1DataBar2DType) -> (r: Result<
        Command,
        PrinterError,
    >)
        ensures
            r is Ok <==> data.spec_bytes().len() + 4 <= 65535,
            r matches Ok(v) ==> v@ == frame_2d(
                seq![51u8, 80u8, 48u8, gs1_databar_2d_type_ordinal(code_type)]
                    + data.spec_bytes(),
            ),
            r matches Err(e) ==> e is Input,
    {
        let t = code_type.to_u8();
        let mut tail: Vec<u8> = Vec::new();
        tail.push(51);
        tail.push(80);
        tail.push(48);
        tail.push(t);
        push_bytes(&mut tail, data.as_bytes());
        proof {
            assert(tail@ =~= seq![51u8, 80u8, 48u8, gs1_databar_2d_type_ordinal(code_type)]
                + data.spec_bytes());
        }
        build_frame_2d(tail)
    }

    /// Print the stored 2D GS1 DataBar symbol data.
    pub fn gs1_databar_2d_print(&self) -> (r: Command)
        ensures
            r@ == seq![0x1Du8, 0x28u8, 0x6Bu8, 3u8, 0u8, 51u8, 81u8, 48u8],
    {
        let mut v: Vec<u8> = Vec::new();
        v.push(0x1D);
        v.push(0x28);
        v.push(0x6B);
        v.push(3);
        v.push(0);
        v.push(51);
        v.push(81);
        v.push(48);
        proof {
            assert(v@ =~= seq![0x1Du8, 0x28u8, 0x6Bu8, 3u8, 0u8, 51u8, 81u8, 48u8]);
        }
        v
    }

    /// Configure and print a 2D GS1 DataBar: width and expanded-width
    /// commands, the data frame, then the print command, in that order.
    pub fn gs1_databar_2d(&self, data: &str, option: GS1DataBar2DOption) -> (r: Result<
        Vec<Command>,
        PrinterError,
    >)
        ensures
            r is Ok <==> data.spec_bytes().len() + 4 <= 65535,
            r matches Ok(c) ==> c@.len() == 4 && c@[0]@ == seq![
                0x1Du8,
                0x28u8,
                0x6Bu8,
                3u8,
                0u8,
                51u8,
                67u8,
                gs1_databar_2d_width_ordinal(option.spec_width()),
            ] && c@[1]@ == seq![0x1Du8, 0x28u8, 0x6Bu8, 3u8, 0u8, 51u8, 71u8, 0u8, 0u8] && c@[2]@
                == frame_2d(
                seq![51u8, 80u8, 48u8, gs1_databar_2d_type_ordinal(option.spec_code_type())]
                    + data.spec_bytes(),
            ) && c@[3]@ == seq![0x1Du8, 0x28u8, 0x6Bu8, 3u8, 0u8, 51u8, 81u8, 48u8],
            r matches Err(e) ==> e is Input,
    {
        let data_cmd = self.gs1_databar_2d_data(data, option.code_type())?;
        let mut out: Vec<Command> = Vec::new();
        out.push(self.gs1_databar_2d_width(option.width()));
        out.push(self.gs1_databar_2d_expanded_width(0));
        out.push(data_cmd);
        out.push(self.gs1_databar_2d_print());
        Ok(out)
    }

    /// Set the number of PDF417 columns.
    pub fn pdf417_columns(&self, option: &Pdf417Option) -> (r: Command)
        ensures
            r@ == seq![0x1Du8, 0x28u8, 0x6Bu8, 3u8, 0u8, 48u8, 65u8, option.spec_columns()],
    {
        let b = option.columns();
        let mut v: Vec<u8> = Vec::new();
        v.push(0x1D);
        v.push(0x28);
        v.push(0x6B);
        v.push(3);
        v.push(0);
        v.push(48);
        v.push(65);
        v.push(b);
        proof {
            assert(v@ =~= seq![0x1Du8, 0x28u8, 0x6Bu8, 3u8, 0u8, 48u8, 65u8, b]);
        }
        v
    }

    /// Set the number of PDF417 rows.
    pub fn pdf417_rows(&self, option: &Pdf417Option) -> (r: Command)
        ensures
            r@ == seq![0x1Du8, 0x28u8, 0x6Bu8, 3u8, 0u8, 48u8, 66u8, option.spec_rows()],
    {
        let b = option.rows();
        let mut v: Vec<u8> = Vec::new();
        v.push(0x1D);
        v.push(0x28);
        v.push(0x6B);
        v.push(3);
        v.push(0);
        v.push(48);
        v.push(66);
        v.push(b);
        proof {
            assert(v@ =~= seq![0x1Du8, 0x28u8, 0x6Bu8, 3u8, 0u8, 48u8, 66u8, b]);
        }
        v
    }

    /// Set the PDF417 module width.
    pub fn pdf417_width(&self, option: &Pdf417Option) -> (r: Command)
        ensures
            r@ == seq![0x1Du8, 0x28u8, 0x6Bu8, 3u8, 0u8, 48u8, 67u8, option.spec_width()],
    {
        let b = option.width();
        let mut v: Vec<u8> = Vec::new();
        v.push(0x1D);
        v.push(0x28);
        v.push(0x6B);
        v.push(3);
        v.push(0);
        v.push(48);
        v.push(67);
        v.push(b);
        proof {
            assert(v@ =~= seq![0x1Du8, 0x28u8, 0x6Bu8, 3u8, 0u8, 48u8, 67u8, b]);
        }
        v
    }

    /// Set the PDF417 row height.
    pub fn pdf417_row_height(&self, option: &Pdf417Option) -> (r: Command)
        ensures
            r@ == seq![0x1Du8, 0x28u8, 0x6Bu8, 3u8, 0u8, 48u8, 68u8, option.spec_row_height()],
    {
        let b = option.row_height();
        let mut v: Vec<u8> = Vec::new();
        v.push(0x1D);
        v.push(0x28);
        v.push(0x6B);
        v.push(3);
        v.push(0);
        v.push(48);
        v.push(68);
        v.push(b);
        proof {
            assert(v@ =~= seq![0x1Du8, 0x28u8, 0x6Bu8, 3u8, 0u8, 48u8, 68u8, b]);
        }
        v
    }

    /// Set the PDF417 error correction level; rejects exactly the
    /// ratios outside 1..=40.
    pub fn pdf417_correction_level(&self, option: &Pdf417Option) -> (r: Result<
        Command,
        PrinterError,
    >)
        ensures
            r is Ok <==> pdf417_level_valid(option.spec_correction_level()),
            r matches Ok(v) ==> v@ == seq![
                0x1Du8,
                0x28u8,
                0x6Bu8,
                3u8,
                0u8,
                48u8,
                69u8,
                pdf417_level_pair(option.spec_correction_level()).0,
                pdf417_level_pair(option.spec_correction_level()).1,
            ],
            r matches Err(e) ==> e is Input,
    {
        let (m, n) = option.correction_level().to_pair()?;
        let mut v: Vec<u8> = Vec::new();
        v.push(0x1D);
        v.push(0x28);
        v.push(0x6B);
        v.push(3);
        v.push(0);
        v.push(48);
        v.push(69);
        v.push(m);
        v.push(n);
        proof {
            assert(v@ =~= seq![0x1Du8, 0x28u8, 0x6Bu8, 3u8, 0u8, 48u8, 69u8, m, n]);
        }
        Ok(v)
    }

    /// Set the PDF417 type.
    pub fn pdf417_type(&self, option: &Pdf417Option) -> (r: Command)
        ensures
            r@ == seq![
                0x1Du8,
                0x28u8,
                0x6Bu8,
                3u8,
                0u8,
                48u8,
                70u8,
                match option.spec_code_type() {
                    Pdf417Type::Standard => 0u8,
                    Pdf417Type::Truncated => 1u8,
                },
            ],
    {
        let b = option.code_type().to_u8();
        let mut v: Vec<u8> = Vec::new();
        v.push(0x1D);
        v.push(0x28);
        v.push(0x6B);
        v.push(3);
        v.push(0);
        v.push(48);
        v.push(70);
        v.push(b);
        proof {
            assert(v@ =~= seq![0x1Du8, 0x28u8, 0x6Bu8, 3u8, 0u8, 48u8, 70u8, b]);
        }
        v
    }

    /// The data frame of a PDF417; rejects exactly the payloads whose
    /// byte length plus the three header bytes exceeds 65535.
    pub fn pdf417_data(&self, data: &str) -> (r: Result<Command, PrinterError>)
        ensures
            r is Ok <==> data.spec_bytes().len() + 3 <= 65535,
            r matches Ok(v) ==> v@ == frame_2d(seq![48u8, 80u8, 48u8] + data.spec_bytes()),
            r matches Err(e) ==> e is Input,
    {
        let mut tail: Vec<u8> = Vec::new();
        tail.push(48);
        tail.push(80);
        tail.push(48);
        push_bytes(&mut tail, data.as_bytes());
        proof {
            assert(tail@ =~= seq![48u8, 80u8, 48u8] + data.spec_bytes());
        }
        build_frame_2d(tail)
    }

    /// Print the stored PDF417 symbol data.
    pub fn pdf417_print(&self) -> (r: Command)
        ensures
            r@ == seq![0x1Du8, 0x28u8, 0x6Bu8, 3u8, 0u8, 48u8, 81u8, 48u8],
    {
        let mut v: Vec<u8> = Vec::new();
        v.push(0x1D);
        v.push(0x28);
        v.push(0x6B);
        v.push(3);
        v.push(0);
        v.push(48);
        v.push(81);
        v.push(48);
        proof {
            assert(v@ =~= seq![0x1Du8, 0x28u8, 0x6Bu8, 3u8, 0u8, 48u8, 81u8, 48u8]);
        }
        v
    }

    /// Configure and print a PDF417: columns, rows, width, row height,
    /// correction level and type commands, the data frame, then the
    /// print command, in that order.
    pub fn pdf417(&self, data: &str, option: Pdf417Option) -> (r: Result<
        Vec<Command>,
        PrinterError,
    >)
        ensures
            r is Ok <==> pdf417_level_valid(option.spec_correction_level())
                && data.spec_bytes().len() + 3 <= 65535,
            r matches Ok(c) ==> c@.len() == 8 && c@[0]@ == seq![
                0x1Du8,
                0x28u8,
                0x6Bu8,
                3u8,
                0u8,
                48u8,
                65u8,
                option.spec_columns(),
            ] && c@[1]@ == seq![0x1Du8, 0x28u8, 0x6Bu8, 3u8, 0u8, 48u8, 66u8, option.spec_rows()]
                && c@[2]@ == seq![0x1Du8, 0x28u8, 0x6Bu8, 3u8, 0u8, 48u8, 67u8, option.spec_width()]
                && c@[3]@ == seq![
                0x1Du8,
                0x28u8,
                0x6Bu8,
                3u8,
                0u8,
                48u8,
                68u8,
                option.spec_row_height(),
            ] && c@[4]@ == seq![
                0x1Du8,
                0x28u8,
                0x6Bu8,
                3u8,
                0u8,
                48u8,
                69u8,
                pdf417_level_pair(option.spec_correction_level()).0,
                pdf417_level_pair(option.spec_correction_level()).1,
            ] && c@[5]@ == seq![
                0x1Du8,
                0x28u8,
                0x6Bu8,
                3u8,
                0u8,
                48u8,
                70u8,
                match option.spec_code_type() {
                    Pdf417Type::Standard => 0u8,
                    Pdf417Type::Truncated => 1u8,
                },
            ] && c@[6]@ == frame_2d(seq![48u8, 80u8, 48u8] + data.spec_bytes()) && c@[7]@ == seq![
                0x1Du8,
                0x28u8,
                0x6Bu8,
                3u8,
                0u8,
                48u8,
                81u8,
                48u8,
            ],
            r matches Err(e) ==> e is Input,
    {
        let level_cmd = self.pdf417_correction_level(&option)?;
        let data_cmd = self.pdf417_data(data)?;
        let mut out: Vec<Command> = Vec::new();
        out.push(self.pdf417_columns(&option));
        out.push(self.pdf417_rows(&option));
        out.push(self.pdf417_width(&option));
        out.push(self.pdf417_row_height(&option));
        out.push(level_cmd);
        out.push(self.pdf417_type(&option));
        out.push(data_cmd);
        out.push(self.pdf417_print());
        Ok(out)
    }

    /// Select the MaxiCode mode.
    pub fn maxi_code_mode(&self, mode: MaxiCodeMode) -> (r: Command)
        ensures
            r@ == seq![
                0x1Du8,
                0x28u8,
                0x6Bu8,
                3u8,
                0u8,
                50u8,
                65u8,
                maxi_code_mode_ordinal(mode),
            ],
    {
        let b = mode.to_u8();
        let mut v: Vec<u8> = Vec::new();
        v.push(0x1D);
        v.push(0x28);
        v.push(0x6B);
        v.push(3);
        v.push(0);
        v.push(50);
        v.push(65);
        v.push(b);
        proof {
            assert(v@ =~= seq![0x1Du8, 0x28u8, 0x6Bu8, 3u8, 0u8, 50u8, 65u8, b]);
        }
        v
    }

    /// The data frame of a MaxiCode; rejects exactly the payloads whose
    /// byte length plus the three header bytes exceeds 65535.
    pub fn maxi_code_data(&self, data: &str) -> (r: Result<Command, PrinterError>)
        ensures
            r is Ok <==> data.spec_bytes().len() + 3 <= 65535,
            r matches Ok(v) ==> v@ == frame_2d(seq![50u8, 80u8, 48u8] + data.spec_bytes()),
            r matches Err(e) ==> e is Input,
    {
        let mut tail: Vec<u8> = Vec::new();
        tail.push(50);
        tail.push(80);
        tail.push(48);
        push_bytes(&mut tail, data.as_bytes());
        proof {
            assert(tail@ =~= seq![50u8, 80u8, 48u8] + data.spec_bytes());
        }
        build_frame_2d(tail)
    }

    /// Print the stored MaxiCode symbol data.
    pub fn maxi_code_print(&self) -> (r: Command)
        ensures
            r@ == seq![0x1Du8, 0x28u8, 0x6Bu8, 3u8, 0u8, 50u8, 81u8, 48u8],
    {
        let mut v: Vec<u8> = Vec::new();
        v.push(0x1D);
        v.push(0x28);
        v.push(0x6B);
        v.push(3);
        v.push(0);
        v.push(50);
        v.push(81);
        v.push(48);
        proof {
            assert(v@ =~= seq![0x1Du8, 0x28u8, 0x6Bu8, 3u8, 0u8, 50u8, 81u8, 48u8]);
        }
        v
    }

    /// Configure and print a MaxiCode: the mode command, the data
    /// frame, then the print command, in that order.
    pub fn maxi_code(&self, data: &str, mode: MaxiCodeMode) -> (r: Result<
        Vec<Command>,
        PrinterError,
    >)
        ensures
            r is Ok <==> data.spec_bytes().len() + 3 <= 65535,
            r matches Ok(c) ==> c@.len() == 3 && c@[0]@ == seq![
                0x1Du8,
                0x28u8,
                0x6Bu8,
                3u8,
                0u8,
                50u8,
                65u8,
                maxi_code_mode_ordinal(mode),
            ] && c@[1]@ == frame_2d(seq![50u8, 80u8, 48u8] + data.spec_bytes()) && c@[2]@ == seq![
                0x1Du8,
                0x28u8,
                0x6Bu8,
                3u8,
                0u8,
                50u8,
                81u8,
                48u8,
            ],
            r matches Err(e) ==> e is Input,
    {
        let data_cmd = self.maxi_code_data(data)?;
        let mut out: Vec<Command> = Vec::new();
        out.push(self.maxi_code_mode(mode));
        out.push(data_cmd);
        out.push(self.maxi_code_print());
        Ok(out)
    }

    /// Set the DataMatrix type, rows and columns; rejects exactly the
    /// shapes outside the device's tables.
    pub fn data_matrix_type(&self, code_type: DataMatrixType) -> (r: Result<Command, PrinterError>)
        ensures
            r is Ok <==> data_matrix_type_valid(code_type),
            r matches Ok(v) ==> v@ == seq![
                0x1Du8,
                0x28u8,
                0x6Bu8,
                5u8,
                0u8,
                54u8,
                66u8,
                data_matrix_type_bytes(code_type).0,
                data_matrix_type_bytes(code_type).1,
                data_matrix_type_bytes(code_type).2,
            ],
            r matches Err(e) ==> e is Input,
    {
        let (m, d1, d2) = code_type.to_bytes()?;
        let mut v: Vec<u8> = Vec::new();
        v.push(0x1D);
        v.push(0x28);
        v.push(0x6B);
        v.push(5);
        v.push(0);
        v.push(54);
        v.push(66);
        v.push(m);
        v.push(d1);
        v.push(d2);
        proof {
            assert(v@ =~= seq![0x1Du8, 0x28u8, 0x6Bu8, 5u8, 0u8, 54u8, 66u8, m, d1, d2]);
        }
        Ok(v)
    }

    /// Set the DataMatrix module size.
    pub fn data_matrix_size(&self, size: u8) -> (r: Command)
        ensures
            r@ == seq![0x1Du8, 0x28u8, 0x6Bu8, 3u8, 0u8, 54u8, 67u8, size],
    {
        let mut v: Vec<u8> = Vec::new();
        v.push(0x1D);
        v.push(0x28);
        v.push(0x6B);
        v.push(3);
        v.push(0);
        v.push(54);
        v.push(67);
        v.push(size);
        proof {
            assert(v@ =~= seq![0x1Du8, 0x28u8, 0x6Bu8, 3u8, 0u8, 54u8, 67u8, size]);
        }
        v
    }

    /// The data frame of a DataMatrix; rejects exactly the payloads
    /// whose byte length plus the three header bytes exceeds 65535.
    pub fn data_matrix_data(&self, data: &str) -> (r: Result<Command, PrinterError>)
        ensures
            r is Ok <==> data.spec_bytes().len() + 3 <= 65535,
            r matches Ok(v) ==> v@ == frame_2d(seq![54u8, 80u8, 48u8] + data.spec_bytes()),
            r matches Err(e) ==> e is Input,
    {
        let mut tail: Vec<u8> = Vec::new();
        tail.push(54);
        tail.push(80);
        tail.push(48);
        push_bytes(&mut tail, data.as_bytes());
        proof {
            assert(tail@ =~= seq![54u8, 80u8, 48u8] + data.spec_bytes());
        }
        build_frame_2d(tail)
    }

    /// Print the stored DataMatrix symbol data.
    pub fn data_matrix_print(&self) -> (r: Command)
        ensures
            r@ == seq![0x1Du8, 0x28u8, 0x6Bu8, 3u8, 0u8, 54u8, 81u8, 48u8],
    {
        let mut v: Vec<u8> = Vec::new();
        v.push(0x1D);
        v.push(0x28);
        v.push(0x6B);
        v.push(3);
        v.push(0);
        v.push(54);
        v.push(81);
        v.push(48);
        proof {
            assert(v@ =~= seq![0x1Du8, 0x28u8, 0x6Bu8, 3u8, 0u8, 54u8, 81u8, 48u8]);
        }
        v
    }

    /// Configure and print a DataMatrix: type and size commands, the
    /// data frame, then the print command, in that order.
    pub fn data_matrix(&self, data: &str, option: DataMatrixOption) -> (r: Result<
        Vec<Command>,
        PrinterError,
    >)
        ensures
            r is Ok <==> data_matrix_type_valid(option.code_type) && data.spec_bytes().len() + 3
                <= 65535,
            r matches Ok(c) ==> c@.len() == 4 && c@[0]@ == seq![
                0x1Du8,
                0x28u8,
                0x6Bu8,
                5u8,
                0u8,
                54u8,
                66u8,
                data_matrix_type_bytes(option.code_type).0,
                data_matrix_type_bytes(option.code_type).1,
                data_matrix_type_bytes(option.code_type).2,
            ] && c@[1]@ == seq![0x1Du8, 0x28u8, 0x6Bu8, 3u8, 0u8, 54u8, 67u8, option.size]
                && c@[2]@ == frame_2d(seq![54u8, 80u8, 48u8] + data.spec_bytes()) && c@[3]@
                == seq![0x1Du8, 0x28u8, 0x6Bu8, 3u8, 0u8, 54u8, 81u8, 48u8],
            r matches Err(e) ==> e is Input,
    {
        let type_cmd = self.data_matrix_type(option.code_type)?;
        let data_cmd = self.data_matrix_data(data)?;
        let mut out: Vec<Command> = Vec::new();
        out.push(type_cmd);
        out.push(self.data_matrix_size(option.size));
        out.push(data_cmd);
        out.push(self.data_matrix_print());
        Ok(out)
    }

    /// Set the Aztec code mode; rejects exactly the illegal layer
    /// counts.
    pub fn aztec_mode(&self, mode: AztecMode) -> (r: Result<Command, PrinterError>)
        ensures
            r is Ok <==> aztec_mode_valid(mode),
            r matches Ok(v) ==> v@ == seq![
                0x1Du8,
                0x28u8,
                0x6Bu8,
                4u8,
                0u8,
                53u8,
                66u8,
                aztec_mode_pair(mode).0,
                aztec_mode_pair(mode).1,
            ],
            r matches Err(e) ==> e is Input,
    {
        let (n1, n2) = mode.to_pair()?;
        let mut v: Vec<u8> = Vec::new();
        v.push(0x1D);
        v.push(0x28);
        v.push(0x6B);
        v.push(4);
        v.push(0);
        v.push(53);
        v.push(66);
        v.push(n1);
        v.push(n2);
        proof {
            assert(v@ =~= seq![0x1Du8, 0x28u8, 0x6Bu8, 4u8, 0u8, 53u8, 66u8, n1, n2]);
        }
        Ok(v)
    }

    /// Set the Aztec code module size.
    pub fn aztec_size(&self, size: u8) -> (r: Command)
        ensures
            r@ == seq![0x1Du8, 0x28u8, 0x6Bu8, 3u8, 0u8, 53u8, 67u8, size],
    {
        let mut v: Vec<u8> = Vec::new();
        v.push(0x1D);
        v.push(0x28);
        v.push(0x6B);
        v.push(3);
        v.push(0);
        v.push(53);
        v.push(67);
        v.push(size);
        proof {
            assert(v@ =~= seq![0x1Du8, 0x28u8, 0x6Bu8, 3u8, 0u8, 53u8, 67u8, size]);
        }
        v
    }

    /// Set the Aztec code error correction level.
    pub fn aztec_correction_level(&self, level: u8) -> (r: Command)
        ensures
            r@ == seq![0x1Du8, 0x28u8, 0x6Bu8, 4u8, 0u8, 53u8, 69u8, level],
    {
        let mut v: Vec<u8> = Vec::new();
        v.push(0x1D);
        v.push(0x28);
        v.push(0x6B);
        v.push(4);
        v.push(0);
        v.push(53);
        v.push(69);
        v.push(level);
        proof {
            assert(v@ =~= seq![0x1Du8, 0x28u8, 0x6Bu8, 4u8, 0u8, 53u8, 69u8, level]);
        }
        v
    }

    /// The data frame of an Aztec code; rejects exactly the payloads
    /// whose byte length plus the three header bytes exceeds 65535.
    pub fn aztec_data(&self, data: &str) -> (r: Result<Command, PrinterError>)
        ensures
            r is Ok <==> data.spec_bytes().len() + 3 <= 65535,
            r matches Ok(v) ==> v@ == frame_2d(seq![53u8, 80u8, 48u8] + data.spec_bytes()),
            r matches Err(e) ==> e is Input,
    {
        let mut tail: Vec<u8> = Vec::new();
        tail.push(53);
        tail.push(80);
        tail.push(48);
        push_bytes(&mut tail, data.as_bytes());
        proof {
            assert(tail@ =~= seq![53u8, 80u8, 48u8] + data.spec_bytes());
        }
        build_frame_2d(tail)
    }

    /// Print the stored Aztec code symbol data.
    pub fn aztec_print(&self) -> (r: Command)
        ensures
            r@ == seq![0x1Du8, 0x28u8, 0x6Bu8, 3u8, 0u8, 53u8, 81u8, 48u8],
    {
        let mut v: Vec<u8> = Vec::new();
        v.push(0x1D);
        v.push(0x28);
        v.push(0x6B);
        v.push(3);
        v.push(0);
        v.push(53);
        v.push(81);
        v.push(48);
        proof {
            assert(v@ =~= seq![0x1Du8, 0x28u8, 0x6Bu8, 3u8, 0u8, 53u8, 81u8, 48u8]);
        }
        v
    }

    /// Configure and print an Aztec code: mode, size and
    /// correction-level commands, the data frame, then the print
    /// command, in that order.
    pub fn aztec(&self, data: &str, option: AztecOption) -> (r: Result<Vec<Command>, PrinterError>)
        ensures
            r is Ok <==> aztec_mode_valid(option.spec_mode()) && data.spec_bytes().len() + 3
                <= 65535,
            r matches Ok(c) ==> c@.len() == 5 && c@[0]@ == seq![
                0x1Du8,
                0x28u8,
                0x6Bu8,
                4u8,
                0u8,
                53u8,
                66u8,
                aztec_mode_pair(option.spec_mode()).0,
                aztec_mode_pair(option.spec_mode()).1,
            ] && c@[1]@ == seq![0x1Du8, 0x28u8, 0x6Bu8, 3u8, 0u8, 53u8, 67u8, option.spec_size()]
                && c@[2]@ == seq![
                0x1Du8,
                0x28u8,
                0x6Bu8,
                4u8,
                0u8,
                53u8,
                69u8,
                option.spec_correction_level(),
            ] && c@[3]@ == frame_2d(seq![53u8, 80u8, 48u8] + data.spec_bytes()) && c@[4]@ == seq![
                0x1Du8,
                0x28u8,
                0x6Bu8,
                3u8,
                0u8,
                53u8,
                81u8,
                48u8,
            ],
            r matches Err(e) ==> e is Input,
    {
        let mode_cmd = self.aztec_mode(option.mode())?;
        let data_cmd = self.aztec_data(data)?;
        let mut out: Vec<Command> = Vec::new();
        out.push(mode_cmd);
        out.push(self.aztec_size(option.size()));
        out.push(self.aztec_correction_level(option.correction_level()));
        out.push(data_cmd);
        out.push(self.aztec_print());
        Ok(out)
    }

    /// Encode text for printing.  Without a page code the whole string
    /// goes through the encoder and the output bytes are truncated to
    /// the limit, which may split a multi-byte character.  With a page
    /// code, each character contributes its table byte or its encoder
    /// fallback, whole units only, stopping before the limit would be
    /// exceeded; the call fails exactly when the page code has no
    /// registered table.  The contract is exact for the UTF-8 encoder;
    /// for another codec only the byte limit is promised.
    pub fn text(&self, text: &str, page_code: Option<PageCode>, max_length: Option<usize>) -> (r:
        Result<Command, PrinterError>)
        ensures
            self.spec_is_utf8() && page_code is None ==> (r matches Ok(v) && v@ == truncate_bytes(
                encode_utf8(text@),
                max_length,
            )),
            self.spec_is_utf8() ==> (page_code matches Some(pc) ==> ((r is Ok
                <==> table_for_page_code(pc) is Some) && (r matches Ok(v) ==> v@ == page_encode(
                text@,
                page_table_spec(pc),
                budget_of(max_length),
            )))),
            max_length matches Some(m) ==> (r matches Ok(v) ==> v@.len() <= m),
            r matches Err(e) ==> e is Input,
    {
        match page_code {
            Some(pc) => {
                let table_id = PageCodeTable::from_page_code(pc)?;
                let table = table_id.get_table();
                let n = text.unicode_len();
                let mut out: Vec<u8> = Vec::new();
                let mut rem: Option<usize> = max_length;
                let mut i: usize = 0;
                proof {
                    assert(text@.skip(0) =~= text@);
                }
                while i < n
                    invariant
                        i <= n,
                        n == text@.len(),
                        table@ == page_table_spec(pc),
                        self.spec_is_utf8() ==> self.encoder.is_utf8(),
                        match (max_length, rem) {
                            (Some(m0), Some(m)) => out@.len() + m == m0,
                            (Option::None, Option::None) => true,
                            _ => false,
                        },
                        self.spec_is_utf8() ==> page_encode(
                            text@,
                            table@,
                            budget_of(max_length),
                        ) == out@ + page_encode(text@.skip(i as int), table@, budget_of(rem)),
                    ensures
                        self.spec_is_utf8() ==> out@ == page_encode(
                            text@,
                            table@,
                            budget_of(max_length),
                        ),
                        match max_length {
                            Some(m0) => out@.len() <= m0,
                            Option::None => true,
                        },
                    decreases n - i,
                {
                    let c = text.get_char(i);
                    let looked = lookup(&table, c);
                    let ghost unit_spec = char_unit(table@, c);
                    let mut unit: Vec<u8> = match looked {
                        Some(b) => {
                            let mut u: Vec<u8> = Vec::new();
                            u.push(b);
                            proof {
                                assert(u@ =~= seq![b]);
                            }
                            u
                        },
                        Option::None => {
                            let s = char_to_string(c);
                            match self.encoder.encode(s.as_str()) {
                                Ok(v) => v,
                                Err(e) => {
                                    return Err(e);
                                },
                            }
                        },
                    };
                    proof {
                        assert(self.spec_is_utf8() ==> unit@ == unit_spec);
                        assert(text@.skip(i as int)[0] == text@[i as int]);
                        assert(text@.skip(i as int).drop_first() =~= text@.skip(i + 1));
                    }
                    match rem {
                        Some(m) => {
                            if unit.len() > m {
                                proof {
                                    if self.spec_is_utf8() {
                                        assert(page_encode(
                                            text@.skip(i as int),
                                            table@,
                                            budget_of(rem),
                                        ) =~= Seq::<u8>::empty());
                                        assert(out@ =~= out@ + Seq::<u8>::empty());
                                    }
                                }
                                break ;
                            }
                            rem = Some(m - unit.len());
                            let ghost out_before = out@;
                            out.append(&mut unit);
                            proof {
                                if self.spec_is_utf8() {
                                    assert(page_encode(
                                        text@.skip(i as int),
                                        table@,
                                        Some(m as int),
                                    ) == unit_spec + page_encode(
                                        text@.skip(i + 1),
                                        table@,
                                        budget_of(rem),
                                    ));
                                    assert(out@ + page_encode(
                                        text@.skip(i + 1),
                                        table@,
                                        budget_of(rem),
                                    ) =~= out_before + page_encode(
                                        text@.skip(i as int),
                                        table@,
                                        Some(m as int),
                                    ));
                                }
                            }
                        },
                        Option::None => {
                            let ghost out_before = out@;
                            out.append(&mut unit);
                            proof {
                                if self.spec_is_utf8() {
                                    assert(page_encode(
                                        text@.skip(i as int),
                                        table@,
                                        Option::None,
                                    ) == unit_spec + page_encode(
                                        text@.skip(i + 1),
                                        table@,
                                        Option::None,
                                    ));
                                    assert(out@ + page_encode(
                                        text@.skip(i + 1),
                                        table@,
                                        Option::None,
                                    ) =~= out_before + page_encode(
                                        text@.skip(i as int),
                                        table@,
                                        Option::None,
                                    ));
                                }
                            }
                        },
                    }
                    i += 1;
                    proof {
                        if i == n {
                            assert(text@.skip(n as int) =~= Seq::<char>::empty());
                        }
                    }
                }
                Ok(out)
            },
            Option::None => {
                let mut v = self.encoder.encode(text)?;
                match max_length {
                    Some(m) => {
                        v.truncate(m);
                    },
                    Option::None => {},
                }
                Ok(v)
            },
        }
    }

    /// Build the raster command of a processed image; fails exactly
    /// when a dimension does not fit the command's length bytes.
    pub fn build_bit_image(&self, bit_image: BitImage) -> (r: Result<Command, PrinterError>)
        requires
            bit_image.wf(),
        ensures
            r is Ok <==> bit_image.spec_width() <= 65535 && bit_image.spec_height() <= 65535,
            r matches Ok(v) ==> v@ == bit_image_command(bit_image),
            r matches Err(e) ==> e is Input,
    {
        let wb_bytes = bit_image.with_bytes_u8()?;
        let h_bytes = bit_image.height_u8()?;
        let raster = bit_image.raster_data()?;
        let mut v: Vec<u8> = Vec::new();
        v.push(0x1D);
        v.push(0x76);
        v.push(0x30);
        v.push(bit_image.size().to_u8());
        push_bytes(&mut v, wb_bytes.as_slice());
        push_bytes(&mut v, h_bytes.as_slice());
        push_bytes(&mut v, raster.as_slice());
        proof {
            assert(v@ =~= bit_image_command(bit_image));
        }
        Ok(v)
    }

    /// Decode, process and frame a picture as one raster command: the
    /// byte stream is decoded, resized into the option's bounds,
    /// flattened over white, thresholded and packed.
    pub fn bit_image_from_bytes(&self, bytes: &[u8], option: BitImageOption) -> (r: Result<
        Command,
        PrinterError,
    >)
        ensures
            decoded_rgba(bytes@) is None ==> (r matches Err(e) && e is Io),
            decoded_rgba(bytes@) matches Some(d) ==> ({
                let dims = fit_dims(
                    d.0 as int,
                    d.1 as int,
                    option.spec_max_width(),
                    option.spec_max_height(),
                );
                (r is Ok <==> BitImage::area_fits(d.0, d.1, option) && dims.0 <= 65535 && dims.1
                    <= 65535) && (r matches Ok(v) ==> v@ == seq![
                    0x1Du8,
                    0x76u8,
                    0x30u8,
                    bit_image_size_ordinal(option.spec_size()),
                    (width_bytes_of(dims.0) % 256) as u8,
                    (width_bytes_of(dims.0) / 256) as u8,
                    (dims.1 % 256) as u8,
                    (dims.1 / 256) as u8,
                ] + raster_spec(
                    scaled_gray(gray_of(d.2, d.0 * d.1), d.0 as int, d.1 as int, dims.0, dims.1),
                    dims.0,
                    dims.1,
                ))
            }),
            r matches Err(e) ==> (e is Io || e is Input),
    {
        let bit_image = BitImage::from_bytes(bytes, option)?;
        self.build_bit_image(bit_image)
    }

    /// Render a line component: its style overrides, the drawn rule,
    /// then the commands that restore the previous style state.
    pub fn draw_line(
        &self,
        line: Line,
        options: PrinterOptions,
        style_state: PrinterStyleState,
    ) -> (r: Result<Vec<Command>, PrinterError>)
        requires
            ({
                let ts = match line.spec_size() {
                    Some(sz) => sz.0,
                    Option::None => style_state.text_size.0,
                };
                1 <= ts <= 8 ==> line.spec_offset() <= options.spec_characters_per_line() / ts
            }),
        ensures
            r matches Err(e) ==> (e is Input || e is Io),
            self.spec_is_utf8() ==> (r matches Ok(c) ==> ({
                let sc = (if line.spec_font() is Some {
                    1int
                } else {
                    0
                }) + (if line.spec_size() is Some {
                    1int
                } else {
                    0
                }) + (if line.spec_justify() is Some {
                    1int
                } else {
                    0
                });
                let ts = match line.spec_size() {
                    Some(sz) => sz.0,
                    Option::None => style_state.text_size.0,
                };
                let jm = match line.spec_justify() {
                    Some(j) => j,
                    Option::None => style_state.justify_mode,
                };
                let payload = line_payload(
                    line.spec_style(),
                    line.spec_width(),
                    line.spec_offset(),
                    jm,
                    (options.spec_characters_per_line() / ts) as int,
                );
                if payload.len() == 0 {
                    c@.len() == 2 * sc
                } else {
                    c@.len() == 2 * sc + 2 && c@[sc]@ == payload && c@[sc + 1]@ == seq![
                        0x1Bu8,
                        0x64u8,
                        1u8,
                    ]
                }
            })),
    {
        line.render(self.clone(), options, style_state)
    }
}

} // verus!

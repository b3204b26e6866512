//! Bit-image rasterizer: resize, alpha flattening, grayscale threshold
//! and bit packing of a decoded picture into a raster command.

use vstd::prelude::*;

use crate::errors::PrinterError;

verus! {

/// Raster size multiplier.
#[derive(Debug, Clone, Copy, PartialEq, Eq, Structural)]
pub enum BitImageSize {
    Normal,
    DoubleWidth,
    DoubleHeight,
    DoubleWidthAndHeight,
}

impl Default for BitImageSize {
    fn default() -> (r: Self)
        ensures
            r == BitImageSize::Normal,
    {
        BitImageSize::Normal
    }
}

/// The size byte of the raster command.
pub open spec fn bit_image_size_ordinal(size: BitImageSize) -> u8 {
    match size {
        BitImageSize::Normal => 0u8,
        BitImageSize::DoubleWidth => 1u8,
        BitImageSize::DoubleHeight => 2u8,
        BitImageSize::DoubleWidthAndHeight => 3u8,
    }
}

impl BitImageSize {
    /// The size byte of the raster command.
    pub fn to_u8(self) -> (r: u8)
        ensures
            r == bit_image_size_ordinal(self),
    {
        match self {
            BitImageSize::Normal => 0,
            BitImageSize::DoubleWidth => 1,
            BitImageSize::DoubleHeight => 2,
            BitImageSize::DoubleWidthAndHeight => 3,
        }
    }
}

/// Maximum width, maximum height and size multiplier of one raster
/// image; each bound, where present, is a multiple of 8.
#[derive(Debug, Clone)]
pub struct BitImageOption {
    max_width: Option<u32>,
    max_height: Option<u32>,
    size: BitImageSize,
}

impl BitImageOption {
    /// The maximum width of the option.
    pub closed spec fn spec_max_width(&self) -> Option<u32> {
        self.max_width
    }

    /// The maximum height of the option.
    pub closed spec fn spec_max_height(&self) -> Option<u32> {
        self.max_height
    }

    /// The size multiplier of the option.
    pub closed spec fn spec_size(&self) -> BitImageSize {
        self.size
    }

    /// Create a new `BitImageOption`; accepts exactly the bounds that
    /// are multiples of 8.
    pub fn new(max_width: Option<u32>, max_height: Option<u32>, size: BitImageSize) -> (r: Result<
        Self,
        PrinterError,
    >)
        ensures
            r is Ok <==> (match max_width {
                Some(mw) => mw % 8 == 0,
                Option::None => true,
            } && match max_height {
                Some(mh) => mh % 8 == 0,
                Option::None => true,
            }),
            r matches Ok(o) ==> o.spec_max_width() == max_width && o.spec_max_height()
                == max_height && o.spec_size() == size,
            r matches Err(e) ==> e is Input,
    {
        if let Some(mw) = max_width {
            if mw % 8 != 0 {
                return Err(
                    PrinterError::Input("bit image max width must be a multiple of 8".to_owned()),
                );
            }
        }
        if let Some(mh) = max_height {
            if mh % 8 != 0 {
                return Err(
                    PrinterError::Input("bit image max height must be a multiple of 8".to_owned()),
                );
            }
        }
        Ok(BitImageOption { max_width, max_height, size })
    }
}

impl Default for BitImageOption {
    fn default() -> (r: Self)
        ensures
            r.spec_max_width() == Some(512u32),
            r.spec_max_height() == Some(512u32),
            r.spec_size() == BitImageSize::Normal,
    {
        BitImageOption { max_width: Some(512), max_height: Some(512), size: BitImageSize::Normal }
    }
}

/// A decoded picture: width, height and one RGBA byte quadruple per
/// pixel, row-major.
#[derive(Debug, Clone)]
pub struct DecodedImage {
    pub width: u32,
    pub height: u32,
    pub rgba: Vec<u8>,
}

impl DecodedImage {
    /// The buffer holds exactly four bytes per pixel.
    pub open spec fn wf(&self) -> bool {
        self.rgba@.len() == self.width * self.height * 4
    }
}

/// The RGBA pixel buffer a byte stream decodes to, where it decodes at
/// all: width, height and four bytes per pixel.  The decoders behind
/// `decode_image` compute it from the bytes alone.
pub uninterp spec fn decoded_rgba(bytes: Seq<u8>) -> Option<(u32, u32, Seq<u8>)>;

/// Relies on `image::load_from_memory` and
/// `image::DynamicImage::to_rgba8`: the decoded RGBA buffer is a
/// function of the input bytes alone, and holds exactly
/// `width * height` four-byte pixels.
#[verifier::external_body]
fn decode_image(bytes: &[u8]) -> (r: Result<DecodedImage, PrinterError>)
    ensures
        r is Ok <==> decoded_rgba(bytes@) is Some,
        r matches Ok(img) ==> decoded_rgba(bytes@) == Some((img.width, img.height, img.rgba@))
            && img.wf(),
        r matches Err(e) ==> e is Io,
{
    match image::load_from_memory(bytes) {
        Ok(img) => {
            let width = img.width();
            let height = img.height();
            let rgba = img.to_rgba8().into_raw();
            Ok(DecodedImage { width, height, rgba })
        },
        Err(_) => Err(PrinterError::Io("could not decode image".to_owned())),
    }
}

/// A colour channel composited over opaque white by its alpha value.
pub open spec fn flattened_channel(c: u8, a: u8) -> int {
    (c * a + (255 - a) * 255) / 255
}

/// The gray level of pixel `p`: its channels flattened over white, then
/// weighted into an integer luma.
pub open spec fn gray_pixel(rgba: Seq<u8>, p: int) -> u8 {
    let a = rgba[4 * p + 3];
    let r = flattened_channel(rgba[4 * p], a);
    let g = flattened_channel(rgba[4 * p + 1], a);
    let b = flattened_channel(rgba[4 * p + 2], a);
    ((299 * r + 587 * g + 114 * b) / 1000) as u8
}

/// The gray levels of the first `npix` pixels of an RGBA buffer.
pub open spec fn gray_of(rgba: Seq<u8>, npix: int) -> Seq<u8> {
    Seq::new(npix as nat, |p: int| gray_pixel(rgba, p))
}

fn flatten_channel(c: u8, a: u8) -> (r: u8)
    ensures
        r == flattened_channel(c, a),
{
    let cc = c as u32;
    let aa = a as u32;
    proof {
        assert(cc * aa + (255 - aa) * 255 <= 255 * 255) by (nonlinear_arith)
            requires
                cc <= 255 && aa <= 255,
        ;
    }
    let v = (cc * aa + (255 - aa) * 255) / 255;
    v as u8
}

fn gray_pixel_at(rgba: &Vec<u8>, p: usize) -> (r: u8)
    requires
        4 * p + 4 <= rgba@.len(),
    ensures
        r == gray_pixel(rgba@, p as int),
{
    let n = rgba.len();
    proof {
        assert(4 * p + 4 <= n);
    }
    let a = rgba[4 * p + 3];
    let cr = flatten_channel(rgba[4 * p], a);
    let cg = flatten_channel(rgba[4 * p + 1], a);
    let cb = flatten_channel(rgba[4 * p + 2], a);
    let l = (299 * (cr as u32) + 587 * (cg as u32) + 114 * (cb as u32)) / 1000;
    proof {
        assert(flattened_channel(rgba@[4 * p], a) <= 510);
        assert(l <= 510 * 1000 / 1000);
    }
    l as u8
}

/// The gray levels of a whole decoded image, one byte per pixel.
fn grayscale_of(img: &DecodedImage) -> (g: Vec<u8>)
    requires
        img.wf(),
    ensures
        g@ == gray_of(img.rgba@, img.width * img.height),
{
    let npix = img.rgba.len() / 4;
    proof {
        assert(npix == img.width * img.height);
    }
    let mut g: Vec<u8> = Vec::new();
    let mut p: usize = 0;
    while p < npix
        invariant
            p <= npix,
            4 * npix <= img.rgba@.len(),
            g@.len() == p,
            forall|q: int| 0 <= q < p ==> g@[q] == gray_pixel(img.rgba@, q),
        decreases npix - p,
    {
        g.push(gray_pixel_at(&img.rgba, p));
        p += 1;
    }
    proof {
        assert(g@ =~= gray_of(img.rgba@, img.width * img.height));
    }
    g
}

/// At least one: the smallest accepted dimension after scaling.
pub open spec fn at_least_one(v: int) -> int {
    if v < 1 {
        1
    } else {
        v
    }
}

/// The dimensions that fit `(w, h)` inside the box `(bw, bh)` keeping
/// the aspect ratio, scaled by integer nearest-neighbour ratios.
pub open spec fn fit_within(w: int, h: int, bw: int, bh: int) -> (int, int)
    recommends
        w > 0 && h > 0,
{
    if bw * h <= bh * w {
        (bw, at_least_one(h * bw / w))
    } else {
        (at_least_one(w * bh / h), bh)
    }
}

/// The target dimensions of the resize step: with one bound the image
/// is fitted into a square of that bound when it exceeds it, with two
/// bounds into their box when it exceeds either, else it is kept.
pub open spec fn fit_dims(w: int, h: int, maxw: Option<u32>, maxh: Option<u32>) -> (int, int) {
    if w <= 0 || h <= 0 {
        (w, h)
    } else {
        match (maxw, maxh) {
            (Some(mw), Option::None) => if w > mw {
                fit_within(w, h, mw as int, mw as int)
            } else {
                (w, h)
            },
            (Option::None, Some(mh)) => if h > mh {
                fit_within(w, h, mh as int, mh as int)
            } else {
                (w, h)
            },
            (Some(mw), Some(mh)) => if w > mw || h > mh {
                fit_within(w, h, mw as int, mh as int)
            } else {
                (w, h)
            },
            (Option::None, Option::None) => (w, h),
        }
    }
}

proof fn lemma_scaled_dim_bounded(h: int, bw: int, bh: int, w: int)
    requires
        w > 0,
        h >= 0,
        bh >= 0,
        bw * h <= bh * w,
    ensures
        h * bw / w <= bh,
{
    vstd::arithmetic::div_mod::lemma_div_is_ordered(h * bw, bh * w, w);
    vstd::arithmetic::div_mod::lemma_div_by_multiple(bh, w);
    assert(h * bw == bw * h && bh * w == w * bh) by (nonlinear_arith);
    assert((bh * w) / w == bh);
}

fn fit_within_exec(w: u32, h: u32, bw: u32, bh: u32) -> (r: (u32, u32))
    requires
        w > 0,
        h > 0,
    ensures
        (r.0 as int, r.1 as int) == fit_within(w as int, h as int, bw as int, bh as int),
{
    let ww = w as u64;
    let hh = h as u64;
    let bww = bw as u64;
    let bhh = bh as u64;
    proof {
        assert(bww * hh <= 0xFFFF_FFFFu64 * 0xFFFF_FFFFu64 && bhh * ww <= 0xFFFF_FFFFu64
            * 0xFFFF_FFFFu64 && hh * bww <= 0xFFFF_FFFFu64 * 0xFFFF_FFFFu64 && ww * bhh
            <= 0xFFFF_FFFFu64 * 0xFFFF_FFFFu64) by (nonlinear_arith)
            requires
                ww <= 0xFFFF_FFFFu64 && hh <= 0xFFFF_FFFFu64 && bww <= 0xFFFF_FFFFu64 && bhh
                    <= 0xFFFF_FFFFu64,
        ;
    }
    if bww * hh <= bhh * ww {
        let nh = hh * bww / ww;
        proof {
            lemma_scaled_dim_bounded(hh as int, bww as int, bhh as int, ww as int);
        }
        let nh32 = if nh < 1 {
            1u32
        } else {
            nh as u32
        };
        (bw, nh32)
    } else {
        let nw = ww * bhh / hh;
        proof {
            lemma_scaled_dim_bounded(ww as int, bhh as int, bww as int, hh as int);
        }
        let nw32 = if nw < 1 {
            1u32
        } else {
            nw as u32
        };
        (nw32, bh)
    }
}

fn fit_dims_exec(w: u32, h: u32, maxw: Option<u32>, maxh: Option<u32>) -> (r: (u32, u32))
    ensures
        (r.0 as int, r.1 as int) == fit_dims(w as int, h as int, maxw, maxh),
{
    if w == 0 || h == 0 {
        return (w, h);
    }
    match (maxw, maxh) {
        (Some(mw), Option::None) => {
            if w > mw {
                fit_within_exec(w, h, mw, mw)
            } else {
                (w, h)
            }
        },
        (Option::None, Some(mh)) => {
            if h > mh {
                fit_within_exec(w, h, mh, mh)
            } else {
                (w, h)
            }
        },
        (Some(mw), Some(mh)) => {
            if w > mw || h > mh {
                fit_within_exec(w, h, mw, mh)
            } else {
                (w, h)
            }
        },
        (Option::None, Option::None) => (w, h),
    }
}

/// The gray buffer scaled to `(nw, nh)` by nearest-neighbour sampling:
/// target pixel `(x, y)` reads source pixel `(x*w/nw, y*h/nh)`.
pub open spec fn resized_gray(gray: Seq<u8>, w: int, h: int, nw: int, nh: int) -> Seq<u8>
    recommends
        nw > 0 && nh > 0,
{
    Seq::new(
        (nw * nh) as nat,
        |k: int| gray[(k / nw * h / nh) * w + (k % nw * w / nw)],
    )
}

/// The gray buffer after the resize step: unchanged when the target
/// dimensions are the source dimensions, else nearest-neighbour
/// sampled.
pub open spec fn scaled_gray(gray: Seq<u8>, w: int, h: int, nw: int, nh: int) -> Seq<u8> {
    if nw == w && nh == h {
        gray
    } else {
        resized_gray(gray, w, h, nw, nh)
    }
}

proof fn lemma_flat_index(y: int, x: int, nw: int, nh: int)
    requires
        0 <= y < nh,
        0 <= x < nw,
    ensures
        0 <= y * nw + x < nw * nh,
        (y * nw + x) / nw == y,
        (y * nw + x) % nw == x,
{
    assert(0 <= y * nw + x && y * nw + x < nw * nh) by (nonlinear_arith)
        requires
            0 <= y < nh && 0 <= x < nw,
    ;
    vstd::arithmetic::div_mod::lemma_fundamental_div_mod_converse(y * nw + x, nw, y, x);
}

fn resize_gray(gray: &Vec<u8>, w: u32, h: u32, nw: u32, nh: u32) -> (out: Vec<u8>)
    requires
        gray@.len() == w * h,
        w > 0,
        h > 0,
        nw > 0,
        nh > 0,
        nw * nh <= usize::MAX,
    ensures
        out@ == resized_gray(gray@, w as int, h as int, nw as int, nh as int),
{
    let ghost target = resized_gray(gray@, w as int, h as int, nw as int, nh as int);
    let glen = gray.len();
    let mut out: Vec<u8> = Vec::new();
    let mut y: usize = 0;
    proof {
        assert(out@ =~= target.take(0));
    }
    while y < nh as usize
        invariant
            y <= nh,
            gray@.len() == w * h,
            w > 0 && h > 0 && nw > 0 && nh > 0,
            nw * nh <= usize::MAX,
            glen == gray@.len(),
            target == resized_gray(gray@, w as int, h as int, nw as int, nh as int),
            out@.len() == y * nw,
            y * nw <= nw * nh,
            out@ == target.take((y * nw) as int),
        decreases nh - y,
    {
        proof {
            assert((y as int) * (h as int) <= ((nh as int) - 1) * (h as int)) by (nonlinear_arith)
                requires
                    0 <= (y as int) && (y as int) <= (nh as int) - 1 && (h as int) >= 0,
            ;
            vstd::arithmetic::div_mod::lemma_div_is_ordered(
                (y as int) * (h as int),
                ((nh as int) - 1) * (h as int),
                nh as int,
            );
            assert(((nh as int) - 1) * (h as int) / (nh as int) < h as int) by (nonlinear_arith)
                requires
                    (nh as int) > 0 && (h as int) > 0,
            ;
            assert((y as int) * (h as int) < 0x1_0000_0000 * 0x1_0000_0000) by (nonlinear_arith)
                requires
                    0 <= (y as int) && (y as int) < 0x1_0000_0000 && 0 <= (h as int) && (h as int)
                        < 0x1_0000_0000,
            ;
        }
        let sy = (y as u64) * (h as u64) / (nh as u64);
        let mut x: usize = 0;
        while x < nw as usize
            invariant
                x <= nw,
                y < nh,
                gray@.len() == w * h,
                w > 0 && h > 0 && nw > 0 && nh > 0,
                nw * nh <= usize::MAX,
                glen == gray@.len(),
                target == resized_gray(gray@, w as int, h as int, nw as int, nh as int),
                sy == (y as int) * (h as int) / (nh as int),
                sy < h,
                out@.len() == y * nw + x,
                y * nw + x <= nw * nh,
                out@ == target.take((y * nw + x) as int),
            decreases nw - x,
        {
            proof {
                assert((x as int) * (w as int) <= ((nw as int) - 1) * (w as int))
                    by (nonlinear_arith)
                    requires
                        0 <= (x as int) && (x as int) <= (nw as int) - 1 && (w as int) >= 0,
                ;
                vstd::arithmetic::div_mod::lemma_div_is_ordered(
                    (x as int) * (w as int),
                    ((nw as int) - 1) * (w as int),
                    nw as int,
                );
                assert(((nw as int) - 1) * (w as int) / (nw as int) < w as int) by (nonlinear_arith)
                    requires
                        (nw as int) > 0 && (w as int) > 0,
                ;
                assert((x as int) * (w as int) < 0x1_0000_0000 * 0x1_0000_0000)
                    by (nonlinear_arith)
                    requires
                        0 <= (x as int) && (x as int) < 0x1_0000_0000 && 0 <= (w as int) && (
                        w as int) < 0x1_0000_0000,
                ;
            }
            let sx = (x as u64) * (w as u64) / (nw as u64);
            proof {
                assert((sy as int) * (w as int) + (sx as int) < (w * h) as int) by (nonlinear_arith)
                    requires
                        0 <= (sy as int) && (sy as int) < (h as int) && 0 <= (sx as int) && (
                        sx as int) < (w as int) && (w as int) > 0,
                ;
                lemma_flat_index(y as int, x as int, nw as int, nh as int);
                assert((sy as int) * (w as int) + (sx as int) < glen as int);
            }
            let idx = (sy as usize) * (w as usize) + (sx as usize);
            let ghost k = (y * nw + x) as int;
            out.push(gray[idx]);
            x += 1;
            proof {
                assert(target[k] == gray@[(k / (nw as int) * (h as int) / (nh as int)) * w + (k % (
                nw as int) * (w as int) / (nw as int))]);
                assert(k / (nw as int) == y as int && k % (nw as int) == x - 1);
                assert(target[k] == gray@[idx as int]);
                assert(target.take(k + 1) =~= target.take(k).push(target[k]));
                assert(out@ =~= target.take(k + 1));
            }
        }
        y += 1;
        proof {
            assert((y as int) * nw == ((y - 1) as int) * nw + nw) by (nonlinear_arith);
        }
    }
    proof {
        assert((nh as int) * (nw as int) == (nw as int) * (nh as int)) by (nonlinear_arith);
        assert(out@ =~= target.take((nw * nh) as int));
        assert(target.take((nw * nh) as int) =~= target);
    }
    out
}

/// The number of bytes one pixel row packs into.
pub open spec fn width_bytes_of(w: int) -> int {
    (w + 7) / 8
}

/// True when the pixel at `(x, y)` prints ink: its gray level is at
/// most 128.
pub open spec fn is_ink(gray: Seq<u8>, w: int, x: int, y: int) -> bool {
    gray[y * w + x] <= 128
}

/// The first `j` bits of the byte packing pixels `x0..x0+8` of row
/// `y`, MSB first; positions past the row's width stay zero.
pub open spec fn packed_bits(gray: Seq<u8>, w: int, x0: int, y: int, j: int) -> u8
    decreases j,
{
    if j <= 0 {
        0u8
    } else {
        packed_bits(gray, w, x0, y, j - 1) | (if x0 + (j - 1) < w && is_ink(gray, w, x0 + (j - 1), y) {
            128u8 >> ((j - 1) as u8)
        } else {
            0u8
        })
    }
}

/// The packed raster of a gray buffer: bytes row-major, eight pixels
/// per byte MSB first, each row zero-padded on the right.
pub open spec fn raster_spec(gray: Seq<u8>, w: int, h: int) -> Seq<u8> {
    Seq::new(
        (width_bytes_of(w) * h) as nat,
        |k: int| packed_bits(gray, w, (k % width_bytes_of(w)) * 8, k / width_bytes_of(w), 8),
    )
}

fn pack_raster(gray: &Vec<u8>, w: u32, h: u32) -> (out: Vec<u8>)
    requires
        gray@.len() == w * h,
        w <= 65535,
        h <= 65535,
    ensures
        out@ == raster_spec(gray@, w as int, h as int),
{
    let ghost target = raster_spec(gray@, w as int, h as int);
    let wb: usize = ((w as usize) + 7) / 8;
    let mut out: Vec<u8> = Vec::new();
    let mut y: usize = 0;
    proof {
        assert(out@ =~= target.take(0));
    }
    while y < h as usize
        invariant
            y <= h,
            gray@.len() == w * h,
            w <= 65535 && h <= 65535,
            wb == width_bytes_of(w as int),
            target == raster_spec(gray@, w as int, h as int),
            out@.len() == y * wb,
            y * wb <= wb * (h as int),
            out@ == target.take((y * wb) as int),
        decreases h - y,
    {
        let mut bx: usize = 0;
        while bx < wb
            invariant
                bx <= wb,
                y < h,
                gray@.len() == w * h,
                w <= 65535 && h <= 65535,
                wb == width_bytes_of(w as int),
                target == raster_spec(gray@, w as int, h as int),
                out@.len() == y * wb + bx,
                y * wb + bx <= wb * (h as int),
                out@ == target.take((y * wb + bx) as int),
            decreases wb - bx,
        {
            let x0: usize = bx * 8;
            let mut byte: u8 = 0;
            let mut j: usize = 0;
            while j < 8
                invariant
                    j <= 8,
                    y < h,
                    gray@.len() == w * h,
                    w <= 65535 && h <= 65535,
                    x0 == bx * 8,
                    bx < wb,
                    wb == width_bytes_of(w as int),
                    byte == packed_bits(gray@, w as int, x0 as int, y as int, j as int),
                decreases 8 - j,
            {
                let x = x0 + j;
                let mask: u8 = if x < w as usize {
                    proof {
                        assert((y as int) * (w as int) + (x as int) < (w * h) as int && (y as int)
                            * (w as int) + (x as int) < 0xFFFF_FFFF) by (nonlinear_arith)
                            requires
                                0 <= (y as int) && (y as int) < (h as int) && 0 <= (x as int) && (
                                x as int) < (w as int) && (w as int) <= 65535 && (h as int)
                                    <= 65535,
                        ;
                    }
                    let idx = y * (w as usize) + x;
                    if gray[idx] <= 128 {
                        128u8 >> (j as u8)
                    } else {
                        0u8
                    }
                } else {
                    0u8
                };
                byte = byte | mask;
                proof {
                    assert(((j + 1 - 1) as u8) == (j as u8));
                    assert(byte == packed_bits(gray@, w as int, x0 as int, y as int, j + 1));
                }
                j += 1;
            }
            let ghost k = (y * wb + bx) as int;
            out.push(byte);
            bx += 1;
            proof {
                if wb > 0 {
                    lemma_flat_index(y as int, (bx - 1) as int, wb as int, h as int);
                }
                assert(target[k] == packed_bits(
                    gray@,
                    w as int,
                    (k % (wb as int)) * 8,
                    k / (wb as int),
                    8,
                ));
                assert(k / (wb as int) == y as int && k % (wb as int) == bx - 1);
                assert(target[k] == byte);
                assert(target.take(k + 1) =~= target.take(k).push(target[k]));
                assert(out@ =~= target.take(k + 1));
            }
        }
        y += 1;
        proof {
            assert((y as int) * wb == ((y - 1) as int) * wb + wb) by (nonlinear_arith);
            assert(y * wb <= wb * (h as int)) by (nonlinear_arith)
                requires
                    (y as int) <= (h as int) && wb as int >= 0 && (y as int) * (wb as int) == (
                    y as int) * (wb as int),
            ;
        }
    }
    proof {
        assert((h as int) * (wb as int) == (wb as int) * (h as int)) by (nonlinear_arith);
        assert(out@ =~= target.take((width_bytes_of(w as int) * h) as int));
        assert(target.take((width_bytes_of(w as int) * h) as int) =~= target);
    }
    out
}

/// A processed raster image: its gray levels, one byte per pixel, with
/// the dimensions after the resize step and the size multiplier.
#[derive(Debug, Clone)]
pub struct BitImage {
    width: u32,
    height: u32,
    gray: Vec<u8>,
    size: BitImageSize,
}

impl BitImage {
    /// The width in pixels.
    pub closed spec fn spec_width(&self) -> u32 {
        self.width
    }

    /// The height in pixels.
    pub closed spec fn spec_height(&self) -> u32 {
        self.height
    }

    /// The gray levels, row-major.
    pub closed spec fn spec_gray(&self) -> Seq<u8> {
        self.gray@
    }

    /// The size multiplier.
    pub closed spec fn spec_size(&self) -> BitImageSize {
        self.size
    }

    /// The buffer holds one gray byte per pixel.
    pub open spec fn wf(&self) -> bool {
        self.spec_gray().len() == self.spec_width() * self.spec_height()
    }

    /// True when the resized pixel count of a decoded image fits in
    /// memory, so that processing it is possible at all.
    pub open spec fn area_fits(w0: u32, h0: u32, option: BitImageOption) -> bool {
        fit_dims(w0 as int, h0 as int, option.spec_max_width(), option.spec_max_height()).0
            * fit_dims(w0 as int, h0 as int, option.spec_max_width(), option.spec_max_height()).1
            <= usize::MAX
    }

    /// Decode a byte stream, resize the picture into the option's
    /// bounds, flatten its alpha over white and keep its gray levels.
    /// Fails exactly on streams that do not decode, and on pictures
    /// whose resized pixel count cannot be held.
    pub fn from_bytes(bytes: &[u8], option: BitImageOption) -> (r: Result<Self, PrinterError>)
        ensures
            decoded_rgba(bytes@) is None ==> (r matches Err(e) && e is Io),
            decoded_rgba(bytes@) matches Some(d) ==> (r is Ok <==> Self::area_fits(
                d.0,
                d.1,
                option,
            )),
            decoded_rgba(bytes@) matches Some(d) ==> (r matches Ok(b) ==> b.wf()
                && b.spec_width() == fit_dims(
                d.0 as int,
                d.1 as int,
                option.spec_max_width(),
                option.spec_max_height(),
            ).0 && b.spec_height() == fit_dims(
                d.0 as int,
                d.1 as int,
                option.spec_max_width(),
                option.spec_max_height(),
            ).1 && b.spec_size() == option.spec_size() && b.spec_gray() == scaled_gray(
                gray_of(d.2, d.0 * d.1),
                d.0 as int,
                d.1 as int,
                b.spec_width() as int,
                b.spec_height() as int,
            )),
            r matches Err(e) ==> (e is Io || e is Input),
    {
        let img = decode_image(bytes)?;
        let gray0 = grayscale_of(&img);
        let (nw, nh) = fit_dims_exec(img.width, img.height, option.max_width, option.max_height);
        let size = option.size;
        if nw == img.width && nh == img.height {
            let gl = gray0.len();
            proof {
                assert(gray0@.len() == img.width * img.height);
                assert((nw as int) * (nh as int) == gl as int);
            }
            Ok(BitImage { width: nw, height: nh, gray: gray0, size })
        } else if nw == 0 || nh == 0 {
            let empty: Vec<u8> = Vec::new();
            proof {
                assert((nw as int) * (nh as int) == 0) by (nonlinear_arith)
                    requires
                        nw as int == 0 || nh as int == 0,
                ;
                assert(empty@ =~= resized_gray(
                    gray0@,
                    img.width as int,
                    img.height as int,
                    nw as int,
                    nh as int,
                ));
            }
            Ok(BitImage { width: nw, height: nh, gray: empty, size })
        } else {
            proof {
                assert((nw as int) * (nh as int) < 0x1_0000_0000 * 0x1_0000_0000)
                    by (nonlinear_arith)
                    requires
                        0 <= (nw as int) && (nw as int) < 0x1_0000_0000 && 0 <= (nh as int) && (
                        nh as int) < 0x1_0000_0000,
                ;
            }
            let prod = (nw as u64) * (nh as u64);
            if prod > usize::MAX as u64 {
                return Err(PrinterError::Input("bit image is too large".to_owned()));
            }
            proof {
                assert(img.width > 0 && img.height > 0);
            }
            let gray = resize_gray(&gray0, img.width, img.height, nw, nh);
            proof {
                assert(gray@.len() == (nw as int) * (nh as int));
            }
            Ok(BitImage { width: nw, height: nh, gray, size })
        }
    }

    /// Get the size multiplier.
    pub fn size(&self) -> (r: BitImageSize)
        ensures
            r == self.spec_size(),
    {
        self.size
    }

    /// The width of one row in bytes; fails exactly when the pixel
    /// width does not fit the command's two length bytes.
    pub fn width_bytes(&self) -> (r: Result<u16, PrinterError>)
        ensures
            r is Ok <==> self.spec_width() <= 65535,
            r matches Ok(v) ==> v == width_bytes_of(self.spec_width() as int),
            r matches Err(e) ==> e is Input,
    {
        if self.width > 65535 {
            return Err(PrinterError::Input("bit image width is out of range".to_owned()));
        }
        Ok((((self.width as u16) as u32 + 7) / 8) as u16)
    }

    /// The `(xL, xH)` byte pair of the row width in bytes.
    pub fn with_bytes_u8(&self) -> (r: Result<Vec<u8>, PrinterError>)
        ensures
            r is Ok <==> self.spec_width() <= 65535,
            r matches Ok(v) ==> v@ == seq![
                (width_bytes_of(self.spec_width() as int) % 256) as u8,
                (width_bytes_of(self.spec_width() as int) / 256) as u8,
            ],
            r matches Err(e) ==> e is Input,
    {
        let wb = self.width_bytes()?;
        let mut v: Vec<u8> = Vec::new();
        v.push((wb % 256) as u8);
        v.push((wb / 256) as u8);
        proof {
            assert(v@ =~= seq![
                (width_bytes_of(self.spec_width() as int) % 256) as u8,
                (width_bytes_of(self.spec_width() as int) / 256) as u8,
            ]);
        }
        Ok(v)
    }

    /// The `(yL, yH)` byte pair of the height in pixels.
    pub fn height_u8(&self) -> (r: Result<Vec<u8>, PrinterError>)
        ensures
            r is Ok <==> self.spec_height() <= 65535,
            r matches Ok(v) ==> v@ == seq![
                (self.spec_height() as int % 256) as u8,
                (self.spec_height() as int / 256) as u8,
            ],
            r matches Err(e) ==> e is Input,
    {
        if self.height > 65535 {
            return Err(PrinterError::Input("bit image height is out of range".to_owned()));
        }
        let h = self.height as u16;
        let mut v: Vec<u8> = Vec::new();
        v.push((h % 256) as u8);
        v.push((h / 256) as u8);
        proof {
            assert(v@ =~= seq![
                (self.spec_height() as int % 256) as u8,
                (self.spec_height() as int / 256) as u8,
            ]);
        }
        Ok(v)
    }

    /// The packed raster bytes of the image; fails exactly when a
    /// dimension does not fit the command's length bytes.
    pub fn raster_data(&self) -> (r: Result<Vec<u8>, PrinterError>)
        requires
            self.wf(),
        ensures
            r is Ok <==> self.spec_width() <= 65535 && self.spec_height() <= 65535,
            r matches Ok(v) ==> v@ == raster_spec(
                self.spec_gray(),
                self.spec_width() as int,
                self.spec_height() as int,
            ),
            r matches Err(e) ==> e is Input,
    {
        if self.width > 65535 {
            return Err(PrinterError::Input("bit image width is out of range".to_owned()));
        }
        if self.height > 65535 {
            return Err(PrinterError::Input("bit image height is out of range".to_owned()));
        }
        Ok(pack_raster(&self.gray, self.width, self.height))
    }
}

/// The raster command of a processed image: prefix, size byte, the row
/// width in bytes and the height as little-endian pairs, then the
/// packed raster.
pub open spec fn bit_image_command(b: BitImage) -> Seq<u8> {
    seq![
        0x1Du8,
        0x76u8,
        0x30u8,
        bit_image_size_ordinal(b.spec_size()),
        (width_bytes_of(b.spec_width() as int) % 256) as u8,
        (width_bytes_of(b.spec_width() as int) / 256) as u8,
        (b.spec_height() as int % 256) as u8,
        (b.spec_height() as int / 256) as u8,
    ] + raster_spec(b.spec_gray(), b.spec_width() as int, b.spec_height() as int)
}

proof fn lemma_flat_bounds(k: int, a: int, b: int)
    requires
        0 <= k < a * b,
        a > 0,
    ensures
        0 <= k / a < b,
        0 <= k % a < a,
{
    vstd::arithmetic::div_mod::lemma_fundamental_div_mod(k, a);
    vstd::arithmetic::div_mod::lemma_mod_bound(k, a);
    vstd::arithmetic::div_mod::lemma_div_pos_is_pos(k, a);
    assert(k / a < b) by (nonlinear_arith)
        requires
            a > 0 && k < a * b && k == a * (k / a) + k % a && 0 <= k % a < a,
    ;
}

proof fn lemma_packed_bits_blank(gray: Seq<u8>, w: int, h: int, x0: int, y: int, j: int)
    requires
        gray.len() == w * h,
        0 <= y < h,
        0 <= x0,
        forall|p: int| 0 <= p < gray.len() ==> gray[p] > 128,
    ensures
        packed_bits(gray, w, x0, y, j) == 0,
    decreases j,
{
    if j <= 0 {
    } else {
        lemma_packed_bits_blank(gray, w, h, x0, y, j - 1);
        if x0 + (j - 1) < w {
            let x = x0 + (j - 1);
            assert(0 <= y * w + x < w * h) by (nonlinear_arith)
                requires
                    0 <= y < h && 0 <= x < w,
            ;
            assert(!is_ink(gray, w, x, y));
        }
        assert(0u8 | 0u8 == 0u8) by (bit_vector);
    }
}

/// A gray buffer none of whose pixels is dark packs to an all-zero
/// raster of exactly `width_bytes * height` bytes.
pub proof fn lemma_blank_raster(gray: Seq<u8>, w: int, h: int)
    requires
        gray.len() == w * h,
        w >= 0,
        h >= 0,
        forall|p: int| 0 <= p < gray.len() ==> gray[p] > 128,
    ensures
        raster_spec(gray, w, h).len() == width_bytes_of(w) * h,
        forall|k: int|
            0 <= k < raster_spec(gray, w, h).len() ==> raster_spec(gray, w, h)[k] == 0,
{
    let wb = width_bytes_of(w);
    assert forall|k: int| 0 <= k < raster_spec(gray, w, h).len() implies raster_spec(
        gray,
        w,
        h,
    )[k] == 0 by {
        assert(wb > 0) by {
            if wb <= 0 {
                assert(wb * h <= 0) by (nonlinear_arith)
                    requires
                        wb <= 0 && h >= 0,
                ;
            }
        }
        lemma_flat_bounds(k, wb, h);
        lemma_packed_bits_blank(gray, w, h, (k % wb) * 8, k / wb, 8);
    }
}

/// A pixel that is fully transparent, or whose colour channels are all
/// white, has the white gray level.
pub proof fn lemma_blank_pixels_white(rgba: Seq<u8>, npix: int)
    requires
        4 * npix <= rgba.len(),
        forall|p: int|
            0 <= p < npix ==> (#[trigger] rgba[4 * p + 3] == 0 || (rgba[4 * p] == 255 && rgba[4 * p
                + 1] == 255 && rgba[4 * p + 2] == 255)),
    ensures
        forall|p: int| 0 <= p < npix ==> gray_of(rgba, npix)[p] == 255,
{
    assert forall|p: int| 0 <= p < npix implies gray_of(rgba, npix)[p] == 255 by {
        let a = rgba[4 * p + 3];
        if a == 0 {
            assert(flattened_channel(rgba[4 * p], 0) == 255);
            assert(flattened_channel(rgba[4 * p + 1], 0) == 255);
            assert(flattened_channel(rgba[4 * p + 2], 0) == 255);
        } else {
            assert(rgba[4 * p] == 255 && rgba[4 * p + 1] == 255 && rgba[4 * p + 2] == 255);
            assert(flattened_channel(255u8, a) == 255);
        }
        assert(gray_pixel(rgba, p) == 255);
    }
}

/// Scaling a gray buffer none of whose pixels is dark yields a gray
/// buffer none of whose pixels is dark.
pub proof fn lemma_scaled_blank(gray: Seq<u8>, w: int, h: int, nw: int, nh: int)
    requires
        gray.len() == w * h,
        w >= 0,
        h >= 0,
        nw >= 0,
        nh >= 0,
        forall|p: int| 0 <= p < gray.len() ==> gray[p] > 128,
        nw == w && nh == h || w > 0 && h > 0,
    ensures
        forall|p: int|
            0 <= p < scaled_gray(gray, w, h, nw, nh).len() ==> scaled_gray(gray, w, h, nw, nh)[p]
                > 128,
{
    if nw == w && nh == h {
    } else {
        assert forall|p: int| 0 <= p < scaled_gray(gray, w, h, nw, nh).len() implies scaled_gray(
            gray,
            w,
            h,
            nw,
            nh,
        )[p] > 128 by {
            assert(nw > 0) by {
                if nw <= 0 {
                    assert(nw * nh <= 0) by (nonlinear_arith)
                        requires
                            nw <= 0 && nh >= 0,
                    ;
                }
            }
            lemma_flat_bounds(p, nw, nh);
            let yy = p / nw;
            let xx = p % nw;
            let sy = yy * h / nh;
            let sx = xx * w / nw;
            assert(yy * h <= (nh - 1) * h) by (nonlinear_arith)
                requires
                    0 <= yy <= nh - 1 && h >= 0,
            ;
            vstd::arithmetic::div_mod::lemma_div_is_ordered(yy * h, (nh - 1) * h, nh);
            assert((nh - 1) * h / nh < h) by (nonlinear_arith)
                requires
                    nh > 0 && h > 0,
            ;
            vstd::arithmetic::div_mod::lemma_div_pos_is_pos(yy * h, nh);
            assert(yy * h >= 0) by (nonlinear_arith)
                requires
                    yy >= 0 && h >= 0,
            ;
            assert(xx * w <= (nw - 1) * w) by (nonlinear_arith)
                requires
                    0 <= xx <= nw - 1 && w >= 0,
            ;
            vstd::arithmetic::div_mod::lemma_div_is_ordered(xx * w, (nw - 1) * w, nw);
            assert((nw - 1) * w / nw < w) by (nonlinear_arith)
                requires
                    nw > 0 && w > 0,
            ;
            vstd::arithmetic::div_mod::lemma_div_pos_is_pos(xx * w, nw);
            assert(xx * w >= 0) by (nonlinear_arith)
                requires
                    xx >= 0 && w >= 0,
            ;
            assert(0 <= sy * w + sx < w * h) by (nonlinear_arith)
                requires
                    0 <= sy < h && 0 <= sx < w,
            ;
        }
    }
}

/// A picture that is fully transparent, or fully white, rasterizes —
/// after the resize the options call for — to an all-zero packed
/// buffer of exactly `width_bytes * height` bytes.
pub proof fn lemma_blank_image_raster(w0: u32, h0: u32, rgba: Seq<u8>, option: BitImageOption)
    requires
        rgba.len() == w0 * h0 * 4,
        forall|p: int|
            0 <= p < w0 * h0 ==> (#[trigger] rgba[4 * p + 3] == 0 || (rgba[4 * p] == 255 && rgba[4
                * p + 1] == 255 && rgba[4 * p + 2] == 255)),
    ensures
        ({
            let dims = fit_dims(
                w0 as int,
                h0 as int,
                option.spec_max_width(),
                option.spec_max_height(),
            );
            let g = scaled_gray(gray_of(rgba, w0 * h0), w0 as int, h0 as int, dims.0, dims.1);
            raster_spec(g, dims.0, dims.1).len() == width_bytes_of(dims.0) * dims.1 && forall|
                k: int,
            |
                0 <= k < raster_spec(g, dims.0, dims.1).len() ==> raster_spec(
                    g,
                    dims.0,
                    dims.1,
                )[k] == 0
        }),
{
    let w = w0 as int;
    let h = h0 as int;
    let dims = fit_dims(w, h, option.spec_max_width(), option.spec_max_height());
    let g0 = gray_of(rgba, w0 * h0);
    assert(4 * (w * h) <= rgba.len()) by (nonlinear_arith)
        requires
            rgba.len() == w * h * 4,
    ;
    lemma_blank_pixels_white(rgba, w * h);
    assert(forall|p: int| 0 <= p < g0.len() ==> g0[p] > 128);
    assert(g0.len() == w * h);
    assert(dims.0 == w && dims.1 == h || w > 0 && h > 0);
    lemma_scaled_blank(g0, w, h, dims.0, dims.1);
    let g = scaled_gray(g0, w, h, dims.0, dims.1);
    assert(g.len() == dims.0 * dims.1) by {
        if dims.0 == w && dims.1 == h {
            assert(w * h == dims.0 * dims.1);
        }
    }
    assert(dims.0 >= 0 && dims.1 >= 0);
    lemma_blank_raster(g, dims.0, dims.1);
}

} // verus!

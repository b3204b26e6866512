use escpos::bit_image::{BitImage, BitImageOption, BitImageSize};
use escpos::encoder::Encoder;
use escpos::protocol::Protocol;

fn crc32(data: &[u8]) -> u32 {
    let mut crc: u32 = 0xFFFF_FFFF;
    for &b in data {
        crc ^= b as u32;
        for _ in 0..8 {
            if crc & 1 == 1 {
                crc = (crc >> 1) ^ 0xEDB8_8320;
            } else {
                crc >>= 1;
            }
        }
    }
    crc ^ 0xFFFF_FFFF
}

fn adler32(data: &[u8]) -> u32 {
    let mut a: u32 = 1;
    let mut b: u32 = 0;
    for &x in data {
        a = (a + x as u32) % 65521;
        b = (b + a) % 65521;
    }
    (b << 16) | a
}

fn chunk(out: &mut Vec<u8>, kind: &[u8; 4], data: &[u8]) {
    out.extend_from_slice(&(data.len() as u32).to_be_bytes());
    out.extend_from_slice(kind);
    out.extend_from_slice(data);
    let mut crc_input = kind.to_vec();
    crc_input.extend_from_slice(data);
    out.extend_from_slice(&crc32(&crc_input).to_be_bytes());
}

/// Build a PNG holding the given RGBA pixels, stored uncompressed.
fn png_rgba(width: u32, height: u32, pixels: &[[u8; 4]]) -> Vec<u8> {
    assert_eq!(pixels.len() as u32, width * height);
    let mut out = vec![0x89, b'P', b'N', b'G', 0x0D, 0x0A, 0x1A, 0x0A];

    let mut ihdr = Vec::new();
    ihdr.extend_from_slice(&width.to_be_bytes());
    ihdr.extend_from_slice(&height.to_be_bytes());
    ihdr.extend_from_slice(&[8, 6, 0, 0, 0]);
    chunk(&mut out, b"IHDR", &ihdr);

    let mut raw = Vec::new();
    for y in 0..height {
        raw.push(0); // no filter
        for x in 0..width {
            raw.extend_from_slice(&pixels[(y * width + x) as usize]);
        }
    }
    let mut idat = vec![0x78, 0x01, 0x01];
    idat.extend_from_slice(&(raw.len() as u16).to_le_bytes());
    idat.extend_from_slice(&(!(raw.len() as u16)).to_le_bytes());
    idat.extend_from_slice(&raw);
    idat.extend_from_slice(&adler32(&raw).to_be_bytes());
    chunk(&mut out, b"IDAT", &idat);

    chunk(&mut out, b"IEND", &[]);
    out
}

#[test]
fn test_bit_image_option_bounds() {
    assert!(BitImageOption::new(Some(128), None, BitImageSize::Normal).is_ok());
    assert!(BitImageOption::new(Some(100), None, BitImageSize::Normal).is_err());
    assert!(BitImageOption::new(None, Some(100), BitImageSize::Normal).is_err());
    assert!(BitImageOption::new(None, None, BitImageSize::Normal).is_ok());
}

#[test]
fn test_bit_image_rejects_garbage() {
    let option = BitImageOption::new(None, None, BitImageSize::Normal).unwrap();
    assert!(BitImage::from_bytes(&[1, 2, 3, 4], option).is_err());
}

#[test]
fn test_bit_image_white_is_all_zero() {
    let protocol = Protocol::new(Encoder::default());
    let pixels = vec![[255u8, 255, 255, 255]; 16];
    let png = png_rgba(8, 2, &pixels);
    let option = BitImageOption::new(None, None, BitImageSize::Normal).unwrap();
    assert_eq!(
        protocol.bit_image_from_bytes(&png, option).unwrap(),
        vec![29, 118, 48, 0, 1, 0, 2, 0, 0, 0]
    );
}

#[test]
fn test_bit_image_transparent_is_all_zero() {
    let protocol = Protocol::new(Encoder::default());
    let pixels = vec![[12u8, 34, 56, 0]; 16];
    let png = png_rgba(8, 2, &pixels);
    let option = BitImageOption::new(None, None, BitImageSize::Normal).unwrap();
    assert_eq!(
        protocol.bit_image_from_bytes(&png, option).unwrap(),
        vec![29, 118, 48, 0, 1, 0, 2, 0, 0, 0]
    );
}

#[test]
fn test_bit_image_black_pixels_set_bits() {
    let protocol = Protocol::new(Encoder::default());
    let mut pixels = vec![[255u8, 255, 255, 255]; 8];
    pixels[0] = [0, 0, 0, 255];
    pixels[7] = [0, 0, 0, 255];
    let png = png_rgba(8, 1, &pixels);
    let option = BitImageOption::new(None, None, BitImageSize::Normal).unwrap();
    assert_eq!(
        protocol.bit_image_from_bytes(&png, option).unwrap(),
        vec![29, 118, 48, 0, 1, 0, 1, 0, 0b1000_0001]
    );
}

#[test]
fn test_bit_image_row_is_zero_padded() {
    // A 4-pixel row packs into one byte whose low bits stay zero.
    let protocol = Protocol::new(Encoder::default());
    let pixels = vec![[0u8, 0, 0, 255]; 4];
    let png = png_rgba(4, 1, &pixels);
    let option = BitImageOption::new(None, None, BitImageSize::Normal).unwrap();
    assert_eq!(
        protocol.bit_image_from_bytes(&png, option).unwrap(),
        vec![29, 118, 48, 0, 1, 0, 1, 0, 0b1111_0000]
    );
}

#[test]
fn test_bit_image_resizes_to_bounds() {
    let protocol = Protocol::new(Encoder::default());
    let pixels = vec![[255u8, 255, 255, 255]; 256];
    let png = png_rgba(16, 16, &pixels);
    let option = BitImageOption::new(Some(8), Some(8), BitImageSize::Normal).unwrap();
    let cmd = protocol.bit_image_from_bytes(&png, option).unwrap();
    assert_eq!(&cmd[..8], &[29, 118, 48, 0, 1, 0, 8, 0]);
    assert_eq!(&cmd[8..], &[0u8; 8]);
}

#[test]
fn test_bit_image_size_multiplier_byte() {
    let protocol = Protocol::new(Encoder::default());
    let pixels = vec![[255u8, 255, 255, 255]; 8];
    let png = png_rgba(8, 1, &pixels);
    let option = BitImageOption::new(None, None, BitImageSize::DoubleWidthAndHeight).unwrap();
    assert_eq!(
        protocol.bit_image_from_bytes(&png, option).unwrap(),
        vec![29, 118, 48, 3, 1, 0, 1, 0, 0]
    );
}

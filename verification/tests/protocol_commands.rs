use escpos::character::{CharacterSet, Font, PageCode, UnderlineMode};
use escpos::encoder::Encoder;
use escpos::protocol::Protocol;
use escpos::status::RealTimeStatusRequest;
use escpos::types::{CashDrawer, JustifyMode};

#[test]
fn mod_test_init() {
    let protocol = Protocol::new(Encoder::default());
    assert_eq!(protocol.init(), vec![27, 64]);
}

#[test]
fn mod_test_cut() {
    let protocol = Protocol::new(Encoder::default());
    assert_eq!(protocol.cut(false), vec![29, 86, 65, 0]);
    assert_eq!(protocol.cut(true), vec![29, 86, 65, 1]);
}

#[test]
fn protocol_test_init() {
    let protocol = Protocol::new(Encoder::default());
    assert_eq!(protocol.init(), vec![27, 64]);
}

#[test]
fn test_reset() {
    let protocol = Protocol::new(Encoder::default());
    assert_eq!(protocol.reset(), vec![27, 63, 10, 0]);
}

#[test]
fn test_cancel() {
    let protocol = Protocol::new(Encoder::default());
    assert_eq!(protocol.cancel(), vec![24]);
}

#[test]
fn protocol_test_cut() {
    let protocol = Protocol::new(Encoder::default());
    assert_eq!(protocol.cut(false), vec![29, 86, 65, 0]);
    assert_eq!(protocol.cut(true), vec![29, 86, 65, 1]);
}

#[test]
fn test_page_code() {
    let protocol = Protocol::new(Encoder::default());
    assert_eq!(protocol.page_code(PageCode::default()), vec![27, 116, 0]);
    assert_eq!(protocol.page_code(PageCode::PC858), vec![27, 116, 19]);
}

#[test]
fn test_character_set() {
    let protocol = Protocol::new(Encoder::default());
    assert_eq!(protocol.character_set(CharacterSet::USA), vec![27, 82, 0]);
    assert_eq!(protocol.character_set(CharacterSet::France), vec![27, 82, 1]);
    assert_eq!(protocol.character_set(CharacterSet::IndiaMarathi), vec![27, 82, 82]);
}

#[test]
fn test_bold() {
    let protocol = Protocol::new(Encoder::default());
    assert_eq!(protocol.bold(false), vec![27, 69, 0]);
    assert_eq!(protocol.bold(true), vec![27, 69, 1]);
}

#[test]
fn test_underline() {
    let protocol = Protocol::new(Encoder::default());
    assert_eq!(protocol.underline(UnderlineMode::Off), vec![27, 45, 0]);
    assert_eq!(protocol.underline(UnderlineMode::Single), vec![27, 45, 1]);
    assert_eq!(protocol.underline(UnderlineMode::Double), vec![27, 45, 2]);
}

#[test]
fn test_double_strike() {
    let protocol = Protocol::new(Encoder::default());
    assert_eq!(protocol.double_strike(false), vec![27, 71, 0]);
    assert_eq!(protocol.double_strike(true), vec![27, 71, 1]);
}

#[test]
fn test_font() {
    let protocol = Protocol::new(Encoder::default());
    assert_eq!(protocol.font(Font::A), vec![27, 77, 0]);
    assert_eq!(protocol.font(Font::B), vec![27, 77, 1]);
    assert_eq!(protocol.font(Font::C), vec![27, 77, 2]);
}

#[test]
fn test_flip() {
    let protocol = Protocol::new(Encoder::default());
    assert_eq!(protocol.flip(false), vec![27, 86, 0]);
    assert_eq!(protocol.flip(true), vec![27, 86, 1]);
}

#[test]
fn test_justify() {
    let protocol = Protocol::new(Encoder::default());
    assert_eq!(protocol.justify(JustifyMode::LEFT), vec![27, 97, 0]);
    assert_eq!(protocol.justify(JustifyMode::CENTER), vec![27, 97, 1]);
    assert_eq!(protocol.justify(JustifyMode::RIGHT), vec![27, 97, 2]);
}

#[test]
fn test_reverse_colours() {
    let protocol = Protocol::new(Encoder::default());
    assert_eq!(protocol.reverse_colours(false), vec![29, 66, 0]);
    assert_eq!(protocol.reverse_colours(true), vec![29, 66, 1]);
}

#[test]
fn test_smoothing() {
    let protocol = Protocol::new(Encoder::default());
    assert_eq!(protocol.smoothing(false), vec![29, 98, 0]);
    assert_eq!(protocol.smoothing(true), vec![29, 98, 1]);
}

#[test]
fn test_feed() {
    let protocol = Protocol::new(Encoder::default());
    assert_eq!(protocol.feed(0), vec![27, 100, 0]);
    assert_eq!(protocol.feed(1), vec![27, 100, 1]);
    assert_eq!(protocol.feed(255), vec![27, 100, 255]);
}

#[test]
fn test_line_spacing() {
    let protocol = Protocol::new(Encoder::default());
    assert_eq!(protocol.line_spacing(0), vec![27, 51, 0]);
    assert_eq!(protocol.line_spacing(1), vec![27, 51, 1]);
    assert_eq!(protocol.line_spacing(255), vec![27, 51, 255]);
    assert_eq!(protocol.reset_line_spacing(), vec![27, 50]);
}

#[test]
fn test_text_size() {
    let protocol = Protocol::new(Encoder::default());
    assert!(protocol.text_size(0, 0).is_err());
    assert!(protocol.text_size(0, 2).is_err());
    assert!(protocol.text_size(2, 0).is_err());
    assert!(protocol.text_size(9, 2).is_err());
    assert!(protocol.text_size(2, 9).is_err());
    assert!(protocol.text_size(9, 9).is_err());

    assert_eq!(protocol.text_size(1, 1).unwrap(), vec![29, 33, 0]);
    assert_eq!(protocol.text_size(2, 1).unwrap(), vec![29, 33, 16]);
    assert_eq!(protocol.text_size(2, 2).unwrap(), vec![29, 33, 17]);
    assert_eq!(protocol.text_size(8, 8).unwrap(), vec![29, 33, 119]);
}

#[test]
fn test_upside_down() {
    let protocol = Protocol::new(Encoder::default());
    assert_eq!(protocol.upside_down(false), vec![27, 123, 0]);
    assert_eq!(protocol.upside_down(true), vec![27, 123, 1]);
}

#[test]
fn test_cash_drawer() {
    let protocol = Protocol::new(Encoder::default());
    assert_eq!(protocol.cash_drawer(CashDrawer::Pin2), vec![27, 112, 0]);
    assert_eq!(protocol.cash_drawer(CashDrawer::Pin5), vec![27, 112, 1]);
}

#[test]
fn test_text_without_page_code() {
    let protocol = Protocol::new(Encoder::default());
    assert_eq!(protocol.text("My text", None, None).unwrap(), "My text".as_bytes());
}

#[test]
fn test_text_with_max_length() {
    let protocol = Protocol::new(Encoder::default());
    assert_eq!(
        protocol.text("My text with a long content", None, Some(16)).unwrap(),
        "My text with a l".as_bytes()
    );
    assert_eq!(
        protocol.text("My text with ┼ character", None, Some(19)).unwrap(),
        "My text with ┼ ch".as_bytes() // 19 - 2 (┼ 3 bytes) = 17
    );
    assert_eq!(
        protocol
            .text("My text with ┼ character", Some(PageCode::PC437), Some(19))
            .unwrap(),
        vec![77, 121, 32, 116, 101, 120, 116, 32, 119, 105, 116, 104, 32, 197, 32, 99, 104, 97, 114]
    );
    assert_eq!(
        protocol
            .text("My text with ώ character", Some(PageCode::PC437), Some(19))
            .unwrap(),
        "My text with ώ cha".as_bytes() // 19 - 1 (ώ 2 bytes) = 18
    );
    assert_eq!(
        protocol
            .text("My text with 😊 character", Some(PageCode::PC437), Some(19))
            .unwrap(),
        "My text with 😊 c".as_bytes() // 19 - 3 (😊 4 bytes) = 16
    );
    assert_eq!(
        protocol.text("My text with 😊 character", None, Some(19)).unwrap(),
        "My text with 😊 c".as_bytes() // 19 - 3 (😊 4 bytes) = 16
    );
}

#[test]
fn test_text_with_registered_page_code_tables() {
    let protocol = Protocol::new(Encoder::default());
    assert_eq!(
        protocol.text("My text é €", Some(PageCode::PC858), None).unwrap(),
        &[77, 121, 32, 116, 101, 120, 116, 32, 130, 32, 213]
    );
    assert_eq!(
        protocol.text("My text é ã ç õ", Some(PageCode::PC860), None).unwrap(),
        &[77, 121, 32, 116, 101, 120, 116, 32, 130, 32, 132, 32, 135, 32, 148]
    );
    assert_eq!(
        protocol.text("My text ø ¤", Some(PageCode::PC865), None).unwrap(),
        &[77, 121, 32, 116, 101, 120, 116, 32, 155, 32, 175]
    );
    assert_eq!(
        protocol.text("My text č Ž š Đ", Some(PageCode::PC852), None).unwrap(),
        &[77, 121, 32, 116, 101, 120, 116, 32, 159, 32, 166, 32, 231, 32, 209]
    );
    assert_eq!(
        protocol.text("My text Ś š ¤", Some(PageCode::ISO8859_2), None).unwrap(),
        &[77, 121, 32, 116, 101, 120, 116, 32, 166, 32, 185, 32, 164]
    );
    assert_eq!(
        protocol.text("My text Ψ π Θ", Some(PageCode::ISO8859_7), None).unwrap(),
        &[77, 121, 32, 116, 101, 120, 116, 32, 216, 32, 240, 32, 200]
    );
    assert_eq!(
        protocol
            .text("My text Ž £ æ þ", Some(PageCode::ISO8859_15), None)
            .unwrap(),
        &[77, 121, 32, 116, 101, 120, 116, 32, 180, 32, 163, 32, 230, 32, 254]
    );
    assert_eq!(
        protocol.text("My text € Ç ÿ", Some(PageCode::WPC1252), None).unwrap(),
        &[77, 121, 32, 116, 101, 120, 116, 32, 128, 32, 199, 32, 255]
    );
    // A mapped character costs one byte; an unmapped one falls back to
    // its whole generic encoding.
    assert_eq!(
        protocol.text("Γ", Some(PageCode::PC437), None).unwrap(),
        vec![226]
    );
    assert_eq!(
        protocol.text("Д", Some(PageCode::PC437), None).unwrap(),
        "Д".as_bytes()
    );

    // A page code whose table is not registered is rejected.
    assert!(protocol.text("My text", Some(PageCode::Hiragana), None).is_err());
    assert!(protocol.text("My text", Some(PageCode::Katakana), None).is_err());
}

#[test]
fn test_motion_units() {
    let protocol = Protocol::new(Encoder::default());
    assert_eq!(protocol.motion_units(0, 255), vec![29, 80, 0, 255]);
    assert_eq!(protocol.motion_units(4, 122), vec![29, 80, 4, 122]);
}

#[test]
fn test_real_time_status() {
    let protocol = Protocol::new(Encoder::default());
    assert_eq!(
        protocol.real_time_status(RealTimeStatusRequest::Printer),
        vec![16, 4, 1, 0]
    );
    assert_eq!(
        protocol.real_time_status(RealTimeStatusRequest::OfflineCause),
        vec![16, 4, 2, 0]
    );
    assert_eq!(
        protocol.real_time_status(RealTimeStatusRequest::ErrorCause),
        vec![16, 4, 3, 0]
    );
    assert_eq!(
        protocol.real_time_status(RealTimeStatusRequest::RollPaperSensor),
        vec![16, 4, 4, 0]
    );
    assert_eq!(
        protocol.real_time_status(RealTimeStatusRequest::InkA),
        vec![16, 4, 7, 1]
    );
    assert_eq!(
        protocol.real_time_status(RealTimeStatusRequest::InkB),
        vec![16, 4, 7, 2]
    );
    assert_eq!(
        protocol.real_time_status(RealTimeStatusRequest::Peeler),
        vec![16, 4, 8, 3]
    );
    assert_eq!(
        protocol.real_time_status(RealTimeStatusRequest::Interface),
        vec![16, 4, 18, 1]
    );
    assert_eq!(
        protocol.real_time_status(RealTimeStatusRequest::DMD),
        vec![16, 4, 18, 2]
    );
}

#[test]
fn test_truncation_may_split_only_without_table() {
    let protocol = Protocol::new(Encoder::default());
    // Without a table the output bytes are cut exactly at the limit,
    // even in the middle of a multi-byte character.
    assert_eq!(protocol.text("é", None, Some(1)).unwrap(), vec![0xC3]);
    // With a table a mapped character costs one byte.
    assert_eq!(protocol.text("é", Some(PageCode::PC437), Some(1)).unwrap(), vec![130]);
    // An unmapped character's fallback unit is never split: it is
    // dropped whole when it would exceed the budget.
    assert_eq!(protocol.text("œ", Some(PageCode::PC437), Some(1)).unwrap(), Vec::<u8>::new());
    assert_eq!(protocol.text("œ", Some(PageCode::PC437), Some(2)).unwrap(), "œ".as_bytes());
}

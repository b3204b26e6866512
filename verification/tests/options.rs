use escpos::character::PageCode;
use escpos::encoder::Encoder;
use escpos::page_codes::PageCodeTable;
use escpos::printer_options::PrinterOptions;
use escpos::protocol::Protocol;
use escpos::types::DebugMode;

#[test]
fn test_printer_options_accessors() {
    let options = PrinterOptions::default();
    assert_eq!(options.get_page_code(), None);
    assert_eq!(options.get_debug_mode(), None);
    assert_eq!(options.get_characters_per_line(), 42);

    let options = PrinterOptions::new(Some(PageCode::PC437), Some(DebugMode::Hex), 44);
    assert_eq!(options.get_page_code(), Some(PageCode::PC437));
    assert_eq!(options.get_debug_mode(), Some(DebugMode::Hex));
    assert_eq!(options.get_characters_per_line(), 44);

    let mut options = PrinterOptions::default();
    options.page_code(Some(PageCode::PC858));
    options.debug_mode(Some(DebugMode::Dec));
    options.characters_per_line(48);
    assert_eq!(options.get_page_code(), Some(PageCode::PC858));
    assert_eq!(options.get_debug_mode(), Some(DebugMode::Dec));
    assert_eq!(options.get_characters_per_line(), 48);
}

#[test]
fn test_page_code_table_registry() {
    assert!(PageCodeTable::from_page_code(PageCode::PC437).is_ok());
    assert!(PageCodeTable::from_page_code(PageCode::PC852).is_ok());
    assert!(PageCodeTable::from_page_code(PageCode::PC858).is_ok());
    assert!(PageCodeTable::from_page_code(PageCode::PC860).is_ok());
    assert!(PageCodeTable::from_page_code(PageCode::PC865).is_ok());
    assert!(PageCodeTable::from_page_code(PageCode::ISO8859_2).is_ok());
    assert!(PageCodeTable::from_page_code(PageCode::ISO8859_7).is_ok());
    assert!(PageCodeTable::from_page_code(PageCode::ISO8859_15).is_ok());
    assert!(PageCodeTable::from_page_code(PageCode::WPC1252).is_ok());

    assert!(PageCodeTable::from_page_code(PageCode::Hiragana).is_err());
    assert!(PageCodeTable::from_page_code(PageCode::Katakana).is_err());
    assert!(PageCodeTable::from_page_code(PageCode::KZ1048).is_err());
}

#[test]
fn test_page_code_table_contents() {
    let table = PageCodeTable::from_page_code(PageCode::PC437).unwrap().get_table();
    assert_eq!(table.len(), 128);
    assert!(table.contains(&('Ç', 128)));
    assert!(table.contains(&('┼', 197)));
    // The tables with placeholders skip the unassigned codes.
    let table = PageCodeTable::from_page_code(PageCode::WPC1252).unwrap().get_table();
    assert_eq!(table.len(), 123);
    assert!(table.contains(&('€', 128)));
    assert!(table.contains(&('ÿ', 255)));
}

#[test]
fn test_encoder_with_other_codec() {
    // A single-byte codec produces that codec's bytes, not UTF-8.
    let protocol = Protocol::new(Encoder::new(encoding_rs::WINDOWS_1252));
    assert_eq!(protocol.text("café", None, None).unwrap(), vec![99, 97, 102, 0xE9]);
}

#[test]
fn test_encoder_unencodable() {
    let encoder = Encoder::new(encoding_rs::WINDOWS_1252);
    assert!(encoder.encode("日本語").is_err());

    let lenient = Encoder::new(encoding_rs::WINDOWS_1252).allow_unencodable(true);
    assert!(lenient.encode("日本語").is_ok());
}

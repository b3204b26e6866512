use escpos::barcodes::{Barcode, BarcodeOption, BarcodeSystem};
use escpos::barcodes::{BarcodeFont, BarcodeHeight, BarcodePosition, BarcodeWidth};

#[test]
fn test_barcode_new() {
    assert!(Barcode::new(BarcodeSystem::UPCA, "12587965874", BarcodeOption::default()).is_ok());
    assert!(Barcode::new(
        BarcodeSystem::UPCA,
        "12587965874",
        BarcodeOption::new(BarcodeWidth::L, BarcodeHeight::M, BarcodeFont::A, BarcodePosition::Off)
    )
    .is_ok());
}

#[test]
fn test_barcode_validate_upca() {
    assert!(Barcode::validate(BarcodeSystem::UPCA, "12587965874").is_ok());
    assert!(Barcode::validate(BarcodeSystem::UPCA, "125879658746").is_ok());

    assert!(Barcode::validate(BarcodeSystem::UPCA, "1258796587").is_err());
    assert!(Barcode::validate(BarcodeSystem::UPCA, "1258796587000").is_err());
    assert!(Barcode::validate(BarcodeSystem::UPCA, "1d8796587000").is_err());
}

#[test]
fn test_barcode_validate_upce() {
    assert!(Barcode::validate(BarcodeSystem::UPCE, "02587965874").is_ok());
    assert!(Barcode::validate(BarcodeSystem::UPCE, "025879658746").is_ok());
    assert!(Barcode::validate(BarcodeSystem::UPCE, "02980547").is_ok());
    assert!(Barcode::validate(BarcodeSystem::UPCE, "985487").is_ok());
    assert!(Barcode::validate(BarcodeSystem::UPCE, "085487").is_ok());

    assert!(Barcode::validate(BarcodeSystem::UPCE, "1f2-58").is_err());
    assert!(Barcode::validate(BarcodeSystem::UPCE, "9805874").is_err());
    assert!(Barcode::validate(BarcodeSystem::UPCE, "92587965874").is_err());
    assert!(Barcode::validate(BarcodeSystem::UPCE, "925879658746").is_err());
    assert!(Barcode::validate(BarcodeSystem::UPCE, "92980547").is_err());
}

#[test]
fn test_barcode_validate_ean8() {
    assert!(Barcode::validate(BarcodeSystem::EAN8, "0325874").is_ok());
    assert!(Barcode::validate(BarcodeSystem::EAN8, "98574587").is_ok());

    assert!(Barcode::validate(BarcodeSystem::EAN8, "5g47u29").is_err());
    assert!(Barcode::validate(BarcodeSystem::EAN8, "980587407").is_err());
}

#[test]
fn test_barcode_validate_ean13() {
    assert!(Barcode::validate(BarcodeSystem::EAN13, "012403258746").is_ok());
    assert!(Barcode::validate(BarcodeSystem::EAN13, "0124032587468").is_ok());

    assert!(Barcode::validate(BarcodeSystem::EAN13, "01240325874").is_err());
    assert!(Barcode::validate(BarcodeSystem::EAN13, "98058740701009").is_err());
    assert!(Barcode::validate(BarcodeSystem::EAN13, "9805874070s09").is_err());
}

#[test]
fn test_barcode_validate_itf() {
    assert!(Barcode::validate(BarcodeSystem::ITF, "01").is_ok());
    assert!(Barcode::validate(BarcodeSystem::ITF, "0124032587468").is_ok());

    assert!(Barcode::validate(BarcodeSystem::ITF, "").is_err());
    assert!(Barcode::validate(BarcodeSystem::ITF, "3").is_err());
    assert!(Barcode::validate(BarcodeSystem::ITF, "   ").is_err());
    assert!(Barcode::validate(BarcodeSystem::ITF, "  3 ").is_err());
    assert!(Barcode::validate(BarcodeSystem::ITF, "9805f8740701009").is_err());
    assert!(Barcode::validate(BarcodeSystem::ITF, "98f874d0d70s09").is_err());
}

#[test]
fn test_barcode_validate_code39() {
    assert!(Barcode::validate(BarcodeSystem::CODE39, "3").is_ok());
    assert!(Barcode::validate(BarcodeSystem::CODE39, "01").is_ok());
    assert!(Barcode::validate(BarcodeSystem::CODE39, "   ").is_ok());
    assert!(Barcode::validate(BarcodeSystem::CODE39, "  3 ").is_ok());
    assert!(Barcode::validate(BarcodeSystem::CODE39, "0ADGH J347%F*L-M.Q/C").is_ok());

    assert!(Barcode::validate(BarcodeSystem::CODE39, "").is_err());
    assert!(Barcode::validate(BarcodeSystem::CODE39, "9805f8740701009").is_err());
    assert!(Barcode::validate(BarcodeSystem::CODE39, "98f874d0d70s09").is_err());
}

#[test]
fn test_barcode_validate_codabar() {
    assert!(Barcode::validate(BarcodeSystem::CODABAR, "01").is_ok());
    assert!(Barcode::validate(BarcodeSystem::CODABAR, "4Adc/D.8/$0").is_ok());

    assert!(Barcode::validate(BarcodeSystem::CODABAR, "").is_err());
    assert!(Barcode::validate(BarcodeSystem::CODABAR, "3").is_err());
    assert!(Barcode::validate(BarcodeSystem::CODABAR, "   ").is_err());
    assert!(Barcode::validate(BarcodeSystem::CODABAR, "  3 ").is_err());
    assert!(Barcode::validate(BarcodeSystem::CODABAR, "9805f8740701009").is_err());
    assert!(Barcode::validate(BarcodeSystem::CODABAR, "98f874d0d70s09").is_err());
}

#[test]
fn barcodes_test_barcode_validate_upca() {
    assert!(Barcode::validate(BarcodeSystem::UPCA, "12587965874").is_ok());
    assert!(Barcode::validate(BarcodeSystem::UPCA, "125879658746").is_ok());

    assert!(Barcode::validate(BarcodeSystem::UPCA, "1258796587").is_err());
    assert!(Barcode::validate(BarcodeSystem::UPCA, "1258796587000").is_err());
    assert!(Barcode::validate(BarcodeSystem::UPCA, "1d8796587000").is_err());
}

#[test]
fn barcodes_test_barcode_validate_upce() {
    assert!(Barcode::validate(BarcodeSystem::UPCE, "02587965874").is_ok());
    assert!(Barcode::validate(BarcodeSystem::UPCE, "025879658746").is_ok());
    assert!(Barcode::validate(BarcodeSystem::UPCE, "02980547").is_ok());
    assert!(Barcode::validate(BarcodeSystem::UPCE, "985487").is_ok());
    assert!(Barcode::validate(BarcodeSystem::UPCE, "085487").is_ok());

    assert!(Barcode::validate(BarcodeSystem::UPCE, "1f2-58").is_err());
    assert!(Barcode::validate(BarcodeSystem::UPCE, "9805874").is_err());
    assert!(Barcode::validate(BarcodeSystem::UPCE, "92587965874").is_err());
    assert!(Barcode::validate(BarcodeSystem::UPCE, "925879658746").is_err());
    assert!(Barcode::validate(BarcodeSystem::UPCE, "92980547").is_err());
}

#[test]
fn barcodes_test_barcode_validate_ean8() {
    assert!(Barcode::validate(BarcodeSystem::EAN8, "0325874").is_ok());
    assert!(Barcode::validate(BarcodeSystem::EAN8, "98574587").is_ok());

    assert!(Barcode::validate(BarcodeSystem::EAN8, "5g47u29").is_err());
    assert!(Barcode::validate(BarcodeSystem::EAN8, "980587407").is_err());
}

#[test]
fn barcodes_test_barcode_validate_ean13() {
    assert!(Barcode::validate(BarcodeSystem::EAN13, "012403258746").is_ok());
    assert!(Barcode::validate(BarcodeSystem::EAN13, "0124032587468").is_ok());

    assert!(Barcode::validate(BarcodeSystem::EAN13, "01240325874").is_err());
    assert!(Barcode::validate(BarcodeSystem::EAN13, "98058740701009").is_err());
    assert!(Barcode::validate(BarcodeSystem::EAN13, "9805874070s09").is_err());
}

#[test]
fn barcodes_test_barcode_validate_itf() {
    assert!(Barcode::validate(BarcodeSystem::ITF, "01").is_ok());
    assert!(Barcode::validate(BarcodeSystem::ITF, "0124032587468").is_ok());

    assert!(Barcode::validate(BarcodeSystem::ITF, "").is_err());
    assert!(Barcode::validate(BarcodeSystem::ITF, "3").is_err());
    assert!(Barcode::validate(BarcodeSystem::ITF, "   ").is_err());
    assert!(Barcode::validate(BarcodeSystem::ITF, "  3 ").is_err());
    assert!(Barcode::validate(BarcodeSystem::ITF, "9805f8740701009").is_err());
    assert!(Barcode::validate(BarcodeSystem::ITF, "98f874d0d70s09").is_err());
}

#[test]
fn barcodes_test_barcode_validate_code39() {
    assert!(Barcode::validate(BarcodeSystem::CODE39, "3").is_ok());
    assert!(Barcode::validate(BarcodeSystem::CODE39, "01").is_ok());
    assert!(Barcode::validate(BarcodeSystem::CODE39, "   ").is_ok());
    assert!(Barcode::validate(BarcodeSystem::CODE39, "  3 ").is_ok());
    assert!(Barcode::validate(BarcodeSystem::CODE39, "0ADGH J347%F*L-M.Q/C").is_ok());

    assert!(Barcode::validate(BarcodeSystem::CODE39, "").is_err());
    assert!(Barcode::validate(BarcodeSystem::CODE39, "9805f8740701009").is_err());
    assert!(Barcode::validate(BarcodeSystem::CODE39, "98f874d0d70s09").is_err());
}

#[test]
fn barcodes_test_barcode_validate_codabar() {
    assert!(Barcode::validate(BarcodeSystem::CODABAR, "01").is_ok());
    assert!(Barcode::validate(BarcodeSystem::CODABAR, "4Adc/D.8/$0").is_ok());

    assert!(Barcode::validate(BarcodeSystem::CODABAR, "").is_err());
    assert!(Barcode::validate(BarcodeSystem::CODABAR, "3").is_err());
    assert!(Barcode::validate(BarcodeSystem::CODABAR, "   ").is_err());
    assert!(Barcode::validate(BarcodeSystem::CODABAR, "  3 ").is_err());
    assert!(Barcode::validate(BarcodeSystem::CODABAR, "9805f8740701009").is_err());
    assert!(Barcode::validate(BarcodeSystem::CODABAR, "98f874d0d70s09").is_err());
}

use escpos::aztec::{AztecMode, AztecOption};
use escpos::data_matrix::{DataMatrixOption, DataMatrixType};
use escpos::gs1_databar::{GS1DataBar, GS1DataBarOption, GS1DataBarType};
use escpos::gs1_databar_2d::{GS1DataBar2D, GS1DataBar2DOption, GS1DataBar2DType};
use escpos::pdf417::{Pdf417CorrectionLevel, Pdf417Option, Pdf417Type};
use escpos::qrcode::{QRCode, QRCodeCorrectionLevel, QRCodeModel, QRCodeOption};

#[test]
fn test_tyr_from_data_matrix_type_square() {
    let t = DataMatrixType::Square(0).to_bytes();
    assert!(t.is_ok());

    let t = DataMatrixType::Square(2).to_bytes();
    assert!(t.is_err());
}

#[test]
fn test_tyr_from_data_matrix_type_rectangle() {
    let t = DataMatrixType::Rectangle(8, 0).to_bytes();
    assert!(t.is_ok());

    let t = DataMatrixType::Rectangle(0, 0).to_bytes();
    assert!(t.is_err());

    let t = DataMatrixType::Rectangle(7, 8).to_bytes();
    assert!(t.is_err());
}

#[test]
fn test_tyr_from_data_matrix_option() {
    assert!(DataMatrixOption::new(DataMatrixType::default(), 3).is_ok());
    assert!(DataMatrixOption::new(DataMatrixType::default(), 1).is_err());
    assert!(DataMatrixOption::new(DataMatrixType::default(), 17).is_err());
}

#[test]
fn test_try_from_aztec_mode() {
    // Full-Range
    let t = AztecMode::FullRange(0).to_pair();
    assert!(t.is_ok());
    let t = AztecMode::FullRange(4).to_pair();
    assert!(t.is_ok());
    let t = AztecMode::FullRange(32).to_pair();
    assert!(t.is_ok());
    let t = AztecMode::FullRange(2).to_pair();
    assert!(t.is_err());
    let t = AztecMode::FullRange(33).to_pair();
    assert!(t.is_err());

    // Compact
    let t = AztecMode::Compact(0).to_pair();
    assert!(t.is_ok());
    let t = AztecMode::Compact(4).to_pair();
    assert!(t.is_ok());
    let t = AztecMode::Compact(5).to_pair();
    assert!(t.is_err());
}

#[test]
fn test_aztec_option_new() {
    assert!(AztecOption::new(AztecMode::default(), 3, 23).is_ok());
    assert!(AztecOption::new(AztecMode::default(), 1, 15).is_err());
    assert!(AztecOption::new(AztecMode::default(), 17, 15).is_err());
    assert!(AztecOption::new(AztecMode::default(), 3, 4).is_err());
    assert!(AztecOption::new(AztecMode::default(), 3, 96).is_err());
}

#[test]
fn test_pfd417_option_new() {
    assert!(Pdf417Option::new(31, 0, 8, 8, Pdf417Type::Standard, Pdf417CorrectionLevel::Level0).is_err());
    assert!(Pdf417Option::new(0, 2, 8, 8, Pdf417Type::Standard, Pdf417CorrectionLevel::Level0).is_err());
    assert!(Pdf417Option::new(0, 100, 8, 8, Pdf417Type::Standard, Pdf417CorrectionLevel::Level0).is_err());
    assert!(Pdf417Option::new(0, 0, 8, 8, Pdf417Type::Standard, Pdf417CorrectionLevel::Level0).is_ok());
}

#[test]
fn test_qrcode_new() {
    let data = "azerty123456789QTG,{";
    assert!(QRCode::new(data, None).is_ok());
    assert!(QRCode::new(
        data,
        Some(QRCodeOption::new(QRCodeModel::Model1, 4, QRCodeCorrectionLevel::L))
    )
    .is_ok());
}

#[test]
fn qrcode_test_qrcode_new() {
    let data = "azerty123456789QTG,{";
    assert!(QRCode::new(data, None).is_ok());
    assert!(QRCode::new(
        data,
        Some(QRCodeOption::new(QRCodeModel::Model1, 4, QRCodeCorrectionLevel::L))
    )
    .is_ok());
}

#[test]
fn test_qrcode_check_data() {
    let data = "azerty123456789QTG,{";
    assert!(QRCode::check_data(data).is_ok());

    let data = "azerty123456789QTG,{".repeat(400);
    assert!(QRCode::check_data(&data).is_err());
}

#[test]
fn qrcode_test_qrcode_check_data() {
    let data = "azerty123456789QTG,{";
    assert!(QRCode::check_data(data).is_ok());

    let data = "azerty123456789QTG,{".repeat(400);
    assert!(QRCode::check_data(&data).is_err());
}

#[test]
fn test_qrcode_get_size_values() {
    let data = "azerty123456789QTG,{".repeat(400);
    assert!(QRCode::get_size_values(&data).is_err());

    let data = "azerty123456789QTG,{";
    assert_eq!(QRCode::get_size_values(data).unwrap(), (23, 0));

    let data = "azerty123456789QTG,{".repeat(200);
    assert_eq!(QRCode::get_size_values(&data).unwrap(), (163, 15));
}

#[test]
fn gs1_databar_test_gs1_databar_stacked_check_data() {
    assert!(GS1DataBar::check_data("1234560987654", GS1DataBarType::Stacked).is_ok());
    assert!(GS1DataBar::check_data("123456098765", GS1DataBarType::Stacked).is_err());
    assert!(GS1DataBar::check_data("123456098765d", GS1DataBarType::Stacked).is_err());
    assert!(GS1DataBar::check_data("azs,rfT;YTfGq", GS1DataBarType::Stacked).is_err());

    assert!(GS1DataBar::check_data("1234560987654", GS1DataBarType::StackedOmnidirectional).is_ok());
    assert!(GS1DataBar::check_data("123456098765", GS1DataBarType::StackedOmnidirectional).is_err());
    assert!(GS1DataBar::check_data("123456098765d", GS1DataBarType::StackedOmnidirectional).is_err());
    assert!(GS1DataBar::check_data("azs,rfT;YTfGq", GS1DataBarType::StackedOmnidirectional).is_err());
}

#[test]
fn gs1_databar_test_gs1_databar_expanded_check_data() {
    assert!(GS1DataBar::check_data("1234560987654", GS1DataBarType::ExpandedStacked).is_ok());
    assert!(GS1DataBar::check_data("123456098765AC!,", GS1DataBarType::ExpandedStacked).is_ok());
    assert!(GS1DataBar::check_data("123456098765d", GS1DataBarType::ExpandedStacked).is_err());
    assert!(GS1DataBar::check_data("", GS1DataBarType::ExpandedStacked).is_ok());
}

#[test]
fn gs1_databar_2d_test_gs1_databar_stacked_check_data() {
    assert!(GS1DataBar2D::check_data("1234560987654", GS1DataBar2DType::Stacked).is_ok());
    assert!(GS1DataBar2D::check_data("123456098765", GS1DataBar2DType::Stacked).is_err());
    assert!(GS1DataBar2D::check_data("123456098765d", GS1DataBar2DType::Stacked).is_err());
    assert!(GS1DataBar2D::check_data("azs,rfT;YTfGq", GS1DataBar2DType::Stacked).is_err());

    assert!(GS1DataBar2D::check_data("1234560987654", GS1DataBar2DType::StackedOmnidirectional).is_ok());
    assert!(GS1DataBar2D::check_data("123456098765", GS1DataBar2DType::StackedOmnidirectional).is_err());
    assert!(GS1DataBar2D::check_data("123456098765d", GS1DataBar2DType::StackedOmnidirectional).is_err());
    assert!(GS1DataBar2D::check_data("azs,rfT;YTfGq", GS1DataBar2DType::StackedOmnidirectional).is_err());
}

#[test]
fn gs1_databar_2d_test_gs1_databar_expanded_check_data() {
    assert!(GS1DataBar2D::check_data("1234560987654", GS1DataBar2DType::ExpandedStacked).is_ok());
    assert!(GS1DataBar2D::check_data("123456098765AC!,", GS1DataBar2DType::ExpandedStacked).is_ok());
    assert!(GS1DataBar2D::check_data("123456098765d", GS1DataBar2DType::ExpandedStacked).is_err());
    assert!(GS1DataBar2D::check_data("", GS1DataBar2DType::ExpandedStacked).is_ok());
}

#[test]
fn test_gs1_databar_new_accepts_exactly_valid_payloads() {
    let option = GS1DataBar2DOption::default();
    assert!(GS1DataBar2D::new("1234560987654", option.clone()).is_ok());
    assert!(GS1DataBar2D::new("123456098765", option).is_err());
    assert!(GS1DataBar::new("1234560987654", GS1DataBarOption::new(GS1DataBarType::Stacked)).is_ok());
    assert!(GS1DataBar::new("123456098765x", GS1DataBarOption::new(GS1DataBarType::Stacked)).is_err());
}

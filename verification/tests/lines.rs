use escpos::printer_options::{PrinterOptions, PrinterStyleState};
use escpos::protocol::Protocol;
use escpos::types::JustifyMode;
use escpos::ui_line::{LineBuilder, LineStyle};

#[test]
fn test_line_draw_one_char_pattern() {
    let mut commands = vec![];
    let line = LineBuilder::new().style(LineStyle::Simple).build();
    line.draw(Protocol::default(), 42, 1, JustifyMode::LEFT, &mut commands)
        .unwrap();
    let expected = "-".repeat(42).chars().map(|c| c as u8).collect::<Vec<u8>>();

    assert_eq!(commands.len(), 2);
    assert_eq!(commands[0], expected);

    let mut commands = vec![];
    let line = LineBuilder::new().style(LineStyle::Double).offset(4).width(10).build();
    line.draw(Protocol::default(), 44, 1, JustifyMode::RIGHT, &mut commands)
        .unwrap();
    let expected = format!("{}{}", "=".repeat(10), " ".repeat(4))
        .chars()
        .map(|c| c as u8)
        .collect::<Vec<u8>>();

    assert_eq!(commands.len(), 2);
    assert_eq!(commands[0], expected);
}

#[test]
fn test_line_draw_two_chars_pattern() {
    let mut commands = vec![];
    let line = LineBuilder::new().style(LineStyle::Dashed).build();
    line.draw(Protocol::default(), 42, 1, JustifyMode::LEFT, &mut commands)
        .unwrap();
    let expected = "- ".repeat(21).chars().map(|c| c as u8).collect::<Vec<u8>>();

    assert_eq!(commands.len(), 2);
    assert_eq!(commands[0], expected);

    let mut commands = vec![];
    let line = LineBuilder::new().style(LineStyle::Dashed).offset(3).build();
    line.draw(Protocol::default(), 44, 1, JustifyMode::LEFT, &mut commands)
        .unwrap();
    let expected = format!("{}{}-", " ".repeat(3), "- ".repeat(20))
        .chars()
        .map(|c| c as u8)
        .collect::<Vec<u8>>();

    assert_eq!(commands.len(), 2);
    assert_eq!(commands[0], expected);
}

#[test]
fn test_line_draw_with_size() {
    let mut commands = vec![];
    let line = LineBuilder::new().style(LineStyle::Dotted).size((3, 1)).build();
    line.draw(Protocol::default(), 42, 3, JustifyMode::LEFT, &mut commands)
        .unwrap();
    let expected = ".".repeat(14).chars().map(|c| c as u8).collect::<Vec<u8>>();

    assert_eq!(commands.len(), 2);
    assert_eq!(commands[0], expected);
}

#[test]
fn test_line_draw_with_empty_pattern() {
    let mut commands = vec![];
    let line = LineBuilder::new().style(LineStyle::Custom("")).size((3, 1)).build();
    line.draw(Protocol::default(), 42, 3, JustifyMode::LEFT, &mut commands)
        .unwrap();

    assert!(commands.is_empty());
}

#[test]
fn test_set_style() {
    let mut commands = vec![];
    let mut size = (2, 2); // Style state value
    let mut justify_mode = JustifyMode::LEFT; // Style state value
    let line = LineBuilder::new()
        .style(LineStyle::Simple)
        .size((1, 1))
        .justify(JustifyMode::CENTER)
        .build();
    line.set_style(Protocol::default(), &mut size, &mut justify_mode, &mut commands)
        .unwrap();

    assert_eq!(size, (1, 1));
    assert_eq!(justify_mode, JustifyMode::CENTER);

    let mut commands = vec![];
    let mut size = (2, 2); // Style state value
    let mut justify_mode = JustifyMode::LEFT; // Style state value
    let line = LineBuilder::new().style(LineStyle::Simple).build();
    line.set_style(Protocol::default(), &mut size, &mut justify_mode, &mut commands)
        .unwrap();

    assert_eq!(size, (2, 2));
    assert_eq!(justify_mode, JustifyMode::LEFT);
}

#[test]
fn test_draw_line() {
    let protocol = Protocol::default();
    let line = LineBuilder::new()
        .style(LineStyle::Simple)
        .offset(4)
        .size((2, 2))
        .justify(JustifyMode::LEFT)
        .build();
    let options = PrinterOptions::default();
    let style_state = PrinterStyleState::default();
    assert_eq!(
        protocol.draw_line(line, options, style_state).unwrap(),
        vec![
            vec![29, 33, 17],
            vec![27, 97, 0],
            vec![32, 32, 32, 32, 45, 45, 45, 45, 45, 45, 45, 45, 45, 45, 45, 45, 45, 45, 45, 45, 45],
            vec![27, 100, 1],
            vec![29, 33, 0],
            vec![27, 97, 0],
        ]
    );
}

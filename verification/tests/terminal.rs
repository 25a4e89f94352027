use nolp::common::{Message, Mode, Nolp, Parity, PortParameters, State};
use nolp::terminal::{
    DataByte, DataDirection, TerminalModel, encode_byte, get_number_from_char, text_width,
};

fn ascii_params() -> PortParameters {
    PortParameters {
        name: Some(String::from("COM4")),
        baud_rate: Some(9600),
        data_bits: Some(8),
        stop_bits: Some(1),
        parity: Some(Parity::Even),
        mode: Some(Mode::Ascii),
    }
}

#[test]
fn test_rx_appends_device_bytes() {
    // Scenario: two bytes received in Ascii mode appear in the display log
    // tagged as device output, and render as "A B ".
    let mut model = TerminalModel::new(ascii_params());
    let state = model.update(Message::Rx(vec![0x41, 0x42]));
    assert_eq!(state, State::Running);
    assert_eq!(
        model.buffer,
        vec![
            DataByte { value: 0x41, direction: DataDirection::Output },
            DataByte { value: 0x42, direction: DataDirection::Output },
        ]
    );
    let mut rendered = encode_byte(Mode::Ascii, model.buffer[0].value);
    rendered.push_str(&encode_byte(Mode::Ascii, model.buffer[1].value));
    assert_eq!(rendered, "A B ");
}

#[test]
fn test_pause_blocks_text_entry() {
    // Scenario: typed input is ignored while the terminal is pausing.
    let mut model = TerminalModel::new(ascii_params());
    model.update(Message::Input('a'));
    assert_eq!(model.input, "a");
    let state = model.update(Message::Pause);
    assert_eq!(state, State::Pausing);
    model.update(Message::Input('x'));
    assert_eq!(model.input, "a");
    model.update(Message::Backspace);
    assert_eq!(model.input, "a");
}

#[test]
fn test_pause_clears_display_and_drops_bytes() {
    let mut model = TerminalModel::new(ascii_params());
    model.update(Message::Rx(vec![0x41]));
    assert_eq!(model.buffer.len(), 1);
    model.update(Message::Pause);
    assert!(model.buffer.is_empty());
    // Bytes received while pausing are dropped: the log is cleared on pause
    // and there is no holding buffer.
    model.update(Message::Rx(vec![0x42]));
    assert!(model.buffer.is_empty());
    let state = model.update(Message::Resume);
    assert_eq!(state, State::Running);
}

#[test]
fn test_enter_submits_line_to_output_and_log() {
    let mut model = TerminalModel::new(ascii_params());
    model.update(Message::Input('h'));
    model.update(Message::Input('i'));
    let state = model.update(Message::Enter);
    assert_eq!(state, State::Running);
    assert_eq!(model.input, "");
    assert_eq!(model.get_output_buffer(), vec![0x68, 0x69]);
    assert_eq!(
        model.buffer,
        vec![
            DataByte { value: 0x68, direction: DataDirection::Input },
            DataByte { value: 0x69, direction: DataDirection::Input },
        ]
    );
    model.clear_output_buffer();
    assert!(model.get_output_buffer().is_empty());
}

#[test]
fn test_enter_on_empty_line_does_nothing() {
    let mut model = TerminalModel::new(ascii_params());
    model.update(Message::Enter);
    assert!(model.get_output_buffer().is_empty());
    assert!(model.buffer.is_empty());
}

#[test]
fn test_input_length_cap() {
    let mut model = TerminalModel::new(ascii_params());
    for _ in 0..60 {
        model.update(Message::Input('x'));
    }
    assert_eq!(model.input.chars().count(), 50);
}

#[test]
fn test_resume_recovers_from_error() {
    let mut model = TerminalModel::new(ascii_params());
    model.set_state(State::Error(String::from(" Failed to open port ")));
    let state = model.update(Message::Resume);
    assert_eq!(state, State::Running);
}

#[test]
fn test_number_keys_send_numeric_values() {
    assert_eq!(get_number_from_char('0'), 0);
    assert_eq!(get_number_from_char('5'), 5);
    assert_eq!(get_number_from_char('9'), 9);
    assert_eq!(get_number_from_char('A'), 65);
    assert_eq!(get_number_from_char(' '), 32);
}

#[test]
fn test_encodings() {
    assert_eq!(encode_byte(Mode::Hex, 0xAB), "0xAB ");
    assert_eq!(encode_byte(Mode::Hex, 0x05), "0x05 ");
    assert_eq!(encode_byte(Mode::Octal, 65), "0o101 ");
    assert_eq!(encode_byte(Mode::Octal, 0), "0o000 ");
    assert_eq!(encode_byte(Mode::Ascii, 0x41), "A ");
    assert_eq!(encode_byte(Mode::Ascii, 0x07), ". ");
    assert_eq!(encode_byte(Mode::Decimal, 5), "  5 ");
    assert_eq!(encode_byte(Mode::Decimal, 65), " 65 ");
    assert_eq!(encode_byte(Mode::Decimal, 255), "255 ");
}

#[test]
fn test_text_widths() {
    assert_eq!(text_width(Mode::Hex), 5);
    assert_eq!(text_width(Mode::Octal), 6);
    assert_eq!(text_width(Mode::Ascii), 2);
    assert_eq!(text_width(Mode::Decimal), 4);
}

#[test]
fn test_display_log_clears_on_projected_overflow() {
    let mut params = ascii_params();
    params.mode = Some(Mode::Ascii);
    let mut model = TerminalModel::new(params);
    // A 10x6 area in Ascii mode shows one line of five byte cells.
    model.bounds = nolp::common::Bounds { width: 10, height: 6 };
    model.update(Message::Rx(vec![1, 2, 3]));
    assert_eq!(model.buffer.len(), 3);
    // Seven more bytes would project past the visible line: the log is
    // cleared rather than trimmed.
    model.update(Message::Rx(vec![4, 5, 6, 7, 8, 9, 10]));
    assert_eq!(model.buffer.len(), 7);
    assert_eq!(model.buffer[0].value, 4);
}

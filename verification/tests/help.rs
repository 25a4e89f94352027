use nolp::common::{Message, Mode, Nolp, Parity, PortParameters, Screen, State};
use nolp::help::{CONTENT_LENGTH, HelpModel};

fn valid_params() -> PortParameters {
    PortParameters {
        name: Some(String::from("COM4")),
        baud_rate: Some(9600),
        data_bits: Some(8),
        stop_bits: Some(1),
        parity: Some(Parity::Even),
        mode: Some(Mode::Ascii),
    }
}

#[test]
fn test_help_default() {
    let model = HelpModel::default();
    assert_eq!(model.caller, Screen::Menu);
    assert_eq!(model.parameters, None);
    assert_eq!(model.offset, 0);
    assert_eq!(model.get_state(), State::Running);
}

#[test]
fn test_help_scrolling_wraps() {
    let mut model = HelpModel::default();
    model.update(Message::PreviousElement);
    assert_eq!(model.offset, CONTENT_LENGTH);
    model.update(Message::NextElement);
    assert_eq!(model.offset, 0);
    model.update(Message::NextElement);
    assert_eq!(model.offset, 1);
}

#[test]
fn test_help_scroll_cycle_returns_to_start() {
    let mut model = HelpModel::default();
    model.update(Message::NextElement);
    model.update(Message::NextElement);
    let start = model.offset;
    for _ in 0..(CONTENT_LENGTH + 1) {
        model.update(Message::NextElement);
    }
    assert_eq!(model.offset, start);
    for _ in 0..(CONTENT_LENGTH + 1) {
        model.update(Message::PreviousElement);
    }
    assert_eq!(model.offset, start);
}

#[test]
fn test_help_enter_returns_to_caller() {
    let mut model = HelpModel::new(Screen::Terminal, Some(valid_params()));
    let state = model.update(Message::Enter);
    assert_eq!(
        state,
        State::Switching(Screen::Terminal, Some(valid_params()))
    );
}

#[test]
fn test_help_ignores_other_messages() {
    let mut model = HelpModel::default();
    let state = model.update(Message::Input('x'));
    assert_eq!(state, State::Running);
    assert_eq!(model.offset, 0);
}

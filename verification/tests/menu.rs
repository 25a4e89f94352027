use nolp::common::{Bounds, Message, Mode, Nolp, Parity, PortParameters, Screen, State};
use nolp::menu::{update_split, MenuInput, MenuModel};

fn valid_params() -> PortParameters {
    PortParameters {
        name: Some(String::from("COM4")),
        baud_rate: Some(9600),
        data_bits: Some(8),
        stop_bits: Some(1),
        parity: Some(Parity::Even),
        mode: Some(Mode::Ascii),
    }
}

#[test]
fn test_menu_default_inputs() {
    let model = MenuModel::default();
    assert_eq!(model.inputs.len(), 6);
    assert_eq!(model.inputs[0].title, "Port");
    assert_eq!(model.inputs[1].title, "Baudrate");
    assert_eq!(model.inputs[2].title, "Data bits");
    assert_eq!(model.inputs[3].title, "Stop bits");
    assert_eq!(model.inputs[4].title, "Parity");
    assert_eq!(model.inputs[5].title, "Mode");
    assert_eq!(model.inputs[1].limit, 10);
    assert_eq!(model.inputs[2].limit, 1);
    assert!(model.inputs.iter().all(|i| i.value.is_empty()));
    assert_eq!(model.get_state(), State::Running);
    assert_eq!(model.selected, 0);
}

#[test]
fn test_menu_new_prefills_from_parameters() {
    let model = MenuModel::new(valid_params());
    assert_eq!(model.inputs[0].value, "COM4");
    assert_eq!(model.inputs[1].value, "9600");
    assert_eq!(model.inputs[2].value, "8");
    assert_eq!(model.inputs[3].value, "1");
    assert_eq!(model.inputs[4].value, "Even");
    assert_eq!(model.inputs[5].value, "Ascii");
}

#[test]
fn test_menu_start_with_valid_input() {
    // Scenario: a fully and validly filled form submitted on Start.
    let mut model = MenuModel::new(valid_params());
    for _ in 0..7 {
        model.update(Message::NextElement);
    }
    assert_eq!(model.selected, 7);
    let state = model.update(Message::Enter);
    assert_eq!(state, State::Switching(Screen::Terminal, Some(valid_params())));
}

#[test]
fn test_menu_start_with_missing_data_bits() {
    // Scenario: the data-bits field left empty is rejected on Start.
    let mut params = valid_params();
    params.data_bits = None;
    let mut model = MenuModel::new(params);
    model.selected = 7;
    let state = model.update(Message::Enter);
    assert_eq!(
        state,
        State::Error(String::from(" Invalid input (ctrl+h) for help "))
    );
    assert!(model.inputs[2].invalid);
    assert!(!model.inputs[0].invalid);
    assert!(!model.inputs[1].invalid);
    assert!(!model.inputs[3].invalid);
    assert!(!model.inputs[4].invalid);
    assert!(!model.inputs[5].invalid);
}

#[test]
fn test_menu_start_with_out_of_range_bits() {
    let mut params = valid_params();
    params.data_bits = Some(9);
    params.stop_bits = Some(3);
    let mut model = MenuModel::new(params);
    model.selected = 7;
    let state = model.update(Message::Enter);
    assert!(matches!(state, State::Error(_)));
    assert!(model.inputs[2].invalid);
    assert!(model.inputs[3].invalid);
}

#[test]
fn test_menu_start_with_overflowing_baud_rate() {
    let mut model = MenuModel::new(valid_params());
    model.inputs[1].value = String::from("4294967296");
    model.selected = 7;
    let state = model.update(Message::Enter);
    assert!(matches!(state, State::Error(_)));
    assert!(model.inputs[1].invalid);
}

#[test]
fn test_menu_cancel_stops_application() {
    let mut model = MenuModel::new(valid_params());
    model.selected = 6;
    let state = model.update(Message::Enter);
    assert_eq!(state, State::Stopping);
}

#[test]
fn test_menu_quit_stops_application() {
    let mut model = MenuModel::default();
    let state = model.update(Message::Quit);
    assert_eq!(state, State::Stopping);
}

#[test]
fn test_menu_navigation_cycle_returns_to_start() {
    // Cyclic navigation over the six fields plus two buttons.
    let mut model = MenuModel::default();
    model.selected = 3;
    for _ in 0..8 {
        model.update(Message::NextElement);
    }
    assert_eq!(model.selected, 3);
    for _ in 0..8 {
        model.update(Message::PreviousElement);
    }
    assert_eq!(model.selected, 3);
    model.update(Message::PreviousElement);
    assert_eq!(model.selected, 2);
}

#[test]
fn test_menu_text_entry_rules() {
    let mut model = MenuModel::default();
    // Port field takes any character.
    model.update(Message::Input('C'));
    model.update(Message::Input('1'));
    assert_eq!(model.inputs[0].value, "C1");
    model.update(Message::Backspace);
    assert_eq!(model.inputs[0].value, "C");
    // The baud-rate field takes digits only.
    model.update(Message::NextElement);
    model.update(Message::Input('x'));
    assert_eq!(model.inputs[1].value, "");
    model.update(Message::Input('7'));
    assert_eq!(model.inputs[1].value, "7");
    // The data-bits field takes a digit in range only.
    model.update(Message::NextElement);
    model.update(Message::Input('9'));
    assert_eq!(model.inputs[2].value, "");
    model.update(Message::Input('8'));
    assert_eq!(model.inputs[2].value, "8");
    // ... and is limited to one character.
    model.update(Message::Input('7'));
    assert_eq!(model.inputs[2].value, "8");
    // Typing while a button is selected changes nothing.
    model.selected = 7;
    model.update(Message::Input('z'));
    assert!(model.inputs.iter().all(|i| i.value != "z"));
}

#[test]
fn test_menu_input_builders() {
    let input = MenuInput::default()
        .title(String::from("Port"))
        .placeholder(String::from("COM4"))
        .limit(3);
    assert_eq!(input.title, "Port");
    assert_eq!(input.placeholder, "COM4");
    assert_eq!(input.limit, 3);
    assert_eq!(input.value, "");
    assert!(!input.invalid);
}

#[test]
fn test_menu_split_layout() {
    let mut model = MenuModel::default();
    update_split(&mut model, Bounds { width: 80, height: 24 });
    assert!(model.split);
    assert_eq!(model.min_width, 46);
    assert_eq!(model.min_height, 9);
    update_split(&mut model, Bounds { width: 40, height: 24 });
    assert!(!model.split);
    assert_eq!(model.min_height, 19);
}

#[test]
fn test_menu_scroll_follows_selection() {
    let mut model = MenuModel::default();
    model.split = false;
    // A short area scrolls three lines per selected field.
    model.bounds = Bounds { width: 80, height: 10 };
    model.update(Message::NextElement);
    assert_eq!(model.selected, 1);
    assert_eq!(model.offset, 3);
    model.selected = 6;
    model.update(Message::NextElement);
    assert_eq!(model.selected, 7);
    assert_eq!(model.offset, 7 * 3 - 2);
}

#[test]
fn test_menu_case_insensitive_words() {
    let mut params = valid_params();
    params.parity = None;
    params.mode = None;
    let mut model = MenuModel::new(params);
    model.inputs[4].value = String::from("nOnE");
    model.inputs[5].value = String::from("OCTAL");
    model.selected = 7;
    let state = model.update(Message::Enter);
    match state {
        State::Switching(Screen::Terminal, Some(parsed)) => {
            assert_eq!(parsed.parity, Some(Parity::NoParity));
            assert_eq!(parsed.mode, Some(Mode::Octal));
        }
        other => panic!("unexpected state {:?}", other),
    }
}

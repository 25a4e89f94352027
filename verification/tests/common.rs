use nolp::common::{
    Bounds, Mode, Parity, PortParameters, Screen, SerialBuffer, SerialError, SerialFlag, State,
    serial_buffer_default, serial_error_default, serial_flag_default, serial_params_default,
};

#[test]
fn test_mode_to_string() {
    let mut mode = Mode::Ascii;
    assert_eq!(mode.to_string(), "Ascii");
    mode = Mode::Decimal;
    assert_eq!(mode.to_string(), "Decimal");
    mode = Mode::Hex;
    assert_eq!(mode.to_string(), "Hex");
    mode = Mode::Octal;
    assert_eq!(mode.to_string(), "Octal");
}

#[test]
fn test_port_parameters_name() {
    let mut parameters = PortParameters::default();
    assert_eq!(parameters.name, None);
    parameters = parameters.name(String::from("test"));
    assert_eq!(parameters.name, Some(String::from("test")));
}

#[test]
fn test_parity_to_string() {
    let mut parity = Parity::NoParity;
    assert_eq!(parity.to_string(), "None");
    parity = Parity::Even;
    assert_eq!(parity.to_string(), "Even");
    parity = Parity::Odd;
    assert_eq!(parity.to_string(), "Odd");
}

#[test]
fn test_serial_cell_defaults() {
    let flag: SerialFlag = serial_flag_default();
    assert!(!flag.value);
    let buffer: SerialBuffer = serial_buffer_default();
    assert!(buffer.data.is_empty());
    let error: SerialError = serial_error_default();
    assert_eq!(error.message, None);
    let params = serial_params_default();
    assert_eq!(params.value, PortParameters::default());
}

#[test]
fn test_default_screen_and_state() {
    assert_eq!(Screen::default(), Screen::Menu);
    assert_eq!(State::default(), State::Running);
    assert_eq!(Bounds::default(), Bounds { width: 0, height: 0 });
}

#[test]
fn test_state_clone() {
    let state = State::Switching(
        Screen::Terminal,
        Some(PortParameters::default().name(String::from("COM1"))),
    );
    assert_eq!(state.clone(), state);
    let error = State::Error(String::from("boom"));
    assert_eq!(error.clone(), error);
}

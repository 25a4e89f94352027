use nolp::common::{Bounds, Message, Nolp, PortParameters, Screen, State};
use nolp::device_list::{CONTENT_LENGTH, DeviceListModel, SelectElement, select_element};

#[test]
fn test_default_model() {
    let test_model = DeviceListModel::default();
    assert_eq!(test_model.get_state(), State::Running);
    assert_eq!(test_model.scroll_pos, 0);
    assert_eq!(test_model.offset, 0);
    assert_eq!(test_model.selected, 0);
}

#[test]
fn test_get_state() {
    let mut test_model = DeviceListModel::default();
    test_model.state = State::Running;
    assert_eq!(test_model.get_state(), State::Running);
}

#[test]
fn test_set_state() {
    let mut test_model = DeviceListModel::default();
    test_model.set_state(State::Stopping);
    assert_eq!(test_model.state, State::Stopping);
}

#[test]
fn test_update() {
    let mut test_model = DeviceListModel::default();

    test_model.update(Message::NextElement);
    assert_eq!(test_model.get_state(), State::Running);

    test_model.update(Message::PreviousElement);
    assert_eq!(test_model.get_state(), State::Running);

    test_model.update(Message::Pause);
    assert_eq!(test_model.get_state(), State::Running);

    test_model.update(Message::Quit);
    assert_eq!(test_model.get_state(), State::Running);

    test_model.update(Message::Rx(vec![0]));
    assert_eq!(test_model.get_state(), State::Running);

    test_model.update(Message::Enter);
    assert_eq!(test_model.get_state(), State::Switching(Screen::Menu, None));
}

#[test]
fn test_select_element() {
    let mut test_model = DeviceListModel::default();
    test_model.bounds = Bounds { width: 80, height: (CONTENT_LENGTH - 1) as u16 };

    select_element(&mut test_model, SelectElement::Next);
    assert_eq!(test_model.selected, 0);

    select_element(&mut test_model, SelectElement::Previous);
    assert_eq!(test_model.selected, 0);

    let mut test_devices = Vec::new();
    for i in 0..(CONTENT_LENGTH + 1) {
        test_devices.push(format!("test-device/{}", i));
    }
    test_model.devices = test_devices;

    select_element(&mut test_model, SelectElement::Next);
    assert_eq!(test_model.selected, 1);

    select_element(&mut test_model, SelectElement::Previous);
    assert_eq!(test_model.selected, 0);

    select_element(&mut test_model, SelectElement::Next);
    assert_eq!(test_model.offset, 1);

    test_model.selected = 0;
    select_element(&mut test_model, SelectElement::Previous);
    assert_eq!(test_model.selected, test_model.devices.len() - 1);

    test_model.selected = test_model.devices.len() - 1;
    select_element(&mut test_model, SelectElement::Next);
    assert_eq!(test_model.selected, 0);
}

#[test]
fn test_enter_with_devices_prefills_menu_params() {
    let mut model = DeviceListModel::default();
    model.set_devices(vec![String::from("COM1"), String::from("COM2")]);
    model.selected = 1;
    let state = model.update(Message::Enter);
    let expected = PortParameters::default().name(String::from("COM2"));
    assert_eq!(state, State::Switching(Screen::Menu, Some(expected)));
}

#[test]
fn test_previous_element_wraps_around() {
    let mut model = DeviceListModel::default();
    model.set_devices(vec![String::from("COM1"), String::from("COM2")]);
    model.selected = 1;
    model.update(Message::PreviousElement);
    assert_eq!(model.selected, 0);
    model.update(Message::PreviousElement);
    assert_eq!(model.selected, 1);
}

#[test]
fn test_navigation_cycle_returns_to_start() {
    let mut model = DeviceListModel::default();
    model.set_devices(vec![
        String::from("a"),
        String::from("b"),
        String::from("c"),
    ]);
    model.selected = 1;
    for _ in 0..3 {
        model.update(Message::NextElement);
    }
    assert_eq!(model.selected, 1);
    for _ in 0..3 {
        model.update(Message::PreviousElement);
    }
    assert_eq!(model.selected, 1);
}

#[test]
fn test_set_devices_resets_out_of_range_selection() {
    let mut model = DeviceListModel::default();
    model.set_devices(vec![String::from("a"), String::from("b")]);
    model.selected = 1;
    model.set_devices(vec![String::from("c")]);
    assert_eq!(model.selected, 0);
    assert_eq!(model.devices, vec![String::from("c")]);
}

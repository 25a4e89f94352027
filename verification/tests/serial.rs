use nolp::common::{
    Mode, Parity, PortParameters, serial_buffer_default, serial_error_default,
    serial_flag_default, serial_params_default,
};
use nolp::serial::{
    BridgeAction, IoOutcome, apply_read_outcome, apply_write_outcome, close_connection,
    get_error, next_flag, open_connection, record_open_failure, supervisor_step,
};

fn valid_params() -> PortParameters {
    PortParameters {
        name: Some(String::from("/dev/ttyUSB0")),
        baud_rate: Some(115200),
        data_bits: Some(8),
        stop_bits: Some(1),
        parity: Some(Parity::NoParity),
        mode: Some(Mode::Hex),
    }
}

#[test]
fn test_open_connection_stores_params_and_raises_flag() {
    let mut flag = serial_flag_default();
    let mut params = serial_params_default();
    assert!(open_connection(&mut flag, &mut params, valid_params()));
    assert!(flag.value);
    assert_eq!(params.value, valid_params());
}

#[test]
fn test_close_connection_is_idempotent() {
    // Signalling shutdown twice has the same observable effect as once.
    let mut flag = serial_flag_default();
    let mut params = serial_params_default();
    open_connection(&mut flag, &mut params, valid_params());
    assert!(close_connection(&mut flag));
    assert!(!flag.value);
    assert!(close_connection(&mut flag));
    assert!(!flag.value);
}

#[test]
fn test_completed_write_drains_tx() {
    // Round trip: bytes handed over for sending and sent are removed.
    let mut tx = serial_buffer_default();
    let mut error = serial_error_default();
    tx.data = vec![1, 2, 3];
    apply_write_outcome(&mut tx, &mut error, IoOutcome::Completed);
    assert!(tx.data.is_empty());
    assert_eq!(error.message, None);
}

#[test]
fn test_timed_out_write_keeps_tx() {
    let mut tx = serial_buffer_default();
    let mut error = serial_error_default();
    tx.data = vec![1, 2, 3];
    apply_write_outcome(&mut tx, &mut error, IoOutcome::TimedOut);
    assert_eq!(tx.data, vec![1, 2, 3]);
    assert_eq!(error.message, None);
}

#[test]
fn test_failed_write_records_error() {
    let mut tx = serial_buffer_default();
    let mut error = serial_error_default();
    tx.data = vec![1];
    apply_write_outcome(&mut tx, &mut error, IoOutcome::Failed);
    assert!(tx.data.is_empty());
    assert_eq!(error.message, Some(String::from(" Write failed ")));
}

#[test]
fn test_read_outcomes() {
    let mut rx = serial_buffer_default();
    let mut error = serial_error_default();
    rx.data = vec![9];
    apply_read_outcome(&mut rx, &mut error, vec![1, 2], IoOutcome::Completed);
    assert_eq!(rx.data, vec![9, 1, 2]);
    assert_eq!(error.message, None);
    apply_read_outcome(&mut rx, &mut error, vec![3], IoOutcome::TimedOut);
    assert_eq!(rx.data, vec![9, 1, 2]);
    assert_eq!(error.message, None);
    apply_read_outcome(&mut rx, &mut error, vec![4], IoOutcome::Failed);
    assert_eq!(rx.data, vec![9, 1, 2]);
    assert_eq!(error.message, Some(String::from(" Read failed ")));
}

#[test]
fn test_open_failure_is_surfaced_once() {
    let mut error = serial_error_default();
    record_open_failure(&mut error);
    assert_eq!(get_error(&mut error), Some(String::from(" Failed to open port ")));
    assert_eq!(get_error(&mut error), None);
}

#[test]
fn test_next_flag_keeps_value_on_contention() {
    assert!(next_flag(true, None));
    assert!(!next_flag(false, None));
    assert!(!next_flag(true, Some(false)));
    assert!(next_flag(false, Some(true)));
}

#[test]
fn test_supervisor_decisions() {
    assert_eq!(supervisor_step(Some(true), false), BridgeAction::Spawn);
    assert_eq!(supervisor_step(Some(true), true), BridgeAction::Idle);
    assert_eq!(supervisor_step(Some(false), true), BridgeAction::Join);
    // A repeated shutdown signal after the join asks nothing further.
    assert_eq!(supervisor_step(Some(false), false), BridgeAction::Idle);
    assert_eq!(supervisor_step(None, true), BridgeAction::Idle);
    assert_eq!(supervisor_step(None, false), BridgeAction::Idle);
}

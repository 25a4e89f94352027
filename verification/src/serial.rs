//! The serial-bridge protocol: operations on the shared cells (flag,
//! parameter slot, error slot, byte buffers) and the per-cycle bookkeeping
//! of the bridge loop. The bridge's device I/O itself is platform work done
//! by the caller; each cycle hands its outcome to the functions here, which
//! say exactly what happens to the buffers and the error slot for every
//! possible outcome.

use vstd::prelude::*;
use crate::common::{PortParameters, SerialBuffer, SerialError, SerialFlag, SerialParams};

verus! {

/// The flag after a shutdown request: closed, whatever it was before.
pub open spec fn shutdown_flag(f: SerialFlag) -> SerialFlag {
    SerialFlag { value: false }
}

/// Requests a cooperative bridge shutdown by clearing the shared flag; the
/// bridge observes it between cycles. Reports success to the caller.
pub fn close_connection(flag: &mut SerialFlag) -> (success: bool)
    ensures
        *final(flag) == shutdown_flag(*old(flag)),
        !final(flag).value,
        success,
{
    flag.value = false;
    true
}

/// Takes the pending bridge diagnostic out of the shared error slot, if one
/// is recorded, clearing the slot.
pub fn get_error(error: &mut SerialError) -> (msg: Option<String>)
    ensures
        msg == old(error).message,
        final(error).message is None,
{
    error.message.take()
}

/// Stores fully specified connection parameters in the shared slot and
/// raises the flag; the bridge supervisor will then open the connection.
/// Partially specified parameters never reach this point.
pub fn open_connection(
    flag: &mut SerialFlag,
    serial_params: &mut SerialParams,
    port_params: PortParameters,
) -> (success: bool)
    requires
        port_params.valid(),
    ensures
        final(serial_params).value == port_params,
        final(flag).value,
        success,
{
    serial_params.value = port_params;
    flag.value = true;
    true
}

/// Outcome of one device read or write, as seen by the bridge loop: the
/// transfer completed, it timed out (expected, absorbed silently), or it
/// failed for another reason (recorded, non-fatal).
#[derive(Clone, Copy, Debug, PartialEq, Eq, Structural)]
pub enum IoOutcome {
    Completed,
    TimedOut,
    Failed,
}

/// Bookkeeping after the bridge tried to write the outgoing buffer to the
/// device: a completed write drains the buffer (the round-trip property:
/// bytes handed over for sending and sent are gone from `tx`); a timeout
/// leaves the buffer for the next cycle; any other failure is recorded in
/// the error slot and the bytes of that write are dropped.
pub fn apply_write_outcome(tx: &mut SerialBuffer, error: &mut SerialError, outcome: IoOutcome)
    ensures
        match outcome {
            IoOutcome::Completed => final(tx).data@ == Seq::<u8>::empty() && *final(error)
                == *old(error),
            IoOutcome::TimedOut => *final(tx) == *old(tx) && *final(error) == *old(error),
            IoOutcome::Failed => {
                &&& final(tx).data@ == Seq::<u8>::empty()
                &&& final(error).message matches Some(m) && m@ == " Write failed "@
            },
        },
{
    match outcome {
        IoOutcome::Completed => {
            tx.data.clear();
        },
        IoOutcome::TimedOut => {},
        IoOutcome::Failed => {
            error.message = Some(String::from_str(" Write failed "));
            tx.data.clear();
        },
    }
}

/// Bookkeeping after the bridge tried to read from the device: the bytes of
/// a completed read are appended to the incoming buffer; a timeout changes
/// nothing; any other failure is recorded in the error slot.
pub fn apply_read_outcome(
    rx: &mut SerialBuffer,
    error: &mut SerialError,
    data: Vec<u8>,
    outcome: IoOutcome,
)
    ensures
        match outcome {
            IoOutcome::Completed => final(rx).data@ == old(rx).data@ + data@ && *final(error)
                == *old(error),
            IoOutcome::TimedOut => *final(rx) == *old(rx) && *final(error) == *old(error),
            IoOutcome::Failed => {
                &&& *final(rx) == *old(rx)
                &&& final(error).message matches Some(m) && m@ == " Read failed "@
            },
        },
{
    match outcome {
        IoOutcome::Completed => {
            let mut incoming = data;
            rx.data.append(&mut incoming);
        },
        IoOutcome::TimedOut => {},
        IoOutcome::Failed => {
            error.message = Some(String::from_str(" Read failed "));
        },
    }
}

/// Records that the device could not be opened; the attempt is over and the
/// error is surfaced to the user, who may reconfigure and retry.
pub fn record_open_failure(error: &mut SerialError)
    ensures
        final(error).message matches Some(m) && m@ == " Failed to open port "@,
{
    error.message = Some(String::from_str(" Failed to open port "));
}

/// The flag value the bridge works with after re-reading the shared flag
/// between cycles: the fresh value when the read succeeded, the previous
/// one when the cell was contended this cycle.
pub open spec fn spec_next_flag(current: bool, read: Option<bool>) -> bool {
    match read {
        Some(v) => v,
        None => current,
    }
}

/// Folds one (possibly contended) read of the shared flag into the bridge's
/// view of whether to keep cycling.
pub fn next_flag(current: bool, read: Option<bool>) -> (keep: bool)
    ensures
        keep == spec_next_flag(current, read),
{
    match read {
        Some(v) => v,
        None => current,
    }
}

/// What the bridge supervisor does with one (possibly contended) read of
/// the shared flag.
#[derive(Clone, Copy, Debug, PartialEq, Eq, Structural)]
pub enum BridgeAction {
    /// Open the connection and start the bridge loop.
    Spawn,
    /// The bridge was asked to stop: join it and release the device.
    Join,
    /// Nothing to do this cycle.
    Idle,
}

/// The supervisor's decision for one cycle, given the flag value it read
/// (`None` when the cell was contended) and whether a bridge is running.
pub open spec fn spec_supervisor_step(read: Option<bool>, spawned: bool) -> BridgeAction {
    match read {
        Some(true) => if spawned {
            BridgeAction::Idle
        } else {
            BridgeAction::Spawn
        },
        Some(false) => if spawned {
            BridgeAction::Join
        } else {
            BridgeAction::Idle
        },
        None => BridgeAction::Idle,
    }
}

/// Decides the supervisor's action for one cycle: spawn a bridge when the
/// flag is up and none runs, join it when the flag is down and one runs,
/// and otherwise (including a contended flag cell) do nothing.
pub fn supervisor_step(read: Option<bool>, spawned: bool) -> (action: BridgeAction)
    ensures
        action == spec_supervisor_step(read, spawned),
{
    match read {
        Some(true) => if spawned {
            BridgeAction::Idle
        } else {
            BridgeAction::Spawn
        },
        Some(false) => if spawned {
            BridgeAction::Join
        } else {
            BridgeAction::Idle
        },
        None => BridgeAction::Idle,
    }
}

/// Signalling shutdown is idempotent: clearing the flag twice leaves the
/// same flag as clearing it once, a bridge that reads the cleared flag
/// stops either way, and once the bridge has been joined a repeated
/// shutdown signal asks nothing further of the supervisor.
pub proof fn lemma_shutdown_idempotent(f: SerialFlag)
    ensures
        shutdown_flag(shutdown_flag(f)) == shutdown_flag(f),
        !spec_next_flag(true, Some(shutdown_flag(f).value)),
        spec_supervisor_step(Some(shutdown_flag(f).value), false) == BridgeAction::Idle,
{
}

} // verus!

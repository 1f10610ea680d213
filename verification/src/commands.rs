//! The fixed command catalog.
//!
//! Every protocol request is a literal byte sequence.  Some operations send
//! one frame; lock and unlock send an ordered two-frame sequence that a
//! separate confirmation frame follows; diagnostics issues four independent
//! request frames in a fixed order.  The ordering of every multi-frame
//! sequence is significant and must not be reordered or batched.

use vstd::prelude::*;
use vstd::slice::slice_to_vec;

use crate::diagnosis::{
    LOAD_BATTERY_VOLTAGE_SIGNAL,
    LOAD_TIMESTAMP_SIGNAL,
    LOAD_TOTAL_SMOKING_SIGNAL,
    LOAD_USAGE_COUNT_HEATING_TIME_SIGNAL,
};

verus! {

/// Confirmation frame that closes a lock or unlock sequence.
pub const CONFIRMATION_SIGNAL: [u8; 5] = [0x00, 0xC0, 0x01, 0x00, 0xF6];

/// Command frame that starts the vibration motor.
pub const START_VIBRATE_SIGNAL: [u8; 9] = [0x00, 0xC0, 0x45, 0x22, 0x01, 0x1E, 0x00, 0x00, 0xC3];

/// Command frame that stops the vibration motor.
pub const STOP_VIBRATE_SIGNAL: [u8; 9] = [0x00, 0xC0, 0x45, 0x22, 0x00, 0x1E, 0x00, 0x00, 0xD5];

/// First frame of the lock sequence.
pub const LOCK_SIGNAL_FIRST: [u8; 9] = [0x00, 0xC9, 0x44, 0x04, 0x02, 0xFF, 0x00, 0x00, 0x5A];

/// Second frame of the lock and of the unlock sequence.
pub const LOCK_SIGNAL_SECOND: [u8; 5] = [0x00, 0xC9, 0x00, 0x04, 0x1C];

/// First frame of the unlock sequence.
pub const UNLOCK_SIGNAL_FIRST: [u8; 9] = [0x00, 0xC9, 0x44, 0x04, 0x00, 0x00, 0x00, 0x00, 0x5D];

/// The confirmation frame as an owned buffer.
pub fn confirmation_signal() -> (r: Vec<u8>)
    ensures
        r@ == CONFIRMATION_SIGNAL@,
{
    slice_to_vec(CONFIRMATION_SIGNAL.as_slice())
}

/// The vibration-start frame as an owned buffer.
pub fn start_vibrate_signal() -> (r: Vec<u8>)
    ensures
        r@ == START_VIBRATE_SIGNAL@,
{
    slice_to_vec(START_VIBRATE_SIGNAL.as_slice())
}

/// The vibration-stop frame as an owned buffer.
pub fn stop_vibrate_signal() -> (r: Vec<u8>)
    ensures
        r@ == STOP_VIBRATE_SIGNAL@,
{
    slice_to_vec(STOP_VIBRATE_SIGNAL.as_slice())
}

/// The ordered lock sequence: its two frames, in the order they are sent.
pub fn lock_signals() -> (r: Vec<Vec<u8>>)
    ensures
        r@.len() == 2,
        r@[0]@ == LOCK_SIGNAL_FIRST@,
        r@[1]@ == LOCK_SIGNAL_SECOND@,
{
    let mut r: Vec<Vec<u8>> = Vec::new();
    r.push(slice_to_vec(LOCK_SIGNAL_FIRST.as_slice()));
    r.push(slice_to_vec(LOCK_SIGNAL_SECOND.as_slice()));
    r
}

/// The ordered unlock sequence: its two frames, in the order they are sent.
pub fn unlock_signals() -> (r: Vec<Vec<u8>>)
    ensures
        r@.len() == 2,
        r@[0]@ == UNLOCK_SIGNAL_FIRST@,
        r@[1]@ == LOCK_SIGNAL_SECOND@,
{
    let mut r: Vec<Vec<u8>> = Vec::new();
    r.push(slice_to_vec(UNLOCK_SIGNAL_FIRST.as_slice()));
    r.push(slice_to_vec(LOCK_SIGNAL_SECOND.as_slice()));
    r
}

/// The four diagnosis request frames, in the order they are issued.
pub fn all_diagnosis_signals() -> (r: Vec<Vec<u8>>)
    ensures
        r@.len() == 4,
        r@[0]@ == LOAD_TOTAL_SMOKING_SIGNAL@,
        r@[1]@ == LOAD_TIMESTAMP_SIGNAL@,
        r@[2]@ == LOAD_USAGE_COUNT_HEATING_TIME_SIGNAL@,
        r@[3]@ == LOAD_BATTERY_VOLTAGE_SIGNAL@,
{
    let mut r: Vec<Vec<u8>> = Vec::new();
    r.push(slice_to_vec(LOAD_TOTAL_SMOKING_SIGNAL.as_slice()));
    r.push(slice_to_vec(LOAD_TIMESTAMP_SIGNAL.as_slice()));
    r.push(slice_to_vec(LOAD_USAGE_COUNT_HEATING_TIME_SIGNAL.as_slice()));
    r.push(slice_to_vec(LOAD_BATTERY_VOLTAGE_SIGNAL.as_slice()));
    r
}

} // verus!

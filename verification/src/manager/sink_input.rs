//! Playback streams on the bus: their object path and lifecycle in the
//! device tables.

use vstd::prelude::*;

use crate::manager::device_manager::{DeviceManager, DeviceTables, SinkInputState};
use crate::text::{decimal, with_decimal};

verus! {

/// The bus path of stream `index`.
pub open spec fn sink_input_path(index: u32) -> Seq<char> {
    "/org/deepin/dde/Audio2/SinkInput"@ + decimal(index as nat)
}

/// The bus path of stream `index`.
pub fn path(index: u32) -> (p: String)
    ensures
        p@ == sink_input_path(index),
{
    with_decimal("/org/deepin/dde/Audio2/SinkInput", index)
}

/// A playback stream appeared (its state already queried): record it.
pub fn new(device_manager: &mut DeviceManager, index: u32, queried: Result<SinkInputState, String>) -> (r: Result<(), String>)
    ensures
        match queried {
            Ok(state) => r is Ok && final(device_manager)@ == (DeviceTables {
                sink_inputs: old(device_manager)@.sink_inputs.insert(index, state),
                ..old(device_manager)@
            }),
            Err(e) => r == Err::<(), String>(e) && final(device_manager)@ == old(device_manager)@,
        },
{
    let state = queried?;
    device_manager.add_sink_input(index, state);
    Ok(())
}

/// A playback stream changed (its state already queried): record the new state.
pub fn update(device_manager: &mut DeviceManager, index: u32, queried: Result<SinkInputState, String>) -> (r: Result<(), String>)
    ensures
        match queried {
            Ok(state) => r is Ok && final(device_manager)@ == (DeviceTables {
                sink_inputs: old(device_manager)@.sink_inputs.insert(index, state),
                ..old(device_manager)@
            }),
            Err(e) => r == Err::<(), String>(e) && final(device_manager)@ == old(device_manager)@,
        },
{
    let state = queried?;
    device_manager.update_sink_input(index, state);
    Ok(())
}

/// A playback stream went away: drop it from the tables.
pub fn delete(device_manager: &mut DeviceManager, index: u32)
    ensures
        final(device_manager)@ == (DeviceTables {
            sink_inputs: old(device_manager)@.sink_inputs.remove(index),
            ..old(device_manager)@
        }),
{
    let _ = device_manager.remove_sink_input(index);
}

} // verus!

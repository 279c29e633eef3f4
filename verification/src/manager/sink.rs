//! Output devices on the bus: their object path, port record and lifecycle
//! in the device tables.

use vstd::prelude::*;

use crate::manager::device_manager::{DeviceManager, DeviceTables, SinkState};
use crate::text::{decimal, with_decimal};

verus! {

/// An audio port of an output device.
#[derive(Clone, Debug)]
pub struct Port {
    pub name: String,
    pub description: String,
    pub direction: u32,
}

/// The bus path of sink `index`.
pub open spec fn sink_path(index: u32) -> Seq<char> {
    "/org/deepin/dde/Audio2/Sink"@ + decimal(index as nat)
}

/// The bus path of sink `index`.
pub fn path(index: u32) -> (p: String)
    ensures
        p@ == sink_path(index),
{
    with_decimal("/org/deepin/dde/Audio2/Sink", index)
}

/// An output device appeared (its state already queried): record it.
pub fn new(device_manager: &mut DeviceManager, index: u32, queried: Result<SinkState, String>) -> (r: Result<(), String>)
    ensures
        match queried {
            Ok(state) => r is Ok && final(device_manager)@ == (DeviceTables {
                sinks: old(device_manager)@.sinks.insert(index, state),
                ..old(device_manager)@
            }),
            Err(e) => r == Err::<(), String>(e) && final(device_manager)@ == old(device_manager)@,
        },
{
    let state = queried?;
    device_manager.add_sink(index, state);
    Ok(())
}

/// An output device changed (its state already queried): record the new state.
pub fn update(device_manager: &mut DeviceManager, index: u32, queried: Result<SinkState, String>) -> (r: Result<(), String>)
    ensures
        match queried {
            Ok(state) => r is Ok && final(device_manager)@ == (DeviceTables {
                sinks: old(device_manager)@.sinks.insert(index, state),
                ..old(device_manager)@
            }),
            Err(e) => r == Err::<(), String>(e) && final(device_manager)@ == old(device_manager)@,
        },
{
    let state = queried?;
    device_manager.update_sink(index, state);
    Ok(())
}

/// An output device went away: drop it and its level meter from the tables;
/// whether it had a meter (whose bus object is then to be removed).
pub fn delete(device_manager: &mut DeviceManager, index: u32) -> (had_meter: bool)
    ensures
        had_meter == old(device_manager)@.sink_meters.contains_key(index),
        final(device_manager)@ == (DeviceTables {
            sinks: old(device_manager)@.sinks.remove(index),
            sink_meters: old(device_manager)@.sink_meters.remove(index),
            ..old(device_manager)@
        }),
{
    let _ = device_manager.remove_sink(index);
    device_manager.remove_meter(index, true)
}

} // verus!

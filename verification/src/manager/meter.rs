//! Level meters: their bus path and the volume they show.

use vstd::prelude::*;

use super::device_manager::{DeviceManager, DeviceTables};
use crate::text::{decimal, with_decimal};

verus! {

/// A level meter attached to a sink or a source.
#[derive(Clone, Copy, Debug)]
pub struct Meter {
    /// Index of the sink or source.
    pub device_index: u32,
    /// Whether the device is a sink (else a source).
    pub is_sink: bool,
}

/// The bus path of the meter of a device.
pub open spec fn meter_path(device_index: u32, is_sink: bool) -> Seq<char> {
    "/org/deepin/dde/Audio2/Meter"@ + (if is_sink { "Sink"@ } else { "Source"@ }) + decimal(device_index as nat)
}

/// The volume (as an `f64` bit pattern) a meter shows: the device's volume,
/// or zero when the device is not recorded.
pub open spec fn meter_volume(t: DeviceTables, device_index: u32, is_sink: bool) -> u64 {
    if is_sink {
        if t.sinks.contains_key(device_index) { t.sinks[device_index].volume_bits } else { 0 }
    } else {
        if t.sources.contains_key(device_index) { t.sources[device_index].volume_bits } else { 0 }
    }
}

impl Meter {
    /// A meter for the given device.
    pub fn new(device_index: u32, is_sink: bool) -> (m: Self)
        ensures
            m.device_index == device_index,
            m.is_sink == is_sink,
    {
        Meter { device_index, is_sink }
    }

    /// The bus path of the meter of a device.
    pub fn path(device_index: u32, is_sink: bool) -> (p: String)
        ensures
            p@ == meter_path(device_index, is_sink),
    {
        let prefix = if is_sink {
            "/org/deepin/dde/Audio2/MeterSink"
        } else {
            "/org/deepin/dde/Audio2/MeterSource"
        };
        proof {
            reveal_strlit("/org/deepin/dde/Audio2/MeterSink");
            reveal_strlit("/org/deepin/dde/Audio2/MeterSource");
            reveal_strlit("/org/deepin/dde/Audio2/Meter");
            reveal_strlit("Sink");
            reveal_strlit("Source");
            assert(prefix@ == "/org/deepin/dde/Audio2/Meter"@ + (if is_sink { "Sink"@ } else { "Source"@ }));
        }
        with_decimal(prefix, device_index)
    }

    /// The volume the meter shows, as an `f64` bit pattern (see [`meter_volume`]).
    pub fn current_volume_bits(&self, device_manager: &DeviceManager) -> (v: u64)
        ensures
            v == meter_volume(device_manager@, self.device_index, self.is_sink),
    {
        if self.is_sink {
            match device_manager.get_sink(self.device_index) {
                Some(s) => s.volume_bits,
                None => 0,
            }
        } else {
            match device_manager.get_source(self.device_index) {
                Some(s) => s.volume_bits,
                None => 0,
            }
        }
    }
}

/// The meter of the sink (`is_sink`) or source `device_index` asked for on
/// the bus: its path, and whether it is still to be created (registered on
/// the bus, then recorded with [`DeviceManager::add_meter`]); an existing
/// meter is reused.
pub fn meter_request(device_manager: &DeviceManager, device_index: u32, is_sink: bool) -> (r: (String, bool))
    ensures
        r.0@ == meter_path(device_index, is_sink),
        r.1 == !(if is_sink {
            device_manager@.sink_meters.contains_key(device_index)
        } else {
            device_manager@.source_meters.contains_key(device_index)
        }),
{
    (Meter::path(device_index, is_sink), !device_manager.has_meter(device_index, is_sink))
}

} // verus!

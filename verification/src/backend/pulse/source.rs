//! Input devices as the server describes them, their runtime record, and
//! the outcome of the requests made on them.

use vstd::prelude::*;

use super::sink::PulsePortInfo;
use super::{owned_or_empty, text_or_empty};
use crate::backend::SourceInfo;
use crate::manager::device_manager::{DeviceManager, DeviceTables, Port, SourceState as DeviceSourceState};
use crate::text::{decimal, with_decimal};

verus! {

/// Runtime record of an input device. The `*_bits` fields hold `f64` bit patterns.
#[derive(Clone, Debug)]
pub struct SourceState {
    pub index: u32,
    pub name: String,
    pub description: String,
    pub mute: bool,
    pub volume_bits: u64,
    pub balance_bits: u64,
}

impl<'a> From<&'a SourceInfo> for SourceState {
    /// The runtime record of a described input device.
    fn from(info: &'a SourceInfo) -> (s: Self) {
        SourceState {
            index: info.index,
            name: info.name.clone(),
            description: info.description.clone(),
            mute: info.mute,
            volume_bits: info.volume_bits,
            balance_bits: info.balance_bits,
        }
    }
}

impl<'a> vstd::std_specs::convert::FromSpecImpl<&'a SourceInfo> for SourceState {
    open spec fn obeys_from_spec() -> bool {
        true
    }

    open spec fn from_spec(info: &'a SourceInfo) -> SourceState {
        SourceState {
            index: info.index,
            name: info.name,
            description: info.description,
            mute: info.mute,
            volume_bits: info.volume_bits,
            balance_bits: info.balance_bits,
        }
    }
}

/// An input device changed: record its newly queried state.
pub fn on_source_changed(device_manager: &mut DeviceManager, index: u32, queried: Result<DeviceSourceState, String>) -> (r: Result<(), String>)
    ensures
        match queried {
            Ok(state) => r is Ok && final(device_manager)@ == (DeviceTables {
                sources: old(device_manager)@.sources.insert(index, state),
                ..old(device_manager)@
            }),
            Err(e) => r == Err::<(), String>(e) && final(device_manager)@ == old(device_manager)@,
        },
{
    let state = queried?;
    device_manager.update_source(index, state);
    Ok(())
}

/// An input device appeared: record its queried state.
pub fn on_source_added(device_manager: &mut DeviceManager, index: u32, queried: Result<DeviceSourceState, String>) -> (r: Result<(), String>)
    ensures
        match queried {
            Ok(state) => r is Ok && final(device_manager)@ == (DeviceTables {
                sources: old(device_manager)@.sources.insert(index, state),
                ..old(device_manager)@
            }),
            Err(e) => r == Err::<(), String>(e) && final(device_manager)@ == old(device_manager)@,
        },
{
    let state = queried?;
    device_manager.add_source(index, state);
    Ok(())
}

/// An input device went away: drop its state and its level meter; whether
/// it had a meter (whose bus object is then to be removed).
pub fn on_source_removed(device_manager: &mut DeviceManager, index: u32) -> (had_meter: bool)
    ensures
        had_meter == old(device_manager)@.source_meters.contains_key(index),
        final(device_manager)@ == (DeviceTables {
            sources: old(device_manager)@.sources.remove(index),
            source_meters: old(device_manager)@.source_meters.remove(index),
            ..old(device_manager)@
        }),
{
    let _ = device_manager.remove_source(index);
    device_manager.remove_meter(index, false)
}

/// An input device as the server describes it.
///
/// The `*_bits` fields are the `f64` bit patterns of the values derived from
/// the server's volumes: base and average volume relative to the normal
/// volume, balance and fade.
#[derive(Clone, Debug)]
pub struct PulseSourceInfo {
    pub index: u32,
    pub name: Option<String>,
    pub description: Option<String>,
    pub mute: bool,
    pub ports: Vec<PulsePortInfo>,
    pub active_port: Option<PulsePortInfo>,
    pub card: Option<u32>,
    pub base_volume_bits: u64,
    pub volume_bits: u64,
    pub balance_bits: u64,
    pub fade_bits: u64,
}

/// Whether `r` is the input port built from the server's port `p`.
pub open spec fn input_port_from_pulse(r: Port, p: PulsePortInfo) -> bool {
    &&& r.name@ == text_or_empty(p.name)
    &&& r.description@ == text_or_empty(p.description)
    &&& r.direction == 1
}

/// Whether `r` is the active port built from the server's optional active port.
pub open spec fn active_input_port_from_pulse(r: Port, p: Option<PulsePortInfo>) -> bool {
    match p {
        Some(p) => input_port_from_pulse(r, p),
        None => r.name@ == Seq::<char>::empty() && r.description@ == Seq::<char>::empty() && r.direction == 1,
    }
}

/// Whether `s` is the source record built from the server's input device `info`.
pub open spec fn source_from_pulse(s: DeviceSourceState, info: PulseSourceInfo) -> bool {
    &&& s.index == info.index
    &&& s.name@ == text_or_empty(info.name)
    &&& s.description@ == text_or_empty(info.description)
    &&& s.base_volume_bits == info.base_volume_bits
    &&& s.mute == info.mute
    &&& s.volume_bits == info.volume_bits
    &&& s.balance_bits == info.balance_bits
    &&& s.support_balance
    &&& s.fade_bits == info.fade_bits
    &&& s.support_fade
    &&& s.ports@.len() == info.ports@.len()
    &&& forall|i: int| 0 <= i < info.ports@.len() ==> input_port_from_pulse(#[trigger] s.ports@[i], info.ports@[i])
    &&& active_input_port_from_pulse(s.active_port, info.active_port)
    &&& s.card == match info.card { Some(c) => c, None => u32::MAX }
}

/// The source record keeps what the server says of the input device: index,
/// name and description (empty when absent), mute flag, volumes, balance and
/// fade, each port in order with its name as an input port, the active port
/// (empty when none), and its card (`u32::MAX` when none).
pub proof fn law_source_record_keeps_description(s: DeviceSourceState, info: PulseSourceInfo)
    requires
        source_from_pulse(s, info),
    ensures
        s.index == info.index,
        info.name matches Some(n) ==> s.name@ == n@,
        info.name is None ==> s.name@.len() == 0,
        info.description matches Some(d) ==> s.description@ == d@,
        info.description is None ==> s.description@.len() == 0,
        s.mute == info.mute,
        s.base_volume_bits == info.base_volume_bits,
        s.volume_bits == info.volume_bits,
        s.balance_bits == info.balance_bits,
        s.fade_bits == info.fade_bits,
        s.support_balance && s.support_fade,
        s.ports@.len() == info.ports@.len(),
        forall|i: int| 0 <= i < info.ports@.len() ==> {
            &&& (info.ports@[i].name matches Some(n) ==> (#[trigger] s.ports@[i]).name@ == n@)
            &&& (info.ports@[i].name is None ==> s.ports@[i].name@.len() == 0)
            &&& (info.ports@[i].description matches Some(d) ==> s.ports@[i].description@ == d@)
            &&& s.ports@[i].direction == 1
        },
        info.active_port matches Some(p) ==> (p.name matches Some(n) ==> s.active_port.name@ == n@),
        info.active_port is None ==> s.active_port.name@.len() == 0,
        info.card matches Some(c) ==> s.card == c,
        info.card is None ==> s.card == u32::MAX,
{
}

/// Builds an input port from a server port.
pub fn input_port(p: &PulsePortInfo) -> (r: Port)
    ensures
        input_port_from_pulse(r, *p),
{
    Port { name: owned_or_empty(&p.name), description: owned_or_empty(&p.description), direction: 1 }
}

/// Builds the source record of a server input device.
pub fn state_from_info(info: &PulseSourceInfo) -> (s: DeviceSourceState)
    ensures
        source_from_pulse(s, *info),
{
    let mut ports: Vec<Port> = Vec::new();
    for i in 0..info.ports.len()
        invariant
            ports@.len() == i,
            forall|j: int| 0 <= j < i ==> input_port_from_pulse(#[trigger] ports@[j], info.ports@[j]),
    {
        ports.push(input_port(&info.ports[i]));
    }
    let active_port = match &info.active_port {
        Some(p) => input_port(p),
        None => Port { name: String::new(), description: String::new(), direction: 1 },
    };
    DeviceSourceState {
        index: info.index,
        name: owned_or_empty(&info.name),
        description: owned_or_empty(&info.description),
        base_volume_bits: info.base_volume_bits,
        mute: info.mute,
        volume_bits: info.volume_bits,
        balance_bits: info.balance_bits,
        support_balance: true,
        fade_bits: info.fade_bits,
        support_fade: true,
        ports,
        active_port,
        card: match info.card {
            Some(c) => c,
            None => u32::MAX,
        },
    }
}

/// Error text of a source the server does not know.
pub open spec fn source_not_found_message(index: u32) -> Seq<char> {
    "source "@ + decimal(index as nat) + " not found"@
}

/// The source record from the server's answer to a query for source `index`.
pub fn query_info(index: u32, reply: Result<Option<PulseSourceInfo>, String>) -> (r: Result<DeviceSourceState, String>)
    ensures
        match reply {
            Err(e) => r == Err::<DeviceSourceState, String>(e),
            Ok(None) => r matches Err(e) && e@ == source_not_found_message(index),
            Ok(Some(info)) => r matches Ok(s) && source_from_pulse(s, info),
        },
{
    match reply? {
        Some(info) => Ok(state_from_info(&info)),
        None => {
            let mut e = with_decimal("source ", index);
            e.append(" not found");
            Err(e)
        },
    }
}

/// The source records from the server's answer to a query for all sources.
pub fn query_list(reply: Result<Vec<PulseSourceInfo>, String>) -> (r: Result<Vec<DeviceSourceState>, String>)
    ensures
        match reply {
            Err(e) => r == Err::<Vec<DeviceSourceState>, String>(e),
            Ok(infos) => r matches Ok(list) && list@.len() == infos@.len()
                && forall|i: int| 0 <= i < infos@.len() ==> source_from_pulse(#[trigger] list@[i], infos@[i]),
        },
{
    let infos = reply?;
    let mut list: Vec<DeviceSourceState> = Vec::new();
    for i in 0..infos.len()
        invariant
            list@.len() == i,
            forall|j: int| 0 <= j < i ==> source_from_pulse(#[trigger] list@[j], infos@[j]),
    {
        list.push(state_from_info(&infos[i]));
    }
    Ok(list)
}

/// The outcome of setting the volume of a source: only a failed request is an
/// error; the server's own answer is not checked.
pub fn set_volume(reply: Result<bool, String>) -> (r: Result<(), String>)
    ensures
        match reply {
            Err(e) => r == Err::<(), String>(e),
            Ok(_) => r is Ok,
        },
{
    reply?;
    Ok(())
}

/// The outcome of muting or unmuting a source: only a failed request is an
/// error; the server's own answer is not checked.
pub fn set_mute(reply: Result<bool, String>) -> (r: Result<(), String>)
    ensures
        match reply {
            Err(e) => r == Err::<(), String>(e),
            Ok(_) => r is Ok,
        },
{
    reply?;
    Ok(())
}

/// The outcome of selecting the port of a source: only a failed request is an
/// error; the server's own answer is not checked.
pub fn set_port(reply: Result<bool, String>) -> (r: Result<(), String>)
    ensures
        match reply {
            Err(e) => r == Err::<(), String>(e),
            Ok(_) => r is Ok,
        },
{
    reply?;
    Ok(())
}

/// Error text of a volume lookup that found nothing.
pub open spec fn volume_info_failed_message() -> Seq<char> {
    "get source volume info failed"@
}

/// The outcome of looking up the current volumes of the source before a
/// balance or fade change: `reply` tells whether the server described both
/// the volumes and the channel map.
pub fn check_volume_info(reply: Result<bool, String>) -> (r: Result<(), String>)
    ensures
        match reply {
            Err(e) => r == Err::<(), String>(e),
            Ok(true) => r is Ok,
            Ok(false) => r matches Err(e) && e@ == volume_info_failed_message(),
        },
{
    let found = reply?;
    if !found {
        return Err("get source volume info failed".to_owned());
    }
    Ok(())
}

/// The outcome of applying a new balance to the source.
pub fn set_balance(reply: Result<bool, String>) -> (r: Result<(), String>)
    ensures
        match reply {
            Err(e) => r == Err::<(), String>(e),
            Ok(true) => r is Ok,
            Ok(false) => r matches Err(e) && e@ == super::sink::set_balance_failed_message(),
        },
{
    let ok = reply?;
    if !ok {
        return Err("set balance failed".to_owned());
    }
    Ok(())
}

/// The outcome of applying a new fade to the source.
pub fn set_fade(reply: Result<bool, String>) -> (r: Result<(), String>)
    ensures
        match reply {
            Err(e) => r == Err::<(), String>(e),
            Ok(true) => r is Ok,
            Ok(false) => r matches Err(e) && e@ == super::sink::set_fade_failed_message(),
        },
{
    let ok = reply?;
    if !ok {
        return Err("set fade failed".to_owned());
    }
    Ok(())
}

/// Error text of a meter the server could not create.
pub open spec fn meter_failed_message(index: u32) -> Seq<char> {
    "create meter failed for source "@ + decimal(index as nat)
}

/// The level meter of source `index`: `reply` is the server's answer to the
/// creation of the recording stream that measures it (the stream's index, or
/// none when the server created none).
pub fn get_meter(index: u32, reply: Result<Option<u32>, String>) -> (r: Result<u32, String>)
    ensures
        match reply {
            Err(e) => r == Err::<u32, String>(e),
            Ok(Some(stream)) => r == Ok::<u32, String>(stream),
            Ok(None) => r matches Err(e) && e@ == meter_failed_message(index),
        },
{
    match reply? {
        Some(stream) => Ok(stream),
        None => Err(with_decimal("create meter failed for source ", index)),
    }
}

} // verus!

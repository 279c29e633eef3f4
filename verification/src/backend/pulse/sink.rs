//! Output devices as the server describes them, and the outcome of the
//! requests made on them.

use vstd::prelude::*;

use super::{owned_or_empty, text_or_empty};
use crate::manager::device_manager::{Port, SinkState};
use crate::text::{decimal, with_decimal};

verus! {

/// A device port as the server describes it.
#[derive(Clone, Debug)]
pub struct PulsePortInfo {
    pub name: Option<String>,
    pub description: Option<String>,
}

/// An output device as the server describes it.
///
/// The `*_bits` fields are the `f64` bit patterns of the values derived from
/// the server's volumes: base and average volume relative to the normal
/// volume, balance and fade.
#[derive(Clone, Debug)]
pub struct PulseSinkInfo {
    pub index: u32,
    pub name: Option<String>,
    pub description: Option<String>,
    pub mute: bool,
    pub ports: Vec<PulsePortInfo>,
    pub active_port: Option<PulsePortInfo>,
    pub card: Option<u32>,
    pub base_volume_bits: u64,
    pub volume_bits: u64,
    pub balance_bits: u64,
    pub fade_bits: u64,
}

/// Whether `r` is the output port built from the server's port `p`.
pub open spec fn output_port_from_pulse(r: Port, p: PulsePortInfo) -> bool {
    &&& r.name@ == text_or_empty(p.name)
    &&& r.description@ == text_or_empty(p.description)
    &&& r.direction == 0
}

/// Whether `r` is the active port built from the server's optional active port.
pub open spec fn active_port_from_pulse(r: Port, p: Option<PulsePortInfo>) -> bool {
    match p {
        Some(p) => output_port_from_pulse(r, p),
        None => r.name@ == Seq::<char>::empty() && r.description@ == Seq::<char>::empty() && r.direction == 0,
    }
}

/// Whether `s` is the sink record built from the server's output device `info`.
pub open spec fn sink_from_pulse(s: SinkState, info: PulseSinkInfo) -> bool {
    &&& s.index == info.index
    &&& s.name@ == text_or_empty(info.name)
    &&& s.description@ == text_or_empty(info.description)
    &&& s.base_volume_bits == info.base_volume_bits
    &&& s.mute == info.mute
    &&& s.volume_bits == info.volume_bits
    &&& s.balance_bits == info.balance_bits
    &&& s.support_balance
    &&& s.fade_bits == info.fade_bits
    &&& s.support_fade
    &&& s.ports@.len() == info.ports@.len()
    &&& forall|i: int| 0 <= i < info.ports@.len() ==> output_port_from_pulse(#[trigger] s.ports@[i], info.ports@[i])
    &&& active_port_from_pulse(s.active_port, info.active_port)
    &&& s.card == match info.card { Some(c) => c, None => u32::MAX }
}

/// The sink record keeps what the server says of the output device: index,
/// name and description (empty when absent), mute flag, volumes, balance and
/// fade, each port in order with its name and description as output ports,
/// the active port (empty when none), and its card (`u32::MAX` when none).
pub proof fn law_sink_record_keeps_description(s: SinkState, info: PulseSinkInfo)
    requires
        sink_from_pulse(s, info),
    ensures
        s.index == info.index,
        info.name matches Some(n) ==> s.name@ == n@,
        info.name is None ==> s.name@.len() == 0,
        info.description matches Some(d) ==> s.description@ == d@,
        info.description is None ==> s.description@.len() == 0,
        s.mute == info.mute,
        s.base_volume_bits == info.base_volume_bits,
        s.volume_bits == info.volume_bits,
        s.balance_bits == info.balance_bits,
        s.fade_bits == info.fade_bits,
        s.support_balance && s.support_fade,
        s.ports@.len() == info.ports@.len(),
        forall|i: int| 0 <= i < info.ports@.len() ==> {
            &&& (info.ports@[i].name matches Some(n) ==> (#[trigger] s.ports@[i]).name@ == n@)
            &&& (info.ports@[i].name is None ==> s.ports@[i].name@.len() == 0)
            &&& (info.ports@[i].description matches Some(d) ==> s.ports@[i].description@ == d@)
            &&& s.ports@[i].direction == 0
        },
        info.active_port matches Some(p) ==> (p.name matches Some(n) ==> s.active_port.name@ == n@),
        info.active_port is None ==> s.active_port.name@.len() == 0,
        info.card matches Some(c) ==> s.card == c,
        info.card is None ==> s.card == u32::MAX,
{
}

/// Builds an output port from a server port.
pub fn output_port(p: &PulsePortInfo) -> (r: Port)
    ensures
        output_port_from_pulse(r, *p),
{
    Port { name: owned_or_empty(&p.name), description: owned_or_empty(&p.description), direction: 0 }
}

/// Builds the sink record of a server output device.
pub fn state_from_info(info: &PulseSinkInfo) -> (s: SinkState)
    ensures
        sink_from_pulse(s, *info),
{
    let mut ports: Vec<Port> = Vec::new();
    for i in 0..info.ports.len()
        invariant
            ports@.len() == i,
            forall|j: int| 0 <= j < i ==> output_port_from_pulse(#[trigger] ports@[j], info.ports@[j]),
    {
        ports.push(output_port(&info.ports[i]));
    }
    let active_port = match &info.active_port {
        Some(p) => output_port(p),
        None => Port { name: String::new(), description: String::new(), direction: 0 },
    };
    SinkState {
        index: info.index,
        name: owned_or_empty(&info.name),
        description: owned_or_empty(&info.description),
        base_volume_bits: info.base_volume_bits,
        mute: info.mute,
        volume_bits: info.volume_bits,
        balance_bits: info.balance_bits,
        support_balance: true,
        fade_bits: info.fade_bits,
        support_fade: true,
        ports,
        active_port,
        card: match info.card {
            Some(c) => c,
            None => u32::MAX,
        },
    }
}

/// The outcome of setting the volume of a sink: only a failed request is an
/// error; the server's own answer is not checked.
pub fn set_volume(reply: Result<bool, String>) -> (r: Result<(), String>)
    ensures
        match reply {
            Err(e) => r == Err::<(), String>(e),
            Ok(_) => r is Ok,
        },
{
    reply?;
    Ok(())
}

/// The outcome of muting or unmuting a sink: only a failed request is an
/// error; the server's own answer is not checked.
pub fn set_mute(reply: Result<bool, String>) -> (r: Result<(), String>)
    ensures
        match reply {
            Err(e) => r == Err::<(), String>(e),
            Ok(_) => r is Ok,
        },
{
    reply?;
    Ok(())
}

/// The outcome of selecting the port of a sink: only a failed request is an
/// error; the server's own answer is not checked.
pub fn set_port(reply: Result<bool, String>) -> (r: Result<(), String>)
    ensures
        match reply {
            Err(e) => r == Err::<(), String>(e),
            Ok(_) => r is Ok,
        },
{
    reply?;
    Ok(())
}

/// Error text of a meter the server could not create.
pub open spec fn meter_failed_message(index: u32) -> Seq<char> {
    "create meter failed for sink "@ + decimal(index as nat)
}

/// The level meter of sink `index`: `reply` is the server's answer to the
/// creation of the recording stream that measures it (the stream's index, or
/// none when the server created none).
pub fn get_meter(index: u32, reply: Result<Option<u32>, String>) -> (r: Result<u32, String>)
    ensures
        match reply {
            Err(e) => r == Err::<u32, String>(e),
            Ok(Some(stream)) => r == Ok::<u32, String>(stream),
            Ok(None) => r matches Err(e) && e@ == meter_failed_message(index),
        },
{
    match reply? {
        Some(stream) => Ok(stream),
        None => Err(with_decimal("create meter failed for sink ", index)),
    }
}

/// Error text of a sink the server does not know.
pub open spec fn sink_not_found_message(index: u32) -> Seq<char> {
    "sink "@ + decimal(index as nat) + " not found"@
}

/// The sink record from the server's answer to a query for sink `index`.
pub fn query_info(index: u32, reply: Result<Option<PulseSinkInfo>, String>) -> (r: Result<SinkState, String>)
    ensures
        match reply {
            Err(e) => r == Err::<SinkState, String>(e),
            Ok(None) => r matches Err(e) && e@ == sink_not_found_message(index),
            Ok(Some(info)) => r matches Ok(s) && sink_from_pulse(s, info),
        },
{
    match reply? {
        Some(info) => Ok(state_from_info(&info)),
        None => {
            let mut e = with_decimal("sink ", index);
            e.append(" not found");
            Err(e)
        },
    }
}

/// The sink records from the server's answer to a query for all sinks.
pub fn query_list(reply: Result<Vec<PulseSinkInfo>, String>) -> (r: Result<Vec<SinkState>, String>)
    ensures
        match reply {
            Err(e) => r == Err::<Vec<SinkState>, String>(e),
            Ok(infos) => r matches Ok(sinks) && sinks@.len() == infos@.len()
                && forall|i: int| 0 <= i < infos@.len() ==> sink_from_pulse(#[trigger] sinks@[i], infos@[i]),
        },
{
    let infos = reply?;
    let mut sinks: Vec<SinkState> = Vec::new();
    for i in 0..infos.len()
        invariant
            sinks@.len() == i,
            forall|j: int| 0 <= j < i ==> sink_from_pulse(#[trigger] sinks@[j], infos@[j]),
    {
        sinks.push(state_from_info(&infos[i]));
    }
    Ok(sinks)
}

/// Error text of a volume lookup that found nothing.
pub open spec fn volume_info_failed_message() -> Seq<char> {
    "get sink volume info failed"@
}

/// Error text of a refused balance change.
pub open spec fn set_balance_failed_message() -> Seq<char> {
    "set balance failed"@
}

/// Error text of a refused fade change.
pub open spec fn set_fade_failed_message() -> Seq<char> {
    "set fade failed"@
}

/// The outcome of looking up the current volumes of the sink before a
/// balance or fade change: `reply` tells whether the server described both
/// the volumes and the channel map.
pub fn check_volume_info(reply: Result<bool, String>) -> (r: Result<(), String>)
    ensures
        match reply {
            Err(e) => r == Err::<(), String>(e),
            Ok(true) => r is Ok,
            Ok(false) => r matches Err(e) && e@ == volume_info_failed_message(),
        },
{
    let found = reply?;
    if !found {
        return Err("get sink volume info failed".to_owned());
    }
    Ok(())
}

/// The outcome of applying a new balance to the sink.
pub fn set_balance(reply: Result<bool, String>) -> (r: Result<(), String>)
    ensures
        match reply {
            Err(e) => r == Err::<(), String>(e),
            Ok(true) => r is Ok,
            Ok(false) => r matches Err(e) && e@ == set_balance_failed_message(),
        },
{
    let ok = reply?;
    if !ok {
        return Err("set balance failed".to_owned());
    }
    Ok(())
}

/// The outcome of applying a new fade to the sink.
pub fn set_fade(reply: Result<bool, String>) -> (r: Result<(), String>)
    ensures
        match reply {
            Err(e) => r == Err::<(), String>(e),
            Ok(true) => r is Ok,
            Ok(false) => r matches Err(e) && e@ == set_fade_failed_message(),
        },
{
    let ok = reply?;
    if !ok {
        return Err("set fade failed".to_owned());
    }
    Ok(())
}

} // verus!

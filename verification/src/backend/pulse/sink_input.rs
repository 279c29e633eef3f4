//! Playback streams as the server describes them, and the outcome of the
//! requests made on them.

use vstd::prelude::*;

use super::{owned_or_empty, text_or_empty};
use crate::manager::device_manager::SinkInputState;
use crate::text::{decimal, with_decimal};

verus! {

/// A playback stream as the server describes it.
///
/// The `*_bits` fields are the `f64` bit patterns of the values derived from
/// the server's volumes: average volume relative to the normal volume,
/// balance and fade.
#[derive(Clone, Debug)]
pub struct PulseSinkInputInfo {
    pub index: u32,
    pub name: Option<String>,
    pub mute: bool,
    pub volume_bits: u64,
    pub balance_bits: u64,
    pub fade_bits: u64,
}

/// Whether `s` is the stream record built from the server's stream `info`.
pub open spec fn sink_input_from_pulse(s: SinkInputState, info: PulseSinkInputInfo) -> bool {
    &&& s.index == info.index
    &&& s.name@ == text_or_empty(info.name)
    &&& s.mute == info.mute
    &&& s.volume_bits == info.volume_bits
    &&& s.balance_bits == info.balance_bits
    &&& s.support_balance
    &&& s.fade_bits == info.fade_bits
    &&& s.support_fade
}

/// The stream record keeps what the server says of the stream: its index,
/// name (empty when the server gives none), mute flag, volume, balance and
/// fade, and it supports balance and fade.
pub proof fn law_stream_record_keeps_description(s: SinkInputState, info: PulseSinkInputInfo)
    requires
        sink_input_from_pulse(s, info),
    ensures
        s.index == info.index,
        info.name matches Some(n) ==> s.name@ == n@,
        info.name is None ==> s.name@.len() == 0,
        s.mute == info.mute,
        info.mute ==> s.mute,
        !info.mute ==> !s.mute,
        s.volume_bits == info.volume_bits,
        s.balance_bits == info.balance_bits,
        s.fade_bits == info.fade_bits,
        s.support_balance && s.support_fade,
{
}

/// Builds the stream record of a server stream.
pub fn state_from_info(info: &PulseSinkInputInfo) -> (s: SinkInputState)
    ensures
        sink_input_from_pulse(s, *info),
{
    SinkInputState {
        index: info.index,
        name: owned_or_empty(&info.name),
        mute: info.mute,
        volume_bits: info.volume_bits,
        balance_bits: info.balance_bits,
        support_balance: true,
        fade_bits: info.fade_bits,
        support_fade: true,
    }
}

/// Error text of a refused volume change.
pub open spec fn set_volume_failed_message(index: u32) -> Seq<char> {
    "set volume failed for sink input "@ + decimal(index as nat)
}

/// Error text of a refused mute change.
pub open spec fn set_mute_failed_message(index: u32) -> Seq<char> {
    "set mute failed for sink input "@ + decimal(index as nat)
}

/// The outcome of setting the volume of stream `index`.
pub fn set_volume(index: u32, reply: Result<bool, String>) -> (r: Result<(), String>)
    ensures
        match reply {
            Err(e) => r == Err::<(), String>(e),
            Ok(true) => r is Ok,
            Ok(false) => r matches Err(e) && e@ == set_volume_failed_message(index),
        },
{
    let ok = reply?;
    if !ok {
        return Err(with_decimal("set volume failed for sink input ", index));
    }
    Ok(())
}

/// The outcome of muting or unmuting stream `index`.
pub fn set_mute(index: u32, reply: Result<bool, String>) -> (r: Result<(), String>)
    ensures
        match reply {
            Err(e) => r == Err::<(), String>(e),
            Ok(true) => r is Ok,
            Ok(false) => r matches Err(e) && e@ == set_mute_failed_message(index),
        },
{
    let ok = reply?;
    if !ok {
        return Err(with_decimal("set mute failed for sink input ", index));
    }
    Ok(())
}

/// Error text of a stream the server does not know.
pub open spec fn sink_input_not_found_message(index: u32) -> Seq<char> {
    "sink input "@ + decimal(index as nat) + " not found"@
}

/// The stream record from the server's answer to a query for stream `index`.
pub fn query_info(index: u32, reply: Result<Option<PulseSinkInputInfo>, String>) -> (r: Result<SinkInputState, String>)
    ensures
        match reply {
            Err(e) => r == Err::<SinkInputState, String>(e),
            Ok(None) => r matches Err(e) && e@ == sink_input_not_found_message(index),
            Ok(Some(info)) => r matches Ok(s) && sink_input_from_pulse(s, info),
        },
{
    match reply? {
        Some(info) => Ok(state_from_info(&info)),
        None => {
            let mut e = with_decimal("sink input ", index);
            e.append(" not found");
            Err(e)
        },
    }
}

/// The stream records from the server's answer to a query for all streams.
pub fn query_list(reply: Result<Vec<PulseSinkInputInfo>, String>) -> (r: Result<Vec<SinkInputState>, String>)
    ensures
        match reply {
            Err(e) => r == Err::<Vec<SinkInputState>, String>(e),
            Ok(infos) => r matches Ok(list) && list@.len() == infos@.len()
                && forall|i: int| 0 <= i < infos@.len() ==> sink_input_from_pulse(#[trigger] list@[i], infos@[i]),
        },
{
    let infos = reply?;
    let mut list: Vec<SinkInputState> = Vec::new();
    for i in 0..infos.len()
        invariant
            list@.len() == i,
            forall|j: int| 0 <= j < i ==> sink_input_from_pulse(#[trigger] list@[j], infos@[j]),
    {
        list.push(state_from_info(&infos[i]));
    }
    Ok(list)
}

/// Error text of a volume lookup that found nothing.
pub open spec fn volume_info_failed_message() -> Seq<char> {
    "get sink input volume info failed"@
}

/// Error text of a refused balance change.
pub open spec fn set_balance_failed_message() -> Seq<char> {
    "set balance failed"@
}

/// Error text of a refused fade change.
pub open spec fn set_fade_failed_message() -> Seq<char> {
    "set fade failed"@
}

/// The outcome of looking up the current volumes of the stream before a
/// balance or fade change: `reply` tells whether the server described both
/// the volumes and the channel map.
pub fn check_volume_info(reply: Result<bool, String>) -> (r: Result<(), String>)
    ensures
        match reply {
            Err(e) => r == Err::<(), String>(e),
            Ok(true) => r is Ok,
            Ok(false) => r matches Err(e) && e@ == volume_info_failed_message(),
        },
{
    let found = reply?;
    if !found {
        return Err("get sink input volume info failed".to_owned());
    }
    Ok(())
}

/// The outcome of applying a new balance to the stream.
pub fn set_balance(reply: Result<bool, String>) -> (r: Result<(), String>)
    ensures
        match reply {
            Err(e) => r == Err::<(), String>(e),
            Ok(true) => r is Ok,
            Ok(false) => r matches Err(e) && e@ == set_balance_failed_message(),
        },
{
    let ok = reply?;
    if !ok {
        return Err("set balance failed".to_owned());
    }
    Ok(())
}

/// The outcome of applying a new fade to the stream.
pub fn set_fade(reply: Result<bool, String>) -> (r: Result<(), String>)
    ensures
        match reply {
            Err(e) => r == Err::<(), String>(e),
            Ok(true) => r is Ok,
            Ok(false) => r matches Err(e) && e@ == set_fade_failed_message(),
        },
{
    let ok = reply?;
    if !ok {
        return Err("set fade failed".to_owned());
    }
    Ok(())
}

} // verus!

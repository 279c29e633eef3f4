//! Records of the device registry read by the bus interface. Volume-like
//! quantities are kept as the IEEE-754 bit pattern of their `f64` value.

use std::collections::HashMap;

use vstd::prelude::*;

verus! {

/// An audio port.
#[derive(Clone, Debug)]
pub struct Port {
    pub name: String,
    pub description: String,
    pub direction: u32,
}

/// A port of a sound card.
#[derive(Clone, Debug)]
pub struct CardPortInfo {
    pub name: String,
    pub enabled: bool,
    pub bluetooth: bool,
    pub description: String,
    pub direction: u32,
}

/// A sound card with its ports.
#[derive(Clone, Debug)]
pub struct CardInfo {
    pub id: u32,
    pub name: String,
    pub ports: Vec<CardPortInfo>,
}

/// State of an output device.
#[derive(Clone, Debug)]
pub struct SinkState {
    pub index: u32,
    pub name: String,
    pub description: String,
    pub base_volume_bits: u64,
    pub mute: bool,
    pub volume_bits: u64,
    pub balance_bits: u64,
    pub support_balance: bool,
    pub fade_bits: u64,
    pub support_fade: bool,
    pub ports: Vec<Port>,
    pub active_port: Port,
    pub card: u32,
}

/// State of an input device.
#[derive(Clone, Debug)]
pub struct SourceState {
    pub index: u32,
    pub name: String,
    pub description: String,
    pub base_volume_bits: u64,
    pub mute: bool,
    pub volume_bits: u64,
    pub balance_bits: u64,
    pub support_balance: bool,
    pub fade_bits: u64,
    pub support_fade: bool,
    pub ports: Vec<Port>,
    pub active_port: Port,
    pub card: u32,
}

/// State of a playback stream.
#[derive(Clone, Debug)]
pub struct SinkInputState {
    pub index: u32,
    pub name: String,
    pub mute: bool,
    pub volume_bits: u64,
    pub balance_bits: u64,
    pub support_balance: bool,
    pub fade_bits: u64,
    pub support_fade: bool,
}

/// A sound card.
#[derive(Clone, Debug)]
pub struct CardState {
    pub index: u32,
    pub name: String,
    pub active_profile: String,
    pub ports: Vec<CardPortInfo>,
}

/// The device registry: the four tables and the default device names.
pub struct DeviceRegistry {
    pub sinks: HashMap<u32, SinkState>,
    pub sources: HashMap<u32, SourceState>,
    pub sink_inputs: HashMap<u32, SinkInputState>,
    pub cards: HashMap<u32, CardState>,
    pub default_sink: Option<String>,
    pub default_source: Option<String>,
}

impl Default for DeviceRegistry {
    /// An empty registry.
    fn default() -> (r: Self)
        ensures
            r.sinks@ == Map::<u32, SinkState>::empty(),
            r.sources@ == Map::<u32, SourceState>::empty(),
            r.sink_inputs@ == Map::<u32, SinkInputState>::empty(),
            r.cards@ == Map::<u32, CardState>::empty(),
            r.default_sink is None,
            r.default_source is None,
    {
        Self::new()
    }
}

impl DeviceRegistry {
    /// An empty registry.
    pub fn new() -> (r: Self)
        ensures
            r.sinks@ == Map::<u32, SinkState>::empty(),
            r.sources@ == Map::<u32, SourceState>::empty(),
            r.sink_inputs@ == Map::<u32, SinkInputState>::empty(),
            r.cards@ == Map::<u32, CardState>::empty(),
            r.default_sink is None,
            r.default_source is None,
    {
        DeviceRegistry {
            sinks: HashMap::new(),
            sources: HashMap::new(),
            sink_inputs: HashMap::new(),
            cards: HashMap::new(),
            default_sink: None,
            default_source: None,
        }
    }
}

} // verus!

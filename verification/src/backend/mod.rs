//! Sound-server facing types.
//!
//! The service speaks the PulseAudio protocol (PulseAudio itself or the
//! pipewire-pulse layer). The records below describe devices as the bus
//! interface publishes them; volume-like quantities are kept as the IEEE-754
//! bit pattern of their `f64` value.

pub mod pulse;

use vstd::prelude::*;

verus! {

/// An audio port.
#[derive(Clone, Debug)]
pub struct Port {
    pub name: String,
    pub description: String,
    pub direction: u32,
}

/// A sound card with its ports.
#[derive(Clone, Debug)]
pub struct CardInfo {
    pub id: u32,
    pub name: String,
    pub ports: Vec<CardPortInfo>,
}

/// A port of a sound card.
#[derive(Clone, Debug)]
pub struct CardPortInfo {
    pub name: String,
    pub enabled: bool,
    pub bluetooth: bool,
    pub description: String,
    pub direction: u32,
}

/// An output device. The `*_bits` fields hold `f64` bit patterns.
#[derive(Clone, Debug)]
pub struct SinkInfo {
    pub index: u32,
    pub name: String,
    pub description: String,
    pub base_volume_bits: u64,
    pub mute: bool,
    pub volume_bits: u64,
    pub balance_bits: u64,
    pub support_balance: bool,
    pub fade_bits: u64,
    pub support_fade: bool,
    pub ports: Vec<Port>,
    pub active_port: Port,
    pub card: u32,
}

/// An input device. The `*_bits` fields hold `f64` bit patterns.
#[derive(Clone, Debug)]
pub struct SourceInfo {
    pub index: u32,
    pub name: String,
    pub description: String,
    pub base_volume_bits: u64,
    pub mute: bool,
    pub volume_bits: u64,
    pub balance_bits: u64,
    pub support_balance: bool,
    pub fade_bits: u64,
    pub support_fade: bool,
    pub ports: Vec<Port>,
    pub active_port: Port,
    pub card: u32,
}

/// A playback stream. The `*_bits` fields hold `f64` bit patterns.
#[derive(Clone, Debug)]
pub struct SinkInputInfo {
    pub index: u32,
    pub name: String,
    pub mute: bool,
    pub volume_bits: u64,
    pub balance_bits: u64,
    pub support_balance: bool,
    pub fade_bits: u64,
    pub support_fade: bool,
}

} // verus!

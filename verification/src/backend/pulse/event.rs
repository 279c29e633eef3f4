//! The set of known devices, kept up to date from the server's change
//! notifications.

use std::collections::HashSet;

use vstd::prelude::*;

use super::PulseEvent;

verus! {

broadcast use vstd::std_specs::hash::group_hash_axioms;

/// Indices of the known devices of each kind.
pub struct DeviceRegistry {
    pub sinks: HashSet<u32>,
    pub sources: HashSet<u32>,
    pub sink_inputs: HashSet<u32>,
    pub cards: HashSet<u32>,
}

/// Abstract contents of a [`DeviceRegistry`].
pub struct RegistrySets {
    pub sinks: Set<u32>,
    pub sources: Set<u32>,
    pub sink_inputs: Set<u32>,
    pub cards: Set<u32>,
}

impl View for DeviceRegistry {
    type V = RegistrySets;

    open spec fn view(&self) -> RegistrySets {
        RegistrySets {
            sinks: self.sinks@,
            sources: self.sources@,
            sink_inputs: self.sink_inputs@,
            cards: self.cards@,
        }
    }
}

/// The registry after notification `e`: additions and removals update the
/// set of their kind; every other notification leaves the registry as is.
pub open spec fn apply_spec(s: RegistrySets, e: PulseEvent) -> RegistrySets {
    match e {
        PulseEvent::SinkAdded { index } => RegistrySets { sinks: s.sinks.insert(index), ..s },
        PulseEvent::SinkRemoved { index } => RegistrySets { sinks: s.sinks.remove(index), ..s },
        PulseEvent::SourceAdded { index } => RegistrySets { sources: s.sources.insert(index), ..s },
        PulseEvent::SourceRemoved { index } => RegistrySets { sources: s.sources.remove(index), ..s },
        PulseEvent::SinkInputAdded { index } => RegistrySets { sink_inputs: s.sink_inputs.insert(index), ..s },
        PulseEvent::SinkInputRemoved { index } => RegistrySets { sink_inputs: s.sink_inputs.remove(index), ..s },
        PulseEvent::CardAdded { index } => RegistrySets { cards: s.cards.insert(index), ..s },
        PulseEvent::CardRemoved { index } => RegistrySets { cards: s.cards.remove(index), ..s },
        _ => s,
    }
}

/// The registry with no device.
pub open spec fn empty_registry() -> RegistrySets {
    RegistrySets { sinks: Set::empty(), sources: Set::empty(), sink_inputs: Set::empty(), cards: Set::empty() }
}

impl Default for DeviceRegistry {
    /// An empty registry.
    fn default() -> (r: Self)
        ensures
            r@ == empty_registry(),
    {
        Self::new()
    }
}

impl DeviceRegistry {
    /// An empty registry.
    pub fn new() -> (r: Self)
        ensures
            r@ == empty_registry(),
    {
        DeviceRegistry {
            sinks: HashSet::new(),
            sources: HashSet::new(),
            sink_inputs: HashSet::new(),
            cards: HashSet::new(),
        }
    }

    /// Takes one change notification into account.
    pub fn apply_event(&mut self, event: &PulseEvent)
        ensures
            final(self)@ == apply_spec(old(self)@, *event),
    {
        match event {
            PulseEvent::SinkAdded { index } => {
                self.sinks.insert(*index);
            },
            PulseEvent::SinkRemoved { index } => {
                self.sinks.remove(index);
            },
            PulseEvent::SourceAdded { index } => {
                self.sources.insert(*index);
            },
            PulseEvent::SourceRemoved { index } => {
                self.sources.remove(index);
            },
            PulseEvent::SinkInputAdded { index } => {
                self.sink_inputs.insert(*index);
            },
            PulseEvent::SinkInputRemoved { index } => {
                self.sink_inputs.remove(index);
            },
            PulseEvent::CardAdded { index } => {
                self.cards.insert(*index);
            },
            PulseEvent::CardRemoved { index } => {
                self.cards.remove(index);
            },
            _ => {},
        }
    }
}

/// After a device is announced it is known, and after it is withdrawn it is
/// not, whatever was known before.
pub proof fn law_registry_tracks_presence(s: RegistrySets, index: u32)
    ensures
        apply_spec(s, PulseEvent::SinkAdded { index }).sinks.contains(index),
        !apply_spec(s, PulseEvent::SinkRemoved { index }).sinks.contains(index),
        apply_spec(s, PulseEvent::SourceAdded { index }).sources.contains(index),
        !apply_spec(s, PulseEvent::SourceRemoved { index }).sources.contains(index),
        apply_spec(s, PulseEvent::SinkInputAdded { index }).sink_inputs.contains(index),
        !apply_spec(s, PulseEvent::SinkInputRemoved { index }).sink_inputs.contains(index),
        apply_spec(s, PulseEvent::CardAdded { index }).cards.contains(index),
        !apply_spec(s, PulseEvent::CardRemoved { index }).cards.contains(index),
{
}

/// Announcing a new device and withdrawing it again leaves the registry as it was.
pub proof fn law_registry_add_remove(s: RegistrySets, index: u32)
    requires
        !s.sinks.contains(index),
    ensures
        apply_spec(apply_spec(s, PulseEvent::SinkAdded { index }), PulseEvent::SinkRemoved { index }) == s,
{
    assert(s.sinks.insert(index).remove(index) =~= s.sinks);
}

/// A kind of device tracked by the registry.
#[derive(Clone, Copy, Debug, PartialEq, Eq, Structural)]
pub enum DeviceKind {
    Sink,
    Source,
    SinkInput,
    Card,
}

/// The set of known devices of `kind`.
pub open spec fn known_set(s: RegistrySets, kind: DeviceKind) -> Set<u32> {
    match kind {
        DeviceKind::Sink => s.sinks,
        DeviceKind::Source => s.sources,
        DeviceKind::SinkInput => s.sink_inputs,
        DeviceKind::Card => s.cards,
    }
}

/// The device of `kind` that notification `e` announces, if any.
pub open spec fn announced(e: PulseEvent, kind: DeviceKind) -> Option<u32> {
    match (e, kind) {
        (PulseEvent::SinkAdded { index }, DeviceKind::Sink) => Some(index),
        (PulseEvent::SourceAdded { index }, DeviceKind::Source) => Some(index),
        (PulseEvent::SinkInputAdded { index }, DeviceKind::SinkInput) => Some(index),
        (PulseEvent::CardAdded { index }, DeviceKind::Card) => Some(index),
        _ => None,
    }
}

/// The device of `kind` that notification `e` withdraws, if any.
pub open spec fn withdrawn(e: PulseEvent, kind: DeviceKind) -> Option<u32> {
    match (e, kind) {
        (PulseEvent::SinkRemoved { index }, DeviceKind::Sink) => Some(index),
        (PulseEvent::SourceRemoved { index }, DeviceKind::Source) => Some(index),
        (PulseEvent::SinkInputRemoved { index }, DeviceKind::SinkInput) => Some(index),
        (PulseEvent::CardRemoved { index }, DeviceKind::Card) => Some(index),
        _ => None,
    }
}

/// The registry after the notifications `events`, taken in order.
pub open spec fn apply_all(s: RegistrySets, events: Seq<PulseEvent>) -> RegistrySets
    decreases events.len(),
{
    if events.len() == 0 {
        s
    } else {
        apply_spec(apply_all(s, events.drop_last()), events.last())
    }
}

/// Whether device `index` of `kind` is known after `events`: decided by the
/// last notification among them that announces or withdraws it, and by
/// `initially` when there is none.
pub open spec fn known_after(initially: bool, events: Seq<PulseEvent>, kind: DeviceKind, index: u32) -> bool
    decreases events.len(),
{
    if events.len() == 0 {
        initially
    } else if announced(events.last(), kind) == Some(index) {
        true
    } else if withdrawn(events.last(), kind) == Some(index) {
        false
    } else {
        known_after(initially, events.drop_last(), kind, index)
    }
}

/// Over a whole run of notifications, a device is known exactly when the last
/// notification that announces or withdraws it announces it (or, with no such
/// notification, when it was known at the start); change, default-device and
/// server notifications never change the registry.
pub proof fn law_registry_last_word_wins(s: RegistrySets, events: Seq<PulseEvent>, kind: DeviceKind, index: u32)
    ensures
        known_set(apply_all(s, events), kind).contains(index) == known_after(known_set(s, kind).contains(index), events, kind, index),
    decreases events.len(),
{
    if events.len() > 0 {
        law_registry_last_word_wins(s, events.drop_last(), kind, index);
    }
}

} // verus!

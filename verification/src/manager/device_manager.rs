//! In-memory tables of the audio devices.
//!
//! The event loop fills the four tables (sinks, sources, sink inputs, cards)
//! and the default device names; the bus interface reads them. Volume-like
//! quantities are kept as the IEEE-754 bit pattern of their `f64` value.

use std::collections::HashMap;

use vstd::prelude::*;

use vstd::std_specs::iter::IteratorSpec;

use super::card::{Card, PortInfo};
use super::meter::Meter;
use crate::backend::pulse::module::{module_state_of, ModuleState, ModuleTable};
use crate::text::{all_ascii, ascii_lowered, has_substring, lowercase, str_contains, str_eq, to_lowercase};

verus! {

broadcast use vstd::std_specs::hash::group_hash_axioms;

/// An audio port.
#[derive(Clone, Debug)]
pub struct Port {
    pub name: String,
    pub description: String,
    pub direction: u32,
}

/// A port of a sound card, as listed in the card tables.
#[derive(Clone, Debug)]
pub struct CardPortInfo {
    pub name: String,
    pub enabled: bool,
    pub bluetooth: bool,
    pub description: String,
    pub direction: u32,
    /// Names of the profiles this port belongs to.
    pub profiles: Vec<String>,
}

impl CardPortInfo {
    /// The profile to select for this port: the first one listed.
    pub fn select_profile(&self) -> (r: Option<&str>)
        ensures
            r is None <==> self.profiles@.len() == 0,
            r matches Some(s) ==> s@ == self.profiles@[0]@,
    {
        if self.profiles.len() > 0 {
            Some(self.profiles[0].as_str())
        } else {
            None
        }
    }
}

/// A card with its ports.
#[derive(Clone, Debug)]
pub struct CardInfo {
    pub id: u32,
    pub name: String,
    pub ports: Vec<CardPortInfo>,
}

/// State of an output device. The `*_bits` fields hold `f64` bit patterns.
#[derive(Clone, Debug)]
pub struct SinkState {
    pub index: u32,
    pub name: String,
    pub description: String,
    pub base_volume_bits: u64,
    pub mute: bool,
    pub volume_bits: u64,
    pub balance_bits: u64,
    pub support_balance: bool,
    pub fade_bits: u64,
    pub support_fade: bool,
    pub ports: Vec<Port>,
    pub active_port: Port,
    pub card: u32,
}

/// State of an input device. The `*_bits` fields hold `f64` bit patterns.
#[derive(Clone, Debug)]
pub struct SourceState {
    pub index: u32,
    pub name: String,
    pub description: String,
    pub base_volume_bits: u64,
    pub mute: bool,
    pub volume_bits: u64,
    pub balance_bits: u64,
    pub support_balance: bool,
    pub fade_bits: u64,
    pub support_fade: bool,
    pub ports: Vec<Port>,
    pub active_port: Port,
    pub card: u32,
}

/// State of a playback stream. The `*_bits` fields hold `f64` bit patterns.
#[derive(Clone, Debug)]
pub struct SinkInputState {
    pub index: u32,
    pub name: String,
    pub mute: bool,
    pub volume_bits: u64,
    pub balance_bits: u64,
    pub support_balance: bool,
    pub fade_bits: u64,
    pub support_fade: bool,
}

/// A card as listed in the card tables.
#[derive(Clone, Debug)]
pub struct CardState {
    pub index: u32,
    pub name: String,
    pub active_profile: String,
    pub ports: Vec<CardPortInfo>,
}

/// Abstract contents of a [`DeviceManager`].
pub struct DeviceTables {
    pub sinks: Map<u32, SinkState>,
    pub sources: Map<u32, SourceState>,
    pub sink_inputs: Map<u32, SinkInputState>,
    pub cards: Map<u32, Card>,
    pub default_sink: Option<String>,
    pub default_source: Option<String>,
    pub pending_profiles: Map<u32, PendingProfile>,
    pub modules: Map<Seq<char>, ModuleState>,
    pub sink_meters: Map<u32, Meter>,
    pub source_meters: Map<u32, Meter>,
}

/// The device tables.
pub struct DeviceManager {
    pub sinks: HashMap<u32, SinkState>,
    pub sources: HashMap<u32, SourceState>,
    pub sink_inputs: HashMap<u32, SinkInputState>,
    pub cards: HashMap<u32, Card>,
    pub default_sink: Option<String>,
    pub default_source: Option<String>,
    /// Cards whose profile is being switched: card id to its wait item.
    pub pending_profiles: HashMap<u32, PendingProfile>,
    /// Server modules: module name to loading state.
    pub modules: ModuleTable,
    /// Level meters on the bus, by sink index.
    pub sink_meters: HashMap<u32, Meter>,
    /// Level meters on the bus, by source index.
    pub source_meters: HashMap<u32, Meter>,
}

impl View for DeviceManager {
    type V = DeviceTables;

    open spec fn view(&self) -> DeviceTables {
        DeviceTables {
            sinks: self.sinks@,
            sources: self.sources@,
            sink_inputs: self.sink_inputs@,
            cards: self.cards@,
            default_sink: self.default_sink,
            default_source: self.default_source,
            pending_profiles: self.pending_profiles@,
            modules: self.modules@,
            sink_meters: self.sink_meters@,
            source_meters: self.source_meters@,
        }
    }
}

/// Empty tables.
pub open spec fn empty_tables() -> DeviceTables {
    DeviceTables {
        sinks: Map::empty(),
        sources: Map::empty(),
        sink_inputs: Map::empty(),
        cards: Map::empty(),
        default_sink: None,
        default_source: None,
        pending_profiles: Map::empty(),
        modules: Map::empty(),
        sink_meters: Map::empty(),
        source_meters: Map::empty(),
    }
}

/// Outcome of a profile switch.
#[derive(Clone, Debug, PartialEq, Eq)]
pub enum PendingResult {
    /// Done: the card's devices are all back.
    Complete,
    /// The card went away; the switch is abandoned.
    CardRemoved,
    /// The switch failed.
    Failed(String),
}

/// Mask bit of the output direction.
pub const DIRECTION_SINK: u32 = 1;
/// Mask bit of the input direction.
pub const DIRECTION_SOURCE: u32 = 2;

/// A profile switch of a card and its outcome.
///
/// The outcome is set once: the first signal wins. `required_directions`
/// holds the directions whose devices must reappear (bit 0 output, bit 1 input).
#[derive(Clone, Debug)]
pub struct PendingProfile {
    result: Option<PendingResult>,
    required_directions: u32,
}

/// The outcome after signalling `r` on a switch whose outcome was `current`.
pub open spec fn pending_signal_spec(current: Option<PendingResult>, r: PendingResult) -> Option<PendingResult> {
    if current is None {
        Some(r)
    } else {
        current
    }
}

/// Copies a switch outcome.
pub fn copy_pending_result(r: &PendingResult) -> (c: PendingResult)
    ensures
        c == *r,
{
    match r {
        PendingResult::Complete => PendingResult::Complete,
        PendingResult::CardRemoved => PendingResult::CardRemoved,
        PendingResult::Failed(e) => PendingResult::Failed(e.clone()),
    }
}

impl PendingProfile {
    /// The outcome, once signalled.
    pub closed spec fn spec_result(&self) -> Option<PendingResult> {
        self.result
    }

    /// The directions that must be rebuilt.
    pub closed spec fn spec_required_directions(&self) -> u32 {
        self.required_directions
    }

    /// Creates a wait item for the given directions.
    pub fn new(required_directions: u32) -> (p: Self)
        ensures
            p.spec_result() is None,
            p.spec_required_directions() == required_directions,
    {
        PendingProfile { result: None, required_directions }
    }

    /// The directions that must be rebuilt.
    pub fn required_directions(&self) -> (d: u32)
        ensures
            d == self.spec_required_directions(),
    {
        self.required_directions
    }

    /// One step of waiting for the outcome.
    ///
    /// `timed_out` tells whether the last wait for a signal ran out of time
    /// (false before the first wait). Returns the final answer of the wait, or
    /// `None` while the caller must keep waiting.
    pub fn wait(&self, timed_out: bool) -> (r: Option<Result<PendingResult, String>>)
        ensures
            timed_out ==> (r matches Some(Err(e)) && e@ == super::card::timeout_message()),
            !timed_out ==> match self.spec_result() {
                Some(x) => r == Some(Ok::<PendingResult, String>(x)),
                None => r is None,
            },
    {
        if timed_out {
            return Some(Err("profile switch timed out".to_owned()));
        }
        match &self.result {
            Some(x) => Some(Ok(copy_pending_result(x))),
            None => None,
        }
    }

    /// Signals completion.
    pub fn signal_complete(&mut self)
        ensures
            final(self).spec_result() == pending_signal_spec(old(self).spec_result(), PendingResult::Complete),
            final(self).spec_required_directions() == old(self).spec_required_directions(),
    {
        self.signal(PendingResult::Complete);
    }

    /// Signals that the card was removed.
    pub fn signal_removed(&mut self)
        ensures
            final(self).spec_result() == pending_signal_spec(old(self).spec_result(), PendingResult::CardRemoved),
            final(self).spec_required_directions() == old(self).spec_required_directions(),
    {
        self.signal(PendingResult::CardRemoved);
    }

    /// Signals failure.
    pub fn signal_failed(&mut self, error: String)
        ensures
            final(self).spec_result() == pending_signal_spec(old(self).spec_result(), PendingResult::Failed(error)),
            final(self).spec_required_directions() == old(self).spec_required_directions(),
    {
        self.signal(PendingResult::Failed(error));
    }

    fn signal(&mut self, result: PendingResult)
        ensures
            final(self).spec_result() == pending_signal_spec(old(self).spec_result(), result),
            final(self).spec_required_directions() == old(self).spec_required_directions(),
    {
        if self.result.is_none() {
            self.result = Some(result);
        }
    }
}

/// The first outcome signalled on a profile switch is final.
pub proof fn law_pending_first_signal_wins(first: PendingResult, later: PendingResult)
    ensures
        pending_signal_spec(None, first) == Some(first),
        pending_signal_spec(pending_signal_spec(None, first), later) == Some(first),
{
}


// ===== Port types of the card listing =====

pub const PORT_TYPE_BLUETOOTH: u32 = 0;
pub const PORT_TYPE_HEADSET: u32 = 1;
pub const PORT_TYPE_USB: u32 = 2;
pub const PORT_TYPE_BUILTIN: u32 = 3;
pub const PORT_TYPE_HDMI: u32 = 4;
pub const PORT_TYPE_LINE_IO: u32 = 5;
pub const PORT_TYPE_MULTI_CHANNEL: u32 = 6;
pub const PORT_TYPE_UNKNOWN: u32 = 7;

/// Whether the card name or the port name, in lowercase, contains `keyword`.
pub open spec fn keyword_matches(card_name: Seq<char>, port_name: Seq<char>, keyword: Seq<char>) -> bool {
    has_substring(lowercase(card_name), keyword) || has_substring(lowercase(port_name), keyword)
}

/// The icon type of a port, from the keywords in the lowercase forms `lc`
/// and `lp` of its card and port names.
///
/// Groups are tried in this order: line in/out, built-in, headset, HDMI,
/// Bluetooth, USB; a port that matches none is of unknown type.
pub open spec fn icon_type_lowered(lc: Seq<char>, lp: Seq<char>) -> u32 {
    let m = |k: Seq<char>| has_substring(lc, k) || has_substring(lp, k);
    if m("linein"@) || m("lineout"@) {
        PORT_TYPE_LINE_IO
    } else if m("speaker"@) || m("input-mic"@) {
        PORT_TYPE_BUILTIN
    } else if m("rear-mic"@) || m("front-mic"@) || m("headset"@) || m("headphone"@) {
        PORT_TYPE_HEADSET
    } else if m("hdmi"@) {
        PORT_TYPE_HDMI
    } else if m("bluez"@) || m("bluetooth"@) {
        PORT_TYPE_BLUETOOTH
    } else if m("usb"@) {
        PORT_TYPE_USB
    } else {
        PORT_TYPE_UNKNOWN
    }
}

/// The icon type of a port, from the keywords in its card and port names
/// taken in lowercase (see [`icon_type_lowered`]).
pub open spec fn icon_port_type(card_name: Seq<char>, port_name: Seq<char>) -> u32 {
    icon_type_lowered(lowercase(card_name), lowercase(port_name))
}

/// The icon type of a port whose card and port names are ASCII: the same
/// keywords, matched in the names with `A`..`Z` lowered.
pub open spec fn ascii_icon_port_type(card_name: Seq<char>, port_name: Seq<char>) -> u32 {
    icon_type_lowered(ascii_lowered(card_name), ascii_lowered(port_name))
}

/// The icon type groups in the order they are tried, each with its keywords.
pub open spec fn icon_groups() -> Seq<(u32, Seq<Seq<char>>)> {
    seq![
        (PORT_TYPE_LINE_IO, seq!["linein"@, "lineout"@]),
        (PORT_TYPE_BUILTIN, seq!["speaker"@, "input-mic"@]),
        (PORT_TYPE_HEADSET, seq!["rear-mic"@, "front-mic"@, "headset"@, "headphone"@]),
        (PORT_TYPE_HDMI, seq!["hdmi"@]),
        (PORT_TYPE_BLUETOOTH, seq!["bluez"@, "bluetooth"@]),
        (PORT_TYPE_USB, seq!["usb"@]),
    ]
}

/// Whether the card or port name, in lowercase, contains one of `keywords`.
pub open spec fn matches_any(card_name: Seq<char>, port_name: Seq<char>, keywords: Seq<Seq<char>>) -> bool {
    exists|j: int| 0 <= j < keywords.len() && #[trigger] keyword_matches(card_name, port_name, keywords[j])
}

proof fn lemma_matches_one(c: Seq<char>, p: Seq<char>, a: Seq<char>)
    ensures
        matches_any(c, p, seq![a]) == keyword_matches(c, p, a),
{
    if keyword_matches(c, p, a) {
        assert(keyword_matches(c, p, seq![a][0]));
    }
}

proof fn lemma_matches_two(c: Seq<char>, p: Seq<char>, a: Seq<char>, b: Seq<char>)
    ensures
        matches_any(c, p, seq![a, b]) == (keyword_matches(c, p, a) || keyword_matches(c, p, b)),
{
    let kw = seq![a, b];
    if keyword_matches(c, p, a) {
        assert(keyword_matches(c, p, kw[0]));
    }
    if keyword_matches(c, p, b) {
        assert(keyword_matches(c, p, kw[1]));
    }
    if matches_any(c, p, kw) {
        let j = choose|j: int| 0 <= j < kw.len() && #[trigger] keyword_matches(c, p, kw[j]);
        assert(j == 0 || j == 1);
    }
}

proof fn lemma_matches_four(c: Seq<char>, p: Seq<char>, a: Seq<char>, b: Seq<char>, d: Seq<char>, e: Seq<char>)
    ensures
        matches_any(c, p, seq![a, b, d, e]) == (keyword_matches(c, p, a) || keyword_matches(c, p, b)
            || keyword_matches(c, p, d) || keyword_matches(c, p, e)),
{
    let kw = seq![a, b, d, e];
    if keyword_matches(c, p, a) {
        assert(keyword_matches(c, p, kw[0]));
    }
    if keyword_matches(c, p, b) {
        assert(keyword_matches(c, p, kw[1]));
    }
    if keyword_matches(c, p, d) {
        assert(keyword_matches(c, p, kw[2]));
    }
    if keyword_matches(c, p, e) {
        assert(keyword_matches(c, p, kw[3]));
    }
    if matches_any(c, p, kw) {
        let j = choose|j: int| 0 <= j < kw.len() && #[trigger] keyword_matches(c, p, kw[j]);
        assert(j == 0 || j == 1 || j == 2 || j == 3);
    }
}

proof fn lemma_group_matches(c: Seq<char>, p: Seq<char>)
    ensures
        matches_any(c, p, icon_groups()[0].1) == (keyword_matches(c, p, "linein"@) || keyword_matches(c, p, "lineout"@)),
        matches_any(c, p, icon_groups()[1].1) == (keyword_matches(c, p, "speaker"@) || keyword_matches(c, p, "input-mic"@)),
        matches_any(c, p, icon_groups()[2].1) == (keyword_matches(c, p, "rear-mic"@) || keyword_matches(c, p, "front-mic"@)
            || keyword_matches(c, p, "headset"@) || keyword_matches(c, p, "headphone"@)),
        matches_any(c, p, icon_groups()[3].1) == keyword_matches(c, p, "hdmi"@),
        matches_any(c, p, icon_groups()[4].1) == (keyword_matches(c, p, "bluez"@) || keyword_matches(c, p, "bluetooth"@)),
        matches_any(c, p, icon_groups()[5].1) == keyword_matches(c, p, "usb"@),
{
    lemma_matches_two(c, p, "linein"@, "lineout"@);
    lemma_matches_two(c, p, "speaker"@, "input-mic"@);
    lemma_matches_four(c, p, "rear-mic"@, "front-mic"@, "headset"@, "headphone"@);
    lemma_matches_one(c, p, "hdmi"@);
    lemma_matches_two(c, p, "bluez"@, "bluetooth"@);
    lemma_matches_one(c, p, "usb"@);
}

/// A keyword matches a port when it occurs in the lowercase form of the card
/// name or of the port name: anywhere in either.
pub proof fn law_keyword_in_either_name(card_name: Seq<char>, port_name: Seq<char>, keyword: Seq<char>, i: int)
    ensures
        keyword_matches(card_name, port_name, keyword) == (has_substring(lowercase(card_name), keyword)
            || has_substring(lowercase(port_name), keyword)),
        0 <= i && i + keyword.len() <= lowercase(card_name).len()
            && lowercase(card_name).subrange(i, i + keyword.len()) == keyword ==> keyword_matches(card_name, port_name, keyword),
        0 <= i && i + keyword.len() <= lowercase(port_name).len()
            && lowercase(port_name).subrange(i, i + keyword.len()) == keyword ==> keyword_matches(card_name, port_name, keyword),
{
}

/// A port's icon type is that of the first group, in [`icon_groups`] order,
/// with a keyword in the lowercase card or port name; a port whose names hold
/// no keyword of any group is of unknown type.
pub proof fn law_icon_type_first_matching_group(card_name: Seq<char>, port_name: Seq<char>, g: int)
    requires
        0 <= g < icon_groups().len(),
        matches_any(card_name, port_name, icon_groups()[g].1),
        forall|h: int| 0 <= h < g ==> !matches_any(card_name, port_name, #[trigger] icon_groups()[h].1),
    ensures
        icon_port_type(card_name, port_name) == icon_groups()[g].0,
{
    lemma_group_matches(card_name, port_name);
    if g >= 1 {
        assert(!matches_any(card_name, port_name, icon_groups()[0].1));
    }
    if g >= 2 {
        assert(!matches_any(card_name, port_name, icon_groups()[1].1));
    }
    if g >= 3 {
        assert(!matches_any(card_name, port_name, icon_groups()[2].1));
    }
    if g >= 4 {
        assert(!matches_any(card_name, port_name, icon_groups()[3].1));
    }
    if g >= 5 {
        assert(!matches_any(card_name, port_name, icon_groups()[4].1));
    }
}

/// See [`law_icon_type_first_matching_group`]: no keyword at all, unknown type.
pub proof fn law_icon_type_unknown(card_name: Seq<char>, port_name: Seq<char>)
    requires
        forall|g: int| 0 <= g < icon_groups().len() ==> !matches_any(card_name, port_name, #[trigger] icon_groups()[g].1),
    ensures
        icon_port_type(card_name, port_name) == PORT_TYPE_UNKNOWN,
{
    lemma_group_matches(card_name, port_name);
    assert(!matches_any(card_name, port_name, icon_groups()[0].1));
    assert(!matches_any(card_name, port_name, icon_groups()[1].1));
    assert(!matches_any(card_name, port_name, icon_groups()[2].1));
    assert(!matches_any(card_name, port_name, icon_groups()[3].1));
    assert(!matches_any(card_name, port_name, icon_groups()[4].1));
    assert(!matches_any(card_name, port_name, icon_groups()[5].1));
}

/// Whether the card name or the port name contains `keyword`, ignoring case.
pub fn contains_keyword(card_name: &str, port_name: &str, keyword: &str) -> (r: bool)
    ensures
        r == keyword_matches(card_name@, port_name@, keyword@),
        all_ascii(card_name@) && all_ascii(port_name@) ==> r == (has_substring(ascii_lowered(card_name@), keyword@)
            || has_substring(ascii_lowered(port_name@), keyword@)),
{
    let card = to_lowercase(card_name);
    if str_contains(card.as_str(), keyword) {
        return true;
    }
    let port = to_lowercase(port_name);
    str_contains(port.as_str(), keyword)
}

/// The icon type of a port (see [`icon_port_type`]).
pub fn get_icon_port_type(card_name: &str, port_name: &str) -> (t: u32)
    ensures
        t == icon_port_type(card_name@, port_name@),
        all_ascii(card_name@) && all_ascii(port_name@) ==> t == ascii_icon_port_type(card_name@, port_name@),
{
    if contains_keyword(card_name, port_name, "linein") || contains_keyword(card_name, port_name, "lineout") {
        return PORT_TYPE_LINE_IO;
    }
    if contains_keyword(card_name, port_name, "speaker") || contains_keyword(card_name, port_name, "input-mic") {
        return PORT_TYPE_BUILTIN;
    }
    if contains_keyword(card_name, port_name, "rear-mic") || contains_keyword(card_name, port_name, "front-mic")
        || contains_keyword(card_name, port_name, "headset") || contains_keyword(card_name, port_name, "headphone") {
        return PORT_TYPE_HEADSET;
    }
    if contains_keyword(card_name, port_name, "hdmi") {
        return PORT_TYPE_HDMI;
    }
    if contains_keyword(card_name, port_name, "bluez") || contains_keyword(card_name, port_name, "bluetooth") {
        return PORT_TYPE_BLUETOOTH;
    }
    if contains_keyword(card_name, port_name, "usb") {
        return PORT_TYPE_USB;
    }
    PORT_TYPE_UNKNOWN
}

/// A card in the published card listing.
#[derive(Clone, Debug)]
pub struct CardExport {
    pub id: u32,
    pub name: String,
    pub ports: Vec<CardPortExport>,
}

/// A port in the published card listing.
#[derive(Clone, Debug)]
pub struct CardPortExport {
    pub name: String,
    pub enabled: bool,
    pub bluetooth: bool,
    pub description: String,
    pub direction: u32,
    pub port_type: u32,
}

/// The listing entry of a port of the card named `card_name`.
pub open spec fn port_export(card_name: Seq<char>, p: PortInfo) -> CardPortExport {
    CardPortExport {
        name: p.name,
        enabled: p.enabled,
        bluetooth: p.bluetooth,
        description: p.description,
        direction: p.direction,
        port_type: icon_port_type(card_name, p.name@),
    }
}

/// The listing entries of `ports`, in order; with `filter_unavailable`, the
/// disabled ports are left out.
pub open spec fn export_ports(card_name: Seq<char>, ports: Seq<PortInfo>, filter_unavailable: bool) -> Seq<CardPortExport>
    decreases ports.len(),
{
    if ports.len() == 0 {
        Seq::empty()
    } else {
        let rest = export_ports(card_name, ports.drop_last(), filter_unavailable);
        let p = ports.last();
        if !filter_unavailable || p.enabled {
            rest.push(port_export(card_name, p))
        } else {
            rest
        }
    }
}

/// Whether `e` is the listing entry of card `c`.
pub open spec fn is_export_of(e: CardExport, c: Card, filter_unavailable: bool) -> bool {
    &&& e.id == c.index
    &&& e.name == c.name
    &&& e.ports@ == export_ports(c.name@, c.ports@, filter_unavailable)
}

/// Whether every port of entry `e` with an ASCII name, on a card with the
/// ASCII name `card_name`, has the icon type [`ascii_icon_port_type`] gives.
pub open spec fn ascii_port_types(e: CardExport, card_name: Seq<char>) -> bool {
    forall|j: int| 0 <= j < e.ports@.len() && all_ascii(card_name) && all_ascii((#[trigger] e.ports@[j]).name@)
        ==> e.ports@[j].port_type == ascii_icon_port_type(card_name, e.ports@[j].name@)
}

/// The listing entry of a card; with `filter_unavailable`, disabled ports are left out.
pub fn card_to_export(card: &Card, filter_unavailable: bool) -> (e: CardExport)
    ensures
        is_export_of(e, *card, filter_unavailable),
        ascii_port_types(e, card.name@),
{
    let mut ports: Vec<CardPortExport> = Vec::new();
    for i in 0..card.ports.len()
        invariant
            ports@ == export_ports(card.name@, card.ports@.take(i as int), filter_unavailable),
            forall|j: int| 0 <= j < ports@.len() && all_ascii(card.name@) && all_ascii((#[trigger] ports@[j]).name@)
                ==> ports@[j].port_type == ascii_icon_port_type(card.name@, ports@[j].name@),
    {
        assert(card.ports@.take(i + 1).drop_last() == card.ports@.take(i as int));
        let p = &card.ports[i];
        if !filter_unavailable || p.enabled {
            ports.push(CardPortExport {
                name: p.name.clone(),
                enabled: p.enabled,
                bluetooth: p.bluetooth,
                description: p.description.clone(),
                direction: p.direction,
                port_type: get_icon_port_type(card.name.as_str(), p.name.as_str()),
            });
        }
    }
    assert(card.ports@.take(card.ports@.len() as int) == card.ports@);
    CardExport { id: card.index, name: card.name.clone(), ports }
}

/// Whether a listing entry is of an enabled port.
pub open spec fn export_enabled(e: CardPortExport) -> bool {
    e.enabled
}

/// The listing without unavailable ports is the full listing with the
/// disabled ports left out, in the same order.
pub proof fn law_export_without_unavailable(card_name: Seq<char>, ports: Seq<PortInfo>)
    ensures
        export_ports(card_name, ports, true) == export_ports(card_name, ports, false).filter(
            |e: CardPortExport| export_enabled(e),
        ),
    decreases ports.len(),
{
    reveal(Seq::filter);
    let pred = |e: CardPortExport| export_enabled(e);
    if ports.len() > 0 {
        law_export_without_unavailable(card_name, ports.drop_last());
        let full = export_ports(card_name, ports, false);
        assert(full.drop_last() == export_ports(card_name, ports.drop_last(), false));
        assert(full.last() == port_export(card_name, ports.last()));
    }
}

/// The same law for whole card entries: both entries of a card name the card
/// and the entry without unavailable ports keeps just the enabled ports.
pub proof fn law_card_export_without_unavailable(full: CardExport, filtered: CardExport, c: Card)
    requires
        is_export_of(full, c, false),
        is_export_of(filtered, c, true),
    ensures
        filtered.id == full.id,
        filtered.name == full.name,
        filtered.ports@ == full.ports@.filter(|e: CardPortExport| export_enabled(e)),
{
    law_export_without_unavailable(c.name@, c.ports@);
}

/// The cards of the card table in the order in which the table lists them.
pub open spec fn card_listing(dm: DeviceManager) -> Seq<Card> {
    vstd::std_specs::hash::into_iter_values(vstd::std_specs::hash::spec_values_iter(&dm.cards))
}

/// Whether `r` is the card listing of `dm`: the entries of the cards in
/// [`card_listing`] order.
pub open spec fn is_listing_of(r: Seq<CardExport>, dm: DeviceManager, filter_unavailable: bool) -> bool {
    &&& r.len() == card_listing(dm).len()
    &&& forall|i: int| 0 <= i < r.len() ==> is_export_of(#[trigger] r[i], card_listing(dm)[i], filter_unavailable)
}

/// The listing without unavailable ports has the same cards in the same order
/// as the full listing, each with just its enabled ports.
pub proof fn law_listings_agree(dm: DeviceManager, full: Seq<CardExport>, filtered: Seq<CardExport>)
    requires
        is_listing_of(full, dm, false),
        is_listing_of(filtered, dm, true),
    ensures
        filtered.len() == full.len(),
        forall|i: int| 0 <= i < full.len() ==> {
            &&& (#[trigger] filtered[i]).id == full[i].id
            &&& filtered[i].name == full[i].name
            &&& filtered[i].ports@ == full[i].ports@.filter(|e: CardPortExport| export_enabled(e))
        },
{
    assert forall|i: int| 0 <= i < full.len() implies {
        &&& (#[trigger] filtered[i]).id == full[i].id
        &&& filtered[i].name == full[i].name
        &&& filtered[i].ports@ == full[i].ports@.filter(|e: CardPortExport| export_enabled(e))
    } by {
        law_card_export_without_unavailable(full[i], filtered[i], card_listing(dm)[i]);
    }
}

/// A table gives back what was last written under an index, leaves the other
/// indices as they were, and no longer has an index once it is removed.
pub proof fn law_table_read_after_write<V>(table: Map<u32, V>, index: u32, value: V, other: u32)
    ensures
        table.insert(index, value).contains_key(index),
        table.insert(index, value)[index] == value,
        other != index ==> table.insert(index, value).contains_key(other) == table.contains_key(other),
        other != index && table.contains_key(other) ==> table.insert(index, value)[other] == table[other],
        !table.remove(index).contains_key(index),
        table.insert(index, value).remove(index) == table.remove(index),
{
    assert(table.insert(index, value).remove(index) =~= table.remove(index));
}

/// An element of a listing of a map's values is the value of some key.
pub proof fn lemma_listed_value_in_map<V>(m: Map<u32, V>, listed: Seq<V>, j: int)
    requires
        listed.to_set() == m.values(),
        0 <= j < listed.len(),
    ensures
        exists|k: u32| #[trigger] m.contains_key(k) && m[k] == listed[j],
{
    assert(listed.contains(listed[j]));
    assert(listed.to_set().contains(listed[j]));
    assert(m.values().contains(listed[j]));
}

/// The value of every key appears in a listing of a map's values.
pub proof fn lemma_map_value_listed<V>(m: Map<u32, V>, listed: Seq<V>, k: u32)
    requires
        listed.to_set() == m.values(),
        m.contains_key(k),
    ensures
        exists|j: int| 0 <= j < listed.len() && #[trigger] listed[j] == m[k],
{
    assert(m.values().contains(m[k]));
    assert(listed.to_set().contains(m[k]));
    assert(listed.contains(m[k]));
}

/// Whether a sink (`is_sink`), or a source, of `t` belongs to the card `card_id`.
pub open spec fn device_on_card(t: DeviceTables, card_id: u32, is_sink: bool) -> bool {
    if is_sink {
        exists|k: u32| #[trigger] t.sinks.contains_key(k) && t.sinks[k].card == card_id
    } else {
        exists|k: u32| #[trigger] t.sources.contains_key(k) && t.sources[k].card == card_id
    }
}

/// What the lookups read of a device record: its name, index and card.
pub trait DeviceRecord {
    spec fn record_name(&self) -> Seq<char>;

    spec fn record_index(&self) -> u32;

    spec fn record_card(&self) -> u32;

    fn name_str(&self) -> (r: &str)
        ensures
            r@ == self.record_name(),
    ;

    fn index_value(&self) -> (r: u32)
        ensures
            r == self.record_index(),
    ;

    fn card_value(&self) -> (r: u32)
        ensures
            r == self.record_card(),
    ;
}

impl DeviceRecord for SinkState {
    open spec fn record_name(&self) -> Seq<char> {
        self.name@
    }

    open spec fn record_index(&self) -> u32 {
        self.index
    }

    open spec fn record_card(&self) -> u32 {
        self.card
    }

    fn name_str(&self) -> (r: &str) {
        self.name.as_str()
    }

    fn index_value(&self) -> (r: u32) {
        self.index
    }

    fn card_value(&self) -> (r: u32) {
        self.card
    }
}

impl DeviceRecord for SourceState {
    open spec fn record_name(&self) -> Seq<char> {
        self.name@
    }

    open spec fn record_index(&self) -> u32 {
        self.index
    }

    open spec fn record_card(&self) -> u32 {
        self.card
    }

    fn name_str(&self) -> (r: &str) {
        self.name.as_str()
    }

    fn index_value(&self) -> (r: u32) {
        self.index
    }

    fn card_value(&self) -> (r: u32) {
        self.card
    }
}

/// The index recorded in some device of `table` named `name`, if any.
fn find_index_by_name<V: DeviceRecord>(table: &HashMap<u32, V>, name: &str) -> (r: Option<u32>)
    ensures
        r is None <==> (forall|k: u32| #[trigger] table@.contains_key(k) ==> table@[k].record_name() != name@),
        r matches Some(i) ==> exists|k: u32| #[trigger] table@.contains_key(k) && table@[k].record_name() == name@
            && table@[k].record_index() == i,
{
    let ghost values = table@;
    let ghost listed = vstd::std_specs::hash::spec_values_iter(table).remaining().unref();
    for s in it: table.values()
        invariant
            it.seq().unref() == listed,
            listed.to_set() == values.values(),
            values == table@,
            forall|j: int| 0 <= j < it.index() ==> (#[trigger] listed[j]).record_name() != name@,
        ensures
            forall|j: int| 0 <= j < listed.len() ==> (#[trigger] listed[j]).record_name() != name@,
    {
        if str_eq(s.name_str(), name) {
            proof {
                let j = it.index();
                assert(*s == listed[j]);
                lemma_listed_value_in_map(values, listed, j);
                let k = choose|k: u32| #[trigger] values.contains_key(k) && values[k] == listed[j];
                assert(values.contains_key(k) && values[k].record_name() == name@);
            }
            return Some(s.index_value());
        }
    }
    proof {
        assert forall|k: u32| #[trigger] values.contains_key(k) implies values[k].record_name() != name@ by {
            lemma_map_value_listed(values, listed, k);
        }
    }
    None
}

/// Whether some device of `table` belongs to the card `card_id`.
fn any_on_card<V: DeviceRecord>(table: &HashMap<u32, V>, card_id: u32) -> (r: bool)
    ensures
        r == exists|k: u32| #[trigger] table@.contains_key(k) && table@[k].record_card() == card_id,
{
    let ghost values = table@;
    let ghost listed = vstd::std_specs::hash::spec_values_iter(table).remaining().unref();
    for s in it: table.values()
        invariant
            it.seq().unref() == listed,
            listed.to_set() == values.values(),
            values == table@,
            forall|j: int| 0 <= j < it.index() ==> (#[trigger] listed[j]).record_card() != card_id,
        ensures
            forall|j: int| 0 <= j < listed.len() ==> (#[trigger] listed[j]).record_card() != card_id,
    {
        if s.card_value() == card_id {
            proof {
                let j = it.index();
                assert(*s == listed[j]);
                lemma_listed_value_in_map(values, listed, j);
            }
            return true;
        }
    }
    proof {
        assert forall|k: u32| #[trigger] values.contains_key(k) implies values[k].record_card() != card_id by {
            lemma_map_value_listed(values, listed, k);
        }
    }
    false
}

impl Default for DeviceManager {
    /// Empty tables with no default devices.
    fn default() -> (dm: Self)
        ensures
            dm@ == empty_tables(),
    {
        Self::new()
    }
}

impl DeviceManager {
    /// Empty tables with no default devices.
    pub fn new() -> (dm: Self)
        ensures
            dm@ == empty_tables(),
    {
        DeviceManager {
            sinks: HashMap::new(),
            sources: HashMap::new(),
            sink_inputs: HashMap::new(),
            cards: HashMap::new(),
            default_sink: None,
            default_source: None,
            pending_profiles: HashMap::new(),
            modules: ModuleTable::new(),
            sink_meters: HashMap::new(),
            source_meters: HashMap::new(),
        }
    }

    // ===== Sinks =====

    /// Records a new sink under `index`.
    pub fn add_sink(&mut self, index: u32, state: SinkState)
        ensures
            final(self)@ == (DeviceTables { sinks: old(self)@.sinks.insert(index, state), ..old(self)@ }),
    {
        self.sinks.insert(index, state);
    }

    /// Replaces the state of the sink `index` (records it if absent).
    pub fn update_sink(&mut self, index: u32, state: SinkState)
        ensures
            final(self)@ == (DeviceTables { sinks: old(self)@.sinks.insert(index, state), ..old(self)@ }),
    {
        self.sinks.insert(index, state);
    }

    /// Removes the sink `index`, returning its state if it was recorded.
    pub fn remove_sink(&mut self, index: u32) -> (r: Option<SinkState>)
        ensures
            final(self)@ == (DeviceTables { sinks: old(self)@.sinks.remove(index), ..old(self)@ }),
            r == (if old(self)@.sinks.contains_key(index) { Some(old(self)@.sinks[index]) } else { None::<SinkState> }),
    {
        self.sinks.remove(&index)
    }

    /// The state of the sink `index`.
    pub fn get_sink(&self, index: u32) -> (r: Option<&SinkState>)
        ensures
            r is Some <==> self@.sinks.contains_key(index),
            r matches Some(v) ==> *v == self@.sinks[index],
    {
        self.sinks.get(&index)
    }

    // ===== Sources =====

    /// Records a new source under `index`.
    pub fn add_source(&mut self, index: u32, state: SourceState)
        ensures
            final(self)@ == (DeviceTables { sources: old(self)@.sources.insert(index, state), ..old(self)@ }),
    {
        self.sources.insert(index, state);
    }

    /// Replaces the state of the source `index` (records it if absent).
    pub fn update_source(&mut self, index: u32, state: SourceState)
        ensures
            final(self)@ == (DeviceTables { sources: old(self)@.sources.insert(index, state), ..old(self)@ }),
    {
        self.sources.insert(index, state);
    }

    /// Removes the source `index`, returning its state if it was recorded.
    pub fn remove_source(&mut self, index: u32) -> (r: Option<SourceState>)
        ensures
            final(self)@ == (DeviceTables { sources: old(self)@.sources.remove(index), ..old(self)@ }),
            r == (if old(self)@.sources.contains_key(index) { Some(old(self)@.sources[index]) } else { None::<SourceState> }),
    {
        self.sources.remove(&index)
    }

    /// The state of the source `index`.
    pub fn get_source(&self, index: u32) -> (r: Option<&SourceState>)
        ensures
            r is Some <==> self@.sources.contains_key(index),
            r matches Some(v) ==> *v == self@.sources[index],
    {
        self.sources.get(&index)
    }

    // ===== Sink inputs =====

    /// Records a new playback stream under `index`.
    pub fn add_sink_input(&mut self, index: u32, state: SinkInputState)
        ensures
            final(self)@ == (DeviceTables { sink_inputs: old(self)@.sink_inputs.insert(index, state), ..old(self)@ }),
    {
        self.sink_inputs.insert(index, state);
    }

    /// Replaces the state of the playback stream `index` (records it if absent).
    pub fn update_sink_input(&mut self, index: u32, state: SinkInputState)
        ensures
            final(self)@ == (DeviceTables { sink_inputs: old(self)@.sink_inputs.insert(index, state), ..old(self)@ }),
    {
        self.sink_inputs.insert(index, state);
    }

    /// Removes the playback stream `index`, returning its state if it was recorded.
    pub fn remove_sink_input(&mut self, index: u32) -> (r: Option<SinkInputState>)
        ensures
            final(self)@ == (DeviceTables { sink_inputs: old(self)@.sink_inputs.remove(index), ..old(self)@ }),
            r == (if old(self)@.sink_inputs.contains_key(index) { Some(old(self)@.sink_inputs[index]) } else { None::<SinkInputState> }),
    {
        self.sink_inputs.remove(&index)
    }

    /// The state of the playback stream `index`.
    pub fn get_sink_input(&self, index: u32) -> (r: Option<&SinkInputState>)
        ensures
            r is Some <==> self@.sink_inputs.contains_key(index),
            r matches Some(v) ==> *v == self@.sink_inputs[index],
    {
        self.sink_inputs.get(&index)
    }

    // ===== Cards =====

    /// Records a new card under `index`.
    pub fn add_card(&mut self, index: u32, state: Card)
        ensures
            final(self)@ == (DeviceTables { cards: old(self)@.cards.insert(index, state), ..old(self)@ }),
    {
        self.cards.insert(index, state);
    }

    /// Replaces the state of the card `index` (records it if absent).
    pub fn update_card(&mut self, index: u32, state: Card)
        ensures
            final(self)@ == (DeviceTables { cards: old(self)@.cards.insert(index, state), ..old(self)@ }),
    {
        self.cards.insert(index, state);
    }

    /// Removes the card `index`, returning it if it was recorded.
    pub fn remove_card(&mut self, index: u32) -> (r: Option<Card>)
        ensures
            final(self)@ == (DeviceTables { cards: old(self)@.cards.remove(index), ..old(self)@ }),
            r == (if old(self)@.cards.contains_key(index) { Some(old(self)@.cards[index]) } else { None::<Card> }),
    {
        self.cards.remove(&index)
    }

    /// The card `index`.
    pub fn get_card(&self, index: u32) -> (r: Option<&Card>)
        ensures
            r is Some <==> self@.cards.contains_key(index),
            r matches Some(v) ==> *v == self@.cards[index],
    {
        self.cards.get(&index)
    }

    // ===== Default devices =====

    /// Records the name of the default output device.
    pub fn set_default_sink(&mut self, name: String)
        ensures
            final(self)@ == (DeviceTables { default_sink: Some(name), ..old(self)@ }),
    {
        self.default_sink = Some(name);
    }

    /// Records the name of the default input device.
    pub fn set_default_source(&mut self, name: String)
        ensures
            final(self)@ == (DeviceTables { default_source: Some(name), ..old(self)@ }),
    {
        self.default_source = Some(name);
    }

    // ===== Level meters =====

    /// Whether the sink (`is_sink`) or source `device_index` has a meter.
    pub fn has_meter(&self, device_index: u32, is_sink: bool) -> (r: bool)
        ensures
            r == (if is_sink {
                self@.sink_meters.contains_key(device_index)
            } else {
                self@.source_meters.contains_key(device_index)
            }),
    {
        if is_sink {
            self.sink_meters.contains_key(&device_index)
        } else {
            self.source_meters.contains_key(&device_index)
        }
    }

    /// Records the meter of the sink (`is_sink`) or source `device_index`.
    pub fn add_meter(&mut self, device_index: u32, is_sink: bool)
        ensures
            is_sink ==> final(self)@ == (DeviceTables {
                sink_meters: old(self)@.sink_meters.insert(device_index, Meter { device_index, is_sink }),
                ..old(self)@
            }),
            !is_sink ==> final(self)@ == (DeviceTables {
                source_meters: old(self)@.source_meters.insert(device_index, Meter { device_index, is_sink }),
                ..old(self)@
            }),
    {
        let meter = Meter::new(device_index, is_sink);
        if is_sink {
            self.sink_meters.insert(device_index, meter);
        } else {
            self.source_meters.insert(device_index, meter);
        }
    }

    /// Drops the meter of the sink (`is_sink`) or source `device_index`;
    /// whether there was one.
    pub fn remove_meter(&mut self, device_index: u32, is_sink: bool) -> (r: bool)
        ensures
            is_sink ==> r == old(self)@.sink_meters.contains_key(device_index) && final(self)@ == (DeviceTables {
                sink_meters: old(self)@.sink_meters.remove(device_index),
                ..old(self)@
            }),
            !is_sink ==> r == old(self)@.source_meters.contains_key(device_index) && final(self)@ == (DeviceTables {
                source_meters: old(self)@.source_meters.remove(device_index),
                ..old(self)@
            }),
    {
        if is_sink {
            self.sink_meters.remove(&device_index).is_some()
        } else {
            self.source_meters.remove(&device_index).is_some()
        }
    }

    // ===== Server modules =====

    /// The loading state of module `name` (not loaded when never recorded).
    pub fn module_state(&self, name: &str) -> (r: ModuleState)
        ensures
            r == module_state_of(self@.modules, name@),
    {
        self.modules.get(name)
    }

    /// Records the loading state of module `name`.
    pub fn set_module_state(&mut self, name: &str, state: ModuleState)
        ensures
            final(self)@ == (DeviceTables { modules: old(self)@.modules.insert(name@, state), ..old(self)@ }),
    {
        self.modules.set(name, state);
    }

    /// Forgets the loading state of module `name`.
    pub fn remove_module(&mut self, name: &str)
        ensures
            final(self)@ == (DeviceTables { modules: old(self)@.modules.remove(name@), ..old(self)@ }),
    {
        self.modules.remove(name);
    }

    // ===== Pending profile switches =====

    /// Records the wait item of a profile switch on `card_id`.
    pub fn set_pending_profile(&mut self, card_id: u32, wait: PendingProfile)
        ensures
            final(self)@ == (DeviceTables {
                pending_profiles: old(self)@.pending_profiles.insert(card_id, wait),
                ..old(self)@
            }),
    {
        self.pending_profiles.insert(card_id, wait);
    }

    /// The wait item of the profile switch on `card_id`.
    pub fn get_pending_profile(&self, card_id: u32) -> (r: Option<&PendingProfile>)
        ensures
            r is Some <==> self@.pending_profiles.contains_key(card_id),
            r matches Some(v) ==> *v == self@.pending_profiles[card_id],
    {
        self.pending_profiles.get(&card_id)
    }

    /// Removes and returns the wait item of the profile switch on `card_id`.
    pub fn take_pending_profile(&mut self, card_id: u32) -> (r: Option<PendingProfile>)
        ensures
            final(self)@ == (DeviceTables {
                pending_profiles: old(self)@.pending_profiles.remove(card_id),
                ..old(self)@
            }),
            r == (if old(self)@.pending_profiles.contains_key(card_id) {
                Some(old(self)@.pending_profiles[card_id])
            } else {
                None::<PendingProfile>
            }),
    {
        self.pending_profiles.remove(&card_id)
    }

    /// Finds the index of a sink by name.
    pub fn find_sink_index_by_name(&self, name: &str) -> (r: Option<u32>)
        ensures
            r is None <==> (forall|k: u32| #[trigger] self.sinks@.contains_key(k) ==> self.sinks@[k].name@ != name@),
            r matches Some(i) ==> exists|k: u32| #[trigger] self.sinks@.contains_key(k) && self.sinks@[k].name@ == name@
                && self.sinks@[k].index == i,
    {
        find_index_by_name(&self.sinks, name)
    }

    /// Finds the index of a source by name.
    pub fn find_source_index_by_name(&self, name: &str) -> (r: Option<u32>)
        ensures
            r is None <==> (forall|k: u32| #[trigger] self.sources@.contains_key(k) ==> self.sources@[k].name@ != name@),
            r matches Some(i) ==> exists|k: u32| #[trigger] self.sources@.contains_key(k) && self.sources@[k].name@ == name@
                && self.sources@[k].index == i,
    {
        find_index_by_name(&self.sources, name)
    }

    /// Whether a card named `card_name` has a sink on it (`is_sink`), or a
    /// source: only then can an automatic switch select a port of that card.
    pub fn card_named_has_device(&self, card_name: &str, is_sink: bool) -> (r: bool)
        ensures
            r == exists|cid: u32| #[trigger] self@.cards.contains_key(cid) && self@.cards[cid].name@ == card_name@
                && device_on_card(self@, cid, is_sink),
    {
        let ghost listed = vstd::std_specs::hash::spec_hash_map_iter(&self.cards).remaining();
        for (k, c) in it: self.cards.iter()
            invariant
                it.seq() == listed,
                forall|j: int| 0 <= j < it.index() ==> !((#[trigger] listed[j]).1.name@ == card_name@
                    && device_on_card(self@, *listed[j].0, is_sink)),
            ensures
                forall|j: int| 0 <= j < listed.len() ==> !((#[trigger] listed[j]).1.name@ == card_name@
                    && device_on_card(self@, *listed[j].0, is_sink)),
        {
            if str_eq(c.name.as_str(), card_name) {
                let has = if is_sink {
                    self.has_sink_on_card(*k)
                } else {
                    self.has_source_on_card(*k)
                };
                proof {
                    assert(self@.sinks == self.sinks@ && self@.sources == self.sources@);
                    if has {
                        assert(device_on_card(self@, *k, is_sink));
                    }
                }
                if has {
                    proof {
                        let j = it.index();
                        assert(listed[j] == (k, c));
                        assert(self@.cards.contains_key(*listed[j].0));
                        assert(self@.cards[*k] == *c);
                    }
                    return true;
                }
            }
        }
        proof {
            assert forall|cid: u32| #[trigger] self@.cards.contains_key(cid) implies !(self@.cards[cid].name@ == card_name@
                && device_on_card(self@, cid, is_sink)) by {
                assert(listed.contains((&cid, &self@.cards[cid])));
                let j = choose|j: int| 0 <= j < listed.len() && listed[j] == (&cid, &self@.cards[cid]);
                assert(listed[j].1.name@ == self@.cards[cid].name@);
            }
        }
        false
    }

    /// The card listing: one entry per recorded card, in the order in which
    /// the card table lists its cards (see [`card_listing`]); with
    /// `filter_unavailable`, disabled ports are left out.
    pub fn cards_export(&self, filter_unavailable: bool) -> (r: Vec<CardExport>)
        ensures
            is_listing_of(r@, *self, filter_unavailable),
            card_listing(*self).to_set() == self@.cards.values(),
            card_listing(*self).len() == self@.cards.len(),
            forall|i: int| 0 <= i < r@.len() ==> ascii_port_types(#[trigger] r@[i], r@[i].name@),
    {
        let ghost listed = card_listing(*self);
        let mut out: Vec<CardExport> = Vec::new();
        for c in it: self.cards.values()
            invariant
                it.seq().unref() == listed,
                listed == card_listing(*self),
                listed.to_set() == self@.cards.values(),
                listed.len() == self@.cards.len(),
                out@.len() == it.index(),
                forall|i: int| 0 <= i < it.index() ==> is_export_of(#[trigger] out@[i], listed[i], filter_unavailable),
                forall|i: int| 0 <= i < it.index() ==> ascii_port_types(#[trigger] out@[i], out@[i].name@),
            ensures
                out@.len() == listed.len(),
                forall|i: int| 0 <= i < listed.len() ==> is_export_of(#[trigger] out@[i], listed[i], filter_unavailable),
                forall|i: int| 0 <= i < listed.len() ==> ascii_port_types(#[trigger] out@[i], out@[i].name@),
        {
            proof {
                assert(*c == listed[it.index()]);
            }
            out.push(card_to_export(c, filter_unavailable));
        }
        out
    }

    /// Whether some sink belongs to the card `card_id`.
    pub fn has_sink_on_card(&self, card_id: u32) -> (r: bool)
        ensures
            r == exists|k: u32| #[trigger] self.sinks@.contains_key(k) && self.sinks@[k].card == card_id,
    {
        any_on_card(&self.sinks, card_id)
    }

    /// Whether some source belongs to the card `card_id`.
    pub fn has_source_on_card(&self, card_id: u32) -> (r: bool)
        ensures
            r == exists|k: u32| #[trigger] self.sources@.contains_key(k) && self.sources@[k].card == card_id,
    {
        any_on_card(&self.sources, card_id)
    }
}

} // verus!

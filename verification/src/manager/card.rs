//! Sound cards: ports, profiles, lifecycle status and the one-shot result of a
//! status change (such as a profile switch), plus the card-level decisions that
//! the event loop takes on the device tables.

use vstd::prelude::*;

use super::device_manager::{DeviceManager, DeviceTables};

verus! {

broadcast use vstd::std_specs::hash::group_hash_axioms;

/// A port of a sound card.
#[derive(Clone, Debug)]
pub struct PortInfo {
    pub name: String,
    pub enabled: bool,
    pub bluetooth: bool,
    pub description: String,
    pub direction: u32,
    /// Names of the profiles this port belongs to.
    pub profiles: Vec<String>,
}

impl PortInfo {
    /// The profile to select for this port: the first one listed.
    pub fn select_profile(&self) -> (r: Option<&str>)
        ensures
            r is None <==> self.profiles@.len() == 0,
            r matches Some(s) ==> s@ == self.profiles@[0]@,
    {
        if self.profiles.len() > 0 {
            Some(self.profiles[0].as_str())
        } else {
            None
        }
    }
}

/// A profile a card supports.
#[derive(Clone, Debug)]
pub struct Profile {
    pub name: String,
    pub description: String,
    /// Higher means better suited as the default profile.
    pub priority: u32,
    /// Whether the profile can be used.
    pub available: bool,
}

/// Lifecycle status of a card.
#[derive(Clone, Copy, Debug, PartialEq, Eq, Structural)]
pub enum CardStatus {
    /// Usable.
    Ready,
    /// A profile switch is in progress.
    Pending,
    /// Being removed.
    Removing,
}

/// Outcome of a status change.
#[derive(Clone, Debug, PartialEq, Eq)]
pub enum ChangeResult {
    /// Done: the card's devices are all back.
    Complete,
    /// The card went away; the change is abandoned.
    Removed,
    /// The change failed.
    Failed(String),
}

/// Mask bit of the output direction.
pub const DIRECTION_SINK: u32 = 1;
/// Mask bit of the input direction.
pub const DIRECTION_SOURCE: u32 = 2;

/// One status change of a card (such as a profile switch) and its outcome.
///
/// The outcome is set once: the first signal wins and later signals are
/// ignored. `required_directions` holds the directions whose devices must
/// reappear before the change counts as complete (bit 0 output, bit 1 input).
#[derive(Clone, Debug)]
pub struct StatusChange {
    result: Option<ChangeResult>,
    required_directions: u32,
}

/// The outcome after signalling `r` on a change whose outcome was `current`.
pub open spec fn signal_spec(current: Option<ChangeResult>, r: ChangeResult) -> Option<ChangeResult> {
    if current is None {
        Some(r)
    } else {
        current
    }
}

/// Error text of a wait that timed out.
pub open spec fn timeout_message() -> Seq<char> {
    "profile switch timed out"@
}

/// Copies a change outcome.
pub fn copy_change_result(r: &ChangeResult) -> (c: ChangeResult)
    ensures
        c == *r,
{
    match r {
        ChangeResult::Complete => ChangeResult::Complete,
        ChangeResult::Removed => ChangeResult::Removed,
        ChangeResult::Failed(e) => ChangeResult::Failed(e.clone()),
    }
}

impl StatusChange {
    /// The outcome, once signalled.
    pub closed spec fn spec_result(&self) -> Option<ChangeResult> {
        self.result
    }

    /// The directions that must be rebuilt.
    pub closed spec fn spec_required_directions(&self) -> u32 {
        self.required_directions
    }

    /// Creates a change that waits for the given directions.
    pub fn new(required_directions: u32) -> (c: Self)
        ensures
            c.spec_result() is None,
            c.spec_required_directions() == required_directions,
    {
        StatusChange { result: None, required_directions }
    }

    /// The directions that must be rebuilt.
    pub fn required_directions(&self) -> (d: u32)
        ensures
            d == self.spec_required_directions(),
    {
        self.required_directions
    }

    /// One step of waiting for the outcome.
    ///
    /// `timed_out` tells whether the last wait for a signal ran out of time
    /// (false before the first wait). Returns the final answer of the wait, or
    /// `None` while the caller must keep waiting.
    pub fn wait(&self, timed_out: bool) -> (r: Option<Result<ChangeResult, String>>)
        ensures
            timed_out ==> (r matches Some(Err(e)) && e@ == timeout_message()),
            !timed_out ==> match self.spec_result() {
                Some(x) => r == Some(Ok::<ChangeResult, String>(x)),
                None => r is None,
            },
    {
        if timed_out {
            return Some(Err("profile switch timed out".to_owned()));
        }
        match &self.result {
            Some(x) => Some(Ok(copy_change_result(x))),
            None => None,
        }
    }

    /// Signals completion.
    pub fn signal_complete(&mut self)
        ensures
            final(self).spec_result() == signal_spec(old(self).spec_result(), ChangeResult::Complete),
            final(self).spec_required_directions() == old(self).spec_required_directions(),
    {
        self.signal(ChangeResult::Complete);
    }

    /// Signals that the card was removed.
    pub fn signal_removed(&mut self)
        ensures
            final(self).spec_result() == signal_spec(old(self).spec_result(), ChangeResult::Removed),
            final(self).spec_required_directions() == old(self).spec_required_directions(),
    {
        self.signal(ChangeResult::Removed);
    }

    /// Signals failure.
    pub fn signal_failed(&mut self, error: String)
        ensures
            final(self).spec_result() == signal_spec(old(self).spec_result(), ChangeResult::Failed(error)),
            final(self).spec_required_directions() == old(self).spec_required_directions(),
    {
        self.signal(ChangeResult::Failed(error));
    }

    fn signal(&mut self, result: ChangeResult)
        ensures
            final(self).spec_result() == signal_spec(old(self).spec_result(), result),
            final(self).spec_required_directions() == old(self).spec_required_directions(),
    {
        if self.result.is_none() {
            self.result = Some(result);
        }
    }
}

/// The first outcome signalled is the one every waiter sees: later signals
/// never replace it.
pub proof fn law_first_signal_wins(first: ChangeResult, later: ChangeResult)
    ensures
        signal_spec(None, first) == Some(first),
        signal_spec(signal_spec(None, first), later) == Some(first),
{
}

/// A settled outcome stays settled under any signal.
pub proof fn law_signal_settled(current: ChangeResult, r: ChangeResult)
    ensures
        signal_spec(Some(current), r) == Some(current),
{
}

/// A sound card and its runtime status.
#[derive(Clone, Debug)]
pub struct Card {
    pub index: u32,
    pub name: String,
    pub active_profile: String,
    pub ports: Vec<PortInfo>,
    /// Every profile the card supports.
    pub profiles: Vec<Profile>,
    /// Lifecycle status.
    pub status: CardStatus,
    /// The status change in progress, if any.
    pub change: Option<StatusChange>,
}


/// The card of the device `device_index` (a sink when `is_sink`, else a source).
pub open spec fn device_card(t: DeviceTables, device_index: u32, is_sink: bool) -> Option<u32> {
    if is_sink {
        if t.sinks.contains_key(device_index) { Some(t.sinks[device_index].card) } else { None }
    } else {
        if t.sources.contains_key(device_index) { Some(t.sources[device_index].card) } else { None }
    }
}

/// Whether some sink of the tables belongs to card `card_id`.
pub open spec fn card_has_sink(t: DeviceTables, card_id: u32) -> bool {
    exists|k: u32| #[trigger] t.sinks.contains_key(k) && t.sinks[k].card == card_id
}

/// Whether some source of the tables belongs to card `card_id`.
pub open spec fn card_has_source(t: DeviceTables, card_id: u32) -> bool {
    exists|k: u32| #[trigger] t.sources.contains_key(k) && t.sources[k].card == card_id
}

/// Whether card `card_id` has a pending change whose required devices are all back.
pub open spec fn pending_change_complete(t: DeviceTables, card_id: u32) -> bool {
    &&& t.cards.contains_key(card_id)
    &&& t.cards[card_id].status == CardStatus::Pending
    &&& t.cards[card_id].change is Some
    &&& {
        let required = t.cards[card_id].change->0.spec_required_directions();
        &&& (required & DIRECTION_SINK == 0 || card_has_sink(t, card_id))
        &&& (required & DIRECTION_SOURCE == 0 || card_has_source(t, card_id))
    }
}

/// Whether the creation of device `device_index` completes its card's pending change.
pub open spec fn completes_change(t: DeviceTables, device_index: u32, is_sink: bool) -> bool {
    device_card(t, device_index, is_sink) matches Some(card_id) && pending_change_complete(t, card_id)
}

/// The card `c` once its pending change is over.
pub open spec fn settled_card(c: Card) -> Card {
    Card { status: CardStatus::Ready, change: None, ..c }
}

/// A device creation completes its card's pending change only when the
/// device belongs to a card that is pending, and every direction the change
/// waits for has a device on that card again: some sink of the card when it
/// waits for output, some source of the card when it waits for input.
pub proof fn law_completion_needs_every_direction(t: DeviceTables, device_index: u32, is_sink: bool)
    requires
        completes_change(t, device_index, is_sink),
    ensures
        ({
            let card_id = device_card(t, device_index, is_sink)->0;
            let required = t.cards[card_id].change->0.spec_required_directions();
            &&& is_sink ==> t.sinks.contains_key(device_index) && t.sinks[device_index].card == card_id
            &&& !is_sink ==> t.sources.contains_key(device_index) && t.sources[device_index].card == card_id
            &&& t.cards.contains_key(card_id)
            &&& t.cards[card_id].status == CardStatus::Pending
            &&& required & DIRECTION_SINK != 0 ==> exists|k: u32| #[trigger] t.sinks.contains_key(k) && t.sinks[k].card == card_id
            &&& required & DIRECTION_SOURCE != 0 ==> exists|k: u32| #[trigger] t.sources.contains_key(k) && t.sources[k].card == card_id
        }),
{
}

/// Conversely, once a device of a pending card is created and every
/// direction its change waits for has a device on the card, the change is
/// complete.
pub proof fn law_completion_when_all_back(t: DeviceTables, device_index: u32, is_sink: bool, card_id: u32)
    requires
        is_sink ==> t.sinks.contains_key(device_index) && t.sinks[device_index].card == card_id,
        !is_sink ==> t.sources.contains_key(device_index) && t.sources[device_index].card == card_id,
        t.cards.contains_key(card_id),
        t.cards[card_id].status == CardStatus::Pending,
        t.cards[card_id].change is Some,
        t.cards[card_id].change->0.spec_required_directions() & DIRECTION_SINK != 0 ==>
            exists|k: u32| #[trigger] t.sinks.contains_key(k) && t.sinks[k].card == card_id,
        t.cards[card_id].change->0.spec_required_directions() & DIRECTION_SOURCE != 0 ==>
            exists|k: u32| #[trigger] t.sources.contains_key(k) && t.sources[k].card == card_id,
    ensures
        completes_change(t, device_index, is_sink),
{
}

/// A card whose change is over is ready, has no change in progress, and is
/// otherwise the same card.
pub proof fn law_settled_card(c: Card)
    ensures
        settled_card(c).status == CardStatus::Ready,
        settled_card(c).change is None,
        settled_card(c).index == c.index,
        settled_card(c).name == c.name,
        settled_card(c).active_profile == c.active_profile,
        settled_card(c).ports == c.ports,
        settled_card(c).profiles == c.profiles,
{
}

/// A change completes at most once: once a device creation has completed its
/// card's change, no later device creation of that card completes anything.
pub proof fn law_completion_once(t: DeviceTables, device_index: u32, is_sink: bool, later_index: u32, later_is_sink: bool)
    requires
        completes_change(t, device_index, is_sink),
    ensures
        ({
            let card_id = device_card(t, device_index, is_sink)->0;
            let after = DeviceTables { cards: t.cards.insert(card_id, settled_card(t.cards[card_id])), ..t };
            device_card(after, later_index, later_is_sink) == Some(card_id) ==> !completes_change(after, later_index, later_is_sink)
        }),
{
}

/// Removing a card with a change in progress always ends that change: if it
/// had no outcome yet, its outcome is that the card was removed.
pub proof fn law_removal_ends_change(before: Option<ChangeResult>)
    ensures
        signal_spec(before, ChangeResult::Removed) is Some,
        before is None ==> signal_spec(before, ChangeResult::Removed) == Some(ChangeResult::Removed),
{
}

/// A card was found (its state already queried): record it.
pub fn new(device_manager: &mut DeviceManager, index: u32, queried: Result<Card, String>) -> (r: Result<(), String>)
    ensures
        match queried {
            Ok(state) => r is Ok && final(device_manager)@ == (DeviceTables {
                cards: old(device_manager)@.cards.insert(index, state),
                ..old(device_manager)@
            }),
            Err(e) => r == Err::<(), String>(e) && final(device_manager)@ == old(device_manager)@,
        },
{
    let state = queried?;
    device_manager.add_card(index, state);
    Ok(())
}

/// A card changed (its state already queried): record the new state.
pub fn update(device_manager: &mut DeviceManager, index: u32, queried: Result<Card, String>) -> (r: Result<(), String>)
    ensures
        match queried {
            Ok(state) => r is Ok && final(device_manager)@ == (DeviceTables {
                cards: old(device_manager)@.cards.insert(index, state),
                ..old(device_manager)@
            }),
            Err(e) => r == Err::<(), String>(e) && final(device_manager)@ == old(device_manager)@,
        },
{
    let state = queried?;
    device_manager.update_card(index, state);
    Ok(())
}

/// A card went away: drop it from the tables.
///
/// If a status change was in progress on it, that change is told the card was
/// removed and handed back so that its waiters can be woken.
pub fn delete(device_manager: &mut DeviceManager, index: u32) -> (r: Option<StatusChange>)
    ensures
        final(device_manager)@ == (DeviceTables {
            cards: old(device_manager)@.cards.remove(index),
            ..old(device_manager)@
        }),
        (old(device_manager)@.cards.contains_key(index) && old(device_manager)@.cards[index].change is Some) ==> {
            let before = old(device_manager)@.cards[index].change->0;
            r matches Some(ch) && ch.spec_result() == signal_spec(before.spec_result(), ChangeResult::Removed)
                && ch.spec_required_directions() == before.spec_required_directions()
        },
        !(old(device_manager)@.cards.contains_key(index) && old(device_manager)@.cards[index].change is Some) ==> r is None,
{
    match device_manager.remove_card(index) {
        Some(card) => match card.change {
            Some(op) => {
                let mut op = op;
                op.signal_removed();
                Some(op)
            },
            None => None,
        },
        None => None,
    }
}

/// A sink (`is_sink`) or source was created: if its card waits for a status
/// change and every required direction has a device again, the change is
/// complete.
///
/// On completion the card is back to `Ready` without a pending change, and the
/// change, signalled complete, is handed back so that its waiters can be woken.
pub fn on_device_created(device_manager: &mut DeviceManager, device_index: u32, is_sink: bool) -> (r: Option<StatusChange>)
    ensures
        completes_change(old(device_manager)@, device_index, is_sink) ==> {
            let card_id = device_card(old(device_manager)@, device_index, is_sink)->0;
            let card = old(device_manager)@.cards[card_id];
            &&& final(device_manager)@ == (DeviceTables {
                cards: old(device_manager)@.cards.insert(card_id, settled_card(card)),
                ..old(device_manager)@
            })
            &&& r matches Some(ch)
            &&& ch.spec_result() == signal_spec(card.change->0.spec_result(), ChangeResult::Complete)
            &&& ch.spec_required_directions() == card.change->0.spec_required_directions()
        },
        !completes_change(old(device_manager)@, device_index, is_sink) ==> {
            &&& final(device_manager)@ == old(device_manager)@
            &&& r is None
        },
{
    let card_id = if is_sink {
        match device_manager.get_sink(device_index) {
            Some(s) => s.card,
            None => return None,
        }
    } else {
        match device_manager.get_source(device_index) {
            Some(s) => s.card,
            None => return None,
        }
    };
    let required = match device_manager.get_card(card_id) {
        Some(card) => {
            if card.status != CardStatus::Pending {
                return None;
            }
            match &card.change {
                Some(op) => op.required_directions(),
                None => return None,
            }
        },
        None => return None,
    };
    let sink_ok = required & DIRECTION_SINK == 0 || device_manager.has_sink_on_card(card_id);
    let source_ok = required & DIRECTION_SOURCE == 0 || device_manager.has_source_on_card(card_id);
    if !(sink_ok && source_ok) {
        return None;
    }
    let taken = device_manager.remove_card(card_id);
    match taken {
        Some(card) => {
            let mut card = card;
            let op = card.change;
            card.change = None;
            card.status = CardStatus::Ready;
            device_manager.add_card(card_id, card);
            proof {
                assert(old(device_manager)@.cards.remove(card_id).insert(card_id, settled_card(old(device_manager)@.cards[card_id]))
                    == old(device_manager)@.cards.insert(card_id, settled_card(old(device_manager)@.cards[card_id])));
            }
            match op {
                Some(op) => {
                    let mut op = op;
                    op.signal_complete();
                    Some(op)
                },
                None => None,
            }
        },
        None => None,
    }
}

} // verus!

//! What to do for each change notification of the sound server.
//!
//! The event loop hands each notification to [`plan_event`], which records
//! what can be recorded at once (the default device names) and says what the
//! loop must do next: which device handler to run (these query the server and
//! update the bus objects), whether a newly created device may complete its
//! card's pending change, whether to ask for an automatic port switch, and
//! which property changes to announce.

use vstd::prelude::*;

use super::device_manager::{DeviceManager, DeviceTables};
use super::sink::sink_path;
use super::sink_input::sink_input_path;
use super::source::source_path;
use crate::backend::pulse::event::{announced, withdrawn, DeviceKind};
use crate::backend::pulse::PulseEvent;

verus! {

/// Path of the main audio object.
pub const DBUS_PATH: &'static str = "/org/deepin/dde/Audio1";

/// The device handler to run for a notification.
#[derive(Clone, Copy, Debug, PartialEq, Eq, Structural)]
pub enum DeviceStep {
    SinkNew(u32),
    SinkUpdate(u32),
    SinkDelete(u32),
    SourceNew(u32),
    SourceUpdate(u32),
    SourceDelete(u32),
    SinkInputNew(u32),
    SinkInputUpdate(u32),
    SinkInputDelete(u32),
    CardNew(u32),
    CardUpdate(u32),
    CardDelete(u32),
    /// Ask the server for its default devices, then call [`apply_server_defaults`].
    QueryServerDefaults,
    /// Nothing to run.
    Nothing,
}

/// A property-change announcement for one device object.
#[derive(Clone, Debug)]
pub struct DeviceSignal {
    pub path: String,
    pub interface: &'static str,
    pub props: Vec<&'static str>,
}

/// What the event loop must do for one notification, in this order:
/// run `step`, check `check_pending` (device index, is a sink) for a completed
/// card change, ask for an automatic port switch if `trigger_auto_switch`,
/// announce `audio_props` on the main object, announce `device_signal`.
#[derive(Clone, Debug)]
pub struct EventPlan {
    pub step: DeviceStep,
    pub check_pending: Option<(u32, bool)>,
    pub trigger_auto_switch: bool,
    pub audio_props: Vec<&'static str>,
    pub device_signal: Option<DeviceSignal>,
}

/// Properties of an output or input device that a change may touch.
pub open spec fn device_props() -> Seq<&'static str> {
    seq!["Name", "Description", "Volume", "Mute", "BaseVolume", "Balance", "Fade", "Card", "Ports"]
}

/// Properties of a playback stream that a change may touch.
pub open spec fn stream_props() -> Seq<&'static str> {
    seq!["Name", "Volume", "Mute", "Balance", "Fade"]
}

/// Properties of the main object that a card notification touches.
pub open spec fn card_list_props() -> Seq<&'static str> {
    seq!["Cards", "CardsWithoutUnavailable"]
}

/// The device step of a notification.
pub open spec fn step_of(e: PulseEvent) -> DeviceStep {
    match e {
        PulseEvent::SinkAdded { index } => DeviceStep::SinkNew(index),
        PulseEvent::SinkChanged { index } => DeviceStep::SinkUpdate(index),
        PulseEvent::SinkRemoved { index } => DeviceStep::SinkDelete(index),
        PulseEvent::SourceAdded { index } => DeviceStep::SourceNew(index),
        PulseEvent::SourceChanged { index } => DeviceStep::SourceUpdate(index),
        PulseEvent::SourceRemoved { index } => DeviceStep::SourceDelete(index),
        PulseEvent::SinkInputAdded { index } => DeviceStep::SinkInputNew(index),
        PulseEvent::SinkInputChanged { index } => DeviceStep::SinkInputUpdate(index),
        PulseEvent::SinkInputRemoved { index } => DeviceStep::SinkInputDelete(index),
        PulseEvent::CardAdded { index } => DeviceStep::CardNew(index),
        PulseEvent::CardChanged { index } => DeviceStep::CardUpdate(index),
        PulseEvent::CardRemoved { index } => DeviceStep::CardDelete(index),
        PulseEvent::DefaultSinkChanged { .. } => DeviceStep::Nothing,
        PulseEvent::DefaultSourceChanged { .. } => DeviceStep::Nothing,
        PulseEvent::Server => DeviceStep::QueryServerDefaults,
    }
}

/// The device whose creation may complete its card's pending change.
pub open spec fn pending_check_of(e: PulseEvent) -> Option<(u32, bool)> {
    match e {
        PulseEvent::SinkAdded { index } => Some((index, true)),
        PulseEvent::SourceAdded { index } => Some((index, false)),
        _ => None,
    }
}

/// Whether a notification asks for an automatic port switch: a new sink or
/// source, and any card notification.
pub open spec fn triggers_auto_switch(e: PulseEvent) -> bool {
    match e {
        PulseEvent::SinkAdded { .. } => true,
        PulseEvent::SourceAdded { .. } => true,
        PulseEvent::CardAdded { .. } => true,
        PulseEvent::CardChanged { .. } => true,
        PulseEvent::CardRemoved { .. } => true,
        _ => false,
    }
}

/// The main-object properties a notification touches.
pub open spec fn audio_props_of(e: PulseEvent) -> Seq<&'static str> {
    match e {
        PulseEvent::SinkAdded { .. } => seq!["Sinks"],
        PulseEvent::SinkRemoved { .. } => seq!["Sinks"],
        PulseEvent::SourceAdded { .. } => seq!["Sources"],
        PulseEvent::SourceRemoved { .. } => seq!["Sources"],
        PulseEvent::SinkInputAdded { .. } => seq!["SinkInputs"],
        PulseEvent::SinkInputRemoved { .. } => seq!["SinkInputs"],
        PulseEvent::CardAdded { .. } => card_list_props(),
        PulseEvent::CardChanged { .. } => card_list_props(),
        PulseEvent::CardRemoved { .. } => card_list_props(),
        PulseEvent::DefaultSinkChanged { .. } => seq!["DefaultSink"],
        PulseEvent::DefaultSourceChanged { .. } => seq!["DefaultSource"],
        _ => Seq::empty(),
    }
}

/// Whether `s` announces the change of a device object as notification `e` requires.
pub open spec fn signal_matches(s: Option<DeviceSignal>, e: PulseEvent) -> bool {
    match e {
        PulseEvent::SinkChanged { index } => s matches Some(sig) && sig.path@ == sink_path(index)
            && sig.interface == "org.deepin.dde.Audio1.Sink" && sig.props@ == device_props(),
        PulseEvent::SourceChanged { index } => s matches Some(sig) && sig.path@ == source_path(index)
            && sig.interface == "org.deepin.dde.Audio1.Source" && sig.props@ == device_props(),
        PulseEvent::SinkInputChanged { index } => s matches Some(sig) && sig.path@ == sink_input_path(index)
            && sig.interface == "org.deepin.dde.Audio1.SinkInput" && sig.props@ == stream_props(),
        _ => s is None,
    }
}

/// The tables after the part of notification `e` that needs no server query.
pub open spec fn tables_after(t: DeviceTables, e: PulseEvent) -> DeviceTables {
    match e {
        PulseEvent::DefaultSinkChanged { name } => DeviceTables { default_sink: Some(name), ..t },
        PulseEvent::DefaultSourceChanged { name } => DeviceTables { default_source: Some(name), ..t },
        _ => t,
    }
}

/// The handler step that records a new device of `kind`.
pub open spec fn new_step(kind: DeviceKind, index: u32) -> DeviceStep {
    match kind {
        DeviceKind::Sink => DeviceStep::SinkNew(index),
        DeviceKind::Source => DeviceStep::SourceNew(index),
        DeviceKind::SinkInput => DeviceStep::SinkInputNew(index),
        DeviceKind::Card => DeviceStep::CardNew(index),
    }
}

/// The handler step that refreshes a device of `kind`.
pub open spec fn update_step(kind: DeviceKind, index: u32) -> DeviceStep {
    match kind {
        DeviceKind::Sink => DeviceStep::SinkUpdate(index),
        DeviceKind::Source => DeviceStep::SourceUpdate(index),
        DeviceKind::SinkInput => DeviceStep::SinkInputUpdate(index),
        DeviceKind::Card => DeviceStep::CardUpdate(index),
    }
}

/// The handler step that deletes a device of `kind`.
pub open spec fn delete_step(kind: DeviceKind, index: u32) -> DeviceStep {
    match kind {
        DeviceKind::Sink => DeviceStep::SinkDelete(index),
        DeviceKind::Source => DeviceStep::SourceDelete(index),
        DeviceKind::SinkInput => DeviceStep::SinkInputDelete(index),
        DeviceKind::Card => DeviceStep::CardDelete(index),
    }
}

/// The device of `kind` that notification `e` reports as changed, if any.
pub open spec fn changed(e: PulseEvent, kind: DeviceKind) -> Option<u32> {
    match (e, kind) {
        (PulseEvent::SinkChanged { index }, DeviceKind::Sink) => Some(index),
        (PulseEvent::SourceChanged { index }, DeviceKind::Source) => Some(index),
        (PulseEvent::SinkInputChanged { index }, DeviceKind::SinkInput) => Some(index),
        (PulseEvent::CardChanged { index }, DeviceKind::Card) => Some(index),
        _ => None,
    }
}

/// Whether notification `e` concerns a device of `kind` at all.
pub open spec fn concerns(e: PulseEvent, kind: DeviceKind) -> bool {
    announced(e, kind) is Some || withdrawn(e, kind) is Some || changed(e, kind) is Some
}

/// The handler a notification runs matches what the notification says of
/// the device: an announced device is recorded, a withdrawn one deleted
/// (with its bus object), a changed one refreshed, each under the index the
/// notification names; only the default-device notifications run no
/// handler, and a server notification asks for the default devices.
pub proof fn law_step_follows_notification(e: PulseEvent, kind: DeviceKind, index: u32)
    ensures
        (step_of(e) == new_step(kind, index)) == (announced(e, kind) == Some(index)),
        (step_of(e) == delete_step(kind, index)) == (withdrawn(e, kind) == Some(index)),
        (step_of(e) == update_step(kind, index)) == (changed(e, kind) == Some(index)),
        (step_of(e) == DeviceStep::Nothing) == (e is DefaultSinkChanged || e is DefaultSourceChanged),
        (step_of(e) == DeviceStep::QueryServerDefaults) == (e is Server),
{
    match e {
        PulseEvent::SinkAdded { .. } => {},
        PulseEvent::SinkChanged { .. } => {},
        PulseEvent::SinkRemoved { .. } => {},
        PulseEvent::SourceAdded { .. } => {},
        PulseEvent::SourceChanged { .. } => {},
        PulseEvent::SourceRemoved { .. } => {},
        PulseEvent::SinkInputAdded { .. } => {},
        PulseEvent::SinkInputChanged { .. } => {},
        PulseEvent::SinkInputRemoved { .. } => {},
        PulseEvent::CardAdded { .. } => {},
        PulseEvent::CardChanged { .. } => {},
        PulseEvent::CardRemoved { .. } => {},
        PulseEvent::DefaultSinkChanged { .. } => {},
        PulseEvent::DefaultSourceChanged { .. } => {},
        PulseEvent::Server => {},
    }
}

/// The rest of a plan follows the notification too: only a newly announced
/// sink or source may complete its card's pending change (checked under its
/// own index and direction); an automatic port switch is asked for exactly
/// when a sink or source appears or a card appears, changes or goes away;
/// the main object announces its device lists when a device of that list
/// appears or goes away, and its card listings on any card notification; a
/// device change is announced on that device's own object; and only the
/// default-device notifications change the tables by themselves.
pub proof fn law_plan_follows_notification(e: PulseEvent, t: DeviceTables)
    ensures
        pending_check_of(e) == (match announced(e, DeviceKind::Sink) {
            Some(i) => Some((i, true)),
            None => match announced(e, DeviceKind::Source) {
                Some(i) => Some((i, false)),
                None => None::<(u32, bool)>,
            },
        }),
        triggers_auto_switch(e) == (announced(e, DeviceKind::Sink) is Some || announced(e, DeviceKind::Source) is Some
            || concerns(e, DeviceKind::Card)),
        announced(e, DeviceKind::Sink) is Some || withdrawn(e, DeviceKind::Sink) is Some ==> audio_props_of(e) == seq!["Sinks"],
        announced(e, DeviceKind::Source) is Some || withdrawn(e, DeviceKind::Source) is Some ==> audio_props_of(e) == seq!["Sources"],
        announced(e, DeviceKind::SinkInput) is Some || withdrawn(e, DeviceKind::SinkInput) is Some ==> audio_props_of(e) == seq!["SinkInputs"],
        concerns(e, DeviceKind::Card) ==> audio_props_of(e) == seq!["Cards", "CardsWithoutUnavailable"],
        changed(e, DeviceKind::Sink) is Some || changed(e, DeviceKind::Source) is Some || changed(e, DeviceKind::SinkInput) is Some
            || e is Server ==> audio_props_of(e).len() == 0,
        changed(e, DeviceKind::Sink) matches Some(i) ==> forall|s: Option<DeviceSignal>| signal_matches(s, e) ==> (s matches Some(sig)
            && sig.path@ == sink_path(i) && sig.interface == "org.deepin.dde.Audio1.Sink"
            && sig.props@ == seq!["Name", "Description", "Volume", "Mute", "BaseVolume", "Balance", "Fade", "Card", "Ports"]),
        changed(e, DeviceKind::Source) matches Some(i) ==> forall|s: Option<DeviceSignal>| signal_matches(s, e) ==> (s matches Some(sig)
            && sig.path@ == source_path(i) && sig.interface == "org.deepin.dde.Audio1.Source"
            && sig.props@ == seq!["Name", "Description", "Volume", "Mute", "BaseVolume", "Balance", "Fade", "Card", "Ports"]),
        changed(e, DeviceKind::SinkInput) matches Some(i) ==> forall|s: Option<DeviceSignal>| signal_matches(s, e) ==> (s matches Some(sig)
            && sig.path@ == sink_input_path(i) && sig.interface == "org.deepin.dde.Audio1.SinkInput"
            && sig.props@ == seq!["Name", "Volume", "Mute", "Balance", "Fade"]),
        e is DefaultSinkChanged ==> audio_props_of(e) == seq!["DefaultSink"],
        e is DefaultSourceChanged ==> audio_props_of(e) == seq!["DefaultSource"],
        !(changed(e, DeviceKind::Sink) is Some || changed(e, DeviceKind::Source) is Some || changed(e, DeviceKind::SinkInput) is Some)
            ==> forall|s: Option<DeviceSignal>| signal_matches(s, e) ==> s is None,
        match e {
            PulseEvent::DefaultSinkChanged { name } => tables_after(t, e) == (DeviceTables { default_sink: Some(name), ..t }),
            PulseEvent::DefaultSourceChanged { name } => tables_after(t, e) == (DeviceTables { default_source: Some(name), ..t }),
            _ => tables_after(t, e) == t,
        },
{
    match e {
        PulseEvent::SinkAdded { .. } => {},
        PulseEvent::SinkChanged { .. } => {},
        PulseEvent::SinkRemoved { .. } => {},
        PulseEvent::SourceAdded { .. } => {},
        PulseEvent::SourceChanged { .. } => {},
        PulseEvent::SourceRemoved { .. } => {},
        PulseEvent::SinkInputAdded { .. } => {},
        PulseEvent::SinkInputChanged { .. } => {},
        PulseEvent::SinkInputRemoved { .. } => {},
        PulseEvent::CardAdded { .. } => {},
        PulseEvent::CardChanged { .. } => {},
        PulseEvent::CardRemoved { .. } => {},
        PulseEvent::DefaultSinkChanged { .. } => {},
        PulseEvent::DefaultSourceChanged { .. } => {},
        PulseEvent::Server => {},
    }
}

/// Records what notification `event` settles by itself and says what the
/// event loop must do next.
pub fn plan_event(device_manager: &mut DeviceManager, event: &PulseEvent) -> (plan: EventPlan)
    ensures
        final(device_manager)@ == tables_after(old(device_manager)@, *event),
        plan.step == step_of(*event),
        plan.check_pending == pending_check_of(*event),
        plan.trigger_auto_switch == triggers_auto_switch(*event),
        plan.audio_props@ == audio_props_of(*event),
        signal_matches(plan.device_signal, *event),
{
    let card_props: Vec<&'static str> = vec!["Cards", "CardsWithoutUnavailable"];
    match event {
        PulseEvent::SinkAdded { index } => EventPlan {
            step: DeviceStep::SinkNew(*index),
            check_pending: Some((*index, true)),
            trigger_auto_switch: true,
            audio_props: vec!["Sinks"],
            device_signal: None,
        },
        PulseEvent::SinkChanged { index } => EventPlan {
            step: DeviceStep::SinkUpdate(*index),
            check_pending: None,
            trigger_auto_switch: false,
            audio_props: Vec::new(),
            device_signal: Some(DeviceSignal {
                path: super::sink::path(*index),
                interface: "org.deepin.dde.Audio1.Sink",
                props: vec!["Name", "Description", "Volume", "Mute", "BaseVolume", "Balance", "Fade", "Card", "Ports"],
            }),
        },
        PulseEvent::SinkRemoved { index } => EventPlan {
            step: DeviceStep::SinkDelete(*index),
            check_pending: None,
            trigger_auto_switch: false,
            audio_props: vec!["Sinks"],
            device_signal: None,
        },
        PulseEvent::SourceAdded { index } => EventPlan {
            step: DeviceStep::SourceNew(*index),
            check_pending: Some((*index, false)),
            trigger_auto_switch: true,
            audio_props: vec!["Sources"],
            device_signal: None,
        },
        PulseEvent::SourceChanged { index } => EventPlan {
            step: DeviceStep::SourceUpdate(*index),
            check_pending: None,
            trigger_auto_switch: false,
            audio_props: Vec::new(),
            device_signal: Some(DeviceSignal {
                path: super::source::path(*index),
                interface: "org.deepin.dde.Audio1.Source",
                props: vec!["Name", "Description", "Volume", "Mute", "BaseVolume", "Balance", "Fade", "Card", "Ports"],
            }),
        },
        PulseEvent::SourceRemoved { index } => EventPlan {
            step: DeviceStep::SourceDelete(*index),
            check_pending: None,
            trigger_auto_switch: false,
            audio_props: vec!["Sources"],
            device_signal: None,
        },
        PulseEvent::SinkInputAdded { index } => EventPlan {
            step: DeviceStep::SinkInputNew(*index),
            check_pending: None,
            trigger_auto_switch: false,
            audio_props: vec!["SinkInputs"],
            device_signal: None,
        },
        PulseEvent::SinkInputChanged { index } => EventPlan {
            step: DeviceStep::SinkInputUpdate(*index),
            check_pending: None,
            trigger_auto_switch: false,
            audio_props: Vec::new(),
            device_signal: Some(DeviceSignal {
                path: super::sink_input::path(*index),
                interface: "org.deepin.dde.Audio1.SinkInput",
                props: vec!["Name", "Volume", "Mute", "Balance", "Fade"],
            }),
        },
        PulseEvent::SinkInputRemoved { index } => EventPlan {
            step: DeviceStep::SinkInputDelete(*index),
            check_pending: None,
            trigger_auto_switch: false,
            audio_props: vec!["SinkInputs"],
            device_signal: None,
        },
        PulseEvent::CardAdded { index } => EventPlan {
            step: DeviceStep::CardNew(*index),
            check_pending: None,
            trigger_auto_switch: true,
            audio_props: card_props,
            device_signal: None,
        },
        PulseEvent::CardChanged { index } => EventPlan {
            step: DeviceStep::CardUpdate(*index),
            check_pending: None,
            trigger_auto_switch: true,
            audio_props: card_props,
            device_signal: None,
        },
        PulseEvent::CardRemoved { index } => EventPlan {
            step: DeviceStep::CardDelete(*index),
            check_pending: None,
            trigger_auto_switch: true,
            audio_props: card_props,
            device_signal: None,
        },
        PulseEvent::DefaultSinkChanged { name } => {
            device_manager.set_default_sink(name.clone());
            EventPlan {
                step: DeviceStep::Nothing,
                check_pending: None,
                trigger_auto_switch: false,
                audio_props: vec!["DefaultSink"],
                device_signal: None,
            }
        },
        PulseEvent::DefaultSourceChanged { name } => {
            device_manager.set_default_source(name.clone());
            EventPlan {
                step: DeviceStep::Nothing,
                check_pending: None,
                trigger_auto_switch: false,
                audio_props: vec!["DefaultSource"],
                device_signal: None,
            }
        },
        PulseEvent::Server => EventPlan {
            step: DeviceStep::QueryServerDefaults,
            check_pending: None,
            trigger_auto_switch: false,
            audio_props: Vec::new(),
            device_signal: None,
        },
    }
}

/// Records the server's default devices after a server notification; says
/// whether to announce the default sink and the default source (only the
/// non-empty names are announced).
pub fn apply_server_defaults(device_manager: &mut DeviceManager, sink: String, source: String) -> (r: (bool, bool))
    ensures
        final(device_manager)@ == (DeviceTables {
            default_sink: Some(sink),
            default_source: Some(source),
            ..old(device_manager)@
        }),
        r.0 == (sink@.len() != 0),
        r.1 == (source@.len() != 0),
{
    let announce_sink = !sink.as_str().is_empty();
    let announce_source = !source.as_str().is_empty();
    device_manager.set_default_sink(sink);
    device_manager.set_default_source(source);
    (announce_sink, announce_source)
}

/// State of the worker that runs automatic port switches.
#[derive(Clone, Copy, Debug, PartialEq, Eq, Structural)]
pub enum SwitchWorker {
    /// Waiting for a first request.
    Idle,
    /// Requests arrived; waiting for a quiet window before switching.
    Collecting,
}

/// What the worker observed while waiting.
#[derive(Clone, Copy, Debug, PartialEq, Eq, Structural)]
pub enum WorkerEvent {
    /// A switch was requested.
    Trigger,
    /// A quiet window passed without a request.
    Quiet,
    /// The request channel closed.
    Closed,
}

/// How the worker waits next.
#[derive(Clone, Copy, Debug, PartialEq, Eq, Structural)]
pub enum WorkerWait {
    /// Block until a request arrives.
    ForTrigger,
    /// Wait for a request at most one quiet window.
    QuietWindow,
    /// Stop the worker.
    Stop,
}

/// One step of the worker: its next state, whether to run an automatic
/// switch now, and how to wait next.
#[derive(Clone, Copy, Debug, PartialEq, Eq, Structural)]
pub struct WorkerStep {
    pub next: SwitchWorker,
    pub run_switch: bool,
    pub wait: WorkerWait,
}

/// The worker's step: requests are merged until a quiet window passes (or
/// the channel closes), then one switch runs on the latest state.
pub open spec fn worker_step_spec(state: SwitchWorker, event: WorkerEvent) -> WorkerStep {
    match (state, event) {
        (SwitchWorker::Idle, WorkerEvent::Trigger) => WorkerStep { next: SwitchWorker::Collecting, run_switch: false, wait: WorkerWait::QuietWindow },
        (SwitchWorker::Idle, WorkerEvent::Quiet) => WorkerStep { next: SwitchWorker::Idle, run_switch: false, wait: WorkerWait::ForTrigger },
        (SwitchWorker::Idle, WorkerEvent::Closed) => WorkerStep { next: SwitchWorker::Idle, run_switch: false, wait: WorkerWait::Stop },
        (SwitchWorker::Collecting, WorkerEvent::Trigger) => WorkerStep { next: SwitchWorker::Collecting, run_switch: false, wait: WorkerWait::QuietWindow },
        (SwitchWorker::Collecting, _) => WorkerStep { next: SwitchWorker::Idle, run_switch: true, wait: WorkerWait::ForTrigger },
    }
}

/// One step of the automatic-switch worker (see [`worker_step_spec`]).
pub fn worker_step(state: SwitchWorker, event: WorkerEvent) -> (r: WorkerStep)
    ensures
        r == worker_step_spec(state, event),
{
    match (state, event) {
        (SwitchWorker::Idle, WorkerEvent::Trigger) => WorkerStep { next: SwitchWorker::Collecting, run_switch: false, wait: WorkerWait::QuietWindow },
        (SwitchWorker::Idle, WorkerEvent::Quiet) => WorkerStep { next: SwitchWorker::Idle, run_switch: false, wait: WorkerWait::ForTrigger },
        (SwitchWorker::Idle, WorkerEvent::Closed) => WorkerStep { next: SwitchWorker::Idle, run_switch: false, wait: WorkerWait::Stop },
        (SwitchWorker::Collecting, WorkerEvent::Trigger) => WorkerStep { next: SwitchWorker::Collecting, run_switch: false, wait: WorkerWait::QuietWindow },
        (SwitchWorker::Collecting, _) => WorkerStep { next: SwitchWorker::Idle, run_switch: true, wait: WorkerWait::ForTrigger },
    }
}

/// The worker's state and the number of switches it ran after `events`.
pub open spec fn run_worker(state: SwitchWorker, events: Seq<WorkerEvent>) -> (SwitchWorker, nat)
    decreases events.len(),
{
    if events.len() == 0 {
        (state, 0)
    } else {
        let (s, runs) = run_worker(state, events.drop_last());
        let step = worker_step_spec(s, events.last());
        (step.next, runs + if step.run_switch { 1nat } else { 0nat })
    }
}

/// `n` switch requests in a row.
pub open spec fn triggers(n: nat) -> Seq<WorkerEvent> {
    Seq::new(n, |i: int| WorkerEvent::Trigger)
}

proof fn lemma_burst_collects(state: SwitchWorker, n: nat)
    requires
        n > 0 || state == SwitchWorker::Collecting,
    ensures
        run_worker(state, triggers(n)) == (SwitchWorker::Collecting, 0nat),
    decreases n,
{
    if n > 0 {
        assert(triggers(n).drop_last() == triggers((n - 1) as nat));
        assert(triggers(n).last() == WorkerEvent::Trigger);
        if n > 1 || state == SwitchWorker::Collecting {
            lemma_burst_collects(state, (n - 1) as nat);
        } else {
            assert(triggers((n - 1) as nat).len() == 0);
            assert(run_worker(state, triggers((n - 1) as nat)) == (state, 0nat));
        }
    }
}

/// A burst of requests followed by a quiet window runs exactly one switch,
/// and the worker is idle again.
pub proof fn law_burst_runs_once(n: nat)
    requires
        n > 0,
    ensures
        run_worker(SwitchWorker::Idle, triggers(n).push(WorkerEvent::Quiet)) == (SwitchWorker::Idle, 1nat),
{
    lemma_burst_collects(SwitchWorker::Idle, n);
    assert(triggers(n).push(WorkerEvent::Quiet).drop_last() == triggers(n));
}

} // verus!

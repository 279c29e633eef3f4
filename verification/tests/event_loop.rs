use dde_audio::backend::pulse::PulseEvent;
use dde_audio::manager::device_manager::DeviceManager;
use dde_audio::manager::event_loop::{
    apply_server_defaults, plan_event, worker_step, DeviceStep, SwitchWorker, WorkerEvent, WorkerWait,
};
use dde_audio::manager::mono::{mono_plan, restore_default_sink, MonoAction};
use dde_audio::manager::{sink, sink_input, source};

#[test]
fn sink_added_plan() {
    let mut dm = DeviceManager::new();
    let plan = plan_event(&mut dm, &PulseEvent::SinkAdded { index: 5 });
    assert_eq!(plan.step, DeviceStep::SinkNew(5));
    assert_eq!(plan.check_pending, Some((5, true)));
    assert!(plan.trigger_auto_switch);
    assert_eq!(plan.audio_props, vec!["Sinks"]);
    assert!(plan.device_signal.is_none());
}

#[test]
fn device_changed_plans() {
    let mut dm = DeviceManager::new();
    let plan = plan_event(&mut dm, &PulseEvent::SinkChanged { index: 5 });
    assert_eq!(plan.step, DeviceStep::SinkUpdate(5));
    assert!(!plan.trigger_auto_switch);
    assert!(plan.audio_props.is_empty());
    let sig = plan.device_signal.unwrap();
    assert_eq!(sig.path, "/org/deepin/dde/Audio2/Sink5");
    assert_eq!(sig.interface, "org.deepin.dde.Audio1.Sink");
    assert_eq!(sig.props.len(), 9);
    let plan = plan_event(&mut dm, &PulseEvent::SinkInputChanged { index: 31 });
    let sig = plan.device_signal.unwrap();
    assert_eq!(sig.path, "/org/deepin/dde/Audio2/SinkInput31");
    assert_eq!(sig.props, vec!["Name", "Volume", "Mute", "Balance", "Fade"]);
    let plan = plan_event(&mut dm, &PulseEvent::SourceChanged { index: 0 });
    assert_eq!(plan.device_signal.unwrap().path, "/org/deepin/dde/Audio2/Source0");
}

#[test]
fn card_plans_trigger_auto_switch() {
    let mut dm = DeviceManager::new();
    for (event, step) in [
        (PulseEvent::CardAdded { index: 2 }, DeviceStep::CardNew(2)),
        (PulseEvent::CardChanged { index: 2 }, DeviceStep::CardUpdate(2)),
        (PulseEvent::CardRemoved { index: 2 }, DeviceStep::CardDelete(2)),
    ] {
        let plan = plan_event(&mut dm, &event);
        assert_eq!(plan.step, step);
        assert!(plan.trigger_auto_switch);
        assert_eq!(plan.audio_props, vec!["Cards", "CardsWithoutUnavailable"]);
        assert!(plan.check_pending.is_none());
    }
}

#[test]
fn stream_and_removal_plans() {
    let mut dm = DeviceManager::new();
    let plan = plan_event(&mut dm, &PulseEvent::SinkInputAdded { index: 3 });
    assert_eq!(plan.step, DeviceStep::SinkInputNew(3));
    assert!(!plan.trigger_auto_switch);
    assert_eq!(plan.audio_props, vec!["SinkInputs"]);
    let plan = plan_event(&mut dm, &PulseEvent::SourceRemoved { index: 3 });
    assert_eq!(plan.step, DeviceStep::SourceDelete(3));
    assert_eq!(plan.audio_props, vec!["Sources"]);
    let plan = plan_event(&mut dm, &PulseEvent::SourceAdded { index: 4 });
    assert_eq!(plan.check_pending, Some((4, false)));
}

#[test]
fn default_device_plans() {
    let mut dm = DeviceManager::new();
    let plan = plan_event(&mut dm, &PulseEvent::DefaultSinkChanged { name: "out".to_owned() });
    assert_eq!(plan.step, DeviceStep::Nothing);
    assert_eq!(plan.audio_props, vec!["DefaultSink"]);
    assert_eq!(dm.default_sink.as_deref(), Some("out"));
    plan_event(&mut dm, &PulseEvent::DefaultSourceChanged { name: "in".to_owned() });
    assert_eq!(dm.default_source.as_deref(), Some("in"));
    let plan = plan_event(&mut dm, &PulseEvent::Server);
    assert_eq!(plan.step, DeviceStep::QueryServerDefaults);
    assert_eq!(apply_server_defaults(&mut dm, "s".to_owned(), String::new()), (true, false));
    assert_eq!(dm.default_sink.as_deref(), Some("s"));
    assert_eq!(dm.default_source.as_deref(), Some(""));
}

#[test]
fn object_paths() {
    assert_eq!(sink::path(0), "/org/deepin/dde/Audio2/Sink0");
    assert_eq!(sink::path(4294967295), "/org/deepin/dde/Audio2/Sink4294967295");
    assert_eq!(sink_input::path(12), "/org/deepin/dde/Audio2/SinkInput12");
    assert_eq!(source::path(7), "/org/deepin/dde/Audio2/Source7");
}

#[test]
fn worker_merges_a_burst() {
    let mut state = SwitchWorker::Idle;
    let mut runs = 0;
    for _ in 0..5 {
        let step = worker_step(state, WorkerEvent::Trigger);
        assert_eq!(step.wait, WorkerWait::QuietWindow);
        assert!(!step.run_switch);
        state = step.next;
    }
    let step = worker_step(state, WorkerEvent::Quiet);
    if step.run_switch {
        runs += 1;
    }
    assert_eq!(runs, 1);
    assert_eq!(step.next, SwitchWorker::Idle);
    assert_eq!(step.wait, WorkerWait::ForTrigger);
    let idle = worker_step(SwitchWorker::Idle, WorkerEvent::Quiet);
    assert!(!idle.run_switch);
    assert_eq!(worker_step(SwitchWorker::Idle, WorkerEvent::Closed).wait, WorkerWait::Stop);
    let last = worker_step(SwitchWorker::Collecting, WorkerEvent::Closed);
    assert!(last.run_switch);
}

#[test]
fn mono_switching_plans() {
    assert!(matches!(mono_plan(true, true, "alsa", "mono"), Ok(None)));
    assert!(matches!(mono_plan(false, false, "", "mono"), Ok(None)));
    assert_eq!(mono_plan(false, true, "", "mono").err().unwrap(), "no physical default sink for mono");
    assert_eq!(mono_plan(false, true, "mono", "mono").err().unwrap(), "no physical default sink for mono");
    match mono_plan(false, true, "alsa", "mono") {
        Ok(Some(MonoAction::Enable { master })) => assert_eq!(master, "alsa"),
        other => panic!("unexpected {other:?}"),
    }
    assert!(matches!(mono_plan(true, false, "mono", "mono"), Ok(Some(MonoAction::Disable))));
    assert!(restore_default_sink("alsa", "mono"));
    assert!(!restore_default_sink("mono", "mono"));
    assert!(!restore_default_sink("", "mono"));
}

use dde_audio::backend::pulse::event::DeviceRegistry;
use dde_audio::backend::pulse::sink::{self, PulsePortInfo, PulseSinkInfo};
use dde_audio::backend::pulse::sink_input::{self, PulseSinkInputInfo};
use dde_audio::backend::pulse::source::{self, PulseSourceInfo};
use dde_audio::backend::pulse::PulseEvent;
use dde_audio::backend::SourceInfo;
use dde_audio::manager::device_manager::DeviceManager;

fn pulse_sink() -> PulseSinkInfo {
    PulseSinkInfo {
        index: 8,
        name: Some("alsa_output.pci".to_owned()),
        description: None,
        mute: true,
        ports: vec![
            PulsePortInfo { name: Some("speaker".to_owned()), description: Some("Speaker".to_owned()) },
            PulsePortInfo { name: None, description: None },
        ],
        active_port: None,
        card: None,
        base_volume_bits: 1.0f64.to_bits(),
        volume_bits: 0.5f64.to_bits(),
        balance_bits: (-0.25f64).to_bits(),
        fade_bits: 0,
    }
}

#[test]
fn sink_state_from_pulse() {
    let s = sink::state_from_info(&pulse_sink());
    assert_eq!(s.index, 8);
    assert_eq!(s.name, "alsa_output.pci");
    assert_eq!(s.description, "");
    assert!(s.mute);
    assert_eq!(f64::from_bits(s.volume_bits), 0.5);
    assert_eq!(f64::from_bits(s.balance_bits), -0.25);
    assert!(s.support_balance && s.support_fade);
    assert_eq!(s.ports.len(), 2);
    assert_eq!(s.ports[0].description, "Speaker");
    assert_eq!(s.ports[1].name, "");
    assert_eq!(s.ports[1].direction, 0);
    assert_eq!(s.active_port.name, "");
    assert_eq!(s.card, u32::MAX);
    let mut with_card = pulse_sink();
    with_card.card = Some(2);
    with_card.active_port = Some(PulsePortInfo { name: Some("hp".to_owned()), description: None });
    let s2 = sink::state_from_info(&with_card);
    assert_eq!(s2.card, 2);
    assert_eq!(s2.active_port.name, "hp");
}

#[test]
fn sink_request_outcomes() {
    assert_eq!(sink::query_info(8, Ok(None)).err().unwrap(), "sink 8 not found");
    assert_eq!(sink::query_info(8, Ok(Some(pulse_sink()))).unwrap().index, 8);
    assert_eq!(sink::query_list(Ok(vec![pulse_sink()])).unwrap().len(), 1);
    assert!(sink::set_mute(Ok(false)).is_ok());
    assert!(sink::set_port(Ok(false)).is_ok());
    assert!(sink::set_volume(Ok(true)).is_ok());
    assert_eq!(sink::set_mute(Err("e".to_owned())), Err("e".to_owned()));
    assert_eq!(sink::get_meter(1, Ok(Some(77))), Ok(77));
    assert_eq!(sink::get_meter(12, Ok(None)), Err("create meter failed for sink 12".to_owned()));
    assert_eq!(sink::get_meter(1, Err("gone".to_owned())), Err("gone".to_owned()));
}

#[test]
fn sink_input_outcomes() {
    let info = PulseSinkInputInfo {
        index: 40,
        name: None,
        mute: false,
        volume_bits: 0.3f64.to_bits(),
        balance_bits: 0,
        fade_bits: 0,
    };
    let s = sink_input::state_from_info(&info);
    assert_eq!(s.name, "");
    assert_eq!(f64::from_bits(s.volume_bits), 0.3);
    assert_eq!(sink_input::set_mute(40, Ok(false)).err().unwrap(), "set mute failed for sink input 40");
    assert_eq!(sink_input::set_volume(0, Ok(false)).err().unwrap(), "set volume failed for sink input 0");
    assert!(sink_input::set_mute(40, Ok(true)).is_ok());
    assert_eq!(sink_input::query_info(41, Ok(None)).err().unwrap(), "sink input 41 not found");
    assert_eq!(sink_input::query_list(Ok(vec![info.clone(), info])).unwrap().len(), 2);
}

fn pulse_source() -> PulseSourceInfo {
    PulseSourceInfo {
        index: 6,
        name: Some("alsa_input.mic".to_owned()),
        description: Some("Mic".to_owned()),
        mute: true,
        ports: vec![PulsePortInfo { name: Some("analog-input-mic".to_owned()), description: None }],
        active_port: None,
        card: None,
        base_volume_bits: 1.0f64.to_bits(),
        volume_bits: 0.5f64.to_bits(),
        balance_bits: 0,
        fade_bits: 0,
    }
}

#[test]
fn source_state_from_pulse() {
    let s = source::state_from_info(&pulse_source());
    assert_eq!(s.index, 6);
    assert_eq!(s.name, "alsa_input.mic");
    assert_eq!(s.description, "Mic");
    assert!(s.mute);
    assert_eq!(f64::from_bits(s.volume_bits), 0.5);
    assert_eq!(s.ports.len(), 1);
    assert_eq!(s.ports[0].name, "analog-input-mic");
    assert_eq!(s.ports[0].description, "");
    assert_eq!(s.ports[0].direction, 1);
    assert_eq!(s.active_port.name, "");
    assert_eq!(s.active_port.direction, 1);
    assert_eq!(s.card, u32::MAX);
    assert!(s.support_balance && s.support_fade);
}

#[test]
fn source_request_outcomes() {
    assert_eq!(source::query_info(6, Ok(None)).err().unwrap(), "source 6 not found");
    assert_eq!(source::query_info(6, Ok(Some(pulse_source()))).unwrap().index, 6);
    assert_eq!(source::query_list(Ok(vec![pulse_source(), pulse_source()])).unwrap().len(), 2);
    assert_eq!(source::query_list(Err("down".to_owned())).err().unwrap(), "down");
    assert!(source::set_mute(Ok(true)).is_ok());
    assert!(source::set_mute(Ok(false)).is_ok());
    assert_eq!(source::set_mute(Err("e".to_owned())), Err("e".to_owned()));
    assert!(source::set_port(Ok(false)).is_ok());
    assert_eq!(source::set_port(Err("p".to_owned())), Err("p".to_owned()));
    assert!(source::set_volume(Ok(true)).is_ok());
    assert_eq!(source::check_volume_info(Ok(false)), Err("get source volume info failed".to_owned()));
    assert_eq!(source::set_balance(Ok(false)), Err("set balance failed".to_owned()));
    assert_eq!(source::set_fade(Ok(false)), Err("set fade failed".to_owned()));
    assert_eq!(source::set_fade(Ok(true)), Ok(()));
    assert_eq!(source::get_meter(3, Ok(Some(41))), Ok(41));
    assert_eq!(source::get_meter(3, Ok(None)), Err("create meter failed for source 3".to_owned()));
}

#[test]
fn source_events_update_tables() {
    let mut dm = DeviceManager::new();
    let st = source::state_from_info(&pulse_source());
    assert!(source::on_source_added(&mut dm, 6, Ok(st.clone())).is_ok());
    assert_eq!(dm.get_source(6).unwrap().name, "alsa_input.mic");
    let mut changed = st.clone();
    changed.mute = false;
    assert!(source::on_source_changed(&mut dm, 6, Ok(changed)).is_ok());
    assert!(!dm.get_source(6).unwrap().mute);
    assert_eq!(source::on_source_changed(&mut dm, 6, Err("q".to_owned())), Err("q".to_owned()));
    assert!(!dm.get_source(6).unwrap().mute);
    source::on_source_removed(&mut dm, 6);
    assert!(dm.get_source(6).is_none());
    assert_eq!(source::on_source_added(&mut dm, 9, Err("x".to_owned())), Err("x".to_owned()));
    assert!(dm.get_source(9).is_none());
}

#[test]
fn source_record_from_description() {
    let info = SourceInfo {
        index: 6,
        name: "mic".to_owned(),
        description: "Mic".to_owned(),
        base_volume_bits: 0,
        mute: true,
        volume_bits: 0.5f64.to_bits(),
        balance_bits: 0,
        support_balance: true,
        fade_bits: 0,
        support_fade: true,
        ports: vec![],
        active_port: dde_audio::backend::Port { name: String::new(), description: String::new(), direction: 1 },
        card: 0,
    };
    let st = source::SourceState::from(&info);
    assert_eq!(st.index, 6);
    assert_eq!(st.description, "Mic");
    assert!(st.mute);
}

#[test]
fn registry_tracks_devices() {
    let mut r = DeviceRegistry::new();
    r.apply_event(&PulseEvent::SinkAdded { index: 1 });
    r.apply_event(&PulseEvent::CardAdded { index: 7 });
    r.apply_event(&PulseEvent::SinkChanged { index: 2 });
    assert!(r.sinks.contains(&1));
    assert!(!r.sinks.contains(&2));
    assert!(r.cards.contains(&7));
    r.apply_event(&PulseEvent::SinkRemoved { index: 1 });
    assert!(r.sinks.is_empty());
    r.apply_event(&PulseEvent::SourceAdded { index: 3 });
    r.apply_event(&PulseEvent::SinkInputAdded { index: 4 });
    r.apply_event(&PulseEvent::DefaultSinkChanged { name: "x".to_owned() });
    assert!(r.sources.contains(&3) && r.sink_inputs.contains(&4));
    r.apply_event(&PulseEvent::SinkInputRemoved { index: 4 });
    r.apply_event(&PulseEvent::CardRemoved { index: 7 });
    r.apply_event(&PulseEvent::SourceRemoved { index: 3 });
    assert!(r.sources.is_empty() && r.sink_inputs.is_empty() && r.cards.is_empty());
}

#[test]
fn balance_and_fade_outcomes() {
    assert_eq!(sink::check_volume_info(Ok(false)), Err("get sink volume info failed".to_owned()));
    assert_eq!(sink::check_volume_info(Ok(true)), Ok(()));
    assert_eq!(sink::set_balance(Ok(false)), Err("set balance failed".to_owned()));
    assert_eq!(sink::set_fade(Ok(false)), Err("set fade failed".to_owned()));
    assert_eq!(sink::set_fade(Err("io".to_owned())), Err("io".to_owned()));
    assert_eq!(
        sink_input::check_volume_info(Ok(false)),
        Err("get sink input volume info failed".to_owned())
    );
    assert_eq!(sink_input::set_balance(Ok(true)), Ok(()));
    assert_eq!(sink_input::set_fade(Ok(false)), Err("set fade failed".to_owned()));
}

#[test]
fn registry_last_word_wins() {
    let mut r = DeviceRegistry::new();
    let events = vec![
        PulseEvent::SinkAdded { index: 5 },
        PulseEvent::SinkRemoved { index: 5 },
        PulseEvent::SinkAdded { index: 5 },
        PulseEvent::SourceAdded { index: 8 },
        PulseEvent::SinkChanged { index: 5 },
        PulseEvent::SourceRemoved { index: 8 },
        PulseEvent::CardAdded { index: 2 },
        PulseEvent::CardRemoved { index: 2 },
        PulseEvent::CardAdded { index: 2 },
    ];
    for e in &events {
        r.apply_event(e);
    }
    assert!(r.sinks.contains(&5));
    assert!(!r.sources.contains(&8));
    assert!(r.cards.contains(&2));
    assert!(r.sink_inputs.is_empty());
}

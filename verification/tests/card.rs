use dde_audio::backend::pulse::card::{
    is_port_enabled, profile_for_port, query_info, query_list, set_card_profile, state_from_info,
    PortAvailable, PulseCardInfo, PulseCardPortInfo, PulseCardProfileInfo,
};
use dde_audio::manager::card::{self, Card, CardStatus, ChangeResult, PortInfo, StatusChange, DIRECTION_SINK, DIRECTION_SOURCE};
use dde_audio::manager::device_manager::{DeviceManager, Port, SinkState, SourceState};

fn profile(name: Option<&str>) -> PulseCardProfileInfo {
    PulseCardProfileInfo {
        name: name.map(|s| s.to_owned()),
        description: Some("desc".to_owned()),
        priority: 5,
        available: true,
    }
}

fn pulse_card() -> PulseCardInfo {
    PulseCardInfo {
        index: 3,
        name: Some("alsa_card.pci".to_owned()),
        active_profile: Some(profile(Some("output:analog-stereo"))),
        ports: vec![
            PulseCardPortInfo {
                name: Some("analog-output-speaker".to_owned()),
                description: None,
                available: PortAvailable::Unknown,
                output: true,
                profiles: vec![profile(Some("output:analog-stereo")), profile(None), profile(Some("duplex"))],
            },
            PulseCardPortInfo {
                name: Some("analog-input-mic".to_owned()),
                description: Some("Microphone".to_owned()),
                available: PortAvailable::No,
                output: false,
                profiles: vec![profile(None)],
            },
        ],
        profiles: vec![profile(Some("output:analog-stereo")), profile(None)],
    }
}

#[test]
fn state_from_pulse_card() {
    let c = state_from_info(&pulse_card());
    assert_eq!(c.index, 3);
    assert_eq!(c.name, "alsa_card.pci");
    assert_eq!(c.active_profile, "output:analog-stereo");
    assert_eq!(c.ports.len(), 2);
    assert_eq!(c.ports[0].name, "analog-output-speaker");
    assert_eq!(c.ports[0].description, "");
    assert!(c.ports[0].enabled);
    assert!(!c.ports[0].bluetooth);
    assert_eq!(c.ports[0].direction, 0);
    assert_eq!(c.ports[0].profiles, vec!["output:analog-stereo".to_owned(), "duplex".to_owned()]);
    assert!(!c.ports[1].enabled);
    assert_eq!(c.ports[1].direction, 1);
    assert!(c.ports[1].profiles.is_empty());
    assert_eq!(c.profiles.len(), 2);
    assert_eq!(c.profiles[1].name, "");
    assert_eq!(c.profiles[1].priority, 5);
    assert_eq!(c.status, CardStatus::Ready);
    assert!(c.change.is_none());
}

#[test]
fn card_query_outcomes() {
    assert_eq!(query_info(7, Ok(None)).err().unwrap(), "card 7 not found");
    assert_eq!(query_info(7, Err("down".to_owned())).err().unwrap(), "down");
    assert_eq!(query_info(3, Ok(Some(pulse_card()))).unwrap().name, "alsa_card.pci");
    let list = query_list(Ok(vec![pulse_card(), pulse_card()])).unwrap();
    assert_eq!(list.len(), 2);
    assert!(query_list(Err("x".to_owned())).is_err());
}

#[test]
fn set_card_profile_outcomes() {
    assert!(set_card_profile(4, Ok(true)).is_ok());
    assert_eq!(set_card_profile(4, Ok(false)).err().unwrap(), "set card profile failed for card 4");
    assert_eq!(set_card_profile(4, Err("gone".to_owned())).err().unwrap(), "gone");
}

#[test]
fn profile_for_port_lookup() {
    assert_eq!(profile_for_port(3, "analog-output-speaker", Ok(Some(pulse_card()))).unwrap(), "output:analog-stereo");
    // the first profile of the microphone port has no name
    assert_eq!(
        profile_for_port(3, "analog-input-mic", Ok(Some(pulse_card()))).err().unwrap(),
        "port analog-input-mic not found on card 3"
    );
    assert_eq!(
        profile_for_port(12, "hdmi", Ok(Some(pulse_card()))).err().unwrap(),
        "port hdmi not found on card 12"
    );
    assert_eq!(profile_for_port(12, "hdmi", Ok(None)).err().unwrap(), "port hdmi not found on card 12");
}

#[test]
fn port_enabled_lookup() {
    assert_eq!(is_port_enabled("analog-output-speaker", Ok(Some(pulse_card()))), Ok(true));
    assert_eq!(is_port_enabled("analog-input-mic", Ok(Some(pulse_card()))), Ok(false));
    assert_eq!(is_port_enabled("missing", Ok(Some(pulse_card()))), Ok(false));
    assert_eq!(is_port_enabled("missing", Ok(None)), Ok(false));
}

#[test]
fn select_profile_first() {
    let p = PortInfo {
        name: "p".to_owned(),
        enabled: true,
        bluetooth: false,
        description: String::new(),
        direction: 0,
        profiles: vec!["a".to_owned(), "b".to_owned()],
    };
    assert_eq!(p.select_profile(), Some("a"));
    let q = PortInfo { profiles: Vec::new(), ..p };
    assert_eq!(q.select_profile(), None);
}

#[test]
fn status_change_first_signal_wins() {
    let mut c = StatusChange::new(DIRECTION_SINK | DIRECTION_SOURCE);
    assert_eq!(c.required_directions(), 3);
    assert_eq!(c.wait(false), None);
    assert_eq!(c.wait(true), Some(Err("profile switch timed out".to_owned())));
    c.signal_removed();
    c.signal_complete();
    c.signal_failed("late".to_owned());
    assert_eq!(c.wait(false), Some(Ok(ChangeResult::Removed)));
}

#[test]
fn status_change_failure() {
    let mut c = StatusChange::new(1);
    c.signal_failed("boom".to_owned());
    assert_eq!(c.wait(false), Some(Ok(ChangeResult::Failed("boom".to_owned()))));
}

fn port(name: &str) -> Port {
    Port { name: name.to_owned(), description: String::new(), direction: 0 }
}

fn sink(index: u32, card: u32) -> SinkState {
    SinkState {
        index,
        name: format!("sink{index}"),
        description: String::new(),
        base_volume_bits: 0,
        mute: false,
        volume_bits: 0,
        balance_bits: 0,
        support_balance: true,
        fade_bits: 0,
        support_fade: true,
        ports: vec![port("a")],
        active_port: port("a"),
        card,
    }
}

fn source(index: u32, card: u32) -> SourceState {
    SourceState {
        index,
        name: format!("source{index}"),
        description: String::new(),
        base_volume_bits: 0,
        mute: false,
        volume_bits: 0,
        balance_bits: 0,
        support_balance: true,
        fade_bits: 0,
        support_fade: true,
        ports: vec![],
        active_port: port(""),
        card,
    }
}

fn pending_card(index: u32, required: u32) -> Card {
    let mut c = state_from_info(&pulse_card());
    c.index = index;
    c.status = CardStatus::Pending;
    c.change = Some(StatusChange::new(required));
    c
}

#[test]
fn device_creation_completes_pending_change() {
    let mut dm = DeviceManager::new();
    dm.add_card(3, pending_card(3, DIRECTION_SINK | DIRECTION_SOURCE));
    dm.add_sink(10, sink(10, 3));
    // the input direction is still missing
    assert!(card::on_device_created(&mut dm, 10, true).is_none());
    assert_eq!(dm.get_card(3).unwrap().status, CardStatus::Pending);
    dm.add_source(20, source(20, 3));
    let done = card::on_device_created(&mut dm, 20, false).unwrap();
    assert_eq!(done.wait(false), Some(Ok(ChangeResult::Complete)));
    let c = dm.get_card(3).unwrap();
    assert_eq!(c.status, CardStatus::Ready);
    assert!(c.change.is_none());
    // completion happens once
    assert!(card::on_device_created(&mut dm, 20, false).is_none());
}

#[test]
fn device_creation_ignores_unknown_and_ready() {
    let mut dm = DeviceManager::new();
    assert!(card::on_device_created(&mut dm, 1, true).is_none());
    let mut ready = state_from_info(&pulse_card());
    ready.change = Some(StatusChange::new(DIRECTION_SINK));
    dm.add_card(3, ready);
    dm.add_sink(1, sink(1, 3));
    assert!(card::on_device_created(&mut dm, 1, true).is_none());
    assert!(dm.get_card(3).unwrap().change.is_some());
}

#[test]
fn card_delete_signals_removed() {
    let mut dm = DeviceManager::new();
    dm.add_card(5, pending_card(5, DIRECTION_SINK));
    let ended = card::delete(&mut dm, 5).unwrap();
    assert_eq!(ended.wait(false), Some(Ok(ChangeResult::Removed)));
    assert!(dm.get_card(5).is_none());
    assert!(card::delete(&mut dm, 5).is_none());
}

#[test]
fn card_new_and_update() {
    let mut dm = DeviceManager::new();
    assert_eq!(card::new(&mut dm, 3, Err("no".to_owned())), Err("no".to_owned()));
    assert!(dm.get_card(3).is_none());
    card::new(&mut dm, 3, query_info(3, Ok(Some(pulse_card())))).unwrap();
    assert_eq!(dm.get_card(3).unwrap().name, "alsa_card.pci");
    let mut changed = pulse_card();
    changed.name = Some("renamed".to_owned());
    card::update(&mut dm, 3, query_info(3, Ok(Some(changed)))).unwrap();
    assert_eq!(dm.get_card(3).unwrap().name, "renamed");
}

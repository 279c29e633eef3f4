use dde_audio::manager::card::{Card, CardStatus, PortInfo};
use dde_audio::manager::device_manager::{
    card_to_export, contains_keyword, get_icon_port_type, CardPortInfo, DeviceManager, PendingProfile, PendingResult, Port,
    SinkInputState, SinkState, SourceState, PORT_TYPE_BLUETOOTH, PORT_TYPE_BUILTIN, PORT_TYPE_HDMI, PORT_TYPE_HEADSET,
    PORT_TYPE_LINE_IO, PORT_TYPE_UNKNOWN, PORT_TYPE_USB,
};
use dde_audio::backend::pulse::module::ModuleState;
use dde_audio::manager::meter::{meter_request, Meter};
use dde_audio::manager::{find_module_index, last_module_index, module_loaded, record_module_loaded, record_module_query};

fn port(name: &str) -> Port {
    Port { name: name.to_owned(), description: String::new(), direction: 0 }
}

fn sink(index: u32, name: &str, volume: f64) -> SinkState {
    SinkState {
        index,
        name: name.to_owned(),
        description: String::new(),
        base_volume_bits: 1.0f64.to_bits(),
        mute: false,
        volume_bits: volume.to_bits(),
        balance_bits: 0,
        support_balance: true,
        fade_bits: 0,
        support_fade: true,
        ports: vec![port("speaker")],
        active_port: port("speaker"),
        card: 1,
    }
}

fn source(index: u32, name: &str) -> SourceState {
    SourceState {
        index,
        name: name.to_owned(),
        description: String::new(),
        base_volume_bits: 0,
        mute: true,
        volume_bits: 0.25f64.to_bits(),
        balance_bits: 0,
        support_balance: true,
        fade_bits: 0,
        support_fade: true,
        ports: vec![],
        active_port: port(""),
        card: 1,
    }
}

fn card_port(name: &str, enabled: bool) -> PortInfo {
    PortInfo {
        name: name.to_owned(),
        enabled,
        bluetooth: false,
        description: format!("{name} desc"),
        direction: 1,
        profiles: vec![],
    }
}

fn card(index: u32, name: &str) -> Card {
    Card {
        index,
        name: name.to_owned(),
        active_profile: String::new(),
        ports: vec![
            card_port("analog-output-speaker", true),
            card_port("analog-output-headphones", false),
            card_port("hdmi-output-0", true),
        ],
        profiles: vec![],
        status: CardStatus::Ready,
        change: None,
    }
}

#[test]
fn sink_table_read_after_write() {
    let mut dm = DeviceManager::new();
    assert!(dm.get_sink(4).is_none());
    dm.add_sink(4, sink(4, "a", 0.5));
    assert_eq!(dm.get_sink(4).unwrap().name, "a");
    dm.update_sink(4, sink(4, "b", 0.5));
    assert_eq!(dm.get_sink(4).unwrap().name, "b");
    assert_eq!(dm.remove_sink(4).unwrap().name, "b");
    assert!(dm.get_sink(4).is_none());
    assert!(dm.remove_sink(4).is_none());
}

#[test]
fn other_tables_read_after_write() {
    let mut dm = DeviceManager::new();
    dm.add_source(2, source(2, "mic"));
    assert!(dm.get_source(2).unwrap().mute);
    dm.add_sink_input(9, SinkInputState {
        index: 9,
        name: "player".to_owned(),
        mute: false,
        volume_bits: 0,
        balance_bits: 0,
        support_balance: true,
        fade_bits: 0,
        support_fade: true,
    });
    assert_eq!(dm.get_sink_input(9).unwrap().name, "player");
    dm.update_source(2, source(2, "mic2"));
    assert_eq!(dm.get_source(2).unwrap().name, "mic2");
    assert!(dm.remove_sink_input(9).is_some());
    assert!(dm.get_sink_input(9).is_none());
    assert!(dm.remove_source(2).is_some());
    assert!(dm.get_sink(2).is_none());
    dm.add_card(1, card(1, "c"));
    dm.update_card(1, card(1, "d"));
    assert_eq!(dm.get_card(1).unwrap().name, "d");
    assert_eq!(dm.remove_card(1).unwrap().name, "d");
}

#[test]
fn default_devices() {
    let mut dm = DeviceManager::new();
    assert!(dm.default_sink.is_none());
    dm.set_default_sink("out".to_owned());
    dm.set_default_source("in".to_owned());
    assert_eq!(dm.default_sink.as_deref(), Some("out"));
    assert_eq!(dm.default_source.as_deref(), Some("in"));
}

#[test]
fn find_by_name() {
    let mut dm = DeviceManager::new();
    dm.add_sink(1, sink(11, "alsa_output", 0.5));
    dm.add_sink(2, sink(12, "bluez_output", 0.5));
    dm.add_source(5, source(15, "alsa_input"));
    // the index recorded in the state is returned
    assert_eq!(dm.find_sink_index_by_name("bluez_output"), Some(12));
    assert_eq!(dm.find_sink_index_by_name("missing"), None);
    assert_eq!(dm.find_source_index_by_name("alsa_input"), Some(15));
    assert_eq!(dm.find_source_index_by_name("alsa_output"), None);
    assert!(dm.has_sink_on_card(1));
    assert!(!dm.has_sink_on_card(2));
    assert!(dm.has_source_on_card(1));
}

#[test]
fn pending_profiles() {
    let mut dm = DeviceManager::new();
    dm.set_pending_profile(3, PendingProfile::new(2));
    assert_eq!(dm.get_pending_profile(3).unwrap().required_directions(), 2);
    let mut p = dm.take_pending_profile(3).unwrap();
    assert!(dm.get_pending_profile(3).is_none());
    assert_eq!(p.wait(false), None);
    p.signal_complete();
    p.signal_removed();
    assert_eq!(p.wait(false), Some(Ok(PendingResult::Complete)));
    assert_eq!(p.wait(true), Some(Err("profile switch timed out".to_owned())));
    let mut q = PendingProfile::new(1);
    q.signal_removed();
    q.signal_failed("x".to_owned());
    assert_eq!(q.wait(false), Some(Ok(PendingResult::CardRemoved)));
    let mut f = PendingProfile::new(1);
    f.signal_failed("x".to_owned());
    assert_eq!(f.wait(false), Some(Ok(PendingResult::Failed("x".to_owned()))));
}

#[test]
fn keyword_ignores_case() {
    assert!(contains_keyword("USB Audio", "Analog", "usb"));
    assert!(contains_keyword("card", "HDMI-Output", "hdmi"));
    assert!(!contains_keyword("card", "port", "usb"));
}

#[test]
fn icon_port_types() {
    assert_eq!(get_icon_port_type("alsa_card.pci", "analog-input-linein"), PORT_TYPE_LINE_IO);
    assert_eq!(get_icon_port_type("alsa_card.pci", "analog-output-speaker"), PORT_TYPE_BUILTIN);
    assert_eq!(get_icon_port_type("alsa_card.pci", "analog-output-headphones"), PORT_TYPE_HEADSET);
    assert_eq!(get_icon_port_type("alsa_card.pci", "hdmi-output-0"), PORT_TYPE_HDMI);
    assert_eq!(get_icon_port_type("bluez_card.00_11", "headset-output"), PORT_TYPE_HEADSET);
    assert_eq!(get_icon_port_type("bluez_card.00_11", "a2dp-output"), PORT_TYPE_BLUETOOTH);
    assert_eq!(get_icon_port_type("alsa_card.usb-Generic", "analog-output"), PORT_TYPE_USB);
    assert_eq!(get_icon_port_type("alsa_card.pci", "analog-output"), PORT_TYPE_UNKNOWN);
    // line in/out wins over every other group
    assert_eq!(get_icon_port_type("alsa_card.usb-Generic", "analog-output-lineout"), PORT_TYPE_LINE_IO);
}

#[test]
fn card_export_filters_disabled_ports() {
    let c = card(52, "alsa_card.pci");
    let full = card_to_export(&c, false);
    assert_eq!(full.id, 52);
    assert_eq!(full.name, "alsa_card.pci");
    assert_eq!(full.ports.len(), 3);
    assert_eq!(full.ports[0].port_type, PORT_TYPE_BUILTIN);
    assert_eq!(full.ports[1].port_type, PORT_TYPE_HEADSET);
    assert!(!full.ports[1].enabled);
    assert_eq!(full.ports[2].port_type, PORT_TYPE_HDMI);
    assert_eq!(full.ports[2].description, "hdmi-output-0 desc");
    let filtered = card_to_export(&c, true);
    let names: Vec<&str> = filtered.ports.iter().map(|p| p.name.as_str()).collect();
    assert_eq!(names, vec!["analog-output-speaker", "hdmi-output-0"]);
}

#[test]
fn cards_export_lists_every_card() {
    let mut dm = DeviceManager::new();
    assert!(dm.cards_export(false).is_empty());
    dm.add_card(1, card(1, "a"));
    dm.add_card(2, card(2, "b"));
    let mut ids: Vec<u32> = dm.cards_export(true).iter().map(|e| e.id).collect();
    ids.sort();
    assert_eq!(ids, vec![1, 2]);
    assert!(dm.cards_export(true).iter().all(|e| e.ports.len() == 2));
}

#[test]
fn card_port_info_select_profile() {
    let p = CardPortInfo {
        name: "x".to_owned(),
        enabled: true,
        bluetooth: false,
        description: String::new(),
        direction: 0,
        profiles: vec!["first".to_owned()],
    };
    assert_eq!(p.select_profile(), Some("first"));
}

#[test]
fn meter_volume_and_path() {
    let mut dm = DeviceManager::new();
    dm.add_sink(3, sink(3, "a", 0.75));
    assert_eq!(f64::from_bits(Meter::new(3, true).current_volume_bits(&dm)), 0.75);
    assert_eq!(f64::from_bits(Meter::new(4, true).current_volume_bits(&dm)), 0.0);
    assert_eq!(f64::from_bits(Meter::new(3, false).current_volume_bits(&dm)), 0.0);
    assert_eq!(Meter::path(3, true), "/org/deepin/dde/Audio2/MeterSink3");
    assert_eq!(Meter::path(120, false), "/org/deepin/dde/Audio2/MeterSource120");
}

#[test]
fn listings_share_card_order() {
    let mut dm = DeviceManager::new();
    for i in 0..6u32 {
        dm.add_card(i, card(i, &format!("card{i}")));
    }
    let full: Vec<u32> = dm.cards_export(false).iter().map(|e| e.id).collect();
    let filtered: Vec<u32> = dm.cards_export(true).iter().map(|e| e.id).collect();
    assert_eq!(full, filtered);
    assert!(dm.cards_export(false).iter().all(|e| e.ports.len() == 3));
}

#[test]
fn fill_tables_records_everything() {
    let mut dm = DeviceManager::new();
    dde_audio::manager::fill_tables(
        &mut dm,
        vec![card(3, "c3")],
        vec![sink(1, "out", 0.5), sink(2, "out2", 0.25)],
        vec![source(4, "mic")],
        vec![],
        Ok(("out".to_owned(), "mic".to_owned())),
    );
    assert_eq!(dm.get_card(3).unwrap().name, "c3");
    assert_eq!(dm.get_sink(2).unwrap().name, "out2");
    assert_eq!(dm.get_source(4).unwrap().name, "mic");
    assert_eq!(dm.default_sink.as_deref(), Some("out"));
    assert_eq!(dm.default_source.as_deref(), Some("mic"));

    let mut dm2 = DeviceManager::new();
    dde_audio::manager::fill_tables(&mut dm2, vec![], vec![sink(1, "a", 0.5), sink(1, "b", 0.5)], vec![], vec![], Err("no server".to_owned()));
    assert_eq!(dm2.get_sink(1).unwrap().name, "b");
    assert!(dm2.default_sink.is_none() && dm2.default_source.is_none());
}

#[test]
fn module_states_read_after_write() {
    let mut dm = DeviceManager::new();
    assert_eq!(dm.module_state("module-remap-sink"), ModuleState::Unloaded);
    dm.set_module_state("module-remap-sink", ModuleState::Loading { loaded_at_ms: 10 });
    dm.set_module_state("module-echo-cancel", ModuleState::Complete { module_index: 3 });
    assert_eq!(dm.module_state("module-remap-sink"), ModuleState::Loading { loaded_at_ms: 10 });
    dm.set_module_state("module-remap-sink", ModuleState::Complete { module_index: 7 });
    assert_eq!(dm.module_state("module-remap-sink"), ModuleState::Complete { module_index: 7 });
    assert_eq!(dm.module_state("module-echo-cancel"), ModuleState::Complete { module_index: 3 });
    dm.remove_module("module-remap-sink");
    assert_eq!(dm.module_state("module-remap-sink"), ModuleState::Unloaded);
    assert_eq!(dm.module_state("module-echo-cancel"), ModuleState::Complete { module_index: 3 });
    assert_eq!(ModuleState::default(), ModuleState::Unloaded);
}

#[test]
fn module_load_steps() {
    let mut dm = DeviceManager::new();
    assert!(!module_loaded(&dm, "module-null-sink"));
    let listed = vec![(Some("module-native-protocol-unix".to_owned()), 1), (None, 2)];
    assert_eq!(record_module_query(&mut dm, "module-null-sink", Ok(listed), 42), Ok(true));
    assert_eq!(dm.module_state("module-null-sink"), ModuleState::Loading { loaded_at_ms: 42 });
    assert!(!module_loaded(&dm, "module-null-sink"));
    assert_eq!(record_module_loaded(&mut dm, "module-null-sink", Err("refused".to_owned())), Err("refused".to_owned()));
    assert_eq!(dm.module_state("module-null-sink"), ModuleState::Loading { loaded_at_ms: 42 });
    assert_eq!(record_module_loaded(&mut dm, "module-null-sink", Ok(12)), Ok(()));
    assert!(module_loaded(&dm, "module-null-sink"));
    let listed = vec![
        (Some("module-remap-sink".to_owned()), 3),
        (None, 4),
        (Some("module-remap-sink".to_owned()), 5),
        (Some("module-null-sink".to_owned()), 6),
    ];
    assert_eq!(record_module_query(&mut dm, "module-remap-sink", Ok(listed), 0), Ok(false));
    assert_eq!(dm.module_state("module-remap-sink"), ModuleState::Complete { module_index: 5 });
    assert_eq!(record_module_query(&mut dm, "other", Err("down".to_owned()), 0), Err("down".to_owned()));
    assert_eq!(dm.module_state("other"), ModuleState::Unloaded);
}

#[test]
fn card_named_has_device_lookup() {
    let mut dm = DeviceManager::new();
    dm.add_card(1, card(1, "alsa_card.pci"));
    dm.add_card(2, card(2, "bluez_card"));
    dm.add_sink(10, sink(10, "out", 0.5));
    dm.add_source(20, source(20, "mic"));
    assert!(dm.card_named_has_device("alsa_card.pci", true));
    assert!(dm.card_named_has_device("alsa_card.pci", false));
    assert!(!dm.card_named_has_device("bluez_card", true));
    assert!(!dm.card_named_has_device("missing", true));
    dm.remove_sink(10);
    assert!(!dm.card_named_has_device("alsa_card.pci", true));
}

#[test]
fn sink_and_stream_lifecycle() {
    let mut dm = DeviceManager::new();
    assert!(dde_audio::manager::sink::new(&mut dm, 4, Ok(sink(4, "out", 0.5))).is_ok());
    assert_eq!(dm.get_sink(4).unwrap().name, "out");
    assert!(dde_audio::manager::sink::update(&mut dm, 4, Ok(sink(4, "out2", 0.5))).is_ok());
    assert_eq!(dm.get_sink(4).unwrap().name, "out2");
    assert_eq!(dde_audio::manager::sink::update(&mut dm, 4, Err("gone".to_owned())), Err("gone".to_owned()));
    assert_eq!(dm.get_sink(4).unwrap().name, "out2");
    dde_audio::manager::sink::delete(&mut dm, 4);
    assert!(dm.get_sink(4).is_none());
    assert_eq!(dde_audio::manager::sink::new(&mut dm, 5, Err("no".to_owned())), Err("no".to_owned()));
    assert!(dm.get_sink(5).is_none());

    let stream = SinkInputState {
        index: 9,
        name: "player".to_owned(),
        mute: false,
        volume_bits: 0.5f64.to_bits(),
        balance_bits: 0,
        support_balance: true,
        fade_bits: 0,
        support_fade: true,
    };
    assert!(dde_audio::manager::sink_input::new(&mut dm, 9, Ok(stream.clone())).is_ok());
    assert_eq!(dm.get_sink_input(9).unwrap().name, "player");
    assert!(dde_audio::manager::sink_input::update(&mut dm, 9, Ok(stream)).is_ok());
    dde_audio::manager::sink_input::delete(&mut dm, 9);
    assert!(dm.get_sink_input(9).is_none());
}

#[test]
fn last_module_of_a_name_wins() {
    let listed = vec![
        (Some("module-echo-cancel".to_owned()), 10),
        (Some("module-remap-sink".to_owned()), 11),
        (None, 12),
        (Some("module-echo-cancel".to_owned()), 13),
    ];
    assert_eq!(last_module_index(&listed, "module-echo-cancel"), Some(13));
    assert_eq!(last_module_index(&listed, "module-remap-sink"), Some(11));
    assert_eq!(last_module_index(&listed, "module-null-sink"), None);
    assert_eq!(last_module_index(&vec![], "x"), None);
    assert_eq!(find_module_index(Ok(listed), "module-remap-sink"), Ok(Some(11)));
    assert_eq!(find_module_index(Err("down".to_owned()), "m"), Err("down".to_owned()));
}

#[test]
fn meters_are_reused_and_dropped_with_their_device() {
    let mut dm = DeviceManager::new();
    dm.add_sink(3, sink(3, "out", 0.5));
    let (path, create) = meter_request(&dm, 3, true);
    assert_eq!(path, "/org/deepin/dde/Audio2/MeterSink3");
    assert!(create);
    dm.add_meter(3, true);
    assert!(dm.has_meter(3, true));
    assert!(!dm.has_meter(3, false));
    let (_, again) = meter_request(&dm, 3, true);
    assert!(!again);
    assert!(dde_audio::manager::sink::delete(&mut dm, 3));
    assert!(!dm.has_meter(3, true));
    assert!(!dde_audio::manager::sink::delete(&mut dm, 3));
    dm.add_meter(7, false);
    assert!(dm.remove_meter(7, false));
    assert!(!dm.remove_meter(7, false));
}

#[test]
fn icon_type_of_ascii_names_ignores_case() {
    assert_eq!(get_icon_port_type("ALSA_card.USB-Audio", "Analog-Output-SPEAKER"), PORT_TYPE_BUILTIN);
    assert_eq!(get_icon_port_type("alsa_card.pci", "HDMI-output-0"), PORT_TYPE_HDMI);
    assert_eq!(get_icon_port_type("Bluez_Card.00_11", "headset-output"), PORT_TYPE_HEADSET);
    assert_eq!(get_icon_port_type("card", "LineOut"), PORT_TYPE_LINE_IO);
}

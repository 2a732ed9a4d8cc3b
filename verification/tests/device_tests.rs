use cloak_core::{
    assemble_devices, find_device_index_by_id, resolve_device, DeviceChoice, Direction,
    RawDeviceEntry, SpeakerInput,
};

fn entry(id: Option<&str>, name: Option<&str>) -> RawDeviceEntry {
    RawDeviceEntry {
        id: id.map(|s| s.to_string()),
        name: name.map(|s| s.to_string()),
    }
}

#[test]
fn assemble_keeps_given_names_and_ids() {
    let entries = vec![entry(Some("dev-a"), Some("Headset"))];
    let devices = assemble_devices(&entries, &Some("dev-a".to_string()), Direction::Capture);
    assert_eq!(devices.len(), 1);
    assert_eq!(devices[0].id, "dev-a");
    assert_eq!(devices[0].name, "Headset");
    assert!(devices[0].is_default);
}

#[test]
fn assemble_synthesizes_capture_placeholders() {
    let entries = vec![entry(None, None), entry(None, None)];
    let devices = assemble_devices(&entries, &None, Direction::Capture);
    assert_eq!(devices[0].name, "Microphone 0");
    assert_eq!(devices[0].id, "windows_input_0");
    assert_eq!(devices[1].name, "Microphone 1");
    assert_eq!(devices[1].id, "windows_input_1");
    assert!(!devices[0].is_default);
    assert!(!devices[1].is_default);
}

#[test]
fn assemble_synthesizes_render_placeholders() {
    let entries = vec![entry(None, None)];
    let devices = assemble_devices(&entries, &None, Direction::Render);
    assert_eq!(devices[0].name, "Speaker 0");
    assert_eq!(devices[0].id, "windows_output_0");
}

#[test]
fn assemble_marks_default_by_exact_id() {
    let entries = vec![
        entry(Some("one"), Some("One")),
        entry(Some("two"), Some("Two")),
        entry(Some("three"), Some("Three")),
    ];
    let devices = assemble_devices(&entries, &Some("two".to_string()), Direction::Render);
    assert!(!devices[0].is_default);
    assert!(devices[1].is_default);
    assert!(!devices[2].is_default);
}

#[test]
fn find_matches_first_exact_id() {
    let entries = vec![
        entry(Some("a"), None),
        entry(Some("b"), None),
        entry(Some("b"), None),
    ];
    assert_eq!(find_device_index_by_id(&entries, "b"), Some(1));
    assert_eq!(find_device_index_by_id(&entries, "c"), None);
}

#[test]
fn resolution_without_request_uses_default() {
    let entries = vec![entry(Some("a"), None)];
    assert!(matches!(resolve_device(&entries, &None), DeviceChoice::SystemDefault));
}

#[test]
fn resolution_of_known_id_picks_that_device() {
    let entries = vec![entry(Some("a"), None), entry(Some("b"), None)];
    match resolve_device(&entries, &Some("b".to_string())) {
        DeviceChoice::ByIndex(i) => assert_eq!(i, 1),
        DeviceChoice::SystemDefault => panic!("known id must resolve to its entry"),
    }
}

#[test]
fn resolution_of_nonexistent_id_falls_back_to_default() {
    // A disappeared or stale device id degrades gracefully to the system
    // default instead of failing the stream start.
    let entries = vec![
        entry(Some("a"), None),
        entry(Some("b"), None),
        entry(Some("c"), None),
    ];
    assert!(matches!(
        resolve_device(&entries, &Some("gone-device".to_string())),
        DeviceChoice::SystemDefault
    ));
}

#[test]
fn session_keeps_specific_device_id() {
    let input = SpeakerInput::new(Some("dev-7".to_string())).unwrap();
    assert_eq!(input.device_id, Some("dev-7".to_string()));
}

#[test]
fn session_normalizes_default_requests() {
    assert_eq!(SpeakerInput::new(None).unwrap().device_id, None);
    assert_eq!(SpeakerInput::new(Some(String::new())).unwrap().device_id, None);
    assert_eq!(SpeakerInput::new(Some("default".to_string())).unwrap().device_id, None);
}

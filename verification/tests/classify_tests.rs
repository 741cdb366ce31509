use rustblue::device::BluetoothDevice;

fn classify(ids: &[&str]) -> String {
    let uuids: Vec<String> = ids.iter().map(|s| s.to_string()).collect();
    BluetoothDevice::determine_device_type(&uuids)
}

#[test]
fn audio_marker_classifies_as_audio() {
    assert_eq!(classify(&["1108"]), "Audio Device");
    assert_eq!(classify(&["110b"]), "Audio Device");
    assert_eq!(classify(&["110d"]), "Audio Device");
}

#[test]
fn empty_set_classifies_as_unknown() {
    assert_eq!(classify(&[]), "Unknown Device");
}

#[test]
fn marker_inside_full_identifier_is_found() {
    assert_eq!(classify(&["0000110b-0000-1000-8000-00805f9b34fb"]), "Audio Device");
    assert_eq!(classify(&["00001124-0000-1000-8000-00805f9b34fb"]), "Input Device");
}

#[test]
fn input_network_and_file_transfer_groups() {
    assert_eq!(classify(&["1124"]), "Input Device");
    assert_eq!(classify(&["1115"]), "Network Device");
    assert_eq!(classify(&["1116"]), "Network Device");
    assert_eq!(classify(&["1105"]), "File Transfer");
    assert_eq!(classify(&["1106"]), "File Transfer");
}

#[test]
fn unmatched_identifiers_classify_as_unknown() {
    assert_eq!(classify(&["180f", "1800"]), "Unknown Device");
}

#[test]
fn audio_wins_over_later_groups_in_any_order() {
    assert_eq!(classify(&["1124", "1108"]), "Audio Device");
    assert_eq!(classify(&["1108", "1124"]), "Audio Device");
    assert_eq!(classify(&["1105", "1115", "110d"]), "Audio Device");
}

#[test]
fn input_wins_over_network_and_file_transfer() {
    assert_eq!(classify(&["1115", "1124"]), "Input Device");
    assert_eq!(classify(&["1106", "1124", "1116"]), "Input Device");
}

#[test]
fn classification_is_order_independent() {
    let a = classify(&["1105", "1116", "180f"]);
    let b = classify(&["180f", "1105", "1116"]);
    let c = classify(&["1116", "180f", "1105"]);
    assert_eq!(a, b);
    assert_eq!(b, c);
    assert_eq!(a, "Network Device");
}

#[test]
fn update_device_type_recomputes_from_uuids() {
    let mut d = BluetoothDevice::new_test("headset", "AA:BB:CC:DD:EE:FF", false);
    assert_eq!(d.device_type(), "Test Device");
    d.uuids = vec!["1108".to_string()];
    d.update_device_type();
    assert_eq!(d.device_type(), "Audio Device");
    d.uuids = vec![];
    d.update_device_type();
    assert_eq!(d.device_type(), "Unknown Device");
}

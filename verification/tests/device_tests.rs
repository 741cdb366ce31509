use rustblue::adapter::{Adapter, DeviceFetch, DeviceProps};
use rustblue::address::DeviceAddress;
use rustblue::device::BluetoothDevice;

fn addr(octets: [u8; 6]) -> DeviceAddress {
    DeviceAddress { octets }
}

fn props(name: Option<&str>, uuids: &[&str]) -> DeviceProps {
    DeviceProps {
        name: name.map(|s| s.to_string()),
        connected: false,
        paired: false,
        trusted: false,
        rssi: None,
        uuids: uuids.iter().map(|s| s.to_string()).collect(),
    }
}

#[test]
fn new_record_uses_reported_name() {
    let d = BluetoothDevice::new(addr([1, 2, 3, 4, 5, 6]), Some("Keyboard".to_string()));
    assert_eq!(d.address(), "01:02:03:04:05:06");
    assert_eq!(d.name(), "Keyboard");
    assert_eq!(d.device_type(), "Unknown Device");
    assert!(!d.is_connected());
    assert!(!d.is_paired());
    assert!(!d.is_trusted());
    assert_eq!(d.rssi(), None);
    assert!(d.uuids.is_empty());
}

#[test]
fn new_record_falls_back_to_placeholder_name() {
    let d = BluetoothDevice::new(addr([1, 2, 3, 4, 5, 6]), None);
    assert_eq!(d.name(), "Unknown Device");
}

#[test]
fn test_record_has_fixed_shape() {
    let d = BluetoothDevice::new_test("Speaker", "AA:BB:CC:DD:EE:FF", true);
    assert_eq!(d.name(), "Speaker");
    assert_eq!(d.address(), "AA:BB:CC:DD:EE:FF");
    assert_eq!(d.device_type(), "Test Device");
    assert!(d.is_connected());
    assert!(!d.is_paired());
    assert_eq!(d.rssi(), Some(-50));
}

#[test]
fn setters_flip_exactly_one_flag() {
    let mut d = BluetoothDevice::new_test("Speaker", "AA:BB:CC:DD:EE:FF", false);
    d.set_connected(true);
    assert!(d.is_connected() && !d.is_paired() && !d.is_trusted());
    d.set_paired(true);
    assert!(d.is_connected() && d.is_paired() && !d.is_trusted());
    d.set_trusted(true);
    assert!(d.is_connected() && d.is_paired() && d.is_trusted());
    d.set_connected(false);
    assert!(!d.is_connected() && d.is_paired() && d.is_trusted());
}

#[test]
fn adapter_keeps_its_name() {
    let a = Adapter::new("hci0".to_string());
    assert_eq!(a.name(), "hci0");
}

#[test]
fn failed_fetch_is_skipped_not_fatal() {
    // The system reports addresses [A, B]; B's property fetch fails.
    let fetches = vec![
        DeviceFetch {
            address: addr([0xAA, 0, 0, 0, 0, 1]),
            props: Some(props(Some("Mouse"), &["1124"])),
        },
        DeviceFetch { address: addr([0xBB, 0, 0, 0, 0, 2]), props: None },
    ];
    let adapter = Adapter::new("hci0".to_string());
    let devs = adapter.get_devices(fetches);
    assert_eq!(devs.len(), 1);
    assert_eq!(devs[0].address(), "AA:00:00:00:00:01");
    assert_eq!(devs[0].name(), "Mouse");
    assert_eq!(devs[0].device_type(), "Input Device");
}

#[test]
fn snapshot_keeps_enumeration_order_and_fills_fields() {
    let mut p1 = props(None, &["110d"]);
    p1.connected = true;
    p1.rssi = Some(-42);
    let p2 = props(Some("Laptop"), &[]);
    let fetches = vec![
        DeviceFetch { address: addr([1, 1, 1, 1, 1, 1]), props: Some(p1) },
        DeviceFetch { address: addr([2, 2, 2, 2, 2, 2]), props: Some(p2) },
    ];
    let adapter = Adapter::new("hci0".to_string());
    let devs = adapter.get_devices(fetches);
    assert_eq!(devs.len(), 2);
    assert_eq!(devs[0].address(), "01:01:01:01:01:01");
    assert_eq!(devs[0].name(), "Unknown Device");
    assert_eq!(devs[0].device_type(), "Audio Device");
    assert!(devs[0].is_connected());
    assert_eq!(devs[0].rssi(), Some(-42));
    assert_eq!(devs[1].address(), "02:02:02:02:02:02");
    assert_eq!(devs[1].name(), "Laptop");
    assert_eq!(devs[1].device_type(), "Unknown Device");
    assert_eq!(devs[1].rssi(), None);
}

#[test]
fn all_fetches_failing_gives_empty_snapshot() {
    let fetches = vec![
        DeviceFetch { address: addr([1, 0, 0, 0, 0, 0]), props: None },
        DeviceFetch { address: addr([2, 0, 0, 0, 0, 0]), props: None },
    ];
    let adapter = Adapter::new("hci0".to_string());
    assert!(adapter.get_devices(fetches).is_empty());
}

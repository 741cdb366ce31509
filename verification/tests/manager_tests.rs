use rustblue::adapter::{DeviceFetch, DeviceProps};
use rustblue::address::DeviceAddress;
use rustblue::errors::BluetoothError;
use rustblue::manager::{
    AdapterAction, AdapterProbe, BluetoothManager, DeviceAction,
};

fn probe(name: &str, wrapped: bool) -> AdapterProbe {
    AdapterProbe { name: name.to_string(), wrapped }
}

#[test]
fn fresh_manager_has_no_adapters_and_no_default() {
    let m = BluetoothManager::new();
    assert!(m.list_adapters().is_empty());
    assert!(m.get_default_adapter().is_none());
}

#[test]
fn single_adapter_discovery_elects_it_default() {
    // The system reports ["hci0"] and it wraps successfully.
    let mut m = BluetoothManager::new();
    m.discover_adapters(vec![probe("hci0", true)]);
    assert_eq!(m.list_adapters(), vec!["hci0".to_string()]);
    let d = m.get_default_adapter().expect("default adapter");
    assert_eq!(d.name(), "hci0");
}

#[test]
fn failed_wraps_are_skipped_but_do_not_block_discovery() {
    // Three adapters reported, one fails to wrap: exactly two entries,
    // and the default is one of them.
    let mut m = BluetoothManager::new();
    m.discover_adapters(vec![
        probe("hci0", false),
        probe("hci1", true),
        probe("hci2", true),
    ]);
    let names = m.list_adapters();
    assert_eq!(names, vec!["hci1".to_string(), "hci2".to_string()]);
    let d = m.get_default_adapter().expect("default adapter");
    assert!(names.contains(&d.name().to_string()));
    assert_eq!(d.name(), "hci1");
}

#[test]
fn rediscovery_replaces_stale_entries() {
    let mut m = BluetoothManager::new();
    m.discover_adapters(vec![probe("hci0", true), probe("hci1", true)]);
    assert_eq!(m.list_adapters(), vec!["hci0".to_string(), "hci1".to_string()]);
    m.discover_adapters(vec![probe("hci1", true), probe("hci2", true)]);
    assert_eq!(m.list_adapters(), vec!["hci1".to_string(), "hci2".to_string()]);
    assert!(m.get_adapter("hci0").is_none());
    assert!(m.get_adapter("hci1").is_some());
    assert!(m.get_adapter("hci2").is_some());
}

#[test]
fn default_sticks_while_it_survives_rediscovery() {
    let mut m = BluetoothManager::new();
    m.discover_adapters(vec![probe("hci0", true)]);
    m.discover_adapters(vec![probe("hci1", true), probe("hci0", true)]);
    assert_eq!(m.get_default_adapter().unwrap().name(), "hci0");
}

#[test]
fn vanished_default_is_replaced_by_first_survivor() {
    let mut m = BluetoothManager::new();
    m.discover_adapters(vec![probe("hci0", true)]);
    m.discover_adapters(vec![probe("hci1", true), probe("hci2", true)]);
    assert_eq!(m.get_default_adapter().unwrap().name(), "hci1");
}

#[test]
fn empty_discovery_pass_clears_everything() {
    let mut m = BluetoothManager::new();
    m.discover_adapters(vec![probe("hci0", true)]);
    assert!(m.get_default_adapter().is_some());
    m.discover_adapters(vec![]);
    assert!(m.list_adapters().is_empty());
    assert!(m.get_default_adapter().is_none());
}

#[test]
fn discovery_pass_with_only_failures_leaves_no_default() {
    let mut m = BluetoothManager::new();
    m.discover_adapters(vec![probe("hci0", false)]);
    assert!(m.list_adapters().is_empty());
    assert!(m.get_default_adapter().is_none());
}

#[test]
fn invalid_address_beats_everything_else() {
    // Rejected before any system call, with or without a default.
    let mut m = BluetoothManager::new();
    assert_eq!(
        m.connect_device("invalid-address"),
        Err(BluetoothError::InvalidAddress)
    );
    m.discover_adapters(vec![probe("hci0", true)]);
    assert_eq!(
        m.connect_device("invalid-address"),
        Err(BluetoothError::InvalidAddress)
    );
}

#[test]
fn device_commands_need_a_default_adapter() {
    let m = BluetoothManager::new();
    assert_eq!(
        m.connect_device("AA:BB:CC:DD:EE:FF"),
        Err(BluetoothError::NoDefaultAdapter)
    );
    assert_eq!(
        m.pair_device("AA:BB:CC:DD:EE:FF"),
        Err(BluetoothError::NoDefaultAdapter)
    );
}

#[test]
fn device_commands_resolve_adapter_address_and_action() {
    let mut m = BluetoothManager::new();
    m.discover_adapters(vec![probe("hci0", true)]);
    let c = m.connect_device("aa:bb:cc:dd:ee:ff").unwrap();
    assert_eq!(c.adapter, "hci0");
    assert_eq!(c.address.octets, [0xAA, 0xBB, 0xCC, 0xDD, 0xEE, 0xFF]);
    assert_eq!(c.action, DeviceAction::Connect);
    assert_eq!(
        m.disconnect_device("AA:BB:CC:DD:EE:FF").unwrap().action,
        DeviceAction::Disconnect
    );
    assert_eq!(m.pair_device("AA:BB:CC:DD:EE:FF").unwrap().action, DeviceAction::Pair);
    assert_eq!(
        m.remove_device("AA:BB:CC:DD:EE:FF").unwrap().action,
        DeviceAction::Remove
    );
}

#[test]
fn adapter_commands_resolve_the_default() {
    let mut m = BluetoothManager::new();
    assert!(m.start_discovery().is_none());
    assert!(m.stop_discovery().is_none());
    assert_eq!(m.set_adapter_powered(true), Err(BluetoothError::NoDefaultAdapter));
    assert_eq!(
        m.set_adapter_discoverable(false),
        Err(BluetoothError::NoDefaultAdapter)
    );
    m.discover_adapters(vec![probe("hci0", true)]);
    let start = m.start_discovery().unwrap();
    assert_eq!(start.adapter, "hci0");
    assert_eq!(start.action, AdapterAction::StartDiscovery);
    let stop = m.stop_discovery().unwrap();
    assert_eq!(stop.action, AdapterAction::StopDiscovery);
    let on = m.set_adapter_powered(true).unwrap();
    assert_eq!(on.adapter, "hci0");
    assert_eq!(on.action, AdapterAction::SetPowered(true));
    let vis = m.set_adapter_discoverable(true).unwrap();
    assert_eq!(vis.action, AdapterAction::SetDiscoverable(true));
}

#[test]
fn manager_snapshot_needs_a_default_and_assembles_with_one() {
    let fetch = DeviceFetch {
        address: DeviceAddress { octets: [1, 2, 3, 4, 5, 6] },
        props: Some(DeviceProps {
            name: Some("Phone".to_string()),
            connected: true,
            paired: true,
            trusted: false,
            rssi: Some(-30),
            uuids: vec![],
        }),
    };
    let mut m = BluetoothManager::new();
    assert!(matches!(
        m.get_devices(vec![fetch.clone()]),
        Err(BluetoothError::NoDefaultAdapter)
    ));
    m.discover_adapters(vec![probe("hci0", true)]);
    let devs = m.get_devices(vec![fetch]).unwrap();
    assert_eq!(devs.len(), 1);
    assert_eq!(devs[0].name(), "Phone");
    assert_eq!(devs[0].address(), "01:02:03:04:05:06");
    assert!(devs[0].is_paired());
}

#[test]
fn get_adapter_looks_up_by_name() {
    let mut m = BluetoothManager::new();
    m.discover_adapters(vec![probe("hci0", true), probe("hci1", true)]);
    assert_eq!(m.get_adapter("hci1").unwrap().name(), "hci1");
    assert!(m.get_adapter("hci9").is_none());
}

//! Device records: value snapshots of one discovered or known peer.

use vstd::prelude::*;

use crate::address::{address_chars, DeviceAddress};
use crate::classify::{
    category_of, contains_marker, is_audio_marker, is_file_transfer_marker, is_input_marker,
    is_network_marker,
};

verus! {

/// The mathematical content of one device record.
pub ghost struct DeviceView {
    pub address: Seq<char>,
    pub name: Seq<char>,
    pub device_type: Seq<char>,
    pub connected: bool,
    pub paired: bool,
    pub trusted: bool,
    pub rssi: Option<i16>,
    pub uuids: Seq<Seq<char>>,
}

/// One entry per known or discovered peer: an immutable snapshot of the
/// peer's attributes at query time, keyed by its canonical address.
#[derive(Debug, Clone)]
pub struct BluetoothDevice {
    /// Canonical hardware address string, the record's primary key.
    pub address: String,
    /// Best-known human-readable name; "Unknown Device" when the system
    /// reports none.
    pub name: String,
    /// Category derived from `uuids`; recomputed whenever they change.
    pub device_type: String,
    pub connected: bool,
    pub paired: bool,
    pub trusted: bool,
    /// Signal strength, present only while actively observed.
    pub rssi: Option<i16>,
    /// Advertised service identifiers; empty until services resolve.
    pub uuids: Vec<String>,
}

impl View for BluetoothDevice {
    type V = DeviceView;

    open spec fn view(&self) -> DeviceView {
        DeviceView {
            address: self.address@,
            name: self.name@,
            device_type: self.device_type@,
            connected: self.connected,
            paired: self.paired,
            trusted: self.trusted,
            rssi: self.rssi,
            uuids: self.uuids.deep_view(),
        }
    }
}

impl BluetoothDevice {
    /// A fresh record for a peer at `address`, with the placeholder name
    /// when the system reports none, no state flags and no services.
    pub fn new(address: DeviceAddress, name: Option<String>) -> (r: BluetoothDevice)
        ensures
            r@.address == address_chars(address.octets@),
            r@.name == match name {
                Some(n) => n@,
                None => "Unknown Device"@,
            },
            r@.device_type == "Unknown Device"@,
            !r@.connected,
            !r@.paired,
            !r@.trusted,
            r@.rssi is None,
            r@.uuids.len() == 0,
    {
        let display_name = match name {
            Some(n) => n,
            None => String::from_str("Unknown Device"),
        };
        let r = BluetoothDevice {
            address: address.canonical_string(),
            name: display_name,
            device_type: String::from_str("Unknown Device"),
            connected: false,
            paired: false,
            trusted: false,
            rssi: None,
            uuids: Vec::new(),
        };
        proof {
            assert(r@.uuids =~= Seq::<Seq<char>>::empty());
        }
        r
    }

    /// A fixed record for exercising callers without a system service.
    pub fn new_test(name: &str, address: &str, connected: bool) -> (r: BluetoothDevice)
        ensures
            r@.address == address@,
            r@.name == name@,
            r@.device_type == "Test Device"@,
            r@.connected == connected,
            !r@.paired,
            !r@.trusted,
            r@.rssi == Some(-50i16),
            r@.uuids.len() == 0,
    {
        let r = BluetoothDevice {
            address: String::from_str(address),
            name: String::from_str(name),
            device_type: String::from_str("Test Device"),
            connected,
            paired: false,
            trusted: false,
            rssi: Some(-50),
            uuids: Vec::new(),
        };
        proof {
            assert(r@.uuids =~= Seq::<Seq<char>>::empty());
        }
        r
    }

    /// Recompute the category from the current service identifiers;
    /// nothing else changes.
    pub fn update_device_type(&mut self)
        ensures
            final(self)@ == (DeviceView { device_type: category_of(old(self)@.uuids), ..old(self)@ }),
    {
        self.device_type = Self::determine_device_type(&self.uuids);
    }

    /// The category for a list of advertised service identifiers: the
    /// first group, in the order audio, input, network, file transfer,
    /// with a marker among them, or "Unknown Device" if none has one.
    pub fn determine_device_type(uuids: &Vec<String>) -> (r: String)
        ensures
            r@ == category_of(uuids.deep_view()),
    {
        let ghost dv = uuids.deep_view();
        let mut audio = false;
        let mut input = false;
        let mut network = false;
        let mut transfer = false;
        let n: usize = uuids.len();
        let mut idx: usize = 0;
        while idx < n
            invariant
                idx <= n,
                n == uuids@.len(),
                dv == uuids.deep_view(),
                dv.len() == n,
                audio == exists|t: int| 0 <= t < idx && is_audio_marker(#[trigger] dv[t]),
                input == exists|t: int| 0 <= t < idx && is_input_marker(#[trigger] dv[t]),
                network == exists|t: int| 0 <= t < idx && is_network_marker(#[trigger] dv[t]),
                transfer == exists|t: int| 0 <= t < idx && is_file_transfer_marker(
                    #[trigger] dv[t],
                ),
            decreases n - idx,
        {
            let u = &uuids[idx];
            proof {
                assert(dv[idx as int] == uuids@[idx as int]@);
            }
            let in_audio = contains_marker(u.as_str(), "1108") || contains_marker(
                u.as_str(),
                "110b",
            ) || contains_marker(u.as_str(), "110d");
            let in_input = contains_marker(u.as_str(), "1124");
            let in_network = contains_marker(u.as_str(), "1115") || contains_marker(
                u.as_str(),
                "1116",
            );
            let in_transfer = contains_marker(u.as_str(), "1105") || contains_marker(
                u.as_str(),
                "1106",
            );
            audio = audio || in_audio;
            input = input || in_input;
            network = network || in_network;
            transfer = transfer || in_transfer;
            idx += 1;
        }
        if audio {
            String::from_str("Audio Device")
        } else if input {
            String::from_str("Input Device")
        } else if network {
            String::from_str("Network Device")
        } else if transfer {
            String::from_str("File Transfer")
        } else {
            String::from_str("Unknown Device")
        }
    }

    /// The canonical address string.
    pub fn address(&self) -> (r: String)
        ensures
            r@ == self@.address,
    {
        self.address.clone()
    }

    /// The display name.
    pub fn name(&self) -> (r: String)
        ensures
            r@ == self@.name,
    {
        self.name.clone()
    }

    /// The derived category.
    pub fn device_type(&self) -> (r: String)
        ensures
            r@ == self@.device_type,
    {
        self.device_type.clone()
    }

    pub fn is_connected(&self) -> (r: bool)
        ensures
            r == self@.connected,
    {
        self.connected
    }

    pub fn is_paired(&self) -> (r: bool)
        ensures
            r == self@.paired,
    {
        self.paired
    }

    pub fn is_trusted(&self) -> (r: bool)
        ensures
            r == self@.trusted,
    {
        self.trusted
    }

    pub fn rssi(&self) -> (r: Option<i16>)
        ensures
            r == self@.rssi,
    {
        self.rssi
    }

    pub fn set_connected(&mut self, connected: bool)
        ensures
            final(self)@ == (DeviceView { connected, ..old(self)@ }),
    {
        self.connected = connected;
    }

    pub fn set_paired(&mut self, paired: bool)
        ensures
            final(self)@ == (DeviceView { paired, ..old(self)@ }),
    {
        self.paired = paired;
    }

    pub fn set_trusted(&mut self, trusted: bool)
        ensures
            final(self)@ == (DeviceView { trusted, ..old(self)@ }),
    {
        self.trusted = trusted;
    }
}

} // verus!

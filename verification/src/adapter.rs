//! Adapter handles and device-list snapshots.
//!
//! An adapter handle stands for one controller exposed by the system.
//! Enumerating its devices is a two-step affair: the system service is
//! asked for every known address and then, per address, for the device's
//! properties; a per-device failure yields no properties for that address.
//! Building the snapshot from those per-address results is this module's
//! verified logic: failed addresses are skipped, never aborting the whole
//! enumeration, and every successful one yields exactly one record.

use vstd::prelude::*;

use crate::address::{address_chars, DeviceAddress};
use crate::classify::category_of;
use crate::device::{BluetoothDevice, DeviceView};

verus! {

/// One controller exposed by the system, identified by its
/// system-assigned name. Live state is never cached here; every query
/// goes back to the system service.
#[derive(Debug, Clone)]
pub struct Adapter {
    name: String,
}

impl View for Adapter {
    type V = Seq<char>;

    closed spec fn view(&self) -> Seq<char> {
        self.name@
    }
}

impl DeepView for Adapter {
    type V = Seq<char>;

    open spec fn deep_view(&self) -> Seq<char> {
        self.view()
    }
}

/// The properties the system service reports for one device.
#[derive(Debug, Clone)]
pub struct DeviceProps {
    /// The reported name, if the system knows one.
    pub name: Option<String>,
    pub connected: bool,
    pub paired: bool,
    pub trusted: bool,
    pub rssi: Option<i16>,
    /// Advertised service identifiers.
    pub uuids: Vec<String>,
}

/// The outcome of querying one address during an enumeration pass:
/// the properties, or `None` when the per-device query failed.
#[derive(Debug, Clone)]
pub struct DeviceFetch {
    pub address: DeviceAddress,
    pub props: Option<DeviceProps>,
}

/// The record a successful fetch yields.
pub open spec fn record_of(f: DeviceFetch) -> DeviceView {
    let p = f.props->0;
    DeviceView {
        address: address_chars(f.address.octets@),
        name: match p.name {
            Some(n) => n@,
            None => "Unknown Device"@,
        },
        device_type: category_of(p.uuids.deep_view()),
        connected: p.connected,
        paired: p.paired,
        trusted: p.trusted,
        rssi: p.rssi,
        uuids: p.uuids.deep_view(),
    }
}

/// The snapshot a sequence of per-address fetches yields: one record per
/// successful fetch, in enumeration order; failed fetches are skipped.
pub open spec fn snapshot_of(fs: Seq<DeviceFetch>) -> Seq<DeviceView>
    decreases fs.len(),
{
    if fs.len() == 0 {
        Seq::empty()
    } else {
        let rest = snapshot_of(fs.drop_last());
        if fs.last().props is Some {
            rest.push(record_of(fs.last()))
        } else {
            rest
        }
    }
}

impl Adapter {
    /// Wrap the controller with the given system-assigned name.
    pub fn new(name: String) -> (a: Adapter)
        ensures
            a@ == name@,
    {
        Adapter { name }
    }

    /// The system-assigned controller name.
    pub fn name(&self) -> (r: &str)
        ensures
            r@ == self@,
    {
        self.name.as_str()
    }

    /// Build the device snapshot from one enumeration pass. Every
    /// address whose property query succeeded yields exactly one record,
    /// in enumeration order; a failed address is skipped and never
    /// aborts the enumeration.
    pub fn get_devices(&self, fetches: Vec<DeviceFetch>) -> (devs: Vec<BluetoothDevice>)
        ensures
            devs@.len() == snapshot_of(fetches@).len(),
            forall|i: int| 0 <= i < devs@.len() ==> #[trigger] devs@[i]@ == snapshot_of(
                fetches@,
            )[i],
    {
        let mut devs: Vec<BluetoothDevice> = Vec::new();
        let n: usize = fetches.len();
        let mut i: usize = 0;
        while i < n
            invariant
                i <= n,
                n == fetches@.len(),
                devs@.len() == snapshot_of(fetches@.take(i as int)).len(),
                forall|k: int| 0 <= k < devs@.len() ==> #[trigger] devs@[k]@ == snapshot_of(
                    fetches@.take(i as int),
                )[k],
            decreases n - i,
        {
            let fetch = &fetches[i];
            match &fetch.props {
                Some(p) => {
                    let display_name = match &p.name {
                        Some(n) => n.clone(),
                        None => String::from_str("Unknown Device"),
                    };
                    let mut d = BluetoothDevice {
                        address: fetch.address.canonical_string(),
                        name: display_name,
                        device_type: String::from_str("Unknown"),
                        connected: p.connected,
                        paired: p.paired,
                        trusted: p.trusted,
                        rssi: p.rssi,
                        uuids: p.uuids.clone(),
                    };
                    d.update_device_type();
                    proof {
                        assert(d.uuids.deep_view() =~= p.uuids.deep_view());
                        assert(d@ == record_of(fetches@[i as int]));
                    }
                    devs.push(d);
                },
                None => {},
            }
            proof {
                assert(fetches@.take(i + 1).drop_last() =~= fetches@.take(i as int));
                assert(fetches@.take(i + 1).last() == fetches@[i as int]);
            }
            i += 1;
        }
        proof {
            assert(fetches@.take(n as int) =~= fetches@);
        }
        devs
    }
}

} // verus!

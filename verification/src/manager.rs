//! The Bluetooth manager: the set of known adapters and the default.
//!
//! The manager owns one handle per controller reported by the system and
//! elects a default; every device or adapter operation resolves the
//! default first. Talking to the system service is the caller's affair:
//! an adapter-discovery pass hands the manager the per-name wrap
//! outcomes, and the command operations hand back which adapter to drive
//! and what to do, or the error that forbids it.

use vstd::prelude::*;

use crate::adapter::{snapshot_of, Adapter, DeviceFetch};
use crate::address::{parsed_octets, valid_address_chars, DeviceAddress};
use crate::device::BluetoothDevice;
use crate::errors::BluetoothError;

verus! {

/// The outcome of trying to wrap one controller during a discovery
/// pass: the system-reported name, and whether wrapping succeeded.
#[derive(Debug, Clone)]
pub struct AdapterProbe {
    pub name: String,
    pub wrapped: bool,
}

/// A per-device action for the system service.
#[derive(Debug, Clone, Copy, PartialEq, Eq, Structural)]
pub enum DeviceAction {
    Connect,
    Disconnect,
    Pair,
    Remove,
}

/// A fully resolved device operation: which adapter to drive, the
/// parsed peer address, and what to do.
#[derive(Debug, Clone, PartialEq, Eq)]
pub struct DeviceCommand {
    pub adapter: String,
    pub address: DeviceAddress,
    pub action: DeviceAction,
}

/// A per-adapter action for the system service.
#[derive(Debug, Clone, Copy, PartialEq, Eq, Structural)]
pub enum AdapterAction {
    StartDiscovery,
    StopDiscovery,
    SetPowered(bool),
    SetDiscoverable(bool),
}

/// A fully resolved adapter operation.
#[derive(Debug, Clone, PartialEq, Eq)]
pub struct AdapterCommand {
    pub adapter: String,
    pub action: AdapterAction,
}

/// The mathematical content of the manager: the adapter names, in
/// discovery order, and the elected default.
pub ghost struct ManagerView {
    pub adapters: Seq<Seq<char>>,
    pub default_adapter: Option<Seq<char>>,
}

/// No two entries are the same name.
pub open spec fn distinct_names(s: Seq<Seq<char>>) -> bool {
    forall|i: int, j: int| 0 <= i < j < s.len() ==> s[i] != s[j]
}

/// The probes carry pairwise distinct names, as system-assigned
/// controller names are.
pub open spec fn probe_names_distinct(probes: Seq<AdapterProbe>) -> bool {
    forall|i: int, j: int|
        0 <= i < j < probes.len() ==> (#[trigger] probes[i].name@) != (#[trigger] probes[j].name@)
}

/// The names of the probes that wrapped successfully, in order.
pub open spec fn surviving_names(probes: Seq<AdapterProbe>) -> Seq<Seq<char>>
    decreases probes.len(),
{
    if probes.len() == 0 {
        Seq::empty()
    } else {
        let rest = surviving_names(probes.drop_last());
        if probes.last().wrapped {
            rest.push(probes.last().name@)
        } else {
            rest
        }
    }
}

/// A name survives a discovery pass exactly when some probe carries it
/// and wrapped successfully.
pub proof fn lemma_surviving_names(probes: Seq<AdapterProbe>)
    ensures
        forall|x: Seq<char>|
            #[trigger] surviving_names(probes).contains(x) <==> exists|i: int|
                0 <= i < probes.len() && (#[trigger] probes[i]).wrapped && probes[i].name@ == x,
    decreases probes.len(),
{
    if probes.len() > 0 {
        let dl = probes.drop_last();
        lemma_surviving_names(dl);
        assert forall|x: Seq<char>| #[trigger] surviving_names(probes).contains(x) implies exists|
            i: int,
        | 0 <= i < probes.len() && (#[trigger] probes[i]).wrapped && probes[i].name@ == x by {
            let k = choose|k: int|
                0 <= k < surviving_names(probes).len() && surviving_names(probes)[k] == x;
            if probes.last().wrapped && k == surviving_names(dl).len() {
                assert(probes[probes.len() - 1].wrapped);
            } else {
                assert(surviving_names(dl).contains(x));
                let i = choose|i: int|
                    0 <= i < dl.len() && (#[trigger] dl[i]).wrapped && dl[i].name@ == x;
                assert(probes[i].wrapped && probes[i].name@ == x);
            }
        }
        assert forall|x: Seq<char>|
            (exists|i: int|
                0 <= i < probes.len() && (#[trigger] probes[i]).wrapped && probes[i].name@
                    == x) implies #[trigger] surviving_names(probes).contains(x) by {
            let i = choose|i: int|
                0 <= i < probes.len() && (#[trigger] probes[i]).wrapped && probes[i].name@ == x;
            if i < probes.len() - 1 {
                assert(dl[i].wrapped && dl[i].name@ == x);
                assert(surviving_names(dl).contains(x));
                let k = choose|k: int|
                    0 <= k < surviving_names(dl).len() && surviving_names(dl)[k] == x;
                assert(surviving_names(probes)[k] == x);
            } else {
                assert(probes.last().wrapped);
                assert(surviving_names(probes).last() == x);
            }
        }
    }
}

/// Distinct probe names survive as distinct adapter names.
pub proof fn lemma_surviving_distinct(probes: Seq<AdapterProbe>)
    requires
        probe_names_distinct(probes),
    ensures
        distinct_names(surviving_names(probes)),
    decreases probes.len(),
{
    if probes.len() > 0 {
        let dl = probes.drop_last();
        assert(probe_names_distinct(dl));
        lemma_surviving_distinct(dl);
        if probes.last().wrapped {
            let nm = probes.last().name@;
            let s = surviving_names(dl);
            lemma_surviving_names(dl);
            if s.contains(nm) {
                let i = choose|i: int|
                    0 <= i < dl.len() && (#[trigger] dl[i]).wrapped && dl[i].name@ == nm;
                assert(probes[i].name@ == probes[probes.len() - 1].name@);
                assert(false);
            }
            assert forall|i: int, j: int|
                0 <= i < j < surviving_names(probes).len() implies surviving_names(probes)[i]
                != surviving_names(probes)[j] by {
                if j < s.len() {
                } else {
                    assert(surviving_names(probes)[j] == nm);
                    assert(surviving_names(probes)[i] == s[i]);
                    assert(s.contains(s[i]));
                }
            }
        }
    }
}

/// Whether two strings hold the same characters.
fn str_eq(a: &str, b: &str) -> (r: bool)
    ensures
        r == (a@ == b@),
{
    let n: usize = a.unicode_len();
    let m: usize = b.unicode_len();
    if n != m {
        return false;
    }
    let mut i: usize = 0;
    while i < n
        invariant
            i <= n,
            n == a@.len(),
            n == b@.len(),
            forall|k: int| 0 <= k < i ==> a@[k] == b@[k],
        decreases n - i,
    {
        if a.get_char(i) != b.get_char(i) {
            return false;
        }
        i += 1;
    }
    proof {
        assert(a@ =~= b@);
    }
    true
}

/// Look an adapter up by name; the returned handle carries that name.
fn find_adapter(adapters: &Vec<Adapter>, name: &str) -> (r: Option<Adapter>)
    ensures
        r is Some <==> adapters.deep_view().contains(name@),
        r is Some ==> r->0@ == name@,
{
    let n: usize = adapters.len();
    let mut i: usize = 0;
    while i < n
        invariant
            i <= n,
            n == adapters@.len(),
            forall|k: int| 0 <= k < i ==> adapters.deep_view()[k] != name@,
        decreases n - i,
    {
        if str_eq(adapters[i].name(), name) {
            proof {
                assert(adapters.deep_view()[i as int] == name@);
                assert(adapters.deep_view().contains(name@));
            }
            return Some(Adapter::new(String::from_str(adapters[i].name())));
        }
        i += 1;
    }
    proof {
        if adapters.deep_view().contains(name@) {
            let k = choose|k: int|
                0 <= k < adapters.deep_view().len() && adapters.deep_view()[k] == name@;
            assert(false);
        }
    }
    None
}

/// The process-wide owner of the adapter set: a mapping from adapter
/// name to handle, rebuilt on every discovery pass, plus the elected
/// default adapter.
#[derive(Debug)]
pub struct BluetoothManager {
    adapters: Vec<Adapter>,
    default_adapter: Option<String>,
}

impl View for BluetoothManager {
    type V = ManagerView;

    closed spec fn view(&self) -> ManagerView {
        ManagerView {
            adapters: self.adapters.deep_view(),
            default_adapter: match self.default_adapter {
                Some(d) => Some(d@),
                None => None,
            },
        }
    }
}

impl BluetoothManager {
    /// The adapter names are pairwise distinct and the default, when
    /// set, names a current entry.
    pub open spec fn wf(&self) -> bool {
        &&& distinct_names(self@.adapters)
        &&& match self@.default_adapter {
            Some(d) => self@.adapters.contains(d),
            None => true,
        }
    }

    /// The adapter every device operation is routed to: the default,
    /// when it is set and currently present.
    pub open spec fn default_resolved(&self) -> Option<Seq<char>> {
        match self@.default_adapter {
            Some(d) => if self@.adapters.contains(d) {
                Some(d)
            } else {
                None
            },
            None => None,
        }
    }

    /// A manager that knows no adapters yet; discovery fills it.
    pub fn new() -> (m: BluetoothManager)
        ensures
            m.wf(),
            m@.adapters.len() == 0,
            m@.default_adapter is None,
    {
        BluetoothManager { adapters: Vec::new(), default_adapter: None }
    }

    /// Record one adapter-discovery pass. The adapter set is cleared
    /// and rebuilt from the probes that wrapped successfully, in the
    /// reported order; failed probes are skipped. A still-present
    /// default is kept; otherwise the first survivor, if any, becomes
    /// the default.
    pub fn discover_adapters(&mut self, probes: Vec<AdapterProbe>)
        requires
            probe_names_distinct(probes@),
        ensures
            final(self).wf(),
            final(self)@.adapters == surviving_names(probes@),
            surviving_names(probes@).len() > 0 ==> final(self)@.default_adapter is Some
                && surviving_names(probes@).contains(final(self)@.default_adapter->0),
            surviving_names(probes@).len() == 0 ==> final(self)@.default_adapter is None,
            match old(self)@.default_adapter {
                Some(d) => {
                    &&& surviving_names(probes@).contains(d) ==> final(self)@.default_adapter
                        == Some(d)
                    &&& !surviving_names(probes@).contains(d) && surviving_names(probes@).len()
                        > 0 ==> final(self)@.default_adapter == Some(surviving_names(probes@)[0])
                    &&& !surviving_names(probes@).contains(d) && surviving_names(probes@).len()
                        == 0 ==> final(self)@.default_adapter is None
                },
                None => {
                    &&& surviving_names(probes@).len() > 0 ==> final(self)@.default_adapter
                        == Some(surviving_names(probes@)[0])
                    &&& surviving_names(probes@).len() == 0 ==> final(self)@.default_adapter
                        is None
                },
            },
    {
        let mut list: Vec<Adapter> = Vec::new();
        let n: usize = probes.len();
        let mut i: usize = 0;
        while i < n
            invariant
                i <= n,
                n == probes@.len(),
                list.deep_view() =~= surviving_names(probes@.take(i as int)),
            decreases n - i,
        {
            proof {
                assert(probes@.take(i + 1).drop_last() =~= probes@.take(i as int));
                assert(probes@.take(i + 1).last() == probes@[i as int]);
            }
            if probes[i].wrapped {
                let ghost before = list.deep_view();
                list.push(Adapter::new(probes[i].name.clone()));
                proof {
                    assert(list.deep_view() =~= before.push(probes@[i as int].name@));
                }
            }
            i += 1;
        }
        proof {
            assert(probes@.take(n as int) =~= probes@);
            lemma_surviving_distinct(probes@);
        }
        self.adapters = list;
        let keep = match &self.default_adapter {
            Some(d) => find_adapter(&self.adapters, d.as_str()).is_some(),
            None => false,
        };
        if !keep {
            if self.adapters.len() > 0 {
                self.default_adapter = Some(String::from_str(self.adapters[0].name()));
                proof {
                    assert(self@.adapters[0] == surviving_names(probes@)[0]);
                    assert(self@.adapters.contains(self@.adapters[0]));
                }
            } else {
                self.default_adapter = None;
            }
        }
    }

    /// The handle of the default adapter, when one is set and currently
    /// present; empty means "Bluetooth unavailable", a normal state, not
    /// an error.
    pub fn get_default_adapter(&self) -> (r: Option<Adapter>)
        ensures
            r is Some <==> self.default_resolved() is Some,
            r is Some ==> r->0@ == self.default_resolved()->0,
    {
        match &self.default_adapter {
            Some(d) => find_adapter(&self.adapters, d.as_str()),
            None => None,
        }
    }

    /// The handle of the named adapter, if it is currently known.
    pub fn get_adapter(&self, name: &str) -> (r: Option<Adapter>)
        ensures
            r is Some <==> self@.adapters.contains(name@),
            r is Some ==> r->0@ == name@,
    {
        find_adapter(&self.adapters, name)
    }

    /// The names of all currently known adapters, in discovery order.
    pub fn list_adapters(&self) -> (r: Vec<String>)
        ensures
            r.deep_view() == self@.adapters,
    {
        let mut out: Vec<String> = Vec::new();
        let n: usize = self.adapters.len();
        let mut i: usize = 0;
        while i < n
            invariant
                i <= n,
                n == self.adapters@.len(),
                out.deep_view() =~= self.adapters.deep_view().take(i as int),
            decreases n - i,
        {
            let ghost before = out.deep_view();
            out.push(String::from_str(self.adapters[i].name()));
            proof {
                assert(out.deep_view() =~= before.push(self.adapters.deep_view()[i as int]));
                assert(self.adapters.deep_view().take(i + 1) =~= self.adapters.deep_view().take(
                    i as int,
                ).push(self.adapters.deep_view()[i as int]));
            }
            i += 1;
        }
        proof {
            assert(self.adapters.deep_view().take(n as int) =~= self.adapters.deep_view());
        }
        out
    }

    /// Build the device snapshot of one enumeration pass against the
    /// default adapter; with no usable default the operation fails
    /// like every other device operation.
    pub fn get_devices(&self, fetches: Vec<DeviceFetch>) -> (r: Result<
        Vec<BluetoothDevice>,
        BluetoothError,
    >)
        ensures
            self.default_resolved() is None ==> r == Err::<Vec<BluetoothDevice>, BluetoothError>(
                BluetoothError::NoDefaultAdapter,
            ),
            self.default_resolved() is Some ==> r is Ok && r->Ok_0@.len() == snapshot_of(
                fetches@,
            ).len() && forall|i: int|
                0 <= i < r->Ok_0@.len() ==> #[trigger] r->Ok_0@[i]@ == snapshot_of(fetches@)[i],
    {
        match self.get_default_adapter() {
            Some(adapter) => Ok(adapter.get_devices(fetches)),
            None => Err(BluetoothError::NoDefaultAdapter),
        }
    }

    /// Begin a scan on the default adapter; with no usable default
    /// there is nothing to do, which is not an error.
    pub fn start_discovery(&self) -> (r: Option<AdapterCommand>)
        ensures
            r is Some <==> self.default_resolved() is Some,
            r is Some ==> r->0.adapter@ == self.default_resolved()->0 && r->0.action
                == AdapterAction::StartDiscovery,
    {
        self.adapter_command(AdapterAction::StartDiscovery)
    }

    /// Ask the default adapter to stop scanning; best effort, and with
    /// no usable default there is nothing to do.
    pub fn stop_discovery(&self) -> (r: Option<AdapterCommand>)
        ensures
            r is Some <==> self.default_resolved() is Some,
            r is Some ==> r->0.adapter@ == self.default_resolved()->0 && r->0.action
                == AdapterAction::StopDiscovery,
    {
        self.adapter_command(AdapterAction::StopDiscovery)
    }

    /// Resolve the default adapter for an adapter-level action.
    fn adapter_command(&self, action: AdapterAction) -> (r: Option<AdapterCommand>)
        ensures
            r is Some <==> self.default_resolved() is Some,
            r is Some ==> r->0.adapter@ == self.default_resolved()->0 && r->0.action == action,
    {
        match self.get_default_adapter() {
            Some(adapter) => Some(
                AdapterCommand { adapter: String::from_str(adapter.name()), action },
            ),
            None => None,
        }
    }

    /// Power the default adapter on or off.
    pub fn set_adapter_powered(&self, powered: bool) -> (r: Result<
        AdapterCommand,
        BluetoothError,
    >)
        ensures
            self.default_resolved() is None ==> r == Err::<AdapterCommand, BluetoothError>(
                BluetoothError::NoDefaultAdapter,
            ),
            self.default_resolved() is Some ==> r is Ok && r->Ok_0.adapter@
                == self.default_resolved()->0 && r->Ok_0.action == AdapterAction::SetPowered(
                powered,
            ),
    {
        match self.adapter_command(AdapterAction::SetPowered(powered)) {
            Some(cmd) => Ok(cmd),
            None => Err(BluetoothError::NoDefaultAdapter),
        }
    }

    /// Make the default adapter discoverable or not.
    pub fn set_adapter_discoverable(&self, discoverable: bool) -> (r: Result<
        AdapterCommand,
        BluetoothError,
    >)
        ensures
            self.default_resolved() is None ==> r == Err::<AdapterCommand, BluetoothError>(
                BluetoothError::NoDefaultAdapter,
            ),
            self.default_resolved() is Some ==> r is Ok && r->Ok_0.adapter@
                == self.default_resolved()->0 && r->Ok_0.action == AdapterAction::SetDiscoverable(
                discoverable,
            ),
    {
        match self.adapter_command(AdapterAction::SetDiscoverable(discoverable)) {
            Some(cmd) => Ok(cmd),
            None => Err(BluetoothError::NoDefaultAdapter),
        }
    }

    /// Connect to the peer at `address` through the default adapter.
    pub fn connect_device(&self, address: &str) -> (r: Result<DeviceCommand, BluetoothError>)
        ensures
            !valid_address_chars(address@) ==> r == Err::<DeviceCommand, BluetoothError>(
                BluetoothError::InvalidAddress,
            ),
            valid_address_chars(address@) && self.default_resolved() is None ==> r == Err::<
                DeviceCommand,
                BluetoothError,
            >(BluetoothError::NoDefaultAdapter),
            valid_address_chars(address@) && self.default_resolved() is Some ==> r is Ok
                && r->Ok_0.adapter@ == self.default_resolved()->0 && r->Ok_0.address.octets@
                == parsed_octets(address@) && r->Ok_0.action == DeviceAction::Connect,
    {
        self.device_command(address, DeviceAction::Connect)
    }

    /// Disconnect from the peer at `address`.
    pub fn disconnect_device(&self, address: &str) -> (r: Result<DeviceCommand, BluetoothError>)
        ensures
            !valid_address_chars(address@) ==> r == Err::<DeviceCommand, BluetoothError>(
                BluetoothError::InvalidAddress,
            ),
            valid_address_chars(address@) && self.default_resolved() is None ==> r == Err::<
                DeviceCommand,
                BluetoothError,
            >(BluetoothError::NoDefaultAdapter),
            valid_address_chars(address@) && self.default_resolved() is Some ==> r is Ok
                && r->Ok_0.adapter@ == self.default_resolved()->0 && r->Ok_0.address.octets@
                == parsed_octets(address@) && r->Ok_0.action == DeviceAction::Disconnect,
    {
        self.device_command(address, DeviceAction::Disconnect)
    }

    /// Pair with the peer at `address`.
    pub fn pair_device(&self, address: &str) -> (r: Result<DeviceCommand, BluetoothError>)
        ensures
            !valid_address_chars(address@) ==> r == Err::<DeviceCommand, BluetoothError>(
                BluetoothError::InvalidAddress,
            ),
            valid_address_chars(address@) && self.default_resolved() is None ==> r == Err::<
                DeviceCommand,
                BluetoothError,
            >(BluetoothError::NoDefaultAdapter),
            valid_address_chars(address@) && self.default_resolved() is Some ==> r is Ok
                && r->Ok_0.adapter@ == self.default_resolved()->0 && r->Ok_0.address.octets@
                == parsed_octets(address@) && r->Ok_0.action == DeviceAction::Pair,
    {
        self.device_command(address, DeviceAction::Pair)
    }

    /// Remove (forget) the peer at `address`.
    pub fn remove_device(&self, address: &str) -> (r: Result<DeviceCommand, BluetoothError>)
        ensures
            !valid_address_chars(address@) ==> r == Err::<DeviceCommand, BluetoothError>(
                BluetoothError::InvalidAddress,
            ),
            valid_address_chars(address@) && self.default_resolved() is None ==> r == Err::<
                DeviceCommand,
                BluetoothError,
            >(BluetoothError::NoDefaultAdapter),
            valid_address_chars(address@) && self.default_resolved() is Some ==> r is Ok
                && r->Ok_0.adapter@ == self.default_resolved()->0 && r->Ok_0.address.octets@
                == parsed_octets(address@) && r->Ok_0.action == DeviceAction::Remove,
    {
        self.device_command(address, DeviceAction::Remove)
    }

    /// Parse the caller's address, then resolve the default adapter.
    /// A malformed address is rejected before anything else, so no
    /// system call is ever issued for it.
    fn device_command(&self, address: &str, action: DeviceAction) -> (r: Result<
        DeviceCommand,
        BluetoothError,
    >)
        ensures
            !valid_address_chars(address@) ==> r == Err::<DeviceCommand, BluetoothError>(
                BluetoothError::InvalidAddress,
            ),
            valid_address_chars(address@) && self.default_resolved() is None ==> r == Err::<
                DeviceCommand,
                BluetoothError,
            >(BluetoothError::NoDefaultAdapter),
            valid_address_chars(address@) && self.default_resolved() is Some ==> r is Ok
                && r->Ok_0.adapter@ == self.default_resolved()->0 && r->Ok_0.address.octets@
                == parsed_octets(address@) && r->Ok_0.action == action,
    {
        let addr = match DeviceAddress::parse(address) {
            Ok(a) => a,
            Err(e) => {
                return Err(e);
            },
        };
        match self.get_default_adapter() {
            Some(adapter) => Ok(
                DeviceCommand {
                    adapter: String::from_str(adapter.name()),
                    address: addr,
                    action,
                },
            ),
            None => Err(BluetoothError::NoDefaultAdapter),
        }
    }
}

} // verus!

//! Topology resolver: given one hub's address chain and reported port
//! count, scan the flat list of enumerated devices and assign each direct
//! child to its 1-based port slot.
//!
//! A record is a direct child of the hub iff it sits on the same bus, its
//! address chain is exactly one element longer, and the chain's prefix
//! equals the hub's chain; the last chain element is then the child's
//! port number. A matching record whose port number is 0 is a
//! data-integrity fault of the enumeration layer: it is reported and
//! skipped, never assigned to a slot.

use vstd::prelude::*;
use crate::names::child_display_name;
use crate::names::child_name;

verus! {

/// Immutable snapshot of one enumerated USB device, as the transport
/// layer reports it: ids, packed USB version, bus id, class code, the
/// ordered 1-based port chain from the bus root, and the optional
/// descriptor strings.
pub struct DeviceRecord {
    pub vendor_id: u16,
    pub product_id: u16,
    pub usb_version: u16,
    pub bus_id: String,
    pub class: u8,
    pub port_chain: Vec<u8>,
    pub product_string: Option<String>,
    pub manufacturer_string: Option<String>,
    pub serial_number: Option<String>,
}

/// `d` hangs directly below `hub`: same bus, a chain one element longer,
/// and the hub's chain as its prefix.
pub open spec fn direct_child(hub: DeviceRecord, d: DeviceRecord) -> bool {
    &&& d.bus_id@ == hub.bus_id@
    &&& d.port_chain@.len() == hub.port_chain@.len() + 1
    &&& d.port_chain@.take(hub.port_chain@.len() as int) == hub.port_chain@
}

/// The port a child's chain claims: its last element.
pub open spec fn child_port(d: DeviceRecord) -> u8
    recommends
        d.port_chain@.len() > 0,
{
    d.port_chain@.last()
}

/// A direct child claiming port 0: invalid, to be reported and skipped.
pub open spec fn chain_error(hub: DeviceRecord, d: DeviceRecord) -> bool {
    direct_child(hub, d) && child_port(d) == 0
}

/// `d` validly occupies 1-based `port` below `hub`.
pub open spec fn assigns_port(hub: DeviceRecord, d: DeviceRecord, port: u8) -> bool {
    direct_child(hub, d) && port == child_port(d) && port != 0
}

/// Display name resolved for a record's occupant.
pub open spec fn record_child_name(d: DeviceRecord) -> Seq<char> {
    child_name(d.vendor_id, d.product_id, d.product_string.deep_view())
}

/// Sentinel name of a port with no attached device.
pub open spec fn empty_port_name() -> Seq<char> {
    "<no device>"@
}

/// Name shown for `port` after scanning `devs` in order: the name of the
/// last record that validly occupies the port, or the empty-port sentinel
/// when none does.
pub open spec fn port_name(devs: Seq<DeviceRecord>, hub: DeviceRecord, port: u8) -> Seq<char>
    decreases devs.len(),
{
    if devs.len() == 0 {
        empty_port_name()
    } else if assigns_port(hub, devs.last(), port) {
        record_child_name(devs.last())
    } else {
        port_name(devs.drop_last(), hub, port)
    }
}

/// Indices into `devs` of the records reported as chain errors, in scan
/// order.
pub open spec fn error_indices(devs: Seq<DeviceRecord>, hub: DeviceRecord) -> Seq<int>
    decreases devs.len(),
{
    if devs.len() == 0 {
        Seq::empty()
    } else if chain_error(hub, devs.last()) {
        error_indices(devs.drop_last(), hub) + seq![devs.len() - 1]
    } else {
        error_indices(devs.drop_last(), hub)
    }
}

/// Law: a record reported as a chain error occupies no slot: with it
/// scanned last, every port keeps the name the earlier records gave it.
pub proof fn lemma_chain_error_assigns_nothing(
    devs: Seq<DeviceRecord>,
    hub: DeviceRecord,
    port: u8,
)
    requires
        devs.len() > 0,
        chain_error(hub, devs.last()),
    ensures
        port_name(devs, hub, port) == port_name(devs.drop_last(), hub, port),
{
}

/// Law: the error report is exact. An index is reported iff it names a
/// record in range that is a direct child of the hub claiming port 0;
/// such a record is never assigned to any slot (`assigns_port` already
/// excludes port 0).
pub proof fn lemma_error_indices_exact(devs: Seq<DeviceRecord>, hub: DeviceRecord, i: int)
    ensures
        error_indices(devs, hub).contains(i) <==> (0 <= i < devs.len() && chain_error(
            hub,
            devs[i],
        )),
    decreases devs.len(),
{
    if devs.len() == 0 {
    } else {
        let rest = devs.drop_last();
        let n = devs.len() - 1;
        lemma_error_indices_exact(rest, hub, i);
        if chain_error(hub, devs.last()) {
            let whole = error_indices(rest, hub) + seq![n];
            assert(whole.last() == n);
            if error_indices(rest, hub).contains(i) {
                let j = choose|j: int| 0 <= j < error_indices(rest, hub).len() && error_indices(
                    rest,
                    hub,
                )[j] == i;
                assert(whole[j] == i);
            }
            if whole.contains(i) {
                let j = choose|j: int| 0 <= j < whole.len() && whole[j] == i;
                if j < whole.len() - 1 {
                    assert(error_indices(rest, hub)[j] == i);
                }
            }
        } else {
            if error_indices(rest, hub).contains(i) {
                let j = choose|j: int| 0 <= j < error_indices(rest, hub).len() && error_indices(
                    rest,
                    hub,
                )[j] == i;
                assert(error_indices(devs, hub)[j] == i);
            }
        }
    }
}

/// The per-port name map of one hub, plus the indices of the device
/// records whose chains were invalid.
pub struct Topology {
    pub names: Vec<String>,
    pub errors: Vec<usize>,
}

/// True when `child` starts with all of `hub_chain`.
fn chain_prefix_matches(child: &Vec<u8>, hub_chain: &Vec<u8>) -> (r: bool)
    requires
        child@.len() >= hub_chain@.len(),
    ensures
        r == (child@.take(hub_chain@.len() as int) == hub_chain@),
{
    let mut k: usize = 0;
    while k < hub_chain.len()
        invariant
            k <= hub_chain@.len(),
            child@.len() >= hub_chain@.len(),
            forall|j: int| 0 <= j < k ==> child@[j] == hub_chain@[j],
        decreases hub_chain@.len() - k,
    {
        if child[k] != hub_chain[k] {
            proof {
                assert(child@.take(hub_chain@.len() as int)[k as int] != hub_chain@[k as int]);
            }
            return false;
        }
        k = k + 1;
    }
    proof {
        assert(child@.take(hub_chain@.len() as int) =~= hub_chain@);
    }
    true
}

/// Build the hub's port map: every slot starts at the empty-port
/// sentinel; each direct child found in `devices` is named and assigned
/// to its port, later records overriding earlier ones on the same port;
/// a direct child claiming port 0 is recorded as an error and skipped.
///
/// The precondition is the data-model invariant: a valid child's port
/// number never exceeds the port count its hub reports.
#[verifier::loop_isolation(false)]
pub fn resolve_topology(hub: &DeviceRecord, port_count: u8, devices: &Vec<DeviceRecord>) -> (r:
    Topology)
    requires
        forall|i: int|
            0 <= i < devices@.len() && direct_child(*hub, devices@[i]) && child_port(devices@[i])
                != 0 ==> child_port(devices@[i]) <= port_count,
    ensures
        r.names@.len() == port_count as int,
        forall|p: int|
            0 <= p < port_count as int ==> r.names@[p]@ == port_name(
                devices@,
                *hub,
                (p + 1) as u8,
            ),
        r.errors@.len() == error_indices(devices@, *hub).len(),
        forall|k: int|
            0 <= k < r.errors@.len() ==> r.errors@[k] as int == error_indices(devices@, *hub)[k],
{
    let mut names: Vec<String> = Vec::new();
    let count = port_count as usize;
    while names.len() < count
        invariant
            names@.len() <= count,
            forall|p: int| 0 <= p < names@.len() ==> names@[p]@ == empty_port_name(),
        decreases count - names@.len(),
    {
        names.push("<no device>".to_owned());
    }

    let mut errors: Vec<usize> = Vec::new();
    let mut i: usize = 0;
    while i < devices.len()
        invariant
            i <= devices@.len(),
            names@.len() == port_count as int,
            forall|p: int|
                0 <= p < port_count as int ==> names@[p]@ == port_name(
                    devices@.take(i as int),
                    *hub,
                    (p + 1) as u8,
                ),
            errors@.len() == error_indices(devices@.take(i as int), *hub).len(),
            forall|k: int|
                0 <= k < errors@.len() ==> errors@[k] as int == error_indices(
                    devices@.take(i as int),
                    *hub,
                )[k],
        decreases devices@.len() - i,
    {
        let d = &devices[i];
        proof {
            assert(devices@.take(i + 1).drop_last() =~= devices@.take(i as int));
            assert(devices@.take(i + 1).last() == devices@[i as int]);
        }
        let chain_len = d.port_chain.len();
        if d.bus_id == hub.bus_id && chain_len >= 1 && chain_len - 1 == hub.port_chain.len()
            && chain_prefix_matches(&d.port_chain, &hub.port_chain) {
            assert(direct_child(*hub, devices@[i as int]));
            let port = d.port_chain[chain_len - 1];
            if port == 0 {
                errors.push(i);
            } else {
                assert(assigns_port(*hub, devices@[i as int], port));
                let name = child_display_name(d.vendor_id, d.product_id, &d.product_string);
                names.set(port as usize - 1, name);
            }
        } else {
            assert(!direct_child(*hub, devices@[i as int]));
        }
        i = i + 1;
    }
    proof {
        assert(devices@.take(devices@.len() as int) =~= devices@);
    }
    Topology { names, errors }
}

/// `resolve_topology` behind a run-time check of its precondition: `None`
/// exactly when some direct child of the hub claims a port beyond the
/// reported port count, the resolved topology otherwise.
pub fn resolve_topology_checked(
    hub: &DeviceRecord,
    port_count: u8,
    devices: &Vec<DeviceRecord>,
) -> (r: Option<Topology>)
    ensures
        r is None <==> (exists|i: int|
            0 <= i < devices@.len() && direct_child(*hub, devices@[i]) && child_port(devices@[i])
                != 0 && child_port(devices@[i]) > port_count),
        match r {
            Some(t) => {
                &&& t.names@.len() == port_count as int
                &&& forall|p: int|
                    0 <= p < port_count as int ==> t.names@[p]@ == port_name(
                        devices@,
                        *hub,
                        (p + 1) as u8,
                    )
                &&& t.errors@.len() == error_indices(devices@, *hub).len()
                &&& forall|k: int|
                    0 <= k < t.errors@.len() ==> t.errors@[k] as int == error_indices(
                        devices@,
                        *hub,
                    )[k]
            },
            None => true,
        },
{
    let mut i: usize = 0;
    while i < devices.len()
        invariant
            i <= devices@.len(),
            forall|j: int|
                0 <= j < i && direct_child(*hub, devices@[j]) && child_port(devices@[j]) != 0
                    ==> child_port(devices@[j]) <= port_count,
        decreases devices@.len() - i,
    {
        let d = &devices[i];
        let chain_len = d.port_chain.len();
        if d.bus_id == hub.bus_id && chain_len >= 1 && chain_len - 1 == hub.port_chain.len()
            && chain_prefix_matches(&d.port_chain, &hub.port_chain) {
            let port = d.port_chain[chain_len - 1];
            if port != 0 && port > port_count {
                assert(direct_child(*hub, devices@[i as int]));
                return None;
            }
        } else {
            assert(!direct_child(*hub, devices@[i as int]));
        }
        i = i + 1;
    }
    Some(resolve_topology(hub, port_count, devices))
}

} // verus!

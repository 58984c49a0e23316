//! A network that is set up by someone else and handed to the sandbox as a description.

use vstd::prelude::*;
use vstd::string::*;

use crate::agent;
use crate::decimal::{parse_u64, parse_uint};
use crate::network::info::NetworkInfoFromXlet;

verus! {

/// The name of the guest's interface.
pub const GUEST_INTERFACE: &'static str = "eth0";

/// The size of a queue of the tap device.
pub const TAP_QUEUE_SIZE: usize = 256;

/// The largest packet of an interface that does not say.
pub fn default_mtu() -> (r: u64)
    ensures
        r == 1400,
{
    1400
}

/// The number of queues of a device that does not say.
pub fn default_queue_num() -> (r: usize)
    ensures
        r == 2,
{
    2
}

/// The size of a queue of a device that does not say.
pub fn default_queue_size() -> (r: usize)
    ensures
        r == 256,
{
    256
}

/// The description of a network with one device.
#[derive(Clone, Debug)]
pub struct XletNetworkConfig {
    /// The device.
    pub device_name: String,
    /// Its hardware address.
    pub device_hwaddr: String,
    /// Its address, with the length of the network's prefix.
    pub device_ip: String,
    /// Its largest packet.
    pub mtu: String,
    /// Its route: where it leads and the gateway, parted by a comma.
    pub routes: String,
    /// Its neighbour: the address and the hardware address, parted by a comma.
    pub neighs: String,
    /// Its number of queue pairs.
    pub queues: String,
}

/// The description of a network with several devices.
#[derive(Clone, Debug)]
pub struct XletConfig {
    devices: Vec<XletDevice>,
}

/// A device of a network.
#[derive(Clone, Debug)]
pub struct XletDevice {
    /// The interface in the guest.
    pub name: String,
    /// Its hardware address in the guest.
    pub guest_mac: String,
    /// The device on the host.
    pub device: Device,
    /// What the guest is told of it.
    pub network_info: NetworkInfo,
}

/// A device on the host.
#[derive(Clone, Debug)]
pub enum Device {
    /// A tap device.
    HostTap {
        /// Its name.
        tap_name: String,
        /// The number of its queues.
        queue_num: usize,
        /// The size of a queue.
        queue_size: usize,
    },
}

/// What the guest is told of a device.
#[derive(Clone, Debug)]
pub struct NetworkInfo {
    /// The interface.
    pub interface: Interface,
    /// The routes.
    pub routes: Vec<Route>,
    /// The neighbours.
    pub neighbors: Vec<ARPNeighbor>,
}

/// An interface.
#[derive(Clone, Debug)]
pub struct Interface {
    /// The addresses, each with the length of its network's prefix.
    pub ip_addresses: Vec<String>,
    /// The largest packet.
    pub mtu: u64,
    /// The type.
    pub ntype: String,
    /// The flags.
    pub flags: u32,
}

/// A route.
#[derive(Clone, Debug)]
pub struct Route {
    /// Where it leads, empty for anywhere.
    pub dest: String,
    /// The gateway, empty for none.
    pub gateway: String,
    /// The source address, empty for none.
    pub source: String,
    /// The scope.
    pub scope: u32,
}

/// A neighbour.
#[derive(Clone, Debug)]
pub struct ARPNeighbor {
    /// The address, with the length of its network's prefix.
    pub ip_address: Option<String>,
    /// The hardware address.
    pub hardware_addr: String,
    /// The state.
    pub state: u32,
    /// The flags.
    pub flags: u32,
}

impl XletConfig {
    /// The devices.
    pub closed spec fn device_seq(&self) -> Seq<XletDevice> {
        self.devices@
    }

    /// Describes a network.
    pub fn new(devices: Vec<XletDevice>) -> (r: Self)
        ensures
            r.device_seq() == devices@,
    {
        XletConfig { devices }
    }

    /// The devices.
    pub fn devices(&self) -> (r: &Vec<XletDevice>)
        ensures
            r@ == self.device_seq(),
    {
        &self.devices
    }
}

/// The tap device that is made for a network.
#[derive(Debug)]
pub struct TapRequest {
    /// The interface in the guest.
    pub name: String,
    /// The device on the host.
    pub tap_name: String,
    /// The hardware address in the guest.
    pub guest_mac: String,
    /// The number of queues.
    pub queue_num: usize,
    /// The size of a queue.
    pub queue_size: usize,
}

/// The number of queue pairs that a text asks for; what cannot be read as a number asks for one.
pub open spec fn queue_pairs(text: Seq<char>) -> nat {
    match parse_uint(text, usize::MAX as nat) {
        Some(n) => n,
        None => 1,
    }
}

/// The tap device that is made for a network: two queues for each pair.
pub fn tap_request(config: &XletNetworkConfig) -> (r: TapRequest)
    requires
        queue_pairs(config.queues@) * 2 <= usize::MAX,
    ensures
        r.name@ == GUEST_INTERFACE@,
        r.tap_name == config.device_name,
        r.guest_mac == config.device_hwaddr,
        r.queue_num == queue_pairs(config.queues@) * 2,
        r.queue_size == TAP_QUEUE_SIZE,
{
    let pairs: usize = match parse_u64(config.queues.as_str(), usize::MAX as u64) {
        Some(n) => n as usize,
        None => 1,
    };
    TapRequest {
        name: GUEST_INTERFACE.to_owned(),
        tap_name: config.device_name.clone(),
        guest_mac: config.device_hwaddr.clone(),
        queue_num: pairs * 2,
        queue_size: TAP_QUEUE_SIZE,
    }
}

/// An endpoint of a network, of type `P`, and what the agent is told of it.
#[derive(Debug)]
pub struct NetworkEntity<P> {
    /// The endpoint.
    pub endpoint: P,
    /// What the agent is told of it.
    pub network_info: NetworkInfoFromXlet,
}

/// A network with endpoints of type `P`.
#[derive(Debug)]
pub struct XletInner<P> {
    entity_list: Vec<NetworkEntity<P>>,
}

/// The interfaces of all endpoints, in order.
pub open spec fn all_interfaces<P>(list: Seq<NetworkEntity<P>>) -> Seq<agent::InterfaceView> {
    list.map_values(|e: NetworkEntity<P>| e.network_info.interface_view())
}

/// The routes of all endpoints, in order.
pub open spec fn all_routes<P>(list: Seq<NetworkEntity<P>>) -> Seq<agent::Route>
    decreases list.len(),
{
    if list.len() == 0 {
        Seq::empty()
    } else {
        all_routes(list.drop_last()) + list.last().network_info.routes_seq()
    }
}

/// The neighbours of all endpoints, in order.
pub open spec fn all_neighs<P>(list: Seq<NetworkEntity<P>>) -> Seq<agent::ARPNeighbor>
    decreases list.len(),
{
    if list.len() == 0 {
        Seq::empty()
    } else {
        all_neighs(list.drop_last()) + list.last().network_info.neighs_seq()
    }
}

/// The states among optional ones, in order.
pub open spec fn present<S>(states: Seq<Option<S>>) -> Seq<S>
    decreases states.len(),
{
    if states.len() == 0 {
        Seq::empty()
    } else {
        match states.last() {
            Some(s) => present(states.drop_last()).push(s),
            None => present(states.drop_last()),
        }
    }
}

impl<P> XletInner<P> {
    /// The endpoints.
    pub closed spec fn entities(&self) -> Seq<NetworkEntity<P>> {
        self.entity_list@
    }

    /// A network of one endpoint.
    pub fn new(endpoint: P, network_info: NetworkInfoFromXlet) -> (r: Self)
        ensures
            r.entities() == seq![NetworkEntity { endpoint, network_info }],
    {
        let r = XletInner { entity_list: vec![NetworkEntity { endpoint, network_info }] };
        proof {
            assert(r.entities() =~= seq![NetworkEntity { endpoint, network_info }]);
        }
        r
    }

    /// The endpoints, in the order in which they are attached and detached.
    pub fn entity_list(&self) -> (r: &Vec<NetworkEntity<P>>)
        ensures
            r@ == self.entities(),
    {
        &self.entity_list
    }

    /// The interfaces of all endpoints, in order.
    pub fn interfaces(&self) -> (r: Vec<&agent::Interface>)
        ensures
            r@.map_values(|i: &agent::Interface| i@) == all_interfaces(self.entities()),
    {
        let mut r: Vec<&agent::Interface> = Vec::new();
        let mut i: usize = 0;
        while i < self.entity_list.len()
            invariant
                i <= self.entity_list@.len(),
                r@.len() == i,
                forall|k: int|
                    0 <= k < i ==> (#[trigger] r@[k])@
                        == self.entity_list@[k].network_info.interface_view(),
            decreases self.entity_list@.len() - i,
        {
            r.push(self.entity_list[i].network_info.interface());
            i = i + 1;
        }
        proof {
            assert(r@.map_values(|i: &agent::Interface| i@) =~= all_interfaces(self.entities()));
        }
        r
    }

    /// The routes of all endpoints, in order.
    pub fn routes(&self) -> (r: Vec<&agent::Route>)
        ensures
            r@.map_values(|t: &agent::Route| *t) == all_routes(self.entities()),
    {
        let mut r: Vec<&agent::Route> = Vec::new();
        let mut i: usize = 0;
        proof {
            assert(r@.map_values(|t: &agent::Route| *t) =~= all_routes(self.entity_list@.take(0)));
        }
        while i < self.entity_list.len()
            invariant
                i <= self.entity_list@.len(),
                r@.map_values(|t: &agent::Route| *t) == all_routes(
                    self.entity_list@.take(i as int),
                ),
            decreases self.entity_list@.len() - i,
        {
            let list = self.entity_list[i].network_info.routes();
            let ghost before = r@.map_values(|t: &agent::Route| *t);
            let mut k: usize = 0;
            while k < list.len()
                invariant
                    k <= list@.len(),
                    r@.map_values(|t: &agent::Route| *t) == before + list@.take(k as int),
                decreases list@.len() - k,
            {
                let ghost now = r@;
                r.push(&list[k]);
                proof {
                    assert(r@.map_values(|t: &agent::Route| *t) =~= now.map_values(
                        |t: &agent::Route| *t,
                    ).push(list@[k as int]));
                    assert(list@.take(k + 1) =~= list@.take(k as int).push(list@[k as int]));
                    assert(before + list@.take(k + 1) =~= (before + list@.take(k as int)).push(
                        list@[k as int],
                    ));
                }
                k = k + 1;
            }
            proof {
                assert(list@.take(k as int) =~= list@);
                assert(self.entity_list@.take(i + 1).drop_last() =~= self.entity_list@.take(
                    i as int,
                ));
            }
            i = i + 1;
        }
        proof {
            assert(self.entity_list@.take(i as int) =~= self.entity_list@);
        }
        r
    }

    /// The neighbours of all endpoints, in order.
    pub fn neighs(&self) -> (r: Vec<&agent::ARPNeighbor>)
        ensures
            r@.map_values(|t: &agent::ARPNeighbor| *t) == all_neighs(self.entities()),
    {
        let mut r: Vec<&agent::ARPNeighbor> = Vec::new();
        let mut i: usize = 0;
        proof {
            assert(r@.map_values(|t: &agent::ARPNeighbor| *t) =~= all_neighs(
                self.entity_list@.take(0),
            ));
        }
        while i < self.entity_list.len()
            invariant
                i <= self.entity_list@.len(),
                r@.map_values(|t: &agent::ARPNeighbor| *t) == all_neighs(
                    self.entity_list@.take(i as int),
                ),
            decreases self.entity_list@.len() - i,
        {
            let list = self.entity_list[i].network_info.neighs();
            let ghost before = r@.map_values(|t: &agent::ARPNeighbor| *t);
            let mut k: usize = 0;
            while k < list.len()
                invariant
                    k <= list@.len(),
                    r@.map_values(|t: &agent::ARPNeighbor| *t) == before + list@.take(k as int),
                decreases list@.len() - k,
            {
                let ghost now = r@;
                r.push(&list[k]);
                proof {
                    assert(r@.map_values(|t: &agent::ARPNeighbor| *t) =~= now.map_values(
                        |t: &agent::ARPNeighbor| *t,
                    ).push(list@[k as int]));
                    assert(list@.take(k + 1) =~= list@.take(k as int).push(list@[k as int]));
                    assert(before + list@.take(k + 1) =~= (before + list@.take(k as int)).push(
                        list@[k as int],
                    ));
                }
                k = k + 1;
            }
            proof {
                assert(list@.take(k as int) =~= list@);
                assert(self.entity_list@.take(i + 1).drop_last() =~= self.entity_list@.take(
                    i as int,
                ));
            }
            i = i + 1;
        }
        proof {
            assert(self.entity_list@.take(i as int) =~= self.entity_list@);
        }
        r
    }
}

/// The states of the endpoints that have one, or nothing where none has.
pub fn save<S>(states: Vec<Option<S>>) -> (r: Option<Vec<S>>)
    ensures
        match r {
            Some(list) => list@ == present(states@) && list@.len() > 0,
            None => present(states@).len() == 0,
        },
{
    let ghost given = states@;
    let mut states = states;
    let mut back: Vec<S> = Vec::new();
    proof {
        assert(given.take(given.len() as int) =~= given);
        assert(present(given) =~= present(given) + back@.reverse());
    }
    while states.len() > 0
        invariant
            present(given) == present(states@) + back@.reverse(),
        decreases states@.len(),
    {
        let ghost before = states@;
        let ghost kept = back@;
        if let Some(s) = states.pop() {
            if let Some(s) = s {
                back.push(s);
                proof {
                    assert(back@.reverse() =~= seq![s] + kept.reverse());
                    assert(present(before) + kept.reverse() =~= present(states@)
                        + back@.reverse());
                }
            }
        }
    }
    proof {
        assert(present(states@) + back@.reverse() =~= back@.reverse());
    }
    if back.len() == 0 {
        return None;
    }
    let ghost order = back@;
    let mut list: Vec<S> = Vec::new();
    while back.len() > 0
        invariant
            back@.len() <= order.len(),
            back@ == order.take(back@.len() as int),
            list@ == order.reverse().take(order.len() - back@.len()),
        decreases back@.len(),
    {
        let ghost n = back@.len();
        if let Some(s) = back.pop() {
            list.push(s);
        }
        proof {
            assert(back@ =~= order.take(n - 1));
            assert(list@ =~= order.reverse().take(order.len() - n + 1));
        }
    }
    proof {
        assert(list@ =~= order.reverse());
    }
    Some(list)
}

/// The states that are there keep their order, and no other comes in.
pub proof fn law_present_in_order<S>(states: Seq<Option<S>>)
    ensures
        present(states) == states.filter(|s: Option<S>| s is Some).map_values(
            |s: Option<S>| s->0,
        ),
    decreases states.len(),
{
    reveal(Seq::filter);
    let kind = |s: Option<S>| s is Some;
    let value = |s: Option<S>| s->0;
    if states.len() > 0 {
        law_present_in_order(states.drop_last());
        let done = states.drop_last().filter(kind);
        if states.last() is Some {
            assert(done.push(states.last()).map_values(value) =~= done.map_values(value).push(
                states.last()->0,
            ));
        }
    }
    assert(present(states) =~= states.filter(kind).map_values(value));
}

/// There is nothing to save if and only if no endpoint has a state; otherwise all states that are
/// there are saved, in their order.
pub proof fn law_states_saved_in_order<S>(states: Vec<Option<S>>, r: Option<Vec<S>>)
    requires
        call_ensures(save::<S>, (states,), r),
    ensures
        r is None <==> forall|i: int| 0 <= i < states@.len() ==> (#[trigger] states@[i]) is None,
        r matches Some(list) ==> list@ == states@.filter(|s: Option<S>| s is Some).map_values(
            |s: Option<S>| s->0,
        ),
{
    law_present_in_order(states@);
    lemma_present_empty(states@);
}

/// No state is there if and only if each is missing.
proof fn lemma_present_empty<S>(states: Seq<Option<S>>)
    ensures
        present(states).len() == 0 <==> forall|i: int|
            0 <= i < states.len() ==> (#[trigger] states[i]) is None,
    decreases states.len(),
{
    if states.len() > 0 {
        let rest = states.drop_last();
        lemma_present_empty(rest);
        if states.last() is None {
            assert forall|i: int|
                (forall|k: int| 0 <= k < rest.len() ==> (#[trigger] rest[k]) is None) && 0 <= i
                    < states.len() implies (#[trigger] states[i]) is None by {
                if i < rest.len() {
                    assert(rest[i] is None);
                }
            }
            assert forall|k: int|
                (forall|i: int| 0 <= i < states.len() ==> (#[trigger] states[i]) is None) && 0 <= k
                    < rest.len() implies (#[trigger] rest[k]) is None by {
                assert(states[k] is None);
            }
        } else {
            assert(states[states.len() - 1] is Some);
        }
    }
}

/// The endpoint is the host's device under the guest's name, with the configured address. It has
/// two queues for every pair that is asked for, and one pair where no number is given.
pub proof fn law_endpoint_is_the_device(config: XletNetworkConfig, r: TapRequest)
    requires
        queue_pairs(config.queues@) * 2 <= usize::MAX,
        call_ensures(tap_request, (&config,), r),
    ensures
        r.name@ == "eth0"@,
        r.tap_name@ == config.device_name@,
        r.guest_mac@ == config.device_hwaddr@,
        r.queue_size == 256,
        parse_uint(config.queues@, usize::MAX as nat) matches Some(pairs) ==> r.queue_num
            == 2 * pairs,
        parse_uint(config.queues@, usize::MAX as nat) is None ==> r.queue_num == 2,
{
}

/// What a device has where nothing is given.
pub proof fn law_device_defaults(mtu: u64, queues: usize, size: usize)
    requires
        call_ensures(default_mtu, (), mtu),
        call_ensures(default_queue_num, (), queues),
        call_ensures(default_queue_size, (), size),
    ensures
        mtu == 1400 && queues == 2 && size == 256,
{
}

/// A network has the endpoint that it was made with, and the interface, the routes and the
/// neighbours of that endpoint, all of them and no other.
pub proof fn law_network_is_its_endpoint<P>(
    endpoint: P,
    info: NetworkInfoFromXlet,
    network: XletInner<P>,
    list: &Vec<NetworkEntity<P>>,
    interfaces: Vec<&agent::Interface>,
    routes: Vec<&agent::Route>,
    neighs: Vec<&agent::ARPNeighbor>,
)
    requires
        call_ensures(XletInner::<P>::new, (endpoint, info), network),
        call_ensures(XletInner::<P>::entity_list, (&network,), list),
        call_ensures(XletInner::<P>::interfaces, (&network,), interfaces),
        call_ensures(XletInner::<P>::routes, (&network,), routes),
        call_ensures(XletInner::<P>::neighs, (&network,), neighs),
    ensures
        list@.len() == 1 && list@[0].endpoint == endpoint && list@[0].network_info == info,
        interfaces@.len() == 1 && interfaces@[0]@ == info.interface_view(),
        routes@.len() == info.routes_seq().len(),
        forall|i: int| 0 <= i < routes@.len() ==> *(#[trigger] routes@[i]) == info.routes_seq()[i],
        neighs@.len() == info.neighs_seq().len(),
        forall|i: int| 0 <= i < neighs@.len() ==> *(#[trigger] neighs@[i]) == info.neighs_seq()[i],
{
    let all = network.entities();
    assert(all.drop_last() =~= Seq::empty());
    assert(all_routes(all.drop_last()) =~= Seq::empty());
    assert(all_neighs(all.drop_last()) =~= Seq::empty());
    assert(all_routes(all) =~= info.routes_seq());
    assert(all_neighs(all) =~= info.neighs_seq());
    let i = interfaces@.map_values(|i: &agent::Interface| i@);
    assert(i.len() == interfaces@.len());
    assert(i[0] == interfaces@[0]@);
    let r = routes@.map_values(|t: &agent::Route| *t);
    assert(r.len() == routes@.len());
    assert forall|k: int| 0 <= k < routes@.len() implies *(#[trigger] routes@[k])
        == info.routes_seq()[k] by {
        assert(r[k] == *routes@[k]);
    }
    let n = neighs@.map_values(|t: &agent::ARPNeighbor| *t);
    assert(n.len() == neighs@.len());
    assert forall|k: int| 0 <= k < neighs@.len() implies *(#[trigger] neighs@[k])
        == info.neighs_seq()[k] by {
        assert(n[k] == *neighs@[k]);
    }
}

/// The devices of a description are those that it was made with.
pub proof fn law_description_keeps_devices(
    devices: Vec<XletDevice>,
    config: XletConfig,
    r: &Vec<XletDevice>,
)
    requires
        call_ensures(XletConfig::new, (devices,), config),
        call_ensures(XletConfig::devices, (&config,), r),
    ensures
        r@ == devices@,
{
}

/// Behind more endpoints, the routes and the neighbours of the first come first: those of two lists
/// of endpoints are those of the one and then those of the other.
pub proof fn law_endpoints_in_order<P>(
    first: Seq<NetworkEntity<P>>,
    second: Seq<NetworkEntity<P>>,
)
    ensures
        all_routes(first + second) == all_routes(first) + all_routes(second),
        all_neighs(first + second) == all_neighs(first) + all_neighs(second),
        all_interfaces(first + second) == all_interfaces(first) + all_interfaces(second),
    decreases second.len(),
{
    assert(all_interfaces(first + second) =~= all_interfaces(first) + all_interfaces(second));
    if second.len() == 0 {
        assert(first + second =~= first);
        assert(all_routes(first) + all_routes(second) =~= all_routes(first));
        assert(all_neighs(first) + all_neighs(second) =~= all_neighs(first));
    } else {
        law_endpoints_in_order(first, second.drop_last());
        assert((first + second).drop_last() =~= first + second.drop_last());
        assert(all_routes(first + second) =~= all_routes(first) + all_routes(second));
        assert(all_neighs(first + second) =~= all_neighs(first) + all_neighs(second));
    }
}

} // verus!

//! What the agent is told of a network device.

use vstd::prelude::*;
use vstd::string::*;

use crate::agent::{
    ARPNeighbor, ARPNeighborView, IPAddress, IPAddressView, IPFamily, Interface, InterfaceView,
    Route, RouteView,
};
use crate::decimal::{decimal, decimal_str, parse_u64, parse_uint};
use crate::network::xlet::XletNetworkConfig;
use crate::text::{split, split_str, texts, trim_str, trimmed};

verus! {

broadcast use vstd::string::group_string_axioms;

/// The largest packet of a device that does not say.
pub const FALLBACK_MTU: u64 = 1500;

/// The flags of a device's route.
pub const ROUTE_FLAGS: u32 = 4;

/// An address with the length of its network's prefix.
#[derive(Debug)]
pub struct IpCidr {
    /// The family of the address.
    pub family: IPFamily,
    /// The address, as it is usually written.
    pub address: String,
    /// The length of the prefix.
    pub mask: u8,
}

/// Why a network device cannot be described.
#[derive(Clone, Copy, Debug, PartialEq, Eq)]
pub enum NetworkInfoError<E> {
    /// Its address is not valid.
    InvalidAddress(E),
    /// Its route has no gateway.
    InvalidRoutes,
    /// Its neighbour has no hardware address.
    InvalidNeighbors,
}

/// The parts of a list, white space around it left aside.
pub open spec fn list_parts(list: Seq<char>) -> Seq<Seq<char>> {
    split(trimmed(list), ',')
}

/// The largest packet that a text asks for; what cannot be read as a number asks for nothing.
pub open spec fn mtu_of(text: Seq<char>) -> u64 {
    match parse_uint(text, u64::MAX as nat) {
        Some(n) => n as u64,
        None => FALLBACK_MTU,
    }
}

/// The interface of a device.
pub open spec fn interface_of(config: XletNetworkConfig, ip: IpCidr) -> InterfaceView {
    InterfaceView {
        device: config.device_name@,
        name: config.device_name@,
        ip_addresses: seq![
            IPAddressView {
                family: ip.family,
                address: ip.address@,
                mask: decimal(ip.mask as nat),
            },
        ],
        mtu: mtu_of(config.mtu@),
        hw_addr: config.device_hwaddr@,
        device_path: Seq::empty(),
        field_type: Seq::empty(),
        raw_flags: 0,
    }
}

/// The route through a device: the first part of the list is where it leads, the second the
/// gateway.
pub open spec fn route_of(config: XletNetworkConfig, ip: IpCidr) -> RouteView {
    RouteView {
        dest: list_parts(config.routes@)[0],
        gateway: list_parts(config.routes@)[1],
        source: ip.address@,
        device: config.device_name@,
        scope: 0,
        family: ip.family,
        flags: ROUTE_FLAGS,
        mtu: mtu_of(config.mtu@) as u32,
    }
}

/// The neighbour behind a device: the first part of the list is its address, the second its
/// hardware address.
pub open spec fn neighbor_of(config: XletNetworkConfig) -> ARPNeighborView {
    ARPNeighborView {
        to_ip_address: Some(
            IPAddressView {
                family: IPFamily::V4,
                address: list_parts(config.neighs@)[0],
                mask: decimal(32),
            },
        ),
        device: config.device_name@,
        ll_addr: list_parts(config.neighs@)[1],
        state: 0,
        flags: 0,
    }
}

/// What is wrong with a configuration, if anything is.
pub open spec fn info_error<E>(
    config: XletNetworkConfig,
    parsed: Result<IpCidr, E>,
) -> Option<NetworkInfoError<E>> {
    match parsed {
        Err(e) => Some(NetworkInfoError::InvalidAddress(e)),
        Ok(_) => if list_parts(config.routes@).len() < 2 {
            Some(NetworkInfoError::InvalidRoutes)
        } else if list_parts(config.neighs@).len() < 2 {
            Some(NetworkInfoError::InvalidNeighbors)
        } else {
            None
        },
    }
}

/// What the agent is told of a network device.
#[derive(Debug)]
pub struct NetworkInfoFromXlet {
    interface: Interface,
    routes: Vec<Route>,
    neighs: Vec<ARPNeighbor>,
}

/// The first two parts of a list, if there are so many.
fn first_two(list: &str) -> (r: Option<(String, String)>)
    ensures
        match r {
            Some(p) => list_parts(list@).len() >= 2 && p.0@ == list_parts(list@)[0] && p.1@
                == list_parts(list@)[1],
            None => list_parts(list@).len() < 2,
        },
{
    let parts = split_str(trim_str(list), ',');
    proof {
        assert(texts(parts@).len() == parts@.len());
    }
    if parts.len() < 2 {
        return None;
    }
    proof {
        assert(texts(parts@)[0] == parts@[0]@);
        assert(texts(parts@)[1] == parts@[1]@);
    }
    Some((parts[0].clone(), parts[1].clone()))
}

impl NetworkInfoFromXlet {
    /// The interface.
    pub closed spec fn interface_view(&self) -> InterfaceView {
        self.interface@
    }

    /// The routes.
    pub closed spec fn routes_seq(&self) -> Seq<Route> {
        self.routes@
    }

    /// The neighbours.
    pub closed spec fn neighs_seq(&self) -> Seq<ARPNeighbor> {
        self.neighs@
    }

    /// Whether this describes the device of a configuration.
    pub open spec fn describes(&self, config: XletNetworkConfig, ip: IpCidr) -> bool {
        &&& self.interface_view() == interface_of(config, ip)
        &&& self.routes_seq().len() == 1
        &&& self.routes_seq()[0]@ == route_of(config, ip)
        &&& self.neighs_seq().len() == 1
        &&& self.neighs_seq()[0]@ == neighbor_of(config)
    }

    /// Describes a device; `parsed` is what its address reads as. It fails on an address that is
    /// not valid, and on a route or a neighbour with fewer than two parts.
    pub fn new<E>(
        config: &XletNetworkConfig,
        parsed: Result<IpCidr, E>,
    ) -> (r: Result<NetworkInfoFromXlet, NetworkInfoError<E>>)
        ensures
            match r {
                Ok(info) => info_error(*config, parsed) is None && info.describes(
                    *config,
                    parsed->Ok_0,
                ),
                Err(e) => info_error(*config, parsed) == Some(e),
            },
    {
        let ghost given = parsed;
        let ip = match parsed {
            Ok(ip) => ip,
            Err(e) => {
                return Err(NetworkInfoError::InvalidAddress(e));
            },
        };
        let address = IPAddress {
            family: ip.family,
            address: ip.address.clone(),
            mask: decimal_str(ip.mask as u64),
        };
        let mtu: u64 = match parse_u64(config.mtu.as_str(), u64::MAX) {
            Some(mtu) => mtu,
            None => FALLBACK_MTU,
        };
        let interface = Interface {
            device: config.device_name.clone(),
            name: config.device_name.clone(),
            ip_addresses: vec![address],
            mtu,
            hw_addr: config.device_hwaddr.clone(),
            device_path: String::new(),
            field_type: String::new(),
            raw_flags: 0,
        };
        let (dest, gateway) = match first_two(config.routes.as_str()) {
            Some(p) => p,
            None => {
                return Err(NetworkInfoError::InvalidRoutes);
            },
        };
        let route = Route {
            dest,
            gateway,
            source: ip.address.clone(),
            device: config.device_name.clone(),
            scope: 0,
            family: ip.family,
            flags: ROUTE_FLAGS,
            mtu: #[verifier::truncate] (mtu as u32),
        };
        let (neigh_gateway, neigh_hwaddr) = match first_two(config.neighs.as_str()) {
            Some(p) => p,
            None => {
                return Err(NetworkInfoError::InvalidNeighbors);
            },
        };
        let neigh = ARPNeighbor {
            to_ip_address: Some(
                IPAddress {
                    family: IPFamily::V4,
                    address: neigh_gateway,
                    mask: decimal_str(32),
                },
            ),
            device: config.device_name.clone(),
            ll_addr: neigh_hwaddr,
            state: 0,
            flags: 0,
        };
        proof {
            let want = interface_of(*config, ip);
            assert(interface@.ip_addresses =~= want.ip_addresses);
            assert(interface@.device_path =~= want.device_path);
            assert(interface@.field_type =~= want.field_type);
            assert(interface@ == want);
        }
        Ok(NetworkInfoFromXlet { interface, routes: vec![route], neighs: vec![neigh] })
    }

    /// The interface.
    pub fn interface(&self) -> (r: &Interface)
        ensures
            r@ == self.interface_view(),
    {
        &self.interface
    }

    /// The routes.
    pub fn routes(&self) -> (r: &Vec<Route>)
        ensures
            r@ == self.routes_seq(),
    {
        &self.routes
    }

    /// The neighbours.
    pub fn neighs(&self) -> (r: &Vec<ARPNeighbor>)
        ensures
            r@ == self.neighs_seq(),
    {
        &self.neighs
    }
}

/// White space around a list does not change its parts.
pub proof fn law_list_trimmed(list: Seq<char>)
    ensures
        list_parts(trimmed(list)) == list_parts(list),
{
    crate::text::lemma_trimmed_idempotent(list);
}

/// A description is refused for its address, and otherwise for fewer than two parts in its route,
/// and otherwise for fewer than two in its neighbour; nothing else is refused.
pub proof fn law_refused_descriptions<E>(
    config: XletNetworkConfig,
    parsed: Result<IpCidr, E>,
    r: Result<NetworkInfoFromXlet, NetworkInfoError<E>>,
)
    requires
        call_ensures(NetworkInfoFromXlet::new::<E>, (&config, parsed), r),
    ensures
        ({
            let routes = split(trimmed(config.routes@), ',').len();
            let neighs = split(trimmed(config.neighs@), ',').len();
            &&& parsed matches Err(e) ==> r == Err::<NetworkInfoFromXlet, NetworkInfoError<E>>(
                NetworkInfoError::InvalidAddress(e),
            )
            &&& parsed is Ok ==> {
                &&& r == Err::<NetworkInfoFromXlet, NetworkInfoError<E>>(
                    NetworkInfoError::InvalidRoutes,
                ) <==> routes < 2
                &&& r == Err::<NetworkInfoFromXlet, NetworkInfoError<E>>(
                    NetworkInfoError::InvalidNeighbors,
                ) <==> routes >= 2 && neighs < 2
                &&& r is Ok <==> routes >= 2 && neighs >= 2
            }
        }),
{
}

/// The interface is the device under its own name, with its address, and with the given size of its
/// packets, or 1500 where no number is given.
pub proof fn law_interface_is_the_device<E>(
    config: XletNetworkConfig,
    ip: IpCidr,
    info: NetworkInfoFromXlet,
    r: &Interface,
)
    requires
        call_ensures(
            NetworkInfoFromXlet::new::<E>,
            (&config, Ok::<IpCidr, E>(ip)),
            Ok::<NetworkInfoFromXlet, NetworkInfoError<E>>(info),
        ),
        call_ensures(NetworkInfoFromXlet::interface, (&info,), r),
    ensures
        r.device@ == config.device_name@,
        r.name@ == config.device_name@,
        r.hw_addr@ == config.device_hwaddr@,
        r.ip_addresses@.len() == 1,
        r.ip_addresses@[0].family == ip.family,
        r.ip_addresses@[0].address@ == ip.address@,
        r.ip_addresses@[0].mask@ == decimal(ip.mask as nat),
        parse_uint(config.mtu@, u64::MAX as nat) matches Some(n) ==> r.mtu == n,
        parse_uint(config.mtu@, u64::MAX as nat) is None ==> r.mtu == 1500,
        r.device_path@.len() == 0 && r.field_type@.len() == 0 && r.raw_flags == 0,
{
    assert(r@.ip_addresses.len() == r.ip_addresses@.len());
    assert(r@.ip_addresses[0] == r.ip_addresses@[0]@);
    if let Some(n) = parse_uint(config.mtu@, u64::MAX as nat) {
        assert(n <= u64::MAX);
    }
}

/// The one route goes from the first part to the second, from the device's address; the one
/// neighbour has the first part as its address and the second as that of its hardware.
pub proof fn law_route_and_neighbor_in_parts<E>(
    config: XletNetworkConfig,
    ip: IpCidr,
    info: NetworkInfoFromXlet,
    interface: &Interface,
    routes: &Vec<Route>,
    neighs: &Vec<ARPNeighbor>,
)
    requires
        call_ensures(
            NetworkInfoFromXlet::new::<E>,
            (&config, Ok::<IpCidr, E>(ip)),
            Ok::<NetworkInfoFromXlet, NetworkInfoError<E>>(info),
        ),
        call_ensures(NetworkInfoFromXlet::interface, (&info,), interface),
        call_ensures(NetworkInfoFromXlet::routes, (&info,), routes),
        call_ensures(NetworkInfoFromXlet::neighs, (&info,), neighs),
    ensures
        routes@.len() == 1 && {
            let route = routes@[0];
            let parts = split(trimmed(config.routes@), ',');
            &&& route.dest@ == parts[0]
            &&& route.gateway@ == parts[1]
            &&& route.source@ == ip.address@
            &&& route.device@ == config.device_name@
            &&& route.family == ip.family
            &&& route.scope == 0
            &&& route.flags == 4
            &&& route.mtu == interface.mtu as u32
        },
        neighs@.len() == 1 && {
            let neigh = neighs@[0];
            let parts = split(trimmed(config.neighs@), ',');
            &&& neigh.to_ip_address matches Some(a) && a.family == IPFamily::V4 && a.address@
                == parts[0] && a.mask@ == decimal(32)
            &&& neigh.ll_addr@ == parts[1]
            &&& neigh.device@ == config.device_name@
            &&& neigh.state == 0 && neigh.flags == 0
        },
{
    assert(routes@[0]@.dest == routes@[0].dest@);
    assert(neighs@[0]@.ll_addr == neighs@[0].ll_addr@);
    assert(interface@.mtu == interface.mtu);
}

} // verus!

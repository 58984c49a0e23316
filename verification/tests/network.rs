use kata_runtime::agent::IPFamily;
use kata_runtime::network::info::{IpCidr, NetworkInfoError, NetworkInfoFromXlet};
use kata_runtime::network::xlet::{
    default_mtu, default_queue_num, default_queue_size, save, tap_request, Device, Interface,
    NetworkInfo, XletConfig, XletDevice, XletInner, XletNetworkConfig,
};

fn config() -> XletNetworkConfig {
    XletNetworkConfig {
        device_name: String::from("eth0"),
        device_hwaddr: String::from("02:00:00:00:00:01"),
        device_ip: String::from("10.0.0.2/24"),
        mtu: String::from("1450"),
        routes: String::from(" 0.0.0.0/0,10.0.0.1 \n"),
        neighs: String::from("10.0.0.1,02:00:00:00:00:02,extra"),
        queues: String::from("3"),
    }
}

fn ip() -> Result<IpCidr, &'static str> {
    Ok(IpCidr { family: IPFamily::V4, address: String::from("10.0.0.2"), mask: 24 })
}

#[test]
fn a_device_is_described() {
    let info = NetworkInfoFromXlet::new(&config(), ip()).unwrap();
    let interface = info.interface();
    assert_eq!(interface.device, "eth0");
    assert_eq!(interface.name, "eth0");
    assert_eq!(interface.hw_addr, "02:00:00:00:00:01");
    assert_eq!(interface.mtu, 1450);
    assert_eq!(interface.ip_addresses.len(), 1);
    assert_eq!(interface.ip_addresses[0].address, "10.0.0.2");
    assert_eq!(interface.ip_addresses[0].mask, "24");
    assert_eq!(interface.ip_addresses[0].family, IPFamily::V4);

    let route = &info.routes()[0];
    assert_eq!((route.dest.as_str(), route.gateway.as_str()), ("0.0.0.0/0", "10.0.0.1"));
    assert_eq!((route.source.as_str(), route.device.as_str()), ("10.0.0.2", "eth0"));
    assert_eq!((route.scope, route.flags, route.mtu), (0, 4, 1450));

    let neigh = &info.neighs()[0];
    let address = neigh.to_ip_address.as_ref().unwrap();
    assert_eq!((address.address.as_str(), address.mask.as_str()), ("10.0.0.1", "32"));
    assert_eq!(neigh.ll_addr, "02:00:00:00:00:02");
    assert_eq!((neigh.state, neigh.flags), (0, 0));
}

#[test]
fn mtu_falls_back_and_is_cut_for_the_route() {
    let mut c = config();
    c.mtu = String::from("large");
    let info = NetworkInfoFromXlet::new(&c, ip()).unwrap();
    assert_eq!((info.interface().mtu, info.routes()[0].mtu), (1500, 1500));

    c.mtu = String::from("4294967297");
    let info = NetworkInfoFromXlet::new(&c, ip()).unwrap();
    assert_eq!((info.interface().mtu, info.routes()[0].mtu), (4294967297, 1));
}

#[test]
fn descriptions_that_are_not_valid() {
    let err = NetworkInfoFromXlet::new(&config(), Err("bad")).unwrap_err();
    assert_eq!(err, NetworkInfoError::InvalidAddress("bad"));

    let mut c = config();
    c.routes = String::from("0.0.0.0/0");
    assert_eq!(NetworkInfoFromXlet::new(&c, ip()).unwrap_err(), NetworkInfoError::InvalidRoutes);

    let mut c = config();
    c.neighs = String::new();
    assert_eq!(NetworkInfoFromXlet::new(&c, ip()).unwrap_err(), NetworkInfoError::InvalidNeighbors);
}

#[test]
fn two_queues_for_each_pair() {
    let request = tap_request(&config());
    assert_eq!(request.name, "eth0");
    assert_eq!(request.tap_name, "eth0");
    assert_eq!(request.guest_mac, "02:00:00:00:00:01");
    assert_eq!((request.queue_num, request.queue_size), (6, 256));
    let mut c = config();
    c.queues = String::from("many");
    assert_eq!(tap_request(&c).queue_num, 2);
}

#[test]
fn a_network_gathers_what_its_endpoints_say() {
    let info = NetworkInfoFromXlet::new(&config(), ip()).unwrap();
    let network = XletInner::new("tap", info);
    assert_eq!(network.entity_list().len(), 1);
    assert_eq!(network.entity_list()[0].endpoint, "tap");
    assert_eq!(network.interfaces().len(), 1);
    assert_eq!(network.interfaces()[0].name, "eth0");
    assert_eq!(network.routes()[0].gateway, "10.0.0.1");
    assert_eq!(network.neighs()[0].device, "eth0");
}

#[test]
fn only_endpoints_with_a_state_are_saved() {
    assert_eq!(save(vec![Some(1), None, Some(2)]), Some(vec![1, 2]));
    assert_eq!(save::<u8>(vec![None, None]), None);
    assert_eq!(save::<u8>(vec![]), None);
}

#[test]
fn defaults_of_a_description() {
    assert_eq!((default_mtu(), default_queue_num(), default_queue_size()), (1400, 2, 256));
    let device = XletDevice {
        name: String::from("eth0"),
        guest_mac: String::from("02:00:00:00:00:01"),
        device: Device::HostTap {
            tap_name: String::from("tap0"),
            queue_num: default_queue_num(),
            queue_size: default_queue_size(),
        },
        network_info: NetworkInfo {
            interface: Interface {
                ip_addresses: vec![],
                mtu: default_mtu(),
                ntype: String::new(),
                flags: 0,
            },
            routes: vec![],
            neighbors: vec![],
        },
    };
    let config = XletConfig::new(vec![device]);
    assert_eq!(config.devices().len(), 1);
}

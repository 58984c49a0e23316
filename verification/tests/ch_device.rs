use kata_runtime::ch::device::{clh_pci_slot, AddDevice, AttachRequest, DeviceAnswer};
use kata_runtime::ch::inner::{CloudHypervisorInner, DeviceDefaults, VmmState};
use kata_runtime::ch::types::{
    Address, BlockConfig, BlockDevice, DeviceError, DeviceType, HostDevice, HybridVsockDevice,
    MacAddr, NetConfig, NetConfigInner, NetworkConfig, NetworkDevice, PciDeviceCommonConfig,
    PciPath, ProtectionDeviceConfig, RateLimiterConfig, ShareFsConfig, ShareFsDevice,
    ShareFsMountConfig, ShareFsMountOperation, ShareFsMountType, TokenBucketConfig, VfioDevice,
    VhostMode, VhostUserConfig, VhostUserNetDevice,
};
use kata_runtime::ch::utils::PciDeviceInfo;
use kata_runtime::ch::virtiofs::BackendFsConfig;
use kata_runtime::config::{HypervisorConfig, NetworkConfigInfo};

fn device_defaults() -> DeviceDefaults {
    DeviceDefaults {
        refill_time: 1000,
        server: BackendFsConfig {
            thread_pool_size: 0,
            drop_sys_resource: false,
            cache: 0,
            no_open: false,
            writeback_cache: false,
            xattr: false,
            no_readdir: false,
            killpriv_v2: false,
        },
    }
}

fn machine(state: VmmState) -> CloudHypervisorInner {
    let mut ch = CloudHypervisorInner::new(HypervisorConfig::default(), device_defaults());
    ch.state = state;
    ch.vm_path = String::from("/run/vm");
    ch
}

fn net_config(name: &str) -> NetworkConfig {
    NetworkConfig {
        host_dev_name: format!("tap-{name}"),
        virt_iface_name: String::from(name),
        queue_size: 65536 + 256,
        queue_num: 8,
        guest_mac: Some(Address([1, 2, 3, 4, 5, 6])),
        index: 0,
        allow_duplicate_mac: false,
        use_generic_irq: None,
        use_shared_irq: None,
    }
}

fn network(name: &str) -> DeviceType {
    DeviceType::Network(NetworkDevice { device_id: String::from(name), config: net_config(name) })
}

fn share_fs(fs_type: &str, sock_path: &str) -> ShareFsDevice {
    ShareFsDevice {
        device_id: String::from("fs"),
        config: ShareFsConfig {
            fs_type: String::from(fs_type),
            sock_path: String::from(sock_path),
            mount_tag: String::from("kataShared"),
            queue_num: 0,
            queue_size: 0,
            options: vec![],
            mount_config: None,
        },
    }
}

fn block(id: &str) -> BlockDevice {
    BlockDevice {
        device_id: String::from(id),
        config: BlockConfig {
            path_on_host: String::from("/dev/loop0"),
            is_readonly: true,
            is_direct: None,
            is_overlayfs: false,
            num_queues: 2,
            queue_size: 65536 + 128,
            virt_path: String::from("/dev/vda"),
            pci_path: None,
        },
    }
}

fn vfio(id: &str, paths: &[&str]) -> VfioDevice {
    VfioDevice {
        device_id: String::from(id),
        devices: paths
            .iter()
            .map(|p| HostDevice { sysfs_path: String::from(*p), guest_pci_path: None })
            .collect(),
    }
}

fn answer(id: &str, bdf: &str, path: Option<&str>) -> Option<DeviceAnswer> {
    Some(DeviceAnswer {
        info: PciDeviceInfo { id: String::from(id), bdf: String::from(bdf) },
        path: path.map(|p| PciPath { text: String::from(p) }),
    })
}

#[test]
fn test_networkconfig_to_netconfig() {
    let mut cfg = NetworkConfig {
        host_dev_name: String::from("tap0"),
        virt_iface_name: String::from("eth0"),
        queue_size: 256,
        queue_num: 2,
        guest_mac: None,
        index: 1,
        allow_duplicate_mac: false,
        use_generic_irq: None,
        use_shared_irq: None,
    };

    let network_info = NetworkConfigInfo {
        disable_offload_csum: false,
        disable_offload_tso: false,
        disable_offload_ufo: false,
        ..Default::default()
    };

    let net = NetConfig::try_from(NetConfigInner::new(network_info.clone(), cfg.clone()));
    assert_eq!(
        net.unwrap_err().message(),
        "Missing mac address for network device"
    );

    let v: [u8; 6] = [10, 11, 128, 3, 4, 5];
    let mac_address = Address(v);
    cfg.guest_mac = Some(mac_address.clone());

    let expected = NetConfig {
        pci_common: PciDeviceCommonConfig {
            id: Some(cfg.virt_iface_name.clone()),
            ..Default::default()
        },
        num_queues: cfg.queue_num,
        queue_size: cfg.queue_size as u16,
        mac: MacAddr { bytes: v },
        ..Default::default()
    };

    let net = NetConfig::try_from(NetConfigInner::new(network_info.clone(), cfg.clone()));
    assert!(net.is_ok());
    assert_eq!(net.unwrap(), expected);
}

#[test]
fn devices_wait_for_the_boot_in_order() {
    let mut ch = machine(VmmState::NotReady);
    assert!(matches!(ch.add_device(network("eth0")), AddDevice::Queued));
    assert!(matches!(ch.add_device(DeviceType::Block(block("b"))), AddDevice::Ignored(DeviceType::Block(_))));
    assert!(matches!(ch.add_device(network("eth1")), AddDevice::Queued));
    assert!(matches!(ch.add_device(DeviceType::Vfio(vfio("gpu", &["/sys/gpu"]))), AddDevice::Queued));
    assert_eq!(ch.pending_devices.len(), 3);

    let devices = ch.get_shared_devices(4).unwrap();
    assert!(ch.pending_devices.is_empty());
    let names: Vec<_> = devices.network_devices.iter().map(|n| n.pci_common.id.clone().unwrap()).collect();
    assert_eq!(names, vec!["eth0", "eth1"]);
    assert_eq!(devices.network_devices[0].tap.as_deref(), Some("tap-eth0"));
    assert_eq!(devices.network_devices[0].num_queues, 4);
    assert_eq!(devices.network_devices[0].queue_size, 256);
    assert_eq!(devices.host_devices[0].path, "/sys/gpu");
}

#[test]
fn a_running_machine_attaches_at_once() {
    let mut ch = machine(VmmState::VmRunning);
    assert!(matches!(ch.add_device(network("eth0")), AddDevice::Attach(DeviceType::Network(_))));
    assert!(ch.pending_devices.is_empty());
}

#[test]
fn the_first_device_that_cannot_be_used_ends_the_work() {
    let mut ch = machine(VmmState::NotReady);
    let mut broken = net_config("eth1");
    broken.guest_mac = None;
    ch.add_device(network("eth0"));
    ch.add_device(DeviceType::Network(NetworkDevice { device_id: String::from("x"), config: broken }));
    ch.add_device(network("eth2"));
    assert_eq!(ch.get_shared_devices(2).unwrap_err(), DeviceError::MissingMac);
    assert_eq!(ch.pending_devices.len(), 1);
    let devices = ch.get_shared_devices(2).unwrap();
    assert_eq!(devices.network_devices[0].pci_common.id.as_deref(), Some("eth2"));
}

#[test]
fn shared_file_systems_at_boot() {
    let mut ch = machine(VmmState::NotReady);
    ch.add_device(DeviceType::ShareFs(share_fs("virtio-fs", "virtiofsd.sock")));
    let mut large = share_fs("virtio-fs", "/abs.sock");
    large.config.queue_num = 3;
    large.config.queue_size = 512;
    ch.add_device(DeviceType::ShareFs(large));
    ch.add_device(DeviceType::ShareFs(share_fs("inline-virtio-fs", "ignored")));
    let fs = ch.get_shared_devices(2).unwrap().shared_fs_devices;
    assert_eq!(fs.len(), 3);
    assert_eq!(fs[0].socket, "/run/vm/virtiofsd.sock");
    assert_eq!((fs[0].num_queues, fs[0].queue_size), (1, 1024));
    assert_eq!(fs[0].tag, "kataShared");
    assert!(fs[0].backendfs_config.is_none());
    assert_eq!(fs[1].socket, "/abs.sock");
    assert_eq!((fs[1].num_queues, fs[1].queue_size), (3, 512));
    assert_eq!(fs[2].socket, "");
    assert!(fs[2].backendfs_config.unwrap().killpriv_v2);
}

#[test]
fn shared_file_systems_that_cannot_be_used() {
    let fails = |fs: ShareFsDevice, args: Vec<String>| {
        let mut ch = machine(VmmState::NotReady);
        ch.config.virtio_fs_extra_args = args;
        ch.add_device(DeviceType::ShareFs(fs));
        ch.get_shared_devices(2).unwrap_err()
    };
    let none = || Vec::new();
    assert_eq!(fails(share_fs("9p", ""), none()), DeviceError::UnsupportedSharedFs);
    let bad = vec![String::from("--nope")];
    assert_eq!(fails(share_fs("inline-virtio-fs", ""), bad), DeviceError::InvalidServerArgs);
    let mut large = share_fs("virtio-fs", "/s");
    large.config.queue_num = 1;
    large.config.queue_size = 65536;
    assert_eq!(fails(large, none()), DeviceError::QueueSize);
    assert_eq!(
        DeviceError::UnsupportedSharedFs.message(),
        "hypervisor isn't configured with shared_fs supported"
    );
}

#[test]
fn protection_of_the_guest_is_collected() {
    let mut ch = machine(VmmState::NotReady);
    let snp = |is_snp, data: &str| {
        DeviceType::Protection(ProtectionDeviceConfig::SevSnp { is_snp, host_data: Some(String::from(data)) })
    };
    ch.add_device(snp(true, "first"));
    ch.add_device(snp(false, "second"));
    ch.add_device(DeviceType::Protection(ProtectionDeviceConfig::Tdx { mrconfigid: Some(String::from("mr")) }));
    ch.add_device(DeviceType::Protection(ProtectionDeviceConfig::Other));
    let devices = ch.get_shared_devices(2).unwrap();
    assert_eq!(devices.protection_device.host_data.as_deref(), Some("first"));
    assert_eq!(devices.protection_device.mrconfigid.as_deref(), Some("mr"));

    let mut ch = machine(VmmState::NotReady);
    ch.add_device(DeviceType::Vfio(vfio("empty", &[])));
    assert_eq!(ch.get_shared_devices(2).unwrap_err(), DeviceError::NoPrimaryDevice);
}

#[test]
fn requests_for_a_running_machine() {
    let ch = machine(VmmState::VmRunning);
    match ch.handle_add_device(&network("eth0"), 100, None, 1).unwrap() {
        AttachRequest::AddNet(c) => {
            assert_eq!(c.tap.as_deref(), Some("tap-eth0"));
            assert_eq!(c.num_queues, 8);
            assert!(c.offload_csum && c.offload_tso && c.offload_ufo && !c.vhost_user);
        }
        other => panic!("{other:?}"),
    }
    let vhost = DeviceType::VhostUserNetwork(VhostUserNetDevice {
        device_id: String::from("vu"),
        config: VhostUserConfig {
            socket_path: String::from("/vu.sock"),
            mac_address: MacAddr { bytes: [9; 6] },
            num_queues: 3,
            queue_size: 512,
        },
    });
    match ch.handle_add_device(&vhost, 2, None, 1).unwrap() {
        AttachRequest::AddNet(c) => {
            assert_eq!(c.pci_common.id.as_deref(), Some("vu"));
            assert_eq!((c.num_queues, c.queue_size), (2, 512));
            assert_eq!(c.vhost_socket.as_deref(), Some("/vu.sock"));
            assert_eq!(c.vhost_mode, VhostMode::Server);
            assert!(c.vhost_user && c.tap.is_none());
            assert_eq!(c.mac.bytes, [9; 6]);
        }
        other => panic!("{other:?}"),
    }
    let hvsock = DeviceType::HybridVsock(HybridVsockDevice {
        id: String::from("vsock"),
        guest_cid: 3,
        uds_path: String::from("/vm.sock"),
    });
    match ch.handle_add_device(&hvsock, 2, None, 1).unwrap() {
        AttachRequest::AddVsock(c) => assert_eq!((c.cid, c.socket.as_str()), (3, "/vm.sock")),
        other => panic!("{other:?}"),
    }
    match ch.handle_add_device(&DeviceType::Vfio(vfio("g", &["/sys/a", "/sys/b"])), 2, None, 1).unwrap() {
        AttachRequest::AddDevice(c) => assert_eq!(c.path, "/sys/a"),
        other => panic!("{other:?}"),
    }
    assert_eq!(ch.handle_add_device(&DeviceType::Other, 2, None, 1).unwrap_err(), DeviceError::Unhandled);
}

#[test]
fn a_shared_file_system_for_a_running_machine() {
    let ch = machine(VmmState::VmRunning);
    let relative = DeviceType::ShareFs(share_fs("virtio-fs", "fs.sock"));
    assert_eq!(ch.handle_add_device(&relative, 2, None, 7).unwrap_err(), DeviceError::SocketPath);
    match ch.handle_add_device(&relative, 2, Some(String::from("/run/vm/fs.sock")), 7).unwrap() {
        AttachRequest::AddFs(c) => {
            assert_eq!(c.socket, "/run/vm/fs.sock");
            assert_eq!(c.pci_common.pci_segment, 7);
        }
        other => panic!("{other:?}"),
    }
    let absolute = DeviceType::ShareFs(share_fs("virtio-fs", "/fs.sock"));
    match ch.handle_add_device(&absolute, 2, None, 7).unwrap() {
        AttachRequest::AddFs(c) => assert_eq!(c.socket, "/fs.sock"),
        other => panic!("{other:?}"),
    }
}

#[test]
fn disks_take_the_configured_limits() {
    let mut ch = machine(VmmState::VmRunning);
    ch.config.blockdev_info.block_device_cache_direct = true;
    ch.config.blockdev_info.disk_rate_limiter_ops_max_rate = 500;
    ch.config.blockdev_info.disk_rate_limiter_ops_one_time_burst = Some(50);
    let disk = |ch: &CloudHypervisorInner, b: BlockDevice| match ch
        .handle_add_device(&DeviceType::Block(b), 2, None, 1)
        .unwrap()
    {
        AttachRequest::AddDisk(c) => c,
        other => panic!("{other:?}"),
    };
    let c = disk(&ch, block("b"));
    assert_eq!(c.path.as_deref(), Some("/dev/loop0"));
    assert!(c.readonly && c.direct);
    assert_eq!((c.num_queues, c.queue_size), (2, 128));
    assert_eq!(
        c.rate_limiter_config,
        Some(RateLimiterConfig {
            bandwidth: None,
            ops: Some(TokenBucketConfig { size: 500, one_time_burst: Some(50), refill_time: 1000 }),
        })
    );
    let mut own = block("b");
    own.config.is_direct = Some(false);
    assert!(!disk(&ch, own).direct);
    ch.device_defaults.refill_time = 250;
    let limits = disk(&ch, block("b")).rate_limiter_config.unwrap();
    assert_eq!(limits.ops.unwrap().refill_time, 250);
    ch.config.blockdev_info.disk_rate_limiter_ops_max_rate = 0;
    assert!(disk(&ch, block("b")).rate_limiter_config.is_none());
}

#[test]
fn a_block_device_is_removed_by_the_hypervisors_name() {
    let mut ch = machine(VmmState::VmRunning);
    let device = ch.block_device_added(block("b1"), answer("_disk3", "0000:00:05.0", Some("05"))).unwrap();
    assert_eq!(device.config.pci_path.as_ref().unwrap().text, "05");
    assert!(ch.get_overlayfs_block_device().is_none());
    assert_eq!(ch.remove_device(&DeviceType::Block(device)).unwrap().as_deref(), Some("_disk3"));
    assert_eq!(ch.remove_device(&DeviceType::Block(block("b2"))).unwrap_err(), DeviceError::UnknownBlockDevice);
    assert_eq!(ch.remove_device(&DeviceType::Vfio(vfio("g", &[]))).unwrap_err(), DeviceError::UnknownDevice);
    assert_eq!(ch.remove_device(&DeviceType::Other).unwrap(), None);
}

#[test]
fn an_overlay_device_is_kept() {
    let mut ch = machine(VmmState::VmRunning);
    let mut overlay = block("o");
    overlay.config.is_overlayfs = true;
    ch.block_device_added(overlay, None).unwrap();
    assert_eq!(ch.get_overlayfs_block_device().unwrap().device_id, "o");
}

#[test]
fn an_unexpected_address_is_reported_but_the_device_is_known() {
    let mut ch = machine(VmmState::VmRunning);
    let err = ch.block_device_added(block("b"), answer("_disk1", "0000:01:05.0", None)).unwrap_err();
    assert_eq!(err, DeviceError::UnexpectedPciAddress);
    assert_eq!(ch.remove_device(&DeviceType::Block(block("b"))).unwrap().as_deref(), Some("_disk1"));
    let err = ch.vfio_device_added(vfio("g", &["/sys/a"]), answer("_vfio", "0000:00:zz.0", None)).unwrap_err();
    assert_eq!(err, DeviceError::InvalidPciPath);
    let device = ch.vfio_device_added(vfio("g", &["/sys/a", "/sys/b"]), answer("_vfio", "0000:00:06.0", Some("06"))).unwrap();
    assert_eq!(device.devices[0].guest_pci_path.as_ref().unwrap().text, "06");
    assert!(device.devices[1].guest_pci_path.is_none());
    assert_eq!(ch.remove_device(&DeviceType::Vfio(device)).unwrap().as_deref(), Some("_vfio"));
}

#[test]
fn addresses_have_one_form() {
    assert_eq!(clh_pci_slot("0000:00:0a.0"), Ok(String::from("0a")));
    for bdf in ["", "0000:00:0a", "0000:00:0a.1", "0001:00:0a.0", "0000:01:0a.0", "0000:00:a.0", "0:0000:00:0a.0", "0000:00:0a.0.0", "0000:00:€.0"] {
        assert_eq!(clh_pci_slot(bdf), Err(DeviceError::UnexpectedPciAddress), "{bdf}");
    }
    assert_eq!(clh_pci_slot("0000:00:ü.0"), Ok(String::from("ü")));
}

#[test]
fn devices_that_waited_come_in_order_after_the_boot() {
    let mut ch = machine(VmmState::NotReady);
    ch.add_device(network("eth0"));
    ch.add_device(network("eth1"));
    assert_eq!(ch.next_pending_device().unwrap_err(), VmmState::NotReady);
    ch.state = VmmState::VmRunning;
    for name in ["eth0", "eth1"] {
        match ch.next_pending_device().unwrap() {
            Some(DeviceType::Network(d)) => assert_eq!(d.device_id, name),
            other => panic!("{other:?}"),
        }
    }
    assert!(ch.next_pending_device().unwrap().is_none());
}

#[test]
fn only_mounts_in_a_shared_file_system_are_updated() {
    let ch = machine(VmmState::VmRunning);
    let mut fs = share_fs("virtio-fs", "/s");
    fs.config.mount_config = Some(ShareFsMountConfig {
        source: String::from("/src"),
        fstype: ShareFsMountType::RAFS,
        mount_point: String::from("/mnt"),
        config: Some(String::from("{}")),
        tag: String::from("tag"),
        op: ShareFsMountOperation::Umount,
        prefetch_list_path: None,
    });
    let update = ch.update_device(&DeviceType::ShareFs(fs)).unwrap();
    assert_eq!(update.ops, "umount");
    assert_eq!(update.fstype.as_deref(), Some("rafs"));
    assert_eq!(update.source.as_deref(), Some("/src"));
    assert_eq!(update.mountpoint, "/mnt");
    assert_eq!(update.config.as_deref(), Some("{}"));
    assert_eq!(update.tag, "tag");
    assert_eq!(ch.update_device(&DeviceType::Other).unwrap_err(), DeviceError::UnsupportedUpdate);
}

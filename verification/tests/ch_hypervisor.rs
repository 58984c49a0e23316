use kata_runtime::ch::device::{AttachRequest, ProtectionDevConfig, SharedDevices};
use kata_runtime::ch::hypervisor::{
    boot_steps, Arch, BootDefaults, BootKind, BootStep, HypervisorError, KernelParamGroup,
    LifecycleError, MemoryResize, StartFailure, StartOutcome, StartStep, VcpuResize,
};
use kata_runtime::ch::inner::{CloudHypervisorInner, DeviceDefaults, VmmState};
use kata_runtime::ch::protection::{
    get_fake_guest_protection, get_guest_protection, GuestProtection, GuestProtectionError,
    SevSnpDetails,
};
use kata_runtime::ch::types::{DeviceConfig, NetConfig, PciDeviceCommonConfig};
use kata_runtime::ch::virtiofs::BackendFsConfig;
use kata_runtime::config::{CurrentVcpus, HypervisorConfig, Vcpus};

const TEMPLATE_SIZE: u32 = 128;

fn device_defaults() -> DeviceDefaults {
    DeviceDefaults {
        refill_time: 1000,
        server: BackendFsConfig {
            thread_pool_size: 0,
            drop_sys_resource: false,
            cache: 0,
            no_open: false,
            writeback_cache: false,
            xattr: false,
            no_readdir: false,
            killpriv_v2: false,
        },
    }
}

fn machine() -> CloudHypervisorInner {
    CloudHypervisorInner::new(HypervisorConfig::default(), device_defaults())
}

fn defaults() -> BootDefaults {
    BootDefaults {
        rootfs_driver_blk: String::from("virtio-blk-pci"),
        rootfs_type: String::from("ext4"),
        passfd_listener_port: String::from("agent.passfd_listener_port"),
    }
}

fn text(group: &KernelParamGroup) -> &str {
    match group {
        KernelParamGroup::Text(t) => t,
        other => panic!("{other:?}"),
    }
}

#[test]
fn test_get_guest_protection() {
    let sev_snp_details = SevSnpDetails { cbitpos: 42, phys_addr_reduction: 42 };

    let tests = [
        (Some(GuestProtection::NoProtection), GuestProtection::NoProtection),
        (Some(GuestProtection::Pef), GuestProtection::Pef),
        (Some(GuestProtection::Se), GuestProtection::Se),
        (Some(GuestProtection::Sev(sev_snp_details)), GuestProtection::Sev(sev_snp_details)),
        (Some(GuestProtection::Snp(sev_snp_details)), GuestProtection::Snp(sev_snp_details)),
        (Some(GuestProtection::Tdx), GuestProtection::Tdx),
    ];

    for (i, (value, expected)) in tests.iter().enumerate() {
        let available: Result<GuestProtection, String> = Ok(GuestProtection::NoProtection);
        let result = get_guest_protection(true, *value, available);
        assert_eq!(result, Ok(*expected), "test[{i}]");
    }
}

#[test]
fn test_get_guest_protection_tdx() {
    for have_tdx in [true, false] {
        let available: Result<GuestProtection, String> =
            Ok(if have_tdx { GuestProtection::Tdx } else { GuestProtection::NoProtection });
        let protection = get_guest_protection(true, None, available).unwrap();

        if have_tdx {
            assert_eq!(protection, GuestProtection::Tdx);
        } else {
            assert_eq!(protection, GuestProtection::NoProtection);
        }
    }
}

#[test]
fn test_handle_guest_protection() {
    let tests = [
        (false, GuestProtection::NoProtection, Ok(()), GuestProtection::NoProtection),
        (
            true,
            GuestProtection::NoProtection,
            Err(GuestProtectionError::NoProtectionAvailable),
            GuestProtection::NoProtection,
        ),
        (
            false,
            GuestProtection::Tdx,
            Err(GuestProtectionError::TDXProtectionMustBeUsedWithCH),
            GuestProtection::Tdx,
        ),
        (true, GuestProtection::Tdx, Ok(()), GuestProtection::Tdx),
        (false, GuestProtection::Pef, Ok(()), GuestProtection::NoProtection),
        (
            true,
            GuestProtection::Pef,
            Err(GuestProtectionError::ExpectedTDXProtection(GuestProtection::Pef)),
            GuestProtection::Pef,
        ),
    ];

    for (i, (confidential_guest, available, expected, protection_to_use)) in tests.iter().enumerate() {
        let mut ch = machine();
        let mut cfg = HypervisorConfig::default();
        cfg.security_info.confidential_guest = *confidential_guest;
        ch.set_hypervisor_config(cfg);

        let result = ch.handle_guest_protection(*available);

        if expected.is_ok() && result.is_ok() {
            continue;
        }

        assert_eq!(*expected, result, "test[{i}]");
        assert_eq!(ch.guest_protection_to_use, *protection_to_use, "test[{i}]");
    }
}

#[test]
fn test_get_kernel_params() {
    let tests: [(Option<HypervisorConfig>, bool, bool, Vec<&str>); 2] =
        [(None, false, false, vec![]), (Some(HypervisorConfig::default()), false, false, vec![])];

    for (i, (cfg, confidential_guest, debug, contains)) in tests.into_iter().enumerate() {
        let mut ch = machine();

        if let Some(mut cfg) = cfg {
            if debug {
                cfg.enable_debug = true;
            }
            if confidential_guest {
                cfg.security_info.confidential_guest = true;
            }
            ch.set_hypervisor_config(cfg);

            let result = ch.get_kernel_params(&defaults(), Arch::X86_64);
            assert!(!result.is_empty(), "test[{i}]");

            for token in contains {
                assert!(result.iter().any(|g| matches!(g, KernelParamGroup::Text(t) if t.contains(token))));
            }
        }
    }
}

#[test]
fn what_the_host_says_counts_outside_tests() {
    let host: Result<GuestProtection, &str> = Ok(GuestProtection::Se);
    assert_eq!(get_guest_protection(false, Some(GuestProtection::Tdx), host), Ok(GuestProtection::Se));
    let broken: Result<GuestProtection, &str> = Err("no privileges");
    assert_eq!(get_fake_guest_protection(Some(GuestProtection::Tdx), broken), Err("no privileges"));
    assert_eq!(
        GuestProtectionError::ExpectedTDXProtection(GuestProtection::Pef).message("pef"),
        "Expected TDX protection, found pef"
    );
    assert_eq!(
        GuestProtectionError::NoProtectionAvailable.message(""),
        "guest protection requested but no guest protection available"
    );
}

#[test]
fn kernel_parameters_end_with_the_users() {
    let mut ch = machine();
    ch.config.boot_info.kernel_params = String::from("quiet=0 foo");
    ch.config.boot_info.vm_rootfs_driver = String::from("virtio-pmem");
    let groups = ch.get_kernel_params(&defaults(), Arch::X86_64);
    assert_eq!(groups.len(), 5);
    assert!(matches!(groups[0], KernelParamGroup::Defaults { debug: false }));
    assert_eq!(text(&groups[1]), "quiet");
    match &groups[2] {
        KernelParamGroup::Rootfs { verity_params, driver, fs_type } => {
            assert_eq!((verity_params.as_str(), driver.as_str(), fs_type.as_str()), ("", "virtio-pmem", "ext4"));
        }
        other => panic!("{other:?}"),
    }
    assert_eq!(text(&groups[3]), "no_timer_check noreplace-smp systemd.log_target=console");
    assert_eq!(text(&groups[4]), "quiet=0 foo");
}

#[test]
fn consoles_and_the_io_port() {
    let mut ch = machine();
    ch.config.enable_debug = true;
    ch.config.boot_info.rootfs_type = String::from("xfs");
    ch.passfd_listener_port = Some(1027);
    let groups = ch.get_kernel_params(&defaults(), Arch::Aarch64);
    assert_eq!(text(&groups[1]), "agent.passfd_listener_port=1027");
    assert_eq!(text(&groups[2]), "console=ttyAMA0,115200n8");
    assert_eq!(text(&ch.get_kernel_params(&defaults(), Arch::X86_64)[2]), "console=ttyS0,115200n8");

    ch.config.security_info.confidential_guest = true;
    let groups = ch.get_kernel_params(&defaults(), Arch::X86_64);
    assert_eq!(text(&groups[2]), "console=hvc0");
    match &groups[3] {
        KernelParamGroup::Rootfs { driver, fs_type, .. } => {
            assert_eq!((driver.as_str(), fs_type.as_str()), ("virtio-blk-pci", "xfs"));
        }
        other => panic!("{other:?}"),
    }
}

fn no_devices() -> SharedDevices {
    SharedDevices {
        shared_fs_devices: vec![],
        network_devices: vec![],
        host_devices: vec![],
        protection_device: ProtectionDevConfig { host_data: None, mrconfigid: None },
    }
}

#[test]
fn the_template_boots_small() {
    let mut ch = machine();
    ch.vm_path = String::from("/run/vm/s1");
    ch.config.cpu_info.default_vcpus = Vcpus { bits: 4.0f32.to_bits() };
    ch.config.memory_info.default_memory = 2048;
    let cfg = ch.boot_vm(no_devices(), String::from("params"), "/run/vm/s1", TEMPLATE_SIZE);
    assert_eq!(cfg.cfg.cpu_info.default_vcpus.bits, 4.0f32.to_bits());
    assert_eq!(cfg.cfg.memory_info.default_memory, 2048);
    assert_eq!(cfg.vsock_socket_path, "/run/vm/s1/ch-vm.sock");
    assert_eq!(cfg.sandbox_path, "/run/vm/s1");

    ch.config.vm_template.boot_to_be_template = true;
    let cfg = ch.boot_vm(no_devices(), String::new(), "/run/vm/s1", TEMPLATE_SIZE);
    assert_eq!(cfg.cfg.cpu_info.default_vcpus.bits, 1.0f32.to_bits());
    assert_eq!(cfg.cfg.memory_info.default_memory, TEMPLATE_SIZE);
}

#[test]
fn the_whole_configuration_is_booted() {
    for to_be_template in [false, true] {
        let mut ch = machine();
        ch.config.boot_info.kernel = String::from("/vmlinuz");
        ch.config.boot_info.image = String::from("/image");
        ch.config.virtio_fs_extra_args = vec![String::from("-d"), String::from("-o")];
        ch.config.cpu_info.default_vcpus = Vcpus { bits: 4.0f32.to_bits() };
        ch.config.cpu_info.default_maxvcpus = 8;
        ch.config.memory_info.default_memory = 2048;
        ch.config.memory_info.default_maxmemory = 4096;
        ch.config.memory_info.enable_hugepages = true;
        ch.config.vm_template.boot_to_be_template = to_be_template;
        let mut expected = ch.config.clone();
        if to_be_template {
            expected.cpu_info.default_vcpus = Vcpus { bits: 1.0f32.to_bits() };
            expected.memory_info.default_memory = TEMPLATE_SIZE;
        }
        let booted = ch.boot_config(TEMPLATE_SIZE);
        assert_eq!(format!("{booted:?}"), format!("{expected:?}"));
        assert_eq!(ch.config.memory_info.default_memory, 2048);
        let named = ch.boot_vm(no_devices(), String::new(), "/run/vm/s1", TEMPLATE_SIZE);
        assert_eq!(named.cfg.boot_info.kernel, "/vmlinuz");
        assert_eq!(format!("{:?}", named.cfg), format!("{expected:?}"));
    }
}

#[test]
fn a_restored_machine_gets_its_devices_from_the_last() {
    let mut ch = machine();
    ch.config.factory.template_path = String::from("file:///tpl");
    let net = |name: &str| NetConfig {
        pci_common: PciDeviceCommonConfig { id: Some(String::from(name)), ..Default::default() },
        ..Default::default()
    };
    let mut devices = no_devices();
    devices.network_devices = vec![net("a"), net("b")];
    devices.host_devices = vec![DeviceConfig { path: String::from("/d"), pci_common: Default::default() }];
    let (restore, requests) = ch.boot_from_template(devices, "/run/s");
    assert_eq!(restore.source_url.as_deref(), Some("file:///tpl"));
    assert_eq!(restore.vsock_socket_path, "/run/s/ch-vm.sock");
    match &requests[..] {
        [AttachRequest::AddNet(first), AttachRequest::AddNet(second), AttachRequest::AddDevice(last)] => {
            assert_eq!(first.pci_common.id.as_deref(), Some("b"));
            assert_eq!(second.pci_common.id.as_deref(), Some("a"));
            assert_eq!(last.path, "/d");
        }
        other => panic!("{other:?}"),
    }
}

#[test]
fn launching_with_and_without_debug() {
    let mut ch = machine();
    ch.netns = Some(String::from("/ns"));
    let plan = ch.cloud_hypervisor_launch("/run/s");
    assert_eq!((plan.seccomp, plan.api_socket), ("false", None));
    assert_eq!(plan.netns.as_deref(), Some("/ns"));
    ch.config.security_info.disable_seccomp = true;
    ch.config.enable_debug = true;
    let plan = ch.cloud_hypervisor_launch("/run/s");
    assert_eq!((plan.seccomp, plan.api_socket.as_deref()), ("true", Some("/run/s/ch-api.sock")));
}

#[test]
fn a_virtual_machine_starts() {
    let mut ch = machine();
    assert_eq!(ch.start_vm(10), StartStep::Launch);
    assert_eq!(ch.connect_timeout(), 10);
    assert_eq!(ch.next_start_step(StartStep::Launch, true), StartOutcome::Next(StartStep::WaitForServer));
    assert!(!ch.handle_ping(None));
    assert!(ch.handle_ping(Some(vec![String::from("kvm")])));
    assert_eq!(
        ch.next_start_step(StartStep::WaitForServer, true),
        StartOutcome::Next(StartStep::Boot(BootKind::FromKernel))
    );
    assert_eq!(ch.state, VmmState::VmmServerReady);
    assert_eq!(ch.next_start_step(StartStep::Boot(BootKind::FromKernel), true), StartOutcome::Running);
    assert_eq!(ch.state, VmmState::VmRunning);
}

#[test]
fn a_virtual_machine_that_does_not_boot_is_stopped() {
    let mut ch = machine();
    ch.config.vm_template.boot_from_template = true;
    assert_eq!(ch.boot_kind(), BootKind::FromTemplate);
    ch.config.memory_info.enable_hugepages = true;
    assert_eq!(ch.boot_kind(), BootKind::FromKernel);
    assert_eq!(
        ch.next_start_step(StartStep::Boot(BootKind::FromKernel), false),
        StartOutcome::Next(StartStep::StopVm)
    );
    assert_eq!(ch.next_start_step(StartStep::StopVm, true), StartOutcome::Failed(StartFailure::Boot));
    assert_eq!(ch.next_start_step(StartStep::Launch, false), StartOutcome::Failed(StartFailure::Launch));
    assert_eq!(
        ch.next_start_step(StartStep::WaitForServer, false),
        StartOutcome::Failed(StartFailure::WaitForServer)
    );
    assert_eq!(ch.state, VmmState::NotReady);
}

#[test]
fn tdx_needs_a_hypervisor_built_for_it() {
    let mut ch = machine();
    ch.guest_protection_to_use = GuestProtection::Tdx;
    assert_eq!(ch.check_features(), Ok(()));
    ch.ch_features = Some(vec![String::from("kvm")]);
    assert_eq!(ch.check_features(), Err(HypervisorError::NoTdxSupport));
    assert_eq!(
        ch.next_start_step(StartStep::WaitForServer, true),
        StartOutcome::Failed(StartFailure::NoTdxSupport)
    );
    ch.ch_features = Some(vec![String::from("kvm"), String::from("tdx")]);
    assert_eq!(ch.check_features(), Ok(()));
    assert!(!ch.capabilities().fs_sharing);
    ch.guest_protection_to_use = GuestProtection::NoProtection;
    ch.ch_features = None;
    assert!(ch.capabilities().fs_sharing && ch.capabilities().block_device);
    assert_eq!(HypervisorError::NoTdxSupport.message(), "Cloud Hypervisor is not built with TDX support");
}

#[test]
fn steps_of_a_boot() {
    assert_eq!(boot_steps(BootKind::FromKernel).last(), Some(&BootStep::StartVm));
    assert_eq!(boot_steps(BootKind::FromTemplate)[2], BootStep::RestoreVm);
}

#[test]
fn preparing_a_virtual_machine() {
    let mut ch = machine();
    ch.state = VmmState::VmRunning;
    assert_eq!(ch.begin_prepare("s1", "/run/s1"), vec!["/run/s1"]);
    assert_eq!((ch.id.as_str(), ch.vm_path.as_str(), ch.run_dir.as_str()), ("s1", "/run/s1", "/run/s1"));
    assert_eq!(ch.state, VmmState::NotReady);
    ch.jailer_root = String::from("/jail");
    assert_eq!(ch.begin_prepare("s1", "/run/s1"), vec!["/run/s1", "/jail"]);

    let label = ch.finish_prepare(Some(String::from("/ns")), Some(String::from("label")));
    assert_eq!(label.as_deref(), Some("label"));
    assert_eq!(ch.config.security_info.selinux_label.as_deref(), Some("label"));
    assert_eq!(ch.netns.as_deref(), Some("/ns"));
    ch.config.disable_selinux = true;
    assert_eq!(ch.finish_prepare(None, Some(String::from("other"))), None);
    assert_eq!(ch.config.security_info.selinux_label.as_deref(), Some("label"));
}

#[test]
fn stopping_twice_shuts_down_once() {
    let mut ch = machine();
    ch.state = VmmState::VmRunning;
    assert!(ch.begin_stop());
    assert!(!ch.begin_stop());
    ch.finish_stop();
    assert_eq!(ch.state, VmmState::NotReady);
    assert!(!ch.begin_stop());
    ch.state = VmmState::VmRunning;
    ch.disconnect();
    assert_eq!(ch.state, VmmState::NotReady);
}

#[test]
fn pausing_saving_and_resuming() {
    let mut ch = machine();
    ch.config.factory.template_path = String::from("file:///tpl");
    assert_eq!(ch.check_pause(), Err(VmmState::NotReady));
    assert_eq!(ch.pause_vm::<&str>(Ok(())), Err(LifecycleError::WrongState(VmmState::NotReady)));
    ch.state = VmmState::VmRunning;
    assert_eq!(ch.save_vm(), Err(VmmState::VmRunning));
    assert_eq!(ch.pause_vm(Err("busy")), Err(LifecycleError::Refused("busy")));
    assert_eq!(ch.state, VmmState::VmRunning);
    assert_eq!(ch.pause_vm::<&str>(Ok(())), Ok(()));
    assert_eq!(ch.state, VmmState::VmPaused);
    assert_eq!(ch.save_vm(), Ok(String::from("file:///tpl")));
    assert_eq!(ch.check_resume(), Ok(()));
    assert_eq!(ch.resume_vm::<&str>(Ok(())), Ok(()));
    assert_eq!(ch.state, VmmState::VmRunning);
    assert_eq!(ch.resume_vm::<&str>(Ok(())), Err(LifecycleError::WrongState(VmmState::VmRunning)));
}

#[test]
fn memory_is_resized() {
    let mut ch = machine();
    ch.config.memory_info.default_memory = 2048;
    ch.config.memory_info.default_maxmemory = 8192;
    assert_eq!(
        ch.resize_memory_unit(4096, TEMPLATE_SIZE),
        MemoryResize { reported_mb: 4096, request: Some(4096 * 1024 * 1024) }
    );
    assert_eq!(ch.mem_hotplug_size_mb, 2048);
    assert_eq!(
        ch.resize_memory_unit(4096, TEMPLATE_SIZE),
        MemoryResize { reported_mb: 4096, request: None }
    );
    assert_eq!(ch.resize_memory_unit(9000, TEMPLATE_SIZE), MemoryResize { reported_mb: 0, request: None });
    assert_eq!(ch.mem_hotplug_size_mb, 2048);
    assert_eq!(
        ch.resize_memory_unit(1024, TEMPLATE_SIZE),
        MemoryResize { reported_mb: 1024, request: Some(1024 * 1024 * 1024) }
    );
    assert_eq!(ch.mem_hotplug_size_mb, 0);
}

#[test]
fn memory_of_a_machine_from_the_template() {
    let mut ch = machine();
    ch.config.memory_info.default_memory = 2048;
    ch.config.memory_info.default_maxmemory = 8192;
    ch.config.vm_template.boot_from_template = true;
    assert_eq!(ch.resize_memory(2048), vec![2048]);
    assert_eq!(ch.resize_memory(6144), vec![5120, 6144]);
    assert_eq!(
        ch.resize_memory_unit(2048, TEMPLATE_SIZE),
        MemoryResize { reported_mb: 2048, request: Some(2048 * 1024 * 1024) }
    );
    assert_eq!(ch.mem_hotplug_size_mb, 2048 - TEMPLATE_SIZE);
    assert!(!ch.config.vm_template.boot_from_template);
    assert_eq!(ch.resize_memory(6144), vec![6144]);
    ch.config.memory_info.default_memory = 512;
    ch.mem_hotplug_size_mb = 0;
    assert_eq!(ch.resize_memory(5121), vec![5120, 5121]);
    assert_eq!(ch.resize_memory(5120), vec![5120]);
}

#[test]
fn vcpus_are_resized_within_the_limit() {
    let mut ch = machine();
    ch.config.cpu_info.default_maxvcpus = 8;
    assert_eq!(
        ch.resize_vcpu(2, 4),
        Ok(VcpuResize { old_vcpus: 2, new_vcpus: 4, request: Some(4) })
    );
    assert_eq!(
        ch.resize_vcpu(2, 16),
        Ok(VcpuResize { old_vcpus: 2, new_vcpus: 8, request: Some(8) })
    );
    assert_eq!(ch.resize_vcpu(3, 3), Ok(VcpuResize { old_vcpus: 3, new_vcpus: 3, request: None }));
    assert_eq!(ch.resize_vcpu(2, 0), Err(HypervisorError::ZeroVcpus));
    assert_eq!(ch.precheck_resize_vcpus(1, 9), Ok((1, 8)));
    assert_eq!(HypervisorError::ZeroVcpus.message(), "resize vcpu error: 0 vcpu resizing is invalid");
    ch.vcpus_resized(8);
    assert_eq!(ch.config.cpu_info.current_vcpus, CurrentVcpus::Whole(8));
}

#[test]
fn addresses_of_the_agent() {
    let mut ch = machine();
    assert_eq!(ch.get_agent_socket("/run/s"), "hvsock:///run/s/ch-vm.sock");
    assert_eq!(ch.get_passfd_listener_addr("/run/s"), Err(HypervisorError::NoPassfdListener));
    ch.passfd_listener_port = Some(1027);
    assert_eq!(ch.get_passfd_listener_addr("/run/s"), Ok((String::from("/run/s/ch-vm.sock"), 1027)));
    assert_eq!(ch.get_hypervisor_metrics(), Err(HypervisorError::NoMetrics));
    ch.set_guest_memory_block_size(128);
    assert_eq!(ch.guest_memory_block_size_mb(), 128);
}

#[test]
fn a_protection_that_is_not_asked_for_is_not_used() {
    let details = SevSnpDetails { cbitpos: 1, phys_addr_reduction: 2 };
    for protection in [
        GuestProtection::NoProtection,
        GuestProtection::Pef,
        GuestProtection::Se,
        GuestProtection::Sev(details),
        GuestProtection::Snp(details),
    ] {
        let mut ch = machine();
        ch.guest_protection_to_use = GuestProtection::Tdx;
        assert_eq!(ch.handle_guest_protection(protection), Ok(()));
        assert_eq!(ch.guest_protection_to_use, GuestProtection::NoProtection);
    }
    let mut ch = machine();
    ch.config.security_info.confidential_guest = true;
    assert_eq!(ch.handle_guest_protection(GuestProtection::Tdx), Ok(()));
    assert_eq!(ch.guest_protection_to_use, GuestProtection::Tdx);
}

#[test]
fn a_refused_protection_is_kept() {
    let mut ch = machine();
    assert_eq!(
        ch.handle_guest_protection(GuestProtection::Tdx),
        Err(GuestProtectionError::TDXProtectionMustBeUsedWithCH)
    );
    assert_eq!(ch.guest_protection_to_use, GuestProtection::Tdx);
    ch.config.security_info.confidential_guest = true;
    assert_eq!(
        ch.handle_guest_protection(GuestProtection::Pef),
        Err(GuestProtectionError::ExpectedTDXProtection(GuestProtection::Pef))
    );
    assert_eq!(ch.guest_protection_to_use, GuestProtection::Pef);
}

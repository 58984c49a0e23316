use kata_runtime::ch::hypervisor::BootKind;
use kata_runtime::ch::inner::{CloudHypervisorInner, DeviceDefaults};
use kata_runtime::ch::virtiofs::BackendFsConfig;
use kata_runtime::config::{FactoryConfig, HypervisorConfig, PartNames, TomlConfig, Vcpus};
use kata_runtime::factory::base::{
    get_factory_base, get_factory_instance, CloseStep, Direct, FactoryBase, FactoryChoice,
    FactoryError,
};
use kata_runtime::factory::ops::{
    destroy, init, load_config, status, update_agent_kernel_params, AfterFetch, FactorySubCommand,
    FetchOutcome, LoadError,
};
use kata_runtime::factory::template::{
    check_template_vm, default_sandbox_config, gives_back_resources, is_mounted, next_save_step,
    next_stage, remove_dir_on_failure, save_outcome, stage_failed, template_vm_steps,
    ContainerState, CreateStage, FromTemplateError, PrepareStep, SaveStep, Template, TemplateError,
    TemplatePlan,
};
use kata_runtime::factory::vm::{
    mem_size, ncpus, next_vm_step, BareVM, HypervisorKind, NewVmStep, TemplateVm, VMConfig,
    VmConfig, VmDefaults, VmError,
};
use kata_runtime::migration::{recv_vm_config, recv_vm_state, url_to_path, FileKind};
use kata_runtime::name_map::NameMap;

fn toml(hypervisor: &str, factory_type: &str) -> TomlConfig<u32> {
    let mut hypervisors = NameMap::new();
    let mut h = HypervisorConfig::default();
    h.memory_info.default_memory = 2048;
    hypervisors.insert(String::from(hypervisor), h);
    let mut agents = NameMap::new();
    agents.insert(String::from("kata"), 7);
    TomlConfig {
        hypervisor_name: String::from(hypervisor),
        agent_name: String::from("kata"),
        hypervisor: hypervisors,
        agent: agents,
        factory: FactoryConfig {
            factory_type: String::from(factory_type),
            template_path: String::from("/run/tpl"),
        },
    }
}

fn names() -> PartNames {
    PartNames {
        cloud_hypervisor: String::from("cloud-hypervisor"),
        qemu: String::from("qemu"),
        agent: String::from("kata"),
    }
}

fn template_of(config: TomlConfig<u32>) -> Template<u32> {
    Template::new(String::from("/run/tpl"), VMConfig::new(config), names())
}

fn template(hypervisor: &str) -> Template<u32> {
    template_of(toml(hypervisor, "template"))
}

fn device_defaults() -> DeviceDefaults {
    DeviceDefaults {
        refill_time: 1000,
        server: BackendFsConfig {
            thread_pool_size: 0,
            drop_sys_resource: false,
            cache: 0,
            no_open: false,
            writeback_cache: false,
            xattr: false,
            no_readdir: false,
            killpriv_v2: false,
        },
    }
}

fn defaults() -> VmDefaults {
    VmDefaults {
        machine_type_s390x: String::from("s390-ccw-virtio"),
        guest_vcpus: Vcpus { bits: 1.0f32.to_bits() },
        memory_size_mb: 128,
        pci_bridges: 2,
        block_device_type: String::from("virtio-blk-pci"),
        virtio_block_pci: String::from("virtio-blk-pci"),
        virtio_block_ccw: String::from("virtio-blk-ccw"),
        max_vcpus: 256,
    }
}

fn bootable() -> HypervisorConfig {
    let mut h = HypervisorConfig::default();
    h.boot_info.kernel = String::from("/vmlinuz");
    h.boot_info.image = String::from("/image");
    h
}

fn validate(h: &mut HypervisorConfig) -> Result<(), VmError> {
    VmConfig::<()>::validate_hypervisor_config(h, &defaults())
}

#[test]
fn configurations_are_looked_up_by_name() {
    let config = VMConfig::new(toml("qemu", "template"));
    assert_eq!(config.hypervisor_name(), "qemu");
    assert_eq!(config.agent_name(), "kata");
    assert_eq!(config.hypervisor_config().unwrap().memory_info.default_memory, 2048);
    assert_eq!(*config.agent_config().unwrap(), 7);

    let vm = VmConfig::new(&toml("qemu", "template"), &bootable());
    assert_eq!((vm.hypervisor_config.memory_info.default_memory, vm.agent_config), (2048, 7));
    let mut other = toml("qemu", "template");
    other.hypervisor_name = String::from("firecracker");
    other.agent_name = String::from("none");
    let vm = VmConfig::new(&other, &bootable());
    assert_eq!((vm.hypervisor_config.boot_info.kernel.as_str(), vm.agent_config), ("/vmlinuz", 0));
    let config = VMConfig::new(other);
    assert_eq!(config.hypervisor_config().unwrap_err().message(), "failed to get hypervisor for firecracker");
    assert_eq!(config.agent_config().unwrap_err().message(), "failed to get agent for none");
}

#[test]
fn boot_configurations_that_are_not_valid() {
    let message = |h: &mut HypervisorConfig| validate(h).unwrap_err().message();
    let mut h = bootable();
    h.boot_info.kernel = String::new();
    assert_eq!(message(&mut h), "missing kernel path");
    let mut h = bootable();
    h.boot_info.image = String::new();
    assert_eq!(message(&mut h), "missing image and initrd path");
    let mut h = bootable();
    h.boot_info.initrd = String::from("/initrd");
    assert_eq!(message(&mut h), "image and initrd path cannot both be set");
    let mut h = bootable();
    h.security_info.confidential_guest = true;
    h.machine_type = String::from("s390-ccw-virtio");
    assert_eq!(message(&mut h), "secure execution mode does not allow image or initrd");
    h.boot_info.image = String::new();
    assert!(validate(&mut h).is_ok());
}

#[test]
fn what_is_left_out_is_filled_in() {
    let mut h = bootable();
    validate(&mut h).unwrap();
    assert_eq!(h.cpu_info.default_vcpus.bits, 1.0f32.to_bits());
    assert_eq!(h.memory_info.default_memory, 128);
    assert_eq!(h.default_bridges, 2);
    assert_eq!(h.blockdev_info.block_device_driver, "virtio-blk-pci");
    assert_eq!(h.cpu_info.default_maxvcpus, 256);

    let mut h = bootable();
    h.cpu_info.default_vcpus = Vcpus { bits: (-0.0f32).to_bits() };
    h.cpu_info.default_maxvcpus = 300;
    h.memory_info.default_memory = 512;
    h.machine_type = String::from("s390-ccw-virtio");
    h.blockdev_info.block_device_driver = String::from("virtio-blk-pci");
    validate(&mut h).unwrap();
    assert_eq!(h.cpu_info.default_vcpus.bits, 1.0f32.to_bits());
    assert_eq!(h.cpu_info.default_maxvcpus, 256);
    assert_eq!(h.memory_info.default_memory, 512);
    assert_eq!(h.blockdev_info.block_device_driver, "virtio-blk-ccw");
    validate(&mut h).unwrap();
    assert_eq!(h.blockdev_info.block_device_driver, "virtio-blk-ccw");
}

#[test]
fn a_remote_hypervisor_is_left_alone() {
    let mut h = HypervisorConfig::default();
    h.hypervisor_socket = String::from("/run/remote.sock");
    validate(&mut h).unwrap();
    assert_eq!(h.memory_info.default_memory, 0);
}

#[test]
fn a_template_is_used_made_or_reported() {
    let ch = template("cloud-hypervisor");
    assert_eq!(ch.template_path(), "/run/tpl");
    assert_eq!(ch.plan(true, false).unwrap(), TemplatePlan::Ready);
    assert_eq!(ch.plan(false, false).unwrap(), TemplatePlan::Create(HypervisorKind::CloudHypervisor));
    assert!(matches!(ch.plan(true, true).unwrap_err(), TemplateError::FileExists));
    assert!(matches!(ch.plan(false, true).unwrap_err(), TemplateError::FileNotExists));
    assert_eq!(template("qemu").plan(false, false).unwrap(), TemplatePlan::Create(HypervisorKind::Qemu));
    let err = template("firecracker").plan(true, false).unwrap_err();
    assert_eq!(err.message(), "template is not supported by hypervisor type: firecracker");
    assert_eq!(TemplateError::FileExists.message(), "template file exists.");
    assert_eq!(TemplateError::InvalidConfig(String::from("x")).message(), "invalid config: x");
}

#[test]
fn files_of_a_template() {
    assert_eq!(
        template("cloud-hypervisor").files(HypervisorKind::CloudHypervisor),
        vec!["/run/tpl/memory-ranges", "/run/tpl/state.json", "/run/tpl/config.json"]
    );
    assert_eq!(template("qemu").files(HypervisorKind::Qemu), vec!["/run/tpl/memory", "/run/tpl/state"]);
    assert!(check_template_vm(&vec![true, true, true]));
    assert!(!check_template_vm(&vec![true, false, true]));
}

#[test]
fn mount_points_are_the_second_word_of_a_line() {
    let mounts = "proc /proc proc rw 0 0\ntmpfs /run/tpl tmpfs rw 0 0\nx\n";
    assert!(is_mounted(mounts, "/run/tpl"));
    assert!(is_mounted(mounts, "/proc"));
    assert!(!is_mounted(mounts, "/run"));
    assert!(!is_mounted(mounts, "tmpfs"));
    assert!(!is_mounted("", ""));
}

#[test]
fn the_place_for_a_template_is_prepared() {
    let ch = template("cloud-hypervisor");
    assert!(ch.prepare_clh_template_files("t /run/tpl tmpfs", 128).is_empty());
    match &ch.prepare_clh_template_files("", 128)[..] {
        [PrepareStep::CreateDir(a), PrepareStep::SetPrivate(b), PrepareStep::MountTmpfs(c, options)] => {
            assert_eq!((a.as_str(), b.as_str(), c.as_str()), ("/run/tpl", "/run/tpl", "/run/tpl"));
            assert_eq!(options, "size=136M");
        }
        other => panic!("{other:?}"),
    }
    let steps = template("qemu").prepare_qemu_template_files();
    assert_eq!(steps.len(), 6);
    match &steps[2] {
        PrepareStep::MountTmpfs(path, options) => {
            assert_eq!((path.as_str(), options.as_str()), ("/run/tpl", "size=2056M"));
        }
        other => panic!("{other:?}"),
    }
    assert!(matches!(&steps[4], PrepareStep::CreateFile(p) if p == "/run/tpl/memory"));
}

#[test]
fn a_stage_that_fails() {
    let failure = stage_failed(HypervisorKind::CloudHypervisor, CreateStage::Prepare);
    assert!(failure.close && matches!(failure.error, TemplateError::PrepareFailed));
    let failure = stage_failed(HypervisorKind::Qemu, CreateStage::SaveVm);
    assert!(!failure.close && matches!(failure.error, TemplateError::CreateFailed));
    assert_eq!(failure.error.message(), "template create failed");
}

#[test]
fn saving_the_template() {
    let steps = template_vm_steps(HypervisorKind::CloudHypervisor);
    assert_eq!(steps.len(), 11);
    let save = steps.iter().position(|s| *s == SaveStep::Save).unwrap();
    assert_eq!(steps[save - 1], SaveStep::Pause);
    assert_eq!(
        template_vm_steps(HypervisorKind::Qemu),
        vec![SaveStep::DisconnectAgent, SaveStep::Wait, SaveStep::Pause, SaveStep::Save]
    );
    assert_eq!(save_outcome(Err("save"), Err("cleanup")), Err("cleanup"));
    assert_eq!(save_outcome(Err("save"), Ok(())), Err("save"));
    assert_eq!(save_outcome::<&str>(Ok(()), Ok(())), Ok(()));
}

#[test]
fn configurations_for_both_sides_of_a_template() {
    let ch = template("cloud-hypervisor");
    let to_be = ch.create_to_template(HypervisorKind::CloudHypervisor).unwrap();
    let h = to_be.hypervisor.get("cloud-hypervisor").unwrap();
    assert!(h.vm_template.boot_to_be_template && !h.vm_template.boot_from_template);
    assert_eq!(h.factory.template_path, "file:///run/tpl");
    assert_eq!(h.memory_info.default_memory, 2048);

    let from = ch.get_base_vm(toml("cloud-hypervisor", "template")).unwrap();
    let h = from.hypervisor.get("cloud-hypervisor").unwrap();
    assert!(h.vm_template.boot_from_template && !h.vm_template.boot_to_be_template);

    let qemu = template("qemu");
    let from = qemu.create_from_template().unwrap();
    let h = from.hypervisor.get("qemu").unwrap();
    assert_eq!(h.vm_template.memory_path, "/run/tpl/memory");
    assert_eq!(h.vm_template.device_state_path, "/run/tpl/state");
    assert_eq!(h.factory.template_path, "");

    let mut missing = toml("qemu", "template");
    missing.hypervisor_name = String::from("cloud-hypervisor");
    assert!(matches!(
        template_of(missing).create_from_template().unwrap_err(),
        FromTemplateError::HypervisorNotFound(name) if name == "cloud-hypervisor"
    ));
    assert!(matches!(
        template("x").create_from_template().unwrap_err(),
        FromTemplateError::NotSupported(name) if name == "x"
    ));
}

#[test]
fn giving_a_factory_up() {
    let ch = template("cloud-hypervisor");
    assert_eq!(ch.close_factory(true), vec![CloseStep::UnmountDetached, CloseStep::RemoveDir]);
    assert!(ch.close(false).is_empty());
    assert_eq!(FactoryBase::config(&ch).config.hypervisor_name, "cloud-hypervisor");
    let direct = Direct::new(VMConfig::new(toml("qemu", "direct")));
    assert!(direct.close_factory(true).is_empty());
    let config = direct.get_base_vm(toml("qemu", "direct")).unwrap();
    assert!(!config.hypervisor.get("qemu").unwrap().vm_template.boot_from_template);
    assert_eq!(FactoryBase::config(&direct).config.agent_name, "kata");
}

#[test]
fn the_configured_factory_is_chosen() {
    let choose = |t: &str| get_factory_base(&toml("cloud-hypervisor", t).factory);
    assert_eq!(choose("template"), Ok(FactoryChoice::Template));
    assert_eq!(choose("direct"), Ok(FactoryChoice::Direct));
    assert_eq!(choose("cache"), Err(FactoryError::CacheNotSupported));
    assert_eq!(choose(""), Err(FactoryError::NotEnabled));
    let mut no_path = toml("cloud-hypervisor", "template").factory;
    no_path.template_path = String::new();
    assert_eq!(get_factory_base(&no_path), Err(FactoryError::NoTemplatePath));
    assert_eq!(FactoryError::NoTemplatePath.message(), "template_path is not set");

    assert_eq!(get_factory_instance(&toml("qemu", "cache"), &names()), Ok(FactoryChoice::Direct));
    assert_eq!(get_factory_instance(&toml("cloud-hypervisor", "cache"), &names()), Err(FactoryError::CacheNotSupported));
}

#[test]
fn commands_load_a_configuration() {
    let config = load_config(toml("qemu", "template"), &names()).unwrap();
    let h = config.hypervisor.get("qemu").unwrap();
    assert!(h.vm_template.boot_to_be_template && !h.vm_template.boot_from_template);
    assert_eq!(h.vm_template.memory_path, "/run/tpl/memory");
    let config = load_config(toml("cloud-hypervisor", "template"), &names()).unwrap();
    assert_eq!(config.hypervisor.get("cloud-hypervisor").unwrap().vm_template.memory_path, "");

    let err = load_config(toml("qemu", "direct"), &names()).unwrap_err();
    assert_eq!(err.message(), "template not enabled, factory_type is direct");
    let err = load_config(toml("x", "template"), &names()).unwrap_err();
    assert_eq!(err.message(), "unsupported hypervisor: x");
    let mut missing = toml("x", "template");
    missing.hypervisor_name = String::from("qemu");
    assert!(matches!(load_config(missing, &names()).unwrap_err(), LoadError::NoHypervisor(n) if n == "qemu"));
}

#[test]
fn commands_after_looking_for_the_template() {
    assert_eq!(init(FetchOutcome::FileExists), AfterFetch::Done);
    assert_eq!(init(FetchOutcome::FileNotExists), AfterFetch::GetFactory);
    assert_eq!(init(FetchOutcome::Failed), AfterFetch::GetFactory);
    assert_eq!(destroy(FetchOutcome::FileNotExists), AfterFetch::Done);
    assert_eq!(destroy(FetchOutcome::FileExists), AfterFetch::GetFactory);
    assert_eq!(status(FetchOutcome::FileExists), Some(true));
    assert_eq!(status(FetchOutcome::Found), Some(true));
    assert_eq!(status(FetchOutcome::FileNotExists), Some(false));
    assert_eq!(status(FetchOutcome::Failed), None);
    assert_eq!(FactorySubCommand::Init.failure(), "failed to initialize factory");
    assert_eq!(
        update_agent_kernel_params(Some(vec![Some(String::from("a=1")), None, Some(String::from("b"))])),
        Some(vec![String::from("a=1"), String::from("b")])
    );
    assert_eq!(update_agent_kernel_params(None), None);
}

#[test]
fn parts_of_a_new_virtual_machine() {
    let hypervisor = |name: &str| TemplateVm::new_hypervisor(name, &names());
    assert_eq!(hypervisor("qemu").unwrap(), HypervisorKind::Qemu);
    assert_eq!(hypervisor("cloud-hypervisor").unwrap(), HypervisorKind::CloudHypervisor);
    assert_eq!(hypervisor("x").unwrap_err().message(), "Unsupported hypervisor x");
    assert!(TemplateVm::new_agent("kata", &names()).is_ok());
    assert_eq!(TemplateVm::new_agent("y", &names()).unwrap_err().message(), "Unsupported agent y");
    let vm = TemplateVm::new(String::from("id"), Vcpus { bits: 5 }, 64);
    assert_eq!((vm.id.as_str(), vm.cpu.bits, vm.memory, vm.cpu_delta), ("id", 5, 64, 0));

    let mut step = NewVmStep::NewHypervisor;
    let mut count = 1;
    while let Some(next) = next_vm_step(step, true).unwrap() {
        step = next;
        count += 1;
    }
    assert_eq!((step, count), (NewVmStep::StartTemplate, 6));
    assert_eq!(next_vm_step(NewVmStep::NewSandbox, false), Err(NewVmStep::NewSandbox));
    assert_eq!(NewVmStep::NewSandbox.message(), "build sandbox");

    let bare = BareVM::new("hypervisor", "agent");
    assert_eq!((*bare.get_hypervisor(), *bare.get_agent()), ("hypervisor", "agent"));
    let mut h = bootable();
    h.memory_info.default_memory = 99;
    assert_eq!((ncpus(&h).bits, mem_size(&h)), (0, 99));
}

#[test]
fn the_templates_sandbox_is_empty() {
    let config = default_sandbox_config();
    assert_eq!(config.status, ContainerState::Creating);
    assert!(config.sandbox_id.is_empty() && config.dns.is_empty() && config.shm_size == 0);
}

#[test]
fn a_restore_finds_what_was_saved() {
    let ch = template("cloud-hypervisor");
    let to_be = ch.create_to_template(HypervisorKind::CloudHypervisor).unwrap();
    let from = ch.create_from_template().unwrap();
    let url = from.hypervisor.get("cloud-hypervisor").unwrap().factory.template_path.clone();
    assert_eq!(to_be.hypervisor.get("cloud-hypervisor").unwrap().factory.template_path, url);
    assert_eq!(url_to_path(&url, FileKind::Directory).unwrap(), "/run/tpl");
    let files = ch.files(HypervisorKind::CloudHypervisor);
    assert_eq!(recv_vm_state(&url, FileKind::Directory).unwrap(), files[1]);
    assert_eq!(recv_vm_config(&url, FileKind::Directory).unwrap(), files[2]);
}

#[test]
fn the_side_of_the_template_decides_how_to_boot() {
    let ch = template("cloud-hypervisor");
    let boot = |config: TomlConfig<u32>| {
        let h = config.hypervisor.get("cloud-hypervisor").unwrap().clone();
        CloudHypervisorInner::new(h, device_defaults()).boot_kind()
    };
    let to_be = ch.create_to_template(HypervisorKind::CloudHypervisor).unwrap();
    assert_eq!(boot(to_be), BootKind::FromKernel);
    assert_eq!(boot(ch.create_from_template().unwrap()), BootKind::FromTemplate);
    let mut huge = toml("cloud-hypervisor", "template");
    huge.hypervisor.get_mut("cloud-hypervisor").memory_info.enable_hugepages = true;
    assert_eq!(boot(template_of(huge).create_from_template().unwrap()), BootKind::FromKernel);
}

#[test]
fn saving_goes_step_by_step() {
    for kind in [HypervisorKind::CloudHypervisor, HypervisorKind::Qemu] {
        let steps = template_vm_steps(kind);
        for (i, step) in steps.iter().enumerate() {
            let next = next_save_step(kind, *step, true);
            assert_eq!(next, Ok(steps.get(i + 1).copied()));
            assert_eq!(next_save_step(kind, *step, false), Err(*step));
        }
    }
}

#[test]
fn resources_are_given_back_however_saving_went() {
    let kind = HypervisorKind::CloudHypervisor;
    for step in template_vm_steps(kind) {
        assert!(gives_back_resources(kind, next_save_step(kind, step, false)));
        let worked = next_save_step(kind, step, true);
        assert_eq!(gives_back_resources(kind, worked), step == SaveStep::Cleanup);
    }
    assert!(!gives_back_resources(HypervisorKind::Qemu, Ok(None)));
    assert!(!gives_back_resources(HypervisorKind::Qemu, Err(SaveStep::Pause)));
}

#[test]
fn a_directory_is_removed_once_it_was_created() {
    assert!(!remove_dir_on_failure(HypervisorKind::CloudHypervisor, 0));
    assert!(remove_dir_on_failure(HypervisorKind::CloudHypervisor, 1));
    assert!(remove_dir_on_failure(HypervisorKind::CloudHypervisor, 2));
    assert!(!remove_dir_on_failure(HypervisorKind::Qemu, 3));
}

#[test]
fn a_template_goes_by_its_own_configuration() {
    let mut own = toml("cloud-hypervisor", "template");
    let mut other = HypervisorConfig::default();
    other.virtio_fs_extra_args = vec![String::from("-d")];
    own.hypervisor.insert(String::from("other"), other);
    own.hypervisor.get_mut("cloud-hypervisor").virtio_fs_extra_args = vec![String::from("-o")];
    let ch = template_of(own);
    let mut asked = toml("qemu", "direct");
    asked.agent.insert(String::from("kata"), 8);
    asked.factory.template_path = String::from("/elsewhere");
    let made = ch.get_base_vm(asked).unwrap();
    assert_eq!(made.hypervisor_name, "cloud-hypervisor");
    assert_eq!(made.factory.template_path, "/run/tpl");
    assert_eq!(made.agent.get("kata"), Some(&7));
    assert!(made.hypervisor.get("qemu").is_none());
    assert_eq!(made.hypervisor.get("other").unwrap().virtio_fs_extra_args, vec!["-d"]);
    let h = made.hypervisor.get("cloud-hypervisor").unwrap();
    assert_eq!(h.virtio_fs_extra_args, vec!["-o"]);
    assert!(h.vm_template.boot_from_template);
    let kept = FactoryBase::config(&ch).hypervisor_config().unwrap();
    assert!(!kept.vm_template.boot_from_template && kept.factory.template_path.is_empty());
}

#[test]
fn a_template_is_prepared_before_it_is_saved() {
    assert_eq!(next_stage(None, true), Ok(Some(CreateStage::Prepare)));
    assert_eq!(next_stage(None, false), Ok(Some(CreateStage::Prepare)));
    assert_eq!(next_stage(Some(CreateStage::Prepare), true), Ok(Some(CreateStage::SaveVm)));
    assert_eq!(next_stage(Some(CreateStage::SaveVm), true), Ok(None));
    assert_eq!(next_stage(Some(CreateStage::Prepare), false), Err(CreateStage::Prepare));
    assert_eq!(next_stage(Some(CreateStage::SaveVm), false), Err(CreateStage::SaveVm));
}

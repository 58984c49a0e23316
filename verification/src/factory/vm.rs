//! Configurations of the virtual machines that a factory makes.

use vstd::prelude::*;
use vstd::string::*;

use crate::config::{
    BlockDevSettings, CpuInfo, HypervisorConfig, MemoryInfo, PartNames, TomlConfig, Vcpus,
};
use crate::text::{concat2, str_eq};

verus! {

broadcast use vstd::string::group_string_axioms;

/// Why a virtual machine cannot be configured.
#[derive(Debug)]
pub enum VmError {
    /// The hypervisor in use is not configured.
    NoHypervisor(String),
    /// The agent in use is not configured.
    NoAgent(String),
    /// There is no such hypervisor.
    UnsupportedHypervisor(String),
    /// There is no such agent.
    UnsupportedAgent(String),
    /// No kernel is given.
    MissingKernel,
    /// Secure execution brings its own root file system.
    SecureExecutionWithImage,
    /// Neither an image nor an initial RAM disk is given.
    MissingImageAndInitrd,
    /// Both an image and an initial RAM disk are given.
    BothImageAndInitrd,
}

impl VmError {
    /// The error in words.
    pub open spec fn text(&self) -> Seq<char> {
        match self {
            VmError::NoHypervisor(name) => "failed to get hypervisor for "@ + name@,
            VmError::NoAgent(name) => "failed to get agent for "@ + name@,
            VmError::UnsupportedHypervisor(name) => "Unsupported hypervisor "@ + name@,
            VmError::UnsupportedAgent(name) => "Unsupported agent "@ + name@,
            VmError::MissingKernel => "missing kernel path"@,
            VmError::SecureExecutionWithImage => {
                "secure execution mode does not allow image or initrd"@
            },
            VmError::MissingImageAndInitrd => "missing image and initrd path"@,
            VmError::BothImageAndInitrd => "image and initrd path cannot both be set"@,
        }
    }

    /// The error in words.
    pub fn message(&self) -> (r: String)
        ensures
            r@ == self.text(),
    {
        match self {
            VmError::NoHypervisor(name) => concat2("failed to get hypervisor for ", name.as_str()),
            VmError::NoAgent(name) => concat2("failed to get agent for ", name.as_str()),
            VmError::UnsupportedHypervisor(name) => concat2(
                "Unsupported hypervisor ",
                name.as_str(),
            ),
            VmError::UnsupportedAgent(name) => concat2("Unsupported agent ", name.as_str()),
            VmError::MissingKernel => "missing kernel path".to_owned(),
            VmError::SecureExecutionWithImage => {
                "secure execution mode does not allow image or initrd".to_owned()
            },
            VmError::MissingImageAndInitrd => "missing image and initrd path".to_owned(),
            VmError::BothImageAndInitrd => "image and initrd path cannot both be set".to_owned(),
        }
    }
}

/// The configuration that a factory works with.
#[derive(Clone, Debug)]
pub struct VMConfig<A> {
    /// The whole configuration.
    pub config: TomlConfig<A>,
}

impl<A> VMConfig<A> {
    /// Takes a configuration.
    pub fn new(config: TomlConfig<A>) -> (r: Self)
        ensures
            r.config == config,
    {
        VMConfig { config }
    }

    /// The hypervisor in use.
    pub fn hypervisor_name(&self) -> (r: String)
        ensures
            r == self.config.hypervisor_name,
    {
        self.config.hypervisor_name.clone()
    }

    /// The agent in use.
    pub fn agent_name(&self) -> (r: String)
        ensures
            r == self.config.agent_name,
    {
        self.config.agent_name.clone()
    }

    /// The configuration of the hypervisor in use; it fails where there is none.
    pub fn hypervisor_config(&self) -> (r: Result<&HypervisorConfig, VmError>)
        ensures
            match r {
                Ok(h) => self.config.hypervisor@.dom().contains(self.config.hypervisor_name@) && *h
                    == self.config.hypervisor@[self.config.hypervisor_name@],
                Err(e) => !self.config.hypervisor@.dom().contains(self.config.hypervisor_name@) && e
                    == VmError::NoHypervisor(self.config.hypervisor_name),
            },
    {
        match self.config.hypervisor.get(self.config.hypervisor_name.as_str()) {
            Some(h) => Ok(h),
            None => Err(VmError::NoHypervisor(self.config.hypervisor_name.clone())),
        }
    }

    /// The configuration of the agent in use; it fails where there is none.
    pub fn agent_config(&self) -> (r: Result<&A, VmError>)
        ensures
            match r {
                Ok(a) => self.config.agent@.dom().contains(self.config.agent_name@) && *a
                    == self.config.agent@[self.config.agent_name@],
                Err(e) => !self.config.agent@.dom().contains(self.config.agent_name@) && e
                    == VmError::NoAgent(self.config.agent_name),
            },
    {
        match self.config.agent.get(self.config.agent_name.as_str()) {
            Some(a) => Ok(a),
            None => Err(VmError::NoAgent(self.config.agent_name.clone())),
        }
    }
}

/// The configuration of one virtual machine.
#[derive(Debug)]
pub struct VmConfig<A> {
    /// The hypervisor.
    pub hypervisor_name: String,
    /// The agent.
    pub agent_name: String,
    /// The agent's configuration.
    pub agent_config: A,
    /// The hypervisor's configuration.
    pub hypervisor_config: HypervisorConfig,
}

/// Values for what a configuration leaves out.
#[derive(Debug)]
pub struct VmDefaults {
    /// The type of the machines that run by secure execution.
    pub machine_type_s390x: String,
    /// The number of virtual CPUs.
    pub guest_vcpus: Vcpus,
    /// The memory, in MiB.
    pub memory_size_mb: u32,
    /// The number of PCI bridges.
    pub pci_bridges: u32,
    /// The driver of block devices.
    pub block_device_type: String,
    /// The driver of block devices on a PCI bus.
    pub virtio_block_pci: String,
    /// The driver of block devices on a channel.
    pub virtio_block_ccw: String,
    /// The largest number of virtual CPUs.
    pub max_vcpus: u32,
}

/// What is wrong with what a configuration boots, if anything is: by secure execution nothing but
/// the kernel, otherwise exactly one of an image and an initial RAM disk.
pub open spec fn boot_error(conf: HypervisorConfig, s390x: Seq<char>) -> Option<VmError> {
    let has_image = conf.boot_info.image@.len() > 0;
    let has_initrd = conf.boot_info.initrd@.len() > 0;
    if conf.security_info.confidential_guest && conf.machine_type@ == s390x {
        if has_image || has_initrd {
            Some(VmError::SecureExecutionWithImage)
        } else {
            None
        }
    } else if !has_image && !has_initrd {
        Some(VmError::MissingImageAndInitrd)
    } else if has_image && has_initrd {
        Some(VmError::BothImageAndInitrd)
    } else {
        None
    }
}

/// What is wrong with a configuration, if anything is. Nothing is asked of a remote hypervisor.
pub open spec fn config_error(conf: HypervisorConfig, s390x: Seq<char>) -> Option<VmError> {
    if conf.hypervisor_socket@.len() > 0 {
        None
    } else if conf.boot_info.kernel@.len() == 0 {
        Some(VmError::MissingKernel)
    } else {
        boot_error(conf, s390x)
    }
}

/// The driver of block devices: the default where there is none, and on a machine without a PCI
/// bus the one for its channel.
pub open spec fn block_driver(conf: HypervisorConfig, d: VmDefaults) -> Seq<char> {
    let driver = conf.blockdev_info.block_device_driver@;
    if driver.len() == 0 {
        d.block_device_type@
    } else if driver == d.virtio_block_pci@ && conf.machine_type@ == d.machine_type_s390x@ {
        d.virtio_block_ccw@
    } else {
        driver
    }
}

/// Whether `r` is `conf` with what it leaves out filled in.
pub open spec fn filled_in(r: HypervisorConfig, conf: HypervisorConfig, d: VmDefaults) -> bool {
    &&& r.blockdev_info.block_device_driver@ == block_driver(conf, d)
    &&& r == (HypervisorConfig {
        cpu_info: CpuInfo {
            default_vcpus: if conf.cpu_info.default_vcpus.zero() {
                d.guest_vcpus
            } else {
                conf.cpu_info.default_vcpus
            },
            default_maxvcpus: if conf.cpu_info.default_maxvcpus == 0
                || conf.cpu_info.default_maxvcpus > d.max_vcpus {
                d.max_vcpus
            } else {
                conf.cpu_info.default_maxvcpus
            },
            ..conf.cpu_info
        },
        memory_info: MemoryInfo {
            default_memory: if conf.memory_info.default_memory == 0 {
                d.memory_size_mb
            } else {
                conf.memory_info.default_memory
            },
            ..conf.memory_info
        },
        default_bridges: if conf.default_bridges == 0 {
            d.pci_bridges
        } else {
            conf.default_bridges
        },
        blockdev_info: BlockDevSettings {
            block_device_driver: r.blockdev_info.block_device_driver,
            ..conf.blockdev_info
        },
        ..conf
    })
}

impl<A: Clone + Default> VmConfig<A> {
    /// The configuration of a virtual machine with the hypervisor and the agent in use. One that is
    /// not configured is as if by default: the hypervisor is `unconfigured`.
    pub fn new(toml_config: &TomlConfig<A>, unconfigured: &HypervisorConfig) -> (r: Self)
        ensures
            r.hypervisor_name == toml_config.hypervisor_name,
            r.agent_name == toml_config.agent_name,
            if toml_config.hypervisor@.dom().contains(toml_config.hypervisor_name@) {
                r.hypervisor_config.same_as(
                    toml_config.hypervisor@[toml_config.hypervisor_name@],
                )
            } else {
                r.hypervisor_config.same_as(*unconfigured)
            },
            if toml_config.agent@.dom().contains(toml_config.agent_name@) {
                cloned(toml_config.agent@[toml_config.agent_name@], r.agent_config)
            } else {
                call_ensures(A::default, (), r.agent_config)
            },
    {
        let hypervisor_config = match toml_config.hypervisor.get(
            toml_config.hypervisor_name.as_str(),
        ) {
            Some(h) => h.clone(),
            None => unconfigured.clone(),
        };
        let agent_config = match toml_config.agent.get(toml_config.agent_name.as_str()) {
            Some(a) => a.clone(),
            None => A::default(),
        };
        VmConfig {
            hypervisor_name: toml_config.hypervisor_name.clone(),
            agent_name: toml_config.agent_name.clone(),
            agent_config,
            hypervisor_config,
        }
    }
}

impl<A> VmConfig<A> {
    /// Whether what a configuration boots is valid.
    pub fn validate_boot_configuration(
        conf: &HypervisorConfig,
        s390x: &str,
    ) -> (r: Result<(), VmError>)
        ensures
            match r {
                Ok(_) => boot_error(*conf, s390x@) is None,
                Err(e) => boot_error(*conf, s390x@) == Some(e),
            },
    {
        let is_secure_execution = conf.security_info.confidential_guest && str_eq(
            conf.machine_type.as_str(),
            s390x,
        );
        let has_image = conf.boot_info.image.as_str().unicode_len() > 0;
        let has_initrd = conf.boot_info.initrd.as_str().unicode_len() > 0;
        if is_secure_execution {
            if has_image || has_initrd {
                return Err(VmError::SecureExecutionWithImage);
            }
            return Ok(());
        }
        if !has_image && !has_initrd {
            return Err(VmError::MissingImageAndInitrd);
        }
        if has_image && has_initrd {
            return Err(VmError::BothImageAndInitrd);
        }
        Ok(())
    }

    /// Checks a configuration and fills in what it leaves out. A configuration that is not valid
    /// stays as it was, and so does that of a remote hypervisor.
    pub fn validate_hypervisor_config(
        conf: &mut HypervisorConfig,
        d: &VmDefaults,
    ) -> (r: Result<(), VmError>)
        ensures
            match r {
                Ok(_) => config_error(*old(conf), d.machine_type_s390x@) is None && (if old(
                    conf,
                ).hypervisor_socket@.len() > 0 {
                    *final(conf) == *old(conf)
                } else {
                    filled_in(*final(conf), *old(conf), *d)
                }),
                Err(e) => config_error(*old(conf), d.machine_type_s390x@) == Some(e) && *final(conf)
                    == *old(conf),
            },
    {
        if conf.hypervisor_socket.as_str().unicode_len() > 0 {
            return Ok(());
        }
        if conf.boot_info.kernel.as_str().unicode_len() == 0 {
            return Err(VmError::MissingKernel);
        }
        match Self::validate_boot_configuration(conf, d.machine_type_s390x.as_str()) {
            Ok(_) => {},
            Err(e) => {
                return Err(e);
            },
        }
        if conf.cpu_info.default_vcpus.is_zero() {
            conf.cpu_info.default_vcpus = d.guest_vcpus;
        }
        if conf.memory_info.default_memory == 0 {
            conf.memory_info.default_memory = d.memory_size_mb;
        }
        if conf.default_bridges == 0 {
            conf.default_bridges = d.pci_bridges;
        }
        if conf.blockdev_info.block_device_driver.as_str().unicode_len() == 0 {
            conf.blockdev_info.block_device_driver = d.block_device_type.clone();
        } else if str_eq(
            conf.blockdev_info.block_device_driver.as_str(),
            d.virtio_block_pci.as_str(),
        ) && str_eq(conf.machine_type.as_str(), d.machine_type_s390x.as_str()) {
            conf.blockdev_info.block_device_driver = d.virtio_block_ccw.clone();
        }
        if conf.cpu_info.default_maxvcpus == 0 || conf.cpu_info.default_maxvcpus > d.max_vcpus {
            conf.cpu_info.default_maxvcpus = d.max_vcpus;
        }
        Ok(())
    }
}

/// A hypervisor that a factory knows.
#[derive(Clone, Copy, Debug, PartialEq, Eq, Structural)]
pub enum HypervisorKind {
    /// QEMU.
    Qemu,
    /// Cloud Hypervisor.
    CloudHypervisor,
}

/// The hypervisor of a name.
pub open spec fn hypervisor_kind(name: Seq<char>, names: PartNames) -> Option<HypervisorKind> {
    if name == names.qemu@ {
        Some(HypervisorKind::Qemu)
    } else if name == names.cloud_hypervisor@ {
        Some(HypervisorKind::CloudHypervisor)
    } else {
        None
    }
}

/// The hypervisor of a name.
pub fn find_hypervisor(name: &str, names: &PartNames) -> (r: Option<HypervisorKind>)
    ensures
        r == hypervisor_kind(name@, *names),
{
    if str_eq(name, names.qemu.as_str()) {
        Some(HypervisorKind::Qemu)
    } else if str_eq(name, names.cloud_hypervisor.as_str()) {
        Some(HypervisorKind::CloudHypervisor)
    } else {
        None
    }
}

/// A step of starting the virtual machine that becomes the template.
#[derive(Clone, Copy, Debug, PartialEq, Eq, Structural)]
pub enum NewVmStep {
    /// Make the hypervisor.
    NewHypervisor,
    /// Make the agent.
    NewAgent,
    /// Work out the initial size.
    InitialSize,
    /// Make the resource manager.
    NewResourceManager,
    /// Make the sandbox.
    NewSandbox,
    /// Start the sandbox as a template.
    StartTemplate,
}

impl NewVmStep {
    /// What is said when the step fails.
    pub open spec fn text(&self) -> Seq<char> {
        match self {
            NewVmStep::NewHypervisor => "new hypervisor"@,
            NewVmStep::NewAgent => "new agent"@,
            NewVmStep::InitialSize => "failed to construct static resource manager"@,
            NewVmStep::NewResourceManager => "build resource manager"@,
            NewVmStep::NewSandbox => "build sandbox"@,
            NewVmStep::StartTemplate => "start template"@,
        }
    }

    /// What is said when the step fails.
    pub fn message(&self) -> (r: &'static str)
        ensures
            r@ == self.text(),
    {
        match self {
            NewVmStep::NewHypervisor => "new hypervisor",
            NewVmStep::NewAgent => "new agent",
            NewVmStep::InitialSize => "failed to construct static resource manager",
            NewVmStep::NewResourceManager => "build resource manager",
            NewVmStep::NewSandbox => "build sandbox",
            NewVmStep::StartTemplate => "start template",
        }
    }

    /// The step after this one, if it worked; nothing after the last.
    pub open spec fn following(&self) -> Option<NewVmStep> {
        match self {
            NewVmStep::NewHypervisor => Some(NewVmStep::NewAgent),
            NewVmStep::NewAgent => Some(NewVmStep::InitialSize),
            NewVmStep::InitialSize => Some(NewVmStep::NewResourceManager),
            NewVmStep::NewResourceManager => Some(NewVmStep::NewSandbox),
            NewVmStep::NewSandbox => Some(NewVmStep::StartTemplate),
            NewVmStep::StartTemplate => None,
        }
    }
}

/// What comes after a step of starting the virtual machine that becomes the template: the next
/// step, nothing once it runs, or the failure of this one.
pub fn next_vm_step(step: NewVmStep, worked: bool) -> (r: Result<Option<NewVmStep>, NewVmStep>)
    ensures
        r == (if worked {
            Ok::<Option<NewVmStep>, NewVmStep>(step.following())
        } else {
            Err(step)
        }),
{
    if !worked {
        return Err(step);
    }
    Ok(
        match step {
            NewVmStep::NewHypervisor => Some(NewVmStep::NewAgent),
            NewVmStep::NewAgent => Some(NewVmStep::InitialSize),
            NewVmStep::InitialSize => Some(NewVmStep::NewResourceManager),
            NewVmStep::NewResourceManager => Some(NewVmStep::NewSandbox),
            NewVmStep::NewSandbox => Some(NewVmStep::StartTemplate),
            NewVmStep::StartTemplate => None,
        },
    )
}

/// A virtual machine that becomes the template.
#[derive(Debug)]
pub struct TemplateVm {
    /// The sandbox.
    pub id: String,
    /// The number of virtual CPUs.
    pub cpu: Vcpus,
    /// The memory, in MiB.
    pub memory: u32,
    /// How many virtual CPUs were added.
    pub cpu_delta: i32,
}

impl TemplateVm {
    /// The virtual machine of a sandbox, as its hypervisor is configured.
    pub fn new(id: String, cpu: Vcpus, memory: u32) -> (r: Self)
        ensures
            r == (TemplateVm { id, cpu, memory, cpu_delta: 0 }),
    {
        TemplateVm { id, cpu, memory, cpu_delta: 0 }
    }

    /// The hypervisor that a virtual machine is made with; it fails for one that is not known.
    pub fn new_hypervisor(name: &str, names: &PartNames) -> (r: Result<HypervisorKind, VmError>)
        ensures
            match r {
                Ok(kind) => hypervisor_kind(name@, *names) == Some(kind),
                Err(e) => hypervisor_kind(name@, *names) is None && (
                e matches VmError::UnsupportedHypervisor(n) && n@ == name@),
            },
    {
        match find_hypervisor(name, names) {
            Some(kind) => Ok(kind),
            None => Err(VmError::UnsupportedHypervisor(name.to_owned())),
        }
    }

    /// Whether there is an agent of a name; it fails for one that is not known.
    pub fn new_agent(name: &str, names: &PartNames) -> (r: Result<(), VmError>)
        ensures
            match r {
                Ok(_) => name@ == names.agent@,
                Err(e) => name@ != names.agent@ && (e matches VmError::UnsupportedAgent(n) && n@
                    == name@),
            },
    {
        if str_eq(name, names.agent.as_str()) {
            Ok(())
        } else {
            Err(VmError::UnsupportedAgent(name.to_owned()))
        }
    }
}

/// A virtual machine as the factory hands it out, with a hypervisor of type `H` and an agent of
/// type `G`.
#[derive(Debug)]
pub struct BareVM<H, G> {
    hypervisor: H,
    agent: G,
}

impl<H, G> BareVM<H, G> {
    /// The hypervisor.
    pub closed spec fn hypervisor_part(&self) -> H {
        self.hypervisor
    }

    /// The agent.
    pub closed spec fn agent_part(&self) -> G {
        self.agent
    }

    /// Puts the two together.
    pub fn new(hypervisor: H, agent: G) -> (r: Self)
        ensures
            r.hypervisor_part() == hypervisor,
            r.agent_part() == agent,
    {
        BareVM { hypervisor, agent }
    }

    /// The hypervisor.
    pub fn get_hypervisor(&self) -> (r: &H)
        ensures
            *r == self.hypervisor_part(),
    {
        &self.hypervisor
    }

    /// The agent.
    pub fn get_agent(&self) -> (r: &G)
        ensures
            *r == self.agent_part(),
    {
        &self.agent
    }
}

/// The number of virtual CPUs of a virtual machine whose hypervisor is configured so.
pub fn ncpus(config: &HypervisorConfig) -> (r: Vcpus)
    ensures
        r == config.cpu_info.default_vcpus,
{
    config.cpu_info.default_vcpus
}

/// The memory of a virtual machine whose hypervisor is configured so, in MiB.
pub fn mem_size(config: &HypervisorConfig) -> (r: u32)
    ensures
        r == config.memory_info.default_memory,
{
    config.memory_info.default_memory
}

/// A configuration that was filled in needs no more filling in: checking it again succeeds and
/// changes nothing. Left out is a configuration without a driver of block devices whose default
/// driver is replaced on its machine.
pub proof fn law_validation_settles(
    conf: HypervisorConfig,
    r: HypervisorConfig,
    again: HypervisorConfig,
    d: VmDefaults,
)
    requires
        conf.hypervisor_socket@.len() == 0,
        config_error(conf, d.machine_type_s390x@) is None,
        filled_in(r, conf, d),
        filled_in(again, r, d),
        d.virtio_block_ccw@.len() > 0,
        conf.blockdev_info.block_device_driver@.len() > 0 || d.block_device_type@
            != d.virtio_block_pci@ || conf.machine_type@ != d.machine_type_s390x@
            || d.virtio_block_ccw@ == d.virtio_block_pci@,
    ensures
        config_error(r, d.machine_type_s390x@) is None,
        again.blockdev_info.block_device_driver@ == r.blockdev_info.block_device_driver@,
        again == (HypervisorConfig {
            blockdev_info: BlockDevSettings {
                block_device_driver: again.blockdev_info.block_device_driver,
                ..r.blockdev_info
            },
            ..r
        }),
{
}

/// A valid configuration of a local hypervisor boots a kernel, and by secure execution nothing
/// else, otherwise exactly one of an image and an initial RAM disk.
pub proof fn law_valid_boots_one_rootfs(conf: HypervisorConfig, s390x: Seq<char>)
    requires
        conf.hypervisor_socket@.len() == 0,
        config_error(conf, s390x) is None,
    ensures
        conf.boot_info.kernel@.len() > 0,
        conf.security_info.confidential_guest && conf.machine_type@ == s390x
            ==> conf.boot_info.image@.len() == 0 && conf.boot_info.initrd@.len() == 0,
        !(conf.security_info.confidential_guest && conf.machine_type@ == s390x) ==> (
        conf.boot_info.image@.len() == 0) != (conf.boot_info.initrd@.len() == 0),
{
}

/// The place of a step among all steps of starting the template's virtual machine.
pub open spec fn place(step: NewVmStep) -> nat {
    match step {
        NewVmStep::NewHypervisor => 0,
        NewVmStep::NewAgent => 1,
        NewVmStep::InitialSize => 2,
        NewVmStep::NewResourceManager => 3,
        NewVmStep::NewSandbox => 4,
        NewVmStep::StartTemplate => 5,
    }
}

/// Every step is followed by the one after it, and the last starts the template.
pub proof fn law_vm_steps_in_order(step: NewVmStep)
    ensures
        step.following() matches Some(next) ==> place(next) == place(step) + 1,
        step.following() is None <==> step == NewVmStep::StartTemplate,
{
}

/// A configuration with the socket of a hypervisor that runs is taken as it is. Any other is refused
/// if and only if it has no kernel, or it does not have exactly one of an image and an initial RAM
/// disk, of which a guest in secure execution has neither. What is refused stays as it is.
pub proof fn law_refused_configurations<A>(
    conf: &mut HypervisorConfig,
    d: VmDefaults,
    r: Result<(), VmError>,
)
    requires
        call_ensures(VmConfig::<A>::validate_hypervisor_config, (conf, &d), r),
    ensures
        ({
            let boot = old(conf).boot_info;
            let own = old(conf).hypervisor_socket@.len() == 0;
            let kernel = boot.kernel@.len() > 0;
            let image = boot.image@.len() > 0;
            let initrd = boot.initrd@.len() > 0;
            let secure = old(conf).security_info.confidential_guest && old(conf).machine_type@
                == d.machine_type_s390x@;
            &&& own && !kernel <==> (r matches Err(e) && e is MissingKernel)
            &&& own && kernel && secure && (image || initrd) <==> (r matches Err(e) && e
                is SecureExecutionWithImage)
            &&& own && kernel && !secure && !image && !initrd <==> (r matches Err(e) && e
                is MissingImageAndInitrd)
            &&& own && kernel && !secure && image && initrd <==> (r matches Err(e) && e
                is BothImageAndInitrd)
            &&& r matches Err(e) ==> e is MissingKernel || e is SecureExecutionWithImage || e
                is MissingImageAndInitrd || e is BothImageAndInitrd
            &&& r is Err || !own ==> *final(conf) == *old(conf)
        }),
{
}

/// An accepted configuration of a hypervisor of its own has a default wherever nothing was set, and
/// keeps what was set otherwise: but for the number of virtual CPUs, which is never beyond the
/// limit, and the driver for PCI, which a machine without PCI does not have. Nothing else changes.
pub proof fn law_defaults_where_unset<A>(
    conf: &mut HypervisorConfig,
    d: VmDefaults,
    r: Result<(), VmError>,
)
    requires
        call_ensures(VmConfig::<A>::validate_hypervisor_config, (conf, &d), r),
        r is Ok,
        old(conf).hypervisor_socket@.len() == 0,
    ensures
        ({
            let was = *old(conf);
            let now = *final(conf);
            let unset_cpus = was.cpu_info.default_vcpus.bits == 0
                || was.cpu_info.default_vcpus.bits == 0x8000_0000;
            let max = was.cpu_info.default_maxvcpus;
            let driver = was.blockdev_info.block_device_driver@;
            let ccw = driver == d.virtio_block_pci@ && was.machine_type@ == d.machine_type_s390x@;
            &&& unset_cpus ==> now.cpu_info.default_vcpus == d.guest_vcpus
            &&& !unset_cpus ==> now.cpu_info.default_vcpus == was.cpu_info.default_vcpus
            &&& now.cpu_info.default_maxvcpus <= d.max_vcpus
            &&& 0 < max <= d.max_vcpus ==> now.cpu_info.default_maxvcpus == max
            &&& max == 0 || max > d.max_vcpus ==> now.cpu_info.default_maxvcpus == d.max_vcpus
            &&& now.cpu_info.current_vcpus == was.cpu_info.current_vcpus
            &&& was.memory_info.default_memory == 0 ==> now.memory_info.default_memory
                == d.memory_size_mb
            &&& was.memory_info.default_memory != 0 ==> now.memory_info == was.memory_info
            &&& now.memory_info.default_maxmemory == was.memory_info.default_maxmemory
                && now.memory_info.enable_hugepages == was.memory_info.enable_hugepages
            &&& was.default_bridges == 0 ==> now.default_bridges == d.pci_bridges
            &&& was.default_bridges != 0 ==> now.default_bridges == was.default_bridges
            &&& driver.len() == 0 ==> now.blockdev_info.block_device_driver@
                == d.block_device_type@
            &&& driver.len() > 0 && ccw ==> now.blockdev_info.block_device_driver@
                == d.virtio_block_ccw@
            &&& driver.len() > 0 && !ccw ==> now.blockdev_info.block_device_driver@ == driver
            &&& now == (HypervisorConfig {
                cpu_info: now.cpu_info,
                memory_info: now.memory_info,
                default_bridges: now.default_bridges,
                blockdev_info: BlockDevSettings {
                    block_device_driver: now.blockdev_info.block_device_driver,
                    ..was.blockdev_info
                },
                ..was
            })
        }),
{
}

/// What a guest boots from is an image or an initial RAM disk, not both and not neither; in secure
/// execution it is neither.
pub proof fn law_one_thing_to_boot<A>(conf: HypervisorConfig, s390x: &str, r: Result<(), VmError>)
    requires
        call_ensures(VmConfig::<A>::validate_boot_configuration, (&conf, s390x), r),
    ensures
        ({
            let image = conf.boot_info.image@.len() > 0;
            let initrd = conf.boot_info.initrd@.len() > 0;
            let secure = conf.security_info.confidential_guest && conf.machine_type@ == s390x@;
            &&& secure ==> (r is Ok <==> !image && !initrd)
            &&& !secure ==> (r is Ok <==> image != initrd)
            &&& secure ==> (r matches Err(e) ==> e is SecureExecutionWithImage)
            &&& !secure && image ==> (r matches Err(e) ==> e is BothImageAndInitrd)
            &&& !secure && !image ==> (r matches Err(e) ==> e is MissingImageAndInitrd)
        }),
{
}

/// A configuration is looked up by the configured name, and a missing one is an error with that
/// name: the hypervisor's by the hypervisor's name, the agent's by the agent's.
pub proof fn law_parts_found_by_name<A>(
    config: TomlConfig<A>,
    vm: VMConfig<A>,
    h: Result<&HypervisorConfig, VmError>,
    a: Result<&A, VmError>,
    hypervisor_name: String,
    agent_name: String,
)
    requires
        call_ensures(VMConfig::<A>::new, (config,), vm),
        call_ensures(VMConfig::<A>::hypervisor_config, (&vm,), h),
        call_ensures(VMConfig::<A>::agent_config, (&vm,), a),
        call_ensures(VMConfig::<A>::hypervisor_name, (&vm,), hypervisor_name),
        call_ensures(VMConfig::<A>::agent_name, (&vm,), agent_name),
    ensures
        hypervisor_name@ == config.hypervisor_name@,
        agent_name@ == config.agent_name@,
        h is Ok <==> config.hypervisor@.dom().contains(config.hypervisor_name@),
        h matches Ok(found) ==> *found == config.hypervisor@[config.hypervisor_name@],
        h matches Err(e) ==> (e matches VmError::NoHypervisor(n) && n@ == config.hypervisor_name@),
        a is Ok <==> config.agent@.dom().contains(config.agent_name@),
        a matches Ok(found) ==> *found == config.agent@[config.agent_name@],
        a matches Err(e) ==> (e matches VmError::NoAgent(n) && n@ == config.agent_name@),
{
}

/// A virtual machine gets the configured hypervisor's and agent's configuration, or what stands for
/// one that is not configured.
pub proof fn law_machine_gets_configured_parts<A: Clone + Default>(
    config: TomlConfig<A>,
    unconfigured: HypervisorConfig,
    r: VmConfig<A>,
)
    requires
        call_ensures(VmConfig::<A>::new, (&config, &unconfigured), r),
    ensures
        r.hypervisor_name@ == config.hypervisor_name@,
        r.agent_name@ == config.agent_name@,
        config.hypervisor@.dom().contains(config.hypervisor_name@) ==> r.hypervisor_config.same_as(
            config.hypervisor@[config.hypervisor_name@],
        ),
        !config.hypervisor@.dom().contains(config.hypervisor_name@) ==> r.hypervisor_config.same_as(
            unconfigured,
        ),
        config.agent@.dom().contains(config.agent_name@) ==> cloned(
            config.agent@[config.agent_name@],
            r.agent_config,
        ),
        !config.agent@.dom().contains(config.agent_name@) ==> call_ensures(
            A::default,
            (),
            r.agent_config,
        ),
{
}

/// A machine is made from the hypervisor to the agent, its size, its resources, its sandbox and its
/// start. The step that fails is the failure.
pub proof fn law_machine_made_in_order(
    step: NewVmStep,
    worked: bool,
    r: Result<Option<NewVmStep>, NewVmStep>,
)
    requires
        call_ensures(next_vm_step, (step, worked), r),
    ensures
        r is Ok <==> worked,
        r matches Err(failed) ==> failed == step,
        r matches Ok(next) ==> {
            &&& step == NewVmStep::NewHypervisor <==> next == Some(NewVmStep::NewAgent)
            &&& step == NewVmStep::NewAgent <==> next == Some(NewVmStep::InitialSize)
            &&& step == NewVmStep::InitialSize <==> next == Some(NewVmStep::NewResourceManager)
            &&& step == NewVmStep::NewResourceManager <==> next == Some(NewVmStep::NewSandbox)
            &&& step == NewVmStep::NewSandbox <==> next == Some(NewVmStep::StartTemplate)
            &&& step == NewVmStep::StartTemplate <==> next is None
        },
{
}

/// Only the two hypervisors and the one agent that are known by name are supported; the error for
/// any other names it.
pub proof fn law_only_known_parts(
    name: &str,
    names: PartNames,
    found: Option<HypervisorKind>,
    h: Result<HypervisorKind, VmError>,
    a: Result<(), VmError>,
)
    requires
        call_ensures(find_hypervisor, (name, &names), found),
        call_ensures(TemplateVm::new_hypervisor, (name, &names), h),
        call_ensures(TemplateVm::new_agent, (name, &names), a),
    ensures
        found is Some <==> name@ == names.qemu@ || name@ == names.cloud_hypervisor@,
        name@ == names.qemu@ ==> found == Some(HypervisorKind::Qemu),
        name@ == names.cloud_hypervisor@ && name@ != names.qemu@ ==> found == Some(
            HypervisorKind::CloudHypervisor,
        ),
        h is Ok <==> found is Some,
        h matches Ok(kind) ==> found == Some(kind),
        h matches Err(e) ==> (e matches VmError::UnsupportedHypervisor(n) && n@ == name@),
        a is Ok <==> name@ == names.agent@,
        a matches Err(e) ==> (e matches VmError::UnsupportedAgent(n) && n@ == name@),
{
}

/// A machine has the size and the name that it was made with, and the parts that it was made of.
pub proof fn law_machine_keeps_its_parts<H, G>(
    id: String,
    cpu: Vcpus,
    memory: u32,
    vm: TemplateVm,
    hypervisor: H,
    agent: G,
    bare: BareVM<H, G>,
    h: &H,
    g: &G,
)
    requires
        call_ensures(TemplateVm::new, (id, cpu, memory), vm),
        call_ensures(BareVM::<H, G>::new, (hypervisor, agent), bare),
        call_ensures(BareVM::<H, G>::get_hypervisor, (&bare,), h),
        call_ensures(BareVM::<H, G>::get_agent, (&bare,), g),
    ensures
        vm.id == id,
        vm.cpu == cpu,
        vm.memory == memory,
        vm.cpu_delta == 0,
        *h == hypervisor,
        *g == agent,
{
}

/// The size of a machine is the configured one.
pub proof fn law_size_is_configured(config: HypervisorConfig, cpus: Vcpus, memory: u32)
    requires
        call_ensures(ncpus, (&config,), cpus),
        call_ensures(mem_size, (&config,), memory),
    ensures
        cpus == config.cpu_info.default_vcpus,
        memory == config.memory_info.default_memory,
{
}

/// Every [`VmError`] is told in its own words.
pub proof fn law_vm_error_in_words(e: VmError, r: String)
    requires
        call_ensures(VmError::message, (&e,), r),
    ensures
        e matches VmError::NoHypervisor(name) ==> r@ == "failed to get hypervisor for "@ + name@,
        e matches VmError::NoAgent(name) ==> r@ == "failed to get agent for "@ + name@,
        e matches VmError::UnsupportedHypervisor(name) ==> r@ == "Unsupported hypervisor "@ + name@,
        e matches VmError::UnsupportedAgent(name) ==> r@ == "Unsupported agent "@ + name@,
        e is MissingKernel ==> r@ == "missing kernel path"@,
        e is SecureExecutionWithImage ==> r@ == "secure execution mode does not allow image or initrd"@,
        e is MissingImageAndInitrd ==> r@ == "missing image and initrd path"@,
        e is BothImageAndInitrd ==> r@ == "image and initrd path cannot both be set"@,
{
}

/// Every [`NewVmStep`] is told in its own words.
pub proof fn law_new_vm_step_in_words(e: NewVmStep, r: &'static str)
    requires
        call_ensures(NewVmStep::message, (&e,), r),
    ensures
        e is NewHypervisor ==> r@ == "new hypervisor"@,
        e is NewAgent ==> r@ == "new agent"@,
        e is InitialSize ==> r@ == "failed to construct static resource manager"@,
        e is NewResourceManager ==> r@ == "build resource manager"@,
        e is NewSandbox ==> r@ == "build sandbox"@,
        e is StartTemplate ==> r@ == "start template"@,
{
}

} // verus!

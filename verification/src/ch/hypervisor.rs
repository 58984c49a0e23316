//! The life of a virtual machine: preparing, starting, pausing, saving, resizing, stopping.
//!
//! The hypervisor itself is called from outside. A method that comes before such a call says what
//! is to be done; one that comes after it takes the answer and moves the state on.

use std::collections::HashMap;
use std::collections::HashSet;

use vstd::prelude::*;
use vstd::string::*;

use crate::ch::device::{AttachRequest, SharedDevices};
use crate::ch::inner::{CloudHypervisorInner, VmmState};
use crate::ch::protection::{
    check_guest_protection, protection_in_use, protection_verdict, used_protection,
    GuestProtection, GuestProtectionError,
};
use crate::ch::types::BlockDevice;
use crate::ch::utils::{
    child_thread, entry_tid, get_api_socket_path, get_vsock_path, guest_protection_is_tdx,
    in_sandbox, is_vcpu_entry, lemma_child_thread_step, names_vcpu, TaskEntry, CH_API_SOCKET_NAME,
    CH_VM_SOCKET_NAME,
};
use crate::config::{
    CpuInfo, CurrentVcpus, HypervisorConfig, MemoryInfo, SecurityInfo, Vcpus, VmTemplateInfo,
    ONE_VCPU,
};
use crate::decimal::{decimal, decimal_str, parse_u64};
use crate::text::{concat3, str_eq, texts};

verus! {

broadcast use vstd::string::group_string_axioms;

/// How long to wait before the hypervisor is asked again, in milliseconds.
pub const CH_POLL_TIME_MS: u64 = 50;

/// The hypervisor's name for being built with Intel TDX.
pub const CH_FEATURE_TDX: &'static str = "tdx";

/// The permissions of the directories of a sandbox.
pub const SANDBOX_DIR_MODE: u32 = 0o750;

/// The scheme of the agent's address.
pub const HYBRID_VSOCK_SCHEME: &'static str = "hvsock";

/// The size up to which the memory of a small guest is first raised, in MiB.
pub const FIRST_RESIZE_MB: u32 = 5 * 1024;

/// A guest with less memory than this is small, in MiB.
pub const SMALL_GUEST_MB: u32 = 1024;

/// Why an operation on a virtual machine is refused.
#[derive(Clone, Copy, Debug, PartialEq, Eq, Structural)]
pub enum HypervisorError {
    /// The hypervisor is not built for Intel TDX.
    NoTdxSupport,
    /// A virtual machine cannot be left without virtual CPUs.
    ZeroVcpus,
    /// The agent takes no connections for I/O.
    NoPassfdListener,
    /// There are no metrics of this hypervisor.
    NoMetrics,
}

impl HypervisorError {
    /// The error in words.
    pub open spec fn text(&self) -> Seq<char> {
        match self {
            HypervisorError::NoTdxSupport => "Cloud Hypervisor is not built with TDX support"@,
            HypervisorError::ZeroVcpus => "resize vcpu error: 0 vcpu resizing is invalid"@,
            HypervisorError::NoPassfdListener => "passfd io listener port not set"@,
            HypervisorError::NoMetrics => {
                "CH hypervisor metrics not implemented - see https://github.com/kata-containers/kata-containers/issues/8800"@
            },
        }
    }

    /// The error in words.
    pub fn message(&self) -> (r: &'static str)
        ensures
            r@ == self.text(),
    {
        match self {
            HypervisorError::NoTdxSupport => "Cloud Hypervisor is not built with TDX support",
            HypervisorError::ZeroVcpus => "resize vcpu error: 0 vcpu resizing is invalid",
            HypervisorError::NoPassfdListener => "passfd io listener port not set",
            HypervisorError::NoMetrics => {
                "CH hypervisor metrics not implemented - see https://github.com/kata-containers/kata-containers/issues/8800"
            },
        }
    }
}

/// Why a virtual machine was not paused, resumed or saved: it was in the wrong state, or the
/// hypervisor refused.
#[derive(Clone, Copy, Debug, PartialEq, Eq)]
pub enum LifecycleError<E> {
    /// The virtual machine was in this state.
    WrongState(VmmState),
    /// The hypervisor refused.
    Refused(E),
}

/// The kind of processor.
#[derive(Clone, Copy, Debug, PartialEq, Eq, Structural)]
pub enum Arch {
    /// 64-bit x86.
    X86_64,
    /// 64-bit ARM.
    Aarch64,
}

/// Fixed values of the installation.
#[derive(Debug)]
pub struct BootDefaults {
    /// The driver of a root file system on a block device.
    pub rootfs_driver_blk: String,
    /// The type of a root file system that does not say.
    pub rootfs_type: String,
    /// The kernel parameter for the port on which the agent takes connections for I/O.
    pub passfd_listener_port: String,
}

/// A group of kernel parameters.
#[derive(Debug)]
pub enum KernelParamGroup {
    /// What every guest gets, with or without debug output.
    Defaults {
        /// Whether debug output is wanted.
        debug: bool,
    },
    /// Parameters as text.
    Text(String),
    /// What the root file system needs.
    Rootfs {
        /// Parameters for dm-verity.
        verity_params: String,
        /// The driver of the device.
        driver: String,
        /// The type of the file system.
        fs_type: String,
    },
}

/// The contents of a [`KernelParamGroup`].
pub enum ParamGroupView {
    /// What every guest gets.
    Defaults(bool),
    /// Parameters as text.
    Text(Seq<char>),
    /// What the root file system needs: parameters for dm-verity, driver and type.
    Rootfs(Seq<char>, Seq<char>, Seq<char>),
}

impl View for KernelParamGroup {
    type V = ParamGroupView;

    open spec fn view(&self) -> ParamGroupView {
        match self {
            KernelParamGroup::Defaults { debug } => ParamGroupView::Defaults(*debug),
            KernelParamGroup::Text(t) => ParamGroupView::Text(t@),
            KernelParamGroup::Rootfs { verity_params, driver, fs_type } => ParamGroupView::Rootfs(
                verity_params@,
                driver@,
                fs_type@,
            ),
        }
    }
}

/// The contents of a list of groups.
pub open spec fn groups_view(list: Seq<KernelParamGroup>) -> Seq<ParamGroupView> {
    list.map_values(|g: KernelParamGroup| g@)
}

/// The console of the guest: none is set up without debug output, a confidential guest has a
/// paravirtual one, and any other the serial line of its processor.
pub open spec fn console_param(debug: bool, confidential: bool, arch: Arch) -> Seq<char> {
    if !debug {
        "quiet"@
    } else if confidential {
        "console=hvc0"@
    } else {
        match arch {
            Arch::X86_64 => "console=ttyS0,115200n8"@,
            Arch::Aarch64 => "console=ttyAMA0,115200n8"@,
        }
    }
}

/// The root file system's group. A confidential guest has no persistent memory, so its root file
/// system is on a block device.
pub open spec fn rootfs_group(cfg: HypervisorConfig, defaults: BootDefaults) -> ParamGroupView {
    ParamGroupView::Rootfs(
        cfg.boot_info.kernel_verity_params@,
        if cfg.security_info.confidential_guest {
            defaults.rootfs_driver_blk@
        } else {
            cfg.boot_info.vm_rootfs_driver@
        },
        if cfg.boot_info.rootfs_type@.len() == 0 {
            defaults.rootfs_type@
        } else {
            cfg.boot_info.rootfs_type@
        },
    )
}

/// What this hypervisor needs besides.
pub open spec fn extra_params() -> Seq<char> {
    "no_timer_check noreplace-smp systemd.log_target=console"@
}

/// The groups of a guest's kernel parameters, in order.
pub open spec fn kernel_param_groups(
    cfg: HypervisorConfig,
    passfd_port: Option<u32>,
    defaults: BootDefaults,
    arch: Arch,
) -> Seq<ParamGroupView> {
    let first = seq![ParamGroupView::Defaults(cfg.enable_debug)];
    let passfd = match passfd_port {
        Some(port) => seq![
            ParamGroupView::Text(
                defaults.passfd_listener_port@ + "="@ + decimal(port as nat),
            ),
        ],
        None => Seq::empty(),
    };
    first + passfd + seq![
        ParamGroupView::Text(
            console_param(cfg.enable_debug, cfg.security_info.confidential_guest, arch),
        ),
        rootfs_group(cfg, defaults),
        ParamGroupView::Text(extra_params()),
        ParamGroupView::Text(cfg.boot_info.kernel_params@),
    ]
}

/// The configuration that a virtual machine boots with. One that is to be the template has one
/// virtual CPU and the template's memory.
pub open spec fn booted_config(config: HypervisorConfig, template_size: u32) -> HypervisorConfig {
    if config.vm_template.boot_to_be_template {
        HypervisorConfig {
            cpu_info: CpuInfo { default_vcpus: Vcpus { bits: ONE_VCPU }, ..config.cpu_info },
            memory_info: MemoryInfo { default_memory: template_size, ..config.memory_info },
            ..config
        }
    } else {
        config
    }
}

/// What a virtual machine boots with.
#[derive(Debug)]
pub struct NamedHypervisorConfig {
    /// The kernel parameters.
    pub kernel_params: String,
    /// The directory of the virtual machine.
    pub sandbox_path: String,
    /// The socket to the guest.
    pub vsock_socket_path: String,
    /// The configuration.
    pub cfg: HypervisorConfig,
    /// The protection of the guest.
    pub guest_protection_to_use: GuestProtection,
    /// The devices.
    pub devices: SharedDevices,
}

/// What a virtual machine is restored from.
#[derive(Debug)]
pub struct RestoreConfigInner {
    /// Where the template is.
    pub source_url: Option<String>,
    /// The socket to the guest.
    pub vsock_socket_path: String,
}

/// How the hypervisor is launched.
#[derive(Debug)]
pub struct LaunchPlan {
    /// The network namespace of its threads.
    pub netns: Option<String>,
    /// The setting for its system call filters.
    pub seccomp: &'static str,
    /// The socket of its API, if it has one.
    pub api_socket: Option<String>,
}

/// How a virtual machine boots.
#[derive(Clone, Copy, Debug, PartialEq, Eq, Structural)]
pub enum BootKind {
    /// From the template.
    FromTemplate,
    /// From the kernel.
    FromKernel,
}

/// A step of starting a virtual machine.
#[derive(Clone, Copy, Debug, PartialEq, Eq, Structural)]
pub enum StartStep {
    /// Launch the hypervisor.
    Launch,
    /// Wait until it answers.
    WaitForServer,
    /// Boot the virtual machine.
    Boot(BootKind),
    /// Stop it, since it did not boot.
    StopVm,
}

/// Why a virtual machine did not start.
#[derive(Clone, Copy, Debug, PartialEq, Eq, Structural)]
pub enum StartFailure {
    /// The hypervisor could not be launched.
    Launch,
    /// The hypervisor did not answer.
    WaitForServer,
    /// The hypervisor is not built for Intel TDX.
    NoTdxSupport,
    /// The virtual machine did not boot.
    Boot,
}

/// What a step of starting a virtual machine leads to.
#[derive(Clone, Copy, Debug, PartialEq, Eq, Structural)]
pub enum StartOutcome {
    /// The next step.
    Next(StartStep),
    /// The virtual machine runs.
    Running,
    /// The start has failed.
    Failed(StartFailure),
}

/// Whether the hypervisor says that it was not built with what the guest's protection needs.
pub open spec fn lacks_tdx(ch: CloudHypervisorInner) -> bool {
    ch.guest_protection_to_use == GuestProtection::Tdx && (ch.ch_features matches Some(f) && !texts(
        f@,
    ).contains(CH_FEATURE_TDX@))
}

/// How a virtual machine boots.
pub open spec fn boot_kind_of(ch: CloudHypervisorInner) -> BootKind {
    if ch.config.vm_template.boot_from_template && !ch.config.memory_info.enable_hugepages {
        BootKind::FromTemplate
    } else {
        BootKind::FromKernel
    }
}

/// What a step of starting a virtual machine leads to.
pub open spec fn start_outcome(
    ch: CloudHypervisorInner,
    step: StartStep,
    worked: bool,
) -> StartOutcome {
    match step {
        StartStep::Launch => if worked {
            StartOutcome::Next(StartStep::WaitForServer)
        } else {
            StartOutcome::Failed(StartFailure::Launch)
        },
        StartStep::WaitForServer => if !worked {
            StartOutcome::Failed(StartFailure::WaitForServer)
        } else if lacks_tdx(ch) {
            StartOutcome::Failed(StartFailure::NoTdxSupport)
        } else {
            StartOutcome::Next(StartStep::Boot(boot_kind_of(ch)))
        },
        StartStep::Boot(_) => if worked {
            StartOutcome::Running
        } else {
            StartOutcome::Next(StartStep::StopVm)
        },
        StartStep::StopVm => StartOutcome::Failed(StartFailure::Boot),
    }
}

/// The state after a step of starting a virtual machine.
pub open spec fn after_start_step(
    ch: CloudHypervisorInner,
    step: StartStep,
    worked: bool,
) -> CloudHypervisorInner {
    CloudHypervisorInner {
        state: match start_outcome(ch, step, worked) {
            StartOutcome::Running => VmmState::VmRunning,
            StartOutcome::Next(StartStep::Boot(_)) => VmmState::VmmServerReady,
            _ => ch.state,
        },
        ..ch
    }
}

/// A step of booting a virtual machine, once the hypervisor answers.
#[derive(Clone, Copy, Debug, PartialEq, Eq, Structural)]
pub enum BootStep {
    /// Collect the devices that wait.
    CollectDevices,
    /// Create the virtual machine's directory.
    CreateDir,
    /// Put the configuration together.
    BuildConfig,
    /// Create the virtual machine.
    CreateVm,
    /// Start it.
    StartVm,
    /// Restore it from the template.
    RestoreVm,
    /// Attach the devices that the template does not have.
    AttachDevices,
}

/// The steps of booting a virtual machine, in order.
pub open spec fn boot_steps_of(kind: BootKind) -> Seq<BootStep> {
    match kind {
        BootKind::FromKernel => seq![
            BootStep::CollectDevices,
            BootStep::CreateDir,
            BootStep::BuildConfig,
            BootStep::CreateVm,
            BootStep::StartVm,
        ],
        BootKind::FromTemplate => seq![
            BootStep::CollectDevices,
            BootStep::CreateDir,
            BootStep::RestoreVm,
            BootStep::AttachDevices,
        ],
    }
}

/// The steps of booting a virtual machine, in order; the first that fails ends them.
pub fn boot_steps(kind: BootKind) -> (r: Vec<BootStep>)
    ensures
        r@ == boot_steps_of(kind),
{
    match kind {
        BootKind::FromKernel => vec![
            BootStep::CollectDevices,
            BootStep::CreateDir,
            BootStep::BuildConfig,
            BootStep::CreateVm,
            BootStep::StartVm,
        ],
        BootKind::FromTemplate => vec![
            BootStep::CollectDevices,
            BootStep::CreateDir,
            BootStep::RestoreVm,
            BootStep::AttachDevices,
        ],
    }
}

/// What is done with a guest's memory.
#[derive(Clone, Copy, Debug, PartialEq, Eq, Structural)]
pub struct MemoryResize {
    /// The size to report, in MiB; zero where the size asked for is beyond the limit.
    pub reported_mb: u32,
    /// The size to ask the hypervisor for, in bytes, if it has to be asked.
    pub request: Option<u64>,
}

/// What is done with a guest's virtual CPUs.
#[derive(Clone, Copy, Debug, PartialEq, Eq, Structural)]
pub struct VcpuResize {
    /// How many there were.
    pub old_vcpus: u32,
    /// How many there will be.
    pub new_vcpus: u32,
    /// How many to ask the hypervisor for, if it has to be asked.
    pub request: Option<u32>,
}

/// What the hypervisor supports.
#[derive(Clone, Copy, Debug, PartialEq, Eq, Structural)]
pub struct Capabilities {
    /// Block devices.
    pub block_device: bool,
    /// Block devices that come and go.
    pub block_device_hotplug: bool,
    /// Shared file systems.
    pub fs_sharing: bool,
    /// Sockets between the host and the guest.
    pub hybrid_vsock: bool,
    /// Asking the guest for the size of its memory blocks.
    pub guest_memory_probe: bool,
}

/// The memory a guest booted with, in MiB: the template's for one from the template.
pub open spec fn booted_memory(ch: CloudHypervisorInner, template_size: u32) -> u32 {
    if ch.config.vm_template.boot_from_template {
        template_size
    } else {
        ch.config.memory_info.default_memory
    }
}

/// What is done for one change of a guest's memory.
pub open spec fn memory_resize(
    ch: CloudHypervisorInner,
    new_mem_mb: u32,
    template_size: u32,
) -> MemoryResize {
    if new_mem_mb > ch.config.memory_info.default_maxmemory {
        MemoryResize { reported_mb: 0, request: None }
    } else if new_mem_mb == booted_memory(ch, template_size) + ch.mem_hotplug_size_mb {
        MemoryResize { reported_mb: new_mem_mb, request: None }
    } else {
        MemoryResize {
            reported_mb: new_mem_mb,
            request: Some((new_mem_mb as int * 1024 * 1024) as u64),
        }
    }
}

/// The state after one change of a guest's memory.
pub open spec fn after_memory_resize(
    ch: CloudHypervisorInner,
    new_mem_mb: u32,
    template_size: u32,
) -> CloudHypervisorInner {
    if new_mem_mb > ch.config.memory_info.default_maxmemory {
        ch
    } else {
        CloudHypervisorInner {
            config: HypervisorConfig {
                vm_template: VmTemplateInfo {
                    boot_from_template: false,
                    ..ch.config.vm_template
                },
                ..ch.config
            },
            mem_hotplug_size_mb: if memory_resize(ch, new_mem_mb, template_size).request is None {
                ch.mem_hotplug_size_mb
            } else if new_mem_mb > booted_memory(ch, template_size) {
                (new_mem_mb - booted_memory(ch, template_size)) as u32
            } else {
                0
            },
            ..ch
        }
    }
}

/// The sizes that a guest's memory goes through: a large size is reached in two steps by a small
/// guest and by one from the template.
pub open spec fn memory_steps(ch: CloudHypervisorInner, new_mem_mb: u32) -> Seq<u32> {
    if new_mem_mb > FIRST_RESIZE_MB && (ch.config.memory_info.default_memory
        + ch.mem_hotplug_size_mb < SMALL_GUEST_MB || ch.config.vm_template.boot_from_template) {
        seq![FIRST_RESIZE_MB, new_mem_mb]
    } else {
        seq![new_mem_mb]
    }
}

/// A number of virtual CPUs within the limit.
pub open spec fn within_max(new_vcpus: u32, max: u32) -> u32 {
    if new_vcpus > max {
        max
    } else {
        new_vcpus
    }
}

/// What is done to change the number of virtual CPUs: nothing if it stays the same; there must be
/// some left, and there are never more than `max`.
pub open spec fn vcpu_resize(
    old_vcpus: u32,
    new_vcpus: u32,
    max: u32,
) -> Result<VcpuResize, HypervisorError> {
    if old_vcpus == new_vcpus {
        Ok(VcpuResize { old_vcpus, new_vcpus, request: None })
    } else if new_vcpus == 0 {
        Err(HypervisorError::ZeroVcpus)
    } else {
        Ok(
            VcpuResize {
                old_vcpus,
                new_vcpus: within_max(new_vcpus, max),
                request: Some(within_max(new_vcpus, max)),
            },
        )
    }
}

/// The thread of each virtual CPU.
pub open spec fn thread_map(tids: Seq<(u8, u32)>) -> Map<u32, u32>
    decreases tids.len(),
{
    if tids.len() == 0 {
        Map::empty()
    } else {
        thread_map(tids.drop_last()).insert(tids.last().0 as u32, tids.last().1)
    }
}

/// A copy of an optional text.
fn copy_text(t: &Option<String>) -> (r: Option<String>)
    ensures
        r == *t,
{
    match t {
        Some(t) => Some(t.clone()),
        None => None,
    }
}

impl CloudHypervisorInner {
    /// Whether the hypervisor that answers can be used: for a guest that TDX protects it must be
    /// built with TDX, as far as it has said what it was built with.
    pub fn check_features(&self) -> (r: Result<(), HypervisorError>)
        ensures
            r is Err <==> lacks_tdx(*self),
            r matches Err(e) ==> e == HypervisorError::NoTdxSupport,
    {
        if guest_protection_is_tdx(self.guest_protection_to_use) {
            if let Some(features) = &self.ch_features {
                let mut i: usize = 0;
                while i < features.len()
                    invariant
                        i <= features@.len(),
                        self.ch_features == Some(*features),
                        forall|k: int|
                            0 <= k < i ==> (#[trigger] features@[k])@ != CH_FEATURE_TDX@,
                    decreases features@.len() - i,
                {
                    if str_eq(features[i].as_str(), CH_FEATURE_TDX) {
                        proof {
                            assert(texts(features@)[i as int] == CH_FEATURE_TDX@);
                        }
                        return Ok(());
                    }
                    i = i + 1;
                }
                proof {
                    assert forall|k: int| 0 <= k < texts(features@).len() implies texts(
                        features@,
                    )[k] != CH_FEATURE_TDX@ by {
                        assert(features@[k]@ != CH_FEATURE_TDX@);
                    }
                }
                return Err(HypervisorError::NoTdxSupport);
            }
        }
        Ok(())
    }

    /// The groups of the guest's kernel parameters, in order. Those that the user gave come last,
    /// so that they take priority.
    pub fn get_kernel_params(
        &self,
        defaults: &BootDefaults,
        arch: Arch,
    ) -> (r: Vec<KernelParamGroup>)
        ensures
            groups_view(r@) == kernel_param_groups(
                self.config,
                self.passfd_listener_port,
                *defaults,
                arch,
            ),
    {
        let cfg = &self.config;
        let debug = cfg.enable_debug;
        let confidential = cfg.security_info.confidential_guest;
        let driver = if confidential {
            defaults.rootfs_driver_blk.clone()
        } else {
            cfg.boot_info.vm_rootfs_driver.clone()
        };
        let fs_type = if cfg.boot_info.rootfs_type.as_str().unicode_len() == 0 {
            defaults.rootfs_type.clone()
        } else {
            cfg.boot_info.rootfs_type.clone()
        };
        let console = if debug {
            if confidential {
                "console=hvc0"
            } else {
                match arch {
                    Arch::X86_64 => "console=ttyS0,115200n8",
                    Arch::Aarch64 => "console=ttyAMA0,115200n8",
                }
            }
        } else {
            "quiet"
        };
        let mut r = vec![KernelParamGroup::Defaults { debug }];
        if let Some(port) = self.passfd_listener_port {
            let number = decimal_str(port as u64);
            r.push(
                KernelParamGroup::Text(
                    concat3(defaults.passfd_listener_port.as_str(), "=", number.as_str()),
                ),
            );
        }
        r.push(KernelParamGroup::Text(console.to_owned()));
        r.push(
            KernelParamGroup::Rootfs {
                verity_params: cfg.boot_info.kernel_verity_params.clone(),
                driver,
                fs_type,
            },
        );
        r.push(
            KernelParamGroup::Text(
                "no_timer_check noreplace-smp systemd.log_target=console".to_owned(),
            ),
        );
        r.push(KernelParamGroup::Text(cfg.boot_info.kernel_params.clone()));
        proof {
            assert(groups_view(r@) =~= kernel_param_groups(
                self.config,
                self.passfd_listener_port,
                *defaults,
                arch,
            ));
        }
        r
    }

    /// The configuration that the virtual machine boots with: a copy of the one that it has, with
    /// one virtual CPU and the template's memory if it is to be the template.
    pub fn boot_config(&self, template_size: u32) -> (r: HypervisorConfig)
        ensures
            r.same_as(booted_config(self.config, template_size)),
    {
        let mut r = self.config.clone();
        if self.config.vm_template.boot_to_be_template {
            r.cpu_info.default_vcpus = Vcpus { bits: ONE_VCPU };
            r.memory_info.default_memory = template_size;
        }
        r
    }

    /// What the virtual machine boots with.
    pub fn boot_vm(
        &self,
        devices: SharedDevices,
        kernel_params: String,
        sandbox_path: &str,
        template_size: u32,
    ) -> (r: NamedHypervisorConfig)
        ensures
            r.kernel_params == kernel_params,
            r.sandbox_path == self.vm_path,
            r.vsock_socket_path@ == in_sandbox(sandbox_path@, CH_VM_SOCKET_NAME@),
            r.cfg.same_as(booted_config(self.config, template_size)),
            r.guest_protection_to_use == self.guest_protection_to_use,
            r.devices == devices,
    {
        NamedHypervisorConfig {
            kernel_params,
            sandbox_path: self.vm_path.clone(),
            vsock_socket_path: get_vsock_path(sandbox_path),
            cfg: self.boot_config(template_size),
            guest_protection_to_use: self.guest_protection_to_use,
            devices,
        }
    }

    /// What the virtual machine is restored from, and the devices that are attached once it is
    /// restored: network devices first, then assigned ones, each kind from its last to its first.
    pub fn boot_from_template(
        &self,
        devices: SharedDevices,
        sandbox_path: &str,
    ) -> (r: (RestoreConfigInner, Vec<AttachRequest>))
        ensures
            r.0.source_url == Some(self.config.factory.template_path),
            r.0.vsock_socket_path@ == in_sandbox(sandbox_path@, CH_VM_SOCKET_NAME@),
            r.1@ == devices.network_devices@.reverse().map_values(
                |c: crate::ch::types::NetConfig| AttachRequest::AddNet(c),
            ) + devices.host_devices@.reverse().map_values(
                |c: crate::ch::types::DeviceConfig| AttachRequest::AddDevice(c),
            ),
    {
        let SharedDevices { network_devices, host_devices, .. } = devices;
        let ghost nets = network_devices@;
        let ghost hosts = host_devices@;
        let ghost net_requests = nets.reverse().map_values(
            |c: crate::ch::types::NetConfig| AttachRequest::AddNet(c),
        );
        let ghost host_requests = hosts.reverse().map_values(
            |c: crate::ch::types::DeviceConfig| AttachRequest::AddDevice(c),
        );
        let mut network_devices = network_devices;
        let mut host_devices = host_devices;
        let mut requests: Vec<AttachRequest> = Vec::new();
        while network_devices.len() > 0
            invariant
                net_requests == nets.reverse().map_values(
                    |c: crate::ch::types::NetConfig| AttachRequest::AddNet(c),
                ),
                network_devices@.len() <= nets.len(),
                network_devices@ == nets.take(network_devices@.len() as int),
                requests@ == net_requests.take(nets.len() - network_devices@.len()),
            decreases network_devices@.len(),
        {
            let ghost n = network_devices@.len();
            if let Some(c) = network_devices.pop() {
                requests.push(AttachRequest::AddNet(c));
            }
            proof {
                assert(network_devices@ =~= nets.take(n - 1));
                assert(requests@ =~= net_requests.take(nets.len() - n + 1));
            }
        }
        proof {
            assert(requests@ =~= net_requests);
        }
        while host_devices.len() > 0
            invariant
                host_requests == hosts.reverse().map_values(
                    |c: crate::ch::types::DeviceConfig| AttachRequest::AddDevice(c),
                ),
                host_devices@.len() <= hosts.len(),
                host_devices@ == hosts.take(host_devices@.len() as int),
                requests@ == net_requests + host_requests.take(
                    hosts.len() - host_devices@.len(),
                ),
            decreases host_devices@.len(),
        {
            let ghost n = host_devices@.len();
            if let Some(c) = host_devices.pop() {
                requests.push(AttachRequest::AddDevice(c));
            }
            proof {
                assert(host_devices@ =~= hosts.take(n - 1));
                assert(requests@ =~= net_requests + host_requests.take(hosts.len() - n + 1));
            }
        }
        proof {
            assert(requests@ =~= net_requests + host_requests);
        }
        (
            RestoreConfigInner {
                source_url: Some(self.config.factory.template_path.clone()),
                vsock_socket_path: get_vsock_path(sandbox_path),
            },
            requests,
        )
    }

    /// How the hypervisor is launched. Its API has a socket only where debug output is wanted.
    pub fn cloud_hypervisor_launch(&self, sandbox_path: &str) -> (r: LaunchPlan)
        ensures
            r.netns == self.netns,
            r.seccomp@ == (if self.config.security_info.disable_seccomp {
                "true"@
            } else {
                "false"@
            }),
            match r.api_socket {
                Some(path) => self.config.enable_debug && path@ == in_sandbox(
                    sandbox_path@,
                    CH_API_SOCKET_NAME@,
                ),
                None => !self.config.enable_debug,
            },
    {
        let seccomp = if self.config.security_info.disable_seccomp {
            "true"
        } else {
            "false"
        };
        let api_socket = if self.config.enable_debug {
            Some(get_api_socket_path(sandbox_path))
        } else {
            None
        };
        LaunchPlan { netns: copy_text(&self.netns), seccomp, api_socket }
    }

    /// How long the hypervisor may take to answer, in seconds.
    pub fn connect_timeout(&self) -> (r: u64)
        ensures
            r == self.timeout_secs as u64,
    {
        #[verifier::truncate] (self.timeout_secs as u64)
    }

    /// Takes the hypervisor's answer to being asked whether it is there: `features` is what it
    /// says that it was built with. Says whether the waiting is over.
    pub fn handle_ping(&mut self, features: Option<Vec<String>>) -> (ready: bool)
        ensures
            ready == features is Some,
            *final(self) == (CloudHypervisorInner {
                ch_features: if features is Some {
                    features
                } else {
                    old(self).ch_features
                },
                ..*old(self)
            }),
    {
        match features {
            Some(features) => {
                self.ch_features = Some(features);
                true
            },
            None => false,
        }
    }

    /// Begins the preparation of a virtual machine in the directory `sandbox_path`. Gives the
    /// directories that must exist.
    pub fn begin_prepare(&mut self, id: &str, sandbox_path: &str) -> (dirs: Vec<String>)
        ensures
            final(self).id@ == id@,
            final(self).run_dir@ == sandbox_path@,
            final(self).vm_path@ == sandbox_path@,
            *final(self) == (CloudHypervisorInner {
                id: final(self).id,
                state: VmmState::NotReady,
                run_dir: final(self).run_dir,
                vm_path: final(self).vm_path,
                ..*old(self)
            }),
            texts(dirs@) == (if old(self).jailer_root@.len() == 0 {
                seq![sandbox_path@]
            } else {
                seq![sandbox_path@, old(self).jailer_root@]
            }),
    {
        self.id = id.to_owned();
        self.state = VmmState::NotReady;
        self.run_dir = sandbox_path.to_owned();
        self.vm_path = sandbox_path.to_owned();
        let mut dirs = vec![sandbox_path.to_owned()];
        if self.jailer_root.as_str().unicode_len() > 0 {
            dirs.push(self.jailer_root.clone());
        }
        proof {
            let want = if old(self).jailer_root@.len() == 0 {
                seq![sandbox_path@]
            } else {
                seq![sandbox_path@, old(self).jailer_root@]
            };
            assert(texts(dirs@) =~= want);
        }
        dirs
    }

    /// Takes the protection that the host has, and says whether the guest can be started with it.
    /// A protection that is not asked for is not used.
    pub fn handle_guest_protection(
        &mut self,
        protection: GuestProtection,
    ) -> (r: Result<(), GuestProtectionError>)
        ensures
            r == protection_verdict(old(self).config.security_info.confidential_guest, protection),
            *final(self) == (CloudHypervisorInner {
                guest_protection_to_use: protection_in_use(
                    old(self).config.security_info.confidential_guest,
                    protection,
                ),
                ..*old(self)
            }),
    {
        let confidential_guest = self.config.security_info.confidential_guest;
        self.guest_protection_to_use = used_protection(confidential_guest, protection);
        check_guest_protection(confidential_guest, protection)
    }

    /// Ends the preparation of a virtual machine. Gives the label that the hypervisor's process is
    /// to get, if it is to get one.
    pub fn finish_prepare(
        &mut self,
        netns: Option<String>,
        selinux_label: Option<String>,
    ) -> (label: Option<String>)
        ensures
            label == (if old(self).config.disable_selinux {
                None
            } else {
                selinux_label
            }),
            *final(self) == (CloudHypervisorInner {
                netns,
                config: HypervisorConfig {
                    security_info: SecurityInfo {
                        selinux_label: if label is Some {
                            label
                        } else {
                            old(self).config.security_info.selinux_label
                        },
                        ..old(self).config.security_info
                    },
                    ..old(self).config
                },
                ..*old(self)
            }),
    {
        self.netns = netns;
        if !self.config.disable_selinux {
            if let Some(label) = selinux_label {
                self.config.security_info.selinux_label = Some(label.clone());
                return Some(label);
            }
        }
        None
    }

    /// Begins the start of a virtual machine: the hypervisor is launched.
    pub fn start_vm(&mut self, timeout_secs: i32) -> (r: StartStep)
        ensures
            r == StartStep::Launch,
            *final(self) == (CloudHypervisorInner { timeout_secs, ..*old(self) }),
    {
        self.timeout_secs = timeout_secs;
        StartStep::Launch
    }

    /// What comes after a step of the start. The hypervisor must have answered before the virtual
    /// machine is booted, and a virtual machine that does not boot is stopped before the failure is
    /// reported.
    pub fn next_start_step(&mut self, step: StartStep, worked: bool) -> (r: StartOutcome)
        ensures
            r == start_outcome(*old(self), step, worked),
            *final(self) == after_start_step(*old(self), step, worked),
    {
        match step {
            StartStep::Launch => {
                if worked {
                    StartOutcome::Next(StartStep::WaitForServer)
                } else {
                    StartOutcome::Failed(StartFailure::Launch)
                }
            },
            StartStep::WaitForServer => {
                if !worked {
                    return StartOutcome::Failed(StartFailure::WaitForServer);
                }
                if self.check_features().is_err() {
                    return StartOutcome::Failed(StartFailure::NoTdxSupport);
                }
                self.state = VmmState::VmmServerReady;
                StartOutcome::Next(StartStep::Boot(self.boot_kind()))
            },
            StartStep::Boot(_) => {
                if worked {
                    self.state = VmmState::VmRunning;
                    StartOutcome::Running
                } else {
                    StartOutcome::Next(StartStep::StopVm)
                }
            },
            StartStep::StopVm => StartOutcome::Failed(StartFailure::Boot),
        }
    }

    /// How the virtual machine boots. Huge pages cannot be restored from the template.
    pub fn boot_kind(&self) -> (r: BootKind)
        ensures
            r == boot_kind_of(*self),
    {
        if self.config.vm_template.boot_from_template && !self.config.memory_info.enable_hugepages {
            BootKind::FromTemplate
        } else {
            BootKind::FromKernel
        }
    }

    /// Begins to stop the virtual machine, and says whether it has to be shut down first. It is
    /// asked for twice when a workload exits, and must be shut down only once.
    pub fn begin_stop(&mut self) -> (shutdown: bool)
        ensures
            shutdown == needs_shutdown(*old(self)),
            *final(self) == stopping(*old(self)),
    {
        if self.state == VmmState::VmRunning {
            self.state = VmmState::VmmServerReady;
            true
        } else {
            false
        }
    }

    /// Records that the hypervisor has stopped.
    pub fn finish_stop(&mut self)
        ensures
            *final(self) == stopped(*old(self)),
    {
        self.state = VmmState::NotReady;
    }

    /// Whether the virtual machine can be paused: it fails with the state of one that does not run.
    pub fn check_pause(&self) -> (r: Result<(), VmmState>)
        ensures
            r == (if self.state == VmmState::VmRunning {
                Ok::<(), VmmState>(())
            } else {
                Err(self.state)
            }),
    {
        if self.state != VmmState::VmRunning {
            return Err(self.state);
        }
        Ok(())
    }

    /// Takes the hypervisor's answer to being asked to pause the virtual machine.
    pub fn pause_vm<E>(&mut self, answer: Result<(), E>) -> (r: Result<(), LifecycleError<E>>)
        ensures
            r == lifecycle_result(old(self).state, VmmState::VmRunning, answer),
            *final(self) == after_pause(*old(self), answer),
    {
        if self.state != VmmState::VmRunning {
            return Err(LifecycleError::WrongState(self.state));
        }
        match answer {
            Ok(_) => {
                self.state = VmmState::VmPaused;
                Ok(())
            },
            Err(e) => Err(LifecycleError::Refused(e)),
        }
    }

    /// Whether the virtual machine can be resumed: it fails with the state of one that is not
    /// paused.
    pub fn check_resume(&self) -> (r: Result<(), VmmState>)
        ensures
            r == (if self.state == VmmState::VmPaused {
                Ok::<(), VmmState>(())
            } else {
                Err(self.state)
            }),
    {
        if self.state != VmmState::VmPaused {
            return Err(self.state);
        }
        Ok(())
    }

    /// Takes the hypervisor's answer to being asked to resume the virtual machine.
    pub fn resume_vm<E>(&mut self, answer: Result<(), E>) -> (r: Result<(), LifecycleError<E>>)
        ensures
            r == lifecycle_result(old(self).state, VmmState::VmPaused, answer),
            *final(self) == after_resume(*old(self), answer),
    {
        if self.state != VmmState::VmPaused {
            return Err(LifecycleError::WrongState(self.state));
        }
        match answer {
            Ok(_) => {
                self.state = VmmState::VmRunning;
                Ok(())
            },
            Err(e) => Err(LifecycleError::Refused(e)),
        }
    }

    /// Where the virtual machine is saved: it fails with the state of one that is not paused.
    pub fn save_vm(&self) -> (r: Result<String, VmmState>)
        ensures
            r == (if self.state == VmmState::VmPaused {
                Ok::<String, VmmState>(self.config.factory.template_path)
            } else {
                Err(self.state)
            }),
    {
        if self.state != VmmState::VmPaused {
            return Err(self.state);
        }
        Ok(self.config.factory.template_path.clone())
    }

    /// The address of the agent, through the socket to the guest.
    pub fn get_agent_socket(&self, sandbox_path: &str) -> (r: String)
        ensures
            r@ == HYBRID_VSOCK_SCHEME@ + "://"@ + in_sandbox(sandbox_path@, CH_VM_SOCKET_NAME@),
    {
        let path = get_vsock_path(sandbox_path);
        concat3(HYBRID_VSOCK_SCHEME, "://", path.as_str())
    }

    /// Records that the hypervisor is let go.
    pub fn disconnect(&mut self)
        ensures
            *final(self) == (CloudHypervisorInner { state: VmmState::NotReady, ..*old(self) }),
    {
        self.state = VmmState::NotReady;
    }

    /// What the hypervisor supports. TDX does not permit shared file systems.
    pub fn capabilities(&self) -> (r: Capabilities)
        ensures
            r == (Capabilities {
                block_device: true,
                block_device_hotplug: true,
                fs_sharing: self.guest_protection_to_use != GuestProtection::Tdx,
                hybrid_vsock: true,
                guest_memory_probe: true,
            }),
    {
        Capabilities {
            block_device: true,
            block_device_hotplug: true,
            fs_sharing: !guest_protection_is_tdx(self.guest_protection_to_use),
            hybrid_vsock: true,
            guest_memory_probe: true,
        }
    }

    /// Takes capabilities; they are fixed, so nothing changes.
    pub fn set_capabilities(&mut self, _flags: Capabilities)
        ensures
            *final(self) == *old(self),
    {
    }

    /// The hypervisor's metrics: there are none.
    pub fn get_hypervisor_metrics(&self) -> (r: Result<String, HypervisorError>)
        ensures
            r == Err::<String, HypervisorError>(HypervisorError::NoMetrics),
    {
        Err(HypervisorError::NoMetrics)
    }

    /// Sets the size of a memory block of the guest, in MiB.
    pub fn set_guest_memory_block_size(&mut self, size: u32)
        ensures
            *final(self) == (CloudHypervisorInner {
                guest_memory_block_size_mb: size,
                ..*old(self)
            }),
    {
        self.guest_memory_block_size_mb = size;
    }

    /// The size of a memory block of the guest, in MiB.
    pub fn guest_memory_block_size_mb(&self) -> (r: u32)
        ensures
            r == self.guest_memory_block_size_mb,
    {
        self.guest_memory_block_size_mb
    }

    /// The sizes that the guest's memory goes through until it is `new_mem_mb`.
    pub fn resize_memory(&self, new_mem_mb: u32) -> (r: Vec<u32>)
        requires
            new_mem_mb > FIRST_RESIZE_MB ==> self.config.memory_info.default_memory
                + self.mem_hotplug_size_mb <= u32::MAX,
        ensures
            r@ == memory_steps(*self, new_mem_mb),
    {
        if new_mem_mb > FIRST_RESIZE_MB && (self.config.memory_info.default_memory
            + self.mem_hotplug_size_mb < SMALL_GUEST_MB
            || self.config.vm_template.boot_from_template) {
            vec![FIRST_RESIZE_MB, new_mem_mb]
        } else {
            vec![new_mem_mb]
        }
    }

    /// Changes the guest's memory to one size. A size beyond the limit is reported as zero and
    /// changes nothing. A guest from the template counts as booted with the template's memory the
    /// first time, and as an ordinary one from then on.
    pub fn resize_memory_unit(&mut self, new_mem_mb: u32, template_size: u32) -> (r: MemoryResize)
        requires
            new_mem_mb <= old(self).config.memory_info.default_maxmemory ==> booted_memory(
                *old(self),
                template_size,
            ) + old(self).mem_hotplug_size_mb <= u32::MAX,
        ensures
            r == memory_resize(*old(self), new_mem_mb, template_size),
            *final(self) == after_memory_resize(*old(self), new_mem_mb, template_size),
    {
        if new_mem_mb > self.config.memory_info.default_maxmemory {
            return MemoryResize { reported_mb: 0, request: None };
        }
        let default_memory: u32 = if self.config.vm_template.boot_from_template {
            self.config.vm_template.boot_from_template = false;
            template_size
        } else {
            self.config.memory_info.default_memory
        };
        let had_mem_mb: u32 = default_memory + self.mem_hotplug_size_mb;
        if new_mem_mb == had_mem_mb {
            return MemoryResize { reported_mb: new_mem_mb, request: None };
        }
        self.mem_hotplug_size_mb = if new_mem_mb > default_memory {
            new_mem_mb - default_memory
        } else {
            0
        };
        let bytes: u64 = (new_mem_mb as u64) * 1024 * 1024;
        MemoryResize { reported_mb: new_mem_mb, request: Some(bytes) }
    }

    /// Whether a change of virtual CPUs is valid: there must be some left, and there are never more
    /// than the limit.
    pub fn precheck_resize_vcpus(
        &self,
        old_vcpus: u32,
        new_vcpus: u32,
    ) -> (r: Result<(u32, u32), HypervisorError>)
        ensures
            r == (if new_vcpus == 0 {
                Err::<(u32, u32), HypervisorError>(HypervisorError::ZeroVcpus)
            } else {
                Ok((old_vcpus, within_max(new_vcpus, self.config.cpu_info.default_maxvcpus)))
            }),
    {
        if new_vcpus == 0 {
            return Err(HypervisorError::ZeroVcpus);
        }
        let default_maxvcpus: u32 = self.config.cpu_info.default_maxvcpus;
        if new_vcpus > default_maxvcpus {
            return Ok((old_vcpus, default_maxvcpus));
        }
        Ok((old_vcpus, new_vcpus))
    }

    /// What is done to change the number of virtual CPUs; nothing if it stays the same.
    pub fn resize_vcpu(
        &self,
        old_vcpus: u32,
        new_vcpus: u32,
    ) -> (r: Result<VcpuResize, HypervisorError>)
        ensures
            r == vcpu_resize(old_vcpus, new_vcpus, self.config.cpu_info.default_maxvcpus),
    {
        if old_vcpus == new_vcpus {
            return Ok(VcpuResize { old_vcpus: new_vcpus, new_vcpus, request: None });
        }
        match self.precheck_resize_vcpus(old_vcpus, new_vcpus) {
            Ok((old_vcpus, new_vcpus)) => Ok(
                VcpuResize { old_vcpus, new_vcpus, request: Some(new_vcpus) },
            ),
            Err(e) => Err(e),
        }
    }

    /// Records that the hypervisor has changed the number of virtual CPUs.
    pub fn vcpus_resized(&mut self, new_vcpus: u32)
        ensures
            *final(self) == (CloudHypervisorInner {
                config: HypervisorConfig {
                    cpu_info: crate::config::CpuInfo {
                        current_vcpus: CurrentVcpus::Whole(new_vcpus),
                        ..old(self).config.cpu_info
                    },
                    ..old(self).config
                },
                ..*old(self)
            }),
    {
        self.config.cpu_info.current_vcpus = CurrentVcpus::Whole(new_vcpus);
    }

    /// Where the agent takes connections for I/O: the socket to the guest, and a port. It fails
    /// where the agent takes none.
    pub fn get_passfd_listener_addr(
        &self,
        sandbox_path: &str,
    ) -> (r: Result<(String, u32), HypervisorError>)
        ensures
            match r {
                Ok(a) => self.passfd_listener_port == Some(a.1) && a.0@ == in_sandbox(
                    sandbox_path@,
                    CH_VM_SOCKET_NAME@,
                ),
                Err(e) => self.passfd_listener_port is None && e
                    == HypervisorError::NoPassfdListener,
            },
    {
        match self.passfd_listener_port {
            Some(port) => Ok((get_vsock_path(sandbox_path), port)),
            None => Err(HypervisorError::NoPassfdListener),
        }
    }

    /// The block device that holds the upper layers of overlays, if there is one.
    pub fn get_overlayfs_block_device(&self) -> (r: Option<&BlockDevice>)
        ensures
            match r {
                Some(d) => self.overlayfs_block_device == Some(*d),
                None => self.overlayfs_block_device is None,
            },
    {
        match &self.overlayfs_block_device {
            Some(d) => Some(d),
            None => None,
        }
    }
}

/// What asking the hypervisor to pause or resume a virtual machine comes to.
pub open spec fn lifecycle_result<E>(
    state: VmmState,
    needed: VmmState,
    answer: Result<(), E>,
) -> Result<(), LifecycleError<E>> {
    if state != needed {
        Err(LifecycleError::WrongState(state))
    } else {
        match answer {
            Ok(_) => Ok(()),
            Err(e) => Err(LifecycleError::Refused(e)),
        }
    }
}

/// The state after the hypervisor was asked to pause the virtual machine.
pub open spec fn after_pause<E>(
    ch: CloudHypervisorInner,
    answer: Result<(), E>,
) -> CloudHypervisorInner {
    CloudHypervisorInner {
        state: if lifecycle_result(ch.state, VmmState::VmRunning, answer) is Ok {
            VmmState::VmPaused
        } else {
            ch.state
        },
        ..ch
    }
}

/// The state after the hypervisor was asked to resume the virtual machine.
pub open spec fn after_resume<E>(
    ch: CloudHypervisorInner,
    answer: Result<(), E>,
) -> CloudHypervisorInner {
    CloudHypervisorInner {
        state: if lifecycle_result(ch.state, VmmState::VmPaused, answer) is Ok {
            VmmState::VmRunning
        } else {
            ch.state
        },
        ..ch
    }
}

/// Whether the virtual machine has to be shut down before the hypervisor stops.
pub open spec fn needs_shutdown(ch: CloudHypervisorInner) -> bool {
    ch.state == VmmState::VmRunning
}

/// The state once the stop has begun.
pub open spec fn stopping(ch: CloudHypervisorInner) -> CloudHypervisorInner {
    CloudHypervisorInner {
        state: if needs_shutdown(ch) {
            VmmState::VmmServerReady
        } else {
            ch.state
        },
        ..ch
    }
}

/// The state once the hypervisor has stopped.
pub open spec fn stopped(ch: CloudHypervisorInner) -> CloudHypervisorInner {
    CloudHypervisorInner { state: VmmState::NotReady, ..ch }
}

/// The thread of each virtual CPU; of several threads of one the last counts.
pub fn get_thread_ids(tids: &Vec<(u8, u32)>) -> (r: HashMap<u32, u32>)
    ensures
        r@ == thread_map(tids@),
{
    broadcast use vstd::std_specs::hash::group_hash_axioms;

    let mut r: HashMap<u32, u32> = HashMap::new();
    let mut i: usize = 0;
    proof {
        assert(r@ =~= thread_map(tids@.take(0)));
    }
    while i < tids.len()
        invariant
            i <= tids@.len(),
            r@ == thread_map(tids@.take(i as int)),
        decreases tids@.len() - i,
    {
        let (cpu, tid) = tids[i];
        proof {
            assert(tids@.take(i + 1).drop_last() =~= tids@.take(i as int));
        }
        r.insert(cpu as u32, tid);
        i = i + 1;
    }
    proof {
        assert(tids@.take(i as int) =~= tids@);
    }
    r
}

/// The hypervisor's process and its threads that are not virtual CPUs, each once; the process comes
/// first.
pub fn get_pids(pid: u32, entries: &Vec<TaskEntry>) -> (r: Vec<u32>)
    ensures
        r@.no_duplicates(),
        r@.len() > 0 && r@[0] == pid,
        forall|t: u32| r@.contains(t) <==> (t == pid || child_thread(entries@, t)),
{
    broadcast use vstd::std_specs::hash::group_hash_axioms;

    let mut seen: HashSet<u32> = HashSet::new();
    seen.insert(pid);
    let mut r: Vec<u32> = vec![pid];
    let mut i: usize = 0;
    while i < entries.len()
        invariant
            i <= entries@.len(),
            r@.no_duplicates(),
            r@.len() > 0 && r@[0] == pid,
            forall|t: u32| seen@.contains(t) <==> r@.contains(t),
            forall|t: u32|
                r@.contains(t) <==> (t == pid || child_thread(entries@.take(i as int), t)),
        decreases entries@.len() - i,
    {
        let ghost had = r@;
        let tid = parse_u64(entries[i].file_name.as_str(), u32::MAX as u64);
        let vcpu = names_vcpu(&entries[i]);
        if let Some(tid) = tid {
            if !vcpu {
                let tid: u32 = tid as u32;
                if !seen.contains(&tid) {
                    seen.insert(tid);
                    r.push(tid);
                }
            }
        }
        proof {
            assert forall|t: u32| r@.contains(t) <==> had.contains(t) || (entry_tid(
                entries@[i as int],
            ) == Some(t as nat) && !is_vcpu_entry(entries@[i as int])) by {
                if had.contains(t) {
                    let k = choose|k: int| 0 <= k < had.len() && had[k] == t;
                    assert(r@[k] == t);
                }
                if r@.len() > had.len() {
                    assert(r@[had.len() as int] == r@.last());
                    if r@.contains(t) {
                        let k = choose|k: int| 0 <= k < r@.len() && r@[k] == t;
                        if k < had.len() {
                            assert(had[k] == t);
                        }
                    }
                }
            }
            assert forall|t: u32|
                r@.contains(t) <==> (t == pid || child_thread(entries@.take(i + 1), t)) by {
                lemma_child_thread_step(entries@, i as int, t);
                assert(had.contains(t) <==> (t == pid || child_thread(
                    entries@.take(i as int),
                    t,
                )));
            }
        }
        i = i + 1;
    }
    proof {
        assert(entries@.take(i as int) =~= entries@);
    }
    r
}

/// The kernel parameters that the user gave are the last ones.
pub proof fn law_user_params_last(
    cfg: HypervisorConfig,
    passfd_port: Option<u32>,
    defaults: BootDefaults,
    arch: Arch,
)
    ensures
        kernel_param_groups(cfg, passfd_port, defaults, arch).last() == ParamGroupView::Text(
            cfg.boot_info.kernel_params@,
        ),
        kernel_param_groups(cfg, passfd_port, defaults, arch)[0] == ParamGroupView::Defaults(
            cfg.enable_debug,
        ),
{
}

/// Pausing and then resuming a virtual machine that runs brings it back to where it was, if the
/// hypervisor agrees to both.
pub proof fn law_resume_undoes_pause<E>(ch: CloudHypervisorInner)
    requires
        ch.state == VmmState::VmRunning,
    ensures
        after_resume(after_pause(ch, Ok::<(), E>(())), Ok::<(), E>(())) == ch,
{
}

/// A virtual machine that is paused cannot be paused again, nor one that runs be resumed; either
/// attempt leaves the state as it was.
pub proof fn law_lifecycle_refused<E>(ch: CloudHypervisorInner, answer: Result<(), E>)
    ensures
        ch.state != VmmState::VmRunning ==> after_pause(ch, answer) == ch && lifecycle_result(
            ch.state,
            VmmState::VmRunning,
            answer,
        ) == Err::<(), LifecycleError<E>>(LifecycleError::WrongState(ch.state)),
        ch.state != VmmState::VmPaused ==> after_resume(ch, answer) == ch && lifecycle_result(
            ch.state,
            VmmState::VmPaused,
            answer,
        ) == Err::<(), LifecycleError<E>>(LifecycleError::WrongState(ch.state)),
{
}

/// However often a virtual machine is stopped, it is shut down at most once: neither after a stop
/// that was finished nor after one that was only begun.
pub proof fn law_shut_down_once(ch: CloudHypervisorInner)
    ensures
        !needs_shutdown(stopping(ch)),
        !needs_shutdown(stopped(stopping(ch))),
        stopped(stopping(stopped(stopping(ch)))) == stopped(stopping(ch)),
{
}

/// Asking a second time for the same memory changes nothing and does not ask the hypervisor. The
/// size must not be below the guest's default memory, unless it is beyond the limit; and a guest
/// from the template must have the template's memory as its default, or be asked for a default that
/// is less than that.
pub proof fn law_memory_resize_settles(
    ch: CloudHypervisorInner,
    new_mem_mb: u32,
    template_size: u32,
)
    requires
        new_mem_mb > ch.config.memory_info.default_maxmemory || ({
            let default = ch.config.memory_info.default_memory;
            &&& default <= new_mem_mb
            &&& ch.config.vm_template.boot_from_template ==> template_size == default || (default
                < template_size && new_mem_mb == default)
        }),
    ensures
        ({
            let next = after_memory_resize(ch, new_mem_mb, template_size);
            &&& memory_resize(next, new_mem_mb, template_size).request is None
            &&& memory_resize(next, new_mem_mb, template_size).reported_mb == memory_resize(
                ch,
                new_mem_mb,
                template_size,
            ).reported_mb
            &&& after_memory_resize(next, new_mem_mb, template_size) == next
        }),
{
}

/// A guest's memory never exceeds its limit: a larger size leaves everything as it was.
pub proof fn law_memory_within_limit(
    ch: CloudHypervisorInner,
    new_mem_mb: u32,
    template_size: u32,
)
    ensures
        memory_resize(ch, new_mem_mb, template_size).request is Some ==> new_mem_mb
            <= ch.config.memory_info.default_maxmemory,
        new_mem_mb > ch.config.memory_info.default_maxmemory ==> after_memory_resize(
            ch,
            new_mem_mb,
            template_size,
        ) == ch,
{
}

/// After a guest's memory was changed upward, what it booted with and what was added make up the
/// size that was asked for.
pub proof fn law_memory_adds_up(ch: CloudHypervisorInner, new_mem_mb: u32, template_size: u32)
    requires
        new_mem_mb <= ch.config.memory_info.default_maxmemory,
        booted_memory(ch, template_size) <= new_mem_mb,
    ensures
        booted_memory(ch, template_size) + after_memory_resize(
            ch,
            new_mem_mb,
            template_size,
        ).mem_hotplug_size_mb == new_mem_mb,
{
}

/// A guest's memory ends up at the size that was asked for, after at most one step before it.
pub proof fn law_memory_steps_end(ch: CloudHypervisorInner, new_mem_mb: u32)
    ensures
        1 <= memory_steps(ch, new_mem_mb).len() <= 2,
        memory_steps(ch, new_mem_mb).last() == new_mem_mb,
        memory_steps(ch, new_mem_mb)[0] <= new_mem_mb,
{
}

/// The hypervisor is asked for at least one virtual CPU and for no more than the limit, wherever
/// the limit allows one at all.
pub proof fn law_vcpus_within_limit(old_vcpus: u32, new_vcpus: u32, max: u32)
    requires
        max > 0,
    ensures
        vcpu_resize(old_vcpus, new_vcpus, max) matches Ok(r) ==> (r.request matches Some(n) ==> 1
            <= n <= max && n <= new_vcpus),
{
}

/// A virtual machine comes to run only by a boot that worked, and only where the hypervisor has
/// what the guest's protection needs is it booted.
pub proof fn law_runs_only_after_boot(ch: CloudHypervisorInner, step: StartStep, worked: bool)
    requires
        ch.state != VmmState::VmRunning,
    ensures
        after_start_step(ch, step, worked).state == VmmState::VmRunning ==> step is Boot && worked,
        start_outcome(ch, step, worked) matches StartOutcome::Next(StartStep::Boot(_)) ==> step
            == StartStep::WaitForServer && worked && !lacks_tdx(ch),
{
}

/// The place of a step among all steps of a start.
pub open spec fn place(step: StartStep) -> nat {
    match step {
        StartStep::Launch => 0,
        StartStep::WaitForServer => 1,
        StartStep::Boot(_) => 2,
        StartStep::StopVm => 3,
    }
}

/// Every step of a start leads to a later one, so that a start ends.
pub proof fn law_start_advances(ch: CloudHypervisorInner, step: StartStep, worked: bool)
    ensures
        start_outcome(ch, step, worked) matches StartOutcome::Next(next) ==> place(step) < place(
            next,
        ),
{
}

/// Whenever the hypervisor is asked to change the guest's memory, it is asked for the whole size in
/// bytes, whatever was added before, and that size is reported. It is asked unless the size is
/// beyond the limit or the guest has it already; a size beyond the limit is reported as zero.
pub proof fn law_whole_memory_is_asked_for(
    ch: &mut CloudHypervisorInner,
    new_mem_mb: u32,
    template_size: u32,
    r: MemoryResize,
)
    requires
        call_ensures(
            CloudHypervisorInner::resize_memory_unit,
            (ch, new_mem_mb, template_size),
            r,
        ),
    ensures
        r.request matches Some(bytes) ==> bytes == new_mem_mb * 1048576,
        r.request is Some ==> r.reported_mb == new_mem_mb,
        new_mem_mb <= old(ch).config.memory_info.default_maxmemory ==> r.reported_mb == new_mem_mb,
        new_mem_mb > old(ch).config.memory_info.default_maxmemory ==> r.reported_mb == 0
            && r.request is None,
        new_mem_mb <= old(ch).config.memory_info.default_maxmemory ==> (r.request is None
            <==> new_mem_mb == old(ch).mem_hotplug_size_mb + (if old(ch).config.vm_template.boot_from_template {
            template_size
        } else {
            old(ch).config.memory_info.default_memory
        })),
{
}

/// After a change that the hypervisor was asked for, what was added is the size beyond the memory
/// that the guest booted with, and nothing below it. Where the hypervisor is not asked, what was
/// added stays. An accepted size ends the guest's tie to the template's memory; nothing else of the
/// state changes.
pub proof fn law_added_memory_is_recorded(
    ch: &mut CloudHypervisorInner,
    new_mem_mb: u32,
    template_size: u32,
    r: MemoryResize,
)
    requires
        call_ensures(
            CloudHypervisorInner::resize_memory_unit,
            (ch, new_mem_mb, template_size),
            r,
        ),
    ensures
        ({
            let booted = if old(ch).config.vm_template.boot_from_template {
                template_size
            } else {
                old(ch).config.memory_info.default_memory
            };
            &&& r.request is Some && new_mem_mb >= booted ==> booted + final(ch).mem_hotplug_size_mb
                == new_mem_mb
            &&& r.request is Some && new_mem_mb < booted ==> final(ch).mem_hotplug_size_mb == 0
        }),
        r.request is None ==> final(ch).mem_hotplug_size_mb == old(ch).mem_hotplug_size_mb,
        final(ch).config.vm_template.boot_from_template <==> old(ch).config.vm_template.boot_from_template && new_mem_mb > old(ch).config.memory_info.default_maxmemory,
        *final(ch) == (CloudHypervisorInner {
            config: HypervisorConfig {
                vm_template: VmTemplateInfo {
                    boot_from_template: final(ch).config.vm_template.boot_from_template,
                    ..old(ch).config.vm_template
                },
                ..old(ch).config
            },
            mem_hotplug_size_mb: final(ch).mem_hotplug_size_mb,
            ..*old(ch)
        }),
{
}

/// The size asked for comes last. One step comes before it if and only if the size is beyond 5 GiB
/// and the guest is below 1 GiB or from the template, and that step is 5 GiB.
pub proof fn law_large_sizes_take_two_steps(
    ch: CloudHypervisorInner,
    new_mem_mb: u32,
    r: Vec<u32>,
)
    requires
        call_ensures(CloudHypervisorInner::resize_memory, (&ch, new_mem_mb), r),
    ensures
        r@.len() == 1 || r@.len() == 2,
        r@.last() == new_mem_mb,
        r@.len() == 2 ==> r@[0] == 5120 && r@[0] < new_mem_mb,
        r@.len() == 2 <==> new_mem_mb > 5120 && (ch.config.vm_template.boot_from_template
            || ch.config.memory_info.default_memory + ch.mem_hotplug_size_mb < 1024),
{
}

/// A number of virtual CPUs that stays the same asks for nothing. Otherwise none at all is refused,
/// and the hypervisor is asked for what is reported: the number asked for, or the limit if that is
/// less.
pub proof fn law_vcpus_are_resized(
    ch: CloudHypervisorInner,
    old_vcpus: u32,
    new_vcpus: u32,
    r: Result<VcpuResize, HypervisorError>,
)
    requires
        call_ensures(CloudHypervisorInner::resize_vcpu, (&ch, old_vcpus, new_vcpus), r),
    ensures
        r is Err <==> new_vcpus == 0 && old_vcpus != 0,
        r matches Err(e) ==> e == HypervisorError::ZeroVcpus,
        r matches Ok(v) ==> v.old_vcpus == old_vcpus,
        old_vcpus == new_vcpus ==> (r matches Ok(v) && v.new_vcpus == new_vcpus && v.request
            is None),
        old_vcpus != new_vcpus ==> (r matches Ok(v) ==> {
            let max = ch.config.cpu_info.default_maxvcpus;
            &&& v.request == Some(v.new_vcpus)
            &&& v.new_vcpus <= new_vcpus && v.new_vcpus <= max
            &&& v.new_vcpus == new_vcpus || v.new_vcpus == max
        }),
{
}

/// A change of virtual CPUs is refused if and only if none would be left; otherwise the number that
/// there were stays, and the number that there will be is the one asked for, or the limit if that
/// is less.
pub proof fn law_vcpus_are_checked(
    ch: CloudHypervisorInner,
    old_vcpus: u32,
    new_vcpus: u32,
    r: Result<(u32, u32), HypervisorError>,
)
    requires
        call_ensures(CloudHypervisorInner::precheck_resize_vcpus, (&ch, old_vcpus, new_vcpus), r),
    ensures
        r is Err <==> new_vcpus == 0,
        r matches Err(e) ==> e == HypervisorError::ZeroVcpus,
        r matches Ok(p) ==> {
            let max = ch.config.cpu_info.default_maxvcpus;
            &&& p.0 == old_vcpus
            &&& p.1 <= new_vcpus && p.1 <= max
            &&& p.1 == new_vcpus || p.1 == max
        },
{
}

/// Recording a number of virtual CPUs changes the current number and nothing else.
pub proof fn law_only_current_vcpus_change(ch: &mut CloudHypervisorInner, new_vcpus: u32)
    requires
        call_ensures(CloudHypervisorInner::vcpus_resized, (ch, new_vcpus), ()),
    ensures
        final(ch).config.cpu_info.current_vcpus == CurrentVcpus::Whole(new_vcpus),
        *final(ch) == (CloudHypervisorInner {
            config: HypervisorConfig {
                cpu_info: CpuInfo {
                    current_vcpus: final(ch).config.cpu_info.current_vcpus,
                    ..old(ch).config.cpu_info
                },
                ..old(ch).config
            },
            ..*old(ch)
        }),
{
}

/// There is exactly one group for the root file system. It hands the configured parameters for
/// dm-verity on, a confidential guest's root file system is on a block device and any other's on
/// the configured one, and its type is the configured one or, where none is, the default.
pub proof fn law_one_rootfs_group(
    ch: CloudHypervisorInner,
    defaults: BootDefaults,
    arch: Arch,
    r: Vec<KernelParamGroup>,
)
    requires
        call_ensures(CloudHypervisorInner::get_kernel_params, (&ch, &defaults, arch), r),
    ensures
        r@.len() >= 5,
        forall|i: int|
            0 <= i < r@.len() ==> ((#[trigger] r@[i]) is Rootfs <==> i == r@.len() - 3),
        r@[r@.len() - 3] matches KernelParamGroup::Rootfs { verity_params, driver, fs_type } && {
            let boot = ch.config.boot_info;
            &&& verity_params@ == boot.kernel_verity_params@
            &&& ch.config.security_info.confidential_guest ==> driver@
                == defaults.rootfs_driver_blk@
            &&& !ch.config.security_info.confidential_guest ==> driver@ == boot.vm_rootfs_driver@
            &&& boot.rootfs_type@.len() > 0 ==> fs_type@ == boot.rootfs_type@
            &&& boot.rootfs_type@.len() == 0 ==> fs_type@ == defaults.rootfs_type@
        },
{
    lemma_group_places(ch, defaults, arch, r);
    let n = r@.len() as int;
    assert(r@[n - 3]@ is Rootfs);
    assert forall|i: int| 0 <= i < n implies ((#[trigger] r@[i]) is Rootfs <==> i == n - 3) by {
        assert(r@[i]@ == groups_view(r@)[i]);
        assert(r@[i] is Rootfs <==> r@[i]@ is Rootfs);
    }
}

/// The kernel parameters come in this order: what every guest gets, the port for I/O if there is
/// one, the console, the root file system, what this hypervisor needs, and what the user gave. No
/// other group is among them.
pub proof fn law_groups_in_order(
    ch: CloudHypervisorInner,
    defaults: BootDefaults,
    arch: Arch,
    r: Vec<KernelParamGroup>,
)
    requires
        call_ensures(CloudHypervisorInner::get_kernel_params, (&ch, &defaults, arch), r),
    ensures
        ({
            let n = r@.len() as int;
            &&& n == (if ch.passfd_listener_port is Some {
                6int
            } else {
                5
            })
            &&& r@[0] == KernelParamGroup::Defaults { debug: ch.config.enable_debug }
            &&& ch.passfd_listener_port matches Some(port) ==> (r@[1] matches KernelParamGroup::Text(
                t,
            ) && t@ == defaults.passfd_listener_port@ + "="@ + decimal(port as nat))
            &&& r@[n - 3] is Rootfs
            &&& r@[n - 2] matches KernelParamGroup::Text(t) && t@
                == "no_timer_check noreplace-smp systemd.log_target=console"@
            &&& r@[n - 1] matches KernelParamGroup::Text(t) && t@
                == ch.config.boot_info.kernel_params@
        }),
{
    lemma_group_places(ch, defaults, arch, r);
}

/// Without debug output the guest is quiet. With it, a confidential guest has the paravirtual
/// console, and any other the serial line of its processor.
pub proof fn law_console_of_guest(
    ch: CloudHypervisorInner,
    defaults: BootDefaults,
    arch: Arch,
    r: Vec<KernelParamGroup>,
)
    requires
        call_ensures(CloudHypervisorInner::get_kernel_params, (&ch, &defaults, arch), r),
    ensures
        r@.len() >= 5,
        r@[r@.len() - 4] matches KernelParamGroup::Text(t) && {
            let confidential = ch.config.security_info.confidential_guest;
            &&& !ch.config.enable_debug ==> t@ == "quiet"@
            &&& ch.config.enable_debug && confidential ==> t@ == "console=hvc0"@
            &&& ch.config.enable_debug && !confidential && arch == Arch::X86_64 ==> t@
                == "console=ttyS0,115200n8"@
            &&& ch.config.enable_debug && !confidential && arch == Arch::Aarch64 ==> t@
                == "console=ttyAMA0,115200n8"@
        },
{
    lemma_group_places(ch, defaults, arch, r);
}

/// Every group is where its contents are.
proof fn lemma_group_places(
    ch: CloudHypervisorInner,
    defaults: BootDefaults,
    arch: Arch,
    r: Vec<KernelParamGroup>,
)
    requires
        call_ensures(CloudHypervisorInner::get_kernel_params, (&ch, &defaults, arch), r),
    ensures
        r@.len() == groups_view(r@).len(),
        forall|i: int| 0 <= i < r@.len() ==> (#[trigger] r@[i])@ == groups_view(r@)[i],
        groups_view(r@) == kernel_param_groups(
            ch.config,
            ch.passfd_listener_port,
            defaults,
            arch,
        ),
{
}

/// The configuration that is booted differs from the one that the virtual machine has only in the
/// number of virtual CPUs and the memory, and only where it is to be the template: then it has one
/// virtual CPU and the template's memory.
pub proof fn law_boot_config_is_kept(
    ch: CloudHypervisorInner,
    template_size: u32,
    r: HypervisorConfig,
)
    requires
        call_ensures(CloudHypervisorInner::boot_config, (&ch, template_size), r),
    ensures
        !ch.config.vm_template.boot_to_be_template ==> r.same_as(ch.config),
        ch.config.vm_template.boot_to_be_template ==> r.memory_info.default_memory == template_size
            && r.cpu_info.default_vcpus.bits == 0x3f80_0000,
        texts(r.virtio_fs_extra_args@) == texts(ch.config.virtio_fs_extra_args@),
        r == (HypervisorConfig {
            virtio_fs_extra_args: r.virtio_fs_extra_args,
            cpu_info: CpuInfo {
                default_vcpus: r.cpu_info.default_vcpus,
                ..ch.config.cpu_info
            },
            memory_info: MemoryInfo {
                default_memory: r.memory_info.default_memory,
                ..ch.config.memory_info
            },
            ..ch.config
        }),
{
}

/// A virtual machine boots with what was put together for it: its configuration, its kernel
/// parameters, its devices and its protection, in its own directory, and with a socket to the guest
/// in the sandbox's directory.
pub proof fn law_machine_boots_with_its_own(
    ch: CloudHypervisorInner,
    devices: SharedDevices,
    kernel_params: String,
    sandbox_path: &str,
    template_size: u32,
    r: NamedHypervisorConfig,
    cfg: HypervisorConfig,
)
    requires
        call_ensures(
            CloudHypervisorInner::boot_vm,
            (&ch, devices, kernel_params, sandbox_path, template_size),
            r,
        ),
        call_ensures(CloudHypervisorInner::boot_config, (&ch, template_size), cfg),
    ensures
        r.cfg.same_as(cfg),
        r.kernel_params@ == kernel_params@,
        r.devices == devices,
        r.guest_protection_to_use == ch.guest_protection_to_use,
        r.sandbox_path@ == ch.vm_path@,
        r.vsock_socket_path@ == sandbox_path@ + "/"@ + "ch-vm.sock"@,
{
}

/// A virtual machine from the template is restored from where its configuration says, and every
/// network device and then every assigned device is attached once, each kind from its last to its
/// first.
pub proof fn law_restored_machine_gets_all_devices(
    ch: CloudHypervisorInner,
    devices: SharedDevices,
    sandbox_path: &str,
    r: (RestoreConfigInner, Vec<AttachRequest>),
)
    requires
        call_ensures(CloudHypervisorInner::boot_from_template, (&ch, devices, sandbox_path), r),
    ensures
        r.0.source_url == Some(ch.config.factory.template_path),
        r.0.vsock_socket_path@ == sandbox_path@ + "/"@ + "ch-vm.sock"@,
        ({
            let nets = devices.network_devices@;
            let hosts = devices.host_devices@;
            &&& r.1@.len() == nets.len() + hosts.len()
            &&& forall|i: int|
                0 <= i < nets.len() ==> #[trigger] r.1@[nets.len() - 1 - i]
                    == AttachRequest::AddNet(nets[i])
            &&& forall|i: int|
                0 <= i < hosts.len() ==> #[trigger] r.1@[nets.len() + hosts.len() - 1 - i]
                    == AttachRequest::AddDevice(hosts[i])
        }),
{
}

/// The hypervisor is launched in the configured network namespace. Its API has a socket in the
/// sandbox's directory if and only if debug output is wanted.
pub proof fn law_launch_follows_configuration(
    ch: CloudHypervisorInner,
    sandbox_path: &str,
    r: LaunchPlan,
)
    requires
        call_ensures(CloudHypervisorInner::cloud_hypervisor_launch, (&ch, sandbox_path), r),
    ensures
        r.netns == ch.netns,
        r.api_socket is Some <==> ch.config.enable_debug,
        r.api_socket matches Some(path) ==> path@ == sandbox_path@ + "/"@ + "ch-api.sock"@,
        ch.config.security_info.disable_seccomp ==> r.seccomp@ == "true"@,
        !ch.config.security_info.disable_seccomp ==> r.seccomp@ == "false"@,
{
}

/// The hypervisor has as long to answer as the start was given, and the start begins by launching
/// it.
pub proof fn law_start_takes_timeout(
    ch: &mut CloudHypervisorInner,
    timeout_secs: i32,
    r: StartStep,
    started: CloudHypervisorInner,
    wait: u64,
)
    requires
        call_ensures(CloudHypervisorInner::start_vm, (ch, timeout_secs), r),
        started == *final(ch),
        call_ensures(CloudHypervisorInner::connect_timeout, (&started,), wait),
    ensures
        r == StartStep::Launch,
        timeout_secs >= 0 ==> wait == timeout_secs,
        wait == timeout_secs as u64,
        *final(ch) == (CloudHypervisorInner {
            timeout_secs: final(ch).timeout_secs,
            ..*old(ch)
        }),
{
}

/// The waiting is over with the first answer, and what the hypervisor says of itself is kept;
/// without an answer nothing changes.
pub proof fn law_answer_ends_waiting(
    ch: &mut CloudHypervisorInner,
    features: Option<Vec<String>>,
    ready: bool,
)
    requires
        call_ensures(CloudHypervisorInner::handle_ping, (ch, features), ready),
    ensures
        ready <==> features is Some,
        features is Some ==> final(ch).ch_features == features,
        features is None ==> *final(ch) == *old(ch),
        *final(ch) == (CloudHypervisorInner { ch_features: final(ch).ch_features, ..*old(ch) }),
{
}

/// Preparing begins with nothing ready, under the sandbox's name and in its directory, which must
/// exist; so must the root directory of the jail, if there is one.
pub proof fn law_prepare_begins_afresh(
    ch: &mut CloudHypervisorInner,
    id: &str,
    sandbox_path: &str,
    dirs: Vec<String>,
)
    requires
        call_ensures(CloudHypervisorInner::begin_prepare, (ch, id, sandbox_path), dirs),
    ensures
        final(ch).state == VmmState::NotReady,
        final(ch).id@ == id@,
        final(ch).run_dir@ == sandbox_path@,
        final(ch).vm_path@ == final(ch).run_dir@,
        dirs@.len() >= 1,
        dirs@[0]@ == sandbox_path@,
        dirs@.len() == 2 <==> old(ch).jailer_root@.len() > 0,
        dirs@.len() == 2 ==> dirs@[1]@ == old(ch).jailer_root@,
        dirs@.len() <= 2,
        *final(ch) == (CloudHypervisorInner {
            id: final(ch).id,
            state: final(ch).state,
            run_dir: final(ch).run_dir,
            vm_path: final(ch).vm_path,
            ..*old(ch)
        }),
{
    assert(texts(dirs@).len() == dirs@.len());
    assert(texts(dirs@)[0] == dirs@[0]@);
    if dirs@.len() == 2 {
        assert(texts(dirs@)[1] == dirs@[1]@);
    }
}

/// Preparing ends in the given network namespace. A label is set if and only if one is given and
/// SELinux is not left alone, and then it is the one that is kept; nothing else of the configuration
/// changes.
pub proof fn law_prepare_ends_labelled(
    ch: &mut CloudHypervisorInner,
    netns: Option<String>,
    selinux_label: Option<String>,
    label: Option<String>,
)
    requires
        call_ensures(CloudHypervisorInner::finish_prepare, (ch, netns, selinux_label), label),
    ensures
        final(ch).netns == netns,
        label is Some <==> selinux_label is Some && !old(ch).config.disable_selinux,
        label is Some ==> label == selinux_label && final(ch).config.security_info.selinux_label
            == label,
        label is None ==> final(ch).config == old(ch).config,
        final(ch).config == (HypervisorConfig {
            security_info: SecurityInfo {
                selinux_label: final(ch).config.security_info.selinux_label,
                ..old(ch).config.security_info
            },
            ..old(ch).config
        }),
        *final(ch) == (CloudHypervisorInner {
            netns: final(ch).netns,
            config: final(ch).config,
            ..*old(ch)
        }),
{
}

/// A guest that the host's protection does not suit is refused, with the reason, and only such a
/// one: a confidential guest needs TDX, and with TDX only a confidential one will do. A protection
/// other than TDX that is not asked for is not used.
pub proof fn law_protection_must_suit(
    ch: &mut CloudHypervisorInner,
    protection: GuestProtection,
    r: Result<(), GuestProtectionError>,
)
    requires
        call_ensures(CloudHypervisorInner::handle_guest_protection, (ch, protection), r),
    ensures
        ({
            let confidential = old(ch).config.security_info.confidential_guest;
            &&& r is Ok <==> confidential == (protection == GuestProtection::Tdx)
            &&& confidential && protection == GuestProtection::NoProtection ==> r == Err::<
                (),
                GuestProtectionError,
            >(GuestProtectionError::NoProtectionAvailable)
            &&& confidential && protection != GuestProtection::NoProtection && protection
                != GuestProtection::Tdx ==> r == Err::<(), GuestProtectionError>(
                GuestProtectionError::ExpectedTDXProtection(protection),
            )
            &&& !confidential && protection == GuestProtection::Tdx ==> r == Err::<
                (),
                GuestProtectionError,
            >(GuestProtectionError::TDXProtectionMustBeUsedWithCH)
            &&& confidential || protection == GuestProtection::Tdx ==> final(ch).guest_protection_to_use == protection
            &&& !confidential && protection != GuestProtection::Tdx ==> final(ch).guest_protection_to_use == GuestProtection::NoProtection
        }),
        *final(ch) == (CloudHypervisorInner {
            guest_protection_to_use: final(ch).guest_protection_to_use,
            ..*old(ch)
        }),
{
}

/// A hypervisor is unfit if and only if TDX protects the guest and it says what it was built with
/// and TDX is not among that.
pub proof fn law_tdx_guest_needs_tdx_build(
    ch: CloudHypervisorInner,
    r: Result<(), HypervisorError>,
)
    requires
        call_ensures(CloudHypervisorInner::check_features, (&ch,), r),
    ensures
        ch.guest_protection_to_use != GuestProtection::Tdx ==> r is Ok,
        ch.ch_features is None ==> r is Ok,
        ch.guest_protection_to_use == GuestProtection::Tdx ==> (ch.ch_features matches Some(f)
            ==> (r is Ok <==> exists|i: int|
            0 <= i < f@.len() && (#[trigger] f@[i])@ == "tdx"@)),
        r matches Err(e) ==> e == HypervisorError::NoTdxSupport,
{
    if let Some(f) = ch.ch_features {
        if texts(f@).contains("tdx"@) {
            let i = choose|i: int| 0 <= i < texts(f@).len() && texts(f@)[i] == "tdx"@;
            assert(f@[i]@ == "tdx"@);
        }
        if exists|i: int| 0 <= i < f@.len() && (#[trigger] f@[i])@ == "tdx"@ {
            let i = choose|i: int| 0 <= i < f@.len() && (#[trigger] f@[i])@ == "tdx"@;
            assert(texts(f@)[i] == "tdx"@);
        }
    }
}

/// A start that works goes from the launch to the hypervisor's answer to the boot to the running
/// machine. A launch or an answer that fails ends it with that failure; a boot that fails is
/// followed by stopping the machine, and only then is the failure to boot reported.
pub proof fn law_start_goes_in_order(
    ch: &mut CloudHypervisorInner,
    step: StartStep,
    worked: bool,
    r: StartOutcome,
    fit: Result<(), HypervisorError>,
)
    requires
        call_ensures(CloudHypervisorInner::next_start_step, (ch, step, worked), r),
        call_ensures(CloudHypervisorInner::check_features, (&*old(ch),), fit),
    ensures
        step == StartStep::Launch ==> r == (if worked {
            StartOutcome::Next(StartStep::WaitForServer)
        } else {
            StartOutcome::Failed(StartFailure::Launch)
        }),
        step == StartStep::WaitForServer && !worked ==> r == StartOutcome::Failed(
            StartFailure::WaitForServer,
        ),
        step == StartStep::WaitForServer && worked && fit is Err ==> r == StartOutcome::Failed(
            StartFailure::NoTdxSupport,
        ),
        step == StartStep::WaitForServer && worked && fit is Ok ==> (
        r matches StartOutcome::Next(StartStep::Boot(kind)) && (kind == BootKind::FromTemplate
            <==> old(ch).config.vm_template.boot_from_template && !old(ch).config.memory_info.enable_hugepages)),
        step is Boot && worked ==> r == StartOutcome::Running,
        step is Boot && !worked ==> r == StartOutcome::Next(StartStep::StopVm),
        step == StartStep::StopVm ==> r == StartOutcome::Failed(StartFailure::Boot),
{
}

/// The machine counts as running once it runs, and the hypervisor as ready once the machine is
/// booted; no other step changes the state, and no step changes anything but the state.
pub proof fn law_start_moves_state(
    ch: &mut CloudHypervisorInner,
    step: StartStep,
    worked: bool,
    r: StartOutcome,
)
    requires
        call_ensures(CloudHypervisorInner::next_start_step, (ch, step, worked), r),
    ensures
        r == StartOutcome::Running ==> final(ch).state == VmmState::VmRunning,
        r matches StartOutcome::Next(StartStep::Boot(_)) ==> final(ch).state
            == VmmState::VmmServerReady,
        r != StartOutcome::Running && !(r matches StartOutcome::Next(StartStep::Boot(_))) ==> final(ch).state == old(ch).state,
        *final(ch) == (CloudHypervisorInner { state: final(ch).state, ..*old(ch) }),
{
}

/// A machine boots from the template if and only if it is configured to and has no huge pages.
pub proof fn law_huge_pages_boot_from_kernel(ch: CloudHypervisorInner, r: BootKind)
    requires
        call_ensures(CloudHypervisorInner::boot_kind, (&ch,), r),
    ensures
        r == BootKind::FromTemplate <==> ch.config.vm_template.boot_from_template
            && !ch.config.memory_info.enable_hugepages,
{
}

/// Devices are collected and the directory is created before anything else. From the kernel, the
/// configuration is then built, the machine created and started; from the template, it is restored
/// and its devices attached. No step comes twice.
pub proof fn law_boot_steps_in_order(kind: BootKind, r: Vec<BootStep>)
    requires
        call_ensures(boot_steps, (kind,), r),
    ensures
        r@.len() == (if kind == BootKind::FromKernel {
            5int
        } else {
            4
        }),
        r@[0] == BootStep::CollectDevices,
        r@[1] == BootStep::CreateDir,
        kind == BootKind::FromKernel ==> r@[2] == BootStep::BuildConfig && r@[3]
            == BootStep::CreateVm && r@[4] == BootStep::StartVm,
        kind == BootKind::FromTemplate ==> r@[2] == BootStep::RestoreVm && r@[3]
            == BootStep::AttachDevices,
        r@.no_duplicates(),
{
}

/// Only a machine that runs is shut down when it is stopped. It does not count as running from then
/// on, and once the hypervisor has stopped nothing is ready; nothing but the state changes.
pub proof fn law_running_machine_is_shut_down(ch: &mut CloudHypervisorInner, shutdown: bool)
    requires
        call_ensures(CloudHypervisorInner::begin_stop, (ch,), shutdown),
    ensures
        shutdown <==> old(ch).state == VmmState::VmRunning,
        shutdown ==> final(ch).state == VmmState::VmmServerReady,
        !shutdown ==> *final(ch) == *old(ch),
        *final(ch) == (CloudHypervisorInner { state: final(ch).state, ..*old(ch) }),
{
}

/// Once the hypervisor has stopped or was let go, nothing is ready; nothing but the state changes.
pub proof fn law_stopped_is_not_ready(
    ch: &mut CloudHypervisorInner,
    other: &mut CloudHypervisorInner,
)
    requires
        call_ensures(CloudHypervisorInner::finish_stop, (ch,), ()),
        call_ensures(CloudHypervisorInner::disconnect, (other,), ()),
    ensures
        *final(ch) == (CloudHypervisorInner { state: VmmState::NotReady, ..*old(ch) }),
        *final(other) == (CloudHypervisorInner { state: VmmState::NotReady, ..*old(other) }),
{
}

/// A machine is paused if and only if it runs and the hypervisor agrees. In any other case nothing
/// changes, and the error is the state, or else the hypervisor's.
pub proof fn law_pause_needs_running_machine<E>(
    ch: &mut CloudHypervisorInner,
    answer: Result<(), E>,
    r: Result<(), LifecycleError<E>>,
)
    requires
        call_ensures(CloudHypervisorInner::pause_vm::<E>, (ch, answer), r),
    ensures
        r is Ok <==> old(ch).state == VmmState::VmRunning && answer is Ok,
        r is Ok ==> *final(ch) == (CloudHypervisorInner { state: VmmState::VmPaused, ..*old(ch) }),
        r is Err ==> *final(ch) == *old(ch),
        old(ch).state != VmmState::VmRunning ==> r == Err::<(), LifecycleError<E>>(
            LifecycleError::WrongState(old(ch).state),
        ),
        old(ch).state == VmmState::VmRunning ==> (answer matches Err(e) ==> r == Err::<
            (),
            LifecycleError<E>,
        >(LifecycleError::Refused(e))),
{
}

/// A machine is resumed if and only if it is paused and the hypervisor agrees. In any other case
/// nothing changes, and the error is the state, or else the hypervisor's.
pub proof fn law_resume_needs_paused_machine<E>(
    ch: &mut CloudHypervisorInner,
    answer: Result<(), E>,
    r: Result<(), LifecycleError<E>>,
)
    requires
        call_ensures(CloudHypervisorInner::resume_vm::<E>, (ch, answer), r),
    ensures
        r is Ok <==> old(ch).state == VmmState::VmPaused && answer is Ok,
        r is Ok ==> *final(ch) == (CloudHypervisorInner { state: VmmState::VmRunning, ..*old(ch) }),
        r is Err ==> *final(ch) == *old(ch),
        old(ch).state != VmmState::VmPaused ==> r == Err::<(), LifecycleError<E>>(
            LifecycleError::WrongState(old(ch).state),
        ),
        old(ch).state == VmmState::VmPaused ==> (answer matches Err(e) ==> r == Err::<
            (),
            LifecycleError<E>,
        >(LifecycleError::Refused(e))),
{
}

/// What can be paused, resumed and saved is told by the state alone: a machine that runs can be
/// paused, and only one that is paused can be resumed or saved. It is saved where its configuration
/// says.
pub proof fn law_state_decides_lifecycle(
    ch: CloudHypervisorInner,
    pause: Result<(), VmmState>,
    resume: Result<(), VmmState>,
    save: Result<String, VmmState>,
)
    requires
        call_ensures(CloudHypervisorInner::check_pause, (&ch,), pause),
        call_ensures(CloudHypervisorInner::check_resume, (&ch,), resume),
        call_ensures(CloudHypervisorInner::save_vm, (&ch,), save),
    ensures
        pause is Ok <==> ch.state == VmmState::VmRunning,
        resume is Ok <==> ch.state == VmmState::VmPaused,
        save is Ok <==> ch.state == VmmState::VmPaused,
        pause matches Err(state) ==> state == ch.state,
        resume matches Err(state) ==> state == ch.state,
        save matches Err(state) ==> state == ch.state,
        save matches Ok(url) ==> url@ == ch.config.factory.template_path@,
{
}

/// What a machine is saved to is what one from the template is restored from.
pub proof fn law_saved_where_restored(
    ch: CloudHypervisorInner,
    save: Result<String, VmmState>,
    devices: SharedDevices,
    sandbox_path: &str,
    restored: (RestoreConfigInner, Vec<AttachRequest>),
)
    requires
        call_ensures(CloudHypervisorInner::save_vm, (&ch,), save),
        call_ensures(
            CloudHypervisorInner::boot_from_template,
            (&ch, devices, sandbox_path),
            restored,
        ),
    ensures
        save matches Ok(url) ==> restored.0.source_url == Some(url),
{
}

/// The agent and its listener for I/O are reached through the socket that the machine boots with.
/// The listener has an address if and only if it has a port.
pub proof fn law_guest_is_reached_by_one_socket(
    ch: CloudHypervisorInner,
    sandbox_path: &str,
    agent: String,
    listener: Result<(String, u32), HypervisorError>,
)
    requires
        call_ensures(CloudHypervisorInner::get_agent_socket, (&ch, sandbox_path), agent),
        call_ensures(CloudHypervisorInner::get_passfd_listener_addr, (&ch, sandbox_path), listener),
    ensures
        agent@ == "hvsock"@ + "://"@ + (sandbox_path@ + "/"@ + "ch-vm.sock"@),
        listener is Ok <==> ch.passfd_listener_port is Some,
        listener matches Ok(a) ==> ch.passfd_listener_port == Some(a.1) && a.0@ == sandbox_path@
            + "/"@ + "ch-vm.sock"@,
        listener matches Err(e) ==> e == HypervisorError::NoPassfdListener,
{
}

/// Everything is supported but shared file systems of a guest that TDX protects. There are no
/// metrics.
pub proof fn law_tdx_has_no_shared_fs(
    ch: CloudHypervisorInner,
    r: Capabilities,
    metrics: Result<String, HypervisorError>,
)
    requires
        call_ensures(CloudHypervisorInner::capabilities, (&ch,), r),
        call_ensures(CloudHypervisorInner::get_hypervisor_metrics, (&ch,), metrics),
    ensures
        r.fs_sharing <==> ch.guest_protection_to_use != GuestProtection::Tdx,
        r.block_device && r.block_device_hotplug && r.hybrid_vsock && r.guest_memory_probe,
        metrics == Err::<String, HypervisorError>(HypervisorError::NoMetrics),
{
}

/// The size of a memory block is the one that was set last; setting it changes nothing else, and
/// neither do capabilities.
pub proof fn law_memory_block_size_is_kept(
    ch: &mut CloudHypervisorInner,
    size: u32,
    set: CloudHypervisorInner,
    got: u32,
    other: &mut CloudHypervisorInner,
    flags: Capabilities,
)
    requires
        call_ensures(CloudHypervisorInner::set_guest_memory_block_size, (ch, size), ()),
        set == *final(ch),
        call_ensures(CloudHypervisorInner::guest_memory_block_size_mb, (&set,), got),
        call_ensures(CloudHypervisorInner::set_capabilities, (other, flags), ()),
    ensures
        got == size,
        *final(ch) == (CloudHypervisorInner {
            guest_memory_block_size_mb: final(ch).guest_memory_block_size_mb,
            ..*old(ch)
        }),
        *final(other) == *old(other),
{
}

/// The device for the upper layers of overlays is the one that was kept, if one was.
pub proof fn law_kept_overlay_device_is_found(
    ch: CloudHypervisorInner,
    r: Option<&BlockDevice>,
)
    requires
        call_ensures(CloudHypervisorInner::get_overlayfs_block_device, (&ch,), r),
    ensures
        r is Some <==> ch.overlayfs_block_device is Some,
        r matches Some(d) ==> ch.overlayfs_block_device == Some(*d),
{
}

/// A virtual CPU has a thread if and only if one is listed, and it is the one listed last.
pub proof fn law_thread_of_each_vcpu(tids: Vec<(u8, u32)>, r: HashMap<u32, u32>, i: int)
    requires
        call_ensures(get_thread_ids, (&tids,), r),
        0 <= i < tids@.len(),
        forall|k: int| i < k < tids@.len() ==> (#[trigger] tids@[k]).0 != tids@[i].0,
    ensures
        r@.dom().contains(tids@[i].0 as u32),
        r@[tids@[i].0 as u32] == tids@[i].1,
{
    lemma_thread_map(tids@, i);
}

/// Only virtual CPUs that are listed have a thread.
pub proof fn law_only_listed_vcpus(tids: Vec<(u8, u32)>, r: HashMap<u32, u32>, cpu: u32)
    requires
        call_ensures(get_thread_ids, (&tids,), r),
        r@.dom().contains(cpu),
    ensures
        exists|i: int| 0 <= i < tids@.len() && (#[trigger] tids@[i]).0 == cpu,
{
    lemma_thread_map_listed(tids@, cpu);
}

/// The table holds what is listed last.
proof fn lemma_thread_map(tids: Seq<(u8, u32)>, i: int)
    requires
        0 <= i < tids.len(),
        forall|k: int| i < k < tids.len() ==> (#[trigger] tids[k]).0 != tids[i].0,
    ensures
        thread_map(tids).dom().contains(tids[i].0 as u32),
        thread_map(tids)[tids[i].0 as u32] == tids[i].1,
    decreases tids.len(),
{
    if i < tids.len() - 1 {
        let rest = tids.drop_last();
        assert forall|k: int| i < k < rest.len() implies (#[trigger] rest[k]).0 != rest[i].0 by {
            assert(rest[k] == tids[k]);
        }
        lemma_thread_map(rest, i);
        assert(tids[tids.len() - 1].0 != tids[i].0);
    }
}

/// The table holds nothing that is not listed.
proof fn lemma_thread_map_listed(tids: Seq<(u8, u32)>, cpu: u32)
    requires
        thread_map(tids).dom().contains(cpu),
    ensures
        exists|i: int| 0 <= i < tids.len() && (#[trigger] tids[i]).0 == cpu,
    decreases tids.len(),
{
    if tids.len() > 0 {
        if tids.last().0 == cpu {
            assert(tids[tids.len() - 1].0 == cpu);
        } else {
            let rest = tids.drop_last();
            lemma_thread_map_listed(rest, cpu);
            let i = choose|i: int| 0 <= i < rest.len() && (#[trigger] rest[i]).0 == cpu;
            assert(tids[i].0 == cpu);
        }
    }
}

/// Every [`HypervisorError`] is told in its own words.
pub proof fn law_hypervisor_error_in_words(e: HypervisorError, r: &'static str)
    requires
        call_ensures(HypervisorError::message, (&e,), r),
    ensures
        e is NoTdxSupport ==> r@ == "Cloud Hypervisor is not built with TDX support"@,
        e is ZeroVcpus ==> r@ == "resize vcpu error: 0 vcpu resizing is invalid"@,
        e is NoPassfdListener ==> r@ == "passfd io listener port not set"@,
        e is NoMetrics ==> r@ == "CH hypervisor metrics not implemented - see https://github.com/kata-containers/kata-containers/issues/8800"@,
{
}

/// The process comes first, and each of its threads that are not virtual CPUs comes once: those that
/// are its children, and no other.
pub proof fn law_process_and_its_children(
    pid: u32,
    entries: Vec<TaskEntry>,
    r: Vec<u32>,
    children: HashSet<u32>,
    tid: u32,
)
    requires
        call_ensures(get_pids, (pid, &entries), r),
        call_ensures(crate::ch::utils::get_child_threads, (&entries,), children),
    ensures
        r@.len() > 0 && r@[0] == pid,
        r@.contains(tid) <==> tid == pid || children@.contains(tid),
        forall|i: int, k: int| 0 <= i < k < r@.len() ==> r@[i] != r@[k],
{
}

} // verus!

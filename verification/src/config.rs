//! The configuration of the hypervisors, the agents and the virtual machine factory.

use vstd::prelude::*;
use vstd::string::*;

use crate::agent::clone_strings;
use crate::name_map::NameMap;
use crate::text::texts;

verus! {

/// What the parts of a virtual machine are called in the configuration.
#[derive(Debug)]
pub struct PartNames {
    /// Cloud Hypervisor.
    pub cloud_hypervisor: String,
    /// QEMU.
    pub qemu: String,
    /// The agent.
    pub agent: String,
}

/// A number of virtual CPUs as a single-precision number, kept by its bits.
#[derive(Clone, Copy, Debug, PartialEq, Eq, Structural)]
pub struct Vcpus {
    /// The bits of the number.
    pub bits: u32,
}

/// One virtual CPU.
pub const ONE_VCPU: u32 = 0x3f80_0000;

impl Vcpus {
    /// Whether the number is zero, of either sign.
    pub open spec fn zero(&self) -> bool {
        self.bits == 0 || self.bits == 0x8000_0000
    }

    /// Whether the number is zero, of either sign.
    pub fn is_zero(&self) -> (r: bool)
        ensures
            r == self.zero(),
    {
        self.bits == 0 || self.bits == 0x8000_0000
    }
}

/// How many virtual CPUs a virtual machine has at the moment.
#[derive(Clone, Copy, Debug, PartialEq, Eq, Structural)]
pub enum CurrentVcpus {
    /// As it was configured.
    Configured(Vcpus),
    /// A whole number, since the last change.
    Whole(u32),
}

/// What is booted.
#[derive(Debug)]
pub struct BootInfo {
    /// The kernel.
    pub kernel: String,
    /// The root file system image.
    pub image: String,
    /// The initial RAM disk.
    pub initrd: String,
    /// Further kernel parameters.
    pub kernel_params: String,
    /// Kernel parameters for dm-verity.
    pub kernel_verity_params: String,
    /// The driver of the root file system's device.
    pub vm_rootfs_driver: String,
    /// The type of the root file system.
    pub rootfs_type: String,
}

impl Clone for BootInfo {
    fn clone(&self) -> (r: Self)
        ensures
            r == *self,
    {
        BootInfo {
            kernel: self.kernel.clone(),
            image: self.image.clone(),
            initrd: self.initrd.clone(),
            kernel_params: self.kernel_params.clone(),
            kernel_verity_params: self.kernel_verity_params.clone(),
            vm_rootfs_driver: self.vm_rootfs_driver.clone(),
            rootfs_type: self.rootfs_type.clone(),
        }
    }
}

/// Virtual CPUs.
#[derive(Clone, Copy, Debug)]
pub struct CpuInfo {
    /// How many there are at boot.
    pub default_vcpus: Vcpus,
    /// How many there are now.
    pub current_vcpus: CurrentVcpus,
    /// How many there can be.
    pub default_maxvcpus: u32,
}

/// Memory, in MiB.
#[derive(Clone, Copy, Debug)]
pub struct MemoryInfo {
    /// How much there is at boot.
    pub default_memory: u32,
    /// How much there can be.
    pub default_maxmemory: u32,
    /// Whether it is backed by huge pages.
    pub enable_hugepages: bool,
}

/// Security settings.
#[derive(Debug)]
pub struct SecurityInfo {
    /// Whether the guest is to be confidential.
    pub confidential_guest: bool,
    /// Whether system call filters are switched off.
    pub disable_seccomp: bool,
    /// The label of the hypervisor's process.
    pub selinux_label: Option<String>,
}

impl Clone for SecurityInfo {
    fn clone(&self) -> (r: Self)
        ensures
            r == *self,
    {
        SecurityInfo {
            confidential_guest: self.confidential_guest,
            disable_seccomp: self.disable_seccomp,
            selinux_label: match &self.selinux_label {
                Some(t) => Some(t.clone()),
                None => None,
            },
        }
    }
}

/// Block devices.
#[derive(Debug)]
pub struct BlockDevSettings {
    /// The driver.
    pub block_device_driver: String,
    /// Whether the host's page cache is passed by.
    pub block_device_cache_direct: bool,
    /// Bytes per refill.
    pub disk_rate_limiter_bw_max_rate: u64,
    /// Extra bytes at the start.
    pub disk_rate_limiter_bw_one_time_burst: Option<u64>,
    /// Operations per refill.
    pub disk_rate_limiter_ops_max_rate: u64,
    /// Extra operations at the start.
    pub disk_rate_limiter_ops_one_time_burst: Option<u64>,
}

impl Clone for BlockDevSettings {
    fn clone(&self) -> (r: Self)
        ensures
            r == *self,
    {
        BlockDevSettings {
            block_device_driver: self.block_device_driver.clone(),
            block_device_cache_direct: self.block_device_cache_direct,
            disk_rate_limiter_bw_max_rate: self.disk_rate_limiter_bw_max_rate,
            disk_rate_limiter_bw_one_time_burst: self.disk_rate_limiter_bw_one_time_burst,
            disk_rate_limiter_ops_max_rate: self.disk_rate_limiter_ops_max_rate,
            disk_rate_limiter_ops_one_time_burst: self.disk_rate_limiter_ops_one_time_burst,
        }
    }
}

/// Network devices.
#[derive(Clone, Copy, Debug, PartialEq, Eq, Structural)]
pub struct NetworkConfigInfo {
    /// Whether checksum offload is switched off.
    pub disable_offload_csum: bool,
    /// Whether TCP segmentation offload is switched off.
    pub disable_offload_tso: bool,
    /// Whether UDP fragmentation offload is switched off.
    pub disable_offload_ufo: bool,
}

impl Default for NetworkConfigInfo {
    fn default() -> (r: Self)
        ensures
            !r.disable_offload_csum,
            !r.disable_offload_tso,
            !r.disable_offload_ufo,
    {
        NetworkConfigInfo {
            disable_offload_csum: false,
            disable_offload_tso: false,
            disable_offload_ufo: false,
        }
    }
}

/// How a virtual machine takes part in templating.
#[derive(Debug)]
pub struct VmTemplateInfo {
    /// It is booted to be saved as the template.
    pub boot_to_be_template: bool,
    /// It is booted from the template.
    pub boot_from_template: bool,
    /// The template's memory.
    pub memory_path: String,
    /// The template's device state.
    pub device_state_path: String,
}

impl Clone for VmTemplateInfo {
    fn clone(&self) -> (r: Self)
        ensures
            r == *self,
    {
        VmTemplateInfo {
            boot_to_be_template: self.boot_to_be_template,
            boot_from_template: self.boot_from_template,
            memory_path: self.memory_path.clone(),
            device_state_path: self.device_state_path.clone(),
        }
    }
}

/// The virtual machine factory.
#[derive(Debug)]
pub struct FactoryConfig {
    /// The kind of factory.
    pub factory_type: String,
    /// Where the template is kept.
    pub template_path: String,
}

impl Clone for FactoryConfig {
    fn clone(&self) -> (r: Self)
        ensures
            r == *self,
    {
        FactoryConfig {
            factory_type: self.factory_type.clone(),
            template_path: self.template_path.clone(),
        }
    }
}

/// The configuration of one hypervisor.
#[derive(Debug)]
pub struct HypervisorConfig {
    /// Whether SELinux is left alone.
    pub disable_selinux: bool,
    /// Whether debug output is wanted.
    pub enable_debug: bool,
    /// The type of the machine.
    pub machine_type: String,
    /// The socket of a remote hypervisor, empty for a local one.
    pub hypervisor_socket: String,
    /// The number of PCI bridges.
    pub default_bridges: u32,
    /// Arguments of the shared file system's server.
    pub virtio_fs_extra_args: Vec<String>,
    /// What is booted.
    pub boot_info: BootInfo,
    /// Virtual CPUs.
    pub cpu_info: CpuInfo,
    /// Memory.
    pub memory_info: MemoryInfo,
    /// Security settings.
    pub security_info: SecurityInfo,
    /// Block devices.
    pub blockdev_info: BlockDevSettings,
    /// Network devices.
    pub network_info: NetworkConfigInfo,
    /// Templating.
    pub vm_template: VmTemplateInfo,
    /// The factory that this hypervisor belongs to.
    pub factory: FactoryConfig,
}

impl Clone for HypervisorConfig {
    fn clone(&self) -> (r: Self)
        ensures
            r.same_as(*self),
    {
        HypervisorConfig {
            disable_selinux: self.disable_selinux,
            enable_debug: self.enable_debug,
            machine_type: self.machine_type.clone(),
            hypervisor_socket: self.hypervisor_socket.clone(),
            default_bridges: self.default_bridges,
            virtio_fs_extra_args: clone_strings(&self.virtio_fs_extra_args),
            boot_info: self.boot_info.clone(),
            cpu_info: self.cpu_info,
            memory_info: self.memory_info,
            security_info: self.security_info.clone(),
            blockdev_info: self.blockdev_info.clone(),
            network_info: self.network_info,
            vm_template: self.vm_template.clone(),
            factory: self.factory.clone(),
        }
    }
}

impl HypervisorConfig {
    /// Whether two configurations hold the same.
    pub open spec fn same_as(&self, other: HypervisorConfig) -> bool {
        &&& texts(self.virtio_fs_extra_args@) == texts(other.virtio_fs_extra_args@)
        &&& *self == (HypervisorConfig {
            virtio_fs_extra_args: self.virtio_fs_extra_args,
            ..other
        })
    }

    /// Whether nothing is set.
    pub open spec fn unset(&self) -> bool {
        &&& !self.disable_selinux
        &&& !self.enable_debug
        &&& self.machine_type@.len() == 0
        &&& self.hypervisor_socket@.len() == 0
        &&& self.default_bridges == 0
        &&& self.virtio_fs_extra_args@.len() == 0
        &&& self.boot_info.kernel@.len() == 0
        &&& self.boot_info.image@.len() == 0
        &&& self.boot_info.initrd@.len() == 0
        &&& self.boot_info.kernel_params@.len() == 0
        &&& self.boot_info.kernel_verity_params@.len() == 0
        &&& self.boot_info.vm_rootfs_driver@.len() == 0
        &&& self.boot_info.rootfs_type@.len() == 0
        &&& self.cpu_info.default_vcpus.bits == 0
        &&& self.cpu_info.current_vcpus == CurrentVcpus::Configured(Vcpus { bits: 0 })
        &&& self.cpu_info.default_maxvcpus == 0
        &&& self.memory_info.default_memory == 0
        &&& self.memory_info.default_maxmemory == 0
        &&& !self.memory_info.enable_hugepages
        &&& !self.security_info.confidential_guest
        &&& !self.security_info.disable_seccomp
        &&& self.security_info.selinux_label is None
        &&& self.blockdev_info.block_device_driver@.len() == 0
        &&& !self.blockdev_info.block_device_cache_direct
        &&& self.blockdev_info.disk_rate_limiter_bw_max_rate == 0
        &&& self.blockdev_info.disk_rate_limiter_bw_one_time_burst is None
        &&& self.blockdev_info.disk_rate_limiter_ops_max_rate == 0
        &&& self.blockdev_info.disk_rate_limiter_ops_one_time_burst is None
        &&& !self.network_info.disable_offload_csum
        &&& !self.network_info.disable_offload_tso
        &&& !self.network_info.disable_offload_ufo
        &&& !self.vm_template.boot_to_be_template
        &&& !self.vm_template.boot_from_template
        &&& self.vm_template.memory_path@.len() == 0
        &&& self.vm_template.device_state_path@.len() == 0
        &&& self.factory.factory_type@.len() == 0
        &&& self.factory.template_path@.len() == 0
    }
}

impl Default for HypervisorConfig {
    fn default() -> (r: Self)
        ensures
            r.unset(),
    {
        HypervisorConfig {
            disable_selinux: false,
            enable_debug: false,
            machine_type: String::new(),
            hypervisor_socket: String::new(),
            default_bridges: 0,
            virtio_fs_extra_args: Vec::new(),
            boot_info: BootInfo {
                kernel: String::new(),
                image: String::new(),
                initrd: String::new(),
                kernel_params: String::new(),
                kernel_verity_params: String::new(),
                vm_rootfs_driver: String::new(),
                rootfs_type: String::new(),
            },
            cpu_info: CpuInfo {
                default_vcpus: Vcpus { bits: 0 },
                current_vcpus: CurrentVcpus::Configured(Vcpus { bits: 0 }),
                default_maxvcpus: 0,
            },
            memory_info: MemoryInfo {
                default_memory: 0,
                default_maxmemory: 0,
                enable_hugepages: false,
            },
            security_info: SecurityInfo {
                confidential_guest: false,
                disable_seccomp: false,
                selinux_label: None,
            },
            blockdev_info: BlockDevSettings {
                block_device_driver: String::new(),
                block_device_cache_direct: false,
                disk_rate_limiter_bw_max_rate: 0,
                disk_rate_limiter_bw_one_time_burst: None,
                disk_rate_limiter_ops_max_rate: 0,
                disk_rate_limiter_ops_one_time_burst: None,
            },
            network_info: Default::default(),
            vm_template: VmTemplateInfo {
                boot_to_be_template: false,
                boot_from_template: false,
                memory_path: String::new(),
                device_state_path: String::new(),
            },
            factory: FactoryConfig { factory_type: String::new(), template_path: String::new() },
        }
    }
}

/// The whole configuration, with agents configured by `A`.
#[derive(Debug)]
pub struct TomlConfig<A> {
    /// The hypervisor in use.
    pub hypervisor_name: String,
    /// The agent in use.
    pub agent_name: String,
    /// The hypervisors.
    pub hypervisor: NameMap<HypervisorConfig>,
    /// The agents.
    pub agent: NameMap<A>,
    /// The virtual machine factory.
    pub factory: FactoryConfig,
}

impl<A: Clone> Clone for TomlConfig<A> {
    fn clone(&self) -> (r: Self)
        ensures
            r.hypervisor_name == self.hypervisor_name,
            r.agent_name == self.agent_name,
            r.hypervisor.copy_of(self.hypervisor),
            r.agent.copy_of(self.agent),
            r.factory == self.factory,
    {
        TomlConfig {
            hypervisor_name: self.hypervisor_name.clone(),
            agent_name: self.agent_name.clone(),
            hypervisor: self.hypervisor.clone(),
            agent: self.agent.clone(),
            factory: self.factory.clone(),
        }
    }
}

/// Zero is the only number of virtual CPUs that counts as none, with either sign.
pub proof fn law_zero_of_either_sign(v: Vcpus, r: bool)
    requires
        call_ensures(Vcpus::is_zero, (&v,), r),
    ensures
        r <==> v.bits & 0x7fff_ffff == 0,
{
    let bits = v.bits;
    assert(bits & 0x7fff_ffff == 0 <==> bits == 0 || bits == 0x8000_0000) by (bit_vector);
}

/// A copy of a configuration has every setting of it.
pub proof fn law_copy_has_every_setting(c: HypervisorConfig, r: HypervisorConfig)
    requires
        call_ensures(HypervisorConfig::clone, (&c,), r),
    ensures
        r.disable_selinux == c.disable_selinux,
        r.enable_debug == c.enable_debug,
        r.machine_type@ == c.machine_type@,
        r.hypervisor_socket@ == c.hypervisor_socket@,
        r.default_bridges == c.default_bridges,
        texts(r.virtio_fs_extra_args@) == texts(c.virtio_fs_extra_args@),
        r.boot_info == c.boot_info,
        r.cpu_info == c.cpu_info,
        r.memory_info == c.memory_info,
        r.security_info == c.security_info,
        r.blockdev_info == c.blockdev_info,
        r.network_info == c.network_info,
        r.vm_template == c.vm_template,
        r.factory == c.factory,
{
}

/// A configuration that nobody has set asks for nothing: every text is empty, every number is zero,
/// and nothing is switched on or off.
pub proof fn law_unset_asks_for_nothing(r: HypervisorConfig)
    requires
        call_ensures(HypervisorConfig::default, (), r),
    ensures
        !r.disable_selinux && !r.enable_debug && r.machine_type@.len() == 0,
        r.hypervisor_socket@.len() == 0 && r.default_bridges == 0,
        r.virtio_fs_extra_args@.len() == 0,
        r.boot_info.kernel@.len() == 0 && r.boot_info.image@.len() == 0,
        r.boot_info.initrd@.len() == 0 && r.boot_info.kernel_params@.len() == 0,
        r.boot_info.kernel_verity_params@.len() == 0 && r.boot_info.vm_rootfs_driver@.len() == 0,
        r.boot_info.rootfs_type@.len() == 0,
        r.cpu_info.default_vcpus.bits == 0 && r.cpu_info.default_maxvcpus == 0,
        r.cpu_info.current_vcpus == CurrentVcpus::Configured(Vcpus { bits: 0 }),
        r.memory_info.default_memory == 0 && r.memory_info.default_maxmemory == 0,
        !r.memory_info.enable_hugepages,
        !r.security_info.confidential_guest && !r.security_info.disable_seccomp,
        r.security_info.selinux_label is None,
        r.blockdev_info.block_device_driver@.len() == 0,
        !r.blockdev_info.block_device_cache_direct,
        r.blockdev_info.disk_rate_limiter_bw_max_rate == 0
            && r.blockdev_info.disk_rate_limiter_bw_one_time_burst is None,
        r.blockdev_info.disk_rate_limiter_ops_max_rate == 0
            && r.blockdev_info.disk_rate_limiter_ops_one_time_burst is None,
        !r.network_info.disable_offload_csum && !r.network_info.disable_offload_tso,
        !r.network_info.disable_offload_ufo,
        !r.vm_template.boot_to_be_template && !r.vm_template.boot_from_template,
        r.vm_template.memory_path@.len() == 0 && r.vm_template.device_state_path@.len() == 0,
        r.factory.factory_type@.len() == 0 && r.factory.template_path@.len() == 0,
{
}

/// A copy of a whole configuration names the same hypervisor, the same agent and the same factory,
/// and has the configurations of all of them.
pub proof fn law_copy_has_every_part<A: Clone>(c: TomlConfig<A>, r: TomlConfig<A>, name: Seq<char>)
    requires
        call_ensures(TomlConfig::<A>::clone, (&c,), r),
    ensures
        r.hypervisor_name@ == c.hypervisor_name@,
        r.agent_name@ == c.agent_name@,
        r.factory == c.factory,
        r.hypervisor@.dom().contains(name) <==> c.hypervisor@.dom().contains(name),
        c.hypervisor@.dom().contains(name) ==> r.hypervisor@[name].same_as(c.hypervisor@[name]),
        r.agent@.dom().contains(name) <==> c.agent@.dom().contains(name),
        c.agent@.dom().contains(name) ==> cloned(c.agent@[name], r.agent@[name]),
{
    if c.hypervisor@.dom().contains(name) {
        assert(cloned(c.hypervisor@[name], r.hypervisor@[name]));
    }
}

} // verus!

//! The state that the driver keeps for one virtual machine.

use vstd::prelude::*;

use crate::ch::protection::GuestProtection;
use crate::ch::types::{BlockDevice, DeviceType};
use crate::ch::virtiofs::BackendFsConfig;
use crate::config::HypervisorConfig;
use crate::name_map::NameMap;

verus! {

/// How far a virtual machine has come.
#[derive(Clone, Copy, Debug, PartialEq, Eq, Structural)]
pub enum VmmState {
    /// Nothing runs.
    NotReady,
    /// The hypervisor answers, the virtual machine does not run.
    VmmServerReady,
    /// The virtual machine runs.
    VmRunning,
    /// The virtual machine is paused.
    VmPaused,
}

/// What devices have where nothing else is asked for.
#[derive(Clone, Copy, Debug, PartialEq, Eq, Structural)]
pub struct DeviceDefaults {
    /// The time between refills of a disk's limits, in milliseconds.
    pub refill_time: u64,
    /// The server of a shared file system that the hypervisor serves.
    pub server: BackendFsConfig,
}

/// The state that the driver keeps for one virtual machine.
#[derive(Debug)]
pub struct CloudHypervisorInner {
    /// The sandbox's name.
    pub id: String,
    /// How far the virtual machine has come.
    pub state: VmmState,
    /// The configuration.
    pub config: HypervisorConfig,
    /// What devices have where nothing else is asked for.
    pub device_defaults: DeviceDefaults,
    /// The directory of what runs.
    pub run_dir: String,
    /// The directory of the virtual machine.
    pub vm_path: String,
    /// The root directory of the jail, empty without one.
    pub jailer_root: String,
    /// The network namespace.
    pub netns: Option<String>,
    /// How long the hypervisor may take to answer, in seconds.
    pub timeout_secs: i32,
    /// Devices that were asked for before the virtual machine ran, the latest first.
    pub pending_devices: Vec<DeviceType>,
    /// The hypervisor's names for the devices that it was given.
    pub device_ids: NameMap<String>,
    /// The block device that holds the upper layers of overlays.
    pub overlayfs_block_device: Option<BlockDevice>,
    /// The protection of the guest.
    pub guest_protection_to_use: GuestProtection,
    /// The features that the hypervisor was built with, once it has said.
    pub ch_features: Option<Vec<String>>,
    /// The port on which the agent takes connections for I/O.
    pub passfd_listener_port: Option<u32>,
    /// The size of a memory block of the guest, in MiB.
    pub guest_memory_block_size_mb: u32,
    /// The memory that was added since boot, in MiB.
    pub mem_hotplug_size_mb: u32,
}

impl CloudHypervisorInner {
    /// The state before anything is known of the virtual machine.
    pub fn new(config: HypervisorConfig, device_defaults: DeviceDefaults) -> (r: Self)
        ensures
            r.config == config,
            r.device_defaults == device_defaults,
            r.state == VmmState::NotReady,
            r.id@.len() == 0,
            r.run_dir@.len() == 0,
            r.vm_path@.len() == 0,
            r.jailer_root@.len() == 0,
            r.netns is None,
            r.timeout_secs == 0,
            r.pending_devices@.len() == 0,
            r.device_ids@ == Map::<Seq<char>, String>::empty(),
            r.overlayfs_block_device is None,
            r.guest_protection_to_use == GuestProtection::NoProtection,
            r.ch_features is None,
            r.passfd_listener_port is None,
            r.guest_memory_block_size_mb == 0,
            r.mem_hotplug_size_mb == 0,
    {
        CloudHypervisorInner {
            id: String::new(),
            state: VmmState::NotReady,
            config,
            device_defaults,
            run_dir: String::new(),
            vm_path: String::new(),
            jailer_root: String::new(),
            netns: None,
            timeout_secs: 0,
            pending_devices: Vec::new(),
            device_ids: NameMap::new(),
            overlayfs_block_device: None,
            guest_protection_to_use: GuestProtection::NoProtection,
            ch_features: None,
            passfd_listener_port: None,
            guest_memory_block_size_mb: 0,
            mem_hotplug_size_mb: 0,
        }
    }

    /// Replaces the configuration.
    pub fn set_hypervisor_config(&mut self, config: HypervisorConfig)
        ensures
            *final(self) == (CloudHypervisorInner { config, ..*old(self) }),
    {
        self.config = config;
    }
}

/// A new machine has its configuration and nothing else: it is not ready, nothing waits, nothing is
/// added, and nothing protects it.
pub proof fn law_new_machine_is_empty(
    config: HypervisorConfig,
    device_defaults: DeviceDefaults,
    r: CloudHypervisorInner,
)
    requires
        call_ensures(CloudHypervisorInner::new, (config, device_defaults), r),
    ensures
        r.config == config && r.device_defaults == device_defaults,
        r.state == VmmState::NotReady,
        r.pending_devices@.len() == 0 && r.mem_hotplug_size_mb == 0,
        r.device_ids@.dom() =~= Set::empty(),
        r.overlayfs_block_device is None && r.netns is None && r.ch_features is None,
        r.passfd_listener_port is None,
        r.guest_protection_to_use == GuestProtection::NoProtection,
        r.timeout_secs == 0 && r.guest_memory_block_size_mb == 0,
        r.id@.len() == 0 && r.run_dir@.len() == 0 && r.vm_path@.len() == 0 && r.jailer_root@.len()
            == 0,
{
}

/// Setting the configuration changes the configuration and nothing else.
pub proof fn law_only_configuration_is_set(
    ch: &mut CloudHypervisorInner,
    config: HypervisorConfig,
)
    requires
        call_ensures(CloudHypervisorInner::set_hypervisor_config, (ch, config), ()),
    ensures
        final(ch).config == config,
        *final(ch) == (CloudHypervisorInner { config: final(ch).config, ..*old(ch) }),
{
}

} // verus!

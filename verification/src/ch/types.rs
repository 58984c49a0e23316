//! Devices of a virtual machine, and what the hypervisor is told to attach them.

use vstd::prelude::*;
use vstd::std_specs::convert::TryFromSpecImpl;
use vstd::string::*;

use crate::ch::virtiofs::BackendFsConfig;
use crate::config::NetworkConfigInfo;
use crate::path::{join_path, path_join};

verus! {

broadcast use vstd::string::group_string_axioms;

/// A shared file system with a server of its own.
pub const VIRTIO_FS: &'static str = "virtio-fs";

/// A shared file system that the hypervisor serves.
pub const INLINE_VIRTIO_FS: &'static str = "inline-virtio-fs";

/// The number of queues of a shared file system that does not say.
pub const DEFAULT_FS_QUEUES: usize = 1;

/// The size of a queue of a shared file system that does not say.
pub const DEFAULT_FS_QUEUE_SIZE: u16 = 1024;

/// Why a device cannot be handled.
#[derive(Clone, Copy, Debug, PartialEq, Eq, Structural)]
pub enum DeviceError {
    /// A device of this type cannot be added.
    Unhandled,
    /// The hypervisor has no shared file system of this type.
    UnsupportedSharedFs,
    /// The arguments of the shared file system's server are not valid.
    InvalidServerArgs,
    /// The size of a queue is too large.
    QueueSize,
    /// The path of a socket cannot be resolved below the sandbox's directory.
    SocketPath,
    /// An assigned device has no primary device.
    NoPrimaryDevice,
    /// A network device has no address.
    MissingMac,
    /// The hypervisor has not been given the assigned device that is to be removed.
    UnknownDevice,
    /// The hypervisor has not been given the block device that is to be removed.
    UnknownBlockDevice,
    /// The hypervisor answered with an address of another form.
    UnexpectedPciAddress,
    /// The hypervisor answered with an address that is not valid.
    InvalidPciPath,
    /// A device of this type cannot be updated.
    UnsupportedUpdate,
}

impl DeviceError {
    /// The error in words.
    pub open spec fn text(&self) -> Seq<char> {
        match self {
            DeviceError::Unhandled => "unhandled device"@,
            DeviceError::UnsupportedSharedFs => {
                "hypervisor isn't configured with shared_fs supported"@
            },
            DeviceError::InvalidServerArgs => "parse args"@,
            DeviceError::QueueSize => "out of range integral type conversion attempted"@,
            DeviceError::SocketPath => "cannot resolve the socket path"@,
            DeviceError::NoPrimaryDevice => "Primary device list empty for vfio device"@,
            DeviceError::MissingMac => "Missing mac address for network device"@,
            DeviceError::UnknownDevice => {
                "Device id for cloud-hypervisor not found while removing device"@
            },
            DeviceError::UnknownBlockDevice => {
                "Device id for cloud-hypervisor not found while removing block device"@
            },
            DeviceError::UnexpectedPciAddress => "Unexpected PCI address for clh device add"@,
            DeviceError::InvalidPciPath => "invalid PCI path"@,
            DeviceError::UnsupportedUpdate => "unsupported device to update."@,
        }
    }

    /// The error in words.
    pub fn message(&self) -> (r: &'static str)
        ensures
            r@ == self.text(),
    {
        match self {
            DeviceError::Unhandled => "unhandled device",
            DeviceError::UnsupportedSharedFs => {
                "hypervisor isn't configured with shared_fs supported"
            },
            DeviceError::InvalidServerArgs => "parse args",
            DeviceError::QueueSize => "out of range integral type conversion attempted",
            DeviceError::SocketPath => "cannot resolve the socket path",
            DeviceError::NoPrimaryDevice => "Primary device list empty for vfio device",
            DeviceError::MissingMac => "Missing mac address for network device",
            DeviceError::UnknownDevice => {
                "Device id for cloud-hypervisor not found while removing device"
            },
            DeviceError::UnknownBlockDevice => {
                "Device id for cloud-hypervisor not found while removing block device"
            },
            DeviceError::UnexpectedPciAddress => "Unexpected PCI address for clh device add",
            DeviceError::InvalidPciPath => "invalid PCI path",
            DeviceError::UnsupportedUpdate => "unsupported device to update.",
        }
    }
}

/// The address of a network device in the guest.
#[derive(Clone, Copy, Debug, PartialEq, Eq)]
pub struct Address(pub [u8; 6]);

/// The address of a network device, as the hypervisor takes it.
#[derive(Clone, Copy, Debug, PartialEq, Eq)]
pub struct MacAddr {
    /// The six bytes.
    pub bytes: [u8; 6],
}

/// The place of a device in the guest's PCI topology.
#[derive(Clone, Debug, PartialEq, Eq)]
pub struct PciPath {
    /// The slots on the way to the device, as text.
    pub text: String,
}

/// What is done with a mount inside a shared file system.
#[derive(Clone, Copy, Debug, PartialEq, Eq, Structural)]
pub enum ShareFsMountOperation {
    /// It is mounted.
    Mount,
    /// It is unmounted.
    Umount,
    /// It is changed.
    Update,
}

/// The type of a mount inside a shared file system.
#[derive(Clone, Copy, Debug, PartialEq, Eq, Structural)]
pub enum ShareFsMountType {
    /// A directory of the host.
    PASSTHROUGH,
    /// A RAFS image.
    RAFS,
}

/// A mount inside a shared file system.
#[derive(Clone, Debug)]
pub struct ShareFsMountConfig {
    /// What is mounted.
    pub source: String,
    /// Its type.
    pub fstype: ShareFsMountType,
    /// Where it is mounted.
    pub mount_point: String,
    /// Its configuration.
    pub config: Option<String>,
    /// The tag of the shared file system.
    pub tag: String,
    /// What is done.
    pub op: ShareFsMountOperation,
    /// The list of files to read ahead.
    pub prefetch_list_path: Option<String>,
}

/// The configuration of a shared file system.
#[derive(Clone, Debug)]
pub struct ShareFsConfig {
    /// The type of the shared file system.
    pub fs_type: String,
    /// The socket of its server.
    pub sock_path: String,
    /// The tag by which the guest mounts it.
    pub mount_tag: String,
    /// The number of queues, zero for the default.
    pub queue_num: u64,
    /// The size of a queue.
    pub queue_size: u64,
    /// Options of its server.
    pub options: Vec<String>,
    /// A mount inside it.
    pub mount_config: Option<ShareFsMountConfig>,
}

/// A shared file system.
#[derive(Clone, Debug)]
pub struct ShareFsDevice {
    /// The device's name.
    pub device_id: String,
    /// Its configuration.
    pub config: ShareFsConfig,
}

/// A socket between the host and the guest.
#[derive(Clone, Debug)]
pub struct HybridVsockDevice {
    /// The device's name.
    pub id: String,
    /// The guest's context identifier.
    pub guest_cid: u32,
    /// The socket on the host.
    pub uds_path: String,
}

/// The configuration of a block device.
#[derive(Clone, Debug)]
pub struct BlockConfig {
    /// The file or device on the host.
    pub path_on_host: String,
    /// Whether it is read-only.
    pub is_readonly: bool,
    /// Whether the host's page cache is passed by, if this device says.
    pub is_direct: Option<bool>,
    /// Whether it holds the upper layers of overlays.
    pub is_overlayfs: bool,
    /// The number of queues.
    pub num_queues: usize,
    /// The size of a queue.
    pub queue_size: u32,
    /// Its path in the guest.
    pub virt_path: String,
    /// Its place in the guest's PCI topology.
    pub pci_path: Option<PciPath>,
}

/// A block device.
#[derive(Clone, Debug)]
pub struct BlockDevice {
    /// The device's name.
    pub device_id: String,
    /// Its configuration.
    pub config: BlockConfig,
}

/// One function of an assigned device.
#[derive(Clone, Debug)]
pub struct HostDevice {
    /// Its directory in sysfs.
    pub sysfs_path: String,
    /// Its place in the guest's PCI topology.
    pub guest_pci_path: Option<PciPath>,
}

/// A device of the host that is assigned to the guest. The first of its functions is the primary
/// one, which the hypervisor is given.
#[derive(Clone, Debug)]
pub struct VfioDevice {
    /// The device's name.
    pub device_id: String,
    /// Its functions.
    pub devices: Vec<HostDevice>,
}

/// The configuration of a network device.
#[derive(Clone, Debug)]
pub struct NetworkConfig {
    /// The interface on the host.
    pub host_dev_name: String,
    /// The interface in the guest.
    pub virt_iface_name: String,
    /// The size of a queue.
    pub queue_size: usize,
    /// The number of queues.
    pub queue_num: usize,
    /// The address in the guest.
    pub guest_mac: Option<Address>,
    /// The place among the guest's interfaces.
    pub index: u64,
    /// Whether another device may have the same address.
    pub allow_duplicate_mac: bool,
    /// Whether a generic interrupt is used.
    pub use_generic_irq: Option<bool>,
    /// Whether the interrupt is shared.
    pub use_shared_irq: Option<bool>,
}

/// A network device.
#[derive(Clone, Debug)]
pub struct NetworkDevice {
    /// The device's name.
    pub device_id: String,
    /// Its configuration.
    pub config: NetworkConfig,
}

/// The configuration of a network device in another process.
#[derive(Clone, Debug)]
pub struct VhostUserConfig {
    /// The socket of that process.
    pub socket_path: String,
    /// The address in the guest.
    pub mac_address: MacAddr,
    /// The number of queues.
    pub num_queues: usize,
    /// The size of a queue.
    pub queue_size: u32,
}

/// A network device in another process.
#[derive(Clone, Debug)]
pub struct VhostUserNetDevice {
    /// The device's name.
    pub device_id: String,
    /// Its configuration.
    pub config: VhostUserConfig,
}

/// How the guest is protected.
#[derive(Clone, Debug)]
pub enum ProtectionDeviceConfig {
    /// By AMD's memory encryption.
    SevSnp {
        /// Whether it is SEV-SNP.
        is_snp: bool,
        /// Data that the host has attested.
        host_data: Option<String>,
    },
    /// By Intel TDX.
    Tdx {
        /// The measurement of the configuration.
        mrconfigid: Option<String>,
    },
    /// In some other way.
    Other,
}

/// A device of the virtual machine.
#[derive(Clone, Debug)]
pub enum DeviceType {
    /// A shared file system.
    ShareFs(ShareFsDevice),
    /// A socket between the host and the guest.
    HybridVsock(HybridVsockDevice),
    /// A block device.
    Block(BlockDevice),
    /// A device of the host that is assigned to the guest.
    Vfio(VfioDevice),
    /// A network device.
    Network(NetworkDevice),
    /// A network device in another process.
    VhostUserNetwork(VhostUserNetDevice),
    /// The protection of the guest.
    Protection(ProtectionDeviceConfig),
    /// Any other device.
    Other,
}

/// What all PCI devices have.
#[derive(Clone, Debug, PartialEq, Eq)]
pub struct PciDeviceCommonConfig {
    /// The hypervisor's name for the device, if it is given one.
    pub id: Option<String>,
    /// Whether it is behind an IOMMU.
    pub iommu: bool,
    /// The PCI segment.
    pub pci_segment: u16,
}

/// The common part of a device that asks for nothing.
pub open spec fn plain_pci() -> PciDeviceCommonConfig {
    PciDeviceCommonConfig { id: None, iommu: false, pci_segment: 0 }
}

impl Default for PciDeviceCommonConfig {
    fn default() -> (r: Self)
        ensures
            r == plain_pci(),
    {
        PciDeviceCommonConfig { id: None, iommu: false, pci_segment: 0 }
    }
}

/// A shared file system, as the hypervisor takes it.
#[derive(Clone, Debug, PartialEq, Eq)]
pub struct FsConfig {
    /// The tag by which the guest mounts it.
    pub tag: String,
    /// The socket of its server; empty where the hypervisor serves it.
    pub socket: String,
    /// The number of queues.
    pub num_queues: usize,
    /// The size of a queue.
    pub queue_size: u16,
    /// The common part.
    pub pci_common: PciDeviceCommonConfig,
    /// The server, where the hypervisor serves it.
    pub backendfs_config: Option<BackendFsConfig>,
}

/// The contents of an [`FsConfig`].
pub struct FsConfigView {
    /// The tag by which the guest mounts it.
    pub tag: Seq<char>,
    /// The socket of its server.
    pub socket: Seq<char>,
    /// The number of queues.
    pub num_queues: usize,
    /// The size of a queue.
    pub queue_size: u16,
    /// The common part.
    pub pci_common: PciDeviceCommonConfig,
    /// The server, where the hypervisor serves it.
    pub backendfs_config: Option<BackendFsConfig>,
}

impl View for FsConfig {
    type V = FsConfigView;

    open spec fn view(&self) -> FsConfigView {
        FsConfigView {
            tag: self.tag@,
            socket: self.socket@,
            num_queues: self.num_queues,
            queue_size: self.queue_size,
            pci_common: self.pci_common,
            backendfs_config: self.backendfs_config,
        }
    }
}

/// A socket between the host and the guest, as the hypervisor takes it.
#[derive(Clone, Debug, PartialEq, Eq)]
pub struct VsockConfig {
    /// The guest's context identifier.
    pub cid: u64,
    /// The socket on the host.
    pub socket: String,
    /// The common part.
    pub pci_common: PciDeviceCommonConfig,
}

/// A limit: so much, and again after each refill.
#[derive(Clone, Copy, Debug, PartialEq, Eq, Structural)]
pub struct TokenBucketConfig {
    /// How much per refill.
    pub size: u64,
    /// How much more at the start.
    pub one_time_burst: Option<u64>,
    /// Milliseconds between refills.
    pub refill_time: u64,
}

/// The limits of a device.
#[derive(Clone, Copy, Debug, PartialEq, Eq, Structural)]
pub struct RateLimiterConfig {
    /// The limit on bytes.
    pub bandwidth: Option<TokenBucketConfig>,
    /// The limit on operations.
    pub ops: Option<TokenBucketConfig>,
}

/// The format of a disk image.
#[derive(Clone, Copy, Debug, PartialEq, Eq, Structural)]
pub enum ImageType {
    /// The plain contents of the disk.
    Raw,
}

/// A disk, as the hypervisor takes it; what is not listed takes its default.
#[derive(Clone, Debug, PartialEq, Eq)]
pub struct DiskConfig {
    /// The file or device on the host.
    pub path: Option<String>,
    /// Whether it is read-only.
    pub readonly: bool,
    /// Whether the host's page cache is passed by.
    pub direct: bool,
    /// The number of queues.
    pub num_queues: usize,
    /// The size of a queue.
    pub queue_size: u16,
    /// The format of the image.
    pub image_type: ImageType,
    /// Whether another process serves it.
    pub vhost_user: bool,
    /// The limits of the device.
    pub rate_limiter_config: Option<RateLimiterConfig>,
    /// Whether io_uring is not used.
    pub disable_io_uring: bool,
    /// Whether asynchronous I/O is not used.
    pub disable_aio: bool,
    /// Whether the image may refer to other files.
    pub backing_files: bool,
    /// Whether freed blocks are given back.
    pub sparse: bool,
    /// The common part.
    pub pci_common: PciDeviceCommonConfig,
}

/// An assigned device, as the hypervisor takes it; what is not listed is chosen when it is handed
/// over.
#[derive(Clone, Debug, PartialEq, Eq)]
pub struct DeviceConfig {
    /// Its directory in sysfs.
    pub path: String,
    /// The common part.
    pub pci_common: PciDeviceCommonConfig,
}

/// Which side listens on the socket of a device in another process.
#[derive(Clone, Copy, Debug, PartialEq, Eq, Structural)]
pub enum VhostMode {
    /// The other process.
    Client,
    /// The hypervisor.
    Server,
}

/// A network device, as the hypervisor takes it.
#[derive(Clone, Debug, PartialEq, Eq)]
pub struct NetConfig {
    /// The common part.
    pub pci_common: PciDeviceCommonConfig,
    /// The tap interface on the host.
    pub tap: Option<String>,
    /// The host's address.
    pub ip: Option<String>,
    /// The host's network mask.
    pub mask: Option<String>,
    /// The address in the guest.
    pub mac: MacAddr,
    /// The address on the host.
    pub host_mac: Option<MacAddr>,
    /// The largest packet.
    pub mtu: Option<u16>,
    /// The number of queues.
    pub num_queues: usize,
    /// The size of a queue.
    pub queue_size: u16,
    /// Whether another process serves it.
    pub vhost_user: bool,
    /// The socket of that process.
    pub vhost_socket: Option<String>,
    /// Which side listens on that socket.
    pub vhost_mode: VhostMode,
    /// The limits of the device.
    pub rate_limiter_config: Option<RateLimiterConfig>,
    /// Whether TCP segments are cut by the device.
    pub offload_tso: bool,
    /// Whether UDP fragments are cut by the device.
    pub offload_ufo: bool,
    /// Whether checksums are computed by the device.
    pub offload_csum: bool,
}

/// The number of queues of a network device that does not say.
pub const DEFAULT_NET_NUM_QUEUES: usize = 2;

/// The size of a queue of a network device that does not say.
pub const DEFAULT_NET_QUEUE_SIZE: u16 = 256;

/// A network device with address `mac` that asks for nothing else.
pub open spec fn plain_net(mac: MacAddr) -> NetConfig {
    NetConfig {
        pci_common: plain_pci(),
        tap: None,
        ip: None,
        mask: None,
        mac,
        host_mac: None,
        mtu: None,
        num_queues: DEFAULT_NET_NUM_QUEUES,
        queue_size: DEFAULT_NET_QUEUE_SIZE,
        vhost_user: false,
        vhost_socket: None,
        vhost_mode: VhostMode::Client,
        rate_limiter_config: None,
        offload_tso: true,
        offload_ufo: true,
        offload_csum: true,
    }
}

impl Default for NetConfig {
    fn default() -> (r: Self)
        ensures
            r == plain_net(r.mac),
            r.mac.bytes@ == seq![0u8, 0, 0, 0, 0, 0],
    {
        let r = NetConfig {
            pci_common: Default::default(),
            tap: None,
            ip: None,
            mask: None,
            mac: MacAddr { bytes: [0, 0, 0, 0, 0, 0] },
            host_mac: None,
            mtu: None,
            num_queues: DEFAULT_NET_NUM_QUEUES,
            queue_size: DEFAULT_NET_QUEUE_SIZE,
            vhost_user: false,
            vhost_socket: None,
            vhost_mode: VhostMode::Client,
            rate_limiter_config: None,
            offload_tso: true,
            offload_ufo: true,
            offload_csum: true,
        };
        proof {
            assert(r.mac.bytes@ =~= seq![0u8, 0, 0, 0, 0, 0]);
        }
        r
    }
}

/// A network device and the settings for all network devices.
#[derive(Debug)]
pub struct NetConfigInner {
    /// The settings for all network devices.
    pub network_info: NetworkConfigInfo,
    /// The device's configuration.
    pub cfg: NetworkConfig,
}

impl NetConfigInner {
    /// Puts the two together.
    pub fn new(network_info: NetworkConfigInfo, cfg: NetworkConfig) -> (r: Self)
        ensures
            r == (NetConfigInner { network_info, cfg }),
    {
        NetConfigInner { network_info, cfg }
    }
}

impl TryFromSpecImpl<NetConfigInner> for NetConfig {
    open spec fn obeys_try_from_spec() -> bool {
        true
    }

    open spec fn try_from_spec(v: NetConfigInner) -> Result<NetConfig, DeviceError> {
        match v.cfg.guest_mac {
            Some(mac) => Ok(
                NetConfig {
                    pci_common: PciDeviceCommonConfig {
                        id: Some(v.cfg.virt_iface_name),
                        ..plain_pci()
                    },
                    num_queues: v.cfg.queue_num,
                    queue_size: v.cfg.queue_size as u16,
                    offload_csum: !v.network_info.disable_offload_csum,
                    offload_tso: !v.network_info.disable_offload_tso,
                    offload_ufo: !v.network_info.disable_offload_ufo,
                    ..plain_net(MacAddr { bytes: mac.0 })
                },
            ),
            None => Err(DeviceError::MissingMac),
        }
    }
}

impl TryFrom<NetConfigInner> for NetConfig {
    type Error = DeviceError;

    /// The device as the hypervisor takes it, not yet bound to an interface of the host. It fails
    /// without an address.
    fn try_from(net_config_inner: NetConfigInner) -> (r: Result<NetConfig, DeviceError>) {
        let NetConfigInner { network_info, cfg } = net_config_inner;
        if let Some(mac) = cfg.guest_mac {
            return Ok(
                NetConfig {
                    pci_common: PciDeviceCommonConfig {
                        id: Some(cfg.virt_iface_name),
                        ..Default::default()
                    },
                    tap: None,
                    ip: None,
                    mask: None,
                    mac: MacAddr { bytes: mac.0 },
                    host_mac: None,
                    mtu: None,
                    num_queues: cfg.queue_num,
                    queue_size: #[verifier::truncate] (cfg.queue_size as u16),
                    vhost_user: false,
                    vhost_socket: None,
                    vhost_mode: VhostMode::Client,
                    rate_limiter_config: None,
                    offload_tso: !network_info.disable_offload_tso,
                    offload_ufo: !network_info.disable_offload_ufo,
                    offload_csum: !network_info.disable_offload_csum,
                },
            );
        }
        Err(DeviceError::MissingMac)
    }
}

/// A network device in another process and the settings for all network devices.
#[derive(Debug)]
pub struct VhostUserNetDeviceInner {
    /// The settings for all network devices.
    pub network_info: NetworkConfigInfo,
    /// The device.
    pub device: VhostUserNetDevice,
}

impl VhostUserNetDeviceInner {
    /// Puts the two together.
    pub fn new(network_info: NetworkConfigInfo, device: VhostUserNetDevice) -> (r: Self)
        ensures
            r == (VhostUserNetDeviceInner { network_info, device }),
    {
        VhostUserNetDeviceInner { network_info, device }
    }
}

impl TryFromSpecImpl<VhostUserNetDeviceInner> for NetConfig {
    open spec fn obeys_try_from_spec() -> bool {
        true
    }

    open spec fn try_from_spec(v: VhostUserNetDeviceInner) -> Result<NetConfig, DeviceError> {
        Ok(
            NetConfig {
                pci_common: PciDeviceCommonConfig { id: Some(v.device.device_id), ..plain_pci() },
                num_queues: v.device.config.num_queues,
                queue_size: v.device.config.queue_size as u16,
                vhost_user: true,
                vhost_socket: Some(v.device.config.socket_path),
                vhost_mode: VhostMode::Server,
                offload_csum: !v.network_info.disable_offload_csum,
                offload_tso: !v.network_info.disable_offload_tso,
                offload_ufo: !v.network_info.disable_offload_ufo,
                ..plain_net(v.device.config.mac_address)
            },
        )
    }
}

impl TryFrom<VhostUserNetDeviceInner> for NetConfig {
    type Error = DeviceError;

    /// The device as the hypervisor takes it: the hypervisor listens on the socket.
    fn try_from(inner: VhostUserNetDeviceInner) -> (r: Result<NetConfig, DeviceError>) {
        let VhostUserNetDeviceInner { network_info, device } = inner;
        Ok(
            NetConfig {
                pci_common: PciDeviceCommonConfig {
                    id: Some(device.device_id),
                    ..Default::default()
                },
                tap: None,
                ip: None,
                mask: None,
                mac: device.config.mac_address,
                host_mac: None,
                mtu: None,
                num_queues: device.config.num_queues,
                queue_size: #[verifier::truncate] (device.config.queue_size as u16),
                vhost_user: true,
                vhost_socket: Some(device.config.socket_path),
                vhost_mode: VhostMode::Server,
                rate_limiter_config: None,
                offload_tso: !network_info.disable_offload_tso,
                offload_ufo: !network_info.disable_offload_ufo,
                offload_csum: !network_info.disable_offload_csum,
            },
        )
    }
}

impl TryFromSpecImpl<BlockConfig> for DiskConfig {
    open spec fn obeys_try_from_spec() -> bool {
        true
    }

    open spec fn try_from_spec(v: BlockConfig) -> Result<DiskConfig, DeviceError> {
        Ok(
            DiskConfig {
                path: Some(v.path_on_host),
                readonly: v.is_readonly,
                direct: v.is_direct == Some(true),
                num_queues: v.num_queues,
                queue_size: v.queue_size as u16,
                image_type: ImageType::Raw,
                vhost_user: false,
                rate_limiter_config: None,
                disable_io_uring: false,
                disable_aio: false,
                backing_files: false,
                sparse: false,
                pci_common: plain_pci(),
            },
        )
    }
}

impl TryFrom<BlockConfig> for DiskConfig {
    type Error = DeviceError;

    /// The device as the hypervisor takes it.
    fn try_from(blkcfg: BlockConfig) -> (r: Result<DiskConfig, DeviceError>) {
        Ok(
            DiskConfig {
                path: Some(blkcfg.path_on_host),
                readonly: blkcfg.is_readonly,
                direct: match blkcfg.is_direct {
                    Some(direct) => direct,
                    None => false,
                },
                num_queues: blkcfg.num_queues,
                queue_size: #[verifier::truncate] (blkcfg.queue_size as u16),
                image_type: ImageType::Raw,
                vhost_user: false,
                rate_limiter_config: None,
                disable_io_uring: false,
                disable_aio: false,
                backing_files: false,
                sparse: false,
                pci_common: Default::default(),
            },
        )
    }
}

/// A shared file system and what is known when the virtual machine boots.
#[derive(Debug)]
pub struct ShareFsSettings {
    cfg: ShareFsConfig,
    vm_path: String,
    backendfs_config: Option<BackendFsConfig>,
}

impl ShareFsSettings {
    /// The shared file system.
    pub closed spec fn config(&self) -> ShareFsConfig {
        self.cfg
    }

    /// The sandbox's directory.
    pub closed spec fn directory(&self) -> Seq<char> {
        self.vm_path@
    }

    /// The server, where the hypervisor serves it.
    pub closed spec fn server(&self) -> Option<BackendFsConfig> {
        self.backendfs_config
    }

    /// Puts the three together.
    pub fn new(
        cfg: ShareFsConfig,
        vm_path: String,
        bfs_config: Option<BackendFsConfig>,
    ) -> (r: Self)
        ensures
            r.config() == cfg,
            r.directory() == vm_path@,
            r.server() == bfs_config,
    {
        ShareFsSettings { cfg, vm_path, backendfs_config: bfs_config }
    }
}

/// The number of queues of a shared file system.
pub open spec fn fs_queues(cfg: ShareFsConfig) -> usize {
    if cfg.queue_num > 0 {
        cfg.queue_num as usize
    } else {
        DEFAULT_FS_QUEUES
    }
}

/// The size of a queue of a shared file system, if it is small enough.
pub open spec fn fs_queue_size(cfg: ShareFsConfig) -> Option<u16> {
    if cfg.queue_num == 0 {
        Some(DEFAULT_FS_QUEUE_SIZE)
    } else if cfg.queue_size <= u16::MAX {
        Some(cfg.queue_size as u16)
    } else {
        None
    }
}

/// A shared file system as the hypervisor takes it when the virtual machine boots.
pub open spec fn boot_fs_config(
    cfg: ShareFsConfig,
    vm_path: Seq<char>,
    server: Option<BackendFsConfig>,
) -> Result<FsConfigView, DeviceError> {
    match fs_queue_size(cfg) {
        Some(queue_size) => Ok(
            FsConfigView {
                tag: cfg.mount_tag@,
                socket: if server is Some {
                    Seq::empty()
                } else {
                    path_join(vm_path, cfg.sock_path@)
                },
                num_queues: fs_queues(cfg),
                queue_size,
                pci_common: plain_pci(),
                backendfs_config: server,
            },
        ),
        None => Err(DeviceError::QueueSize),
    }
}

/// The number and size of the queues of a shared file system.
pub fn fs_queue_settings(cfg: &ShareFsConfig) -> (r: Result<(usize, u16), DeviceError>)
    ensures
        match r {
            Ok(q) => q.0 == fs_queues(*cfg) && fs_queue_size(*cfg) == Some(q.1),
            Err(e) => fs_queue_size(*cfg) is None && e == DeviceError::QueueSize,
        },
{
    if cfg.queue_num > 0 {
        if cfg.queue_size > 0xffff {
            return Err(DeviceError::QueueSize);
        }
        Ok((#[verifier::truncate] (cfg.queue_num as usize), cfg.queue_size as u16))
    } else {
        Ok((DEFAULT_FS_QUEUES, DEFAULT_FS_QUEUE_SIZE))
    }
}

impl TryFromSpecImpl<ShareFsSettings> for FsConfig {
    open spec fn obeys_try_from_spec() -> bool {
        false
    }

    open spec fn try_from_spec(v: ShareFsSettings) -> Result<FsConfig, DeviceError> {
        Err(DeviceError::QueueSize)
    }
}

impl TryFrom<ShareFsSettings> for FsConfig {
    type Error = DeviceError;

    /// The shared file system as the hypervisor takes it when the virtual machine boots. A socket
    /// that is not given from the root lies in the sandbox's directory. It fails on a queue that
    /// is too large.
    fn try_from(settings: ShareFsSettings) -> (r: Result<FsConfig, DeviceError>)
        ensures
            match r {
                Ok(c) => boot_fs_config(
                    settings.config(),
                    settings.directory(),
                    settings.server(),
                ) == Ok::<FsConfigView, DeviceError>(c@),
                Err(e) => boot_fs_config(
                    settings.config(),
                    settings.directory(),
                    settings.server(),
                ) == Err::<FsConfigView, DeviceError>(e),
            },
    {
        let ShareFsSettings { cfg, vm_path, backendfs_config } = settings;
        let (num_queues, queue_size) = match fs_queue_settings(&cfg) {
            Ok(q) => q,
            Err(e) => {
                return Err(e);
            },
        };
        let mut socket = String::new();
        if backendfs_config.is_none() {
            socket = join_path(vm_path.as_str(), cfg.sock_path.as_str());
        }
        proof {
            assert(backendfs_config is Some ==> socket@ =~= Seq::<char>::empty());
        }
        Ok(
            FsConfig {
                tag: cfg.mount_tag,
                socket,
                num_queues,
                queue_size,
                pci_common: Default::default(),
                backendfs_config,
            },
        )
    }
}

/// A mount inside a shared file system, as the hypervisor takes it; what is not listed takes its
/// default.
#[derive(Clone, Debug, PartialEq, Eq)]
pub struct FsMountConfigInfo {
    /// What is done.
    pub ops: String,
    /// The type of the mount.
    pub fstype: Option<String>,
    /// What is mounted.
    pub source: Option<String>,
    /// Where it is mounted.
    pub mountpoint: String,
    /// Its configuration.
    pub config: Option<String>,
    /// The tag of the shared file system.
    pub tag: String,
    /// The list of files to read ahead.
    pub prefetch_list_path: Option<String>,
}

/// A network device needs an address, and has what its configuration and the settings for all of
/// them say, each setting in its own place.
pub proof fn law_net_config_of_device(
    info: NetworkConfigInfo,
    cfg: NetworkConfig,
    inner: NetConfigInner,
    r: Result<NetConfig, DeviceError>,
)
    requires
        call_ensures(NetConfigInner::new, (info, cfg), inner),
        call_ensures(<NetConfig as TryFrom<NetConfigInner>>::try_from, (inner,), r),
    ensures
        r is Ok <==> cfg.guest_mac is Some,
        r matches Err(e) ==> e == DeviceError::MissingMac,
        r matches Ok(c) ==> {
            &&& cfg.guest_mac matches Some(mac) && c.mac.bytes == mac.0
            &&& c.pci_common.id == Some(cfg.virt_iface_name)
            &&& c.num_queues == cfg.queue_num
            &&& c.queue_size == cfg.queue_size as u16
            &&& c.offload_csum != info.disable_offload_csum
            &&& c.offload_tso != info.disable_offload_tso
            &&& c.offload_ufo != info.disable_offload_ufo
            &&& !c.vhost_user && c.vhost_socket is None && c.vhost_mode == VhostMode::Client
            &&& c.tap is None && c.ip is None && c.mask is None
            &&& c.host_mac is None && c.mtu is None && c.rate_limiter_config is None
            &&& !c.pci_common.iommu && c.pci_common.pci_segment == 0
        },
{
}

/// A network device in another process has that process's socket, where the hypervisor listens, and
/// what its configuration and the settings say.
pub proof fn law_net_config_of_process(
    info: NetworkConfigInfo,
    device: VhostUserNetDevice,
    inner: VhostUserNetDeviceInner,
    r: Result<NetConfig, DeviceError>,
)
    requires
        call_ensures(VhostUserNetDeviceInner::new, (info, device), inner),
        call_ensures(<NetConfig as TryFrom<VhostUserNetDeviceInner>>::try_from, (inner,), r),
    ensures
        r matches Ok(c) && {
            &&& c.mac == device.config.mac_address
            &&& c.pci_common.id == Some(device.device_id)
            &&& c.num_queues == device.config.num_queues
            &&& c.queue_size == device.config.queue_size as u16
            &&& c.offload_csum != info.disable_offload_csum
            &&& c.offload_tso != info.disable_offload_tso
            &&& c.offload_ufo != info.disable_offload_ufo
            &&& c.vhost_user && c.vhost_socket == Some(device.config.socket_path)
            &&& c.vhost_mode == VhostMode::Server
            &&& c.tap is None && c.ip is None && c.mask is None
            &&& c.host_mac is None && c.mtu is None && c.rate_limiter_config is None
            &&& !c.pci_common.iommu && c.pci_common.pci_segment == 0
        },
{
}

/// A disk has the file and the queues of its block device, and whether it can only be read. Its
/// cache is passed by only if the device says so.
pub proof fn law_disk_config_of_device(cfg: BlockConfig, r: Result<DiskConfig, DeviceError>)
    requires
        call_ensures(<DiskConfig as TryFrom<BlockConfig>>::try_from, (cfg,), r),
    ensures
        r matches Ok(c) && {
            &&& c.path == Some(cfg.path_on_host)
            &&& c.readonly == cfg.is_readonly
            &&& c.direct <==> (cfg.is_direct matches Some(direct) && direct)
            &&& c.num_queues == cfg.num_queues
            &&& c.queue_size == cfg.queue_size as u16
            &&& c.rate_limiter_config is None && !c.vhost_user
            &&& !c.disable_io_uring && !c.disable_aio && !c.backing_files && !c.sparse
            &&& c.pci_common.id is None && !c.pci_common.iommu && c.pci_common.pci_segment == 0
        },
{
}

/// A shared file system has the queues that it asks for, or one of the usual size where it asks for
/// none; only a size that does not fit in 16 bits is refused.
pub proof fn law_queues_as_asked(cfg: ShareFsConfig, r: Result<(usize, u16), DeviceError>)
    requires
        call_ensures(fs_queue_settings, (&cfg,), r),
    ensures
        r is Err <==> cfg.queue_num > 0 && cfg.queue_size > 0xffff,
        r matches Err(e) ==> e == DeviceError::QueueSize,
        r matches Ok(q) ==> {
            &&& cfg.queue_num == 0 ==> q.0 == 1 && q.1 == 1024
            &&& cfg.queue_num > 0 ==> q.1 == cfg.queue_size
            &&& cfg.queue_num > 0 ==> q.0 == cfg.queue_num as usize
        },
{
}

/// A shared file system that a machine boots with has its tag and its queues. Its socket lies below
/// the machine's directory, and there is none where the hypervisor serves it.
pub proof fn law_boot_fs_of_settings(
    cfg: ShareFsConfig,
    vm_path: String,
    server: Option<BackendFsConfig>,
    settings: ShareFsSettings,
    queues: Result<(usize, u16), DeviceError>,
    r: Result<FsConfig, DeviceError>,
)
    requires
        call_ensures(ShareFsSettings::new, (cfg, vm_path, server), settings),
        call_ensures(fs_queue_settings, (&cfg,), queues),
        call_ensures(<FsConfig as TryFrom<ShareFsSettings>>::try_from, (settings,), r),
    ensures
        r is Ok <==> queues is Ok,
        r matches Err(e) ==> queues == Err::<(usize, u16), DeviceError>(e),
        r matches Ok(c) ==> {
            &&& c.tag@ == cfg.mount_tag@
            &&& queues == Ok::<(usize, u16), DeviceError>((c.num_queues, c.queue_size))
            &&& c.backendfs_config == server
            &&& server is Some ==> c.socket@.len() == 0
            &&& server is None ==> c.socket@ == path_join(vm_path@, cfg.sock_path@)
            &&& c.pci_common.id is None && !c.pci_common.iommu && c.pci_common.pci_segment == 0
        },
{
}

/// What nothing is said of: a device on the first segment without a name, and a network device with
/// two queues of 256 that offloads everything and is bound to nothing.
pub proof fn law_plain_devices(pci: PciDeviceCommonConfig, net: NetConfig)
    requires
        call_ensures(PciDeviceCommonConfig::default, (), pci),
        call_ensures(NetConfig::default, (), net),
    ensures
        pci.id is None && !pci.iommu && pci.pci_segment == 0,
        net.pci_common.id is None && net.tap is None && net.num_queues == 2 && net.queue_size
            == 256,
        net.offload_csum && net.offload_tso && net.offload_ufo && !net.vhost_user,
        forall|i: int| 0 <= i < 6 ==> #[trigger] net.mac.bytes@[i] == 0,
{
}

/// Every [`DeviceError`] is told in its own words.
pub proof fn law_device_error_in_words(e: DeviceError, r: &'static str)
    requires
        call_ensures(DeviceError::message, (&e,), r),
    ensures
        e is Unhandled ==> r@ == "unhandled device"@,
        e is UnsupportedSharedFs ==> r@ == "hypervisor isn't configured with shared_fs supported"@,
        e is InvalidServerArgs ==> r@ == "parse args"@,
        e is QueueSize ==> r@ == "out of range integral type conversion attempted"@,
        e is SocketPath ==> r@ == "cannot resolve the socket path"@,
        e is NoPrimaryDevice ==> r@ == "Primary device list empty for vfio device"@,
        e is MissingMac ==> r@ == "Missing mac address for network device"@,
        e is UnknownDevice ==> r@ == "Device id for cloud-hypervisor not found while removing device"@,
        e is UnknownBlockDevice ==> r@ == "Device id for cloud-hypervisor not found while removing block device"@,
        e is UnexpectedPciAddress ==> r@ == "Unexpected PCI address for clh device add"@,
        e is InvalidPciPath ==> r@ == "invalid PCI path"@,
        e is UnsupportedUpdate ==> r@ == "unsupported device to update."@,
{
}

} // verus!

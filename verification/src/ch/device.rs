//! Adding, removing and updating devices.
//!
//! A device that is asked for while the virtual machine does not run waits in a queue; the queue is
//! drained when the machine boots. For a machine that runs, the request to the hypervisor is built
//! here, and its answer is recorded here.

use vstd::prelude::*;
use vstd::string::*;

use crate::ch::inner::{CloudHypervisorInner, VmmState};
use crate::ch::types::{
    boot_fs_config, fs_queue_settings, fs_queue_size, fs_queues, plain_pci, BlockConfig,
    BlockDevice, DeviceConfig, DeviceError, DeviceType, DiskConfig, FsConfig, FsConfigView,
    FsMountConfigInfo, MacAddr, NetConfig, NetConfigInner, NetworkConfig, PciDeviceCommonConfig,
    PciPath, ProtectionDeviceConfig, RateLimiterConfig, ShareFsConfig, ShareFsMountConfig,
    ShareFsMountOperation, ShareFsMountType, ShareFsSettings, TokenBucketConfig, VfioDevice,
    VhostUserConfig, VhostUserNetDevice, VhostUserNetDeviceInner, VsockConfig, INLINE_VIRTIO_FS,
    VIRTIO_FS,
};
use crate::ch::utils::PciDeviceInfo;
use crate::ch::virtiofs::{
    backend_config, parse_inline_virtiofs_args, server_flags, BackendFsConfig,
};
use crate::config::{BlockDevSettings, NetworkConfigInfo};
use crate::path::is_absolute;
use crate::text::{split, split_str, str_eq, texts};

verus! {

broadcast use vstd::string::group_string_axioms;

/// What becomes of a request for a device.
#[derive(Debug)]
pub enum AddDevice {
    /// The device waits until the virtual machine boots.
    Queued,
    /// The virtual machine does not run, and a device of this type is not kept.
    Ignored(DeviceType),
    /// The virtual machine runs: the device is to be attached.
    Attach(DeviceType),
}

/// A request to the hypervisor.
#[derive(Debug)]
pub enum AttachRequest {
    /// Add a shared file system.
    AddFs(FsConfig),
    /// Add a socket.
    AddVsock(VsockConfig),
    /// Add a disk.
    AddDisk(DiskConfig),
    /// Add an assigned device.
    AddDevice(DeviceConfig),
    /// Add a network device.
    AddNet(NetConfig),
}

/// Whether a device of this type is kept until the virtual machine boots.
pub open spec fn waits_for_boot(device: DeviceType) -> bool {
    ||| device is ShareFs
    ||| device is Network
    ||| device is Vfio
    ||| device is VhostUserNetwork
    ||| device is Protection
}

/// The queue with one more device.
pub open spec fn queued(pending: Seq<DeviceType>, device: DeviceType) -> Seq<DeviceType> {
    pending.insert(0, device)
}

/// The order in which the queue is drained.
pub open spec fn drain_order(pending: Seq<DeviceType>) -> Seq<DeviceType> {
    pending.reverse()
}

/// What is common to all devices of a virtual machine when they are handed to the hypervisor.
pub struct DeviceSettings {
    /// The settings for all network devices.
    pub network_info: NetworkConfigInfo,
    /// The directory of the virtual machine.
    pub vm_path: Seq<char>,
    /// Arguments of the shared file system's server.
    pub server_args: Seq<Seq<char>>,
    /// The server where the arguments ask for nothing.
    pub plain_server: BackendFsConfig,
    /// The largest number of queues of a network device.
    pub queue_limit: usize,
}

/// The settings of a virtual machine.
pub open spec fn settings_of(ch: CloudHypervisorInner, queue_limit: usize) -> DeviceSettings {
    DeviceSettings {
        network_info: ch.config.network_info,
        vm_path: ch.vm_path@,
        server_args: texts(ch.config.virtio_fs_extra_args@),
        plain_server: ch.device_defaults.server,
        queue_limit,
    }
}

/// A number of queues within the limit.
pub open spec fn limited(limit: usize, queues: usize) -> usize {
    if limit < queues {
        limit
    } else {
        queues
    }
}

/// A number of queues within the limit.
fn limit_queues(limit: usize, queues: usize) -> (r: usize)
    ensures
        r == limited(limit, queues),
{
    if limit < queues {
        limit
    } else {
        queues
    }
}

/// A network device as the hypervisor takes it, bound to the interface of the host.
pub open spec fn net_request(
    info: NetworkConfigInfo,
    cfg: NetworkConfig,
    queue_limit: usize,
) -> Result<NetConfig, DeviceError> {
    match cfg.guest_mac {
        Some(mac) => Ok(
            NetConfig {
                pci_common: PciDeviceCommonConfig { id: Some(cfg.virt_iface_name), ..plain_pci() },
                tap: Some(cfg.host_dev_name),
                num_queues: limited(queue_limit, cfg.queue_num),
                queue_size: cfg.queue_size as u16,
                offload_csum: !info.disable_offload_csum,
                offload_tso: !info.disable_offload_tso,
                offload_ufo: !info.disable_offload_ufo,
                ..crate::ch::types::plain_net(MacAddr { bytes: mac.0 })
            },
        ),
        None => Err(DeviceError::MissingMac),
    }
}

/// A network device in another process, as the hypervisor takes it.
pub open spec fn vhost_request(
    info: NetworkConfigInfo,
    device: VhostUserNetDevice,
    queue_limit: usize,
) -> NetConfig {
    NetConfig {
        pci_common: PciDeviceCommonConfig { id: Some(device.device_id), ..plain_pci() },
        num_queues: limited(queue_limit, device.config.num_queues),
        queue_size: device.config.queue_size as u16,
        vhost_user: true,
        vhost_socket: Some(device.config.socket_path),
        vhost_mode: crate::ch::types::VhostMode::Server,
        offload_csum: !info.disable_offload_csum,
        offload_tso: !info.disable_offload_tso,
        offload_ufo: !info.disable_offload_ufo,
        ..crate::ch::types::plain_net(device.config.mac_address)
    }
}

/// An assigned device as the hypervisor takes it: its primary function.
pub open spec fn vfio_request(device: VfioDevice) -> Result<DeviceConfig, DeviceError> {
    if device.devices@.len() == 0 {
        Err(DeviceError::NoPrimaryDevice)
    } else {
        Ok(DeviceConfig { path: device.devices@[0].sysfs_path, pci_common: plain_pci() })
    }
}

/// The server of a shared file system: none of the hypervisor's where the file system has a server
/// of its own, and otherwise what the arguments ask for, starting from `plain`.
pub open spec fn server_of(
    fs_type: Seq<char>,
    server_args: Seq<Seq<char>>,
    plain: BackendFsConfig,
) -> Result<Option<BackendFsConfig>, DeviceError> {
    if fs_type == VIRTIO_FS@ {
        Ok(None)
    } else if fs_type == INLINE_VIRTIO_FS@ {
        match server_flags(server_args, plain) {
            Some(v) => Ok(Some(backend_config(plain, v.1, v.2, v.3))),
            None => Err(DeviceError::InvalidServerArgs),
        }
    } else {
        Err(DeviceError::UnsupportedSharedFs)
    }
}

/// The server of a shared file system.
fn find_server(
    fs_type: &str,
    server_args: &Vec<String>,
    plain: BackendFsConfig,
) -> (r: Result<Option<BackendFsConfig>, DeviceError>)
    ensures
        r == server_of(fs_type@, texts(server_args@), plain),
{
    proof {
        reveal_strlit("virtio-fs");
        reveal_strlit("inline-virtio-fs");
    }
    if str_eq(fs_type, VIRTIO_FS) {
        Ok(None)
    } else if str_eq(fs_type, INLINE_VIRTIO_FS) {
        match parse_inline_virtiofs_args(server_args, plain) {
            Ok(c) => Ok(Some(c)),
            Err(e) => Err(e),
        }
    } else {
        Err(DeviceError::UnsupportedSharedFs)
    }
}

/// Data of the guest's protection.
#[derive(Debug)]
pub struct ProtectionDevConfig {
    /// Data that the host has attested, for SEV-SNP.
    pub host_data: Option<String>,
    /// The measurement of the configuration, for TDX.
    pub mrconfigid: Option<String>,
}

/// The devices that a virtual machine boots with.
#[derive(Debug)]
pub struct SharedDevices {
    /// Shared file systems.
    pub shared_fs_devices: Vec<FsConfig>,
    /// Network devices.
    pub network_devices: Vec<NetConfig>,
    /// Assigned devices.
    pub host_devices: Vec<DeviceConfig>,
    /// The protection of the guest.
    pub protection_device: ProtectionDevConfig,
}

/// The contents of [`SharedDevices`].
#[verifier::ext_equal]
pub struct SharedView {
    /// Shared file systems.
    pub fs: Seq<FsConfigView>,
    /// Network devices.
    pub net: Seq<NetConfig>,
    /// Assigned devices.
    pub host: Seq<DeviceConfig>,
    /// The protection of the guest.
    pub protection: ProtectionDevConfig,
}

impl View for SharedDevices {
    type V = SharedView;

    open spec fn view(&self) -> SharedView {
        SharedView {
            fs: self.shared_fs_devices@.map_values(|c: FsConfig| c@),
            net: self.network_devices@,
            host: self.host_devices@,
            protection: self.protection_device,
        }
    }
}

/// No devices.
pub open spec fn no_devices() -> SharedView {
    SharedView {
        fs: Seq::empty(),
        net: Seq::empty(),
        host: Seq::empty(),
        protection: ProtectionDevConfig { host_data: None, mrconfigid: None },
    }
}

/// The devices with one more, or why it cannot be added.
pub open spec fn with_device(
    devices: SharedView,
    device: DeviceType,
    settings: DeviceSettings,
) -> Result<SharedView, DeviceError> {
    match device {
        DeviceType::ShareFs(d) => match server_of(
            d.config.fs_type@,
            settings.server_args,
            settings.plain_server,
        ) {
            Err(e) => Err(e),
            Ok(server) => match boot_fs_config(d.config, settings.vm_path, server) {
                Err(e) => Err(e),
                Ok(c) => Ok(SharedView { fs: devices.fs.push(c), ..devices }),
            },
        },
        DeviceType::Network(d) => match net_request(
            settings.network_info,
            d.config,
            settings.queue_limit,
        ) {
            Err(e) => Err(e),
            Ok(c) => Ok(SharedView { net: devices.net.push(c), ..devices }),
        },
        DeviceType::VhostUserNetwork(d) => Ok(
            SharedView {
                net: devices.net.push(
                    vhost_request(settings.network_info, d, settings.queue_limit),
                ),
                ..devices
            },
        ),
        DeviceType::Vfio(d) => match vfio_request(d) {
            Err(e) => Err(e),
            Ok(c) => Ok(SharedView { host: devices.host.push(c), ..devices }),
        },
        DeviceType::Protection(ProtectionDeviceConfig::SevSnp { is_snp, host_data }) => Ok(
            if is_snp {
                SharedView {
                    protection: ProtectionDevConfig { host_data, ..devices.protection },
                    ..devices
                }
            } else {
                devices
            },
        ),
        DeviceType::Protection(ProtectionDeviceConfig::Tdx { mrconfigid }) => Ok(
            SharedView {
                protection: ProtectionDevConfig { mrconfigid, ..devices.protection },
                ..devices
            },
        ),
        _ => Ok(devices),
    }
}

/// What draining a queue gives, starting with `devices`: what is left of the queue, and the
/// devices or the first error.
pub open spec fn drained(
    pending: Seq<DeviceType>,
    devices: SharedView,
    settings: DeviceSettings,
) -> (Seq<DeviceType>, Result<SharedView, DeviceError>)
    decreases pending.len(),
{
    if pending.len() == 0 {
        (pending, Ok(devices))
    } else {
        match with_device(devices, pending.last(), settings) {
            Ok(more) => drained(pending.drop_last(), more, settings),
            Err(e) => (pending.drop_last(), Err(e)),
        }
    }
}

/// The limits of a disk that the settings ask for, if any.
pub open spec fn disk_limits(s: BlockDevSettings, refill_time: u64) -> Option<RateLimiterConfig> {
    if s.disk_rate_limiter_bw_max_rate > 0 || s.disk_rate_limiter_ops_max_rate > 0 {
        Some(
            RateLimiterConfig {
                bandwidth: if s.disk_rate_limiter_bw_max_rate > 0 {
                    Some(
                        TokenBucketConfig {
                            size: s.disk_rate_limiter_bw_max_rate,
                            one_time_burst: s.disk_rate_limiter_bw_one_time_burst,
                            refill_time,
                        },
                    )
                } else {
                    None
                },
                ops: if s.disk_rate_limiter_ops_max_rate > 0 {
                    Some(
                        TokenBucketConfig {
                            size: s.disk_rate_limiter_ops_max_rate,
                            one_time_burst: s.disk_rate_limiter_ops_one_time_burst,
                            refill_time,
                        },
                    )
                } else {
                    None
                },
            },
        )
    } else {
        None
    }
}

/// A block device as the hypervisor takes it.
pub open spec fn disk_request(
    cfg: BlockConfig,
    s: BlockDevSettings,
    refill_time: u64,
) -> DiskConfig {
    DiskConfig {
        path: Some(cfg.path_on_host),
        readonly: cfg.is_readonly,
        direct: match cfg.is_direct {
            Some(direct) => direct,
            None => s.block_device_cache_direct,
        },
        num_queues: cfg.num_queues,
        queue_size: cfg.queue_size as u16,
        image_type: crate::ch::types::ImageType::Raw,
        vhost_user: false,
        rate_limiter_config: disk_limits(s, refill_time),
        disable_io_uring: false,
        disable_aio: false,
        backing_files: false,
        sparse: false,
        pci_common: plain_pci(),
    }
}

/// Whether the socket of a shared file system has to be resolved below the virtual machine's
/// directory before it is attached.
pub open spec fn needs_socket(cfg: ShareFsConfig) -> bool {
    cfg.fs_type@ == VIRTIO_FS@ && !is_absolute(cfg.sock_path@)
}

/// A shared file system as the hypervisor takes it when the virtual machine runs: `resolved` is
/// its socket below the virtual machine's directory, where it has to be resolved, and `segment`
/// the PCI segment for it.
pub open spec fn fs_request(
    cfg: ShareFsConfig,
    server_args: Seq<Seq<char>>,
    plain: BackendFsConfig,
    resolved: Option<Seq<char>>,
    segment: u16,
) -> Result<FsConfigView, DeviceError> {
    if needs_socket(cfg) && resolved is None {
        Err(DeviceError::SocketPath)
    } else {
        match server_of(cfg.fs_type@, server_args, plain) {
            Err(e) => Err(e),
            Ok(server) => match fs_queue_size(cfg) {
                None => Err(DeviceError::QueueSize),
                Some(queue_size) => Ok(
                    FsConfigView {
                        tag: cfg.mount_tag@,
                        socket: if server is Some {
                            Seq::empty()
                        } else if is_absolute(cfg.sock_path@) {
                            cfg.sock_path@
                        } else {
                            resolved->0
                        },
                        num_queues: fs_queues(cfg),
                        queue_size,
                        pci_common: PciDeviceCommonConfig { pci_segment: segment, ..plain_pci() },
                        backendfs_config: server,
                    },
                ),
            },
        }
    }
}

/// Whether `r` is the request that attaches a device.
pub open spec fn is_attach_request(
    r: Result<AttachRequest, DeviceError>,
    ch: CloudHypervisorInner,
    device: DeviceType,
    queue_limit: usize,
    resolved: Option<Seq<char>>,
    segment: u16,
) -> bool {
    match device {
        DeviceType::ShareFs(d) => match fs_request(
            d.config,
            texts(ch.config.virtio_fs_extra_args@),
            ch.device_defaults.server,
            resolved,
            segment,
        ) {
            Ok(c) => r matches Ok(AttachRequest::AddFs(f)) && f@ == c,
            Err(e) => r == Err::<AttachRequest, DeviceError>(e),
        },
        DeviceType::HybridVsock(d) => r == Ok::<AttachRequest, DeviceError>(
            AttachRequest::AddVsock(
                VsockConfig {
                    cid: d.guest_cid as u64,
                    socket: d.uds_path,
                    pci_common: plain_pci(),
                },
            ),
        ),
        DeviceType::Block(d) => r == Ok::<AttachRequest, DeviceError>(
            AttachRequest::AddDisk(
                disk_request(
                    d.config,
                    ch.config.blockdev_info,
                    ch.device_defaults.refill_time,
                ),
            ),
        ),
        DeviceType::Vfio(d) => match vfio_request(d) {
            Ok(c) => r == Ok::<AttachRequest, DeviceError>(AttachRequest::AddDevice(c)),
            Err(e) => r == Err::<AttachRequest, DeviceError>(e),
        },
        DeviceType::Network(d) => match net_request(
            ch.config.network_info,
            d.config,
            queue_limit,
        ) {
            Ok(c) => r == Ok::<AttachRequest, DeviceError>(AttachRequest::AddNet(c)),
            Err(e) => r == Err::<AttachRequest, DeviceError>(e),
        },
        DeviceType::VhostUserNetwork(d) => r == Ok::<AttachRequest, DeviceError>(
            AttachRequest::AddNet(vhost_request(ch.config.network_info, d, queue_limit)),
        ),
        _ => r == Err::<AttachRequest, DeviceError>(DeviceError::Unhandled),
    }
}

/// The slot in an address of the form `0000:00:DD.0`, if `bdf` is of that form.
pub open spec fn slot_of(bdf: Seq<char>) -> Option<Seq<char>> {
    let parts = split(bdf, ':');
    let last = split(parts[2], '.');
    if parts.len() == 3 && parts[0] == "0000"@ && parts[1] == "00"@ && last.len() == 2 && last[1]
        == "0"@ && vstd::utf8::encode_utf8(last[0]).len() == 2 {
        Some(last[0])
    } else {
        None
    }
}

/// The slot in the address that the hypervisor answered with. It reports addresses as domain, bus,
/// device and function; only a device on the first bus that has one function is expected.
pub fn clh_pci_slot(bdf: &str) -> (r: Result<String, DeviceError>)
    ensures
        match r {
            Ok(slot) => slot_of(bdf@) == Some(slot@),
            Err(e) => slot_of(bdf@) is None && e == DeviceError::UnexpectedPciAddress,
        },
{
    let tokens = split_str(bdf, ':');
    proof {
        assert(texts(tokens@).len() == tokens@.len());
        assert forall|i: int| 0 <= i < tokens@.len() implies texts(tokens@)[i]
            == #[trigger] tokens@[i]@ by {}
    }
    if tokens.len() != 3 || !str_eq(tokens[0].as_str(), "0000") || !str_eq(
        tokens[1].as_str(),
        "00",
    ) {
        return Err(DeviceError::UnexpectedPciAddress);
    }
    let toks = split_str(tokens[2].as_str(), '.');
    proof {
        assert(texts(toks@).len() == toks@.len());
        assert forall|i: int| 0 <= i < toks@.len() implies texts(toks@)[i] == #[trigger] toks@[i]@ by {}
    }
    if toks.len() != 2 || !str_eq(toks[1].as_str(), "0") || toks[0].as_str().as_bytes().len() != 2 {
        return Err(DeviceError::UnexpectedPciAddress);
    }
    Ok(toks[0].clone())
}

/// What the hypervisor answered when it added a device.
#[derive(Debug)]
pub struct DeviceAnswer {
    /// The device's identity and address.
    pub info: PciDeviceInfo,
    /// The place that the slot in the address stands for, if it is valid.
    pub path: Option<PciPath>,
}

/// The place in an answer, or what is wrong with it.
pub open spec fn answered_path(answer: DeviceAnswer) -> Result<PciPath, DeviceError> {
    if slot_of(answer.info.bdf@) is None {
        Err(DeviceError::UnexpectedPciAddress)
    } else {
        match answer.path {
            Some(path) => Ok(path),
            None => Err(DeviceError::InvalidPciPath),
        }
    }
}

/// The place in an answer.
fn take_path(answer: DeviceAnswer) -> (r: Result<PciPath, DeviceError>)
    ensures
        r == answered_path(answer),
{
    match clh_pci_slot(answer.info.bdf.as_str()) {
        Err(e) => Err(e),
        Ok(_) => match answer.path {
            Some(path) => Ok(path),
            None => Err(DeviceError::InvalidPciPath),
        },
    }
}

/// A copy of a place.
fn copy_path(path: &Option<PciPath>) -> (r: Option<PciPath>)
    ensures
        r == *path,
{
    match path {
        Some(p) => Some(PciPath { text: p.text.clone() }),
        None => None,
    }
}

/// A copy of a block device.
fn copy_block(d: &BlockDevice) -> (r: BlockDevice)
    ensures
        r == *d,
{
    BlockDevice {
        device_id: d.device_id.clone(),
        config: BlockConfig {
            path_on_host: d.config.path_on_host.clone(),
            is_readonly: d.config.is_readonly,
            is_direct: d.config.is_direct,
            is_overlayfs: d.config.is_overlayfs,
            num_queues: d.config.num_queues,
            queue_size: d.config.queue_size,
            virt_path: d.config.virt_path.clone(),
            pci_path: copy_path(&d.config.pci_path),
        },
    }
}

/// A copy of an optional text.
fn copy_text(t: &Option<String>) -> (r: Option<String>)
    ensures
        r == *t,
{
    match t {
        Some(t) => Some(t.clone()),
        None => None,
    }
}

/// A network device as the hypervisor takes it.
fn build_net(
    info: NetworkConfigInfo,
    cfg: NetworkConfig,
    queue_limit: usize,
) -> (r: Result<NetConfig, DeviceError>)
    ensures
        r == net_request(info, cfg, queue_limit),
{
    let host_dev_name = cfg.host_dev_name.clone();
    match NetConfig::try_from(NetConfigInner::new(info, cfg)) {
        Ok(c) => {
            let mut c = c;
            c.tap = Some(host_dev_name);
            c.num_queues = limit_queues(queue_limit, c.num_queues);
            Ok(c)
        },
        Err(e) => Err(e),
    }
}

/// A network device in another process, as the hypervisor takes it.
fn build_vhost(
    info: NetworkConfigInfo,
    device: VhostUserNetDevice,
    queue_limit: usize,
) -> (r: Result<NetConfig, DeviceError>)
    ensures
        r == Ok::<NetConfig, DeviceError>(vhost_request(info, device, queue_limit)),
{
    match NetConfig::try_from(VhostUserNetDeviceInner::new(info, device)) {
        Ok(c) => {
            let mut c = c;
            c.num_queues = limit_queues(queue_limit, c.num_queues);
            Ok(c)
        },
        Err(e) => Err(e),
    }
}

/// An assigned device as the hypervisor takes it.
fn build_vfio(device: &VfioDevice) -> (r: Result<DeviceConfig, DeviceError>)
    ensures
        r == vfio_request(*device),
{
    if device.devices.len() == 0 {
        return Err(DeviceError::NoPrimaryDevice);
    }
    Ok(
        DeviceConfig {
            path: device.devices[0].sysfs_path.clone(),
            pci_common: Default::default(),
        },
    )
}

/// The limits of a disk.
fn build_limits(s: &BlockDevSettings, refill_time: u64) -> (r: Option<RateLimiterConfig>)
    ensures
        r == disk_limits(*s, refill_time),
{
    if s.disk_rate_limiter_bw_max_rate > 0 || s.disk_rate_limiter_ops_max_rate > 0 {
        let bandwidth = if s.disk_rate_limiter_bw_max_rate > 0 {
            Some(
                TokenBucketConfig {
                    size: s.disk_rate_limiter_bw_max_rate,
                    one_time_burst: s.disk_rate_limiter_bw_one_time_burst,
                    refill_time,
                },
            )
        } else {
            None
        };
        let ops = if s.disk_rate_limiter_ops_max_rate > 0 {
            Some(
                TokenBucketConfig {
                    size: s.disk_rate_limiter_ops_max_rate,
                    one_time_burst: s.disk_rate_limiter_ops_one_time_burst,
                    refill_time,
                },
            )
        } else {
            None
        };
        Some(RateLimiterConfig { bandwidth, ops })
    } else {
        None
    }
}

/// A block device as the hypervisor takes it.
fn build_disk(
    d: &BlockDevice,
    s: &BlockDevSettings,
    refill_time: u64,
) -> (r: Result<DiskConfig, DeviceError>)
    ensures
        r == Ok::<DiskConfig, DeviceError>(disk_request(d.config, *s, refill_time)),
{
    let copy = copy_block(d);
    match DiskConfig::try_from(copy.config) {
        Ok(c) => {
            let mut c = c;
            c.direct = match d.config.is_direct {
                Some(direct) => direct,
                None => s.block_device_cache_direct,
            };
            c.rate_limiter_config = build_limits(s, refill_time);
            Ok(c)
        },
        Err(e) => Err(e),
    }
}

/// A shared file system as the hypervisor takes it when the virtual machine runs.
fn build_fs(
    cfg: &ShareFsConfig,
    server_args: &Vec<String>,
    plain: BackendFsConfig,
    resolved: Option<String>,
    segment: u16,
) -> (r: Result<FsConfig, DeviceError>)
    ensures
        match r {
            Ok(c) => fs_request(
                *cfg,
                texts(server_args@),
                plain,
                crate::mount::text_of(resolved),
                segment,
            ) == Ok::<FsConfigView, DeviceError>(c@),
            Err(e) => fs_request(
                *cfg,
                texts(server_args@),
                plain,
                crate::mount::text_of(resolved),
                segment,
            ) == Err::<FsConfigView, DeviceError>(e),
        },
{
    proof {
        reveal_strlit("virtio-fs");
        reveal_strlit("inline-virtio-fs");
        assert(VIRTIO_FS@.len() != INLINE_VIRTIO_FS@.len());
    }
    let mut socket = String::new();
    proof {
        assert(socket@ =~= Seq::<char>::empty());
    }
    if str_eq(cfg.fs_type.as_str(), VIRTIO_FS) {
        if cfg.sock_path.as_str().unicode_len() > 0 && cfg.sock_path.as_str().get_char(0) == '/' {
            socket = cfg.sock_path.clone();
        } else {
            match resolved {
                Some(path) => {
                    socket = path;
                },
                None => {
                    return Err(DeviceError::SocketPath);
                },
            }
        }
    }
    let server = match find_server(cfg.fs_type.as_str(), server_args, plain) {
        Ok(server) => server,
        Err(e) => {
            return Err(e);
        },
    };
    let (num_queues, queue_size) = match fs_queue_settings(cfg) {
        Ok(q) => q,
        Err(e) => {
            return Err(e);
        },
    };
    Ok(
        FsConfig {
            tag: cfg.mount_tag.clone(),
            socket,
            num_queues,
            queue_size,
            pci_common: PciDeviceCommonConfig { pci_segment: segment, ..Default::default() },
            backendfs_config: server,
        },
    )
}

/// The hypervisor's name of a device that is to be removed; nothing for a device of a type that is
/// not removed, and an error for one that the hypervisor was not given.
pub open spec fn removal(
    ids: Map<Seq<char>, String>,
    device: DeviceType,
) -> Result<Option<String>, DeviceError> {
    match device {
        DeviceType::Vfio(d) => if ids.dom().contains(d.device_id@) {
            Ok(Some(ids[d.device_id@]))
        } else {
            Err(DeviceError::UnknownDevice)
        },
        DeviceType::Block(d) => if ids.dom().contains(d.device_id@) {
            Ok(Some(ids[d.device_id@]))
        } else {
            Err(DeviceError::UnknownBlockDevice)
        },
        _ => Ok(None),
    }
}

/// How the hypervisor calls an operation on a mount.
pub open spec fn operation_name(op: ShareFsMountOperation) -> Seq<char> {
    match op {
        ShareFsMountOperation::Mount => "mount"@,
        ShareFsMountOperation::Umount => "umount"@,
        ShareFsMountOperation::Update => "update"@,
    }
}

/// How the hypervisor calls the type of a mount.
pub open spec fn mount_type_name(fstype: ShareFsMountType) -> Seq<char> {
    match fstype {
        ShareFsMountType::PASSTHROUGH => "passthroughfs"@,
        ShareFsMountType::RAFS => "rafs"@,
    }
}

/// A mount inside a shared file system, as the hypervisor takes it.
pub fn share_fs_mount_request(config: &ShareFsMountConfig) -> (r: FsMountConfigInfo)
    ensures
        r.ops@ == operation_name(config.op),
        r.fstype matches Some(t) && t@ == mount_type_name(config.fstype),
        r.source == Some(config.source),
        r.mountpoint == config.mount_point,
        r.config == config.config,
        r.tag == config.tag,
        r.prefetch_list_path == config.prefetch_list_path,
{
    let ops = match config.op {
        ShareFsMountOperation::Mount => "mount",
        ShareFsMountOperation::Umount => "umount",
        ShareFsMountOperation::Update => "update",
    };
    let fstype = match config.fstype {
        ShareFsMountType::PASSTHROUGH => "passthroughfs",
        ShareFsMountType::RAFS => "rafs",
    };
    FsMountConfigInfo {
        ops: ops.to_owned(),
        fstype: Some(fstype.to_owned()),
        source: Some(config.source.clone()),
        mountpoint: config.mount_point.clone(),
        config: copy_text(&config.config),
        tag: config.tag.clone(),
        prefetch_list_path: copy_text(&config.prefetch_list_path),
    }
}

impl CloudHypervisorInner {
    /// Takes a request for a device. While the virtual machine does not run, the devices that it
    /// boots with wait for it; others come only when it runs and are not kept.
    pub fn add_device(&mut self, device: DeviceType) -> (r: AddDevice)
        ensures
            old(self).state == VmmState::VmRunning ==> r == AddDevice::Attach(device)
                && *final(self) == *old(self),
            old(self).state != VmmState::VmRunning && !waits_for_boot(device) ==> r
                == AddDevice::Ignored(device) && *final(self) == *old(self),
            old(self).state != VmmState::VmRunning && waits_for_boot(device) ==> {
                &&& r is Queued
                &&& final(self).pending_devices@ == queued(old(self).pending_devices@, device)
                &&& *final(self) == (CloudHypervisorInner {
                    pending_devices: final(self).pending_devices,
                    ..*old(self)
                })
            },
    {
        if self.state != VmmState::VmRunning {
            match &device {
                DeviceType::ShareFs(_) => {},
                DeviceType::Network(_) => {},
                DeviceType::Vfio(_) => {},
                DeviceType::VhostUserNetwork(_) => {},
                DeviceType::Protection(_) => {},
                _ => {
                    return AddDevice::Ignored(device);
                },
            }
            self.pending_devices.insert(0, device);
            return AddDevice::Queued;
        }
        AddDevice::Attach(device)
    }

    /// The request that attaches a device to a virtual machine that runs.
    ///
    /// `queue_limit` is twice the current number of virtual CPUs, rounded down. `resolved` is the
    /// socket of a shared file system below the virtual machine's directory, where it had to be
    /// resolved and could be. `segment` is the PCI segment for a shared file system.
    pub fn handle_add_device(
        &self,
        device: &DeviceType,
        queue_limit: usize,
        resolved: Option<String>,
        segment: u16,
    ) -> (r: Result<AttachRequest, DeviceError>)
        ensures
            is_attach_request(
                r,
                *self,
                *device,
                queue_limit,
                crate::mount::text_of(resolved),
                segment,
            ),
    {
        match device {
            DeviceType::ShareFs(d) => match build_fs(
                &d.config,
                &self.config.virtio_fs_extra_args,
                self.device_defaults.server,
                resolved,
                segment,
            ) {
                Ok(c) => Ok(AttachRequest::AddFs(c)),
                Err(e) => Err(e),
            },
            DeviceType::HybridVsock(d) => Ok(
                AttachRequest::AddVsock(
                    VsockConfig {
                        cid: d.guest_cid as u64,
                        socket: d.uds_path.clone(),
                        pci_common: Default::default(),
                    },
                ),
            ),
            DeviceType::Block(d) => match build_disk(
                d,
                &self.config.blockdev_info,
                self.device_defaults.refill_time,
            ) {
                Ok(c) => Ok(AttachRequest::AddDisk(c)),
                Err(e) => Err(e),
            },
            DeviceType::Vfio(d) => match build_vfio(d) {
                Ok(c) => Ok(AttachRequest::AddDevice(c)),
                Err(e) => Err(e),
            },
            DeviceType::Network(d) => {
                let cfg = NetworkConfig {
                    host_dev_name: d.config.host_dev_name.clone(),
                    virt_iface_name: d.config.virt_iface_name.clone(),
                    queue_size: d.config.queue_size,
                    queue_num: d.config.queue_num,
                    guest_mac: d.config.guest_mac,
                    index: d.config.index,
                    allow_duplicate_mac: d.config.allow_duplicate_mac,
                    use_generic_irq: d.config.use_generic_irq,
                    use_shared_irq: d.config.use_shared_irq,
                };
                match build_net(self.config.network_info, cfg, queue_limit) {
                    Ok(c) => Ok(AttachRequest::AddNet(c)),
                    Err(e) => Err(e),
                }
            },
            DeviceType::VhostUserNetwork(d) => {
                let copy = VhostUserNetDevice {
                    device_id: d.device_id.clone(),
                    config: VhostUserConfig {
                        socket_path: d.config.socket_path.clone(),
                        mac_address: d.config.mac_address,
                        num_queues: d.config.num_queues,
                        queue_size: d.config.queue_size,
                    },
                };
                match build_vhost(self.config.network_info, copy, queue_limit) {
                    Ok(c) => Ok(AttachRequest::AddNet(c)),
                    Err(e) => Err(e),
                }
            },
            _ => Err(DeviceError::Unhandled),
        }
    }

    /// Records the hypervisor's answer to a request for an assigned device, and gives the device
    /// with its place in the guest. Without an answer the device stays as it is. The device can be
    /// removed by its name even where the address in the answer is not as expected.
    pub fn vfio_device_added(
        &mut self,
        device: VfioDevice,
        answer: Option<DeviceAnswer>,
    ) -> (r: Result<VfioDevice, DeviceError>)
        requires
            device.devices@.len() > 0,
        ensures
            match answer {
                None => r == Ok::<VfioDevice, DeviceError>(device) && *final(self) == *old(self),
                Some(a) => {
                    &&& final(self).device_ids@ == old(self).device_ids@.insert(
                        device.device_id@,
                        a.info.id,
                    )
                    &&& *final(self) == (CloudHypervisorInner {
                        device_ids: final(self).device_ids,
                        ..*old(self)
                    })
                    &&& match answered_path(a) {
                        Err(e) => r == Err::<VfioDevice, DeviceError>(e),
                        Ok(path) => r matches Ok(d) && d.device_id == device.device_id
                            && d.devices@ == device.devices@.update(
                            0,
                            crate::ch::types::HostDevice {
                                guest_pci_path: Some(path),
                                ..device.devices@[0]
                            },
                        ),
                    }
                },
            },
    {
        let mut device = device;
        match answer {
            None => Ok(device),
            Some(a) => {
                self.device_ids.insert(device.device_id.clone(), a.info.id.clone());
                match take_path(a) {
                    Err(e) => Err(e),
                    Ok(path) => {
                        device.devices[0].guest_pci_path = Some(path);
                        Ok(device)
                    },
                }
            },
        }
    }

    /// Records the hypervisor's answer to a request for a block device, and gives the device with
    /// its place in the guest. Without an answer the device stays as it is. A device for the upper
    /// layers of overlays is kept for later containers.
    pub fn block_device_added(
        &mut self,
        device: BlockDevice,
        answer: Option<DeviceAnswer>,
    ) -> (r: Result<BlockDevice, DeviceError>)
        ensures
            match answer {
                None => r == Ok::<BlockDevice, DeviceError>(device),
                Some(a) => match answered_path(a) {
                    Err(e) => r == Err::<BlockDevice, DeviceError>(e),
                    Ok(path) => r == Ok::<BlockDevice, DeviceError>(
                        BlockDevice {
                            config: BlockConfig { pci_path: Some(path), ..device.config },
                            ..device
                        },
                    ),
                },
            },
            match answer {
                None => final(self).device_ids == old(self).device_ids,
                Some(a) => final(self).device_ids@ == old(self).device_ids@.insert(
                    device.device_id@,
                    a.info.id,
                ),
            },
            match r {
                Ok(d) => final(self).overlayfs_block_device == (if device.config.is_overlayfs {
                    Some(d)
                } else {
                    old(self).overlayfs_block_device
                }),
                Err(_) => final(self).overlayfs_block_device == old(self).overlayfs_block_device,
            },
            *final(self) == (CloudHypervisorInner {
                device_ids: final(self).device_ids,
                overlayfs_block_device: final(self).overlayfs_block_device,
                ..*old(self)
            }),
    {
        let mut device = device;
        if let Some(a) = answer {
            self.device_ids.insert(device.device_id.clone(), a.info.id.clone());
            match take_path(a) {
                Err(e) => {
                    return Err(e);
                },
                Ok(path) => {
                    device.config.pci_path = Some(path);
                },
            }
        }
        if device.config.is_overlayfs {
            self.overlayfs_block_device = Some(copy_block(&device));
        }
        Ok(device)
    }

    /// The next device that waited for the virtual machine, in the order in which they were asked
    /// for. It fails with the state while the virtual machine does not run.
    pub fn next_pending_device(&mut self) -> (r: Result<Option<DeviceType>, VmmState>)
        ensures
            old(self).state != VmmState::VmRunning ==> r == Err::<Option<DeviceType>, VmmState>(
                old(self).state,
            ) && *final(self) == *old(self),
            old(self).state == VmmState::VmRunning && old(self).pending_devices@.len() == 0 ==> r
                == Ok::<Option<DeviceType>, VmmState>(None) && final(self).pending_devices@
                == old(self).pending_devices@,
            old(self).state == VmmState::VmRunning && old(self).pending_devices@.len() > 0 ==> r
                == Ok::<Option<DeviceType>, VmmState>(Some(old(self).pending_devices@.last()))
                && final(self).pending_devices@ == old(self).pending_devices@.drop_last(),
            *final(self) == (CloudHypervisorInner {
                pending_devices: final(self).pending_devices,
                ..*old(self)
            }),
    {
        if self.state != VmmState::VmRunning {
            return Err(self.state);
        }
        Ok(self.pending_devices.pop())
    }

    /// The hypervisor's name of the device that is to be removed; nothing is to be done for a
    /// device of another type. It fails for a device that the hypervisor was not given.
    pub fn remove_device(&self, device: &DeviceType) -> (r: Result<Option<String>, DeviceError>)
        ensures
            r == removal(self.device_ids@, *device),
    {
        match device {
            DeviceType::Vfio(d) => match self.device_ids.get(d.device_id.as_str()) {
                Some(id) => Ok(Some(id.clone())),
                None => Err(DeviceError::UnknownDevice),
            },
            DeviceType::Block(d) => match self.device_ids.get(d.device_id.as_str()) {
                Some(id) => Ok(Some(id.clone())),
                None => Err(DeviceError::UnknownBlockDevice),
            },
            _ => Ok(None),
        }
    }

    /// The request that updates a device: only a mount inside a shared file system can be changed,
    /// and the device says which one.
    pub fn update_device(&self, device: &DeviceType) -> (r: Result<FsMountConfigInfo, DeviceError>)
        requires
            device matches DeviceType::ShareFs(d) ==> d.config.mount_config is Some,
        ensures
            match *device {
                DeviceType::ShareFs(d) => {
                    let m = d.config.mount_config->0;
                    r matches Ok(c) && c.ops@ == operation_name(m.op) && (c.fstype matches Some(t)
                        && t@ == mount_type_name(m.fstype)) && c.source == Some(m.source)
                        && c.mountpoint == m.mount_point && c.config == m.config && c.tag == m.tag
                        && c.prefetch_list_path == m.prefetch_list_path
                },
                _ => r == Err::<FsMountConfigInfo, DeviceError>(DeviceError::UnsupportedUpdate),
            },
    {
        match device {
            DeviceType::ShareFs(d) => match &d.config.mount_config {
                Some(m) => Ok(share_fs_mount_request(m)),
                None => Err(DeviceError::UnsupportedUpdate),
            },
            _ => Err(DeviceError::UnsupportedUpdate),
        }
    }

    /// Takes the devices that wait and turns them into what the virtual machine boots with, in the
    /// order in which they were asked for. The first device that cannot be used ends the work; it
    /// is dropped, and those asked for after it keep waiting.
    pub fn get_shared_devices(
        &mut self,
        queue_limit: usize,
    ) -> (r: Result<SharedDevices, DeviceError>)
        ensures
            final(self).pending_devices@ == drained(
                old(self).pending_devices@,
                no_devices(),
                settings_of(*old(self), queue_limit),
            ).0,
            match r {
                Ok(s) => drained(
                    old(self).pending_devices@,
                    no_devices(),
                    settings_of(*old(self), queue_limit),
                ).1 == Ok::<SharedView, DeviceError>(s@),
                Err(e) => drained(
                    old(self).pending_devices@,
                    no_devices(),
                    settings_of(*old(self), queue_limit),
                ).1 == Err::<SharedView, DeviceError>(e),
            },
            *final(self) == (CloudHypervisorInner {
                pending_devices: final(self).pending_devices,
                ..*old(self)
            }),
    {
        let ghost start = *self;
        let ghost settings = settings_of(*self, queue_limit);
        let mut s = SharedDevices {
            shared_fs_devices: Vec::new(),
            network_devices: Vec::new(),
            host_devices: Vec::new(),
            protection_device: ProtectionDevConfig { host_data: None, mrconfigid: None },
        };
        proof {
            assert(s@ =~= no_devices());
        }
        while self.pending_devices.len() > 0
            invariant
                start == *old(self),
                *self == (CloudHypervisorInner { pending_devices: self.pending_devices, ..start }),
                settings == settings_of(start, queue_limit),
                drained(self.pending_devices@, s@, settings) == drained(
                    start.pending_devices@,
                    no_devices(),
                    settings,
                ),
            decreases self.pending_devices@.len(),
        {
            let ghost before = s@;
            let ghost pending = self.pending_devices@;
            let device = match self.pending_devices.pop() {
                Some(device) => device,
                None => DeviceType::Other,
            };
            let ghost popped = device;
            assert(popped == pending.last());
            match device {
                DeviceType::ShareFs(d) => {
                    let server = match find_server(
                        d.config.fs_type.as_str(),
                        &self.config.virtio_fs_extra_args,
                        self.device_defaults.server,
                    ) {
                        Ok(server) => server,
                        Err(e) => {
                            return Err(e);
                        },
                    };
                    let fs = ShareFsSettings::new(d.config, self.vm_path.clone(), server);
                    match FsConfig::try_from(fs) {
                        Ok(c) => {
                            s.shared_fs_devices.push(c);
                            proof {
                                assert(s@.fs =~= before.fs.push(c@));
                            }
                        },
                        Err(e) => {
                            return Err(e);
                        },
                    }
                },
                DeviceType::Network(d) => {
                    match build_net(self.config.network_info, d.config, queue_limit) {
                        Ok(c) => {
                            s.network_devices.push(c);
                        },
                        Err(e) => {
                            return Err(e);
                        },
                    }
                },
                DeviceType::VhostUserNetwork(d) => {
                    match build_vhost(self.config.network_info, d, queue_limit) {
                        Ok(c) => {
                            s.network_devices.push(c);
                        },
                        Err(e) => {
                            return Err(e);
                        },
                    }
                },
                DeviceType::Vfio(d) => {
                    match build_vfio(&d) {
                        Ok(c) => {
                            s.host_devices.push(c);
                        },
                        Err(e) => {
                            return Err(e);
                        },
                    }
                },
                DeviceType::Protection(config) => {
                    match config {
                        ProtectionDeviceConfig::SevSnp { is_snp, host_data } => {
                            if is_snp {
                                s.protection_device.host_data = host_data;
                            }
                        },
                        ProtectionDeviceConfig::Tdx { mrconfigid } => {
                            s.protection_device.mrconfigid = mrconfigid;
                        },
                        ProtectionDeviceConfig::Other => {},
                    }
                },
                _ => {},
            }
            proof {
                let next = with_device(before, popped, settings);
                assert(next is Ok);
                assert(s@ =~= next->Ok_0);
            }
        }
        Ok(s)
    }
}

/// Devices are drained in the order in which they were asked for.
pub proof fn law_queue_order(pending: Seq<DeviceType>, device: DeviceType)
    ensures
        drain_order(queued(pending, device)) == drain_order(pending).push(device),
{
    assert(drain_order(queued(pending, device)) =~= drain_order(pending).push(device));
}

/// The device that was asked for last is handled last, if those before it could all be used;
/// otherwise it keeps waiting, and the error is theirs.
pub proof fn law_last_device_handled_last(
    pending: Seq<DeviceType>,
    device: DeviceType,
    devices: SharedView,
    settings: DeviceSettings,
)
    ensures
        ({
            let earlier = drained(pending, devices, settings);
            let all = drained(queued(pending, device), devices, settings);
            match earlier.1 {
                Ok(more) => all == (Seq::<DeviceType>::empty(), with_device(more, device, settings)),
                Err(e) => all == (
                    queued(earlier.0, device),
                    Err::<SharedView, DeviceError>(e),
                ),
            }
        }),
    decreases pending.len(),
{
    let all = queued(pending, device);
    if pending.len() == 0 {
        assert(all.drop_last() =~= Seq::<DeviceType>::empty());
        assert(all.last() == device);
        reveal_with_fuel(drained, 2);
        match with_device(devices, device, settings) {
            Ok(more) => {},
            Err(e) => {},
        }
    } else {
        assert(all.last() == pending.last());
        assert(all.drop_last() =~= queued(pending.drop_last(), device));
        match with_device(devices, pending.last(), settings) {
            Ok(more) => {
                law_last_device_handled_last(pending.drop_last(), device, more, settings);
            },
            Err(e) => {},
        }
    }
}

/// Where every device could be used, none is left waiting.
pub proof fn law_success_drains_all(
    pending: Seq<DeviceType>,
    devices: SharedView,
    settings: DeviceSettings,
)
    ensures
        drained(pending, devices, settings).1 is Ok ==> drained(pending, devices, settings).0.len()
            == 0,
    decreases pending.len(),
{
    if pending.len() > 0 {
        match with_device(devices, pending.last(), settings) {
            Ok(more) => {
                law_success_drains_all(pending.drop_last(), more, settings);
            },
            Err(e) => {},
        }
    }
}

/// A device that was added under the hypervisor's name `id` is removed by that name, and adding it
/// does not change how others are removed.
pub proof fn law_removal_undoes_adding(
    ids: Map<Seq<char>, String>,
    added: BlockDevice,
    id: String,
    other: DeviceType,
)
    ensures
        removal(ids.insert(added.device_id@, id), DeviceType::Block(added)) == Ok::<
            Option<String>,
            DeviceError,
        >(Some(id)),
        other matches DeviceType::Block(d) && d.device_id@ != added.device_id@ ==> removal(
            ids.insert(added.device_id@, id),
            other,
        ) == removal(ids, other),
        other matches DeviceType::Vfio(d) && d.device_id@ != added.device_id@ ==> removal(
            ids.insert(added.device_id@, id),
            other,
        ) == removal(ids, other),
{
}

/// Only addresses of the form `0000:00:DD.0` have a slot.
pub proof fn law_slot_form(bdf: Seq<char>)
    ensures
        slot_of(bdf) matches Some(slot) ==> bdf == "0000:00:"@ + slot + ".0"@,
{
    if slot_of(bdf) is Some {
        let parts = split(bdf, ':');
        let last = split(parts[2], '.');
        crate::text::law_join_undoes_split(bdf, ':');
        crate::text::law_join_undoes_split(parts[2], '.');
        reveal_strlit("0000");
        reveal_strlit("00");
        reveal_strlit("0");
        reveal_strlit("0000:00:");
        reveal_strlit(".0");
        lemma_join_two(last, seq!['.']);
        assert(parts.drop_last() =~= seq![parts[0], parts[1]]);
        lemma_join_two(parts.drop_last(), seq![':']);
        assert(bdf == parts[0] + seq![':'] + parts[1] + seq![':'] + parts[2]);
        assert(bdf =~= "0000:00:"@ + last[0] + ".0"@);
    }
}

/// Two pieces joined.
proof fn lemma_join_two(parts: Seq<Seq<char>>, sep: Seq<char>)
    requires
        parts.len() == 2,
    ensures
        crate::text::join(parts, sep) == parts[0] + sep + parts[1],
{
    assert(parts.drop_last().len() == 1);
    assert(crate::text::join(parts.drop_last(), sep) == parts[0]);
}

/// A disk has a limit for bandwidth if and only if a rate for bandwidth is set, and one for
/// operations if and only if a rate for operations is set. Each limit has the rate and the burst
/// of its own kind. Without any rate the disk has no limits at all.
pub proof fn law_each_rate_has_its_bucket(
    ch: CloudHypervisorInner,
    d: BlockDevice,
    queue_limit: usize,
    resolved: Option<String>,
    segment: u16,
    r: Result<AttachRequest, DeviceError>,
)
    requires
        call_ensures(
            CloudHypervisorInner::handle_add_device,
            (&ch, &DeviceType::Block(d), queue_limit, resolved, segment),
            r,
        ),
    ensures
        r matches Ok(AttachRequest::AddDisk(c)) && {
            let s = ch.config.blockdev_info;
            let limits = c.rate_limiter_config;
            &&& limits is None <==> s.disk_rate_limiter_bw_max_rate == 0
                && s.disk_rate_limiter_ops_max_rate == 0
            &&& limits matches Some(l) ==> {
                &&& l.bandwidth is Some <==> s.disk_rate_limiter_bw_max_rate > 0
                &&& l.bandwidth matches Some(b) ==> b.size == s.disk_rate_limiter_bw_max_rate
                    && b.one_time_burst == s.disk_rate_limiter_bw_one_time_burst && b.refill_time
                    == ch.device_defaults.refill_time
                &&& l.ops is Some <==> s.disk_rate_limiter_ops_max_rate > 0
                &&& l.ops matches Some(o) ==> o.size == s.disk_rate_limiter_ops_max_rate
                    && o.one_time_burst == s.disk_rate_limiter_ops_one_time_burst && o.refill_time
                    == ch.device_defaults.refill_time
            }
        },
{
}

/// The limit of a disk for bandwidth, if there is one.
pub open spec fn bandwidth_limit(c: DiskConfig) -> Option<TokenBucketConfig> {
    match c.rate_limiter_config {
        Some(limits) => limits.bandwidth,
        None => None,
    }
}

/// The limit of a disk for operations, if there is one.
pub open spec fn ops_limit(c: DiskConfig) -> Option<TokenBucketConfig> {
    match c.rate_limiter_config {
        Some(limits) => limits.ops,
        None => None,
    }
}

/// The limit for bandwidth does not depend on the settings for operations, nor the limit for
/// operations on the settings for bandwidth: settings that agree on one kind give the same limit of
/// that kind.
pub proof fn law_buckets_are_independent(
    one: CloudHypervisorInner,
    other: CloudHypervisorInner,
    d: BlockDevice,
    queue_limit: usize,
    resolved: Option<String>,
    segment: u16,
    r1: Result<AttachRequest, DeviceError>,
    r2: Result<AttachRequest, DeviceError>,
)
    requires
        call_ensures(
            CloudHypervisorInner::handle_add_device,
            (&one, &DeviceType::Block(d), queue_limit, resolved, segment),
            r1,
        ),
        call_ensures(
            CloudHypervisorInner::handle_add_device,
            (&other, &DeviceType::Block(d), queue_limit, resolved, segment),
            r2,
        ),
        one.device_defaults.refill_time == other.device_defaults.refill_time,
    ensures
        r1 matches Ok(AttachRequest::AddDisk(c1)) && (r2 matches Ok(AttachRequest::AddDisk(c2))
            && {
            let s1 = one.config.blockdev_info;
            let s2 = other.config.blockdev_info;
            &&& s1.disk_rate_limiter_bw_max_rate == s2.disk_rate_limiter_bw_max_rate
                && s1.disk_rate_limiter_bw_one_time_burst
                == s2.disk_rate_limiter_bw_one_time_burst ==> bandwidth_limit(c1)
                == bandwidth_limit(c2)
            &&& s1.disk_rate_limiter_ops_max_rate == s2.disk_rate_limiter_ops_max_rate
                && s1.disk_rate_limiter_ops_one_time_burst
                == s2.disk_rate_limiter_ops_one_time_burst ==> ops_limit(c1) == ops_limit(c2)
        }),
{
}

/// A disk is what the block device says: its file, whether it can only be read, and its queues. Its
/// cache is passed by if the device says so, or where it says nothing if the settings do.
pub proof fn law_disk_is_the_block_device(
    ch: CloudHypervisorInner,
    d: BlockDevice,
    queue_limit: usize,
    resolved: Option<String>,
    segment: u16,
    r: Result<AttachRequest, DeviceError>,
)
    requires
        call_ensures(
            CloudHypervisorInner::handle_add_device,
            (&ch, &DeviceType::Block(d), queue_limit, resolved, segment),
            r,
        ),
    ensures
        r matches Ok(AttachRequest::AddDisk(c)) && {
            &&& c.path == Some(d.config.path_on_host)
            &&& c.readonly == d.config.is_readonly
            &&& d.config.is_direct matches Some(direct) ==> c.direct == direct
            &&& d.config.is_direct is None ==> c.direct
                == ch.config.blockdev_info.block_device_cache_direct
            &&& c.num_queues == d.config.num_queues
            &&& c.queue_size == d.config.queue_size as u16
            &&& c.image_type == crate::ch::types::ImageType::Raw
            &&& !c.vhost_user && !c.disable_io_uring && !c.disable_aio && !c.backing_files
                && !c.sparse
            &&& c.pci_common.id is None && !c.pci_common.iommu && c.pci_common.pci_segment == 0
        },
{
}

/// A network device needs an address and fails without one. It is bound to the interface of the
/// host and goes by the name of the one in the guest; it has no more queues than the limit, and it
/// offloads what the settings do not switch off.
pub proof fn law_net_is_the_network_device(
    ch: CloudHypervisorInner,
    d: crate::ch::types::NetworkDevice,
    queue_limit: usize,
    resolved: Option<String>,
    segment: u16,
    r: Result<AttachRequest, DeviceError>,
)
    requires
        call_ensures(
            CloudHypervisorInner::handle_add_device,
            (&ch, &DeviceType::Network(d), queue_limit, resolved, segment),
            r,
        ),
    ensures
        r is Ok <==> d.config.guest_mac is Some,
        r matches Err(e) ==> e == DeviceError::MissingMac,
        r matches Ok(a) ==> (a matches AttachRequest::AddNet(c) && {
            &&& is_tap_net(c, d.config, queue_limit)
            &&& offloads(c, ch.config.network_info)
        }),
{
}

/// Whether `c` is a network device of the host: it has the interface of the host and the address
/// and name that the guest sees, no more queues than the limit, and nothing else.
pub open spec fn is_tap_net(c: NetConfig, cfg: NetworkConfig, queue_limit: usize) -> bool {
    &&& c.tap == Some(cfg.host_dev_name)
    &&& cfg.guest_mac matches Some(mac) && c.mac.bytes == mac.0
    &&& c.pci_common.id == Some(cfg.virt_iface_name)
    &&& !c.pci_common.iommu && c.pci_common.pci_segment == 0
    &&& c.num_queues <= queue_limit && c.num_queues <= cfg.queue_num
    &&& c.num_queues == queue_limit || c.num_queues == cfg.queue_num
    &&& c.queue_size == cfg.queue_size as u16
    &&& c.ip is None && c.mask is None && c.host_mac is None && c.mtu is None
    &&& !c.vhost_user && c.vhost_socket is None && c.rate_limiter_config is None
    &&& c.vhost_mode == crate::ch::types::VhostMode::Client
}

/// Whether `c` is a network device of another process: it has the process's socket, where the
/// hypervisor listens, the device's address and name, no more queues than the limit, and nothing
/// else.
pub open spec fn is_vhost_net(c: NetConfig, d: VhostUserNetDevice, queue_limit: usize) -> bool {
    &&& c.vhost_user && c.vhost_socket == Some(d.config.socket_path)
    &&& c.vhost_mode == crate::ch::types::VhostMode::Server
    &&& c.mac == d.config.mac_address
    &&& c.pci_common.id == Some(d.device_id)
    &&& !c.pci_common.iommu && c.pci_common.pci_segment == 0
    &&& c.num_queues <= queue_limit && c.num_queues <= d.config.num_queues
    &&& c.num_queues == queue_limit || c.num_queues == d.config.num_queues
    &&& c.queue_size == d.config.queue_size as u16
    &&& c.tap is None && c.ip is None && c.mask is None && c.host_mac is None && c.mtu is None
    &&& c.rate_limiter_config is None
}

/// Whether `c` offloads what the settings do not switch off, each kind by its own setting.
pub open spec fn offloads(c: NetConfig, info: NetworkConfigInfo) -> bool {
    &&& c.offload_csum != info.disable_offload_csum
    &&& c.offload_tso != info.disable_offload_tso
    &&& c.offload_ufo != info.disable_offload_ufo
}

/// A network device in another process is always accepted: the hypervisor listens on its socket. It
/// has no more queues than the limit, and it offloads what the settings do not switch off.
pub proof fn law_net_is_the_other_process(
    ch: CloudHypervisorInner,
    d: VhostUserNetDevice,
    queue_limit: usize,
    resolved: Option<String>,
    segment: u16,
    r: Result<AttachRequest, DeviceError>,
)
    requires
        call_ensures(
            CloudHypervisorInner::handle_add_device,
            (&ch, &DeviceType::VhostUserNetwork(d), queue_limit, resolved, segment),
            r,
        ),
    ensures
        r matches Ok(AttachRequest::AddNet(c)) && is_vhost_net(c, d, queue_limit) && offloads(
            c,
            ch.config.network_info,
        ),
{
}

/// An assigned device is attached by its first function and fails if it has none.
pub proof fn law_first_function_is_assigned(
    ch: CloudHypervisorInner,
    d: VfioDevice,
    queue_limit: usize,
    resolved: Option<String>,
    segment: u16,
    r: Result<AttachRequest, DeviceError>,
)
    requires
        call_ensures(
            CloudHypervisorInner::handle_add_device,
            (&ch, &DeviceType::Vfio(d), queue_limit, resolved, segment),
            r,
        ),
    ensures
        r is Ok <==> d.devices@.len() > 0,
        r matches Err(e) ==> e == DeviceError::NoPrimaryDevice,
        r matches Ok(a) ==> (a matches AttachRequest::AddDevice(c) && {
            &&& c.path == d.devices@[0].sysfs_path
            &&& c.pci_common.id is None && !c.pci_common.iommu && c.pci_common.pci_segment == 0
        }),
{
}

/// A socket is attached under its number and with its file; protection and devices of any other
/// type cannot be attached to a machine that runs.
pub proof fn law_vsock_or_unhandled(
    ch: CloudHypervisorInner,
    device: DeviceType,
    queue_limit: usize,
    resolved: Option<String>,
    segment: u16,
    r: Result<AttachRequest, DeviceError>,
)
    requires
        call_ensures(
            CloudHypervisorInner::handle_add_device,
            (&ch, &device, queue_limit, resolved, segment),
            r,
        ),
    ensures
        device matches DeviceType::HybridVsock(d) ==> (r matches Ok(AttachRequest::AddVsock(c)) && {
            &&& c.cid == d.guest_cid
            &&& c.socket == d.uds_path
            &&& c.pci_common.id is None && !c.pci_common.iommu && c.pci_common.pci_segment == 0
        }),
        device is Protection || device is Other <==> r == Err::<AttachRequest, DeviceError>(
            DeviceError::Unhandled,
        ),
{
    if let DeviceType::ShareFs(d) = device {
        let args = texts(ch.config.virtio_fs_extra_args@);
        assert(server_of(d.config.fs_type@, args, ch.device_defaults.server) != Err::<
            Option<BackendFsConfig>,
            DeviceError,
        >(DeviceError::Unhandled));
    }
}

/// A shared file system must be served by a process of its own or by the hypervisor. Its own
/// process has a socket: the one given, if that is absolute, and otherwise the resolved one, without
/// which it fails. The hypervisor's server has none, and is what its arguments ask for.
pub proof fn law_fs_is_the_shared_fs(
    ch: CloudHypervisorInner,
    d: crate::ch::types::ShareFsDevice,
    queue_limit: usize,
    resolved: Option<String>,
    segment: u16,
    r: Result<AttachRequest, DeviceError>,
    served: Result<BackendFsConfig, DeviceError>,
)
    requires
        call_ensures(
            CloudHypervisorInner::handle_add_device,
            (&ch, &DeviceType::ShareFs(d), queue_limit, resolved, segment),
            r,
        ),
        call_ensures(
            parse_inline_virtiofs_args,
            (&ch.config.virtio_fs_extra_args, ch.device_defaults.server),
            served,
        ),
    ensures
        ({
            let own = d.config.fs_type@ == "virtio-fs"@;
            let inline = d.config.fs_type@ == "inline-virtio-fs"@;
            let absolute = d.config.sock_path@.len() > 0 && d.config.sock_path@[0] == '/';
            let lost = own && !absolute && resolved is None;
            let odd = d.config.queue_num > 0 && d.config.queue_size > 0xffff;
            &&& lost <==> r == Err::<AttachRequest, DeviceError>(DeviceError::SocketPath)
            &&& !own && !inline <==> r == Err::<AttachRequest, DeviceError>(
                DeviceError::UnsupportedSharedFs,
            )
            &&& r == Err::<AttachRequest, DeviceError>(DeviceError::InvalidServerArgs) ==> inline
            &&& r == Err::<AttachRequest, DeviceError>(DeviceError::QueueSize) ==> odd
            &&& own && odd && !lost ==> r == Err::<AttachRequest, DeviceError>(
                DeviceError::QueueSize,
            )
            &&& own && !lost && !odd ==> r is Ok
            &&& inline ==> (served matches Err(e) ==> r == Err::<AttachRequest, DeviceError>(e))
            &&& inline && served is Ok ==> (r is Ok <==> !odd)
            &&& r matches Ok(a) ==> (a matches AttachRequest::AddFs(c) && {
                &&& !odd
                &&& c.tag@ == d.config.mount_tag@
                &&& own ==> c.backendfs_config is None
                &&& own && absolute ==> c.socket@ == d.config.sock_path@
                &&& own && !absolute ==> (resolved matches Some(path) && c.socket@ == path@)
                &&& inline ==> c.socket@.len() == 0 && c.backendfs_config == served.ok()
                &&& is_queued_as(c, d.config)
                &&& c.pci_common.id is None && !c.pci_common.iommu
                &&& c.pci_common.pci_segment == segment
            })
        }),
{
    reveal_strlit("virtio-fs");
    reveal_strlit("inline-virtio-fs");
    assert("virtio-fs"@.len() != "inline-virtio-fs"@.len());
}

/// Whether a shared file system has the queues that it asks for, or one of the usual size where it
/// asks for none.
pub open spec fn is_queued_as(c: FsConfig, cfg: ShareFsConfig) -> bool {
    &&& cfg.queue_num == 0 ==> c.num_queues == 1 && c.queue_size == 1024
    &&& cfg.queue_num > 0 ==> c.queue_size == cfg.queue_size
    &&& cfg.queue_num > 0 ==> c.num_queues == cfg.queue_num as usize
}

/// While the machine does not run, shared file systems, network devices of either kind, assigned
/// devices and protection wait, behind what waits already; a disk, a socket or anything else does
/// not. Once it runs, everything is attached and nothing waits.
pub proof fn law_devices_wait_for_boot(
    ch: &mut CloudHypervisorInner,
    device: DeviceType,
    r: AddDevice,
)
    requires
        call_ensures(CloudHypervisorInner::add_device, (ch, device), r),
    ensures
        old(ch).state == VmmState::VmRunning <==> r is Attach,
        r matches AddDevice::Attach(d) ==> d == device,
        r matches AddDevice::Ignored(d) ==> d == device,
        old(ch).state != VmmState::VmRunning ==> (r is Ignored <==> device is Block
            || device is HybridVsock || device is Other),
        !(r is Queued) ==> *final(ch) == *old(ch),
        r is Queued ==> final(ch).pending_devices@.len() == old(ch).pending_devices@.len() + 1
            && final(ch).pending_devices@[0] == device && final(ch).pending_devices@.skip(1)
            == old(ch).pending_devices@,
        *final(ch) == (CloudHypervisorInner {
            pending_devices: final(ch).pending_devices,
            ..*old(ch)
        }),
{
}

/// A device that is asked for while the machine does not run and no other waits comes next once it
/// runs. Until it runs, no device comes, and the error is the state.
pub proof fn law_only_waiting_device_comes_next(
    ch: &mut CloudHypervisorInner,
    r: Result<Option<DeviceType>, VmmState>,
)
    requires
        call_ensures(CloudHypervisorInner::next_pending_device, (ch,), r),
    ensures
        r is Ok <==> old(ch).state == VmmState::VmRunning,
        r matches Err(state) ==> state == old(ch).state && *final(ch) == *old(ch),
        r matches Ok(None) ==> old(ch).pending_devices@.len() == 0 && final(ch).pending_devices@
            == old(ch).pending_devices@,
        r matches Ok(Some(device)) ==> old(ch).pending_devices@ == final(ch).pending_devices@.push(
            device,
        ),
        *final(ch) == (CloudHypervisorInner {
            pending_devices: final(ch).pending_devices,
            ..*old(ch)
        }),
{
    assert(old(ch).pending_devices@.len() > 0 ==> old(ch).pending_devices@.drop_last().push(
        old(ch).pending_devices@.last(),
    ) =~= old(ch).pending_devices@);
}

/// The answer to a request for an assigned device is kept under the device's name, also where its
/// address is not as expected, and the place in it becomes that of the first function. Without an
/// answer nothing changes.
pub proof fn law_assigned_device_is_recorded(
    ch: &mut CloudHypervisorInner,
    device: VfioDevice,
    answer: Option<DeviceAnswer>,
    r: Result<VfioDevice, DeviceError>,
)
    requires
        device.devices@.len() > 0,
        call_ensures(CloudHypervisorInner::vfio_device_added, (ch, device, answer), r),
    ensures
        answer is None ==> r == Ok::<VfioDevice, DeviceError>(device) && *final(ch) == *old(ch),
        answer matches Some(a) ==> {
            &&& final(ch).device_ids@.dom().contains(device.device_id@)
            &&& final(ch).device_ids@[device.device_id@] == a.info.id
            &&& final(ch).device_ids@.remove(device.device_id@) == old(ch).device_ids@.remove(
                device.device_id@,
            )
            &&& r is Ok <==> slot_of(a.info.bdf@) is Some && a.path is Some
            &&& r matches Ok(d) ==> {
                &&& d.device_id == device.device_id
                &&& d.devices@.len() == device.devices@.len()
                &&& d.devices@[0].guest_pci_path == a.path
                &&& d.devices@[0].sysfs_path == device.devices@[0].sysfs_path
                &&& forall|i: int|
                    0 < i < d.devices@.len() ==> #[trigger] d.devices@[i] == device.devices@[i]
            }
            &&& r matches Err(e) ==> e == (if slot_of(a.info.bdf@) is None {
                DeviceError::UnexpectedPciAddress
            } else {
                DeviceError::InvalidPciPath
            })
        },
        *final(ch) == (CloudHypervisorInner { device_ids: final(ch).device_ids, ..*old(ch) }),
{
    if let Some(a) = answer {
        assert(final(ch).device_ids@.remove(device.device_id@) =~= old(ch).device_ids@.remove(
            device.device_id@,
        ));
    }
}

/// The answer to a request for a block device is kept under the device's name, also where its
/// address is not as expected, and the place in it becomes the device's. A device for the upper
/// layers of overlays is kept as it is given back, with its place; any other leaves the one that is
/// kept alone.
pub proof fn law_block_device_is_recorded(
    ch: &mut CloudHypervisorInner,
    device: BlockDevice,
    answer: Option<DeviceAnswer>,
    r: Result<BlockDevice, DeviceError>,
)
    requires
        call_ensures(CloudHypervisorInner::block_device_added, (ch, device, answer), r),
    ensures
        answer is None ==> r == Ok::<BlockDevice, DeviceError>(device) && final(ch).device_ids
            == old(ch).device_ids,
        answer matches Some(a) ==> {
            &&& final(ch).device_ids@.dom().contains(device.device_id@)
            &&& final(ch).device_ids@[device.device_id@] == a.info.id
            &&& final(ch).device_ids@.remove(device.device_id@) == old(ch).device_ids@.remove(
                device.device_id@,
            )
            &&& r is Ok <==> slot_of(a.info.bdf@) is Some && a.path is Some
            &&& r matches Ok(d) ==> d.config.pci_path == a.path
            &&& r matches Err(e) ==> e == (if slot_of(a.info.bdf@) is None {
                DeviceError::UnexpectedPciAddress
            } else {
                DeviceError::InvalidPciPath
            })
        },
        r matches Ok(d) ==> d.device_id == device.device_id && d.config == (BlockConfig {
            pci_path: d.config.pci_path,
            ..device.config
        }),
        device.config.is_overlayfs && r is Ok ==> final(ch).overlayfs_block_device == r.ok(),
        !device.config.is_overlayfs || r is Err ==> final(ch).overlayfs_block_device == old(ch).overlayfs_block_device,
        *final(ch) == (CloudHypervisorInner {
            device_ids: final(ch).device_ids,
            overlayfs_block_device: final(ch).overlayfs_block_device,
            ..*old(ch)
        }),
{
    if let Some(a) = answer {
        assert(final(ch).device_ids@.remove(device.device_id@) =~= old(ch).device_ids@.remove(
            device.device_id@,
        ));
    }
}

/// A block device or an assigned device is removed by the name that the hypervisor gave it, and an
/// unknown one is an error of its kind. For any other device nothing is to be done.
pub proof fn law_removal_needs_known_device(
    ch: CloudHypervisorInner,
    device: DeviceType,
    r: Result<Option<String>, DeviceError>,
)
    requires
        call_ensures(CloudHypervisorInner::remove_device, (&ch, &device), r),
    ensures
        device matches DeviceType::Block(d) ==> {
            let known = ch.device_ids@.dom().contains(d.device_id@);
            &&& known ==> r == Ok::<Option<String>, DeviceError>(
                Some(ch.device_ids@[d.device_id@]),
            )
            &&& !known ==> r == Err::<Option<String>, DeviceError>(DeviceError::UnknownBlockDevice)
        },
        device matches DeviceType::Vfio(d) ==> {
            let known = ch.device_ids@.dom().contains(d.device_id@);
            &&& known ==> r == Ok::<Option<String>, DeviceError>(
                Some(ch.device_ids@[d.device_id@]),
            )
            &&& !known ==> r == Err::<Option<String>, DeviceError>(DeviceError::UnknownDevice)
        },
        !(device is Block) && !(device is Vfio) ==> r == Ok::<Option<String>, DeviceError>(None),
{
}

/// A block device that the hypervisor has answered for is removed by the name in the answer.
pub proof fn law_added_block_device_is_removed(
    ch: &mut CloudHypervisorInner,
    device: BlockDevice,
    answer: DeviceAnswer,
    r: Result<BlockDevice, DeviceError>,
    after: CloudHypervisorInner,
    removed: Result<Option<String>, DeviceError>,
)
    requires
        call_ensures(CloudHypervisorInner::block_device_added, (ch, device, Some(answer)), r),
        after == *final(ch),
        call_ensures(
            CloudHypervisorInner::remove_device,
            (&after, &DeviceType::Block(device)),
            removed,
        ),
    ensures
        removed == Ok::<Option<String>, DeviceError>(Some(answer.info.id)),
{
}

/// Only a mount inside a shared file system can be changed, and what is asked for is what the mount
/// says, under the hypervisor's words for the operation and the type.
pub proof fn law_only_mounts_are_updated(
    ch: CloudHypervisorInner,
    device: DeviceType,
    r: Result<FsMountConfigInfo, DeviceError>,
)
    requires
        device matches DeviceType::ShareFs(d) ==> d.config.mount_config is Some,
        call_ensures(CloudHypervisorInner::update_device, (&ch, &device), r),
    ensures
        r is Ok <==> device is ShareFs,
        r matches Err(e) ==> e == DeviceError::UnsupportedUpdate,
        r matches Ok(c) ==> (device matches DeviceType::ShareFs(d) && (
        d.config.mount_config matches Some(m) && is_mount_request(c, m))),
{
}

/// Whether `c` asks for the mount `m`.
pub open spec fn is_mount_request(c: FsMountConfigInfo, m: ShareFsMountConfig) -> bool {
    &&& m.op == ShareFsMountOperation::Mount ==> c.ops@ == "mount"@
    &&& m.op == ShareFsMountOperation::Umount ==> c.ops@ == "umount"@
    &&& m.op == ShareFsMountOperation::Update ==> c.ops@ == "update"@
    &&& c.fstype matches Some(t) && (m.fstype == ShareFsMountType::PASSTHROUGH ==> t@
        == "passthroughfs"@) && (m.fstype == ShareFsMountType::RAFS ==> t@ == "rafs"@)
    &&& c.source == Some(m.source)
    &&& c.mountpoint == m.mount_point
    &&& c.config == m.config
    &&& c.tag == m.tag
    &&& c.prefetch_list_path == m.prefetch_list_path
}

/// What is asked for is what the mount says.
pub proof fn law_mount_request_is_the_mount(config: ShareFsMountConfig, r: FsMountConfigInfo)
    requires
        call_ensures(share_fs_mount_request, (&config,), r),
    ensures
        is_mount_request(r, config),
{
}

/// A network device that waits, as the hypervisor takes it.
pub open spec fn is_waiting_net(
    c: NetConfig,
    device: DeviceType,
    ch: CloudHypervisorInner,
    queue_limit: usize,
) -> bool {
    &&& offloads(c, ch.config.network_info)
    &&& match device {
        DeviceType::Network(d) => is_tap_net(c, d.config, queue_limit),
        DeviceType::VhostUserNetwork(d) => is_vhost_net(c, d, queue_limit),
        _ => false,
    }
}

/// Where all devices that wait can be used, there are as many shared file systems, network devices
/// and assigned devices as wait, and none is left waiting. Nothing else of the machine changes.
pub proof fn law_every_waiting_device_boots(
    ch: &mut CloudHypervisorInner,
    queue_limit: usize,
    r: Result<SharedDevices, DeviceError>,
)
    requires
        call_ensures(CloudHypervisorInner::get_shared_devices, (ch, queue_limit), r),
    ensures
        r matches Ok(s) ==> {
            let pending = old(ch).pending_devices@;
            &&& final(ch).pending_devices@.len() == 0
            &&& s.shared_fs_devices@.len() == pending.filter(|d: DeviceType| d is ShareFs).len()
            &&& s.network_devices@.len() == pending.filter(
                |d: DeviceType| d is Network || d is VhostUserNetwork,
            ).len()
            &&& s.host_devices@.len() == pending.filter(|d: DeviceType| d is Vfio).len()
        },
        old(ch).pending_devices@.len() == 0 ==> (r matches Ok(s) && s.protection_device.host_data
            is None && s.protection_device.mrconfigid is None),
        *final(ch) == (CloudHypervisorInner {
            pending_devices: final(ch).pending_devices,
            ..*old(ch)
        }),
{
    let pending = old(ch).pending_devices@;
    let settings = settings_of(*old(ch), queue_limit);
    lemma_drained_counts(pending, no_devices(), settings);
    law_success_drains_all(pending, no_devices(), settings);
    if let Ok(s) = r {
        assert(s@.fs.len() == s.shared_fs_devices@.len());
    }
}

/// The device that was asked for first is handled first: it comes first among its kind, or its
/// error ends the work and all others keep waiting. A network device fails without an address, and
/// an assigned device without a function.
pub proof fn law_first_waiting_device_is_first(
    ch: &mut CloudHypervisorInner,
    queue_limit: usize,
    r: Result<SharedDevices, DeviceError>,
    device: DeviceType,
    served: Result<BackendFsConfig, DeviceError>,
)
    requires
        call_ensures(CloudHypervisorInner::get_shared_devices, (ch, queue_limit), r),
        call_ensures(
            parse_inline_virtiofs_args,
            (&old(ch).config.virtio_fs_extra_args, old(ch).device_defaults.server),
            served,
        ),
        old(ch).pending_devices@.len() > 0,
        device == old(ch).pending_devices@.last(),
    ensures
        device is Network || device is VhostUserNetwork ==> (r matches Ok(s)
            ==> s.network_devices@.len() > 0 && is_waiting_net(
            s.network_devices@[0],
            device,
            *old(ch),
            queue_limit,
        )),
        device matches DeviceType::Network(d) ==> (d.config.guest_mac is None ==> r == Err::<
            SharedDevices,
            DeviceError,
        >(DeviceError::MissingMac) && final(ch).pending_devices@ == old(ch).pending_devices@.drop_last()),
        device matches DeviceType::Vfio(d) ==> {
            &&& d.devices@.len() == 0 ==> r == Err::<SharedDevices, DeviceError>(
                DeviceError::NoPrimaryDevice,
            ) && final(ch).pending_devices@ == old(ch).pending_devices@.drop_last()
            &&& r matches Ok(s) ==> s.host_devices@.len() > 0 && s.host_devices@[0].path
                == d.devices@[0].sysfs_path && s.host_devices@[0].pci_common == plain_pci()
        },
        device matches DeviceType::ShareFs(d) ==> (r matches Ok(s) ==> s.shared_fs_devices@.len()
            > 0 && is_boot_fs(s.shared_fs_devices@[0], d.config, old(ch).vm_path@) && (
        d.config.fs_type@ == "inline-virtio-fs"@ ==> s.shared_fs_devices@[0].backendfs_config
            == served.ok())),
        device matches DeviceType::ShareFs(d) ==> (d.config.fs_type@ != "virtio-fs"@
            && d.config.fs_type@ != "inline-virtio-fs"@ ==> r == Err::<SharedDevices, DeviceError>(
            DeviceError::UnsupportedSharedFs,
        )),
{
    let pending = old(ch).pending_devices@;
    let settings = settings_of(*old(ch), queue_limit);
    reveal_strlit("virtio-fs");
    reveal_strlit("inline-virtio-fs");
    assert("virtio-fs"@.len() != "inline-virtio-fs"@.len());
    match with_device(no_devices(), device, settings) {
        Ok(more) => {
            lemma_drained_keeps(pending.drop_last(), more, settings);
            if let Ok(s) = r {
                assert(s@.fs.len() == s.shared_fs_devices@.len());
                if device is ShareFs {
                    assert(s@.fs[0] == more.fs[0]);
                    assert(s@.fs[0] == s.shared_fs_devices@[0]@);
                }
                if device is Vfio {
                    assert(s@.host[0] == more.host[0]);
                }
                if device is Network || device is VhostUserNetwork {
                    assert(s@.net[0] == more.net[0]);
                }
            }
        },
        Err(e) => {},
    }
}

/// Whether `c` is the shared file system that a machine boots with: under its tag, with its queues,
/// and with a socket below the machine's directory where it has a server of its own.
pub open spec fn is_boot_fs(c: FsConfig, cfg: ShareFsConfig, vm_path: Seq<char>) -> bool {
    &&& c.tag@ == cfg.mount_tag@
    &&& is_queued_as(c, cfg)
    &&& cfg.fs_type@ == "virtio-fs"@ ==> c.backendfs_config is None && c.socket@
        == crate::path::path_join(vm_path, cfg.sock_path@)
    &&& cfg.fs_type@ == "inline-virtio-fs"@ ==> c.backendfs_config is Some && c.socket@.len() == 0
    &&& c.pci_common.id is None && !c.pci_common.iommu && c.pci_common.pci_segment == 0
}

/// The protection that was asked for last is the one that the machine boots with, each kind by
/// itself: the host's data only for SEV-SNP, and the measurement for TDX.
pub proof fn law_last_protection_counts(
    ch: &mut CloudHypervisorInner,
    queue_limit: usize,
    s: SharedDevices,
)
    requires
        call_ensures(
            CloudHypervisorInner::get_shared_devices,
            (ch, queue_limit),
            Ok::<SharedDevices, DeviceError>(s),
        ),
        old(ch).pending_devices@.len() > 0,
    ensures
        old(ch).pending_devices@[0] matches DeviceType::Protection(ProtectionDeviceConfig::Tdx {
            mrconfigid,
        }) ==> s.protection_device.mrconfigid == mrconfigid,
        old(ch).pending_devices@[0] matches DeviceType::Protection(ProtectionDeviceConfig::SevSnp {
            is_snp,
            host_data,
        }) ==> (is_snp ==> s.protection_device.host_data == host_data),
        (forall|i: int|
            0 <= i < old(ch).pending_devices@.len() ==> !((#[trigger] old(ch).pending_devices@[i]) is Protection)) ==> s.protection_device.host_data is None
            && s.protection_device.mrconfigid is None,
{
    let pending = old(ch).pending_devices@;
    let settings = settings_of(*old(ch), queue_limit);
    let rest = pending.skip(1);
    assert(queued(rest, pending[0]) =~= pending);
    law_last_device_handled_last(rest, pending[0], no_devices(), settings);
    if forall|i: int| 0 <= i < pending.len() ==> !((#[trigger] pending[i]) is Protection) {
        lemma_drained_protection(pending, no_devices(), settings);
    }
}

/// Each device goes to the end of the list of its kind, and the other lists stay as they are.
pub proof fn law_device_goes_to_its_own_list(
    devices: SharedView,
    device: DeviceType,
    settings: DeviceSettings,
)
    ensures
        with_device(devices, device, settings) matches Ok(more) ==> {
            &&& device is ShareFs ==> more.fs.len() == devices.fs.len() + 1 && more.fs.drop_last()
                == devices.fs
            &&& !(device is ShareFs) ==> more.fs == devices.fs
            &&& device is Network || device is VhostUserNetwork ==> more.net.len()
                == devices.net.len() + 1 && more.net.drop_last() == devices.net && offloads(
                more.net.last(),
                settings.network_info,
            )
            &&& device matches DeviceType::Network(d) ==> is_tap_net(
                more.net.last(),
                d.config,
                settings.queue_limit,
            )
            &&& device matches DeviceType::VhostUserNetwork(d) ==> is_vhost_net(
                more.net.last(),
                d,
                settings.queue_limit,
            )
            &&& !(device is Network || device is VhostUserNetwork) ==> more.net == devices.net
            &&& device is Vfio ==> more.host.len() == devices.host.len() + 1
                && more.host.drop_last() == devices.host
            &&& device matches DeviceType::Vfio(d) ==> more.host.last().path
                == d.devices@[0].sysfs_path && more.host.last().pci_common == plain_pci()
            &&& device matches DeviceType::ShareFs(d) ==> more.fs.last().tag == d.config.mount_tag@
            &&& !(device is Vfio) ==> more.host == devices.host
            &&& !(device is Protection) ==> more.protection == devices.protection
        },
{
    if let Ok(more) = with_device(devices, device, settings) {
        assert(device is ShareFs ==> more.fs.drop_last() =~= devices.fs);
        assert(device is Vfio ==> more.host.drop_last() =~= devices.host);
        assert(device is Network || device is VhostUserNetwork ==> more.net.drop_last()
            =~= devices.net);
    }
}

/// What is there already stays where it is.
proof fn lemma_drained_keeps(
    pending: Seq<DeviceType>,
    devices: SharedView,
    settings: DeviceSettings,
)
    ensures
        drained(pending, devices, settings).1 matches Ok(v) ==> {
            &&& v.fs.len() >= devices.fs.len()
            &&& forall|i: int| 0 <= i < devices.fs.len() ==> v.fs[i] == #[trigger] devices.fs[i]
            &&& v.net.len() >= devices.net.len()
            &&& forall|i: int| 0 <= i < devices.net.len() ==> v.net[i] == #[trigger] devices.net[i]
            &&& v.host.len() >= devices.host.len()
            &&& forall|i: int|
                0 <= i < devices.host.len() ==> v.host[i] == #[trigger] devices.host[i]
        },
    decreases pending.len(),
{
    if pending.len() > 0 {
        match with_device(devices, pending.last(), settings) {
            Ok(more) => {
                lemma_drained_keeps(pending.drop_last(), more, settings);
                if let Ok(v) = drained(pending, devices, settings).1 {
                    assert forall|i: int| 0 <= i < devices.fs.len() implies v.fs[i]
                        == #[trigger] devices.fs[i] by {
                        assert(more.fs[i] == devices.fs[i]);
                    }
                    assert forall|i: int| 0 <= i < devices.net.len() implies v.net[i]
                        == #[trigger] devices.net[i] by {
                        assert(more.net[i] == devices.net[i]);
                    }
                    assert forall|i: int| 0 <= i < devices.host.len() implies v.host[i]
                        == #[trigger] devices.host[i] by {
                        assert(more.host[i] == devices.host[i]);
                    }
                }
            },
            Err(e) => {},
        }
    }
}

/// One device of a kind is counted where it is the last.
proof fn lemma_filter_last(pending: Seq<DeviceType>, kind: spec_fn(DeviceType) -> bool)
    requires
        pending.len() > 0,
    ensures
        pending.filter(kind).len() == pending.drop_last().filter(kind).len() + (if kind(
            pending.last(),
        ) {
            1int
        } else {
            0
        }),
{
    reveal(Seq::filter);
}

/// There are as many devices of each kind as wait, on top of what is there already.
proof fn lemma_drained_counts(
    pending: Seq<DeviceType>,
    devices: SharedView,
    settings: DeviceSettings,
)
    ensures
        drained(pending, devices, settings).1 matches Ok(v) ==> {
            &&& v.fs.len() == devices.fs.len() + pending.filter(
                |d: DeviceType| d is ShareFs,
            ).len()
            &&& v.net.len() == devices.net.len() + pending.filter(
                |d: DeviceType| d is Network || d is VhostUserNetwork,
            ).len()
            &&& v.host.len() == devices.host.len() + pending.filter(
                |d: DeviceType| d is Vfio,
            ).len()
        },
    decreases pending.len(),
{
    if pending.len() == 0 {
        reveal(Seq::filter);
    } else {
        lemma_filter_last(pending, |d: DeviceType| d is ShareFs);
        lemma_filter_last(pending, |d: DeviceType| d is Network || d is VhostUserNetwork);
        lemma_filter_last(pending, |d: DeviceType| d is Vfio);
        match with_device(devices, pending.last(), settings) {
            Ok(more) => {
                lemma_drained_counts(pending.drop_last(), more, settings);
            },
            Err(e) => {},
        }
    }
}

/// Where no protection waits, it stays as it is.
proof fn lemma_drained_protection(
    pending: Seq<DeviceType>,
    devices: SharedView,
    settings: DeviceSettings,
)
    requires
        forall|i: int| 0 <= i < pending.len() ==> !((#[trigger] pending[i]) is Protection),
    ensures
        drained(pending, devices, settings).1 matches Ok(v) ==> v.protection == devices.protection,
    decreases pending.len(),
{
    if pending.len() > 0 {
        assert(!(pending[pending.len() - 1] is Protection));
        match with_device(devices, pending.last(), settings) {
            Ok(more) => {
                let rest = pending.drop_last();
                assert forall|i: int| 0 <= i < rest.len() implies !((
                #[trigger] rest[i]) is Protection) by {
                    assert(rest[i] == pending[i]);
                }
                lemma_drained_protection(rest, more, settings);
            },
            Err(e) => {},
        }
    }
}

/// An address has a slot, and the slot is given, if and only if the address is of the form
/// `0000:00:DD.0` with a slot of two bytes in which neither separator occurs.
pub proof fn law_slot_is_found(bdf: &str, r: Result<String, DeviceError>)
    requires
        call_ensures(clh_pci_slot, (bdf,), r),
    ensures
        r matches Ok(slot) ==> bdf@ == "0000:00:"@ + slot@ + ".0"@ && vstd::utf8::encode_utf8(
            slot@,
        ).len() == 2,
        r matches Err(e) ==> e == DeviceError::UnexpectedPciAddress,
        r is Err ==> forall|slot: Seq<char>|
            #![trigger vstd::utf8::encode_utf8(slot)]
            vstd::utf8::encode_utf8(slot).len() == 2 && !slot.contains(':') && !slot.contains('.')
                ==> bdf@ != "0000:00:"@ + slot + ".0"@,
{
    law_slot_form(bdf@);
    if r is Err {
        assert forall|slot: Seq<char>|
            #![trigger vstd::utf8::encode_utf8(slot)]
            vstd::utf8::encode_utf8(slot).len() == 2 && !slot.contains(':') && !slot.contains('.')
                implies bdf@ != "0000:00:"@ + slot + ".0"@ by {
            if bdf@ == "0000:00:"@ + slot + ".0"@ {
                lemma_slot_of_form(slot);
            }
        }
    }
}

/// An address of the expected form has its slot.
proof fn lemma_slot_of_form(slot: Seq<char>)
    requires
        vstd::utf8::encode_utf8(slot).len() == 2,
        !slot.contains(':'),
        !slot.contains('.'),
    ensures
        slot_of("0000:00:"@ + slot + ".0"@) == Some(slot),
{
    reveal_strlit("0000");
    reveal_strlit("00");
    reveal_strlit("0");
    reveal_strlit("0000:00:");
    reveal_strlit(".0");
    let bdf = "0000:00:"@ + slot + ".0"@;
    let tail = slot + ".0"@;
    let head = "0000"@ + seq![':'] + "00"@;
    assert(!tail.contains(':')) by {
        if tail.contains(':') {
            let i = choose|i: int| 0 <= i < tail.len() && tail[i] == ':';
            assert(i < slot.len());
            assert(slot[i] == ':');
        }
    }
    assert(bdf =~= head + seq![':'] + tail);
    assert(!"0000"@.contains(':'));
    assert(!"00"@.contains(':'));
    assert(!"0"@.contains('.'));
    crate::text::law_split_whole("0000"@, ':');
    crate::text::law_split_append("0000"@, "00"@, ':');
    crate::text::law_split_append(head, tail, ':');
    assert(tail =~= slot + seq!['.'] + "0"@);
    crate::text::law_split_whole(slot, '.');
    crate::text::law_split_append(slot, "0"@, '.');
}

/// Whether a device that waits can be used when the machine boots: a network device needs an
/// address, an assigned device a function, and a shared file system a server that can be made and
/// queues of a size that fits. Every other device can be used.
pub open spec fn usable(device: DeviceType, ch: CloudHypervisorInner) -> bool {
    match device {
        DeviceType::Network(d) => d.config.guest_mac is Some,
        DeviceType::Vfio(d) => d.devices@.len() > 0,
        DeviceType::ShareFs(d) => {
            let served = server_flags(
                texts(ch.config.virtio_fs_extra_args@),
                ch.device_defaults.server,
            );
            &&& d.config.fs_type@ == "virtio-fs"@ || (d.config.fs_type@ == "inline-virtio-fs"@
                && served is Some)
            &&& d.config.queue_num == 0 || d.config.queue_size <= 0xffff
        },
        _ => true,
    }
}

/// A machine boots with the devices that wait if and only if each of them can be used.
pub proof fn law_usable_devices_boot(
    ch: &mut CloudHypervisorInner,
    queue_limit: usize,
    r: Result<SharedDevices, DeviceError>,
)
    requires
        call_ensures(CloudHypervisorInner::get_shared_devices, (ch, queue_limit), r),
    ensures
        r is Ok <==> forall|i: int|
            0 <= i < old(ch).pending_devices@.len() ==> usable(
                #[trigger] old(ch).pending_devices@[i],
                *old(ch),
            ),
{
    lemma_drained_usable(old(ch).pending_devices@, no_devices(), *old(ch), queue_limit);
}

/// One device is taken if and only if it can be used, whatever others there are.
proof fn lemma_taken_if_usable(
    devices: SharedView,
    device: DeviceType,
    ch: CloudHypervisorInner,
    queue_limit: usize,
)
    ensures
        with_device(devices, device, settings_of(ch, queue_limit)) is Ok <==> usable(device, ch),
{
    reveal_strlit("virtio-fs");
    reveal_strlit("inline-virtio-fs");
    assert("virtio-fs"@.len() != "inline-virtio-fs"@.len());
}

/// All devices are taken if and only if each can be used.
proof fn lemma_drained_usable(
    pending: Seq<DeviceType>,
    devices: SharedView,
    ch: CloudHypervisorInner,
    queue_limit: usize,
)
    ensures
        drained(pending, devices, settings_of(ch, queue_limit)).1 is Ok <==> forall|i: int|
            0 <= i < pending.len() ==> usable(#[trigger] pending[i], ch),
    decreases pending.len(),
{
    if pending.len() > 0 {
        let settings = settings_of(ch, queue_limit);
        let rest = pending.drop_last();
        assert(pending.last() == pending[pending.len() - 1]);
        lemma_taken_if_usable(devices, pending.last(), ch, queue_limit);
        match with_device(devices, pending.last(), settings) {
            Ok(more) => {
                lemma_drained_usable(rest, more, ch, queue_limit);
                if forall|i: int| 0 <= i < pending.len() ==> usable(#[trigger] pending[i], ch) {
                    assert forall|i: int| 0 <= i < rest.len() implies usable(
                        #[trigger] rest[i],
                        ch,
                    ) by {
                        assert(usable(pending[i], ch));
                    }
                }
                if forall|i: int| 0 <= i < rest.len() ==> usable(#[trigger] rest[i], ch) {
                    assert forall|i: int| 0 <= i < pending.len() implies usable(
                        #[trigger] pending[i],
                        ch,
                    ) by {
                        if i < rest.len() {
                            assert(usable(rest[i], ch));
                        }
                    }
                }
            },
            Err(e) => {},
        }
    }
}

} // verus!

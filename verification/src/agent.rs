//! What the runtime tells the agent in the guest.

use vstd::prelude::*;
use vstd::string::*;

use crate::text::texts;

verus! {

/// When the group of a volume's files is changed.
#[derive(Clone, Copy, Debug, PartialEq, Eq, Structural)]
pub enum FSGroupChangePolicy {
    /// Every time the volume is mounted.
    Always,
    /// Only where the volume's root has another group.
    OnRootMismatch,
}

/// The group that owns a volume's files.
#[derive(Clone, Copy, Debug, PartialEq, Eq, Structural)]
pub struct FSGroup {
    /// The group's number.
    pub group_id: u32,
    /// When the files' group is changed to it.
    pub group_change_policy: FSGroupChangePolicy,
}

/// A storage that the agent sets up.
#[derive(Debug)]
pub struct Storage {
    /// The name of the handler.
    pub driver: String,
    /// Options of the handler, `key=value`.
    pub driver_options: Vec<String>,
    /// What is mounted.
    pub source: String,
    /// The type of the file system.
    pub fs_type: String,
    /// The group that owns the files, if one is asked for.
    pub fs_group: Option<FSGroup>,
    /// Mount options.
    pub options: Vec<String>,
    /// Where it is mounted.
    pub mount_point: String,
    /// Whether all containers of the sandbox use it.
    pub shared: bool,
}

/// The contents of a [`Storage`].
#[verifier::ext_equal]
pub struct StorageView {
    /// The name of the handler.
    pub driver: Seq<char>,
    /// Options of the handler.
    pub driver_options: Seq<Seq<char>>,
    /// What is mounted.
    pub source: Seq<char>,
    /// The type of the file system.
    pub fs_type: Seq<char>,
    /// The group that owns the files.
    pub fs_group: Option<FSGroup>,
    /// Mount options.
    pub options: Seq<Seq<char>>,
    /// Where it is mounted.
    pub mount_point: Seq<char>,
    /// Whether all containers of the sandbox use it.
    pub shared: bool,
}

impl View for Storage {
    type V = StorageView;

    open spec fn view(&self) -> StorageView {
        StorageView {
            driver: self.driver@,
            driver_options: texts(self.driver_options@),
            source: self.source@,
            fs_type: self.fs_type@,
            fs_group: self.fs_group,
            options: texts(self.options@),
            mount_point: self.mount_point@,
            shared: self.shared,
        }
    }
}

/// The storage with every field empty.
pub open spec fn empty_storage() -> StorageView {
    StorageView {
        driver: Seq::empty(),
        driver_options: Seq::empty(),
        source: Seq::empty(),
        fs_type: Seq::empty(),
        fs_group: None,
        options: Seq::empty(),
        mount_point: Seq::empty(),
        shared: false,
    }
}

impl Default for Storage {
    fn default() -> (r: Self)
        ensures
            r@ == empty_storage(),
    {
        let r = Storage {
            driver: String::new(),
            driver_options: Vec::new(),
            source: String::new(),
            fs_type: String::new(),
            fs_group: None,
            options: Vec::new(),
            mount_point: String::new(),
            shared: false,
        };
        proof {
            assert(r@ =~= empty_storage());
        }
        r
    }
}

impl Clone for Storage {
    fn clone(&self) -> (r: Self)
        ensures
            r@ == self@,
    {
        let r = Storage {
            driver: self.driver.clone(),
            driver_options: clone_strings(&self.driver_options),
            source: self.source.clone(),
            fs_type: self.fs_type.clone(),
            fs_group: self.fs_group,
            options: clone_strings(&self.options),
            mount_point: self.mount_point.clone(),
            shared: self.shared,
        };
        proof {
            assert(r@ =~= self@);
        }
        r
    }
}

/// A copy of a list of strings.
pub fn clone_strings(list: &Vec<String>) -> (r: Vec<String>)
    ensures
        r@ == list@,
{
    let mut r: Vec<String> = Vec::new();
    let mut i: usize = 0;
    while i < list.len()
        invariant
            i <= list@.len(),
            r@ == list@.take(i as int),
        decreases list@.len() - i,
    {
        r.push(list[i].clone());
        proof {
            assert(list@.take(i + 1) =~= list@.take(i as int).push(list@[i as int]));
        }
        i = i + 1;
    }
    proof {
        assert(list@.take(i as int) =~= list@);
    }
    r
}

/// A family of network addresses.
#[derive(Clone, Copy, Debug, PartialEq, Eq, Structural)]
pub enum IPFamily {
    /// IPv4.
    V4,
    /// IPv6.
    V6,
}

/// A network address.
#[derive(Clone, Debug)]
pub struct IPAddress {
    /// Its family.
    pub family: IPFamily,
    /// The address.
    pub address: String,
    /// The length of the network's prefix.
    pub mask: String,
}

/// The contents of an [`IPAddress`].
pub struct IPAddressView {
    /// Its family.
    pub family: IPFamily,
    /// The address.
    pub address: Seq<char>,
    /// The length of the network's prefix.
    pub mask: Seq<char>,
}

impl View for IPAddress {
    type V = IPAddressView;

    open spec fn view(&self) -> IPAddressView {
        IPAddressView { family: self.family, address: self.address@, mask: self.mask@ }
    }
}

/// A network interface of the guest.
#[derive(Clone, Debug)]
pub struct Interface {
    /// The device.
    pub device: String,
    /// The name.
    pub name: String,
    /// The addresses.
    pub ip_addresses: Vec<IPAddress>,
    /// The largest packet.
    pub mtu: u64,
    /// The hardware address.
    pub hw_addr: String,
    /// The place of the device.
    pub device_path: String,
    /// The type.
    pub field_type: String,
    /// The flags.
    pub raw_flags: u32,
}

/// The contents of an [`Interface`].
#[verifier::ext_equal]
pub struct InterfaceView {
    /// The device.
    pub device: Seq<char>,
    /// The name.
    pub name: Seq<char>,
    /// The addresses.
    pub ip_addresses: Seq<IPAddressView>,
    /// The largest packet.
    pub mtu: u64,
    /// The hardware address.
    pub hw_addr: Seq<char>,
    /// The place of the device.
    pub device_path: Seq<char>,
    /// The type.
    pub field_type: Seq<char>,
    /// The flags.
    pub raw_flags: u32,
}

impl View for Interface {
    type V = InterfaceView;

    open spec fn view(&self) -> InterfaceView {
        InterfaceView {
            device: self.device@,
            name: self.name@,
            ip_addresses: self.ip_addresses@.map_values(|a: IPAddress| a@),
            mtu: self.mtu,
            hw_addr: self.hw_addr@,
            device_path: self.device_path@,
            field_type: self.field_type@,
            raw_flags: self.raw_flags,
        }
    }
}

/// A route of the guest.
#[derive(Clone, Debug)]
pub struct Route {
    /// Where it leads.
    pub dest: String,
    /// Through which gateway.
    pub gateway: String,
    /// With which address of its own.
    pub source: String,
    /// Through which device.
    pub device: String,
    /// Its scope.
    pub scope: u32,
    /// Its family.
    pub family: IPFamily,
    /// Its flags.
    pub flags: u32,
    /// Its largest packet.
    pub mtu: u32,
}

/// The contents of a [`Route`].
pub struct RouteView {
    /// Where it leads.
    pub dest: Seq<char>,
    /// Through which gateway.
    pub gateway: Seq<char>,
    /// With which address of its own.
    pub source: Seq<char>,
    /// Through which device.
    pub device: Seq<char>,
    /// Its scope.
    pub scope: u32,
    /// Its family.
    pub family: IPFamily,
    /// Its flags.
    pub flags: u32,
    /// Its largest packet.
    pub mtu: u32,
}

impl View for Route {
    type V = RouteView;

    open spec fn view(&self) -> RouteView {
        RouteView {
            dest: self.dest@,
            gateway: self.gateway@,
            source: self.source@,
            device: self.device@,
            scope: self.scope,
            family: self.family,
            flags: self.flags,
            mtu: self.mtu,
        }
    }
}

/// A neighbour of the guest.
#[derive(Clone, Debug)]
pub struct ARPNeighbor {
    /// Its address.
    pub to_ip_address: Option<IPAddress>,
    /// The device through which it is reached.
    pub device: String,
    /// Its hardware address.
    pub ll_addr: String,
    /// Its state.
    pub state: i32,
    /// Its flags.
    pub flags: i32,
}

/// The contents of an [`ARPNeighbor`].
pub struct ARPNeighborView {
    /// Its address.
    pub to_ip_address: Option<IPAddressView>,
    /// The device through which it is reached.
    pub device: Seq<char>,
    /// Its hardware address.
    pub ll_addr: Seq<char>,
    /// Its state.
    pub state: i32,
    /// Its flags.
    pub flags: i32,
}

impl View for ARPNeighbor {
    type V = ARPNeighborView;

    open spec fn view(&self) -> ARPNeighborView {
        ARPNeighborView {
            to_ip_address: match self.to_ip_address {
                Some(a) => Some(a@),
                None => None,
            },
            device: self.device@,
            ll_addr: self.ll_addr@,
            state: self.state,
            flags: self.flags,
        }
    }
}

/// A copy of a storage is the storage, in every part of it, and a copy of a list is the list.
pub proof fn law_copied_storage_is_same(
    s: Storage,
    r: Storage,
    list: Vec<String>,
    copy: Vec<String>,
)
    requires
        call_ensures(Storage::clone, (&s,), r),
        call_ensures(clone_strings, (&list,), copy),
    ensures
        r.driver@ == s.driver@,
        texts(r.driver_options@) == texts(s.driver_options@),
        r.source@ == s.source@,
        r.fs_type@ == s.fs_type@,
        r.fs_group == s.fs_group,
        texts(r.options@) == texts(s.options@),
        r.mount_point@ == s.mount_point@,
        r.shared == s.shared,
        texts(copy@) == texts(list@),
{
    assert(r@.driver_options == texts(r.driver_options@));
    assert(s@.driver_options == texts(s.driver_options@));
}

/// A storage that nothing is said of is empty.
pub proof fn law_unset_storage_is_empty(r: Storage)
    requires
        call_ensures(Storage::default, (), r),
    ensures
        r.driver@.len() == 0 && r.source@.len() == 0 && r.fs_type@.len() == 0
            && r.mount_point@.len() == 0,
        r.driver_options@.len() == 0 && r.options@.len() == 0,
        r.fs_group is None,
        !r.shared,
{
    assert(r@.driver_options.len() == r.driver_options@.len());
    assert(r@.options.len() == r.options@.len());
}

} // verus!

//! Paths and threads of a Cloud Hypervisor instance.

use std::collections::HashSet;

use vstd::prelude::*;
use vstd::string::*;

use crate::ch::protection::GuestProtection;
use crate::decimal::{parse_u64, parse_uint};
use crate::text::{concat3, has_prefix, trim_str, trimmed};

verus! {

/// The socket of the hypervisor's API.
pub const CH_API_SOCKET_NAME: &'static str = "ch-api.sock";

/// The socket through which the runtime reaches the agent in the guest.
pub const CH_VM_SOCKET_NAME: &'static str = "ch-vm.sock";

/// How the names of virtual CPU threads begin.
pub const VCPU_THREAD_PREFIX: &'static str = "vcpu";

/// A file in a sandbox's directory.
pub open spec fn in_sandbox(sandbox_path: Seq<char>, name: Seq<char>) -> Seq<char> {
    sandbox_path + "/"@ + name
}

/// The path of the API socket in a sandbox's directory. Nothing need exist there yet.
pub fn get_api_socket_path(sandbox_path: &str) -> (r: String)
    ensures
        r@ == in_sandbox(sandbox_path@, CH_API_SOCKET_NAME@),
{
    concat3(sandbox_path, "/", CH_API_SOCKET_NAME)
}

/// The path of the socket to the guest in a sandbox's directory. Nothing need exist there yet.
pub fn get_vsock_path(sandbox_path: &str) -> (r: String)
    ensures
        r@ == in_sandbox(sandbox_path@, CH_VM_SOCKET_NAME@),
{
    concat3(sandbox_path, "/", CH_VM_SOCKET_NAME)
}

/// The two sockets of a sandbox have different paths.
pub proof fn law_sockets_differ(sandbox_path: Seq<char>)
    ensures
        in_sandbox(sandbox_path, CH_API_SOCKET_NAME@) != in_sandbox(
            sandbox_path,
            CH_VM_SOCKET_NAME@,
        ),
{
    reveal_strlit("ch-api.sock");
    reveal_strlit("ch-vm.sock");
    assert(in_sandbox(sandbox_path, CH_API_SOCKET_NAME@).len() != in_sandbox(
        sandbox_path,
        CH_VM_SOCKET_NAME@,
    ).len());
}

/// An entry of a process's task directory.
#[derive(Debug)]
pub struct TaskEntry {
    /// The entry's file name; empty if it is not UTF-8.
    pub file_name: String,
    /// The contents of the entry's `comm` file, if they could be read.
    pub comm: Option<String>,
}

/// The thread that an entry stands for, if its name is a number.
pub open spec fn entry_tid(e: TaskEntry) -> Option<nat> {
    parse_uint(e.file_name@, u32::MAX as nat)
}

/// Whether an entry is known to be a virtual CPU.
pub open spec fn is_vcpu_entry(e: TaskEntry) -> bool {
    match e.comm {
        Some(comm) => VCPU_THREAD_PREFIX@.is_prefix_of(trimmed(comm@)),
        None => false,
    }
}

/// Whether `tid` is a thread among the entries that is not known to be a virtual CPU.
pub open spec fn child_thread(entries: Seq<TaskEntry>, tid: u32) -> bool {
    exists|i: int|
        0 <= i < entries.len() && entry_tid(#[trigger] entries[i]) == Some(tid as nat)
            && !is_vcpu_entry(entries[i])
}

/// Whether the entry is known to be a virtual CPU.
pub fn names_vcpu(e: &TaskEntry) -> (r: bool)
    ensures
        r == is_vcpu_entry(*e),
{
    match &e.comm {
        Some(comm) => has_prefix(trim_str(comm.as_str()), VCPU_THREAD_PREFIX),
        None => false,
    }
}

/// One more entry adds its own thread, if that is not known to be a virtual CPU.
pub proof fn lemma_child_thread_step(entries: Seq<TaskEntry>, i: int, tid: u32)
    requires
        0 <= i < entries.len(),
    ensures
        child_thread(entries.take(i + 1), tid) == (child_thread(entries.take(i), tid) || (entry_tid(
            entries[i],
        ) == Some(tid as nat) && !is_vcpu_entry(entries[i]))),
{
    let before = entries.take(i);
    let after = entries.take(i + 1);
    assert(after[i] == entries[i]);
    if child_thread(before, tid) {
        let k = choose|k: int|
            0 <= k < before.len() && entry_tid(#[trigger] before[k]) == Some(tid as nat)
                && !is_vcpu_entry(before[k]);
        assert(after[k] == before[k]);
    }
    if child_thread(after, tid) {
        let k = choose|k: int|
            0 <= k < after.len() && entry_tid(#[trigger] after[k]) == Some(tid as nat)
                && !is_vcpu_entry(after[k]);
        if k < i {
            assert(before[k] == after[k]);
        }
    }
}

/// The threads of a process that are not virtual CPUs. A thread whose name cannot be read counts.
pub fn get_child_threads(entries: &Vec<TaskEntry>) -> (r: HashSet<u32>)
    ensures
        forall|tid: u32| r@.contains(tid) <==> child_thread(entries@, tid),
{
    broadcast use vstd::std_specs::hash::group_hash_axioms;

    let mut r: HashSet<u32> = HashSet::new();
    let mut i: usize = 0;
    while i < entries.len()
        invariant
            i <= entries@.len(),
            forall|tid: u32| r@.contains(tid) <==> child_thread(entries@.take(i as int), tid),
        decreases entries@.len() - i,
    {
        let tid = parse_u64(entries[i].file_name.as_str(), u32::MAX as u64);
        let vcpu = names_vcpu(&entries[i]);
        if let Some(tid) = tid {
            if !vcpu {
                r.insert(tid as u32);
            }
        }
        proof {
            assert forall|t: u32| r@.contains(t) <==> child_thread(entries@.take(i + 1), t) by {
                lemma_child_thread_step(entries@, i as int, t);
            }
        }
        i = i + 1;
    }
    proof {
        assert(entries@.take(i as int) =~= entries@);
    }
    r
}

/// The identity and address of a device, as the hypervisor answers when it adds one.
#[derive(Clone, Debug)]
pub struct PciDeviceInfo {
    /// The hypervisor's name for the device.
    pub id: String,
    /// The device's address: bus, device and function.
    pub bdf: String,
}

/// Whether the protection in use is Intel TDX.
pub fn guest_protection_is_tdx(guest_protection_to_use: GuestProtection) -> (r: bool)
    ensures
        r == (guest_protection_to_use == GuestProtection::Tdx),
{
    match guest_protection_to_use {
        GuestProtection::Tdx => true,
        _ => false,
    }
}

/// The sockets lie in the sandbox's directory, each under its own name.
pub proof fn law_sockets_lie_in_sandbox(sandbox_path: &str, api: String, vm: String)
    requires
        call_ensures(get_api_socket_path, (sandbox_path,), api),
        call_ensures(get_vsock_path, (sandbox_path,), vm),
    ensures
        api@ == sandbox_path@ + "/ch-api.sock"@,
        vm@ == sandbox_path@ + "/ch-vm.sock"@,
{
    reveal_strlit("/");
    reveal_strlit("ch-api.sock");
    reveal_strlit("ch-vm.sock");
    reveal_strlit("/ch-api.sock");
    reveal_strlit("/ch-vm.sock");
    assert(api@ =~= sandbox_path@ + "/ch-api.sock"@);
    assert(vm@ =~= sandbox_path@ + "/ch-vm.sock"@);
}

/// A thread is a virtual CPU's if and only if its name begins with the word for one, but for space
/// around it; a thread without a name is not.
pub proof fn law_vcpu_threads_told_by_name(e: TaskEntry, r: bool)
    requires
        call_ensures(names_vcpu, (&e,), r),
    ensures
        r <==> (e.comm matches Some(comm) && "vcpu"@.is_prefix_of(trimmed(comm@))),
{
}

/// A thread is a child if and only if some entry has its number and is not a virtual CPU's; entries
/// without a number do not count.
pub proof fn law_children_are_not_vcpus(entries: Vec<TaskEntry>, r: HashSet<u32>, tid: u32)
    requires
        call_ensures(get_child_threads, (&entries,), r),
    ensures
        r@.contains(tid) <==> exists|i: int|
            0 <= i < entries@.len() && parse_uint(
                (#[trigger] entries@[i]).file_name@,
                0xffff_ffff,
            ) == Some(tid as nat) && !(entries@[i].comm matches Some(comm)
                && "vcpu"@.is_prefix_of(trimmed(comm@))),
{
    if r@.contains(tid) {
        let i = choose|i: int|
            0 <= i < entries@.len() && entry_tid(#[trigger] entries@[i]) == Some(tid as nat)
                && !is_vcpu_entry(entries@[i]);
        assert(parse_uint(entries@[i].file_name@, 0xffff_ffff) == Some(tid as nat));
    }
    if exists|i: int|
        0 <= i < entries@.len() && parse_uint((#[trigger] entries@[i]).file_name@, 0xffff_ffff)
            == Some(tid as nat) && !(entries@[i].comm matches Some(comm) && "vcpu"@.is_prefix_of(
            trimmed(comm@),
        )) {
        let i = choose|i: int|
            0 <= i < entries@.len() && parse_uint(
                (#[trigger] entries@[i]).file_name@,
                0xffff_ffff,
            ) == Some(tid as nat) && !(entries@[i].comm matches Some(comm)
                && "vcpu"@.is_prefix_of(trimmed(comm@)));
        assert(entry_tid(entries@[i]) == Some(tid as nat));
        assert(!is_vcpu_entry(entries@[i]));
    }
}

/// TDX is told from every other protection.
pub proof fn law_tdx_told(protection: GuestProtection, r: bool)
    requires
        call_ensures(guest_protection_is_tdx, (protection,), r),
    ensures
        r <==> protection is Tdx,
{
}

} // verus!

//! The hypervisor's thread in this process.

use vstd::prelude::*;
use vstd::string::*;

use crate::ch::utils::{entry_tid, is_vcpu_entry, TaskEntry, VCPU_THREAD_PREFIX};
use crate::decimal::{decimal, decimal_str, parse_u64, parse_uint};
use crate::text::{after_prefix, concat2, concat3, str_eq, strip_prefix_str, trim_str, trimmed};

verus! {

broadcast use vstd::string::group_string_axioms;

/// The version that the hypervisor reports.
pub const BUILD_VERSION: &'static str = "40.0.0";

/// The name of the hypervisor's thread.
pub const VMM_THREAD_NAME: &'static str = "vmm_master";

/// What the hypervisor's thread tells the runtime.
#[derive(Clone, Copy, Debug, PartialEq, Eq, Structural)]
pub struct InstanceInfo {
    /// The thread.
    pub master_tid: u32,
}

impl InstanceInfo {
    /// Before the thread runs.
    pub fn new() -> (r: Self)
        ensures
            r.master_tid == 0,
    {
        InstanceInfo { master_tid: 0 }
    }
}

impl Default for InstanceInfo {
    fn default() -> (r: Self)
        ensures
            r.master_tid == 0,
    {
        InstanceInfo { master_tid: 0 }
    }
}

/// A failure of a request to the hypervisor.
#[derive(Debug)]
pub struct Error {
    message: String,
}

impl Error {
    /// What the hypervisor said.
    pub closed spec fn cause(&self) -> Seq<char> {
        self.message@
    }

    /// The failure of which the hypervisor said `message`.
    pub fn failed(message: String) -> (r: Self)
        ensures
            r.cause() == message@,
    {
        Error { message }
    }

    /// The failure in words.
    pub fn message(&self) -> (r: String)
        ensures
            r@ == "Error: "@ + self.cause(),
    {
        concat2("Error: ", self.message.as_str())
    }
}

/// What happens on a system call that the filters do not allow.
#[derive(Clone, Copy, Debug, PartialEq, Eq, Structural)]
pub enum SeccompAction {
    /// It is allowed.
    Allow,
    /// It is written to the log.
    Log,
    /// It raises a signal.
    Trap,
}

/// The meaning of a setting for system call filters, if it has one; without a setting a signal is
/// raised.
pub open spec fn seccomp_action(value: Option<Seq<char>>) -> Option<SeccompAction> {
    match value {
        None => Some(SeccompAction::Trap),
        Some(v) => if v == "true"@ {
            Some(SeccompAction::Trap)
        } else if v == "false"@ {
            Some(SeccompAction::Allow)
        } else if v == "log"@ {
            Some(SeccompAction::Log)
        } else {
            None
        },
    }
}

/// The text of an optional setting.
pub open spec fn setting_text(value: Option<&str>) -> Option<Seq<char>> {
    match value {
        Some(v) => Some(v@),
        None => None,
    }
}

/// A step of the hypervisor's thread.
#[derive(Debug)]
pub enum ThreadStep {
    /// Apply the system call filters.
    ApplyFilter,
    /// Tell the runtime which thread this is.
    PublishTid,
    /// Enter a network namespace.
    EnterNetns(String),
    /// Set up the handler of signals.
    SetupSignalHandler,
    /// Serve requests until told to stop.
    ControlLoop,
}

/// The contents of a [`ThreadStep`].
pub enum ThreadStepView {
    /// Apply the system call filters.
    ApplyFilter,
    /// Tell the runtime which thread this is.
    PublishTid,
    /// Enter a network namespace.
    EnterNetns(Seq<char>),
    /// Set up the handler of signals.
    SetupSignalHandler,
    /// Serve requests until told to stop.
    ControlLoop,
}

impl View for ThreadStep {
    type V = ThreadStepView;

    open spec fn view(&self) -> ThreadStepView {
        match self {
            ThreadStep::ApplyFilter => ThreadStepView::ApplyFilter,
            ThreadStep::PublishTid => ThreadStepView::PublishTid,
            ThreadStep::EnterNetns(path) => ThreadStepView::EnterNetns(path@),
            ThreadStep::SetupSignalHandler => ThreadStepView::SetupSignalHandler,
            ThreadStep::ControlLoop => ThreadStepView::ControlLoop,
        }
    }
}

/// The contents of a list of steps.
pub open spec fn thread_steps_view(list: Seq<ThreadStep>) -> Seq<ThreadStepView> {
    list.map_values(|s: ThreadStep| s@)
}

/// The steps of the hypervisor's thread, in order.
pub open spec fn thread_plan(
    filter_empty: bool,
    netns: Option<Seq<char>>,
) -> Seq<ThreadStepView> {
    let filter = if filter_empty {
        Seq::empty()
    } else {
        seq![ThreadStepView::ApplyFilter]
    };
    let enter = match netns {
        Some(path) => seq![ThreadStepView::EnterNetns(path)],
        None => Seq::empty(),
    };
    filter + seq![ThreadStepView::PublishTid] + enter + seq![
        ThreadStepView::SetupSignalHandler,
        ThreadStepView::ControlLoop,
    ]
}

/// The steps of the hypervisor's thread, in order; the first that fails ends the thread.
pub fn thread_steps(filter_empty: bool, netns: Option<String>) -> (r: Vec<ThreadStep>)
    ensures
        thread_steps_view(r@) == thread_plan(filter_empty, crate::mount::text_of(netns)),
{
    let mut r: Vec<ThreadStep> = Vec::new();
    if !filter_empty {
        r.push(ThreadStep::ApplyFilter);
    }
    r.push(ThreadStep::PublishTid);
    let ghost want = thread_plan(filter_empty, crate::mount::text_of(netns));
    if let Some(path) = netns {
        r.push(ThreadStep::EnterNetns(path));
    }
    r.push(ThreadStep::SetupSignalHandler);
    r.push(ThreadStep::ControlLoop);
    proof {
        assert(thread_steps_view(r@) =~= want);
    }
    r
}

/// How the hypervisor's server is started.
#[derive(Clone, Copy, Debug, PartialEq, Eq, Structural)]
pub struct ServerPlan {
    /// What happens on a system call that is not allowed.
    pub seccomp: SeccompAction,
    /// Whether a message is printed on such a system call.
    pub report_violation: bool,
    /// Whether a thread serves the API on a socket.
    pub http_api: bool,
}

/// A step of stopping the hypervisor.
#[derive(Clone, Copy, Debug, PartialEq, Eq, Structural)]
pub enum StopStep {
    /// Tell the thread to end; it does not matter whether that works.
    SignalExit,
    /// Wait for the thread.
    JoinThread,
    /// Shut the API's thread down; it does not matter whether that works.
    ShutdownHttpApi,
}

/// What runs of the hypervisor.
#[derive(Clone, Copy, Debug, PartialEq, Eq, Structural)]
pub struct VmmInstance {
    /// What the thread tells the runtime.
    pub shared_info: InstanceInfo,
    /// Whether the thread runs.
    pub thread_running: bool,
    /// Whether a thread serves the API on a socket.
    pub http_api_running: bool,
    /// Whether requests can be sent.
    pub api_ready: bool,
}

/// The steps of stopping what runs.
pub open spec fn stop_steps(v: VmmInstance) -> Seq<StopStep> {
    if !v.thread_running {
        Seq::empty()
    } else if v.http_api_running {
        seq![StopStep::SignalExit, StopStep::JoinThread, StopStep::ShutdownHttpApi]
    } else {
        seq![StopStep::SignalExit, StopStep::JoinThread]
    }
}

/// What runs after the stop.
pub open spec fn after_stop(v: VmmInstance) -> VmmInstance {
    if v.thread_running {
        VmmInstance { thread_running: false, http_api_running: false, ..v }
    } else {
        v
    }
}

impl VmmInstance {
    /// Before anything runs.
    pub fn new() -> (r: Self)
        ensures
            r == (VmmInstance {
                shared_info: InstanceInfo { master_tid: 0 },
                thread_running: false,
                http_api_running: false,
                api_ready: false,
            }),
    {
        VmmInstance {
            shared_info: InstanceInfo::new(),
            thread_running: false,
            http_api_running: false,
            api_ready: false,
        }
    }

    /// How the server is started. The setting for system call filters must be one of those known.
    pub fn run_vmm_server(
        &mut self,
        seccomp_value: Option<&str>,
        api_socket: bool,
    ) -> (r: ServerPlan)
        requires
            seccomp_action(setting_text(seccomp_value)) is Some,
        ensures
            seccomp_action(setting_text(seccomp_value)) == Some(r.seccomp),
            r.report_violation == (r.seccomp == SeccompAction::Trap),
            r.http_api == api_socket,
            *final(self) == (VmmInstance {
                thread_running: true,
                http_api_running: api_socket,
                api_ready: true,
                ..*old(self)
            }),
    {
        let seccomp = match parse_seccomp(seccomp_value) {
            Some(action) => action,
            None => SeccompAction::Trap,
        };
        self.thread_running = true;
        self.http_api_running = api_socket;
        self.api_ready = true;
        ServerPlan {
            seccomp,
            report_violation: seccomp == SeccompAction::Trap,
            http_api: api_socket,
        }
    }

    /// Records which thread is the hypervisor's.
    pub fn set_master_tid(&mut self, tid: u32)
        ensures
            *final(self) == (VmmInstance {
                shared_info: InstanceInfo { master_tid: tid },
                ..*old(self)
            }),
    {
        self.shared_info = InstanceInfo { master_tid: tid };
    }

    /// The hypervisor's thread.
    pub fn get_vmm_master_tid(&self) -> (r: u32)
        ensures
            r == self.shared_info.master_tid,
    {
        self.shared_info.master_tid
    }

    /// The namespaces of the hypervisor's thread in the process `pid`.
    pub fn get_ns_path(&self, pid: u32) -> (r: String)
        ensures
            r@ == ns_path(pid, self.shared_info.master_tid),
    {
        let process = decimal_str(pid as u64);
        let thread = decimal_str(self.shared_info.master_tid as u64);
        let head = concat3("/proc/", process.as_str(), "/task/");
        concat3(head.as_str(), thread.as_str(), "/ns")
    }

    /// Stops what runs. Nothing is done where no thread runs, since waiting for it would not end.
    pub fn stop(&mut self) -> (r: Vec<StopStep>)
        ensures
            r@ == stop_steps(*old(self)),
            *final(self) == after_stop(*old(self)),
    {
        let mut r: Vec<StopStep> = Vec::new();
        if !self.thread_running {
            return r;
        }
        r.push(StopStep::SignalExit);
        r.push(StopStep::JoinThread);
        self.thread_running = false;
        if self.http_api_running {
            self.http_api_running = false;
            r.push(StopStep::ShutdownHttpApi);
        }
        r
    }
}

/// The meaning of a setting for system call filters, if it has one.
pub fn parse_seccomp(value: Option<&str>) -> (r: Option<SeccompAction>)
    ensures
        r == seccomp_action(setting_text(value)),
{
    match value {
        None => Some(SeccompAction::Trap),
        Some(v) => {
            if str_eq(v, "true") {
                Some(SeccompAction::Trap)
            } else if str_eq(v, "false") {
                Some(SeccompAction::Allow)
            } else if str_eq(v, "log") {
                Some(SeccompAction::Log)
            } else {
                None
            }
        },
    }
}

/// The directory of a thread's namespaces.
pub open spec fn ns_path(pid: u32, tid: u32) -> Seq<char> {
    "/proc/"@ + decimal(pid as nat) + "/task/"@ + decimal(tid as nat) + "/ns"@
}

/// The number of the virtual CPU that an entry of the task directory names, if it names one.
pub open spec fn entry_vcpu(e: TaskEntry) -> Option<nat> {
    match e.comm {
        Some(comm) => match after_prefix(trimmed(comm@), VCPU_THREAD_PREFIX@) {
            Some(number) => parse_uint(number, u8::MAX as nat),
            None => None,
        },
        None => None,
    }
}

/// Whether an entry is the thread of a virtual CPU.
pub open spec fn is_vcpu_thread(e: TaskEntry) -> bool {
    entry_tid(e) is Some && is_vcpu_entry(e)
}

/// The virtual CPUs among the entries, each with its thread, in the order of the entries.
pub open spec fn vcpu_tids(entries: Seq<TaskEntry>) -> Seq<(u8, u32)>
    decreases entries.len(),
{
    if entries.len() == 0 {
        Seq::empty()
    } else {
        let done = vcpu_tids(entries.drop_last());
        let e = entries.last();
        if is_vcpu_thread(e) {
            done.push((entry_vcpu(e)->0 as u8, entry_tid(e)->0 as u32))
        } else {
            done
        }
    }
}

/// The virtual CPUs among a process's threads, each with its thread. Every thread whose name begins
/// like that of a virtual CPU must end in the number of one.
pub fn get_vcpu_tids(entries: &Vec<TaskEntry>) -> (r: Vec<(u8, u32)>)
    requires
        forall|i: int|
            0 <= i < entries@.len() && is_vcpu_thread(#[trigger] entries@[i]) ==> entry_vcpu(
                entries@[i],
            ) is Some,
    ensures
        r@ == vcpu_tids(entries@),
{
    let mut r: Vec<(u8, u32)> = Vec::new();
    let mut i: usize = 0;
    while i < entries.len()
        invariant
            i <= entries@.len(),
            forall|k: int|
                0 <= k < entries@.len() && is_vcpu_thread(#[trigger] entries@[k]) ==> entry_vcpu(
                    entries@[k],
                ) is Some,
            r@ == vcpu_tids(entries@.take(i as int)),
        decreases entries@.len() - i,
    {
        let e = &entries[i];
        proof {
            assert(entries@.take(i + 1).drop_last() =~= entries@.take(i as int));
            assert(entries@.take(i + 1).last() == *e);
        }
        if let Some(tid) = parse_u64(e.file_name.as_str(), u32::MAX as u64) {
            if let Some(comm) = &e.comm {
                if let Some(number) = strip_prefix_str(
                    trim_str(comm.as_str()),
                    VCPU_THREAD_PREFIX,
                ) {
                    if let Some(cpu) = parse_u64(number, u8::MAX as u64) {
                        r.push((cpu as u8, tid as u32));
                    }
                }
            }
        }
        i = i + 1;
    }
    proof {
        assert(entries@.take(i as int) =~= entries@);
    }
    r
}

/// Stopping a second time does nothing.
pub proof fn law_second_stop_is_idle(v: VmmInstance)
    ensures
        stop_steps(after_stop(v)) == Seq::<StopStep>::empty(),
        after_stop(after_stop(v)) == after_stop(v),
{
}

/// The thread serves requests only after everything else.
pub proof fn law_control_loop_last(filter_empty: bool, netns: Option<Seq<char>>)
    ensures
        thread_plan(filter_empty, netns).last() == ThreadStepView::ControlLoop,
        forall|i: int|
            0 <= i < thread_plan(filter_empty, netns).len() - 1 ==> (#[trigger] thread_plan(
                filter_empty,
                netns,
            )[i]) != ThreadStepView::ControlLoop,
{
}

/// Without a setting, system calls are filtered. A setting is one of three words, and no other is
/// accepted.
pub proof fn law_three_words_for_filter(value: Option<&str>, r: Option<SeccompAction>)
    requires
        call_ensures(parse_seccomp, (value,), r),
    ensures
        value is None ==> r == Some(SeccompAction::Trap),
        value matches Some(v) ==> {
            &&& v@ == "true"@ <==> r == Some(SeccompAction::Trap)
            &&& v@ == "false"@ <==> r == Some(SeccompAction::Allow)
            &&& v@ == "log"@ <==> r == Some(SeccompAction::Log)
            &&& v@ != "true"@ && v@ != "false"@ && v@ != "log"@ <==> r is None
        },
{
    reveal_strlit("true");
    reveal_strlit("false");
    reveal_strlit("log");
    assert("true"@.len() == 4 && "false"@.len() == 5 && "log"@.len() == 3);
}

/// The server runs with the filter that was set, reports what the filter catches if and only if it
/// traps, and has an API if and only if that has a socket. It is then ready, and its thread runs.
pub proof fn law_server_runs_as_set(
    v: &mut VmmInstance,
    seccomp_value: Option<&str>,
    api_socket: bool,
    r: ServerPlan,
    parsed: Option<SeccompAction>,
)
    requires
        seccomp_action(setting_text(seccomp_value)) is Some,
        call_ensures(VmmInstance::run_vmm_server, (v, seccomp_value, api_socket), r),
        call_ensures(parse_seccomp, (seccomp_value,), parsed),
    ensures
        parsed == Some(r.seccomp),
        r.report_violation <==> r.seccomp == SeccompAction::Trap,
        r.http_api == api_socket,
        final(v).thread_running && final(v).api_ready,
        final(v).http_api_running == api_socket,
        final(v).shared_info == old(v).shared_info,
{
}

/// The thread publishes its number, sets its signals up and then serves. A filter comes before
/// everything, and a network namespace is entered behind the number.
pub proof fn law_thread_steps_in_order(
    filter_empty: bool,
    netns: Option<String>,
    r: Vec<ThreadStep>,
)
    requires
        call_ensures(thread_steps, (filter_empty, netns), r),
    ensures
        ({
            let n = r@.len() as int;
            let first: int = if filter_empty {
                0
            } else {
                1
            };
            &&& n == 3 + first + (if netns is Some {
                1int
            } else {
                0
            })
            &&& !filter_empty ==> r@[0] is ApplyFilter
            &&& r@[first] is PublishTid
            &&& netns matches Some(path) ==> (r@[first + 1] matches ThreadStep::EnterNetns(p) && p@
                == path@)
            &&& r@[n - 2] is SetupSignalHandler
            &&& r@[n - 1] is ControlLoop
        }),
{
    let n = r@.len() as int;
    let steps = thread_steps_view(r@);
    assert(steps.len() == r@.len());
    assert(steps[0] == r@[0]@);
    assert(steps[1] == r@[1]@);
    assert(steps[2] == r@[2]@);
    assert(steps[n - 2] == r@[n - 2]@);
    assert(steps[n - 1] == r@[n - 1]@);
}

/// A thread that runs is told to end and waited for, and only then is the API shut down, if it
/// runs. Where no thread runs nothing is done, and nothing runs afterwards that was stopped.
pub proof fn law_stop_waits_for_thread(v: &mut VmmInstance, r: Vec<StopStep>)
    requires
        call_ensures(VmmInstance::stop, (v,), r),
    ensures
        !old(v).thread_running ==> r@.len() == 0 && *final(v) == *old(v),
        old(v).thread_running ==> {
            &&& r@.len() == (if old(v).http_api_running {
                3int
            } else {
                2
            })
            &&& r@[0] == StopStep::SignalExit && r@[1] == StopStep::JoinThread
            &&& old(v).http_api_running ==> r@[2] == StopStep::ShutdownHttpApi
            &&& !final(v).http_api_running
        },
        !final(v).thread_running,
        final(v).shared_info == old(v).shared_info && final(v).api_ready == old(v).api_ready,
{
}

/// A new instance runs nothing. The thread's number is the one that was set last, and the path of
/// its namespaces is that of this thread of the process.
pub proof fn law_thread_is_the_one_set(
    new: VmmInstance,
    info: InstanceInfo,
    v: &mut VmmInstance,
    tid: u32,
    after: VmmInstance,
    got: u32,
    pid: u32,
    path: String,
)
    requires
        call_ensures(VmmInstance::new, (), new),
        call_ensures(InstanceInfo::new, (), info),
        call_ensures(VmmInstance::set_master_tid, (v, tid), ()),
        after == *final(v),
        call_ensures(VmmInstance::get_vmm_master_tid, (&after,), got),
        call_ensures(VmmInstance::get_ns_path, (&after, pid), path),
    ensures
        !new.thread_running && !new.http_api_running && !new.api_ready,
        new.shared_info.master_tid == 0 && info.master_tid == 0,
        got == tid,
        path@ == "/proc/"@ + decimal(pid as nat) + "/task/"@ + decimal(tid as nat) + "/ns"@,
        final(v).thread_running == old(v).thread_running && final(v).http_api_running == old(v).http_api_running && final(v).api_ready == old(v).api_ready,
{
}

/// An error says what failed.
pub proof fn law_error_says_cause(message: String, e: Error, r: String)
    requires
        call_ensures(Error::failed, (message,), e),
        call_ensures(Error::message, (&e,), r),
    ensures
        r@ == "Error: "@ + message@,
{
}

/// A thread of a virtual CPU is listed with the CPU's number, which is what follows the word in its
/// name, and its own.
pub proof fn law_vcpu_threads_listed(entries: Vec<TaskEntry>, r: Vec<(u8, u32)>, k: int)
    requires
        forall|i: int|
            0 <= i < entries@.len() && is_vcpu_thread(#[trigger] entries@[i]) ==> entry_vcpu(
                entries@[i],
            ) is Some,
        call_ensures(get_vcpu_tids, (&entries,), r),
        0 <= k < entries@.len(),
    ensures
        ({
            let e = entries@[k];
            &&& e.comm matches Some(comm) && "vcpu"@.is_prefix_of(trimmed(comm@))
            &&& parse_uint(e.file_name@, 0xffff_ffff) is Some
        }) ==> exists|i: int|
            0 <= i < r@.len() && parse_uint(entries@[k].file_name@, 0xffff_ffff) == Some(
                (#[trigger] r@[i]).1 as nat,
            ) && parse_uint(trimmed(entries@[k].comm->0@).skip(4), 0xff) == Some(r@[i].0 as nat),
        r@.len() == entries@.filter(|e: TaskEntry| is_vcpu_thread(e)).len(),
{
    reveal_strlit("vcpu");
    lemma_vcpu_count(entries@);
    let e = entries@[k];
    if is_vcpu_thread(e) {
        lemma_vcpu_listed(entries@, k);
        let pair = (entry_vcpu(e)->0 as u8, entry_tid(e)->0 as u32);
        let i = choose|i: int| 0 <= i < r@.len() && r@[i] == pair;
        assert(r@[i].1 as nat == entry_tid(e)->0);
        assert(r@[i].0 as nat == entry_vcpu(e)->0);
    }
}

/// Every thread of a virtual CPU is in the list.
proof fn lemma_vcpu_listed(entries: Seq<TaskEntry>, k: int)
    requires
        0 <= k < entries.len(),
        is_vcpu_thread(entries[k]),
    ensures
        vcpu_tids(entries).contains(
            (entry_vcpu(entries[k])->0 as u8, entry_tid(entries[k])->0 as u32),
        ),
    decreases entries.len(),
{
    let rest = entries.drop_last();
    let done = vcpu_tids(rest);
    let now = vcpu_tids(entries);
    let pair = (entry_vcpu(entries[k])->0 as u8, entry_tid(entries[k])->0 as u32);
    if k == entries.len() - 1 {
        assert(now[done.len() as int] == pair);
    } else {
        assert(rest[k] == entries[k]);
        lemma_vcpu_listed(rest, k);
        let i = choose|i: int| 0 <= i < done.len() && done[i] == pair;
        assert(now[i] == pair);
    }
}

/// There are as many as there are threads of virtual CPUs.
proof fn lemma_vcpu_count(entries: Seq<TaskEntry>)
    ensures
        vcpu_tids(entries).len() == entries.filter(|e: TaskEntry| is_vcpu_thread(e)).len(),
    decreases entries.len(),
{
    reveal(Seq::filter);
    if entries.len() > 0 {
        lemma_vcpu_count(entries.drop_last());
    }
}

} // verus!

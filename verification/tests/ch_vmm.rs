use kata_runtime::ch::hypervisor::{get_pids, get_thread_ids};
use kata_runtime::ch::utils::{
    get_api_socket_path, get_child_threads, get_vsock_path, guest_protection_is_tdx, TaskEntry,
};
use kata_runtime::ch::protection::{GuestProtection, SevSnpDetails};
use kata_runtime::ch::vmm_instance::{
    get_vcpu_tids, parse_seccomp, thread_steps, Error, InstanceInfo, SeccompAction, ServerPlan,
    StopStep, ThreadStep, VmmInstance,
};

fn entry(name: &str, comm: Option<&str>) -> TaskEntry {
    TaskEntry { file_name: String::from(name), comm: comm.map(String::from) }
}

fn tasks() -> Vec<TaskEntry> {
    vec![
        entry("100", Some("shim\n")),
        entry("101", Some("vcpu0\n")),
        entry("102", Some(" vcpu12 ")),
        entry("103", None),
        entry("self", Some("x")),
        entry("100", Some("again")),
    ]
}

#[test]
fn threads_that_are_not_vcpus() {
    let threads = get_child_threads(&tasks());
    let mut list: Vec<u32> = threads.into_iter().collect();
    list.sort();
    assert_eq!(list, vec![100, 103]);
    assert!(get_child_threads(&vec![]).is_empty());
}

#[test]
fn the_process_comes_first_among_its_threads() {
    assert_eq!(get_pids(100, &tasks()), vec![100, 103]);
    assert_eq!(get_pids(7, &tasks()), vec![7, 100, 103]);
}

#[test]
fn vcpus_and_their_threads() {
    let tids = get_vcpu_tids(&tasks());
    assert_eq!(tids, vec![(0, 101), (12, 102)]);
    let map = get_thread_ids(&vec![(0, 101), (12, 102), (0, 105)]);
    assert_eq!(map.len(), 2);
    assert_eq!((map[&0], map[&12]), (105, 102));
}

#[test]
fn sockets_of_a_sandbox() {
    assert_eq!(get_api_socket_path("/run/kata/s1"), "/run/kata/s1/ch-api.sock");
    assert_eq!(get_vsock_path("/run/kata/s1"), "/run/kata/s1/ch-vm.sock");
}

#[test]
fn only_tdx_is_tdx() {
    assert!(guest_protection_is_tdx(GuestProtection::Tdx));
    assert!(!guest_protection_is_tdx(GuestProtection::NoProtection));
    let details = SevSnpDetails { cbitpos: 42, phys_addr_reduction: 42 };
    assert!(!guest_protection_is_tdx(GuestProtection::Snp(details)));
}

#[test]
fn instance_and_errors() {
    assert_eq!(InstanceInfo::new(), InstanceInfo { master_tid: 0 });
    assert_eq!(InstanceInfo::default(), InstanceInfo::new());
    assert_eq!(Error::failed(String::from("no answer")).message(), "Error: no answer");
}

#[test]
fn settings_for_system_call_filters() {
    assert_eq!(parse_seccomp(None), Some(SeccompAction::Trap));
    assert_eq!(parse_seccomp(Some("true")), Some(SeccompAction::Trap));
    assert_eq!(parse_seccomp(Some("false")), Some(SeccompAction::Allow));
    assert_eq!(parse_seccomp(Some("log")), Some(SeccompAction::Log));
    assert_eq!(parse_seccomp(Some("maybe")), None);
}

#[test]
fn a_server_runs_and_is_stopped_once() {
    let mut vmm = VmmInstance::new();
    assert!(vmm.stop().is_empty());
    let plan = vmm.run_vmm_server(Some("false"), true);
    assert_eq!(plan, ServerPlan { seccomp: SeccompAction::Allow, report_violation: false, http_api: true });
    assert!(vmm.thread_running && vmm.http_api_running && vmm.api_ready);
    vmm.set_master_tid(77);
    assert_eq!(vmm.get_vmm_master_tid(), 77);
    assert_eq!(vmm.get_ns_path(12), "/proc/12/task/77/ns");
    assert_eq!(vmm.stop(), vec![StopStep::SignalExit, StopStep::JoinThread, StopStep::ShutdownHttpApi]);
    assert!(vmm.stop().is_empty());

    let mut vmm = VmmInstance::new();
    let plan = vmm.run_vmm_server(None, false);
    assert!(plan.report_violation && !plan.http_api);
    assert_eq!(vmm.stop(), vec![StopStep::SignalExit, StopStep::JoinThread]);
}

#[test]
fn steps_of_the_hypervisors_thread() {
    let steps = thread_steps(false, Some(String::from("/run/netns/x")));
    match &steps[..] {
        [ThreadStep::ApplyFilter, ThreadStep::PublishTid, ThreadStep::EnterNetns(path), ThreadStep::SetupSignalHandler, ThreadStep::ControlLoop] => {
            assert_eq!(path, "/run/netns/x");
        }
        other => panic!("{other:?}"),
    }
    assert_eq!(thread_steps(true, None).len(), 3);
}

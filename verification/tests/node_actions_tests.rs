use sherpa_server::services::node_actions::{
    container_action_result, device_name, failed_node_result, is_cold_boot, power_action_result,
    select_target_nodes, unchanged_vm_result, vm_start_action, vm_stop_action, NodeActionFailure,
    VmPowerAction,
};
use sherpa_server::services::scanner::{NodeKind, VIR_DOMAIN_PAUSED, VIR_DOMAIN_RUNNING, VIR_DOMAIN_SHUTOFF};

fn names(ns: &[&str]) -> Vec<String> {
    ns.iter().map(|s| s.to_string()).collect()
}

#[test]
fn all_nodes_or_the_named_ones() {
    let nodes = names(&["r1", "sw1", "r1", "r2"]);
    assert_eq!(select_target_nodes(&nodes, None, "lab1"), Ok(vec![0, 1, 2, 3]));
    assert_eq!(select_target_nodes(&nodes, Some("r1"), "lab1"), Ok(vec![0, 2]));
    assert_eq!(
        select_target_nodes(&nodes, Some("r9"), "lab1"),
        Err("Node 'r9' not found in lab 'lab1'".to_string())
    );
    let empty: Vec<String> = Vec::new();
    assert_eq!(select_target_nodes(&empty, None, "lab1"), Ok(vec![]));
}

#[test]
fn runtime_names() {
    assert_eq!(device_name("router1", "abc12345"), "router1-abc12345");
}

#[test]
fn stopping_a_vm() {
    assert_eq!(vm_stop_action(false, true), None);
    assert_eq!(vm_stop_action(true, true), Some(VmPowerAction::Shutdown));
    assert_eq!(vm_stop_action(true, false), Some(VmPowerAction::Destroy));
    let ok = power_action_result("r1", VmPowerAction::Shutdown, None);
    assert!(ok.success);
    assert_eq!(ok.message, "Shutdown initiated (graceful)");
    let forced = power_action_result("r1", VmPowerAction::Destroy, None);
    assert_eq!(forced.message, "Powered off (forced, no guest agent)");
    let failed = power_action_result("r1", VmPowerAction::Destroy, Some("busy"));
    assert!(!failed.success);
    assert_eq!(failed.message, "Failed to power off: busy");
    let idle = unchanged_vm_result("r1", true);
    assert!(idle.success);
    assert_eq!(idle.message, "Already stopped");
}

#[test]
fn starting_a_vm() {
    assert_eq!(vm_start_action(VIR_DOMAIN_SHUTOFF), Some(VmPowerAction::Create));
    assert_eq!(vm_start_action(VIR_DOMAIN_PAUSED), Some(VmPowerAction::Resume));
    assert_eq!(vm_start_action(VIR_DOMAIN_RUNNING), None);
    assert_eq!(power_action_result("r1", VmPowerAction::Create, None).message, "Started");
    assert_eq!(power_action_result("r1", VmPowerAction::Resume, None).message, "Resumed");
    assert_eq!(
        power_action_result("r1", VmPowerAction::Create, Some("no disk")).message,
        "Failed to start: no disk"
    );
    assert_eq!(
        power_action_result("r1", VmPowerAction::Resume, Some("x")).message,
        "Failed to resume: x"
    );
    assert_eq!(unchanged_vm_result("r1", false).message, "Already running");
}

#[test]
fn failures_and_containers() {
    let r = failed_node_result("r1", NodeActionFailure::DomainMissing, "no domain");
    assert!(!r.success);
    assert_eq!(r.message, "Domain not found: no domain");
    assert_eq!(
        failed_node_result("r1", NodeActionFailure::ImageMissing, "").message,
        "Node image not found in database"
    );
    assert_eq!(
        failed_node_result("r1", NodeActionFailure::ActivityUnknown, "e").message,
        "Failed to check state: e"
    );
    assert_eq!(
        failed_node_result("r1", NodeActionFailure::StateUnknown, "e").message,
        "Failed to get state: e"
    );
    assert_eq!(failed_node_result("r1", NodeActionFailure::Libvirt, "e").message, "Libvirt error: e");
    assert_eq!(
        failed_node_result("r1", NodeActionFailure::TaskPanicked, "e").message,
        "Task panicked: e"
    );
    assert_eq!(container_action_result("sw1", true, None).message, "Paused");
    assert_eq!(container_action_result("sw1", false, None).message, "Unpaused");
    assert_eq!(
        container_action_result("sw1", true, Some("gone")).message,
        "Failed to pause: gone"
    );
    assert_eq!(
        container_action_result("sw1", false, Some("gone")).message,
        "Failed to unpause: gone"
    );
}

#[test]
fn only_booted_vms_are_cold_booted() {
    let started = power_action_result("r1", VmPowerAction::Create, None);
    assert!(is_cold_boot(&started, NodeKind::VirtualMachine));
    assert!(!is_cold_boot(&started, NodeKind::Unikernel));
    let resumed = power_action_result("r1", VmPowerAction::Resume, None);
    assert!(!is_cold_boot(&resumed, NodeKind::VirtualMachine));
    let failed = power_action_result("r1", VmPowerAction::Create, Some("x"));
    assert!(!is_cold_boot(&failed, NodeKind::VirtualMachine));
}

use sherpa_server::services::scanner::{
    detect_node_state, docker_container_name, ContainerState, NodeKind, NodeState,
    VIR_DOMAIN_PAUSED, VIR_DOMAIN_RUNNING, VIR_DOMAIN_SHUTOFF,
};

fn vm(name: &str, code: u32) -> Vec<(String, u32)> {
    vec![(name.to_string(), code)]
}

fn container(name: &str, state: ContainerState) -> Vec<(String, ContainerState)> {
    vec![(name.to_string(), state)]
}

#[test]
fn test_detect_vm_running() {
    let vm_states = vm("router1-abc12345", VIR_DOMAIN_RUNNING);
    let container_states = Vec::new();
    let state = detect_node_state(
        "router1-abc12345",
        NodeKind::VirtualMachine,
        &vm_states,
        &container_states,
    );
    assert_eq!(state, NodeState::Running);
}

#[test]
fn test_detect_vm_shutoff() {
    let vm_states = vm("router1-abc12345", VIR_DOMAIN_SHUTOFF);
    let container_states = Vec::new();
    let state = detect_node_state(
        "router1-abc12345",
        NodeKind::VirtualMachine,
        &vm_states,
        &container_states,
    );
    assert_eq!(state, NodeState::Stopped);
}

#[test]
fn test_detect_vm_paused() {
    let vm_states = vm("router1-abc12345", VIR_DOMAIN_PAUSED);
    let container_states = Vec::new();
    let state = detect_node_state(
        "router1-abc12345",
        NodeKind::VirtualMachine,
        &vm_states,
        &container_states,
    );
    assert_eq!(state, NodeState::Stopped);
}

#[test]
fn test_detect_vm_not_found() {
    let vm_states = Vec::new();
    let container_states = Vec::new();
    let state = detect_node_state(
        "router1-abc12345",
        NodeKind::VirtualMachine,
        &vm_states,
        &container_states,
    );
    assert_eq!(state, NodeState::Stopped);
}

#[test]
fn test_detect_unikernel_running() {
    let vm_states = vm("uk1-abc12345", VIR_DOMAIN_RUNNING);
    let container_states = Vec::new();
    let state =
        detect_node_state("uk1-abc12345", NodeKind::Unikernel, &vm_states, &container_states);
    assert_eq!(state, NodeState::Running);
}

fn container_case(state: ContainerState) -> NodeState {
    let vm_states = Vec::new();
    let container_states = container("switch1-abc12345", state);
    detect_node_state("switch1-abc12345", NodeKind::Container, &vm_states, &container_states)
}

#[test]
fn test_detect_container_running() {
    assert_eq!(container_case(ContainerState::Running), NodeState::Running);
}

#[test]
fn test_detect_container_exited() {
    assert_eq!(container_case(ContainerState::Exited), NodeState::Stopped);
}

#[test]
fn test_detect_container_dead() {
    assert_eq!(container_case(ContainerState::Dead), NodeState::Stopped);
}

#[test]
fn test_detect_container_created() {
    assert_eq!(container_case(ContainerState::Created), NodeState::Created);
}

#[test]
fn test_detect_container_restarting() {
    assert_eq!(container_case(ContainerState::Restarting), NodeState::Starting);
}

#[test]
fn test_detect_container_paused() {
    assert_eq!(container_case(ContainerState::Paused), NodeState::Stopped);
}

#[test]
fn test_detect_container_not_found() {
    let vm_states = Vec::new();
    let container_states = Vec::new();
    let state = detect_node_state(
        "switch1-abc12345",
        NodeKind::Container,
        &vm_states,
        &container_states,
    );
    assert_eq!(state, NodeState::Stopped);
}

#[test]
fn test_detect_container_removing() {
    assert_eq!(container_case(ContainerState::Removing), NodeState::Unknown);
}

#[test]
fn empty_container_state_is_unknown() {
    assert_eq!(container_case(ContainerState::Empty), NodeState::Unknown);
}

#[test]
fn unexpected_domain_state_is_unknown() {
    let vm_states = vm("router1-abc12345", 2);
    let container_states = Vec::new();
    let state = detect_node_state(
        "router1-abc12345",
        NodeKind::VirtualMachine,
        &vm_states,
        &container_states,
    );
    assert_eq!(state, NodeState::Unknown);
}

#[test]
fn container_kind_ignores_domain_states() {
    let vm_states = vm("switch1-abc12345", VIR_DOMAIN_RUNNING);
    let container_states = Vec::new();
    let state = detect_node_state(
        "switch1-abc12345",
        NodeKind::Container,
        &vm_states,
        &container_states,
    );
    assert_eq!(state, NodeState::Stopped);
}

#[test]
fn absent_nodes_are_stopped_for_every_kind() {
    let none_vm: Vec<(String, u32)> = vm("other", VIR_DOMAIN_RUNNING);
    let none_ct = container("other", ContainerState::Running);
    for kind in [NodeKind::VirtualMachine, NodeKind::Container, NodeKind::Unikernel] {
        assert_eq!(detect_node_state("missing", kind, &none_vm, &none_ct), NodeState::Stopped);
    }
}

#[test]
fn docker_names_lose_their_leading_slash() {
    let names = vec!["/switch1-abc12345".to_string(), "/alias".to_string()];
    assert_eq!(docker_container_name(Some(&names)), Some("switch1-abc12345".to_string()));
    let bare = vec!["plain".to_string()];
    assert_eq!(docker_container_name(Some(&bare)), Some("plain".to_string()));
    let slashes = vec!["//x/y".to_string()];
    assert_eq!(docker_container_name(Some(&slashes)), Some("x/y".to_string()));
    let empty: Vec<String> = Vec::new();
    assert_eq!(docker_container_name(Some(&empty)), None);
    assert_eq!(docker_container_name(None), None);
}

#[test]
fn a_later_entry_replaces_an_earlier_one() {
    let vm_states = vec![
        ("router1-abc12345".to_string(), VIR_DOMAIN_SHUTOFF),
        ("router1-abc12345".to_string(), VIR_DOMAIN_RUNNING),
    ];
    let container_states = Vec::new();
    let state = detect_node_state(
        "router1-abc12345",
        NodeKind::VirtualMachine,
        &vm_states,
        &container_states,
    );
    assert_eq!(state, NodeState::Running);
}

use sherpa_server::api::handlers::{login_cookie, signup_cookie};
use sherpa_server::auth::context::AuthContext;
use sherpa_server::services::import::{
    container_scan_repo, container_scan_runs, disk_scan_includes, version_disk_path,
    version_entry_scanned,
};
use sherpa_server::services::inspect::check_inspect_permission;
use sherpa_server::services::scanner::NodeKind;
use sherpa_server::services::topology::{
    bridge_device_name, bridge_libvirt_name, known_bridge_links, node_indices, peer_node_index,
};

fn names(v: &[&str]) -> Vec<String> {
    v.iter().map(|s| s.to_string()).collect()
}

#[test]
fn disk_scan_skips_containers_and_other_kinds() {
    assert!(disk_scan_includes(NodeKind::VirtualMachine, None));
    assert!(disk_scan_includes(NodeKind::Unikernel, None));
    assert!(!disk_scan_includes(NodeKind::Container, None));
    assert!(!disk_scan_includes(NodeKind::Container, Some(NodeKind::Container)));
    assert!(disk_scan_includes(NodeKind::VirtualMachine, Some(NodeKind::VirtualMachine)));
    assert!(!disk_scan_includes(NodeKind::VirtualMachine, Some(NodeKind::Unikernel)));
}

#[test]
fn container_scan_follows_the_kind_filter() {
    assert!(container_scan_runs(None));
    assert!(container_scan_runs(Some(NodeKind::Container)));
    assert!(!container_scan_runs(Some(NodeKind::VirtualMachine)));
    assert_eq!(
        container_scan_repo(NodeKind::Container, None, Some("localrepo/arista_ceos")),
        Some("localrepo/arista_ceos".to_string())
    );
    assert_eq!(container_scan_repo(NodeKind::Container, None, None), None);
    assert_eq!(container_scan_repo(NodeKind::VirtualMachine, None, Some("r")), None);
    assert_eq!(
        container_scan_repo(NodeKind::Container, Some(NodeKind::Unikernel), Some("r")),
        None
    );
}

#[test]
fn version_directories_need_a_real_directory_with_a_disk() {
    assert_eq!(
        version_disk_path("/opt/sherpa/images/arista_veos", "4.32.0F"),
        "/opt/sherpa/images/arista_veos/4.32.0F/virtioa.qcow2"
    );
    assert!(version_entry_scanned(true, false, false, true));
    assert!(!version_entry_scanned(false, false, false, true));
    assert!(!version_entry_scanned(true, true, false, true));
    assert!(!version_entry_scanned(true, false, true, true));
    assert!(!version_entry_scanned(true, false, false, false));
}

#[test]
fn bridges_are_named_by_position_and_lab() {
    assert_eq!(bridge_libvirt_name(0, "mgmt", "abc123"), "sherpa-bridge0-mgmt-abc123");
    assert_eq!(bridge_libvirt_name(12, "core", "lab9"), "sherpa-bridge12-core-lab9");
    assert_eq!(bridge_device_name("br-", 3, "abc123"), "br-s3-abc123");
}

#[test]
fn nodes_are_indexed_from_one() {
    assert_eq!(node_indices(0), Vec::<u16>::new());
    assert_eq!(node_indices(3), vec![1, 2, 3]);
    let n = names(&["dev1", "dev2", "dev3"]);
    assert_eq!(peer_node_index(&n, "dev2"), Ok(2));
    assert_eq!(peer_node_index(&n, "dev1"), Ok(1));
    assert_eq!(peer_node_index(&names(&["a", "b", "a"]), "a"), Ok(1));
    assert_eq!(peer_node_index(&n, "dev9"), Err("Peer node not found: dev9".to_string()));
}

#[test]
fn bridge_links_to_unknown_nodes_are_dropped() {
    let nodes = names(&["dev1", "dev2"]);
    assert_eq!(known_bridge_links(&names(&["dev1", "ghost", "dev2", "dev1"]), &nodes), vec![0, 2, 3]);
    assert_eq!(known_bridge_links(&names(&["ghost"]), &nodes), Vec::<usize>::new());
    assert_eq!(known_bridge_links(&names(&[]), &nodes), Vec::<usize>::new());
}

#[test]
fn admins_may_inspect_any_lab() {
    let admin = AuthContext::new("root".to_string(), true);
    let alice = AuthContext::new("alice".to_string(), false);
    assert_eq!(check_inspect_permission(&admin, "alice", "lab1"), Ok(()));
    assert_eq!(check_inspect_permission(&alice, "alice", "lab1"), Ok(()));
    assert_eq!(
        check_inspect_permission(&alice, "bob", "lab2"),
        Err("Permission denied: Lab 'lab2' is owned by another user".to_string())
    );
}

#[test]
fn login_cookies_are_secure_over_https() {
    assert_eq!(
        login_cookie("tok", false, true),
        "sherpa_auth=tok; Path=/; HttpOnly; SameSite=Strict; Max-Age=604800; Secure"
    );
    assert_eq!(
        login_cookie("tok", true, false),
        "sherpa_auth=tok; Path=/; HttpOnly; SameSite=Strict; Max-Age=2592000"
    );
    assert_eq!(signup_cookie("tok", true), login_cookie("tok", false, true));
    assert!(!signup_cookie("tok", false).contains("Secure"));
}

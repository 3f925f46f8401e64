use sherpa_server::services::destroy::{
    destroyed_network_count, lab_container_name, lab_directory_deleted, lab_resources,
    not_owner_error, vm_disks,
};

fn names(ns: &[&str]) -> Vec<String> {
    ns.iter().map(|s| s.to_string()).collect()
}

#[test]
fn resources_of_a_lab_hold_its_id() {
    let domains = names(&["r1-abc12345", "r1-zzz99999", "sw-abc12345-x", "other"]);
    assert_eq!(lab_resources(&domains, "abc12345"), vec![0, 2]);
    assert_eq!(lab_resources(&domains, "nope"), Vec::<usize>::new());
}

#[test]
fn containers_of_a_lab() {
    let listed = names(&["/switch1-abc12345", "/alias"]);
    assert_eq!(lab_container_name(&listed, "abc12345"), Some("switch1-abc12345".to_string()));
    let aliased = names(&["/primary", "/x-abc12345"]);
    assert_eq!(lab_container_name(&aliased, "abc12345"), Some("primary".to_string()));
    assert_eq!(lab_container_name(&listed, "zzz"), None);
    assert_eq!(lab_container_name(&Vec::new(), "abc12345"), None);
}

#[test]
fn disks_of_a_vm_begin_with_its_name() {
    let volumes = names(&["r1-abc12345-hdd.qcow2", "r10-abc12345.qcow2", "x-r1-abc12345", "r1-abc12345"]);
    assert_eq!(vm_disks(&volumes, "r1-abc12345"), vec![0, 3]);
}

#[test]
fn destroy_reports() {
    assert_eq!(
        not_owner_error("lab-1"),
        "Permission denied: Lab 'lab-1' is owned by another user"
    );
    assert!(lab_directory_deleted(false, false));
    assert!(lab_directory_deleted(true, true));
    assert!(!lab_directory_deleted(true, false));
    assert_eq!(destroyed_network_count(2, 3), 5);
}

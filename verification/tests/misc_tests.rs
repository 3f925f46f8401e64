use sherpa_server::api::assets::mime_for_path;
use sherpa_server::api::messages::{status_emoji, status_kind_from_name, LogLevel, StatusKind};
use sherpa_server::services::import::{
    default_flags, docker_tag_version, image_not_found_message, total_imported,
    version_scan_status, VersionScanOutcome,
};
use sherpa_server::services::inspect::{extract_vnc_port, vnc_port_from_capture};
use sherpa_server::services::topology::{
    find_bridge_interface, find_interface_link, BridgeDetailed, BridgeLinkDetailed,
    LinkDetailed, NodeInterface, PeerSide,
};

#[test]
fn test_log_level_serialization() {
    assert_eq!(LogLevel::Warn.as_str(), "warn");
    assert_eq!(LogLevel::Trace.as_str(), "trace");
    assert_eq!(LogLevel::Debug.as_str(), "debug");
    assert_eq!(LogLevel::Info.as_str(), "info");
    assert_eq!(LogLevel::Error.as_str(), "error");
}

#[test]
fn status_kinds() {
    assert_eq!(status_kind_from_name("progress"), StatusKind::Progress);
    assert_eq!(status_kind_from_name("done"), StatusKind::Done);
    assert_eq!(status_kind_from_name("waiting"), StatusKind::Waiting);
    assert_eq!(status_kind_from_name("info"), StatusKind::Info);
    assert_eq!(status_kind_from_name("other"), StatusKind::Info);
    assert_eq!(status_emoji(StatusKind::Done), "\u{2705}");
    assert_eq!(status_emoji(StatusKind::Progress), "\u{1F504}");
    assert_eq!(status_emoji(StatusKind::Info), "\u{2139}\u{FE0F}");
    assert_eq!(status_emoji(StatusKind::Waiting), "\u{23F3}");
}

#[test]
fn asset_content_types() {
    assert_eq!(mime_for_path("js/model-filter.js"), "application/javascript");
    assert_eq!(mime_for_path("css/site.min.css"), "text/css");
    assert_eq!(mime_for_path("favicon.svg"), "image/svg+xml");
    assert_eq!(mime_for_path("img/a.jpeg"), "image/jpeg");
    assert_eq!(mime_for_path("fonts/x.woff2"), "font/woff2");
    assert_eq!(mime_for_path("fonts/x.woff"), "font/woff");
    assert_eq!(mime_for_path("LICENSE"), "application/octet-stream");
    assert_eq!(mime_for_path("archive.tar.gz"), "application/octet-stream");
}

#[test]
fn vnc_port_from_domain_xml() {
    let xml = "<domain><devices><graphics type='vnc' port='5901' autoport='yes' listen='127.0.0.1'/></devices></domain>";
    assert_eq!(extract_vnc_port(xml), Some(5901));
    let auto = "<graphics type=\"vnc\" port=\"-1\" autoport=\"yes\"/>";
    assert_eq!(extract_vnc_port(auto), None);
    assert_eq!(extract_vnc_port("<graphics type='spice' port='5900'/>"), None);
    assert_eq!(extract_vnc_port("<domain/>"), None);
    assert_eq!(vnc_port_from_capture(Some("5902")), Some(5902));
    assert_eq!(vnc_port_from_capture(Some("0")), None);
    assert_eq!(vnc_port_from_capture(None), None);
}

fn link(a: &str, ia: &str, b: &str, ib: &str, idx: u16) -> LinkDetailed {
    LinkDetailed {
        node_a: a.to_string(),
        node_a_idx: 1,
        int_a: ia.to_string(),
        int_a_idx: 2,
        node_b: b.to_string(),
        node_b_idx: 3,
        int_b: ib.to_string(),
        int_b_idx: 4,
        link_idx: idx,
    }
}

#[test]
fn interface_links_are_seen_from_the_node() {
    let links = vec![link("r1", "eth1", "r2", "eth1", 0), link("r3", "eth2", "r1", "eth2", 1)];
    match find_interface_link("r1", "eth2", &links) {
        Some(NodeInterface::Peer(p)) => {
            assert_eq!(p.link_index, 1);
            assert_eq!(p.this_node, "r1");
            assert_eq!(p.this_side, PeerSide::B);
            assert_eq!(p.peer_node, "r3");
            assert_eq!(p.peer_interface, "eth2");
            assert_eq!(p.peer_side, PeerSide::A);
        }
        _ => panic!("r1 eth2 is linked"),
    }
    match find_interface_link("r1", "eth1", &links) {
        Some(NodeInterface::Peer(p)) => {
            assert_eq!(p.this_side, PeerSide::A);
            assert_eq!(p.peer_node, "r2");
        }
        _ => panic!("r1 eth1 is linked"),
    }
    assert!(find_interface_link("r9", "eth1", &links).is_none());
}

#[test]
fn bridged_interfaces() {
    let bridges = vec![BridgeDetailed {
        bridge_name: "br-lan".to_string(),
        links: vec![BridgeLinkDetailed {
            node_name: "r1".to_string(),
            interface_name: "eth3".to_string(),
        }],
    }];
    match find_bridge_interface("r1", "eth3", &bridges) {
        Some(NodeInterface::Bridge { name }) => assert_eq!(name, "br-lan"),
        _ => panic!("r1 eth3 is bridged"),
    }
    assert!(find_bridge_interface("r1", "eth4", &bridges).is_none());
}

#[test]
fn scan_statuses() {
    assert_eq!(version_scan_status(&VersionScanOutcome::AlreadyExists, true), "already_exists");
    assert_eq!(version_scan_status(&VersionScanOutcome::DryRun, true), "would_import (default)");
    assert_eq!(version_scan_status(&VersionScanOutcome::DryRun, false), "would_import");
    assert_eq!(version_scan_status(&VersionScanOutcome::Imported, true), "imported (default)");
    assert_eq!(version_scan_status(&VersionScanOutcome::Imported, false), "imported");
    assert_eq!(
        version_scan_status(&VersionScanOutcome::Failed("db: locked".to_string()), false),
        "error: db: locked"
    );
    let outcomes = vec![
        VersionScanOutcome::AlreadyExists,
        VersionScanOutcome::Imported,
        VersionScanOutcome::DryRun,
        VersionScanOutcome::Failed("x".to_string()),
    ];
    assert_eq!(total_imported(&outcomes), 2);
}

#[test]
fn only_the_first_new_version_becomes_default() {
    assert_eq!(default_flags(true, &vec![true, false, false]), vec![false, true, false]);
    assert_eq!(default_flags(false, &vec![false, false]), vec![false, false]);
    assert_eq!(default_flags(true, &vec![true, true]), vec![false, false]);
    assert_eq!(default_flags(true, &vec![]), Vec::<bool>::new());
}

#[test]
fn docker_tags_give_versions() {
    assert_eq!(
        docker_tag_version("localrepo/arista_ceos:4.32.0F", "localrepo/arista_ceos"),
        Some("4.32.0F".to_string())
    );
    assert_eq!(docker_tag_version("localrepo/arista_ceos2:1", "localrepo/arista_ceos"), None);
    assert_eq!(docker_tag_version("other:1", "localrepo/arista_ceos"), None);
    assert_eq!(
        image_not_found_message("vyos", "1.4"),
        "Image not found for model 'vyos' with version '1.4'. Use 'server image list' to see available images."
    );
}

use sherpa_server::services::import::resolve_download_url;
use sherpa_server::services::node_ops::{cpu_features_for_model, CpuFeaturePolicy};

#[test]
fn test_resolve_download_url_ubuntu() {
    let url = resolve_download_url("ubuntu_linux", "24.04", None).unwrap();
    assert_eq!(
        url,
        "https://cloud-images.ubuntu.com/releases/24.04/release/ubuntu-24.04-server-cloudimg-amd64.img"
    );
}

#[test]
fn test_resolve_download_url_user_override() {
    let custom = "https://example.com/my-image.qcow2";
    let url = resolve_download_url("fedora_linux", "42", Some(custom)).unwrap();
    assert_eq!(url, custom);
}

#[test]
fn test_resolve_download_url_unsupported_model_no_url() {
    let result = resolve_download_url("fedora_linux", "42", None);
    assert!(result.is_err());
    let err = result.unwrap_err();
    assert!(err.contains("No auto-download URL"));
    assert!(err.contains("fedora_linux"));
}

#[test]
fn unsupported_model_error_is_exact() {
    assert_eq!(
        resolve_download_url("fedora_linux", "42", None),
        Err("No auto-download URL for model 'fedora_linux'. Provide --url.".to_string())
    );
}

#[test]
fn user_url_wins_for_ubuntu_too() {
    assert_eq!(
        resolve_download_url("ubuntu_linux", "24.04", Some("file:///img.qcow2")),
        Ok("file:///img.qcow2".to_string())
    );
}

#[test]
fn vsrx_hides_its_cpu_features() {
    let features = cpu_features_for_model("juniper_vsrxv3");
    let names: Vec<&str> = features.iter().map(|f| f.name.as_str()).collect();
    assert_eq!(
        names,
        vec!["xsaveopt", "bmi1", "avx2", "bmi2", "erms", "invpcid", "rdseed", "adx", "smap", "abm"]
    );
    assert!(features.iter().all(|f| f.policy == CpuFeaturePolicy::Disable));
}

#[test]
fn other_models_have_no_cpu_overrides() {
    assert!(cpu_features_for_model("ubuntu_linux").is_empty());
    assert!(cpu_features_for_model("juniper_vsrxv").is_empty());
}

use sherpa_server::api::handlers::NodeImageSummary;
use sherpa_server::services::import::select_node_image;

fn image(model: &str, version: &str, default: bool) -> NodeImageSummary {
    NodeImageSummary {
        model: model.to_string(),
        kind: "virtual_machine".to_string(),
        version: version.to_string(),
        cpu_count: 2,
        memory: 2048,
        data_interface_count: 8,
        default,
    }
}

#[test]
fn node_images_by_version_or_default() {
    let images = vec![
        image("vyos", "1.3", false),
        image("arista_veos", "4.30", true),
        image("vyos", "1.4", true),
        image("vyos", "1.4", false),
    ];
    assert_eq!(select_node_image("vyos", Some("1.4"), &images), Ok(2));
    assert_eq!(select_node_image("vyos", None, &images), Ok(2));
    assert_eq!(select_node_image("arista_veos", None, &images), Ok(1));
    assert_eq!(
        select_node_image("vyos", Some("9.9"), &images),
        Err("Node image not found for model: vyos version: 9.9".to_string())
    );
    assert_eq!(
        select_node_image("cisco_asav", None, &images),
        Err("Default node image not found for model: cisco_asav".to_string())
    );
}

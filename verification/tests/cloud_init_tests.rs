use sherpa_server::services::cloud_init::{admin_group_and_shell, cloud_init_payload, Script};
use sherpa_server::services::node_ops::NodeCertContents;

fn script(name: &str, content: &str) -> Script {
    Script { filename: name.to_string(), content: content.to_string() }
}

#[test]
fn cloud_init_writes_and_runs_in_order() {
    let certs = NodeCertContents {
        ca_cert: "CA".to_string(),
        node_cert: "CERT".to_string(),
        node_key: "KEY".to_string(),
    };
    let startup = vec![script("a.sh", "echo a")];
    let users = vec![script("u.sh", "echo u")];
    let env = vec!["MSG=it's".to_string()];
    let p = cloud_init_payload(
        Some(&certs),
        "/etc/sherpa/certs",
        &startup,
        Some(&users),
        "sherpa",
        "/home/sherpa/scripts",
        &env,
    );
    let paths: Vec<&str> = p.write_files.iter().map(|f| f.path.as_str()).collect();
    assert_eq!(
        paths,
        vec![
            "/etc/sherpa/certs/ca.crt",
            "/etc/sherpa/certs/node.crt",
            "/etc/sherpa/certs/node.key",
            "/opt/sherpa/startup_scripts/a.sh",
            "/home/sherpa/scripts/u.sh",
            "/etc/profile.d/sherpa-env.sh",
        ]
    );
    assert_eq!(p.write_files[2].mode, 0o600);
    assert_eq!(p.write_files[3].mode, 0o755);
    assert!(p.write_files[4].owner.is_none());
    assert_eq!(p.write_files[5].content, "#!/bin/sh\nexport MSG='it'\\''s'\n");
    assert_eq!(
        p.runcmd,
        vec![
            "bash /opt/sherpa/startup_scripts/a.sh".to_string(),
            "chown -R sherpa:sherpa /home/sherpa/scripts".to_string(),
            "su - sherpa -c 'bash /home/sherpa/scripts/u.sh'".to_string(),
            "printf 'MSG=\"it'\\''s\"\n' >> /etc/environment".to_string(),
        ]
    );
}

#[test]
fn nothing_to_write() {
    let p = cloud_init_payload(None, "/c", &Vec::new(), None, "sherpa", "/s", &Vec::new());
    assert!(p.write_files.is_empty());
    assert!(p.runcmd.is_empty());
    assert_eq!(admin_group_and_shell(true), ("wheel", "/bin/sh"));
    assert_eq!(admin_group_and_shell(false), ("sudo", "/bin/bash"));
}

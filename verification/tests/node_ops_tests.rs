use sherpa_server::services::node_ops::{
    build_env_profile_script, build_etc_environment_entries, build_windows_env_commands,
};

#[test]
fn test_build_env_profile_script_basic() {
    let env_vars = vec!["EDITOR=vim".to_string(), "LANG=en_US.UTF-8".to_string()];
    let script = build_env_profile_script(&env_vars);
    assert_eq!(
        script,
        "#!/bin/sh\nexport EDITOR='vim'\nexport LANG='en_US.UTF-8'\n"
    );
}

#[test]
fn test_build_env_profile_script_with_single_quotes() {
    let env_vars = vec!["MSG=it's a test".to_string()];
    let script = build_env_profile_script(&env_vars);
    assert_eq!(script, "#!/bin/sh\nexport MSG='it'\\''s a test'\n");
}

#[test]
fn test_build_env_profile_script_with_spaces() {
    let env_vars = vec!["GREETING=hello world".to_string()];
    let script = build_env_profile_script(&env_vars);
    assert_eq!(script, "#!/bin/sh\nexport GREETING='hello world'\n");
}

#[test]
fn test_build_env_profile_script_empty() {
    let env_vars: Vec<String> = vec![];
    let script = build_env_profile_script(&env_vars);
    assert_eq!(script, "#!/bin/sh\n");
}

#[test]
fn test_build_etc_environment_entries_simple() {
    let env_vars = vec!["EDITOR=vim".to_string(), "TOKEN=abc123".to_string()];
    let entries = build_etc_environment_entries(&env_vars);
    assert_eq!(entries, "EDITOR=vim\nTOKEN=abc123\n");
}

#[test]
fn test_build_etc_environment_entries_with_spaces() {
    let env_vars = vec!["MSG=hello world".to_string()];
    let entries = build_etc_environment_entries(&env_vars);
    assert_eq!(entries, "MSG=\"hello world\"\n");
}

#[test]
fn test_build_etc_environment_entries_with_quotes() {
    let env_vars = vec!["MSG=say \"hi\"".to_string()];
    let entries = build_etc_environment_entries(&env_vars);
    assert_eq!(entries, "MSG=\"say \\\"hi\\\"\"\n");
}

#[test]
fn test_build_etc_environment_entries_empty() {
    let env_vars: Vec<String> = vec![];
    let entries = build_etc_environment_entries(&env_vars);
    assert_eq!(entries, "");
}

#[test]
fn test_build_windows_env_commands_basic() {
    let env_vars = vec!["EDITOR=vim".to_string()];
    let commands = build_windows_env_commands(&env_vars);
    assert_eq!(commands.len(), 1);
    assert_eq!(
        commands[0],
        "powershell -Command \"[System.Environment]::SetEnvironmentVariable('EDITOR', 'vim', 'Machine')\""
    );
}

#[test]
fn test_build_windows_env_commands_with_single_quotes() {
    let env_vars = vec!["MSG=it's here".to_string()];
    let commands = build_windows_env_commands(&env_vars);
    assert_eq!(commands.len(), 1);
    assert!(commands[0].contains("'it''s here'"));
}

#[test]
fn test_build_windows_env_commands_empty() {
    let env_vars: Vec<String> = vec![];
    let commands = build_windows_env_commands(&env_vars);
    assert!(commands.is_empty());
}

#[test]
fn entries_without_equals_are_skipped_and_backslashes_escaped() {
    let env_vars = vec![
        "NOEQUALS".to_string(),
        "PATH=C:\\bin".to_string(),
        "A==b".to_string(),
    ];
    assert_eq!(
        build_env_profile_script(&env_vars),
        "#!/bin/sh\nexport PATH='C:\\bin'\nexport A='=b'\n"
    );
    assert_eq!(
        build_etc_environment_entries(&env_vars),
        "PATH=\"C:\\\\bin\"\nA==b\n"
    );
    assert_eq!(build_windows_env_commands(&env_vars).len(), 2);
}

/// Reads a shell word of single-quoted runs and backslash escapes.
fn shell_word(word: &str) -> Option<String> {
    let mut out = String::new();
    let mut chars = word.chars();
    let mut quoted = false;
    while let Some(c) = chars.next() {
        if quoted {
            if c == '\'' {
                quoted = false;
            } else {
                out.push(c);
            }
        } else if c == '\'' {
            quoted = true;
        } else if c == '\\' {
            out.push(chars.next()?);
        } else {
            out.push(c);
        }
    }
    if quoted {
        None
    } else {
        Some(out)
    }
}

#[test]
fn exported_values_read_back_in_a_shell() {
    for value in ["plain", "it's", "''", "a b\\c", "", "x'y'z"] {
        let script = build_env_profile_script(&[format!("K={}", value)]);
        let line = script.strip_prefix("#!/bin/sh\nexport K=").unwrap();
        let word = line.strip_suffix('\n').unwrap();
        assert_eq!(shell_word(word), Some(value.to_string()));
    }
}

#[test]
fn windows_values_read_back_in_powershell() {
    for value in ["it's", "''", "plain", ""] {
        let commands = build_windows_env_commands(&[format!("K={}", value)]);
        let literal = commands[0]
            .strip_prefix("powershell -Command \"[System.Environment]::SetEnvironmentVariable('K', ")
            .unwrap()
            .strip_suffix(", 'Machine')\"")
            .unwrap();
        let inner = literal.strip_prefix('\'').unwrap().strip_suffix('\'').unwrap();
        assert_eq!(inner.replace("''", "'"), value);
    }
}

#[test]
fn environment_values_read_back_from_double_quotes() {
    for value in ["say \"hi\"", "C:\\dir\\", "a b", "\\\""] {
        let entries = build_etc_environment_entries(&[format!("K={}", value)]);
        let quoted = entries.strip_prefix("K=\"").unwrap().strip_suffix("\"\n").unwrap();
        let mut out = String::new();
        let mut chars = quoted.chars();
        while let Some(c) = chars.next() {
            if c == '\\' {
                out.push(chars.next().unwrap());
            } else {
                out.push(c);
            }
        }
        assert_eq!(out, value);
    }
}

use sherpa_server::services::node_ops::{cert_files, CertTarget, NodeCertContents};

#[test]
fn certificate_files_for_each_provisioner() {
    let contents = NodeCertContents {
        ca_cert: "CA".to_string(),
        node_cert: "CERT".to_string(),
        node_key: "KEY".to_string(),
    };
    let linux = cert_files(&contents, "/etc/sherpa/tls", CertTarget::CloudInit);
    let paths: Vec<&str> = linux.iter().map(|f| f.path.as_str()).collect();
    assert_eq!(paths, vec!["/etc/sherpa/tls/ca.crt", "/etc/sherpa/tls/node.crt", "/etc/sherpa/tls/node.key"]);
    let modes: Vec<u32> = linux.iter().map(|f| f.mode).collect();
    assert_eq!(modes, vec![0o644, 0o644, 0o600]);
    assert_eq!(linux[2].content, "KEY");
    assert!(linux.iter().all(|f| f.owner.as_deref() == Some("root:root")));
    let windows = cert_files(&contents, "C:\\sherpa", CertTarget::Cloudbase);
    assert_eq!(windows[0].path, "C:\\sherpa\\ca.crt");
    assert!(windows.iter().all(|f| f.owner.is_none()));
    let ignition = cert_files(&contents, "/etc/tls", CertTarget::Ignition);
    assert_eq!(ignition[1].path, "/etc/tls/node.crt");
    assert!(ignition[1].owner.is_none());
}

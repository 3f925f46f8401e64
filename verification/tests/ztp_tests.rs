use sherpa_server::services::node_ops::NodeCertPaths;
use sherpa_server::services::ztp::{
    vm_clone_disks, GeneratedDisks, VmDiskLayout, ZtpMethod,
    cdrom_ztp_plan, container_ztp_plan, license_boot_command, ssh_key_form, CdromModel,
    ContainerModel, ContainerModelSettings, ContainerNodeSpec, KeyForm, RenderedConfigs,
    VolumeMount,
};

fn settings() -> ContainerModelSettings {
    ContainerModelSettings {
        image: "repo/model".to_string(),
        env_vars: vec!["A=1".to_string()],
        commands: vec!["/sbin/init".to_string()],
        config_mount: "/mnt/config".to_string(),
        daemons_mount: "/etc/frr/daemons".to_string(),
        startup_mount: "/tmp/sherpa-init.sh".to_string(),
        user: Some("admin".to_string()),
        shm_size_mib: 256,
        capabilities: vec!["IPC_LOCK".to_string()],
    }
}

fn node(name: &str) -> ContainerNodeSpec {
    ContainerNodeSpec {
        name: name.to_string(),
        image: Some("custom/image".to_string()),
        env_vars: Some(vec!["X=2".to_string()]),
        commands: None,
        privileged: None,
        shm_size: None,
        user: Some("me".to_string()),
        volumes: Some(vec![VolumeMount { src: "/a".to_string(), dst: "/b".to_string() }]),
    }
}

fn rendered() -> RenderedConfigs {
    RenderedConfigs {
        main: "hostname x".to_string(),
        frr_daemons: "bgpd=yes".to_string(),
        frr_startup: "#!/bin/sh".to_string(),
    }
}

#[test]
fn arista_gets_its_own_configuration() {
    let p = container_ztp_plan(
        ContainerModel::AristaCeos,
        &node("ceos1"),
        None,
        &rendered(),
        "/labs/l1",
        &settings(),
        None,
        "/certs",
    );
    assert_eq!(p.dir, "/labs/l1/ceos1");
    assert_eq!(p.files.len(), 1);
    assert_eq!(p.files[0].path, "/labs/l1/ceos1/ceos1.conf");
    assert_eq!(p.files[0].content, "hostname x");
    assert_eq!(p.image, "repo/model");
    assert_eq!(p.env_vars, vec!["A=1".to_string()]);
    assert_eq!(p.volumes, vec!["/labs/l1/ceos1/ceos1.conf:/mnt/config".to_string()]);
    assert!(p.privileged);
    assert_eq!(p.user, Some("me".to_string()));
    assert_eq!(p.config_file, "ceos1.conf");
}

#[test]
fn frr_writes_three_files_and_custom_config_wins() {
    let certs = NodeCertPaths {
        ca_cert: "/c/ca".to_string(),
        node_cert: "/c/n".to_string(),
        node_key: "/c/k".to_string(),
    };
    let p = container_ztp_plan(
        ContainerModel::FrrLinux,
        &node("frr1"),
        Some("router bgp 1"),
        &rendered(),
        "/labs/l1",
        &settings(),
        Some(&certs),
        "/certs",
    );
    let paths: Vec<&str> = p.files.iter().map(|f| f.path.as_str()).collect();
    assert_eq!(
        paths,
        vec!["/labs/l1/frr1/daemons", "/labs/l1/frr1/frr.conf", "/labs/l1/frr1/sherpa-init.sh"]
    );
    assert_eq!(p.files[1].content, "router bgp 1");
    assert_eq!(p.commands, vec!["/bin/sh".to_string(), "/tmp/sherpa-init.sh".to_string()]);
    assert_eq!(p.volumes.len(), 6);
    assert_eq!(p.volumes[5], "/c/k:/certs/node.key:ro");
}

#[test]
fn other_models_run_as_the_manifest_says() {
    let p = container_ztp_plan(
        ContainerModel::Other,
        &node("app1"),
        None,
        &rendered(),
        "/labs/l1",
        &settings(),
        None,
        "/certs",
    );
    assert!(p.files.is_empty());
    assert_eq!(p.image, "custom/image");
    assert_eq!(p.env_vars, vec!["X=2".to_string()]);
    assert_eq!(p.volumes, vec!["/a:/b".to_string()]);
    assert!(p.commands.is_empty());
    assert!(!p.privileged);
    let g = container_ztp_plan(
        ContainerModel::GitlabCe,
        &node("git1"),
        None,
        &rendered(),
        "/labs/l1",
        &settings(),
        None,
        "/certs",
    );
    assert_eq!(g.shm_size, Some(256 * 1024 * 1024));
    assert!(g.volumes.is_empty());
    let v = container_ztp_plan(
        ContainerModel::HashicorpVault,
        &node("vault1"),
        None,
        &rendered(),
        "/labs/l1",
        &settings(),
        None,
        "/certs",
    );
    assert_eq!(v.capabilities, vec!["IPC_LOCK".to_string()]);
    assert_eq!(v.files[0].path, "/labs/l1/vault1/config.hcl");
}

#[test]
fn cdrom_ztp() {
    assert_eq!(
        license_boot_command(CdromModel::CiscoCat8000v),
        Some("license boot level network-premier addon dna-premier")
    );
    assert_eq!(license_boot_command(CdromModel::CiscoCsr1000v), None);
    assert_eq!(ssh_key_form(CdromModel::CiscoCat9000v), KeyForm::Md5Hash);
    assert_eq!(ssh_key_form(CdromModel::CiscoAsav), KeyForm::Sha256Hash);
    assert_eq!(ssh_key_form(CdromModel::JuniperVsrxv3), KeyForm::Key);
    let p = cdrom_ztp_plan(
        CdromModel::CiscoAsav, "cisco_asav", "fw1", "/labs/l1", None, "cfg", "day0-config", "ztp.iso",
    )
    .ok()
    .unwrap();
    assert_eq!(p.config.path, "/labs/l1/fw1/day0-config");
    assert_eq!(p.iso_path, "/labs/l1/fw1/ztp.iso");
    let pan = cdrom_ztp_plan(
        CdromModel::PaloaltoPanos, "paloalto_panos", "pa1", "/labs/l1", None, "cfg", "init-cfg.txt", "ztp.iso",
    )
    .ok()
    .unwrap();
    assert_eq!(pan.config.path, "/labs/l1/pa1/config/init-cfg.txt");
    assert_eq!(pan.extra_dirs.len(), 4);
    assert_eq!(
        cdrom_ztp_plan(CdromModel::Other, "ubuntu_linux", "u1", "/l", None, "c", "f", "i").err(),
        Some("CDROM ZTP method not supported for ubuntu_linux".to_string())
    );
}

fn layout() -> VmDiskLayout {
    VmDiskLayout {
        images_dir: "/opt/images".to_string(),
        pool_dir: "/pool".to_string(),
        cdrom_images_dir: "aboot".to_string(),
        ztp_iso: "ztp.iso".to_string(),
    }
}

fn no_disks() -> GeneratedDisks {
    GeneratedDisks { config: None, usb: None, ignition: None }
}

#[test]
fn vm_disks_in_order() {
    let d = vm_clone_disks(
        "r1", "lab1", "/labs/lab1", "cisco_asav", "9.20", Some(20), None, true,
        ZtpMethod::Cdrom, "Cdrom", false, &layout(), &no_disks(),
    )
    .ok()
    .unwrap();
    assert_eq!(d.len(), 2);
    assert_eq!(d[0].src, "/opt/images/cisco_asav/9.20/virtioa.qcow2");
    assert_eq!(d[0].dst, "/pool/r1-lab1-hdd.qcow2");
    assert_eq!(d[0].disk_size, Some(20));
    assert_eq!(d[1].src, "/labs/lab1/r1/ztp.iso");
    assert_eq!(d[1].dst, "/pool/r1-lab1.iso");
    let aboot = vm_clone_disks(
        "sw1", "lab1", "/labs/lab1", "arista_veos", "4.30", None, Some("Aboot.iso"), true,
        ZtpMethod::Tftp, "Tftp", true, &layout(), &no_disks(),
    )
    .ok()
    .unwrap();
    assert_eq!(aboot[1].src, "/opt/images/arista_veos/aboot/Aboot.iso");
    let ign = GeneratedDisks {
        config: Some(("/c/src".to_string(), "/c/dst".to_string())),
        usb: Some(("/u/src".to_string(), "/u/dst".to_string())),
        ignition: Some(("/i/src".to_string(), "/i/dst".to_string())),
    };
    let f = vm_clone_disks(
        "fc1", "lab1", "/labs/lab1", "flatcar_linux", "1", None, None, true,
        ZtpMethod::Ignition, "Ignition", false, &layout(), &ign,
    )
    .ok()
    .unwrap();
    let dsts: Vec<&str> = f.iter().map(|c| c.dst.as_str()).collect();
    assert_eq!(dsts, vec!["/pool/fc1-lab1-hdd.qcow2", "/c/dst", "/i/dst"]);
}

#[test]
fn custom_config_needs_a_file_method() {
    assert_eq!(
        vm_clone_disks(
            "u1", "lab1", "/labs/lab1", "ubuntu_linux", "24.04", None, None, true,
            ZtpMethod::CloudInit, "CloudInit", true, &layout(), &no_disks(),
        )
        .err(),
        Some("Custom ZTP config is not supported for node 'u1' with ZTP method 'CloudInit'. Only Tftp, Cdrom, Disk, Usb, and Volume methods support custom ZTP config files.".to_string())
    );
}

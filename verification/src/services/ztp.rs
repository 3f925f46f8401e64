//! What the ZTP configuration of a container node consists of: its image,
//! environment, commands, volumes and the configuration files to write, from
//! the node's manifest entry, its model's fixed settings and the rendered
//! configuration templates; what the CD-ROM ZTP of a VM needs; and which
//! disk images a VM is cloned from. Rendering and writing the files is the
//! caller's.
use crate::services::node_ops::NodeCertPaths;
use crate::text::{push_str_chars, string_from_chars};
use vstd::prelude::*;

verus! {

/// The container models whose configuration the server generates.
#[derive(Clone, Copy, PartialEq, Eq, Structural, Debug)]
pub enum ContainerModel {
    AristaCeos,
    NokiaSrlinux,
    FrrLinux,
    GitlabCe,
    SurrealDb,
    HashicorpVault,
    /// Any other container model: the manifest's settings are used as given.
    Other,
}

/// The fixed settings of a container model: its image repository,
/// environment, commands, mount points and defaults.
pub struct ContainerModelSettings {
    pub image: String,
    pub env_vars: Vec<String>,
    pub commands: Vec<String>,
    /// Where the main configuration file is mounted.
    pub config_mount: String,
    /// Where FRR's `daemons` file is mounted.
    pub daemons_mount: String,
    /// Where FRR's start-up script is mounted.
    pub startup_mount: String,
    /// The user SR Linux runs as.
    pub user: Option<String>,
    /// GitLab's default shared-memory size, in MiB.
    pub shm_size_mib: i64,
    /// The Linux capabilities Vault needs.
    pub capabilities: Vec<String>,
}

/// A volume of the manifest.
pub struct VolumeMount {
    pub src: String,
    pub dst: String,
}

/// The container settings of a node's manifest entry.
pub struct ContainerNodeSpec {
    pub name: String,
    pub image: Option<String>,
    pub env_vars: Option<Vec<String>>,
    pub commands: Option<Vec<String>>,
    pub privileged: Option<bool>,
    pub shm_size: Option<i64>,
    pub user: Option<String>,
    pub volumes: Option<Vec<VolumeMount>>,
}

/// The rendered configuration templates of a node: the model's main
/// configuration, and FRR's `daemons` file and start-up script.
pub struct RenderedConfigs {
    pub main: String,
    pub frr_daemons: String,
    pub frr_startup: String,
}

/// A file to write.
pub struct ZtpFile {
    pub path: String,
    pub content: String,
}

/// The container configuration of a node.
pub struct ContainerZtpPlan {
    /// The node's configuration directory.
    pub dir: String,
    /// The files to write there, in order.
    pub files: Vec<ZtpFile>,
    pub image: String,
    pub env_vars: Vec<String>,
    pub volumes: Vec<String>,
    pub commands: Vec<String>,
    pub capabilities: Vec<String>,
    pub privileged: bool,
    pub shm_size: Option<i64>,
    pub user: Option<String>,
    /// The configuration file named in the node's ZTP record.
    pub config_file: String,
}

/// The text of an optional string, empty when absent.
pub open spec fn text_or_empty(s: Option<String>) -> Seq<char> {
    match s {
        Some(t) => t@,
        None => Seq::empty(),
    }
}

/// The strings of an optional list, none when absent.
pub open spec fn list_or_empty(v: Option<Vec<String>>) -> Seq<Seq<char>> {
    match v {
        Some(l) => l.deep_view(),
        None => Seq::empty(),
    }
}

/// The text of an optional string, by view.
pub open spec fn opt_view(s: Option<String>) -> Option<Seq<char>> {
    match s {
        Some(t) => Some(t@),
        None => None,
    }
}

/// `src:dst` for a volume.
pub open spec fn volume_text(src: Seq<char>, dst: Seq<char>) -> Seq<char> {
    src + ":"@ + dst
}

/// The manifest's volumes as `src:dst` texts.
pub open spec fn manifest_volumes(v: Seq<VolumeMount>) -> Seq<Seq<char>> {
    Seq::new(v.len(), |i: int| volume_text(v[i].src@, v[i].dst@))
}

/// The main configuration content: the custom one when given, else the rendered one.
pub open spec fn main_config(custom: Option<Seq<char>>, rendered: Seq<char>) -> Seq<char> {
    match custom {
        Some(c) => c,
        None => rendered,
    }
}

/// The files of the model, as (path, content) pairs.
pub open spec fn plan_files(
    model: ContainerModel,
    dir: Seq<char>,
    name: Seq<char>,
    main: Seq<char>,
    rendered: RenderedConfigs,
) -> Seq<(Seq<char>, Seq<char>)> {
    match model {
        ContainerModel::AristaCeos => seq![(dir + "/"@ + name + ".conf"@, main)],
        ContainerModel::NokiaSrlinux => seq![(dir + "/"@ + name + ".json"@, main)],
        ContainerModel::FrrLinux => seq![
            (dir + "/daemons"@, rendered.frr_daemons@),
            (dir + "/frr.conf"@, main),
            (dir + "/sherpa-init.sh"@, rendered.frr_startup@),
        ],
        ContainerModel::HashicorpVault => seq![(dir + "/config.hcl"@, main)],
        _ => Seq::empty(),
    }
}

/// The volumes of the model's own files (before the certificate mounts).
pub open spec fn model_volumes(
    model: ContainerModel,
    dir: Seq<char>,
    name: Seq<char>,
    node_volumes: Option<Seq<VolumeMount>>,
    settings: ContainerModelSettings,
) -> Seq<Seq<char>> {
    match model {
        ContainerModel::AristaCeos => seq![
            volume_text(dir + "/"@ + name + ".conf"@, settings.config_mount@),
        ],
        ContainerModel::NokiaSrlinux => seq![
            volume_text(dir + "/"@ + name + ".json"@, settings.config_mount@),
        ],
        ContainerModel::FrrLinux => seq![
            volume_text(dir + "/daemons"@, settings.daemons_mount@),
            volume_text(dir + "/frr.conf"@, settings.config_mount@),
            volume_text(dir + "/sherpa-init.sh"@, settings.startup_mount@),
        ],
        ContainerModel::HashicorpVault => seq![
            volume_text(dir + "/config.hcl"@, settings.config_mount@),
        ],
        ContainerModel::GitlabCe | ContainerModel::SurrealDb => Seq::empty(),
        ContainerModel::Other => match node_volumes {
            Some(v) => manifest_volumes(v),
            None => Seq::empty(),
        },
    }
}

/// The read-only certificate mounts of a node, in `certs_dir`.
pub open spec fn cert_volumes(certs: Option<NodeCertPaths>, certs_dir: Seq<char>) -> Seq<Seq<char>> {
    match certs {
        Some(c) => seq![
            volume_text(c.ca_cert@, certs_dir + "/ca.crt:ro"@),
            volume_text(c.node_cert@, certs_dir + "/node.crt:ro"@),
            volume_text(c.node_key@, certs_dir + "/node.key:ro"@),
        ],
        None => Seq::empty(),
    }
}

/// Whether the model sets its own image, environment and commands.
pub open spec fn configures_itself(model: ContainerModel) -> bool {
    !(model is Other)
}

/// Whether `r` is the container configuration of `node` of model `model`.
pub open spec fn is_container_plan(
    r: ContainerZtpPlan,
    model: ContainerModel,
    node: ContainerNodeSpec,
    custom: Option<Seq<char>>,
    rendered: RenderedConfigs,
    lab_dir: Seq<char>,
    settings: ContainerModelSettings,
    certs: Option<NodeCertPaths>,
    certs_dir: Seq<char>,
) -> bool {
    let dir = lab_dir + "/"@ + node.name@;
    let main = main_config(custom, rendered.main@);
    let files = plan_files(model, dir, node.name@, main, rendered);
    &&& r.dir@ == dir
    &&& r.files@.len() == files.len()
    &&& forall|i: int|
        0 <= i < files.len() ==> (#[trigger] r.files@[i]).path@ == files[i].0
            && r.files@[i].content@ == files[i].1
    &&& r.image@ == if configures_itself(model) {
        settings.image@
    } else {
        text_or_empty(node.image)
    }
    &&& r.env_vars.deep_view() == match model {
        ContainerModel::AristaCeos | ContainerModel::NokiaSrlinux | ContainerModel::FrrLinux
        | ContainerModel::HashicorpVault => settings.env_vars.deep_view(),
        _ => list_or_empty(node.env_vars),
    }
    &&& r.commands.deep_view() == match model {
        ContainerModel::FrrLinux => seq!["/bin/sh"@, "/tmp/sherpa-init.sh"@],
        ContainerModel::Other => list_or_empty(node.commands),
        _ => settings.commands.deep_view(),
    }
    &&& r.capabilities.deep_view() == if model is HashicorpVault {
        settings.capabilities.deep_view()
    } else {
        Seq::empty()
    }
    &&& r.privileged == match model {
        ContainerModel::AristaCeos | ContainerModel::NokiaSrlinux | ContainerModel::FrrLinux => true,
        _ => match node.privileged {
            Some(p) => p,
            None => false,
        },
    }
    &&& opt_view(r.user) == if model is NokiaSrlinux {
        opt_view(settings.user)
    } else {
        opt_view(node.user)
    }
    &&& r.shm_size == if model is GitlabCe && node.shm_size is None {
        Some((settings.shm_size_mib * 1024 * 1024) as i64)
    } else {
        node.shm_size
    }
    &&& r.volumes.deep_view() == model_volumes(
        model,
        dir,
        node.name@,
        match node.volumes {
            Some(v) => Some(v@),
            None => None,
        },
        settings,
    ) + cert_volumes(certs, certs_dir)
    &&& r.config_file@ == node.name@ + ".conf"@
}

fn cat2(a: &str, b: &str) -> (r: String)
    ensures
        r@ == a@ + b@,
{
    let mut out: Vec<char> = Vec::new();
    push_str_chars(&mut out, a);
    push_str_chars(&mut out, b);
    string_from_chars(&out)
}

fn cat3(a: &str, b: &str, c: &str) -> (r: String)
    ensures
        r@ == a@ + b@ + c@,
{
    let mut out: Vec<char> = Vec::new();
    push_str_chars(&mut out, a);
    push_str_chars(&mut out, b);
    push_str_chars(&mut out, c);
    string_from_chars(&out)
}

fn copy_str(s: &str) -> (r: String)
    ensures
        r@ == s@,
{
    let mut out: Vec<char> = Vec::new();
    push_str_chars(&mut out, s);
    string_from_chars(&out)
}

fn copy_opt(s: &Option<String>) -> (r: Option<String>)
    ensures
        opt_view(r) == opt_view(*s),
{
    match s {
        Some(t) => Some(copy_str(t.as_str())),
        None => None,
    }
}

fn copy_strings(v: &Vec<String>) -> (r: Vec<String>)
    ensures
        r.deep_view() == v.deep_view(),
{
    let mut out: Vec<String> = Vec::new();
    let mut i: usize = 0;
    while i < v.len()
        invariant
            i <= v@.len(),
            out.deep_view() == v.deep_view().take(i as int),
        decreases v@.len() - i,
    {
        let ghost before = out.deep_view();
        assert(v.deep_view()[i as int] == v@[i as int]@);
        out.push(copy_str(v[i].as_str()));
        assert(out.deep_view() =~= before.push(v@[i as int]@));
        assert(out.deep_view() =~= v.deep_view().take(i + 1));
        i = i + 1;
    }
    assert(v.deep_view().take(v@.len() as int) =~= v.deep_view());
    out
}

fn copy_opt_strings(v: &Option<Vec<String>>) -> (r: Vec<String>)
    ensures
        r.deep_view() == list_or_empty(*v),
{
    match v {
        Some(l) => copy_strings(l),
        None => {
            let r: Vec<String> = Vec::new();
            assert(r.deep_view() =~= Seq::<Seq<char>>::empty());
            r
        },
    }
}

fn volume_texts(v: &Vec<VolumeMount>) -> (r: Vec<String>)
    ensures
        r.deep_view() == manifest_volumes(v@),
{
    let mut out: Vec<String> = Vec::new();
    let mut i: usize = 0;
    while i < v.len()
        invariant
            i <= v@.len(),
            out.deep_view() == manifest_volumes(v@).take(i as int),
        decreases v@.len() - i,
    {
        let ghost before = out.deep_view();
        out.push(cat3(v[i].src.as_str(), ":", v[i].dst.as_str()));
        assert(out.deep_view() =~= before.push(volume_text(v@[i as int].src@, v@[i as int].dst@)));
        assert(out.deep_view() =~= manifest_volumes(v@).take(i + 1));
        i = i + 1;
    }
    assert(manifest_volumes(v@).take(v@.len() as int) =~= manifest_volumes(v@));
    out
}

fn file(path: String, content: String) -> (r: ZtpFile)
    ensures
        r.path@ == path@,
        r.content@ == content@,
{
    ZtpFile { path, content }
}

/// The container configuration of `node`, of model `model`, in the lab
/// directory `lab_dir`: a custom configuration replaces the rendered main
/// one; models the server knows bring their own image, environment,
/// commands and configuration files (mounted into the container), other
/// models run as the manifest says; the node's certificates are mounted
/// read-only into `certs_dir` when given.
pub fn container_ztp_plan(
    model: ContainerModel,
    node: &ContainerNodeSpec,
    custom: Option<&str>,
    rendered: &RenderedConfigs,
    lab_dir: &str,
    settings: &ContainerModelSettings,
    certs: Option<&NodeCertPaths>,
    certs_dir: &str,
) -> (r: ContainerZtpPlan)
    requires
        0 <= settings.shm_size_mib,
        settings.shm_size_mib * 1024 * 1024 <= i64::MAX,
    ensures
        is_container_plan(
            r,
            model,
            *node,
            match custom {
                Some(c) => Some(c@),
                None => None,
            },
            *rendered,
            lab_dir@,
            *settings,
            match certs {
                Some(c) => Some(*c),
                None => None,
            },
            certs_dir@,
        ),
{
    let name = node.name.as_str();
    let dir = cat3(lab_dir, "/", name);
    let main = match custom {
        Some(c) => copy_str(c),
        None => copy_str(rendered.main.as_str()),
    };
    let mut files: Vec<ZtpFile> = Vec::new();
    let mut volumes: Vec<String> = Vec::new();
    match model {
        ContainerModel::AristaCeos => {
            let p = cat3(dir.as_str(), "/", name);
            let p = cat2(p.as_str(), ".conf");
            volumes.push(cat3(p.as_str(), ":", settings.config_mount.as_str()));
            files.push(file(p, main));
        },
        ContainerModel::NokiaSrlinux => {
            let p = cat3(dir.as_str(), "/", name);
            let p = cat2(p.as_str(), ".json");
            volumes.push(cat3(p.as_str(), ":", settings.config_mount.as_str()));
            files.push(file(p, main));
        },
        ContainerModel::FrrLinux => {
            let d = cat2(dir.as_str(), "/daemons");
            let c = cat2(dir.as_str(), "/frr.conf");
            let s = cat2(dir.as_str(), "/sherpa-init.sh");
            volumes.push(cat3(d.as_str(), ":", settings.daemons_mount.as_str()));
            volumes.push(cat3(c.as_str(), ":", settings.config_mount.as_str()));
            volumes.push(cat3(s.as_str(), ":", settings.startup_mount.as_str()));
            files.push(file(d, copy_str(rendered.frr_daemons.as_str())));
            files.push(file(c, main));
            files.push(file(s, copy_str(rendered.frr_startup.as_str())));
        },
        ContainerModel::HashicorpVault => {
            let p = cat2(dir.as_str(), "/config.hcl");
            volumes.push(cat3(p.as_str(), ":", settings.config_mount.as_str()));
            files.push(file(p, main));
        },
        ContainerModel::GitlabCe | ContainerModel::SurrealDb => {},
        ContainerModel::Other => {
            match &node.volumes {
                Some(v) => {
                    volumes = volume_texts(v);
                },
                None => {},
            }
        },
    }
    let ghost before_certs = volumes.deep_view();
    match certs {
        Some(c) => {
            let ca = cat2(certs_dir, "/ca.crt:ro");
            let nc = cat2(certs_dir, "/node.crt:ro");
            let nk = cat2(certs_dir, "/node.key:ro");
            volumes.push(cat3(c.ca_cert.as_str(), ":", ca.as_str()));
            volumes.push(cat3(c.node_cert.as_str(), ":", nc.as_str()));
            volumes.push(cat3(c.node_key.as_str(), ":", nk.as_str()));
        },
        None => {},
    }
    let image = match model {
        ContainerModel::Other => match &node.image {
            Some(i) => copy_str(i.as_str()),
            None => String::new(),
        },
        _ => copy_str(settings.image.as_str()),
    };
    let env_vars = match model {
        ContainerModel::AristaCeos | ContainerModel::NokiaSrlinux | ContainerModel::FrrLinux
        | ContainerModel::HashicorpVault => copy_strings(&settings.env_vars),
        _ => copy_opt_strings(&node.env_vars),
    };
    let commands = match model {
        ContainerModel::FrrLinux => {
            let mut c: Vec<String> = Vec::new();
            c.push(copy_str("/bin/sh"));
            c.push(copy_str("/tmp/sherpa-init.sh"));
            c
        },
        ContainerModel::Other => copy_opt_strings(&node.commands),
        _ => copy_strings(&settings.commands),
    };
    let capabilities = match model {
        ContainerModel::HashicorpVault => copy_strings(&settings.capabilities),
        _ => Vec::new(),
    };
    let privileged = match model {
        ContainerModel::AristaCeos | ContainerModel::NokiaSrlinux | ContainerModel::FrrLinux => true,
        _ => match node.privileged {
            Some(p) => p,
            None => false,
        },
    };
    let user = match model {
        ContainerModel::NokiaSrlinux => copy_opt(&settings.user),
        _ => copy_opt(&node.user),
    };
    let shm_size = match model {
        ContainerModel::GitlabCe => match node.shm_size {
            None => Some(settings.shm_size_mib * 1024 * 1024),
            Some(s) => Some(s),
        },
        _ => node.shm_size,
    };
    let config_file = cat2(name, ".conf");
    proof {
        assert(volumes.deep_view() =~= model_volumes(
            model,
            dir@,
            name@,
            match node.volumes {
                Some(v) => Some(v@),
                None => None,
            },
            *settings,
        ) + cert_volumes(
            match certs {
                Some(c) => Some(*c),
                None => None,
            },
            certs_dir@,
        ));
        assert(capabilities.deep_view() =~= if model is HashicorpVault {
            settings.capabilities.deep_view()
        } else {
            Seq::empty()
        });
        assert(commands.deep_view() =~= match model {
            ContainerModel::FrrLinux => seq!["/bin/sh"@, "/tmp/sherpa-init.sh"@],
            ContainerModel::Other => list_or_empty(node.commands),
            _ => settings.commands.deep_view(),
        });
    }
    ContainerZtpPlan {
        dir,
        files,
        image,
        env_vars,
        volumes,
        commands,
        capabilities,
        privileged,
        shm_size,
        user,
        config_file,
    }
}

/// The VM models that take their ZTP configuration from a CD-ROM.
#[derive(Clone, Copy, PartialEq, Eq, Structural, Debug)]
pub enum CdromModel {
    CiscoCsr1000v,
    CiscoCat8000v,
    CiscoCat9000v,
    CiscoAsav,
    CiscoNexus9300v,
    CiscoIosxrv9000,
    CiscoFtdv,
    JuniperVsrxv3,
    JuniperVrouter,
    JuniperVswitch,
    PaloaltoPanos,
    /// A model without CD-ROM ZTP.
    Other,
}

/// How the SSH public key of the lab user goes into a CD-ROM configuration.
#[derive(Clone, Copy, PartialEq, Eq, Structural, Debug)]
pub enum KeyForm {
    /// As the MD5 hash that IOS-XE expects.
    Md5Hash,
    /// As the SHA-256 hash that the ASAv expects.
    Sha256Hash,
    /// As the key itself.
    Key,
}

/// Whether the model runs IOS-XE.
pub open spec fn is_iosxe(model: CdromModel) -> bool {
    model is CiscoCsr1000v || model is CiscoCat8000v || model is CiscoCat9000v
}

/// The boot-level license command of an IOS-XE model, if it needs one.
pub fn license_boot_command(model: CdromModel) -> (r: Option<&'static str>)
    ensures
        match model {
            CdromModel::CiscoCat8000v => r matches Some(c) && c@
                == "license boot level network-premier addon dna-premier"@,
            CdromModel::CiscoCat9000v => r matches Some(c) && c@
                == "license boot level network-advantage addon dna-advantage"@,
            _ => r is None,
        },
{
    match model {
        CdromModel::CiscoCat8000v => Some("license boot level network-premier addon dna-premier"),
        CdromModel::CiscoCat9000v => Some(
            "license boot level network-advantage addon dna-advantage",
        ),
        _ => None,
    }
}

/// How the model's CD-ROM configuration carries the user's SSH key: IOS-XE
/// models take its MD5 hash, the ASAv its SHA-256 hash, others the key.
pub fn ssh_key_form(model: CdromModel) -> (r: KeyForm)
    ensures
        r == if is_iosxe(model) {
            KeyForm::Md5Hash
        } else if model is CiscoAsav {
            KeyForm::Sha256Hash
        } else {
            KeyForm::Key
        },
{
    match model {
        CdromModel::CiscoCsr1000v | CdromModel::CiscoCat8000v | CdromModel::CiscoCat9000v =>
            KeyForm::Md5Hash,
        CdromModel::CiscoAsav => KeyForm::Sha256Hash,
        _ => KeyForm::Key,
    }
}

/// What a CD-ROM ZTP writes: the configuration file and the ISO image.
pub struct CdromZtpPlan {
    pub dir: String,
    /// The configuration file and its content.
    pub config: ZtpFile,
    /// Further directories to create in `dir` (PAN-OS bootstrap layout).
    pub extra_dirs: Vec<String>,
    /// The ISO image built from `dir`.
    pub iso_path: String,
}

/// `CDROM ZTP method not supported for <model>`.
pub open spec fn cdrom_unsupported(model_name: Seq<char>) -> Seq<char> {
    "CDROM ZTP method not supported for "@ + model_name
}

/// The CD-ROM ZTP of VM `node_name` in `lab_dir`: a custom configuration is
/// written as given (under the model's configuration file name), otherwise
/// the rendered one; PAN-OS keeps its configuration in a `config`
/// subdirectory beside `content`, `license` and `software`; the ISO is
/// built from the node's directory. Models without CD-ROM ZTP are refused:
/// with a custom configuration for having no configuration file name.
pub fn cdrom_ztp_plan(
    model: CdromModel,
    model_name: &str,
    node_name: &str,
    lab_dir: &str,
    custom: Option<&str>,
    rendered: &str,
    config_filename: &str,
    iso_name: &str,
) -> (r: Result<CdromZtpPlan, String>)
    ensures
        match r {
            Ok(p) => {
                let dir = lab_dir@ + "/"@ + node_name@;
                &&& !(model is Other)
                &&& p.dir@ == dir
                &&& p.iso_path@ == dir + "/"@ + iso_name@
                &&& p.config.content@ == main_config(
                    match custom {
                        Some(c) => Some(c@),
                        None => None,
                    },
                    rendered@,
                )
                &&& if custom is None && model is PaloaltoPanos {
                    &&& p.config.path@ == dir + "/config/"@ + config_filename@
                    &&& p.extra_dirs.deep_view() == seq![
                        dir + "/config"@,
                        dir + "/content"@,
                        dir + "/license"@,
                        dir + "/software"@,
                    ]
                } else {
                    &&& p.config.path@ == dir + "/"@ + config_filename@
                    &&& p.extra_dirs@.len() == 0
                }
            },
            Err(e) => model is Other && e@ == if custom is Some {
                "No ZTP config filename mapping for model: "@ + model_name@
            } else {
                cdrom_unsupported(model_name@)
            },
        },
{
    if matches!(model, CdromModel::Other) {
        if custom.is_some() {
            return Err(cat2("No ZTP config filename mapping for model: ", model_name));
        }
        return Err(cat2("CDROM ZTP method not supported for ", model_name));
    }
    let dir = cat3(lab_dir, "/", node_name);
    let content = match custom {
        Some(c) => copy_str(c),
        None => copy_str(rendered),
    };
    let iso_path = cat3(dir.as_str(), "/", iso_name);
    let mut extra_dirs: Vec<String> = Vec::new();
    let path = if custom.is_none() && matches!(model, CdromModel::PaloaltoPanos) {
        extra_dirs.push(cat2(dir.as_str(), "/config"));
        extra_dirs.push(cat2(dir.as_str(), "/content"));
        extra_dirs.push(cat2(dir.as_str(), "/license"));
        extra_dirs.push(cat2(dir.as_str(), "/software"));
        cat3(dir.as_str(), "/config/", config_filename)
    } else {
        cat3(dir.as_str(), "/", config_filename)
    };
    proof {
        if custom is None && model is PaloaltoPanos {
            assert(extra_dirs.deep_view() =~= seq![
                dir@ + "/config"@,
                dir@ + "/content"@,
                dir@ + "/license"@,
                dir@ + "/software"@,
            ]);
        }
    }
    Ok(CdromZtpPlan { dir, config: file(path, content), extra_dirs, iso_path })
}

/// How a VM receives its zero-touch configuration.
#[derive(Clone, Copy, PartialEq, Eq, Structural, Debug)]
pub enum ZtpMethod {
    CloudInit,
    Tftp,
    Cdrom,
    Disk,
    Usb,
    Http,
    Ignition,
    Volume,
    /// No ZTP method.
    Unset,
}

/// Whether a custom configuration file can be handed to a method.
pub open spec fn takes_custom_config(method: ZtpMethod) -> bool {
    !(method is CloudInit || method is Ignition || method is Http || method is Unset)
}

/// Only the TFTP, CD-ROM, disk, USB and volume methods take a custom
/// configuration file.
pub proof fn law_custom_config_methods(method: ZtpMethod)
    ensures
        takes_custom_config(method) <==> (method == ZtpMethod::Tftp || method == ZtpMethod::Cdrom
            || method == ZtpMethod::Disk || method == ZtpMethod::Usb || method == ZtpMethod::Volume),
{
}

/// The refusal of a custom configuration for a method that cannot take one.
pub open spec fn custom_config_refused(node_name: Seq<char>, method_name: Seq<char>) -> Seq<char> {
    "Custom ZTP config is not supported for node '"@ + node_name + "' with ZTP method '"@
        + method_name
        + "'. Only Tftp, Cdrom, Disk, Usb, and Volume methods support custom ZTP config files."@
}

/// A disk image to copy into the storage pool before the VM is defined.
pub struct CloneDisk {
    pub src: String,
    pub dst: String,
    /// The size to grow the copy to, for the boot disk.
    pub disk_size: Option<u64>,
}

/// Where the disk images of a VM come from and go.
pub struct VmDiskLayout {
    /// The directory of the base images (`<dir>/<model>/<version>/virtioa.qcow2`).
    pub images_dir: String,
    /// The storage pool's directory.
    pub pool_dir: String,
    /// The subdirectory of a model's images that holds its boot CD-ROM images.
    pub cdrom_images_dir: String,
    /// The name of a node's ZTP ISO image in its configuration directory.
    pub ztp_iso: String,
}

/// The disks that a ZTP method generated: a configuration disk, a USB disk,
/// an Ignition disk, each as (source, destination).
pub struct GeneratedDisks {
    pub config: Option<(String, String)>,
    pub usb: Option<(String, String)>,
    pub ignition: Option<(String, String)>,
}

/// A (source, destination) pair by view.
pub open spec fn pair_view(p: Option<(String, String)>) -> Option<(Seq<char>, Seq<char>)> {
    match p {
        Some((a, b)) => Some((a@, b@)),
        None => None,
    }
}

/// The copies of a VM's disks, in order, as (source, destination, size).
pub open spec fn vm_clone_plan(
    node_name: Seq<char>,
    lab_id: Seq<char>,
    lab_dir: Seq<char>,
    model_name: Seq<char>,
    version: Seq<char>,
    boot_disk_size: Option<u64>,
    image_cdrom: Option<Seq<char>>,
    ztp_enable: bool,
    method: ZtpMethod,
    layout: VmDiskLayout,
    generated: GeneratedDisks,
) -> Seq<(Seq<char>, Seq<char>, Option<u64>)> {
    let full = node_name + "-"@ + lab_id;
    let boot = (
        layout.images_dir@ + "/"@ + model_name + "/"@ + version + "/virtioa.qcow2"@,
        layout.pool_dir@ + "/"@ + full + "-hdd.qcow2"@,
        boot_disk_size,
    );
    let iso_dst = layout.pool_dir@ + "/"@ + full + ".iso"@;
    let cdrom: Seq<(Seq<char>, Seq<char>, Option<u64>)> = if ztp_enable && (method is CloudInit
        || method is Cdrom) {
        seq![(lab_dir + "/"@ + node_name + "/"@ + layout.ztp_iso@, iso_dst, None)]
    } else {
        match image_cdrom {
            Some(iso) => seq![
                (
                    layout.images_dir@ + "/"@ + model_name + "/"@ + layout.cdrom_images_dir@
                        + "/"@ + iso,
                    iso_dst,
                    None,
                ),
            ],
            None => Seq::empty(),
        }
    };
    let config: Seq<(Seq<char>, Seq<char>, Option<u64>)> = match pair_view(generated.config) {
        Some((a, b)) => if ztp_enable && (method is Disk || method is Ignition) {
            seq![(a, b, None)]
        } else {
            Seq::empty()
        },
        None => Seq::empty(),
    };
    let usb: Seq<(Seq<char>, Seq<char>, Option<u64>)> = match pair_view(generated.usb) {
        Some((a, b)) => if ztp_enable && method is Usb {
            seq![(a, b, None)]
        } else {
            Seq::empty()
        },
        None => Seq::empty(),
    };
    let ignition: Seq<(Seq<char>, Seq<char>, Option<u64>)> = match pair_view(generated.ignition) {
        Some((a, b)) => if ztp_enable && method is Ignition {
            seq![(a, b, None)]
        } else {
            Seq::empty()
        },
        None => Seq::empty(),
    };
    seq![boot] + cdrom + config + usb + ignition
}

fn copy_pair(p: &(String, String)) -> (r: (String, String))
    ensures
        r.0@ == p.0@,
        r.1@ == p.1@,
{
    (copy_str(p.0.as_str()), copy_str(p.1.as_str()))
}

/// The disks a VM is cloned from: its boot disk (grown to the manifest's
/// size), then a CD-ROM image (the node's ZTP ISO for cloud-init and CD-ROM
/// ZTP, else the model's boot CD-ROM if it has one), then the configuration,
/// USB and Ignition disks that the ZTP method generated. A custom
/// configuration is refused for the methods that cannot take one.
pub fn vm_clone_disks(
    node_name: &str,
    lab_id: &str,
    lab_dir: &str,
    model_name: &str,
    version: &str,
    boot_disk_size: Option<u64>,
    image_cdrom: Option<&str>,
    ztp_enable: bool,
    method: ZtpMethod,
    method_name: &str,
    has_custom_config: bool,
    layout: &VmDiskLayout,
    generated: &GeneratedDisks,
) -> (r: Result<Vec<CloneDisk>, String>)
    ensures
        match r {
            Err(e) => ztp_enable && has_custom_config && !takes_custom_config(method) && e@
                == custom_config_refused(node_name@, method_name@),
            Ok(disks) => {
                let plan = vm_clone_plan(
                    node_name@,
                    lab_id@,
                    lab_dir@,
                    model_name@,
                    version@,
                    boot_disk_size,
                    match image_cdrom {
                        Some(c) => Some(c@),
                        None => None,
                    },
                    ztp_enable,
                    method,
                    *layout,
                    *generated,
                );
                &&& !(ztp_enable && has_custom_config && !takes_custom_config(method))
                &&& disks@.len() == plan.len()
                &&& forall|i: int|
                    0 <= i < plan.len() ==> (#[trigger] disks@[i]).src@ == plan[i].0 && disks@[i].dst@
                        == plan[i].1 && disks@[i].disk_size == plan[i].2
            },
        },
{
    let custom_refused = match method {
        ZtpMethod::CloudInit | ZtpMethod::Ignition | ZtpMethod::Http | ZtpMethod::Unset => true,
        _ => false,
    };
    if ztp_enable && has_custom_config && custom_refused {
        let mut out: Vec<char> = Vec::new();
        push_str_chars(&mut out, "Custom ZTP config is not supported for node '");
        push_str_chars(&mut out, node_name);
        push_str_chars(&mut out, "' with ZTP method '");
        push_str_chars(&mut out, method_name);
        push_str_chars(
            &mut out,
            "'. Only Tftp, Cdrom, Disk, Usb, and Volume methods support custom ZTP config files.",
        );
        return Err(string_from_chars(&out));
    }
    let full = cat3(node_name, "-", lab_id);
    let mut disks: Vec<CloneDisk> = Vec::new();
    let mut src: Vec<char> = Vec::new();
    push_str_chars(&mut src, layout.images_dir.as_str());
    push_str_chars(&mut src, "/");
    push_str_chars(&mut src, model_name);
    push_str_chars(&mut src, "/");
    push_str_chars(&mut src, version);
    push_str_chars(&mut src, "/virtioa.qcow2");
    let mut dst: Vec<char> = Vec::new();
    push_str_chars(&mut dst, layout.pool_dir.as_str());
    push_str_chars(&mut dst, "/");
    push_str_chars(&mut dst, full.as_str());
    push_str_chars(&mut dst, "-hdd.qcow2");
    disks.push(CloneDisk {
        src: string_from_chars(&src),
        dst: string_from_chars(&dst),
        disk_size: boot_disk_size,
    });
    let iso_dst = {
        let mut d: Vec<char> = Vec::new();
        push_str_chars(&mut d, layout.pool_dir.as_str());
        push_str_chars(&mut d, "/");
        push_str_chars(&mut d, full.as_str());
        push_str_chars(&mut d, ".iso");
        string_from_chars(&d)
    };
    let ztp_iso_method = match method {
        ZtpMethod::CloudInit | ZtpMethod::Cdrom => true,
        _ => false,
    };
    if ztp_enable && ztp_iso_method {
        let mut s: Vec<char> = Vec::new();
        push_str_chars(&mut s, lab_dir);
        push_str_chars(&mut s, "/");
        push_str_chars(&mut s, node_name);
        push_str_chars(&mut s, "/");
        push_str_chars(&mut s, layout.ztp_iso.as_str());
        disks.push(CloneDisk { src: string_from_chars(&s), dst: iso_dst, disk_size: None });
    } else {
        match image_cdrom {
            Some(iso) => {
                let mut s: Vec<char> = Vec::new();
                push_str_chars(&mut s, layout.images_dir.as_str());
                push_str_chars(&mut s, "/");
                push_str_chars(&mut s, model_name);
                push_str_chars(&mut s, "/");
                push_str_chars(&mut s, layout.cdrom_images_dir.as_str());
                push_str_chars(&mut s, "/");
                push_str_chars(&mut s, iso);
                disks.push(CloneDisk { src: string_from_chars(&s), dst: iso_dst, disk_size: None });
            },
            None => {},
        }
    }
    let config_method = match method {
        ZtpMethod::Disk | ZtpMethod::Ignition => true,
        _ => false,
    };
    match &generated.config {
        Some(p) => if ztp_enable && config_method {
            let (a, b) = copy_pair(p);
            disks.push(CloneDisk { src: a, dst: b, disk_size: None });
        },
        None => {},
    }
    let usb_method = match method {
        ZtpMethod::Usb => true,
        _ => false,
    };
    match &generated.usb {
        Some(p) => if ztp_enable && usb_method {
            let (a, b) = copy_pair(p);
            disks.push(CloneDisk { src: a, dst: b, disk_size: None });
        },
        None => {},
    }
    let ignition_method = match method {
        ZtpMethod::Ignition => true,
        _ => false,
    };
    match &generated.ignition {
        Some(p) => if ztp_enable && ignition_method {
            let (a, b) = copy_pair(p);
            disks.push(CloneDisk { src: a, dst: b, disk_size: None });
        },
        None => {},
    }
    Ok(disks)
}

/// Network-OS containers (Arista cEOS, Nokia SR Linux, FRR) always run
/// privileged, whatever the manifest says; any other container runs
/// privileged exactly when its manifest asks for it.
pub proof fn law_network_os_containers_run_privileged(
    r: ContainerZtpPlan,
    model: ContainerModel,
    node: ContainerNodeSpec,
    custom: Option<Seq<char>>,
    rendered: RenderedConfigs,
    lab_dir: Seq<char>,
    settings: ContainerModelSettings,
    certs: Option<NodeCertPaths>,
    certs_dir: Seq<char>,
)
    requires
        is_container_plan(r, model, node, custom, rendered, lab_dir, settings, certs, certs_dir),
    ensures
        model is AristaCeos ==> r.privileged,
        model is NokiaSrlinux ==> r.privileged,
        model is FrrLinux ==> r.privileged,
        !(model is AristaCeos || model is NokiaSrlinux || model is FrrLinux) ==> (r.privileged
            <==> node.privileged == Some(true)),
{
}

/// What a container plan takes from where: the node's configuration
/// directory is `<lab_dir>/<node>`; a custom configuration replaces the
/// rendered one in the model's configuration file; models with settings of
/// their own use their image and environment, while any other container uses
/// the manifest's image, environment and commands as given (GitLab and
/// SurrealDB take the manifest's environment too); FRR starts its
/// init script; only Vault gets capabilities; SR Linux runs as the model's
/// user; GitLab gets its default shared memory when the manifest sets none.
pub proof fn law_container_plan_sources(
    r: ContainerZtpPlan,
    model: ContainerModel,
    node: ContainerNodeSpec,
    custom: Option<Seq<char>>,
    rendered: RenderedConfigs,
    lab_dir: Seq<char>,
    settings: ContainerModelSettings,
    certs: Option<NodeCertPaths>,
    certs_dir: Seq<char>,
)
    requires
        is_container_plan(r, model, node, custom, rendered, lab_dir, settings, certs, certs_dir),
    ensures
        r.dir@ == lab_dir + "/"@ + node.name@,
        r.config_file@ == node.name@ + ".conf"@,
        (model is AristaCeos || model is NokiaSrlinux || model is HashicorpVault) ==> (r.files@.len()
            == 1 && r.files@[0].content@ == (match custom {
            Some(c) => c,
            None => rendered.main@,
        })),
        model is AristaCeos ==> r.files@[0].path@ == lab_dir + "/"@ + node.name@ + "/"@ + node.name@
            + ".conf"@,
        model is FrrLinux ==> (r.files@.len() == 3 && r.files@[1].content@ == (match custom {
            Some(c) => c,
            None => rendered.main@,
        }) && r.files@[0].content@ == rendered.frr_daemons@ && r.files@[2].content@
            == rendered.frr_startup@),
        (model is GitlabCe || model is SurrealDb || model is Other) ==> r.files@.len() == 0,
        !(model is Other) ==> r.image@ == settings.image@,
        model is Other ==> r.image@ == text_or_empty(node.image) && r.env_vars.deep_view()
            == list_or_empty(node.env_vars) && r.commands.deep_view() == list_or_empty(
            node.commands,
        ),
        model is FrrLinux ==> r.commands.deep_view() == seq!["/bin/sh"@, "/tmp/sherpa-init.sh"@],
        (model is AristaCeos || model is NokiaSrlinux || model is FrrLinux || model is HashicorpVault)
            ==> r.env_vars.deep_view() == settings.env_vars.deep_view(),
        (model is GitlabCe || model is SurrealDb) ==> r.env_vars.deep_view() == list_or_empty(
            node.env_vars,
        ),
        model is HashicorpVault ==> r.capabilities.deep_view() == settings.capabilities.deep_view(),
        !(model is HashicorpVault) ==> r.capabilities@.len() == 0,
        model is NokiaSrlinux ==> opt_view(r.user) == opt_view(settings.user),
        !(model is NokiaSrlinux) ==> opt_view(r.user) == opt_view(node.user),
        (model is GitlabCe && node.shm_size is None) ==> r.shm_size == Some(
            (settings.shm_size_mib * 1024 * 1024) as i64,
        ),
        node.shm_size is Some ==> r.shm_size == node.shm_size,
{
    if !(model is HashicorpVault) {
        assert(r.capabilities.deep_view().len() == r.capabilities@.len());
    }
}

/// Every VM is cloned from its boot disk first, copied to
/// `<pool>/<node>-<lab>-hdd.qcow2` and grown to the manifest's size; with ZTP
/// enabled and the cloud-init or CD-ROM method, the node's ZTP ISO
/// (`<lab_dir>/<node>/<ztp iso>`) follows right after it, copied to
/// `<pool>/<node>-<lab>.iso`; otherwise the model's boot CD-ROM takes that
/// place when it has one; only the boot disk is grown, and without any
/// CD-ROM image or generated disk the boot disk is all there is.
pub proof fn law_vm_disks_boot_then_ztp_iso(
    node_name: Seq<char>,
    lab_id: Seq<char>,
    lab_dir: Seq<char>,
    model_name: Seq<char>,
    version: Seq<char>,
    boot_disk_size: Option<u64>,
    image_cdrom: Option<Seq<char>>,
    ztp_enable: bool,
    method: ZtpMethod,
    layout: VmDiskLayout,
    generated: GeneratedDisks,
)
    ensures
        ({
            let plan = vm_clone_plan(
                node_name,
                lab_id,
                lab_dir,
                model_name,
                version,
                boot_disk_size,
                image_cdrom,
                ztp_enable,
                method,
                layout,
                generated,
            );
            let iso_dst = layout.pool_dir@ + "/"@ + node_name + "-"@ + lab_id + ".iso"@;
            &&& plan.len() >= 1
            &&& plan[0] == (
                layout.images_dir@ + "/"@ + model_name + "/"@ + version + "/virtioa.qcow2"@,
                layout.pool_dir@ + "/"@ + node_name + "-"@ + lab_id + "-hdd.qcow2"@,
                boot_disk_size,
            )
            &&& (ztp_enable && (method == ZtpMethod::CloudInit || method == ZtpMethod::Cdrom)) ==> (
            plan.len() >= 2 && plan[1] == (
                lab_dir + "/"@ + node_name + "/"@ + layout.ztp_iso@,
                iso_dst,
                None::<u64>,
            ))
            &&& (!(ztp_enable && (method == ZtpMethod::CloudInit || method == ZtpMethod::Cdrom))
                && image_cdrom is Some) ==> (plan.len() >= 2 && plan[1] == (
                layout.images_dir@ + "/"@ + model_name + "/"@ + layout.cdrom_images_dir@ + "/"@
                    + image_cdrom->0,
                iso_dst,
                None::<u64>,
            ))
            &&& forall|i: int| 1 <= i < plan.len() ==> (#[trigger] plan[i]).2 is None
            &&& (!(ztp_enable && (method == ZtpMethod::CloudInit || method == ZtpMethod::Cdrom))
                && image_cdrom is None && generated.config is None && generated.usb is None
                && generated.ignition is None) ==> plan.len() == 1
            &&& !ztp_enable ==> plan.len() == if image_cdrom is Some {
                2int
            } else {
                1int
            }
            &&& (ztp_enable && method == ZtpMethod::Usb) ==> (pair_view(generated.usb) matches Some(
                (a, b),
            ) ==> plan.last() == (a, b, None::<u64>))
            &&& (ztp_enable && method == ZtpMethod::Disk) ==> (pair_view(generated.config) matches Some(
                (a, b),
            ) ==> plan.last() == (a, b, None::<u64>))
            &&& (ztp_enable && method == ZtpMethod::Ignition) ==> (pair_view(generated.ignition) matches Some(
                (a, b),
            ) ==> plan.last() == (a, b, None::<u64>))
        }),
{
    let plan = vm_clone_plan(
        node_name,
        lab_id,
        lab_dir,
        model_name,
        version,
        boot_disk_size,
        image_cdrom,
        ztp_enable,
        method,
        layout,
        generated,
    );
    assert(node_name + "-"@ + lab_id + ".iso"@ == (node_name + "-"@ + lab_id) + ".iso"@);
    assert(layout.pool_dir@ + "/"@ + node_name + "-"@ + lab_id + "-hdd.qcow2"@ == layout.pool_dir@
        + "/"@ + (node_name + "-"@ + lab_id) + "-hdd.qcow2"@);
    assert(layout.pool_dir@ + "/"@ + node_name + "-"@ + lab_id + ".iso"@ == layout.pool_dir@ + "/"@
        + (node_name + "-"@ + lab_id) + ".iso"@);
}

} // verus!

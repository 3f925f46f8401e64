//! The files and commands that cloud-init runs in a Linux or BSD guest: the
//! node's certificates, its start-up and user scripts, and its environment
//! variables. Rendering the cloud-init documents around them is the caller's.
use crate::services::node_ops::{
    build_env_profile_script, build_etc_environment_entries, env_profile_script, etc_environment,
    NodeCertContents,
};
use crate::text::{chars_of, push_replaced, push_str_chars, replace_char, string_from_chars};
use vstd::prelude::*;

verus! {

/// A script of the manifest, its content already decoded.
pub struct Script {
    pub filename: String,
    pub content: String,
}

/// A file that cloud-init writes.
pub struct WriteFile {
    pub path: String,
    pub content: String,
    /// Unix permission bits.
    pub mode: u32,
    pub owner: Option<String>,
}

/// What cloud-init writes and runs.
pub struct CloudInitPayload {
    pub write_files: Vec<WriteFile>,
    pub runcmd: Vec<String>,
}

/// A written file as (path, content, mode, owner).
pub type FileView = (Seq<char>, Seq<char>, u32, Option<Seq<char>>);

/// The view of a written file.
pub open spec fn file_view(f: WriteFile) -> FileView {
    (
        f.path@,
        f.content@,
        f.mode,
        match f.owner {
            Some(o) => Some(o@),
            None => None,
        },
    )
}

/// Where start-up scripts are written.
pub open spec fn startup_path(filename: Seq<char>) -> Seq<char> {
    "/opt/sherpa/startup_scripts/"@ + filename
}

/// The certificate files, in `certs_dir`, owned by root.
pub open spec fn cert_write_files(certs: Option<NodeCertContents>, certs_dir: Seq<char>) -> Seq<
    FileView,
> {
    match certs {
        Some(c) => seq![
            (certs_dir + "/ca.crt"@, c.ca_cert@, 0o644u32, Some("root:root"@)),
            (certs_dir + "/node.crt"@, c.node_cert@, 0o644u32, Some("root:root"@)),
            (certs_dir + "/node.key"@, c.node_key@, 0o600u32, Some("root:root"@)),
        ],
        None => Seq::empty(),
    }
}

/// The start-up scripts, executable and owned by root.
pub open spec fn startup_files(s: Seq<Script>) -> Seq<FileView> {
    Seq::new(
        s.len(),
        |i: int| (startup_path(s[i].filename@), s[i].content@, 0o755u32, Some("root:root"@)),
    )
}

/// The user scripts, executable, in `dir`.
pub open spec fn user_files(s: Seq<Script>, dir: Seq<char>) -> Seq<FileView> {
    Seq::new(s.len(), |i: int| (dir + "/"@ + s[i].filename@, s[i].content@, 0o755u32, None))
}

/// The profile script of the environment variables, when there are any.
pub open spec fn env_files(env: Seq<Seq<char>>) -> Seq<FileView> {
    if env.len() > 0 {
        seq![("/etc/profile.d/sherpa-env.sh"@, env_profile_script(env), 0o644u32, Some("root:root"@))]
    } else {
        Seq::empty()
    }
}

/// The commands that run the start-up scripts.
pub open spec fn startup_cmds(s: Seq<Script>) -> Seq<Seq<char>> {
    Seq::new(s.len(), |i: int| "bash "@ + startup_path(s[i].filename@))
}

/// The commands that hand the user scripts to `user` and run them as `user`.
pub open spec fn user_cmds(s: Seq<Script>, user: Seq<char>, dir: Seq<char>) -> Seq<Seq<char>> {
    seq!["chown -R "@ + user + ":"@ + user + " "@ + dir] + Seq::new(
        s.len(),
        |i: int| "su - "@ + user + " -c 'bash "@ + dir + "/"@ + s[i].filename@ + "'"@,
    )
}

/// The command that appends the environment variables to `/etc/environment`.
pub open spec fn env_cmds(env: Seq<Seq<char>>) -> Seq<Seq<char>> {
    if env.len() > 0 {
        seq![
            "printf '"@ + replace_char(etc_environment(env), '\'', "'\\''"@)
                + "' >> /etc/environment"@,
        ]
    } else {
        Seq::empty()
    }
}

/// The optional list's items, none when absent.
pub open spec fn scripts_or_empty(s: Option<Seq<Script>>) -> Seq<Script> {
    match s {
        Some(v) => v,
        None => Seq::empty(),
    }
}

fn copy_str(s: &str) -> (r: String)
    ensures
        r@ == s@,
{
    let mut out: Vec<char> = Vec::new();
    push_str_chars(&mut out, s);
    string_from_chars(&out)
}

fn root_owner() -> (r: Option<String>)
    ensures
        r matches Some(o) && o@ == "root:root"@,
{
    Some(copy_str("root:root"))
}

fn push_file(files: &mut Vec<WriteFile>, path: String, content: String, mode: u32, owner: Option<String>)
    ensures
        final(files)@.map_values(|f: WriteFile| file_view(f)) == old(files)@.map_values(
            |f: WriteFile| file_view(f),
        ).push(
            (
                path@,
                content@,
                mode,
                match owner {
                    Some(o) => Some(o@),
                    None => None,
                },
            ),
        ),
{
    let ghost before = files@;
    files.push(WriteFile { path, content, mode, owner });
    assert(files@.map_values(|f: WriteFile| file_view(f)) =~= before.map_values(
        |f: WriteFile| file_view(f),
    ).push(file_view(files@.last())));
}

/// What cloud-init writes and runs in a guest: the node's certificates in
/// `certs_dir` (when given), its start-up scripts (run as root), its user
/// scripts in `user_scripts_dir` (handed to `user` and run as `user`), and
/// its environment variables (a profile script, and a command appending them
/// to `/etc/environment`).
pub fn cloud_init_payload(
    certs: Option<&NodeCertContents>,
    certs_dir: &str,
    startup: &Vec<Script>,
    user_scripts: Option<&Vec<Script>>,
    user: &str,
    user_scripts_dir: &str,
    env_vars: &Vec<String>,
) -> (r: CloudInitPayload)
    ensures
        r.write_files@.map_values(|f: WriteFile| file_view(f)) == cert_write_files(
            match certs {
                Some(c) => Some(*c),
                None => None,
            },
            certs_dir@,
        ) + startup_files(startup@) + user_files(
            scripts_or_empty(
                match user_scripts {
                    Some(s) => Some(s@),
                    None => None,
                },
            ),
            user_scripts_dir@,
        ) + env_files(env_vars.deep_view()),
        r.runcmd.deep_view() == startup_cmds(startup@) + (match user_scripts {
            Some(s) => user_cmds(s@, user@, user_scripts_dir@),
            None => Seq::empty(),
        }) + env_cmds(env_vars.deep_view()),
{
    let mut files: Vec<WriteFile> = Vec::new();
    let mut cmds: Vec<String> = Vec::new();
    match certs {
        Some(c) => {
            let mut p: Vec<char> = Vec::new();
            push_str_chars(&mut p, certs_dir);
            push_str_chars(&mut p, "/ca.crt");
            push_file(&mut files, string_from_chars(&p), copy_str(c.ca_cert.as_str()), 0o644, root_owner());
            let mut p: Vec<char> = Vec::new();
            push_str_chars(&mut p, certs_dir);
            push_str_chars(&mut p, "/node.crt");
            push_file(&mut files, string_from_chars(&p), copy_str(c.node_cert.as_str()), 0o644, root_owner());
            let mut p: Vec<char> = Vec::new();
            push_str_chars(&mut p, certs_dir);
            push_str_chars(&mut p, "/node.key");
            push_file(&mut files, string_from_chars(&p), copy_str(c.node_key.as_str()), 0o600, root_owner());
        },
        None => {},
    }
    let ghost cert_part = files@.map_values(|f: WriteFile| file_view(f));
    assert(cert_part =~= cert_write_files(
        match certs {
            Some(c) => Some(*c),
            None => None,
        },
        certs_dir@,
    ));
    let mut i: usize = 0;
    while i < startup.len()
        invariant
            i <= startup@.len(),
            files@.map_values(|f: WriteFile| file_view(f)) == cert_part + startup_files(startup@).take(
                i as int,
            ),
            cmds.deep_view() == startup_cmds(startup@).take(i as int),
        decreases startup@.len() - i,
    {
        let mut p: Vec<char> = Vec::new();
        push_str_chars(&mut p, "/opt/sherpa/startup_scripts/");
        push_str_chars(&mut p, startup[i].filename.as_str());
        let path = string_from_chars(&p);
        let mut c: Vec<char> = Vec::new();
        push_str_chars(&mut c, "bash ");
        push_str_chars(&mut c, path.as_str());
        let ghost before_cmds = cmds.deep_view();
        cmds.push(string_from_chars(&c));
        assert(cmds.deep_view() =~= before_cmds.push("bash "@ + startup_path(startup@[i as int].filename@)));
        assert(startup_cmds(startup@).take(i + 1) =~= startup_cmds(startup@).take(i as int).push(
            "bash "@ + startup_path(startup@[i as int].filename@),
        ));
        push_file(&mut files, path, copy_str(startup[i].content.as_str()), 0o755, root_owner());
        assert(startup_files(startup@).take(i + 1) =~= startup_files(startup@).take(i as int).push(
            startup_files(startup@)[i as int],
        ));
        assert(cert_part + startup_files(startup@).take(i + 1) =~= (cert_part + startup_files(
            startup@,
        ).take(i as int)).push(startup_files(startup@)[i as int]));
        i = i + 1;
    }
    assert(startup_files(startup@).take(startup@.len() as int) =~= startup_files(startup@));
    assert(startup_cmds(startup@).take(startup@.len() as int) =~= startup_cmds(startup@));
    let ghost after_startup = files@.map_values(|f: WriteFile| file_view(f));
    let ghost cmds_startup = cmds.deep_view();
    match user_scripts {
        Some(s) => {
            let mut j: usize = 0;
            while j < s.len()
                invariant
                    j <= s@.len(),
                    files@.map_values(|f: WriteFile| file_view(f)) == after_startup + user_files(
                        s@,
                        user_scripts_dir@,
                    ).take(j as int),
                decreases s@.len() - j,
            {
                let mut p: Vec<char> = Vec::new();
                push_str_chars(&mut p, user_scripts_dir);
                push_str_chars(&mut p, "/");
                push_str_chars(&mut p, s[j].filename.as_str());
                push_file(&mut files, string_from_chars(&p), copy_str(s[j].content.as_str()), 0o755, None);
                assert(user_files(s@, user_scripts_dir@).take(j + 1) =~= user_files(
                    s@,
                    user_scripts_dir@,
                ).take(j as int).push(user_files(s@, user_scripts_dir@)[j as int]));
                assert(after_startup + user_files(s@, user_scripts_dir@).take(j + 1) =~= (
                after_startup + user_files(s@, user_scripts_dir@).take(j as int)).push(
                    user_files(s@, user_scripts_dir@)[j as int],
                ));
                j = j + 1;
            }
            assert(user_files(s@, user_scripts_dir@).take(s@.len() as int) =~= user_files(
                s@,
                user_scripts_dir@,
            ));
            let mut c: Vec<char> = Vec::new();
            push_str_chars(&mut c, "chown -R ");
            push_str_chars(&mut c, user);
            push_str_chars(&mut c, ":");
            push_str_chars(&mut c, user);
            push_str_chars(&mut c, " ");
            push_str_chars(&mut c, user_scripts_dir);
            cmds.push(string_from_chars(&c));
            let ghost base = cmds.deep_view();
            assert(base =~= cmds_startup.push(
                "chown -R "@ + user@ + ":"@ + user@ + " "@ + user_scripts_dir@,
            ));
            let mut k: usize = 0;
            while k < s.len()
                invariant
                    k <= s@.len(),
                    cmds.deep_view() == base + user_cmds(s@, user@, user_scripts_dir@).drop_first().take(
                        k as int,
                    ),
                decreases s@.len() - k,
            {
                let mut c: Vec<char> = Vec::new();
                push_str_chars(&mut c, "su - ");
                push_str_chars(&mut c, user);
                push_str_chars(&mut c, " -c 'bash ");
                push_str_chars(&mut c, user_scripts_dir);
                push_str_chars(&mut c, "/");
                push_str_chars(&mut c, s[k].filename.as_str());
                push_str_chars(&mut c, "'");
                let ghost prev = cmds.deep_view();
                cmds.push(string_from_chars(&c));
                let ghost tail = user_cmds(s@, user@, user_scripts_dir@).drop_first();
                assert(tail[k as int] == "su - "@ + user@ + " -c 'bash "@ + user_scripts_dir@ + "/"@
                    + s@[k as int].filename@ + "'"@);
                assert(cmds.deep_view() =~= prev.push(tail[k as int]));
                assert(base + tail.take(k + 1) =~= (base + tail.take(k as int)).push(tail[k as int]));
                k = k + 1;
            }
            let ghost tail = user_cmds(s@, user@, user_scripts_dir@).drop_first();
            assert(tail.take(s@.len() as int) =~= tail);
            assert(user_cmds(s@, user@, user_scripts_dir@) =~= seq![
                "chown -R "@ + user@ + ":"@ + user@ + " "@ + user_scripts_dir@,
            ] + tail);
            assert(cmds.deep_view() =~= cmds_startup + user_cmds(s@, user@, user_scripts_dir@));
        },
        None => {
            assert(user_files(Seq::<Script>::empty(), user_scripts_dir@) =~= Seq::<FileView>::empty());
            assert(after_startup + Seq::<FileView>::empty() =~= after_startup);
            assert(cmds_startup + Seq::<Seq<char>>::empty() =~= cmds_startup);
        },
    }
    let ghost before_env_files = files@.map_values(|f: WriteFile| file_view(f));
    let ghost before_env_cmds = cmds.deep_view();
    if env_vars.len() > 0 {
        let profile = build_env_profile_script(env_vars.as_slice());
        push_file(
            &mut files,
            copy_str("/etc/profile.d/sherpa-env.sh"),
            profile,
            0o644,
            root_owner(),
        );
        let entries = build_etc_environment_entries(env_vars.as_slice());
        let ev = chars_of(entries.as_str());
        let esc = chars_of("'\\''");
        let mut c: Vec<char> = Vec::new();
        push_str_chars(&mut c, "printf '");
        push_replaced(&mut c, &ev, 0, ev.len(), '\'', &esc);
        push_str_chars(&mut c, "' >> /etc/environment");
        assert(ev@.subrange(0, ev@.len() as int) == ev@);
        cmds.push(string_from_chars(&c));
        assert(cmds.deep_view() =~= before_env_cmds + env_cmds(env_vars.deep_view()));
        assert(files@.map_values(|f: WriteFile| file_view(f)) =~= before_env_files + env_files(
            env_vars.deep_view(),
        ));
    } else {
        assert(before_env_files + env_files(env_vars.deep_view()) =~= before_env_files);
        assert(before_env_cmds + env_cmds(env_vars.deep_view()) =~= before_env_cmds);
    }
    CloudInitPayload { write_files: files, runcmd: cmds }
}

/// The admin group and login shell of the guest's user: `wheel` and
/// `/bin/sh` on BSD, `sudo` and `/bin/bash` otherwise.
pub fn admin_group_and_shell(bsd: bool) -> (r: (&'static str, &'static str))
    ensures
        r.0@ == if bsd {
            "wheel"@
        } else {
            "sudo"@
        },
        r.1@ == if bsd {
            "/bin/sh"@
        } else {
            "/bin/bash"@
        },
{
    if bsd {
        ("wheel", "/bin/sh")
    } else {
        ("sudo", "/bin/bash")
    }
}

} // verus!

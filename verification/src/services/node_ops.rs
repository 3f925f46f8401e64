//! Per-node provisioning helpers: environment variable files and TLS
//! certificate files for guests, and CPU feature overrides.
use crate::text::{
    chars_of, find_char, lemma_first_index, lemma_replace_char_concat, lemma_replace_char_single,
    push_replaced, push_slice, push_str_chars, replace_char, split_once, str_is, string_from_chars, contains_any, has_any,
};
use vstd::prelude::*;

verus! {

/// A value as a single-quoted shell word: single quotes in it are written `'\''`.
pub open spec fn sh_single_quote(value: Seq<char>) -> Seq<char> {
    "'"@ + replace_char(value, '\'', "'\\''"@) + "'"@
}

/// The `export` line of `/etc/profile.d/sherpa-env.sh` for one `KEY=VALUE` entry,
/// the value single-quoted.
pub open spec fn profile_line(entry: Seq<char>) -> Seq<char> {
    match split_once(entry, '=') {
        Some((key, value)) => "export "@ + key + "="@ + sh_single_quote(value) + "\n"@,
        None => Seq::empty(),
    }
}

/// The `export` lines for all entries, in order.
pub open spec fn profile_lines(entries: Seq<Seq<char>>) -> Seq<char>
    decreases entries.len(),
{
    if entries.len() == 0 {
        Seq::empty()
    } else {
        profile_lines(entries.drop_last()) + profile_line(entries.last())
    }
}

/// The login-shell profile script exporting `entries`.
pub open spec fn env_profile_script(entries: Seq<Seq<char>>) -> Seq<char> {
    "#!/bin/sh\n"@ + profile_lines(entries)
}

/// Characters that make an `/etc/environment` value need double quotes.
pub open spec fn quote_triggers() -> Seq<char> {
    seq![' ', '\'', '"', '\\']
}

/// A value in double quotes with `\` and `"` escaped by a backslash.
pub open spec fn double_quote(value: Seq<char>) -> Seq<char> {
    "\""@ + dq_escape(value) + "\""@
}

/// The `/etc/environment` line for one `KEY=VALUE` entry: values holding a
/// space, a quote or a backslash are double-quoted.
pub open spec fn etc_environment_line(entry: Seq<char>) -> Seq<char> {
    match split_once(entry, '=') {
        Some((key, value)) => if has_any(value, quote_triggers()) {
            key + "="@ + double_quote(value) + "\n"@
        } else {
            key + "="@ + value + "\n"@
        },
        None => Seq::empty(),
    }
}

/// The `/etc/environment` lines for all entries, in order.
pub open spec fn etc_environment(entries: Seq<Seq<char>>) -> Seq<char>
    decreases entries.len(),
{
    if entries.len() == 0 {
        Seq::empty()
    } else {
        etc_environment(entries.drop_last()) + etc_environment_line(entries.last())
    }
}

/// A value as a single-quoted PowerShell string: single quotes in it are doubled.
pub open spec fn ps_single_quote(value: Seq<char>) -> Seq<char> {
    "'"@ + replace_char(value, '\'', "''"@) + "'"@
}

/// The PowerShell command setting one machine-level variable, the value
/// single-quoted.
pub open spec fn windows_env_command(key: Seq<char>, value: Seq<char>) -> Seq<char> {
    "powershell -Command \"[System.Environment]::SetEnvironmentVariable('"@ + key + "', "@
        + ps_single_quote(value) + ", 'Machine')\""@
}

/// The PowerShell commands for all `KEY=VALUE` entries, in order.
pub open spec fn windows_env_commands(entries: Seq<Seq<char>>) -> Seq<Seq<char>>
    decreases entries.len(),
{
    if entries.len() == 0 {
        Seq::empty()
    } else {
        let p = windows_env_commands(entries.drop_last());
        match split_once(entries.last(), '=') {
            Some((key, value)) => p.push(windows_env_command(key, value)),
            None => p,
        }
    }
}

/// Splits the characters of an entry at its first `=`.
fn split_entry(v: &Vec<char>) -> (r: Option<(usize, usize)>)
    ensures
        match r {
            Some((e, f)) => e < f <= v@.len() && f == e + 1 && split_once(v@, '=') == Some(
                (v@.subrange(0, e as int), v@.subrange(f as int, v@.len() as int)),
            ),
            None => split_once(v@, '=') is None,
        },
{
    assert(v@.subrange(0, v@.len() as int) == v@);
    match find_char(v, 0, v.len(), '=') {
        None => None,
        Some(e) => {
            proof {
                lemma_first_index(v@, '=', e as int);
            }
            Some((e, e + 1))
        },
    }
}

/// Builds the shell script for `/etc/profile.d/sherpa-env.sh` that exports the
/// `KEY=VALUE` entries for login shells; entries without `=` are skipped.
pub fn build_env_profile_script(env_vars: &[String]) -> (r: String)
    ensures
        r@ == env_profile_script(env_vars.deep_view()),
{
    let ghost entries = env_vars.deep_view();
    let mut out: Vec<char> = Vec::new();
    push_str_chars(&mut out, "#!/bin/sh\n");
    let quote_escape = chars_of("'\\''");
    let mut i: usize = 0;
    while i < env_vars.len()
        invariant
            i <= env_vars@.len(),
            entries == env_vars.deep_view(),
            quote_escape@ == "'\\''"@,
            out@ == "#!/bin/sh\n"@ + profile_lines(entries.take(i as int)),
        decreases env_vars@.len() - i,
    {
        assert(entries.take(i + 1).drop_last() == entries.take(i as int));
        assert(entries[i as int] == env_vars@[i as int]@);
        let v = chars_of(env_vars[i].as_str());
        match split_entry(&v) {
            Some((e, f)) => {
                push_str_chars(&mut out, "export ");
                push_slice(&mut out, &v, 0, e);
                push_str_chars(&mut out, "=");
                push_str_chars(&mut out, "'");
                push_replaced(&mut out, &v, f, v.len(), '\'', &quote_escape);
                push_str_chars(&mut out, "'");
                push_str_chars(&mut out, "\n");
            },
            None => {},
        }
        i = i + 1;
    }
    assert(entries.take(env_vars@.len() as int) == entries);
    string_from_chars(&out)
}

/// Builds the entries for `/etc/environment` (`KEY=VALUE`, no `export`);
/// values holding spaces, quotes or backslashes are double-quoted.
pub fn build_etc_environment_entries(env_vars: &[String]) -> (r: String)
    ensures
        r@ == etc_environment(env_vars.deep_view()),
{
    let ghost entries = env_vars.deep_view();
    let mut out: Vec<char> = Vec::new();
    let triggers = chars_of(" '\"\\");
    let backslash_escape = chars_of("\\\\");
    let quote_escape = chars_of("\\\"");
    proof {
        reveal_strlit(" '\"\\");
        assert(triggers@ == quote_triggers());
    }
    let mut i: usize = 0;
    while i < env_vars.len()
        invariant
            i <= env_vars@.len(),
            entries == env_vars.deep_view(),
            triggers@ == quote_triggers(),
            backslash_escape@ == "\\\\"@,
            quote_escape@ == "\\\""@,
            out@ == etc_environment(entries.take(i as int)),
        decreases env_vars@.len() - i,
    {
        assert(entries.take(i + 1).drop_last() == entries.take(i as int));
        assert(entries[i as int] == env_vars@[i as int]@);
        let v = chars_of(env_vars[i].as_str());
        match split_entry(&v) {
            Some((e, f)) => {
                push_slice(&mut out, &v, 0, e);
                if contains_any(&v, f, v.len(), &triggers) {
                    push_str_chars(&mut out, "=");
                    push_str_chars(&mut out, "\"");
                    let mut escaped: Vec<char> = Vec::new();
                    push_replaced(&mut escaped, &v, f, v.len(), '\\', &backslash_escape);
                    push_replaced(&mut out, &escaped, 0, escaped.len(), '"', &quote_escape);
                    assert(escaped@.subrange(0, escaped@.len() as int) == escaped@);
                    push_str_chars(&mut out, "\"");
                    push_str_chars(&mut out, "\n");
                } else {
                    push_str_chars(&mut out, "=");
                    push_slice(&mut out, &v, f, v.len());
                    push_str_chars(&mut out, "\n");
                }
            },
            None => {},
        }
        i = i + 1;
    }
    assert(entries.take(env_vars@.len() as int) == entries);
    string_from_chars(&out)
}

/// Builds the PowerShell commands that set machine-level environment variables
/// on Windows guests, one per `KEY=VALUE` entry.
pub fn build_windows_env_commands(env_vars: &[String]) -> (r: Vec<String>)
    ensures
        r.deep_view() == windows_env_commands(env_vars.deep_view()),
{
    let ghost entries = env_vars.deep_view();
    let mut commands: Vec<String> = Vec::new();
    let quote_escape = chars_of("''");
    let mut i: usize = 0;
    while i < env_vars.len()
        invariant
            i <= env_vars@.len(),
            entries == env_vars.deep_view(),
            quote_escape@ == "''"@,
            commands.deep_view() == windows_env_commands(entries.take(i as int)),
        decreases env_vars@.len() - i,
    {
        assert(entries.take(i + 1).drop_last() == entries.take(i as int));
        assert(entries[i as int] == env_vars@[i as int]@);
        let v = chars_of(env_vars[i].as_str());
        match split_entry(&v) {
            Some((e, f)) => {
                let mut out: Vec<char> = Vec::new();
                push_str_chars(
                    &mut out,
                    "powershell -Command \"[System.Environment]::SetEnvironmentVariable('",
                );
                push_slice(&mut out, &v, 0, e);
                push_str_chars(&mut out, "', ");
                push_str_chars(&mut out, "'");
                push_replaced(&mut out, &v, f, v.len(), '\'', &quote_escape);
                push_str_chars(&mut out, "'");
                push_str_chars(&mut out, ", 'Machine')\"");
                assert(out@ =~= windows_env_command(
                    v@.subrange(0, e as int),
                    v@.subrange(f as int, v@.len() as int),
                ));
                commands.push(string_from_chars(&out));
            },
            None => {},
        }
        i = i + 1;
    }
    assert(entries.take(env_vars@.len() as int) == entries);
    commands
}

/// How a CPU feature is set on a node's virtual CPU.
#[derive(Clone, Copy, PartialEq, Eq, Structural, Debug)]
pub enum CpuFeaturePolicy {
    /// The feature is hidden from the guest.
    Disable,
}

/// A CPU feature override of a node.
pub struct CpuFeature {
    pub name: String,
    pub policy: CpuFeaturePolicy,
}

/// The model (by its display name) whose FreeBSD-based guest hangs at boot on
/// KVM unless some CPU features are hidden.
pub const JUNIPER_VSRX_MODEL: &'static str = "juniper_vsrxv3";

/// The CPU features hidden from Juniper vSRX guests, in order.
pub open spec fn vsrx_disabled_features() -> Seq<Seq<char>> {
    seq![
        "xsaveopt"@,
        "bmi1"@,
        "avx2"@,
        "bmi2"@,
        "erms"@,
        "invpcid"@,
        "rdseed"@,
        "adx"@,
        "smap"@,
        "abm"@,
    ]
}

/// The CPU feature overrides of the model named `model`.
pub open spec fn model_cpu_features(model: Seq<char>) -> Seq<Seq<char>> {
    if model == JUNIPER_VSRX_MODEL@ {
        vsrx_disabled_features()
    } else {
        Seq::empty()
    }
}

fn push_disabled(features: &mut Vec<CpuFeature>, name: &str)
    ensures
        final(features)@.len() == old(features)@.len() + 1,
        forall|i: int|
            0 <= i < old(features)@.len() ==> #[trigger] final(features)@[i] == old(features)@[i],
        final(features)@.last().name@ == name@,
        final(features)@.last().policy == CpuFeaturePolicy::Disable,
{
    let mut out: Vec<char> = Vec::new();
    push_str_chars(&mut out, name);
    features.push(CpuFeature { name: string_from_chars(&out), policy: CpuFeaturePolicy::Disable });
}

/// The CPU feature overrides of the model named `model` (its display name):
/// the features that Juniper vSRX guests must not see, disabled, and none for
/// any other model.
pub fn cpu_features_for_model(model: &str) -> (r: Vec<CpuFeature>)
    ensures
        r@.len() == model_cpu_features(model@).len(),
        forall|i: int|
            0 <= i < r@.len() ==> (#[trigger] r@[i]).name@ == model_cpu_features(model@)[i]
                && r@[i].policy == CpuFeaturePolicy::Disable,
{
    let mut features: Vec<CpuFeature> = Vec::new();
    if str_is(model, JUNIPER_VSRX_MODEL) {
        push_disabled(&mut features, "xsaveopt");
        push_disabled(&mut features, "bmi1");
        push_disabled(&mut features, "avx2");
        push_disabled(&mut features, "bmi2");
        push_disabled(&mut features, "erms");
        push_disabled(&mut features, "invpcid");
        push_disabled(&mut features, "rdseed");
        push_disabled(&mut features, "adx");
        push_disabled(&mut features, "smap");
        push_disabled(&mut features, "abm");
    }
    features
}

/// `c` in front of the text of a reading, if the reading succeeded.
pub open spec fn prepend(c: char, read: Option<Seq<char>>) -> Option<Seq<char>> {
    match read {
        Some(t) => Some(seq![c] + t),
        None => None,
    }
}

/// `v` in front of the text of a reading, if the reading succeeded.
pub open spec fn prepend_all(v: Seq<char>, read: Option<Seq<char>>) -> Option<Seq<char>> {
    match read {
        Some(t) => Some(v + t),
        None => None,
    }
}

/// The value a POSIX shell gives a word made of single-quoted runs,
/// backslash-escaped characters and plain characters (`in_quote`: the reading
/// starts inside single quotes); `None` when a quote is left open.
pub open spec fn sh_word_value(w: Seq<char>, in_quote: bool) -> Option<Seq<char>>
    decreases w.len(),
{
    if w.len() == 0 {
        if in_quote {
            None
        } else {
            Some(Seq::empty())
        }
    } else if in_quote {
        if w[0] == '\'' {
            sh_word_value(w.drop_first(), false)
        } else {
            prepend(w[0], sh_word_value(w.drop_first(), true))
        }
    } else if w[0] == '\'' {
        sh_word_value(w.drop_first(), true)
    } else if w[0] == '\\' && w.len() >= 2 {
        prepend(w[1], sh_word_value(w.skip(2), false))
    } else {
        prepend(w[0], sh_word_value(w.drop_first(), false))
    }
}

/// Inside single quotes, the escaped value followed by the closing quote reads as the value.
proof fn lemma_sh_quoted_run(v: Seq<char>, rest: Seq<char>)
    ensures
        sh_word_value(replace_char(v, '\'', "'\\''"@) + seq!['\''] + rest, true) == prepend_all(
            v,
            sh_word_value(rest, false),
        ),
    decreases v.len(),
{
    reveal_strlit("'\\''");
    let q = "'\\''"@;
    assert(q == seq!['\'', '\\', '\'', '\'']);
    if v.len() == 0 {
        assert(replace_char(v, '\'', q) == Seq::<char>::empty());
        let w = replace_char(v, '\'', q) + seq!['\''] + rest;
        assert(w.drop_first() == rest);
        assert(sh_word_value(w, true) == sh_word_value(rest, false));
        assert(v == Seq::<char>::empty());
        match sh_word_value(rest, false) {
            Some(t) => assert(v + t == t),
            None => {},
        }
    } else {
        let c = v[0];
        let v1 = v.drop_first();
        assert(v == seq![c] + v1);
        lemma_replace_char_concat(seq![c], v1, '\'', q);
        lemma_replace_char_single(c, '\'', q);
        lemma_sh_quoted_run(v1, rest);
        let tail = replace_char(v1, '\'', q) + seq!['\''] + rest;
        let w = replace_char(v, '\'', q) + seq!['\''] + rest;
        if c == '\'' {
            assert(w == q + tail);
            let w1 = w.drop_first();
            assert(w1 == seq!['\\', '\'', '\''] + tail);
            assert(w1.skip(2) == seq!['\''] + tail);
            assert(w1.skip(2).drop_first() == tail);
            assert(sh_word_value(w1.skip(2), false) == sh_word_value(tail, true));
            assert(sh_word_value(w1, false) == prepend('\'', sh_word_value(tail, true)));
            assert(sh_word_value(w, true) == sh_word_value(w1, false));
        } else {
            assert(w == seq![c] + tail);
            assert(w.drop_first() == tail);
            assert(sh_word_value(w, true) == prepend(c, sh_word_value(tail, true)));
        }
        match sh_word_value(rest, false) {
            Some(t) => assert(seq![c] + (v1 + t) == v + t),
            None => {},
        }
    }
}

/// Shell quoting round trip: the single-quoted word that the profile script
/// exports reads back, in a POSIX shell, as the value itself, whatever
/// quotes, spaces or other characters it holds.
pub proof fn law_shell_quote_round_trip(value: Seq<char>)
    ensures
        sh_word_value(sh_single_quote(value), false) == Some(value),
{
    reveal_strlit("'");
    let w = sh_single_quote(value);
    let body = replace_char(value, '\'', "'\\''"@);
    assert(w == seq!['\''] + (body + seq!['\''] + Seq::<char>::empty()));
    assert(w.drop_first() == body + seq!['\''] + Seq::<char>::empty());
    lemma_sh_quoted_run(value, Seq::<char>::empty());
    assert(value + Seq::<char>::empty() == value);
}

/// The text of a single-quoted PowerShell string read from just after its
/// opening quote: `''` stands for `'`, and the string must end at its
/// closing quote; `None` otherwise.
pub open spec fn ps_quoted_value(w: Seq<char>) -> Option<Seq<char>>
    decreases w.len(),
{
    if w.len() == 0 {
        None
    } else if w[0] == '\'' {
        if w.len() >= 2 && w[1] == '\'' {
            prepend('\'', ps_quoted_value(w.skip(2)))
        } else if w.len() == 1 {
            Some(Seq::empty())
        } else {
            None
        }
    } else {
        prepend(w[0], ps_quoted_value(w.drop_first()))
    }
}

/// The value of a single-quoted PowerShell string literal.
pub open spec fn ps_string_value(w: Seq<char>) -> Option<Seq<char>> {
    if w.len() > 0 && w[0] == '\'' {
        ps_quoted_value(w.drop_first())
    } else {
        None
    }
}

proof fn lemma_ps_quoted_run(v: Seq<char>)
    ensures
        ps_quoted_value(replace_char(v, '\'', "''"@) + seq!['\'']) == Some(v),
    decreases v.len(),
{
    reveal_strlit("''");
    let q = "''"@;
    assert(q == seq!['\'', '\'']);
    if v.len() == 0 {
        assert(replace_char(v, '\'', q) + seq!['\''] == seq!['\'']);
        assert(v == Seq::<char>::empty());
    } else {
        let c = v[0];
        let v1 = v.drop_first();
        assert(v == seq![c] + v1);
        lemma_replace_char_concat(seq![c], v1, '\'', q);
        lemma_replace_char_single(c, '\'', q);
        lemma_ps_quoted_run(v1);
        let tail = replace_char(v1, '\'', q) + seq!['\''];
        let w = replace_char(v, '\'', q) + seq!['\''];
        if c == '\'' {
            assert(w == q + tail);
            assert(w.skip(2) == tail);
            assert(ps_quoted_value(w) == prepend('\'', ps_quoted_value(tail)));
        } else {
            assert(w == seq![c] + tail);
            assert(w.drop_first() == tail);
            assert(ps_quoted_value(w) == prepend(c, ps_quoted_value(tail)));
        }
        assert(seq![c] + v1 == v);
    }
}

/// PowerShell quoting round trip: the single-quoted string that sets a
/// Windows variable has the value itself as its text, whatever quotes it holds.
pub proof fn law_powershell_quote_round_trip(value: Seq<char>)
    ensures
        ps_string_value(ps_single_quote(value)) == Some(value),
{
    reveal_strlit("'");
    let w = ps_single_quote(value);
    let body = replace_char(value, '\'', "''"@);
    assert(w == seq!['\''] + (body + seq!['\'']));
    assert(w.drop_first() == body + seq!['\'']);
    lemma_ps_quoted_run(value);
}

/// The text of a double-quoted value read from just after its opening quote:
/// a backslash takes the next character literally, and the value must end at
/// its closing quote; `None` otherwise.
pub open spec fn dq_quoted_value(w: Seq<char>) -> Option<Seq<char>>
    decreases w.len(),
{
    if w.len() == 0 {
        None
    } else if w[0] == '"' {
        if w.len() == 1 {
            Some(Seq::empty())
        } else {
            None
        }
    } else if w[0] == '\\' && w.len() >= 2 {
        prepend(w[1], dq_quoted_value(w.skip(2)))
    } else {
        prepend(w[0], dq_quoted_value(w.drop_first()))
    }
}

/// The value of a double-quoted text.
pub open spec fn dq_value(w: Seq<char>) -> Option<Seq<char>> {
    if w.len() > 0 && w[0] == '"' {
        dq_quoted_value(w.drop_first())
    } else {
        None
    }
}

/// Backslashes and double quotes escaped.
pub open spec fn dq_escape(v: Seq<char>) -> Seq<char> {
    replace_char(replace_char(v, '\\', "\\\\"@), '"', "\\\""@)
}

proof fn lemma_dq_escape_concat(a: Seq<char>, b: Seq<char>)
    ensures
        dq_escape(a + b) == dq_escape(a) + dq_escape(b),
{
    lemma_replace_char_concat(a, b, '\\', "\\\\"@);
    lemma_replace_char_concat(
        replace_char(a, '\\', "\\\\"@),
        replace_char(b, '\\', "\\\\"@),
        '"',
        "\\\""@,
    );
}

proof fn lemma_dq_escape_single(c: char)
    ensures
        dq_escape(seq![c]) == if c == '\\' {
            seq!['\\', '\\']
        } else if c == '"' {
            seq!['\\', '"']
        } else {
            seq![c]
        },
{
    reveal_strlit("\\\\");
    reveal_strlit("\\\"");
    assert("\\\\"@ == seq!['\\', '\\']);
    assert("\\\""@ == seq!['\\', '"']);
    lemma_replace_char_single(c, '\\', "\\\\"@);
    if c == '\\' {
        assert(seq!['\\', '\\'] == seq!['\\'] + seq!['\\']);
        lemma_replace_char_concat(seq!['\\'], seq!['\\'], '"', "\\\""@);
        lemma_replace_char_single('\\', '"', "\\\""@);
    } else {
        lemma_replace_char_single(c, '"', "\\\""@);
    }
}

proof fn lemma_dq_quoted_run(v: Seq<char>)
    ensures
        dq_quoted_value(dq_escape(v) + seq!['"']) == Some(v),
    decreases v.len(),
{
    if v.len() == 0 {
        assert(replace_char(v, '\\', "\\\\"@) == Seq::<char>::empty());
        assert(dq_escape(v) == Seq::<char>::empty());
        assert(dq_escape(v) + seq!['"'] == seq!['"']);
        assert(v == Seq::<char>::empty());
    } else {
        let c = v[0];
        let v1 = v.drop_first();
        assert(v == seq![c] + v1);
        lemma_dq_escape_concat(seq![c], v1);
        lemma_dq_escape_single(c);
        lemma_dq_quoted_run(v1);
        let tail = dq_escape(v1) + seq!['"'];
        let w = dq_escape(v) + seq!['"'];
        if c == '\\' || c == '"' {
            assert(w == seq!['\\', c] + tail);
            assert(w.skip(2) == tail);
            assert(dq_quoted_value(w) == prepend(c, dq_quoted_value(tail)));
        } else {
            assert(w == seq![c] + tail);
            assert(w.drop_first() == tail);
            assert(dq_quoted_value(w) == prepend(c, dq_quoted_value(tail)));
        }
        assert(seq![c] + v1 == v);
    }
}

/// `/etc/environment` quoting round trip: a double-quoted value reads back
/// as the value itself, whatever backslashes or quotes it holds.
pub proof fn law_double_quote_round_trip(value: Seq<char>)
    ensures
        dq_value(double_quote(value)) == Some(value),
{
    reveal_strlit("\"");
    let w = double_quote(value);
    assert(w == seq!['"'] + (dq_escape(value) + seq!['"']));
    assert(w.drop_first() == dq_escape(value) + seq!['"']);
    lemma_dq_quoted_run(value);
}

/// Paths to the TLS certificate files of a node.
pub struct NodeCertPaths {
    pub ca_cert: String,
    pub node_cert: String,
    pub node_key: String,
}

/// The contents read from the TLS certificate files of a node.
pub struct NodeCertContents {
    pub ca_cert: String,
    pub node_cert: String,
    pub node_key: String,
}

/// The provisioning system that writes the certificate files into a guest.
#[derive(Clone, Copy, PartialEq, Eq, Structural, Debug)]
pub enum CertTarget {
    /// cloud-init (Linux): `/` paths, owned by `root:root`.
    CloudInit,
    /// cloudbase-init (Windows): `\` paths, no owner.
    Cloudbase,
    /// Ignition: `/` paths, no owner; the caller encodes the contents as a data URL.
    Ignition,
}

/// A certificate file to write into a guest.
pub struct CertFile {
    pub path: String,
    pub content: String,
    /// Unix permission bits.
    pub mode: u32,
    pub owner: Option<String>,
}

/// The path separator of a provisioning system.
pub open spec fn cert_separator(target: CertTarget) -> Seq<char> {
    match target {
        CertTarget::Cloudbase => "\\"@,
        _ => "/"@,
    }
}

/// Whether `f` is the file `name` in `dir` with `content` and `mode`, as
/// `target` writes it.
pub open spec fn is_cert_file(
    f: CertFile,
    target: CertTarget,
    dir: Seq<char>,
    name: Seq<char>,
    content: Seq<char>,
    mode: u32,
) -> bool {
    &&& f.path@ == dir + cert_separator(target) + name
    &&& f.content@ == content
    &&& f.mode == mode
    &&& match target {
        CertTarget::CloudInit => f.owner matches Some(o) && o@ == "root:root"@,
        _ => f.owner is None,
    }
}

fn cert_file(target: CertTarget, dir: &str, name: &str, content: &str, mode: u32) -> (r: CertFile)
    ensures
        is_cert_file(r, target, dir@, name@, content@, mode),
{
    let mut path: Vec<char> = Vec::new();
    push_str_chars(&mut path, dir);
    match target {
        CertTarget::Cloudbase => push_str_chars(&mut path, "\\"),
        _ => push_str_chars(&mut path, "/"),
    }
    push_str_chars(&mut path, name);
    let mut body: Vec<char> = Vec::new();
    push_str_chars(&mut body, content);
    let owner = match target {
        CertTarget::CloudInit => {
            let mut o: Vec<char> = Vec::new();
            push_str_chars(&mut o, "root:root");
            Some(string_from_chars(&o))
        },
        _ => None,
    };
    CertFile { path: string_from_chars(&path), content: string_from_chars(&body), mode, owner }
}

/// The TLS certificate files of a node in `target_dir`: the CA certificate and
/// the node certificate readable by all (0644), the node key by its owner
/// only (0600).
pub fn cert_files(contents: &NodeCertContents, target_dir: &str, target: CertTarget) -> (r: Vec<
    CertFile,
>)
    ensures
        r@.len() == 3,
        is_cert_file(r@[0], target, target_dir@, "ca.crt"@, contents.ca_cert@, 0o644),
        is_cert_file(r@[1], target, target_dir@, "node.crt"@, contents.node_cert@, 0o644),
        is_cert_file(r@[2], target, target_dir@, "node.key"@, contents.node_key@, 0o600),
{
    let mut files: Vec<CertFile> = Vec::new();
    files.push(cert_file(target, target_dir, "ca.crt", contents.ca_cert.as_str(), 0o644));
    files.push(cert_file(target, target_dir, "node.crt", contents.node_cert.as_str(), 0o644));
    files.push(cert_file(target, target_dir, "node.key", contents.node_key.as_str(), 0o600));
    files
}

} // verus!

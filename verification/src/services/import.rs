//! Image import: where a VM image is downloaded from, and the decisions of an
//! image scan (which version becomes the default, what each version reports).
use crate::api::handlers::NodeImageSummary;
use crate::services::scanner::NodeKind;
use crate::text::{chars_of, push_str_chars, slice_eq, str_is, string_from_chars, string_of_range};
use vstd::prelude::*;

verus! {

/// The name of the one node model whose image has a known download location.
pub const AUTO_DOWNLOAD_MODEL: &'static str = "ubuntu_linux";

/// The Ubuntu cloud-image URL of release `version`.
pub open spec fn ubuntu_image_url(version: Seq<char>) -> Seq<char> {
    "https://cloud-images.ubuntu.com/releases/"@ + version + "/release/ubuntu-"@ + version
        + "-server-cloudimg-amd64.img"@
}

/// The error for a model without a known download location.
pub open spec fn no_download_url(model: Seq<char>) -> Seq<char> {
    "No auto-download URL for model '"@ + model + "'. Provide --url."@
}

/// Resolves the download URL of a VM image of the model named `model`
/// (the model's display name) in release `version`: the URL the user gave
/// wins; otherwise Ubuntu images come from the Ubuntu cloud-image server, and
/// any other model is refused.
pub fn resolve_download_url(model: &str, version: &str, url: Option<&str>) -> (r: Result<
    String,
    String,
>)
    ensures
        match url {
            Some(u) => r matches Ok(s) && s@ == u@,
            None => if model@ == AUTO_DOWNLOAD_MODEL@ {
                r matches Ok(s) && s@ == ubuntu_image_url(version@)
            } else {
                r matches Err(e) && e@ == no_download_url(model@)
            },
        },
{
    if let Some(u) = url {
        let mut out: Vec<char> = Vec::new();
        push_str_chars(&mut out, u);
        return Ok(string_from_chars(&out));
    }
    if str_is(model, AUTO_DOWNLOAD_MODEL) {
        let mut out: Vec<char> = Vec::new();
        push_str_chars(&mut out, "https://cloud-images.ubuntu.com/releases/");
        push_str_chars(&mut out, version);
        push_str_chars(&mut out, "/release/ubuntu-");
        push_str_chars(&mut out, version);
        push_str_chars(&mut out, "-server-cloudimg-amd64.img");
        Ok(string_from_chars(&out))
    } else {
        let mut out: Vec<char> = Vec::new();
        push_str_chars(&mut out, "No auto-download URL for model '");
        push_str_chars(&mut out, model);
        push_str_chars(&mut out, "'. Provide --url.");
        Err(string_from_chars(&out))
    }
}

/// What became of one image version that a scan found.
pub enum VersionScanOutcome {
    /// A record of this model, kind and version already exists.
    AlreadyExists,
    /// A dry run: the version would be imported.
    DryRun,
    /// The version was imported.
    Imported,
    /// Importing failed with this error chain.
    Failed(String),
}

/// The status a scan reports for a version; `make_default` says whether the
/// version was (or would be) imported as its model's default.
pub open spec fn scan_status(outcome: VersionScanOutcome, make_default: bool) -> Seq<char> {
    match outcome {
        VersionScanOutcome::AlreadyExists => "already_exists"@,
        VersionScanOutcome::DryRun => if make_default {
            "would_import (default)"@
        } else {
            "would_import"@
        },
        VersionScanOutcome::Imported => if make_default {
            "imported (default)"@
        } else {
            "imported"@
        },
        VersionScanOutcome::Failed(e) => "error: "@ + e@,
    }
}

/// The status line of one scanned version.
pub fn version_scan_status(outcome: &VersionScanOutcome, make_default: bool) -> (r: String)
    ensures
        r@ == scan_status(*outcome, make_default),
{
    let mut out: Vec<char> = Vec::new();
    match outcome {
        VersionScanOutcome::AlreadyExists => push_str_chars(&mut out, "already_exists"),
        VersionScanOutcome::DryRun => if make_default {
            push_str_chars(&mut out, "would_import (default)")
        } else {
            push_str_chars(&mut out, "would_import")
        },
        VersionScanOutcome::Imported => if make_default {
            push_str_chars(&mut out, "imported (default)")
        } else {
            push_str_chars(&mut out, "imported")
        },
        VersionScanOutcome::Failed(e) => {
            push_str_chars(&mut out, "error: ");
            push_str_chars(&mut out, e.as_str());
        },
    }
    string_from_chars(&out)
}

/// Whether a scanned version counts as imported (dry runs count).
pub open spec fn counts_as_imported(outcome: VersionScanOutcome) -> bool {
    outcome is DryRun || outcome is Imported
}

/// Number of outcomes that count as imported.
pub open spec fn imported_total(outcomes: Seq<VersionScanOutcome>) -> nat
    decreases outcomes.len(),
{
    if outcomes.len() == 0 {
        0
    } else {
        imported_total(outcomes.drop_last()) + if counts_as_imported(outcomes.last()) {
            1nat
        } else {
            0nat
        }
    }
}

/// The number of versions a scan reports as imported.
pub fn total_imported(outcomes: &Vec<VersionScanOutcome>) -> (r: usize)
    ensures
        r == imported_total(outcomes@),
{
    let mut n: usize = 0;
    let mut i: usize = 0;
    while i < outcomes.len()
        invariant
            i <= outcomes@.len(),
            n == imported_total(outcomes@.take(i as int)),
            n <= i,
        decreases outcomes@.len() - i,
    {
        assert(outcomes@.take(i + 1).drop_last() == outcomes@.take(i as int));
        match &outcomes[i] {
            VersionScanOutcome::DryRun | VersionScanOutcome::Imported => {
                n = n + 1;
            },
            _ => {},
        }
        i = i + 1;
    }
    assert(outcomes@.take(outcomes@.len() as int) == outcomes@);
    n
}

/// The imported total grows by one exactly for a version that was imported
/// or (in a dry run) would be; a version that already exists or whose import
/// failed adds nothing; the total never exceeds the number of versions.
pub proof fn law_imported_total_counts_imports(outcomes: Seq<VersionScanOutcome>, o: VersionScanOutcome)
    ensures
        imported_total(outcomes.push(o)) == imported_total(outcomes) + if o is Imported
            || o is DryRun {
            1int
        } else {
            0int
        },
        o is Failed ==> imported_total(outcomes.push(o)) == imported_total(outcomes),
        o is AlreadyExists ==> imported_total(outcomes.push(o)) == imported_total(outcomes),
        imported_total(outcomes) <= outcomes.len(),
    decreases outcomes.len(),
{
    assert(outcomes.push(o).drop_last() == outcomes);
    if outcomes.len() > 0 {
        law_imported_total_counts_imports(outcomes.drop_last(), outcomes.last());
        assert(outcomes.drop_last().push(outcomes.last()) == outcomes);
    }
}

/// Whether the `i`-th version found for a model is imported as its default:
/// only when the model had no image records, and only the first version that
/// is not already recorded.
pub open spec fn is_default_version(no_existing_records: bool, exists: Seq<bool>, i: int) -> bool {
    &&& no_existing_records
    &&& !exists[i]
    &&& forall|j: int| 0 <= j < i ==> #[trigger] exists[j]
}

/// For each version found for a model, in scan order (`already_exists[i]`:
/// the version is already recorded), whether it becomes the model's default.
pub fn default_flags(no_existing_records: bool, already_exists: &Vec<bool>) -> (r: Vec<bool>)
    ensures
        r@.len() == already_exists@.len(),
        forall|i: int|
            0 <= i < r@.len() ==> #[trigger] r@[i] == is_default_version(
                no_existing_records,
                already_exists@,
                i,
            ),
{
    let mut flags: Vec<bool> = Vec::new();
    let mut set_default = no_existing_records;
    let mut i: usize = 0;
    while i < already_exists.len()
        invariant
            i <= already_exists@.len(),
            flags@.len() == i,
            set_default == (no_existing_records && forall|j: int|
                0 <= j < i ==> #[trigger] already_exists@[j]),
            forall|k: int|
                0 <= k < i ==> #[trigger] flags@[k] == is_default_version(
                    no_existing_records,
                    already_exists@,
                    k,
                ),
        decreases already_exists@.len() - i,
    {
        if already_exists[i] {
            flags.push(false);
        } else {
            flags.push(set_default);
            set_default = false;
        }
        i = i + 1;
    }
    flags
}

/// A scan makes at most one version of a model its default.
pub proof fn law_one_default_per_model(no_existing_records: bool, exists: Seq<bool>, i: int, j: int)
    requires
        0 <= i < j < exists.len(),
        is_default_version(no_existing_records, exists, i),
    ensures
        !is_default_version(no_existing_records, exists, j),
{
    assert(!exists[i]);
}

/// The version of a local Docker image tag `<repo>:<version>` of repository `repo`.
pub open spec fn tag_version(tag: Seq<char>, repo: Seq<char>) -> Option<Seq<char>> {
    let prefix = repo + ":"@;
    if tag.len() >= prefix.len() && tag.take(prefix.len() as int) == prefix {
        Some(tag.skip(prefix.len() as int))
    } else {
        None
    }
}

/// The version that a local Docker image tag gives a container model whose
/// repository is `repo` (`localrepo/arista_ceos:4.32.0F` gives `4.32.0F` for
/// `localrepo/arista_ceos`).
pub fn docker_tag_version(tag: &str, repo: &str) -> (r: Option<String>)
    ensures
        match r {
            Some(v) => tag_version(tag@, repo@) == Some(v@),
            None => tag_version(tag@, repo@) is None,
        },
{
    let t = chars_of(tag);
    let mut p: Vec<char> = Vec::new();
    push_str_chars(&mut p, repo);
    push_str_chars(&mut p, ":");
    if t.len() >= p.len() && slice_eq(&t, 0, p.len(), &p) {
        Some(string_of_range(&t, p.len(), t.len()))
    } else {
        None
    }
}

/// The refusal to make a missing image the default.
pub open spec fn image_not_found(model: Seq<char>, version: Seq<char>) -> Seq<char> {
    "Image not found for model '"@ + model + "' with version '"@ + version
        + "'. Use 'server image list' to see available images."@
}

/// Builds the refusal to make a missing image the default.
pub fn image_not_found_message(model: &str, version: &str) -> (r: String)
    ensures
        r@ == image_not_found(model@, version@),
{
    let mut out: Vec<char> = Vec::new();
    push_str_chars(&mut out, "Image not found for model '");
    push_str_chars(&mut out, model);
    push_str_chars(&mut out, "' with version '");
    push_str_chars(&mut out, version);
    push_str_chars(&mut out, "'. Use 'server image list' to see available images.");
    string_from_chars(&out)
}

/// Whether `image` is the one asked for: of model `model`, and of version
/// `version` when one is given, else the model's default.
pub open spec fn image_matches(image: NodeImageSummary, model: Seq<char>, version: Option<Seq<char>>) -> bool {
    &&& image.model@ == model
    &&& match version {
        Some(v) => image.version@ == v,
        None => image.default,
    }
}

/// The refusal when no image matches.
pub open spec fn image_missing(model: Seq<char>, version: Option<Seq<char>>) -> Seq<char> {
    match version {
        Some(v) => "Node image not found for model: "@ + model + " version: "@ + v,
        None => "Default node image not found for model: "@ + model,
    }
}

/// Chooses the image of a node among the known images: the first of the
/// node's model (named by its display name) in the version asked for, or
/// the model's default when no version is asked for.
pub fn select_node_image(
    model: &str,
    version: Option<&str>,
    images: &Vec<NodeImageSummary>,
) -> (r: Result<usize, String>)
    ensures
        match r {
            Ok(k) => k < images@.len() && image_matches(
                images@[k as int],
                model@,
                match version {
                    Some(v) => Some(v@),
                    None => None,
                },
            ) && forall|j: int|
                0 <= j < k ==> !image_matches(
                    #[trigger] images@[j],
                    model@,
                    match version {
                        Some(v) => Some(v@),
                        None => None,
                    },
                ),
            Err(e) => e@ == image_missing(
                model@,
                match version {
                    Some(v) => Some(v@),
                    None => None,
                },
            ) && forall|j: int|
                0 <= j < images@.len() ==> !image_matches(
                    #[trigger] images@[j],
                    model@,
                    match version {
                        Some(v) => Some(v@),
                        None => None,
                    },
                ),
        },
{
    let ghost wanted = match version {
        Some(v) => Some(v@),
        None => None,
    };
    let mut i: usize = 0;
    while i < images.len()
        invariant
            i <= images@.len(),
            wanted == match version {
                Some(v) => Some(v@),
                None => None,
            },
            forall|j: int| 0 <= j < i ==> !image_matches(#[trigger] images@[j], model@, wanted),
        decreases images@.len() - i,
    {
        let img = &images[i];
        let found = str_is(img.model.as_str(), model) && match version {
            Some(v) => str_is(img.version.as_str(), v),
            None => img.default,
        };
        if found {
            return Ok(i);
        }
        i = i + 1;
    }
    let mut out: Vec<char> = Vec::new();
    match version {
        Some(v) => {
            push_str_chars(&mut out, "Node image not found for model: ");
            push_str_chars(&mut out, model);
            push_str_chars(&mut out, " version: ");
            push_str_chars(&mut out, v);
        },
        None => {
            push_str_chars(&mut out, "Default node image not found for model: ");
            push_str_chars(&mut out, model);
        },
    }
    Err(string_from_chars(&out))
}

/// Whether the disk scan looks at a model directory of kind `kind`: container
/// models live in Docker, not on disk, and a kind filter keeps only its kind.
pub open spec fn disk_model_scanned(kind: NodeKind, filter: Option<NodeKind>) -> bool {
    kind != NodeKind::Container && match filter {
        None => true,
        Some(k) => k == kind,
    }
}

/// Decides whether the disk scan looks at a model directory of kind `kind`.
pub fn disk_scan_includes(kind: NodeKind, filter: Option<NodeKind>) -> (r: bool)
    ensures
        r == disk_model_scanned(kind, filter),
{
    if kind == NodeKind::Container {
        return false;
    }
    match filter {
        None => true,
        Some(k) => k == kind,
    }
}

/// Whether the scan lists Docker's local images: unless a kind filter asks
/// for another kind than containers.
pub fn container_scan_runs(filter: Option<NodeKind>) -> (r: bool)
    ensures
        r == !(filter matches Some(k) && k != NodeKind::Container),
{
    match filter {
        Some(k) => k == NodeKind::Container,
        None => true,
    }
}

/// Whether the container scan considers a model of kind `kind`: a container
/// model that passes the kind filter.
pub open spec fn container_model_scanned(kind: NodeKind, filter: Option<NodeKind>) -> bool {
    kind == NodeKind::Container && match filter {
        None => true,
        Some(k) => k == kind,
    }
}

/// The repository whose Docker tags give versions of a model in the
/// container scan: container models that pass the kind filter and have a
/// repository; `None` (the model is skipped) otherwise.
pub fn container_scan_repo(kind: NodeKind, filter: Option<NodeKind>, repo: Option<&str>) -> (r:
    Option<String>)
    ensures
        match r {
            Some(s) => {
                &&& container_model_scanned(kind, filter)
                &&& (repo matches Some(rp) && rp@ == s@)
            },
            None => !container_model_scanned(kind, filter) || repo is None,
        },
{
    if kind != NodeKind::Container {
        return None;
    }
    if let Some(k) = filter {
        if k != kind {
            return None;
        }
    }
    match repo {
        Some(r) => Some(r.to_string()),
        None => None,
    }
}

/// `<model_dir>/<version>/virtioa.qcow2`: the disk a version directory must hold.
pub open spec fn version_disk_path_of(model_dir: Seq<char>, version: Seq<char>) -> Seq<char> {
    model_dir + "/"@ + version + "/virtioa.qcow2"@
}

/// The disk image path of a version directory of a model directory.
pub fn version_disk_path(model_dir: &str, version: &str) -> (r: String)
    ensures
        r@ == version_disk_path_of(model_dir@, version@),
{
    let mut out: Vec<char> = Vec::new();
    push_str_chars(&mut out, model_dir);
    push_str_chars(&mut out, "/");
    push_str_chars(&mut out, version);
    push_str_chars(&mut out, "/virtioa.qcow2");
    string_from_chars(&out)
}

/// Whether an entry of a model directory is a version to import: a real
/// directory (neither it nor its link metadata a symlink) that holds its disk.
pub fn version_entry_scanned(is_dir: bool, is_symlink: bool, link_is_symlink: bool, has_disk: bool) -> (r: bool)
    ensures
        r == (is_dir && !is_symlink && !link_is_symlink && has_disk),
{
    is_dir && !is_symlink && !link_is_symlink && has_disk
}

/// A model is looked at by one scan at most (the disk scan or the container
/// scan), and with a kind filter only models of that kind are looked at.
pub proof fn law_models_scanned_once(kind: NodeKind, filter: Option<NodeKind>)
    ensures
        !(disk_model_scanned(kind, filter) && container_model_scanned(kind, filter)),
        filter matches Some(k) ==> (disk_model_scanned(kind, filter) || container_model_scanned(
            kind,
            filter,
        )) ==> kind == k,
{
}

} // verus!

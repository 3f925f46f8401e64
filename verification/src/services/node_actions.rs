//! Starting and stopping the nodes of a lab: which nodes are meant, what is
//! done to each VM or container, and the result reported for each node.
use crate::services::scanner::{NodeKind, VIR_DOMAIN_PAUSED, VIR_DOMAIN_SHUTOFF};
use crate::text::{push_str_chars, str_is, string_from_chars};
use vstd::prelude::*;

verus! {

/// What happened to one node.
pub struct NodeActionResult {
    pub name: String,
    pub success: bool,
    pub message: String,
}

/// The positions of the nodes an action is meant for: all of them, or those
/// named `node_name` (the names of the lab's nodes, in order).
pub open spec fn target_positions(names: Seq<Seq<char>>, node_name: Option<Seq<char>>) -> Seq<int>
    decreases names.len(),
{
    if names.len() == 0 {
        Seq::empty()
    } else {
        let p = target_positions(names.drop_last(), node_name);
        match node_name {
            Some(n) => if names.last() == n {
                p.push(names.len() - 1)
            } else {
                p
            },
            None => p.push(names.len() - 1),
        }
    }
}

/// `Node '<name>' not found in lab '<lab>'`.
pub open spec fn node_not_found(name: Seq<char>, lab_id: Seq<char>) -> Seq<char> {
    "Node '"@ + name + "' not found in lab '"@ + lab_id + "'"@
}

/// Chooses the nodes of a lab that a start or stop applies to: every node, or
/// the nodes named `node_name`, which must exist.
pub fn select_target_nodes(names: &Vec<String>, node_name: Option<&str>, lab_id: &str) -> (r: Result<
    Vec<usize>,
    String,
>)
    ensures
        match r {
            Ok(ps) => {
                &&& ps@.len() == target_positions(
                    names.deep_view(),
                    match node_name {
                        Some(n) => Some(n@),
                        None => None,
                    },
                ).len()
                &&& forall|i: int|
                    0 <= i < ps@.len() ==> #[trigger] ps@[i] == target_positions(
                        names.deep_view(),
                        match node_name {
                            Some(n) => Some(n@),
                            None => None,
                        },
                    )[i]
                &&& (node_name is Some ==> ps@.len() > 0)
            },
            Err(e) => node_name matches Some(n) && e@ == node_not_found(n@, lab_id@)
                && target_positions(names.deep_view(), Some(n@)).len() == 0,
        },
{
    let ghost wanted = match node_name {
        Some(n) => Some(n@),
        None => None,
    };
    let ghost all = names.deep_view();
    let mut out: Vec<usize> = Vec::new();
    let mut i: usize = 0;
    while i < names.len()
        invariant
            i <= names@.len(),
            all == names.deep_view(),
            wanted == match node_name {
                Some(n) => Some(n@),
                None => None,
            },
            out@.len() == target_positions(all.take(i as int), wanted).len(),
            forall|k: int|
                0 <= k < out@.len() ==> #[trigger] out@[k] == target_positions(
                    all.take(i as int),
                    wanted,
                )[k],
        decreases names@.len() - i,
    {
        assert(all.take(i + 1).drop_last() == all.take(i as int));
        assert(all.take(i + 1).last() == names@[i as int]@);
        let keep = match node_name {
            Some(n) => str_is(names[i].as_str(), n),
            None => true,
        };
        if keep {
            out.push(i);
        }
        i = i + 1;
    }
    assert(all.take(names@.len() as int) == all);
    match node_name {
        Some(n) => {
            if out.len() == 0 {
                let mut m: Vec<char> = Vec::new();
                push_str_chars(&mut m, "Node '");
                push_str_chars(&mut m, n);
                push_str_chars(&mut m, "' not found in lab '");
                push_str_chars(&mut m, lab_id);
                push_str_chars(&mut m, "'");
                return Err(string_from_chars(&m));
            }
        },
        None => {},
    }
    Ok(out)
}

/// The runtime name of a node of a lab: `<node>-<lab id>`.
pub fn device_name(node_name: &str, lab_id: &str) -> (r: String)
    ensures
        r@ == node_name@ + "-"@ + lab_id@,
{
    let mut out: Vec<char> = Vec::new();
    push_str_chars(&mut out, node_name);
    push_str_chars(&mut out, "-");
    push_str_chars(&mut out, lab_id);
    string_from_chars(&out)
}

/// A power operation on a VM's domain.
#[derive(Clone, Copy, PartialEq, Eq, Structural, Debug)]
pub enum VmPowerAction {
    /// Graceful ACPI shutdown.
    Shutdown,
    /// Forced power-off.
    Destroy,
    /// Cold boot of a defined, inactive domain.
    Create,
    /// Resume of a paused domain.
    Resume,
}

/// How a VM is stopped once its domain is found: nothing when it is not
/// active, a graceful shutdown when its guest agent answers, a forced
/// power-off otherwise.
pub fn vm_stop_action(active: bool, has_guest_agent: bool) -> (r: Option<VmPowerAction>)
    ensures
        r == if !active {
            None
        } else if has_guest_agent {
            Some(VmPowerAction::Shutdown)
        } else {
            Some(VmPowerAction::Destroy)
        },
{
    if !active {
        None
    } else if has_guest_agent {
        Some(VmPowerAction::Shutdown)
    } else {
        Some(VmPowerAction::Destroy)
    }
}

/// How a VM is started from its domain state: a shut-off domain is booted, a
/// paused one resumed, and any other is left alone.
pub fn vm_start_action(state_code: u32) -> (r: Option<VmPowerAction>)
    ensures
        r == if state_code == VIR_DOMAIN_SHUTOFF {
            Some(VmPowerAction::Create)
        } else if state_code == VIR_DOMAIN_PAUSED {
            Some(VmPowerAction::Resume)
        } else {
            None
        },
{
    if state_code == VIR_DOMAIN_SHUTOFF {
        Some(VmPowerAction::Create)
    } else if state_code == VIR_DOMAIN_PAUSED {
        Some(VmPowerAction::Resume)
    } else {
        None
    }
}

/// The message of a power operation that succeeded.
pub open spec fn power_done_message(action: VmPowerAction) -> Seq<char> {
    match action {
        VmPowerAction::Shutdown => "Shutdown initiated (graceful)"@,
        VmPowerAction::Destroy => "Powered off (forced, no guest agent)"@,
        VmPowerAction::Create => "Started"@,
        VmPowerAction::Resume => "Resumed"@,
    }
}

/// The start of the message of a power operation that failed.
pub open spec fn power_failed_prefix(action: VmPowerAction) -> Seq<char> {
    match action {
        VmPowerAction::Shutdown => "Failed to shutdown: "@,
        VmPowerAction::Destroy => "Failed to power off: "@,
        VmPowerAction::Create => "Failed to start: "@,
        VmPowerAction::Resume => "Failed to resume: "@,
    }
}

fn owned(s: &str) -> (r: String)
    ensures
        r@ == s@,
{
    let mut out: Vec<char> = Vec::new();
    push_str_chars(&mut out, s);
    string_from_chars(&out)
}

fn prefixed(prefix: &str, text: &str) -> (r: String)
    ensures
        r@ == prefix@ + text@,
{
    let mut out: Vec<char> = Vec::new();
    push_str_chars(&mut out, prefix);
    push_str_chars(&mut out, text);
    string_from_chars(&out)
}

/// The result of a power operation on node `node_name`; `error` is the
/// operation's error text when it failed.
pub fn power_action_result(node_name: &str, action: VmPowerAction, error: Option<&str>) -> (r:
    NodeActionResult)
    ensures
        r.name@ == node_name@,
        r.success == (error is None),
        r.message@ == match error {
            None => power_done_message(action),
            Some(e) => power_failed_prefix(action) + e@,
        },
{
    let message = match error {
        None => match action {
            VmPowerAction::Shutdown => owned("Shutdown initiated (graceful)"),
            VmPowerAction::Destroy => owned("Powered off (forced, no guest agent)"),
            VmPowerAction::Create => owned("Started"),
            VmPowerAction::Resume => owned("Resumed"),
        },
        Some(e) => match action {
            VmPowerAction::Shutdown => prefixed("Failed to shutdown: ", e),
            VmPowerAction::Destroy => prefixed("Failed to power off: ", e),
            VmPowerAction::Create => prefixed("Failed to start: ", e),
            VmPowerAction::Resume => prefixed("Failed to resume: ", e),
        },
    };
    NodeActionResult { name: owned(node_name), success: error.is_none(), message }
}

/// The result for a VM that needed nothing: already stopped when stopping,
/// already running when starting.
pub fn unchanged_vm_result(node_name: &str, stopping: bool) -> (r: NodeActionResult)
    ensures
        r.name@ == node_name@,
        r.success,
        r.message@ == if stopping {
            "Already stopped"@
        } else {
            "Already running"@
        },
{
    let message = if stopping {
        owned("Already stopped")
    } else {
        owned("Already running")
    };
    NodeActionResult { name: owned(node_name), success: true, message }
}

/// Why an action on a node could not be carried out.
#[derive(Clone, Copy, PartialEq, Eq, Structural, Debug)]
pub enum NodeActionFailure {
    /// The node's image is not in the database.
    ImageMissing,
    /// No domain has the node's runtime name.
    DomainMissing,
    /// Whether the domain is active could not be read (when stopping).
    ActivityUnknown,
    /// The domain's state could not be read (when starting).
    StateUnknown,
    /// Connecting to libvirt failed.
    Libvirt,
    /// The worker running the libvirt calls panicked.
    TaskPanicked,
}

/// The message of a failure, with its error text.
pub open spec fn failure_message(failure: NodeActionFailure, error: Seq<char>) -> Seq<char> {
    match failure {
        NodeActionFailure::ImageMissing => "Node image not found in database"@,
        NodeActionFailure::DomainMissing => "Domain not found: "@ + error,
        NodeActionFailure::ActivityUnknown => "Failed to check state: "@ + error,
        NodeActionFailure::StateUnknown => "Failed to get state: "@ + error,
        NodeActionFailure::Libvirt => "Libvirt error: "@ + error,
        NodeActionFailure::TaskPanicked => "Task panicked: "@ + error,
    }
}

/// The result for a node whose action could not be carried out.
pub fn failed_node_result(node_name: &str, failure: NodeActionFailure, error: &str) -> (r:
    NodeActionResult)
    ensures
        r.name@ == node_name@,
        !r.success,
        r.message@ == failure_message(failure, error@),
{
    let message = match failure {
        NodeActionFailure::ImageMissing => owned("Node image not found in database"),
        NodeActionFailure::DomainMissing => prefixed("Domain not found: ", error),
        NodeActionFailure::ActivityUnknown => prefixed("Failed to check state: ", error),
        NodeActionFailure::StateUnknown => prefixed("Failed to get state: ", error),
        NodeActionFailure::Libvirt => prefixed("Libvirt error: ", error),
        NodeActionFailure::TaskPanicked => prefixed("Task panicked: ", error),
    };
    NodeActionResult { name: owned(node_name), success: false, message }
}

/// The result of pausing (`stopping`) or unpausing a container; `error` is
/// the error chain when it failed.
pub fn container_action_result(node_name: &str, stopping: bool, error: Option<&str>) -> (r:
    NodeActionResult)
    ensures
        r.name@ == node_name@,
        r.success == (error is None),
        r.message@ == match error {
            None => if stopping {
                "Paused"@
            } else {
                "Unpaused"@
            },
            Some(e) => (if stopping {
                "Failed to pause: "@
            } else {
                "Failed to unpause: "@
            }) + e@,
        },
{
    let message = match error {
        None => if stopping {
            owned("Paused")
        } else {
            owned("Unpaused")
        },
        Some(e) => if stopping {
            prefixed("Failed to pause: ", e)
        } else {
            prefixed("Failed to unpause: ", e)
        },
    };
    NodeActionResult { name: owned(node_name), success: error.is_none(), message }
}

/// Whether a start cold-booted a VM (whose links then need their redirects
/// attached again).
pub fn is_cold_boot(result: &NodeActionResult, kind: NodeKind) -> (r: bool)
    ensures
        r == (result.success && result.message@ == "Started"@ && kind == NodeKind::VirtualMachine),
{
    result.success && str_is(result.message.as_str(), "Started") && match kind {
        NodeKind::VirtualMachine => true,
        _ => false,
    }
}

/// Only VMs that a start booted from shut-off count as cold-booted: a resumed
/// or already running VM keeps its tap devices.
pub proof fn law_only_booted_vms_are_cold_booted(action: Option<VmPowerAction>)
    ensures
        power_done_message(VmPowerAction::Create) == "Started"@,
        action != Some(VmPowerAction::Create) && action is Some ==> power_done_message(action->0)
            != "Started"@,
{
    reveal_strlit("Started");
    reveal_strlit("Resumed");
    reveal_strlit("Shutdown initiated (graceful)");
    reveal_strlit("Powered off (forced, no guest agent)");
    if action is Some && action != Some(VmPowerAction::Create) {
        let a = action->0;
        if a == VmPowerAction::Resume {
            assert(power_done_message(a)[0] == 'R');
        } else if a == VmPowerAction::Shutdown {
            assert(power_done_message(a)[1] == 'h');
        } else {
            assert(power_done_message(a)[0] == 'P');
        }
    }
}

} // verus!

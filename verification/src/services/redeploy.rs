//! Redeploying one node of a running lab, as a state machine: the caller
//! performs each action (destroying the node, recreating its networks and
//! ZTP configuration, recreating it, probing it) and feeds back what happened.
use crate::services::scanner::NodeKind;
use crate::text::{push_str_chars, string_from_chars};
use vstd::prelude::*;

verus! {

/// What the context of a redeploy says about the node.
#[derive(Clone, Copy, PartialEq, Eq, Structural, Debug)]
pub struct RedeployPlan {
    pub kind: NodeKind,
    /// Whether the node's image has reserved interfaces (a VM then gets a
    /// reserved network besides its isolated one).
    pub reserved_interfaces: bool,
    /// Whether the manifest skips the node's readiness check.
    pub skip_ready_check: bool,
}

/// Where a redeploy is.
#[derive(Clone, Copy, PartialEq, Eq, Structural, Debug)]
pub enum RedeployState {
    /// Waiting for the node's context (manifest entry, records, image).
    Loading,
    /// Waiting for the node to be marked as starting.
    MarkingStarting { plan: RedeployPlan },
    /// Waiting for the old node to be destroyed.
    Destroying { plan: RedeployPlan },
    /// Waiting for the node's old ZTP directory to be removed.
    RemovingZtp { plan: RedeployPlan },
    /// Waiting for a VM's isolated network.
    CreatingIsolated { plan: RedeployPlan },
    /// Waiting for a VM's reserved network.
    CreatingReserved { plan: RedeployPlan },
    /// Waiting for the ZTP configuration.
    Regenerating { plan: RedeployPlan },
    /// Waiting for the node to be created again.
    Recreating { plan: RedeployPlan },
    /// Waiting for a readiness probe of a VM.
    Probing,
    /// Waiting for the pause between two probes.
    Pausing,
    /// Waiting for the node to be marked as running.
    MarkingRunning,
    /// Done.
    Finished,
}

/// What the caller observed.
#[derive(Clone, Copy, PartialEq, Eq, Structural, Debug)]
pub enum RedeployEvent {
    /// The node's context was loaded.
    Loaded(RedeployPlan),
    /// Whether the requested step succeeded.
    Done(bool),
    /// A readiness probe: whether the node answers, and whether the readiness
    /// timeout has passed.
    Probed { ready: bool, timed_out: bool },
    /// The pause is over.
    Slept,
}

/// How a redeploy ended.
#[derive(Clone, Copy, PartialEq, Eq, Structural, Debug)]
pub enum RedeployOutcome {
    /// The node was redeployed; `ready` says whether it became ready in time.
    Redeployed { ready: bool },
    /// Unikernel nodes cannot be redeployed.
    Unsupported,
    /// A step failed.
    Failed,
}

/// What the caller does next.
#[derive(Clone, Copy, PartialEq, Eq, Structural, Debug)]
pub enum RedeployAction {
    LoadContext,
    MarkStarting,
    DestroyNode(NodeKind),
    RemoveZtpDir,
    CreateIsolatedNetwork,
    CreateReservedNetwork,
    RegenerateZtp(NodeKind),
    RecreateNode(NodeKind),
    ProbeNode,
    Pause,
    MarkRunning,
    Finish(RedeployOutcome),
}

/// The first state and action of a redeploy.
pub open spec fn redeploy_initial() -> (RedeployState, RedeployAction) {
    (RedeployState::Loading, RedeployAction::LoadContext)
}

/// The end of a failed step.
pub open spec fn redeploy_failed() -> (RedeployState, RedeployAction) {
    (RedeployState::Finished, RedeployAction::Finish(RedeployOutcome::Failed))
}

/// The step after regenerating: the node is recreated.
pub open spec fn after_ztp(plan: RedeployPlan) -> (RedeployState, RedeployAction) {
    (RedeployState::Recreating { plan }, RedeployAction::RecreateNode(plan.kind))
}

/// The transition of a redeploy: the node is marked as starting, a unikernel
/// is refused before anything is destroyed, the old node and its ZTP
/// directory are removed, a VM gets its isolated network back (and its
/// reserved one when its image has reserved interfaces), the ZTP
/// configuration is regenerated and the node recreated; a container is then
/// running, a VM is probed until it answers or the timeout passes (unless its
/// check is skipped). Any failed step ends the redeploy.
pub open spec fn redeploy_transition(state: RedeployState, event: RedeployEvent) -> (
    RedeployState,
    RedeployAction,
) {
    match state {
        RedeployState::Loading => match event {
            RedeployEvent::Loaded(plan) => (
                RedeployState::MarkingStarting { plan },
                RedeployAction::MarkStarting,
            ),
            _ => redeploy_failed(),
        },
        RedeployState::MarkingStarting { plan } => match event {
            RedeployEvent::Done(true) => if plan.kind == NodeKind::Unikernel {
                (RedeployState::Finished, RedeployAction::Finish(RedeployOutcome::Unsupported))
            } else {
                (RedeployState::Destroying { plan }, RedeployAction::DestroyNode(plan.kind))
            },
            _ => redeploy_failed(),
        },
        RedeployState::Destroying { plan } => match event {
            RedeployEvent::Done(true) => (
                RedeployState::RemovingZtp { plan },
                RedeployAction::RemoveZtpDir,
            ),
            _ => redeploy_failed(),
        },
        RedeployState::RemovingZtp { plan } => match event {
            RedeployEvent::Done(true) => if plan.kind == NodeKind::VirtualMachine {
                (RedeployState::CreatingIsolated { plan }, RedeployAction::CreateIsolatedNetwork)
            } else {
                (RedeployState::Regenerating { plan }, RedeployAction::RegenerateZtp(plan.kind))
            },
            _ => redeploy_failed(),
        },
        RedeployState::CreatingIsolated { plan } => match event {
            RedeployEvent::Done(true) => if plan.reserved_interfaces {
                (RedeployState::CreatingReserved { plan }, RedeployAction::CreateReservedNetwork)
            } else {
                (RedeployState::Regenerating { plan }, RedeployAction::RegenerateZtp(plan.kind))
            },
            _ => redeploy_failed(),
        },
        RedeployState::CreatingReserved { plan } => match event {
            RedeployEvent::Done(true) => (
                RedeployState::Regenerating { plan },
                RedeployAction::RegenerateZtp(plan.kind),
            ),
            _ => redeploy_failed(),
        },
        RedeployState::Regenerating { plan } => match event {
            RedeployEvent::Done(true) => after_ztp(plan),
            _ => redeploy_failed(),
        },
        RedeployState::Recreating { plan } => match event {
            RedeployEvent::Done(true) => if plan.kind == NodeKind::VirtualMachine
                && !plan.skip_ready_check {
                (RedeployState::Probing, RedeployAction::ProbeNode)
            } else {
                (RedeployState::MarkingRunning, RedeployAction::MarkRunning)
            },
            _ => redeploy_failed(),
        },
        RedeployState::Probing => match event {
            RedeployEvent::Probed { ready, timed_out } => if ready {
                (RedeployState::MarkingRunning, RedeployAction::MarkRunning)
            } else if timed_out {
                (
                    RedeployState::Finished,
                    RedeployAction::Finish(RedeployOutcome::Redeployed { ready: false }),
                )
            } else {
                (RedeployState::Pausing, RedeployAction::Pause)
            },
            _ => redeploy_failed(),
        },
        RedeployState::Pausing => (RedeployState::Probing, RedeployAction::ProbeNode),
        RedeployState::MarkingRunning => match event {
            RedeployEvent::Done(true) => (
                RedeployState::Finished,
                RedeployAction::Finish(RedeployOutcome::Redeployed { ready: true }),
            ),
            _ => redeploy_failed(),
        },
        RedeployState::Finished => redeploy_failed(),
    }
}

/// The first state and action of a redeploy.
pub fn redeploy_start() -> (r: (RedeployState, RedeployAction))
    ensures
        r == redeploy_initial(),
{
    (RedeployState::Loading, RedeployAction::LoadContext)
}

fn is_vm(kind: NodeKind) -> (r: bool)
    ensures
        r == (kind == NodeKind::VirtualMachine),
{
    match kind {
        NodeKind::VirtualMachine => true,
        _ => false,
    }
}

fn failed() -> (r: (RedeployState, RedeployAction))
    ensures
        r == redeploy_failed(),
{
    (RedeployState::Finished, RedeployAction::Finish(RedeployOutcome::Failed))
}

/// One step of a redeploy (see [`redeploy_transition`]).
pub fn redeploy_step(state: RedeployState, event: RedeployEvent) -> (r: (
    RedeployState,
    RedeployAction,
))
    ensures
        r == redeploy_transition(state, event),
{
    match state {
        RedeployState::Loading => match event {
            RedeployEvent::Loaded(plan) => (
                RedeployState::MarkingStarting { plan },
                RedeployAction::MarkStarting,
            ),
            _ => failed(),
        },
        RedeployState::MarkingStarting { plan } => match event {
            RedeployEvent::Done(true) => match plan.kind {
                NodeKind::Unikernel => (
                    RedeployState::Finished,
                    RedeployAction::Finish(RedeployOutcome::Unsupported),
                ),
                _ => (RedeployState::Destroying { plan }, RedeployAction::DestroyNode(plan.kind)),
            },
            _ => failed(),
        },
        RedeployState::Destroying { plan } => match event {
            RedeployEvent::Done(true) => (
                RedeployState::RemovingZtp { plan },
                RedeployAction::RemoveZtpDir,
            ),
            _ => failed(),
        },
        RedeployState::RemovingZtp { plan } => match event {
            RedeployEvent::Done(true) => if is_vm(plan.kind) {
                (RedeployState::CreatingIsolated { plan }, RedeployAction::CreateIsolatedNetwork)
            } else {
                (RedeployState::Regenerating { plan }, RedeployAction::RegenerateZtp(plan.kind))
            },
            _ => failed(),
        },
        RedeployState::CreatingIsolated { plan } => match event {
            RedeployEvent::Done(true) => if plan.reserved_interfaces {
                (RedeployState::CreatingReserved { plan }, RedeployAction::CreateReservedNetwork)
            } else {
                (RedeployState::Regenerating { plan }, RedeployAction::RegenerateZtp(plan.kind))
            },
            _ => failed(),
        },
        RedeployState::CreatingReserved { plan } => match event {
            RedeployEvent::Done(true) => (
                RedeployState::Regenerating { plan },
                RedeployAction::RegenerateZtp(plan.kind),
            ),
            _ => failed(),
        },
        RedeployState::Regenerating { plan } => match event {
            RedeployEvent::Done(true) => (
                RedeployState::Recreating { plan },
                RedeployAction::RecreateNode(plan.kind),
            ),
            _ => failed(),
        },
        RedeployState::Recreating { plan } => match event {
            RedeployEvent::Done(true) => if is_vm(plan.kind) && !plan.skip_ready_check {
                (RedeployState::Probing, RedeployAction::ProbeNode)
            } else {
                (RedeployState::MarkingRunning, RedeployAction::MarkRunning)
            },
            _ => failed(),
        },
        RedeployState::Probing => match event {
            RedeployEvent::Probed { ready, timed_out } => if ready {
                (RedeployState::MarkingRunning, RedeployAction::MarkRunning)
            } else if timed_out {
                (
                    RedeployState::Finished,
                    RedeployAction::Finish(RedeployOutcome::Redeployed { ready: false }),
                )
            } else {
                (RedeployState::Pausing, RedeployAction::Pause)
            },
            _ => failed(),
        },
        RedeployState::Pausing => (RedeployState::Probing, RedeployAction::ProbeNode),
        RedeployState::MarkingRunning => match event {
            RedeployEvent::Done(true) => (
                RedeployState::Finished,
                RedeployAction::Finish(RedeployOutcome::Redeployed { ready: true }),
            ),
            _ => failed(),
        },
        RedeployState::Finished => failed(),
    }
}

/// A unikernel is refused once marked as starting, before anything of it is
/// destroyed.
pub proof fn law_unikernel_refused_before_destroying(plan: RedeployPlan)
    requires
        plan.kind == NodeKind::Unikernel,
    ensures
        redeploy_transition(RedeployState::MarkingStarting { plan }, RedeployEvent::Done(true)) == (
            RedeployState::Finished,
            RedeployAction::Finish(RedeployOutcome::Unsupported),
        ),
{
}

/// Only VMs get networks recreated: a container goes from its removed ZTP
/// directory straight to regenerating its configuration, and a VM whose image
/// has no reserved interfaces gets no reserved network.
pub proof fn law_networks_only_for_vms(plan: RedeployPlan)
    ensures
        plan.kind == NodeKind::Container ==> redeploy_transition(
            RedeployState::RemovingZtp { plan },
            RedeployEvent::Done(true),
        ) == (RedeployState::Regenerating { plan }, RedeployAction::RegenerateZtp(plan.kind)),
        !plan.reserved_interfaces ==> redeploy_transition(
            RedeployState::CreatingIsolated { plan },
            RedeployEvent::Done(true),
        ) == (RedeployState::Regenerating { plan }, RedeployAction::RegenerateZtp(plan.kind)),
{
}

/// Readiness probes are only for VMs whose manifest keeps the ready check:
/// a recreated node is probed exactly when it is such a VM, and is otherwise
/// marked running at once; no step but that one and the pause between two
/// probes ever starts a probe.
pub proof fn law_probe_only_checked_vms(plan: RedeployPlan, state: RedeployState, event: RedeployEvent)
    ensures
        redeploy_transition(RedeployState::Recreating { plan }, RedeployEvent::Done(true)).1
            == RedeployAction::ProbeNode <==> (plan.kind == NodeKind::VirtualMachine
            && !plan.skip_ready_check),
        (plan.skip_ready_check || plan.kind != NodeKind::VirtualMachine) ==> redeploy_transition(
            RedeployState::Recreating { plan },
            RedeployEvent::Done(true),
        ) == (RedeployState::MarkingRunning, RedeployAction::MarkRunning),
        redeploy_transition(state, event).1 == RedeployAction::ProbeNode ==> (state
            == RedeployState::Pausing || (state matches RedeployState::Recreating { plan: p }
            && p.kind == NodeKind::VirtualMachine && !p.skip_ready_check)),
{
}

/// A failed step ends the redeploy as failed, whatever was under way, and
/// only a readiness probe that timed out ends it with the node not ready.
pub proof fn law_failed_step_ends_redeploy(state: RedeployState, event: RedeployEvent)
    ensures
        (event == RedeployEvent::Done(false) && state != RedeployState::Pausing) ==> redeploy_transition(
            state,
            event,
        ) == (RedeployState::Finished, RedeployAction::Finish(RedeployOutcome::Failed)),
        redeploy_transition(state, event).1 == RedeployAction::Finish(
            RedeployOutcome::Redeployed { ready: false },
        ) ==> state == RedeployState::Probing && event matches RedeployEvent::Probed {
            ready: false,
            timed_out: true,
        },
        redeploy_transition(state, event).1 == RedeployAction::Finish(
            RedeployOutcome::Redeployed { ready: true },
        ) ==> state == RedeployState::MarkingRunning && event == RedeployEvent::Done(true),
{
}

/// `Redeploy not supported for unikernel nodes`.
pub fn unikernel_refusal() -> (r: &'static str)
    ensures
        r@ == "Redeploy not supported for unikernel nodes"@,
{
    "Redeploy not supported for unikernel nodes"
}

/// `Node '<name>' redeployed successfully`.
pub fn redeployed_message(node_name: &str) -> (r: String)
    ensures
        r@ == "Node '"@ + node_name@ + "' redeployed successfully"@,
{
    let mut out: Vec<char> = Vec::new();
    push_str_chars(&mut out, "Node '");
    push_str_chars(&mut out, node_name);
    push_str_chars(&mut out, "' redeployed successfully");
    string_from_chars(&out)
}

/// The data interface indices of a node: from just after its reserved
/// interfaces to `reserved + data`, refused when either bound does not fit a
/// `u8`.
pub fn data_interface_range(reserved: u8, data: u8, node_name: &str) -> (r: Result<(u8, u8), String>)
    ensures
        match r {
            Ok((first, last)) => reserved + 1 <= u8::MAX && reserved + data <= u8::MAX && first
                == reserved + 1 && last == reserved + data,
            Err(e) => if reserved + 1 > u8::MAX {
                e@ == "Reserved interface count overflow for node "@ + node_name@
            } else {
                reserved + data > u8::MAX && e@ == "Data interface count overflow for node "@
                    + node_name@
            },
        },
{
    let first = match reserved.checked_add(1) {
        Some(f) => f,
        None => {
            let mut out: Vec<char> = Vec::new();
            push_str_chars(&mut out, "Reserved interface count overflow for node ");
            push_str_chars(&mut out, node_name);
            return Err(string_from_chars(&out));
        },
    };
    let last = match reserved.checked_add(data) {
        Some(l) => l,
        None => {
            let mut out: Vec<char> = Vec::new();
            push_str_chars(&mut out, "Data interface count overflow for node ");
            push_str_chars(&mut out, node_name);
            return Err(string_from_chars(&out));
        },
    };
    Ok((first, last))
}

} // verus!

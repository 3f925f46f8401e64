//! Bringing a lab up, as a state machine: the caller performs each action
//! (looking the lab up, validating the manifest, running a resource phase,
//! probing the nodes, cleaning up) and feeds back what happened.
use crate::text::{decimal_nat, push_decimal_u64, push_str_chars, string_from_chars};
use vstd::prelude::*;

verus! {

/// The phases that create resources, in the order they run.
#[derive(Clone, Copy, PartialEq, Eq, Structural, Debug)]
pub enum ResourcePhase {
    DatabaseRecords,
    LabNetworkSetup,
    LinkCreation,
    ContainerNetworks,
    SharedBridges,
    ZtpGeneration,
    BootContainers,
    DiskCloning,
    VmCreation,
    SshConfig,
}

/// The phase after `p` (`None`: the resources are all created).
pub open spec fn phase_after(p: ResourcePhase) -> Option<ResourcePhase> {
    match p {
        ResourcePhase::DatabaseRecords => Some(ResourcePhase::LabNetworkSetup),
        ResourcePhase::LabNetworkSetup => Some(ResourcePhase::LinkCreation),
        ResourcePhase::LinkCreation => Some(ResourcePhase::ContainerNetworks),
        ResourcePhase::ContainerNetworks => Some(ResourcePhase::SharedBridges),
        ResourcePhase::SharedBridges => Some(ResourcePhase::ZtpGeneration),
        ResourcePhase::ZtpGeneration => Some(ResourcePhase::BootContainers),
        ResourcePhase::BootContainers => Some(ResourcePhase::DiskCloning),
        ResourcePhase::DiskCloning => Some(ResourcePhase::VmCreation),
        ResourcePhase::VmCreation => Some(ResourcePhase::SshConfig),
        ResourcePhase::SshConfig => None,
    }
}

/// Position of a resource phase (0 for the first).
pub open spec fn phase_index(p: ResourcePhase) -> nat {
    match p {
        ResourcePhase::DatabaseRecords => 0,
        ResourcePhase::LabNetworkSetup => 1,
        ResourcePhase::LinkCreation => 2,
        ResourcePhase::ContainerNetworks => 3,
        ResourcePhase::SharedBridges => 4,
        ResourcePhase::ZtpGeneration => 5,
        ResourcePhase::BootContainers => 6,
        ResourcePhase::DiskCloning => 7,
        ResourcePhase::VmCreation => 8,
        ResourcePhase::SshConfig => 9,
    }
}

/// Where bringing a lab up is.
#[derive(Clone, Copy, PartialEq, Eq, Structural, Debug)]
pub enum UpState {
    /// Waiting to learn whether a lab with the requested id exists.
    CheckingLab,
    /// Waiting for the manifest's validation.
    Validating,
    /// Waiting for a resource phase to finish.
    Creating { phase: ResourcePhase },
    /// Waiting for a readiness probe of the nodes.
    Probing,
    /// Waiting for the pause between two probes.
    Pausing,
    /// Waiting for the removal of what was created.
    CleaningUp,
    /// Done.
    Finished,
}

/// What the caller observed.
#[derive(Clone, Copy, PartialEq, Eq, Structural, Debug)]
pub enum UpEvent {
    /// Whether a lab with the requested id already exists.
    LabFound(bool),
    /// Whether the requested step succeeded.
    Done(bool),
    /// A readiness probe: how many of `total` nodes are ready, and whether the
    /// readiness timeout has passed.
    Probed { ready: u64, total: u64, timed_out: bool },
    /// The pause is over.
    Slept,
}

/// Why a lab was refused before anything was done.
#[derive(Clone, Copy, PartialEq, Eq, Structural, Debug)]
pub enum UpRefusal {
    /// A lab with the requested id exists already.
    LabExists,
}

/// How bringing a lab up ended.
#[derive(Clone, Copy, PartialEq, Eq, Structural, Debug)]
pub enum UpOutcome {
    /// The lab is up; `not_ready` nodes did not become ready in time (warnings,
    /// not failures).
    Created { not_ready: u64 },
    /// Refused before any resource was created.
    Refused(UpRefusal),
    /// Failed; `cleaned_up` says whether created resources were removed.
    Failed { cleaned_up: bool },
}

/// What the caller does next.
#[derive(Clone, Copy, PartialEq, Eq, Structural, Debug)]
pub enum UpAction {
    /// Connect to the services and look the lab up.
    LookupLab,
    /// Validate the manifest (devices, environment variables, versions,
    /// interfaces, links and bridges).
    ValidateManifest,
    /// Run a resource phase.
    RunPhase(ResourcePhase),
    /// Probe which nodes are ready.
    ProbeNodes,
    /// Wait the readiness interval before probing again.
    Pause,
    /// Remove everything the lab created so far.
    CleanLab,
    /// Stop with this outcome.
    Finish(UpOutcome),
}

/// Whether an action creates, changes or removes lab resources.
pub open spec fn is_resource_action(a: UpAction) -> bool {
    a is RunPhase || a is CleanLab
}

/// The first state and action of bringing a lab up.
pub open spec fn up_initial() -> (UpState, UpAction) {
    (UpState::CheckingLab, UpAction::LookupLab)
}

/// The transition of bringing a lab up: the lab must not exist and the
/// manifest must validate before any resource is created (failures there
/// leave nothing to clean); the resource phases run in order, and a failure
/// in any of them, or in a readiness probe, removes what was created; the
/// nodes are then probed until all are ready or the timeout passes, the
/// nodes not ready by then being reported as warnings.
pub open spec fn up_transition(state: UpState, event: UpEvent) -> (UpState, UpAction) {
    match state {
        UpState::CheckingLab => match event {
            UpEvent::LabFound(false) => (UpState::Validating, UpAction::ValidateManifest),
            UpEvent::LabFound(true) => (
                UpState::Finished,
                UpAction::Finish(UpOutcome::Refused(UpRefusal::LabExists)),
            ),
            _ => (UpState::Finished, UpAction::Finish(UpOutcome::Failed { cleaned_up: false })),
        },
        UpState::Validating => match event {
            UpEvent::Done(true) => (
                UpState::Creating { phase: ResourcePhase::DatabaseRecords },
                UpAction::RunPhase(ResourcePhase::DatabaseRecords),
            ),
            _ => (UpState::Finished, UpAction::Finish(UpOutcome::Failed { cleaned_up: false })),
        },
        UpState::Creating { phase } => match event {
            UpEvent::Done(true) => match phase_after(phase) {
                Some(next) => (UpState::Creating { phase: next }, UpAction::RunPhase(next)),
                None => (UpState::Probing, UpAction::ProbeNodes),
            },
            _ => (UpState::CleaningUp, UpAction::CleanLab),
        },
        UpState::Probing => match event {
            UpEvent::Probed { ready, total, timed_out } => if ready >= total {
                (UpState::Finished, UpAction::Finish(UpOutcome::Created { not_ready: 0 }))
            } else if timed_out {
                (
                    UpState::Finished,
                    UpAction::Finish(UpOutcome::Created { not_ready: (total - ready) as u64 }),
                )
            } else {
                (UpState::Pausing, UpAction::Pause)
            },
            _ => (UpState::CleaningUp, UpAction::CleanLab),
        },
        UpState::Pausing => (UpState::Probing, UpAction::ProbeNodes),
        UpState::CleaningUp => (
            UpState::Finished,
            UpAction::Finish(UpOutcome::Failed { cleaned_up: true }),
        ),
        UpState::Finished => (UpState::Finished, UpAction::Finish(UpOutcome::Failed { cleaned_up: false })),
    }
}

/// The first state and action of bringing a lab up.
pub fn up_start() -> (r: (UpState, UpAction))
    ensures
        r == up_initial(),
{
    (UpState::CheckingLab, UpAction::LookupLab)
}

fn next_phase(p: ResourcePhase) -> (r: Option<ResourcePhase>)
    ensures
        r == phase_after(p),
{
    match p {
        ResourcePhase::DatabaseRecords => Some(ResourcePhase::LabNetworkSetup),
        ResourcePhase::LabNetworkSetup => Some(ResourcePhase::LinkCreation),
        ResourcePhase::LinkCreation => Some(ResourcePhase::ContainerNetworks),
        ResourcePhase::ContainerNetworks => Some(ResourcePhase::SharedBridges),
        ResourcePhase::SharedBridges => Some(ResourcePhase::ZtpGeneration),
        ResourcePhase::ZtpGeneration => Some(ResourcePhase::BootContainers),
        ResourcePhase::BootContainers => Some(ResourcePhase::DiskCloning),
        ResourcePhase::DiskCloning => Some(ResourcePhase::VmCreation),
        ResourcePhase::VmCreation => Some(ResourcePhase::SshConfig),
        ResourcePhase::SshConfig => None,
    }
}

/// One step of bringing a lab up (see [`up_transition`]).
pub fn up_step(state: UpState, event: UpEvent) -> (r: (UpState, UpAction))
    ensures
        r == up_transition(state, event),
{
    match state {
        UpState::CheckingLab => match event {
            UpEvent::LabFound(false) => (UpState::Validating, UpAction::ValidateManifest),
            UpEvent::LabFound(true) => (
                UpState::Finished,
                UpAction::Finish(UpOutcome::Refused(UpRefusal::LabExists)),
            ),
            _ => (UpState::Finished, UpAction::Finish(UpOutcome::Failed { cleaned_up: false })),
        },
        UpState::Validating => match event {
            UpEvent::Done(true) => (
                UpState::Creating { phase: ResourcePhase::DatabaseRecords },
                UpAction::RunPhase(ResourcePhase::DatabaseRecords),
            ),
            _ => (UpState::Finished, UpAction::Finish(UpOutcome::Failed { cleaned_up: false })),
        },
        UpState::Creating { phase } => match event {
            UpEvent::Done(true) => match next_phase(phase) {
                Some(next) => (UpState::Creating { phase: next }, UpAction::RunPhase(next)),
                None => (UpState::Probing, UpAction::ProbeNodes),
            },
            _ => (UpState::CleaningUp, UpAction::CleanLab),
        },
        UpState::Probing => match event {
            UpEvent::Probed { ready, total, timed_out } => if ready >= total {
                (UpState::Finished, UpAction::Finish(UpOutcome::Created { not_ready: 0 }))
            } else if timed_out {
                (UpState::Finished, UpAction::Finish(UpOutcome::Created { not_ready: total - ready }))
            } else {
                (UpState::Pausing, UpAction::Pause)
            },
            _ => (UpState::CleaningUp, UpAction::CleanLab),
        },
        UpState::Pausing => (UpState::Probing, UpAction::ProbeNodes),
        UpState::CleaningUp => (
            UpState::Finished,
            UpAction::Finish(UpOutcome::Failed { cleaned_up: true }),
        ),
        UpState::Finished => (UpState::Finished, UpAction::Finish(UpOutcome::Failed { cleaned_up: false })),
    }
}

/// An existing lab is refused first: the first action only looks the lab up,
/// and when it exists the run finishes at once, refused, with no resource
/// action ever taken.
pub proof fn law_existing_lab_refused_first()
    ensures
        !is_resource_action(up_initial().1),
        up_transition(up_initial().0, UpEvent::LabFound(true)) == (
            UpState::Finished,
            UpAction::Finish(UpOutcome::Refused(UpRefusal::LabExists)),
        ),
{
}

/// A run that fails before the resource phases (its manifest does not
/// validate) finishes without cleaning up, since nothing was created; one
/// that fails in a resource phase or in a readiness probe removes what was
/// created, and then finishes as failed.
pub proof fn law_failures_clean_only_created_resources(phase: ResourcePhase, event: UpEvent)
    ensures
        up_transition(UpState::Validating, UpEvent::Done(false)) == (
            UpState::Finished,
            UpAction::Finish(UpOutcome::Failed { cleaned_up: false }),
        ),
        up_transition(UpState::Creating { phase }, UpEvent::Done(false)) == (
            UpState::CleaningUp,
            UpAction::CleanLab,
        ),
        up_transition(UpState::Probing, UpEvent::Done(false)) == (
            UpState::CleaningUp,
            UpAction::CleanLab,
        ),
        up_transition(UpState::CleaningUp, event) == (
            UpState::Finished,
            UpAction::Finish(UpOutcome::Failed { cleaned_up: true }),
        ),
{
}

/// Nodes that are not ready when the readiness timeout passes are warnings:
/// the lab is still created, with their number reported.
pub proof fn law_late_nodes_are_warnings(ready: u64, total: u64)
    requires
        ready < total,
    ensures
        up_transition(UpState::Probing, UpEvent::Probed { ready, total, timed_out: true }) == (
            UpState::Finished,
            UpAction::Finish(UpOutcome::Created { not_ready: (total - ready) as u64 }),
        ),
{
}

/// The resource phases run in order, each once: a finished phase hands over
/// to the next one, and the last hands over to the readiness probes.
pub proof fn law_phases_run_in_order(phase: ResourcePhase)
    ensures
        match phase_after(phase) {
            Some(next) => phase_index(next) == phase_index(phase) + 1 && up_transition(
                UpState::Creating { phase },
                UpEvent::Done(true),
            ) == (UpState::Creating { phase: next }, UpAction::RunPhase(next)),
            None => phase_index(phase) == 9 && up_transition(
                UpState::Creating { phase },
                UpEvent::Done(true),
            ) == (UpState::Probing, UpAction::ProbeNodes),
        },
{
}

/// The completed-phase name a run reports for a resource phase.
pub open spec fn phase_name(p: ResourcePhase) -> Seq<char> {
    match p {
        ResourcePhase::DatabaseRecords => "DatabaseRecords"@,
        ResourcePhase::LabNetworkSetup => "LabNetworkSetup"@,
        ResourcePhase::LinkCreation => "LinkCreation"@,
        ResourcePhase::ContainerNetworks => "ContainerNetworks"@,
        ResourcePhase::SharedBridges => "SharedBridges"@,
        ResourcePhase::ZtpGeneration => "ZtpGeneration"@,
        ResourcePhase::BootContainers => "Sherpa Router"@,
        ResourcePhase::DiskCloning => "DiskCloning"@,
        ResourcePhase::VmCreation => "VmCreation"@,
        ResourcePhase::SshConfig => "SshConfig"@,
    }
}

/// The name listed among the completed phases for a resource phase.
pub fn completed_phase_name(p: ResourcePhase) -> (r: &'static str)
    ensures
        r@ == phase_name(p),
{
    match p {
        ResourcePhase::DatabaseRecords => "DatabaseRecords",
        ResourcePhase::LabNetworkSetup => "LabNetworkSetup",
        ResourcePhase::LinkCreation => "LinkCreation",
        ResourcePhase::ContainerNetworks => "ContainerNetworks",
        ResourcePhase::SharedBridges => "SharedBridges",
        ResourcePhase::ZtpGeneration => "ZtpGeneration",
        ResourcePhase::BootContainers => "Sherpa Router",
        ResourcePhase::DiskCloning => "DiskCloning",
        ResourcePhase::VmCreation => "VmCreation",
        ResourcePhase::SshConfig => "SshConfig",
    }
}

/// The refusal of a lab id that is taken.
pub open spec fn lab_exists(name: Seq<char>, lab_id: Seq<char>) -> Seq<char> {
    "Lab already exists. Please use a different lab ID or destroy the existing lab first.\n Lab name: "@
        + name + "\n Lab id: "@ + lab_id
}

/// Builds the refusal of a lab id that is taken by the lab named `name`.
pub fn lab_exists_message(name: &str, lab_id: &str) -> (r: String)
    ensures
        r@ == lab_exists(name@, lab_id@),
{
    let mut out: Vec<char> = Vec::new();
    push_str_chars(
        &mut out,
        "Lab already exists. Please use a different lab ID or destroy the existing lab first.\n Lab name: ",
    );
    push_str_chars(&mut out, name);
    push_str_chars(&mut out, "\n Lab id: ");
    push_str_chars(&mut out, lab_id);
    string_from_chars(&out)
}

/// `Timeout reached. <ready> of <total> nodes are ready.`
pub fn readiness_timeout_message(ready: u64, total: u64) -> (r: String)
    ensures
        r@ == "Timeout reached. "@ + decimal_nat(ready as nat) + " of "@ + decimal_nat(total as nat)
            + " nodes are ready."@,
{
    let mut out: Vec<char> = Vec::new();
    push_str_chars(&mut out, "Timeout reached. ");
    push_decimal_u64(&mut out, ready);
    push_str_chars(&mut out, " of ");
    push_decimal_u64(&mut out, total);
    push_str_chars(&mut out, " nodes are ready.");
    string_from_chars(&out)
}

/// `Node <name> did not become ready`, the warning for a node late at the timeout.
pub fn node_not_ready_message(name: &str) -> (r: String)
    ensures
        r@ == "Node "@ + name@ + " did not become ready"@,
{
    let mut out: Vec<char> = Vec::new();
    push_str_chars(&mut out, "Node ");
    push_str_chars(&mut out, name);
    push_str_chars(&mut out, " did not become ready");
    string_from_chars(&out)
}

/// The resources a run reports creating.
pub struct UpSummary {
    pub containers_created: u64,
    pub vms_created: u64,
    pub unikernels_created: u64,
    /// The management network and one per shared bridge.
    pub networks_created: u64,
    /// Two bridges per point-to-point link.
    pub bridges_created: u64,
    /// Two veth interfaces per link.
    pub interfaces_created: u64,
}

/// The summary of a run from the counts of what it created.
pub fn up_summary(
    containers: u64,
    vms: u64,
    unikernels: u64,
    shared_bridges: u64,
    p2p_links: u64,
    links: u64,
) -> (r: UpSummary)
    requires
        shared_bridges < u64::MAX,
        p2p_links * 2 <= u64::MAX,
        links * 2 <= u64::MAX,
    ensures
        r.containers_created == containers,
        r.vms_created == vms,
        r.unikernels_created == unikernels,
        r.networks_created == 1 + shared_bridges,
        r.bridges_created == 2 * p2p_links,
        r.interfaces_created == 2 * links,
{
    UpSummary {
        containers_created: containers,
        vms_created: vms,
        unikernels_created: unikernels,
        networks_created: 1 + shared_bridges,
        bridges_created: p2p_links * 2,
        interfaces_created: links * 2,
    }
}

} // verus!

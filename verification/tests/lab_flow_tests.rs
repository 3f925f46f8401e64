use sherpa_server::services::redeploy::{
    data_interface_range, redeploy_start, redeploy_step, redeployed_message, unikernel_refusal,
    RedeployAction, RedeployEvent, RedeployOutcome, RedeployPlan,
};
use sherpa_server::services::scanner::NodeKind;
use sherpa_server::services::up::{
    completed_phase_name, lab_exists_message, node_not_ready_message, readiness_timeout_message,
    up_start, up_step, up_summary, ResourcePhase, UpAction, UpEvent, UpOutcome, UpRefusal,
};

fn run_up(events: &[UpEvent]) -> Vec<UpAction> {
    let (mut state, first) = up_start();
    let mut actions = vec![first];
    for e in events {
        let (s, a) = up_step(state, *e);
        state = s;
        actions.push(a);
    }
    actions
}

#[test]
fn an_existing_lab_is_refused_first() {
    let actions = run_up(&[UpEvent::LabFound(true)]);
    assert_eq!(
        actions,
        vec![UpAction::LookupLab, UpAction::Finish(UpOutcome::Refused(UpRefusal::LabExists))]
    );
    assert_eq!(
        lab_exists_message("demo", "abc12345"),
        "Lab already exists. Please use a different lab ID or destroy the existing lab first.\n Lab name: demo\n Lab id: abc12345"
    );
}

#[test]
fn a_lab_comes_up_phase_by_phase() {
    let mut events = vec![UpEvent::LabFound(false), UpEvent::Done(true)];
    for _ in 0..10 {
        events.push(UpEvent::Done(true));
    }
    events.push(UpEvent::Probed { ready: 1, total: 3, timed_out: false });
    events.push(UpEvent::Slept);
    events.push(UpEvent::Probed { ready: 3, total: 3, timed_out: false });
    let actions = run_up(&events);
    assert_eq!(actions[1], UpAction::ValidateManifest);
    assert_eq!(actions[2], UpAction::RunPhase(ResourcePhase::DatabaseRecords));
    assert_eq!(actions[11], UpAction::RunPhase(ResourcePhase::SshConfig));
    assert_eq!(actions[12], UpAction::ProbeNodes);
    assert_eq!(actions[13], UpAction::Pause);
    assert_eq!(actions[14], UpAction::ProbeNodes);
    assert_eq!(actions[15], UpAction::Finish(UpOutcome::Created { not_ready: 0 }));
}

#[test]
fn failures_clean_up_only_after_resources() {
    let invalid = run_up(&[UpEvent::LabFound(false), UpEvent::Done(false)]);
    assert_eq!(invalid[2], UpAction::Finish(UpOutcome::Failed { cleaned_up: false }));
    let broken = run_up(&[
        UpEvent::LabFound(false),
        UpEvent::Done(true),
        UpEvent::Done(true),
        UpEvent::Done(false),
        UpEvent::Done(true),
    ]);
    assert_eq!(broken[4], UpAction::CleanLab);
    assert_eq!(broken[5], UpAction::Finish(UpOutcome::Failed { cleaned_up: true }));
}

#[test]
fn late_nodes_are_warnings() {
    let mut events = vec![UpEvent::LabFound(false), UpEvent::Done(true)];
    for _ in 0..10 {
        events.push(UpEvent::Done(true));
    }
    events.push(UpEvent::Probed { ready: 1, total: 3, timed_out: true });
    let actions = run_up(&events);
    assert_eq!(*actions.last().unwrap(), UpAction::Finish(UpOutcome::Created { not_ready: 2 }));
    assert_eq!(readiness_timeout_message(1, 3), "Timeout reached. 1 of 3 nodes are ready.");
    assert_eq!(node_not_ready_message("r1"), "Node r1 did not become ready");
}

#[test]
fn up_reports() {
    assert_eq!(completed_phase_name(ResourcePhase::BootContainers), "Sherpa Router");
    assert_eq!(completed_phase_name(ResourcePhase::LinkCreation), "LinkCreation");
    let s = up_summary(2, 3, 1, 4, 5, 6);
    assert_eq!(
        (s.containers_created, s.vms_created, s.unikernels_created),
        (2, 3, 1)
    );
    assert_eq!((s.networks_created, s.bridges_created, s.interfaces_created), (5, 10, 12));
}

fn run_redeploy(events: &[RedeployEvent]) -> Vec<RedeployAction> {
    let (mut state, first) = redeploy_start();
    let mut actions = vec![first];
    for e in events {
        let (s, a) = redeploy_step(state, *e);
        state = s;
        actions.push(a);
    }
    actions
}

#[test]
fn redeploying_a_vm() {
    let plan = RedeployPlan {
        kind: NodeKind::VirtualMachine,
        reserved_interfaces: true,
        skip_ready_check: false,
    };
    let actions = run_redeploy(&[
        RedeployEvent::Loaded(plan),
        RedeployEvent::Done(true),
        RedeployEvent::Done(true),
        RedeployEvent::Done(true),
        RedeployEvent::Done(true),
        RedeployEvent::Done(true),
        RedeployEvent::Done(true),
        RedeployEvent::Done(true),
        RedeployEvent::Probed { ready: false, timed_out: false },
        RedeployEvent::Slept,
        RedeployEvent::Probed { ready: true, timed_out: false },
        RedeployEvent::Done(true),
    ]);
    assert_eq!(
        actions,
        vec![
            RedeployAction::LoadContext,
            RedeployAction::MarkStarting,
            RedeployAction::DestroyNode(NodeKind::VirtualMachine),
            RedeployAction::RemoveZtpDir,
            RedeployAction::CreateIsolatedNetwork,
            RedeployAction::CreateReservedNetwork,
            RedeployAction::RegenerateZtp(NodeKind::VirtualMachine),
            RedeployAction::RecreateNode(NodeKind::VirtualMachine),
            RedeployAction::ProbeNode,
            RedeployAction::Pause,
            RedeployAction::ProbeNode,
            RedeployAction::MarkRunning,
            RedeployAction::Finish(RedeployOutcome::Redeployed { ready: true }),
        ]
    );
    assert_eq!(redeployed_message("r1"), "Node 'r1' redeployed successfully");
}

#[test]
fn redeploying_a_container_or_a_unikernel() {
    let container = RedeployPlan {
        kind: NodeKind::Container,
        reserved_interfaces: false,
        skip_ready_check: false,
    };
    let actions = run_redeploy(&[
        RedeployEvent::Loaded(container),
        RedeployEvent::Done(true),
        RedeployEvent::Done(true),
        RedeployEvent::Done(true),
        RedeployEvent::Done(true),
        RedeployEvent::Done(true),
    ]);
    assert_eq!(actions[4], RedeployAction::RegenerateZtp(NodeKind::Container));
    assert_eq!(actions[6], RedeployAction::MarkRunning);
    let uk = RedeployPlan { kind: NodeKind::Unikernel, ..container };
    let refused = run_redeploy(&[RedeployEvent::Loaded(uk), RedeployEvent::Done(true)]);
    assert_eq!(refused[2], RedeployAction::Finish(RedeployOutcome::Unsupported));
    assert_eq!(unikernel_refusal(), "Redeploy not supported for unikernel nodes");
}

#[test]
fn interface_ranges() {
    assert_eq!(data_interface_range(2, 8, "r1"), Ok((3, 10)));
    assert_eq!(
        data_interface_range(255, 1, "r1"),
        Err("Reserved interface count overflow for node r1".to_string())
    );
    assert_eq!(
        data_interface_range(200, 100, "r1"),
        Err("Data interface count overflow for node r1".to_string())
    );
}

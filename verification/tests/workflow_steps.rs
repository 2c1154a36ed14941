use projwatch::framebuffer::FbEvent;
use projwatch::topology::Output;
use projwatch::workflow::{DetectStep, Phase, ProvisionStep, ReconfigureStep, Workflow};

fn out(name: &str, active: bool, powered: bool, workspace: Option<&str>) -> Output {
    Output {
        name: name.to_string(),
        active,
        powered,
        workspace: workspace.map(|w| w.to_string()),
    }
}

fn session() -> Workflow {
    Workflow::new(
        vec!["DP1".to_string(), "DP-1".to_string()],
        "PROJMON-1".to_string(),
    )
}

#[test]
fn scenario_cancel_before_match_exits_without_device_use() {
    let mut w = session();
    let empty: Vec<Output> = Vec::new();
    assert_eq!(w.step_detect(&empty, false), DetectStep::Continue);
    assert_eq!(w.step_detect(&empty, true), DetectStep::CancelledExit);
    assert_eq!(w.phase, Phase::Done);
    assert!(w.completed);
    assert!(w.fb.log.is_empty());
}

#[test]
fn full_session_without_prior_virtual_output() {
    let mut w = session();
    let empty: Vec<Output> = Vec::new();
    assert_eq!(w.step_detect(&empty, false), DetectStep::Continue);

    let snapshot = vec![out("eDP-1", true, true, Some("2")), out("DP-1", true, true, Some("1"))];
    assert_eq!(w.step_detect(&snapshot, false), DetectStep::Matched);
    let d = w.detection.as_ref().expect("detection recorded");
    assert_eq!(d.name, "DP-1");
    assert_eq!(d.workspace, "1");

    let cmds = match w.step_reconfigure(false) {
        ReconfigureStep::Commands(c) => c,
        ReconfigureStep::Cancelled => panic!("not cancelled"),
    };
    assert_eq!(cmds.len(), 3);
    assert_eq!(cmds[0], "output DP-1 mode 1920x1080 pos -19200 0 bg #000000 solid_color");
    assert_eq!(cmds[1], "create_output PROJMON-1");
    assert_eq!(cmds[2], "output PROJMON-1 mode 1920x1080 pos -1920 0 bg #000000 solid_color");

    assert_eq!(w.step_provision(false, true, 1920, 1080, 3), ProvisionStep::Ready);
    assert_eq!(w.fb.buffer.as_ref().expect("frame buffer").len(), 1920 * 1080 * 3);

    let teardown = w.step_teardown(12);
    assert_eq!(teardown.len(), 13);
    assert_eq!(teardown[0], "output PROJMON-1 unplug");
    assert_eq!(teardown[12], "output HEADLESS-11 unplug");
    assert_eq!(w.phase, Phase::Done);
    assert!(w.completed);
    assert_eq!(
        w.fb.log,
        vec![FbEvent::Open, FbEvent::Connect, FbEvent::Disconnect, FbEvent::Close]
    );
}

#[test]
fn creation_skipped_when_snapshot_reported_virtual_output() {
    let mut w = session();
    let first = vec![out("PROJMON-1", false, false, None)];
    assert_eq!(w.step_detect(&first, false), DetectStep::Continue);
    assert!(w.have_virtual);

    let second = vec![out("DP-1", true, true, Some("1"))];
    assert_eq!(w.step_detect(&second, false), DetectStep::Matched);
    let cmds = match w.step_reconfigure(false) {
        ReconfigureStep::Commands(c) => c,
        ReconfigureStep::Cancelled => panic!("not cancelled"),
    };
    assert_eq!(cmds.len(), 2);
    assert_eq!(cmds[0], "output DP-1 mode 1920x1080 pos -19200 0 bg #000000 solid_color");
    assert_eq!(cmds[1], "output PROJMON-1 mode 1920x1080 pos -1920 0 bg #000000 solid_color");
}

#[test]
fn cancel_at_reconfiguration_completes_without_device_use() {
    let mut w = session();
    let snapshot = vec![out("DP-1", true, true, Some("1"))];
    assert_eq!(w.step_detect(&snapshot, false), DetectStep::Matched);
    match w.step_reconfigure(true) {
        ReconfigureStep::Cancelled => {}
        ReconfigureStep::Commands(_) => panic!("must cancel"),
    }
    assert_eq!(w.phase, Phase::Done);
    assert!(w.completed);
    assert!(w.fb.log.is_empty());
}

#[test]
fn cancel_at_provisioning_never_opens_device() {
    let mut w = session();
    let snapshot = vec![out("DP-1", true, true, Some("1"))];
    assert_eq!(w.step_detect(&snapshot, false), DetectStep::Matched);
    match w.step_reconfigure(false) {
        ReconfigureStep::Commands(_) => {}
        ReconfigureStep::Cancelled => panic!("not cancelled"),
    }
    assert_eq!(w.step_provision(true, true, 1920, 1080, 3), ProvisionStep::Cancelled);
    assert_eq!(w.phase, Phase::Done);
    assert!(w.completed);
    assert!(w.fb.log.is_empty());
}

#[test]
fn device_failure_is_fatal_and_completes() {
    let mut w = session();
    let snapshot = vec![out("DP-1", true, true, Some("1"))];
    assert_eq!(w.step_detect(&snapshot, false), DetectStep::Matched);
    match w.step_reconfigure(false) {
        ReconfigureStep::Commands(_) => {}
        ReconfigureStep::Cancelled => panic!("not cancelled"),
    }
    assert_eq!(w.step_provision(false, false, 1920, 1080, 3), ProvisionStep::DeviceFailure);
    assert_eq!(w.phase, Phase::Done);
    assert!(w.completed);
    assert!(w.fb.log.is_empty());
}

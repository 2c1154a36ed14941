use projwatch::topology::{candidates_contain, poll_once, snapshot_has_output, Output};

fn out(name: &str, active: bool, powered: bool, workspace: Option<&str>) -> Output {
    Output {
        name: name.to_string(),
        active,
        powered,
        workspace: workspace.map(|w| w.to_string()),
    }
}

fn candidates() -> Vec<String> {
    vec!["DP1".to_string(), "DP-1".to_string()]
}

#[test]
fn scenario_active_powered_assigned_matches() {
    let outputs = vec![out("DP-1", true, true, Some("1"))];
    let r = poll_once(&outputs, &candidates()).expect("should match");
    assert_eq!(r.name, "DP-1");
    assert_eq!(r.workspace, "1");
}

#[test]
fn scenario_unpowered_does_not_match() {
    let outputs = vec![out("DP-1", true, false, Some("1"))];
    assert!(poll_once(&outputs, &candidates()).is_none());
}

#[test]
fn scenario_empty_then_matching_snapshot() {
    let first: Vec<Output> = Vec::new();
    assert!(poll_once(&first, &candidates()).is_none());
    let second = vec![out("DP-1", true, true, Some("3"))];
    let r = poll_once(&second, &candidates()).expect("second snapshot should match");
    assert_eq!(r.name, "DP-1");
    assert_eq!(r.workspace, "3");
}

#[test]
fn inactive_output_does_not_match() {
    let outputs = vec![out("DP-1", false, true, Some("1"))];
    assert!(poll_once(&outputs, &candidates()).is_none());
}

#[test]
fn unmatched_name_does_not_match() {
    let outputs = vec![out("HDMI-1", true, true, Some("1"))];
    assert!(poll_once(&outputs, &candidates()).is_none());
}

#[test]
fn missing_workspace_does_not_match() {
    let outputs = vec![out("DP-1", true, true, None)];
    assert!(poll_once(&outputs, &candidates()).is_none());
}

#[test]
fn empty_workspace_does_not_match() {
    let outputs = vec![out("DP-1", true, true, Some(""))];
    assert!(poll_once(&outputs, &candidates()).is_none());
}

#[test]
fn last_matching_output_wins() {
    let outputs = vec![
        out("DP1", true, true, Some("1")),
        out("HDMI-1", true, true, Some("2")),
        out("DP-1", true, true, Some("3")),
    ];
    let r = poll_once(&outputs, &candidates()).expect("should match");
    assert_eq!(r.name, "DP-1");
    assert_eq!(r.workspace, "3");
}

#[test]
fn later_non_match_keeps_earlier_match() {
    let outputs = vec![
        out("DP-1", true, true, Some("1")),
        out("DP1", true, false, Some("2")),
    ];
    let r = poll_once(&outputs, &candidates()).expect("should match");
    assert_eq!(r.name, "DP-1");
    assert_eq!(r.workspace, "1");
}

#[test]
fn candidates_contain_finds_each_candidate() {
    let cs = candidates();
    assert!(candidates_contain(&"DP1".to_string(), &cs));
    assert!(candidates_contain(&"DP-1".to_string(), &cs));
    assert!(!candidates_contain(&"HDMI-1".to_string(), &cs));
    assert!(!candidates_contain(&"DP-1".to_string(), &Vec::new()));
}

#[test]
fn snapshot_presence_ignores_power_state() {
    let outputs = vec![out("PROJMON-1", false, false, None)];
    assert!(snapshot_has_output(&outputs, &"PROJMON-1".to_string()));
    assert!(!snapshot_has_output(&outputs, &"DP-1".to_string()));
    assert!(!snapshot_has_output(&Vec::new(), &"PROJMON-1".to_string()));
}

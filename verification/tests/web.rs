use keystroke_visualizer::model::Timestamp;
use keystroke_visualizer::web::{authorize, live_step, report_redirect_target, LiveRevision, UiMode};

#[test]
fn ui_modes_name_their_pages() {
    assert_eq!(UiMode::Report.label(), "Report");
    assert_eq!(UiMode::Live.label(), "Live mode");
    assert_eq!(UiMode::Report.route_prefix(), "reports");
    assert_eq!(UiMode::Live.route_prefix(), "live");
}

#[test]
fn only_the_exact_token_authorizes() {
    assert!(authorize("tok", Some("tok")));
    assert!(!authorize("tok", Some("tok2")));
    assert!(!authorize("tok", Some("")));
    assert!(!authorize("tok", None));
}

#[test]
fn root_redirects_to_latest_report() {
    assert_eq!(report_redirect_target("abc", "t1"), "/reports/abc?token=t1");
}

#[test]
fn live_view_pushes_changes_and_ends_after_running() {
    let rev = |seq: Option<u64>, secs: i64, status: &str| LiveRevision {
        flush_seq: seq,
        last_updated_at: Timestamp::from_parts(secs, 0).unwrap(),
        status: status.to_string(),
    };
    let first = live_step(&None, &rev(Some(1), 10, "running"));
    assert!(first.send && !first.finish);
    let same = live_step(&Some(rev(Some(1), 10, "running")), &rev(Some(1), 10, "running"));
    assert!(!same.send && !same.finish);
    let newer = live_step(&Some(rev(Some(1), 10, "running")), &rev(Some(2), 11, "running"));
    assert!(newer.send);
    let ended = live_step(&Some(rev(Some(2), 11, "running")), &rev(None, 12, "stopped"));
    assert!(ended.send && ended.finish);
}

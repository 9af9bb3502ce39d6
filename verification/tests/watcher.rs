use fieldmid::watcher::{incidents_changed, local_write_guard_message, read_step, ReadStep};

#[test]
fn local_write_guard_message_mentions_queue_depth() {
    let message = local_write_guard_message(3);
    assert!(message.contains("3 queued local write"));
    assert!(message.contains("strict read-only"));
}

use fieldmid::watcher::{
    check_no_local_writes, connectivity_icon, format_sync_status, incident_report, resolve_queue_depth,
    should_print_status, status_color, IncidentSummary, SyncStatusSnapshot, SyncWait, SyncWaitError,
    SyncWaitEvent, SyncWaitStep,
};

fn snapshot() -> SyncStatusSnapshot {
    SyncStatusSnapshot { download_error: None, upload_error: None, uploading: false, downloading: false, connected: false, connecting: false }
}

#[test]
fn guard_message_for_other_depths() {
    assert!(local_write_guard_message(1).starts_with("detected 1 queued local write(s) in sqlite;"));
    assert!(local_write_guard_message(-7).contains("-7 queued local write"));
    assert!(local_write_guard_message(i64::MAX).contains("9223372036854775807 queued local write"));
    assert!(local_write_guard_message(i64::MIN).contains("-9223372036854775808 queued local write"));
}

#[test]
fn guard_refuses_only_queued_writes() {
    assert!(check_no_local_writes(0).is_ok());
    assert!(check_no_local_writes(-1).is_ok());
    assert_eq!(check_no_local_writes(4).unwrap_err(), local_write_guard_message(4));
    assert_eq!(resolve_queue_depth(Some(3), Some(9)), 3);
    assert_eq!(resolve_queue_depth(None, Some(9)), 9);
    assert_eq!(resolve_queue_depth(None, None), 0);
}

#[test]
fn sync_status_lines_in_priority_order() {
    let mut s = snapshot();
    assert_eq!(format_sync_status(&s), "sync_state=idle");
    s.connecting = true;
    assert_eq!(format_sync_status(&s), "sync_state=connecting");
    s.connected = true;
    assert_eq!(format_sync_status(&s), "sync_state=connected");
    s.downloading = true;
    assert_eq!(format_sync_status(&s), "sync_state=downloading");
    s.uploading = true;
    assert_eq!(format_sync_status(&s), "sync_state=uploading");
    s.upload_error = Some("409".to_string());
    assert_eq!(format_sync_status(&s), "sync_state=upload_error error=409");
    s.download_error = Some("dns".to_string());
    assert_eq!(format_sync_status(&s), "sync_state=download_error error=dns");
}

#[test]
fn status_lines_are_printed_once() {
    assert!(should_print_status(&None, "a"));
    assert!(!should_print_status(&Some("a".to_string()), "a"));
    assert!(should_print_status(&Some("a".to_string()), "b"));
}

#[test]
fn first_sync_status_wait() {
    let mut w = SyncWait::new(10);
    assert!(matches!(w.step(SyncWaitEvent::Status(snapshot())), SyncWaitStep::Continue));
    let mut c = snapshot();
    c.connected = true;
    match w.step(SyncWaitEvent::Status(c)) {
        SyncWaitStep::Done(l) => assert_eq!(l, "sync_state=connected"),
        _ => panic!("connected ends the wait"),
    }
    let mut w = SyncWait::new(10);
    match w.step(SyncWaitEvent::DeadlineReached) {
        SyncWaitStep::Done(l) => assert_eq!(l, "sync_state=idle"),
        _ => panic!("deadline reports the latest line"),
    }
    match w.step(SyncWaitEvent::TimedOut) {
        SyncWaitStep::Failed(e) => {
            assert_eq!(e, SyncWaitError::TimedOut(10));
            assert_eq!(e.message(), "timed out waiting for sync status after 10s");
        }
        _ => panic!("timeout fails"),
    }
    match w.step(SyncWaitEvent::StreamEnded) {
        SyncWaitStep::Failed(e) => assert_eq!(e.message(), "sync status stream ended unexpectedly"),
        _ => panic!("closed stream fails"),
    }
}

#[test]
fn incident_rows_and_report() {
    let a = IncidentSummary::from_row("i1".to_string(), "Fall".to_string(), None, Some("open".to_string()), Some("2024-05-01".to_string()));
    assert_eq!(a.severity, "UNKNOWN");
    assert_eq!(a.status, "open");
    let b = IncidentSummary::from_row("i2".to_string(), "Fire".to_string(), Some("CRITICAL".to_string()), None, None);
    assert_eq!(b.status, "UNKNOWN");
    let report = incident_report(&vec![a, b]);
    assert_eq!(report, vec![
        "incidents=2".to_string(),
        "2024-05-01 | UNKNOWN | open | i1 | Fall".to_string(),
        "- | CRITICAL | UNKNOWN | i2 | Fire".to_string(),
    ]);
    assert_eq!(incident_report(&Vec::new()), vec!["incidents=0".to_string()]);
}

#[test]
fn listing_colours() {
    assert_eq!(status_color("open"), "\x1b[31m");
    assert_eq!(status_color("in_progress"), "\x1b[33m");
    assert_eq!(status_color("resolved"), "\x1b[32m");
    assert_eq!(status_color("closed"), "\x1b[2m");
    assert_eq!(connectivity_icon("connected"), "\x1b[32m●\x1b[0m");
    assert_eq!(connectivity_icon("sync_state=connected"), "\x1b[31m●\x1b[0m");
}

fn summary(id: &str, status: &str) -> IncidentSummary {
    IncidentSummary::from_row(id.to_string(), "Gas leak".to_string(), Some("CRITICAL".to_string()), Some(status.to_string()), None)
}

#[test]
fn snapshot_change_detection() {
    let a = vec![summary("1", "open"), summary("2", "open")];
    assert!(incidents_changed(&None, &a));
    assert!(incidents_changed(&None, &vec![]));
    assert!(!incidents_changed(&Some(a.clone()), &a));
    assert!(incidents_changed(&Some(a.clone()), &vec![summary("1", "open")]));
    assert!(incidents_changed(&Some(a.clone()), &vec![summary("1", "open"), summary("2", "resolved")]));
    let mut b = a.clone();
    b[0].created_at = Some("2024-01-01".to_string());
    assert!(incidents_changed(&Some(a), &b));
    assert!(!incidents_changed(&Some(vec![]), &vec![]));
}

#[test]
fn reads_sync_first_only_when_local_is_empty() {
    assert_eq!(read_step(0, false), ReadStep::SyncFirst);
    assert_eq!(read_step(0, true), ReadStep::ShowLocal);
    assert_eq!(read_step(3, false), ReadStep::ShowLocal);
    assert_eq!(read_step(3, true), ReadStep::ShowLocal);
}

use fieldmid::network::WifiTelemetry;
use fieldmid::tui::{
    compact_sync_state, config_rows, connectivity_level, connectivity_level_from_percent, connectivity_tone,
    errors_label, footer_status, format_duration, host_line, incident_feed, incident_lines, link_text, role_tone,
    short_id, shorten_middle, should_quit, signal_bars, signal_level, stream_label, sync_state_tone,
    system_line, update_age_text, uptime_text, DashboardAction, DashboardEvent, DashboardState,
    FeedItem, KeyInput, KeyPress, RoleTone, Tone, TuiConfig,
};
use fieldmid::watcher::{IncidentSummary, SyncStatusSnapshot};

fn idle() -> SyncStatusSnapshot {
    SyncStatusSnapshot { download_error: None, upload_error: None, uploading: false, downloading: false, connected: false, connecting: false }
}

fn incident(id: &str) -> IncidentSummary {
    IncidentSummary { id: id.to_string(), title: "Gas leak".to_string(), severity: "CRITICAL".to_string(), status: "open".to_string(), created_at: None }
}

fn config() -> TuiConfig {
    TuiConfig {
        device_id: "rig".to_string(),
        database_path: "db".to_string(),
        host_name: "edge01".to_string(),
        hardware_model: Some("NUC".to_string()),
        os: "linux".to_string(),
        arch: "aarch64".to_string(),
        stream_subscription_enabled: false,
        role: None,
        org_name: None,
        email: None,
    }
}

#[test]
fn compact_states() {
    assert_eq!(compact_sync_state("sync_state=download_error error=boom"), "download_error");
    assert_eq!(compact_sync_state("sync_state=upload_error error=x"), "upload_error");
    assert_eq!(compact_sync_state("sync_state=uploading"), "uploading");
    assert_eq!(compact_sync_state("sync_state=downloading"), "downloading");
    assert_eq!(compact_sync_state("sync_state=connected"), "connected");
    assert_eq!(compact_sync_state("sync_state=connecting"), "connecting");
    assert_eq!(compact_sync_state("sync_state=idle"), "idle");
}

#[test]
fn tones_and_levels() {
    assert_eq!(sync_state_tone("download_error"), Tone::Error);
    assert_eq!(sync_state_tone("connecting"), Tone::Warning);
    assert_eq!(sync_state_tone("connected"), Tone::Success);
    assert_eq!(sync_state_tone("idle"), Tone::Muted);
    assert_eq!(connectivity_level("sync_state=upload_error error=x"), 0);
    assert_eq!(connectivity_level("sync_state=connecting"), 1);
    assert_eq!(connectivity_level("sync_state=idle"), 2);
    assert_eq!(connectivity_level("sync_state=downloading"), 3);
    assert_eq!(connectivity_level("sync_state=connected"), 4);
    assert_eq!(connectivity_tone(0), Tone::Error);
    assert_eq!(connectivity_tone(2), Tone::Warning);
    assert_eq!(connectivity_tone(3), Tone::Success);
    assert_eq!(role_tone("admin"), RoleTone::Brand);
    assert_eq!(role_tone("supervisor"), RoleTone::Warning);
    assert_eq!(role_tone("field_worker"), RoleTone::Muted);
}

#[test]
fn percent_levels_are_monotone() {
    assert_eq!(connectivity_level_from_percent(0), 0);
    assert_eq!(connectivity_level_from_percent(10), 0);
    assert_eq!(connectivity_level_from_percent(11), 1);
    assert_eq!(connectivity_level_from_percent(35), 1);
    assert_eq!(connectivity_level_from_percent(36), 2);
    assert_eq!(connectivity_level_from_percent(60), 2);
    assert_eq!(connectivity_level_from_percent(61), 3);
    assert_eq!(connectivity_level_from_percent(80), 3);
    assert_eq!(connectivity_level_from_percent(81), 4);
    assert_eq!(connectivity_level_from_percent(255), 4);
    let mut last = 0;
    for p in 0..=255u8 {
        let l = connectivity_level_from_percent(p);
        assert!(l >= last && l <= 4);
        last = l;
    }
}

#[test]
fn signal_meter() {
    assert_eq!(signal_bars(0), "▯ ▯ ▯ ▯");
    assert_eq!(signal_bars(2), "▮ ▮ ▯ ▯");
    assert_eq!(signal_bars(4), "▮ ▮ ▮ ▮");
    assert_eq!(signal_bars(9), "▮ ▮ ▮ ▮");
}

#[test]
fn short_ids_and_durations() {
    assert_eq!(short_id("0123456789abcdef"), "01234567");
    assert_eq!(short_id("abc"), "abc");
    assert_eq!(short_id("ééééééééé"), "éééééééé");
    assert_eq!(format_duration(0), "0s");
    assert_eq!(format_duration(59), "59s");
    assert_eq!(format_duration(61), "1m 1s");
    assert_eq!(format_duration(3600), "1h 0m 0s");
    assert_eq!(format_duration(3725), "1h 2m 5s");
}

#[test]
fn shorten_in_the_middle() {
    assert_eq!(shorten_middle("short", 34), "short");
    assert_eq!(shorten_middle("/var/lib/fieldmid/edge/databases/fieldmid-edge.db", 34), "/var/lib/fieldm...ieldmid-edge.db");
    assert!(shorten_middle("/var/lib/fieldmid/edge/databases/fieldmid-edge.db", 34).chars().count() <= 34);
    assert_eq!(shorten_middle("abcdef", 2), "...");
    assert_eq!(shorten_middle("abcdef", 4), "...");
    assert_eq!(shorten_middle("abcdef", 5), "a...f");
}

#[test]
fn quit_keys() {
    let k = |key, is_press, control| KeyInput { key, is_press, control };
    assert!(should_quit(k(KeyPress::Char('q'), true, false)));
    assert!(should_quit(k(KeyPress::Esc, true, false)));
    assert!(should_quit(k(KeyPress::Char('c'), true, true)));
    assert!(!should_quit(k(KeyPress::Char('c'), true, false)));
    assert!(!should_quit(k(KeyPress::Char('q'), false, false)));
    assert!(!should_quit(k(KeyPress::Other, true, true)));
}

#[test]
fn dashboard_records_status_and_errors() {
    let mut d = DashboardState::new(None, 1000);
    assert_eq!(d.sync_state, "sync_state=idle");
    assert!(d.last_update_at_ms.is_none());
    let mut st = idle();
    st.connected = true;
    assert_eq!(d.step(DashboardEvent::Status(st), 2000), DashboardAction::Continue);
    assert_eq!(d.sync_state, "sync_state=connected");
    assert_eq!(d.last_update_at_ms, Some(2000));
    assert!(d.last_error.is_none());
    let mut st = idle();
    st.download_error = Some("timeout".to_string());
    d.step(DashboardEvent::Status(st), 3000);
    assert_eq!(d.last_error.as_deref(), Some("sync_state=download_error error=timeout"));
    d.step(DashboardEvent::Status(idle()), 4000);
    assert_eq!(d.sync_state, "sync_state=idle");
    assert_eq!(d.last_error.as_deref(), Some("sync_state=download_error error=timeout"));
}

#[test]
fn dashboard_incident_events() {
    let mut d = DashboardState::new(None, 0);
    d.step(DashboardEvent::Incidents(vec![incident("a"), incident("b")]), 10);
    assert_eq!(d.incidents.len(), 2);
    d.step(DashboardEvent::IncidentsFailed("db locked".to_string()), 20);
    assert_eq!(d.last_error.as_deref(), Some("critical incident watcher failed: db locked"));
    assert_eq!(d.last_update_at_ms, Some(20));
}

#[test]
fn dashboard_stops_on_local_writes_and_quits() {
    let mut d = DashboardState::new(None, 0);
    let wifi = Some(WifiTelemetry { interface: "wlan0".to_string(), quality_percent: 50, signal_dbm: Some(-60) });
    assert_eq!(d.step(DashboardEvent::QueueTick { wifi: wifi.clone(), queue_depth: Some(0) }, 1), DashboardAction::Continue);
    assert_eq!(d.wifi.as_ref().map(|w| w.quality_percent), Some(50));
    assert_eq!(d.step(DashboardEvent::QueueTick { wifi: None, queue_depth: None }, 2), DashboardAction::Continue);
    let a = d.step(DashboardEvent::QueueTick { wifi: None, queue_depth: Some(2) }, 3);
    assert_eq!(a, DashboardAction::StopForLocalWrites(2));
    assert!(a.error_message().unwrap().contains("2 queued local write"));
    assert_eq!(DashboardAction::Quit.error_message(), None);
    assert_eq!(d.step(DashboardEvent::DrawTick { quit_requested: false }, 4), DashboardAction::Continue);
    assert_eq!(d.step(DashboardEvent::DrawTick { quit_requested: true }, 5), DashboardAction::Quit);
    assert_eq!(d.step(DashboardEvent::Interrupt, 6), DashboardAction::Quit);
}

#[test]
fn panel_texts() {
    let wifi = Some(WifiTelemetry { interface: "wlan0".to_string(), quality_percent: 72, signal_dbm: Some(-48) });
    assert_eq!(link_text(&wifi), "wlan0 72% (-48 dBm)");
    let wifi2 = Some(WifiTelemetry { interface: "wlan1".to_string(), quality_percent: 5, signal_dbm: None });
    assert_eq!(link_text(&wifi2), "wlan1 5%");
    assert_eq!(link_text(&None), "no wifi telemetry");
    let mut d = DashboardState::new(wifi, 0);
    assert_eq!(signal_level(&d), 3);
    d.wifi = None;
    assert_eq!(signal_level(&d), 2);
    assert_eq!(errors_label(&d), "none");
    assert_eq!(footer_status(&d), "No watcher errors");
    d.last_error = Some("boom".to_string());
    assert_eq!(errors_label(&d), "present");
    assert_eq!(footer_status(&d), "Last error: boom");
    let c = config();
    assert_eq!(host_line(&c), "edge01 (NUC)");
    assert_eq!(system_line(&c), "linux / aarch64");
    assert_eq!(stream_label(&c), "default auto-subscribe");
    let (title, meta) = incident_lines(&incident("0123456789"));
    assert_eq!(title, "Gas leak [open]");
    assert_eq!(meta, "-  |  01234567");
}

#[test]
fn footer_times() {
    let mut d = DashboardState::new(None, 1_000);
    assert_eq!(uptime_text(&d, 3_726_000), "1h 2m 5s");
    assert_eq!(update_age_text(&d, 5_000), "n/a");
    d.mark_update(2_000);
    assert_eq!(update_age_text(&d, 64_500), "1m 2s ago");
    assert_eq!(uptime_text(&d, 500), "0s");
}

fn snapshots() -> Vec<(SyncStatusSnapshot, &'static str, u8)> {
    let mut out = Vec::new();
    let mut s = idle();
    out.push((s.clone(), "idle", 2));
    s.connecting = true;
    out.push((s.clone(), "connecting", 1));
    s.connected = true;
    out.push((s.clone(), "connected", 4));
    s.downloading = true;
    out.push((s.clone(), "downloading", 3));
    s.uploading = true;
    out.push((s.clone(), "uploading", 3));
    s.upload_error = Some("conflict while uploading".to_string());
    out.push((s.clone(), "upload_error", 0));
    s.download_error = Some("upload_error seen".to_string());
    out.push((s.clone(), "download_error", 0));
    out
}

#[test]
fn dashboard_state_word_and_meter_follow_the_status() {
    for (s, word, level) in snapshots() {
        let line = fieldmid::watcher::format_sync_status(&s);
        assert_eq!(compact_sync_state(&line), word);
        assert_eq!(connectivity_level(&line), level);
    }
}

#[test]
fn upload_error_mentioning_download_error_is_misread() {
    let mut s = idle();
    s.upload_error = Some("previous download_error".to_string());
    let line = fieldmid::watcher::format_sync_status(&s);
    assert_eq!(compact_sync_state(&line), "download_error");
}

#[test]
fn config_rows_in_order() {
    let rows = config_rows(&config());
    let expected: Vec<(&str, &str)> = vec![
        ("Device  ", "rig"),
        ("Host    ", "edge01 (NUC)"),
        ("System  ", "linux / aarch64"),
        ("DB      ", "db"),
        ("Mode    ", "read-only"),
        ("Stream  ", "default auto-subscribe"),
        ("", ""),
        ("", "Controls: q / Esc / Ctrl+C"),
    ];
    let got: Vec<(&str, &str)> = rows.iter().map(|(a, b)| (a.as_str(), b.as_str())).collect();
    assert_eq!(got, expected);
}

#[test]
fn config_rows_with_user_role_org() {
    let mut c = config();
    c.email = Some("ops@example.com".to_string());
    c.role = Some("admin".to_string());
    c.org_name = Some("Acme".to_string());
    c.stream_subscription_enabled = true;
    c.database_path = "/var/lib/fieldmid/some/really/long/path/edge-database.db".to_string();
    let rows = config_rows(&c);
    assert_eq!(rows.len(), 11);
    assert_eq!(rows[0], ("User    ".to_string(), "ops@example.com".to_string()));
    assert_eq!(rows[1], ("Role    ".to_string(), "admin".to_string()));
    assert_eq!(rows[2], ("Org     ".to_string(), "Acme".to_string()));
    assert_eq!(rows[6].1, shorten_middle(&c.database_path, 34));
    assert_eq!(rows[8], ("Stream  ".to_string(), "configured".to_string()));
}

#[test]
fn incident_feed_placeholder_when_empty() {
    let feed = incident_feed(&vec![]);
    assert_eq!(feed.len(), 1);
    assert!(matches!(&feed[0], FeedItem::Placeholder(p) if p == "No critical incidents in local replica yet."));
}

#[test]
fn incident_feed_one_item_per_incident() {
    let mut second = incident("abcdefghijk");
    second.created_at = Some("2024-05-01".to_string());
    second.status = "resolved".to_string();
    let feed = incident_feed(&vec![incident("0123456789"), second]);
    assert_eq!(feed.len(), 2);
    assert!(matches!(&feed[0], FeedItem::Incident { title, meta } if title == "Gas leak [open]" && meta == "-  |  01234567"));
    assert!(matches!(&feed[1], FeedItem::Incident { title, meta } if title == "Gas leak [resolved]" && meta == "2024-05-01  |  abcdefgh"));
}

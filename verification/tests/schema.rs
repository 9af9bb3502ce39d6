use fieldmid::schema::{app_schema, incidents_table, sync_logs_table, ColumnKind};

#[test]
fn schema_has_seven_tables_in_order() {
    let names: Vec<String> = app_schema().into_iter().map(|t| t.name).collect();
    assert_eq!(names, vec!["sites", "incidents", "escalations", "sync_logs", "user_profiles", "org_join_requests", "notifications"]);
}

#[test]
fn only_sync_logs_is_local() {
    let local: Vec<String> = app_schema().into_iter().filter(|t| t.local_only).map(|t| t.name).collect();
    assert_eq!(local, vec!["sync_logs"]);
    assert!(sync_logs_table().local_only);
}

#[test]
fn incidents_columns() {
    let t = incidents_table();
    let cols: Vec<(String, ColumnKind)> = t.columns.into_iter().map(|c| (c.name, c.kind)).collect();
    assert_eq!(cols.len(), 9);
    assert_eq!(cols[5], ("ai_severity".to_string(), ColumnKind::Text));
    assert!(cols.iter().all(|(_, k)| *k == ColumnKind::Text));
}

//! The local database schema: the tables the sync engine replicates.

use vstd::prelude::*;
use crate::text::owned;

verus! {

/// The storage class of a column.
#[derive(Clone, Copy, Debug, PartialEq, Eq, Structural)]
pub enum ColumnKind {
    Text,
    Integer,
}

/// A column: its name and storage class.
#[derive(Clone, Debug)]
pub struct ColumnSpec {
    pub name: String,
    pub kind: ColumnKind,
}

/// A table: its name, its columns in order, and whether it stays on this device.
#[derive(Clone, Debug)]
pub struct TableSpec {
    pub name: String,
    pub columns: Vec<ColumnSpec>,
    pub local_only: bool,
}

/// The columns of a table as (name, kind) pairs.
pub open spec fn columns_view(cs: Seq<ColumnSpec>) -> Seq<(Seq<char>, ColumnKind)> {
    cs.map_values(|c: ColumnSpec| (c.name@, c.kind))
}

fn column(name: &str, kind: ColumnKind) -> (res: ColumnSpec)
    ensures
        res.name@ == name@,
        res.kind == kind,
{
    ColumnSpec { name: owned(name), kind }
}

/// The columns of `sites`.
pub open spec fn spec_sites_columns() -> Seq<(Seq<char>, ColumnKind)> {
    seq![("org_id"@, ColumnKind::Text), ("name"@, ColumnKind::Text), ("location"@, ColumnKind::Text), ("site_type"@, ColumnKind::Text), ("lat"@, ColumnKind::Text), ("lng"@, ColumnKind::Text), ("active"@, ColumnKind::Integer), ("created_at"@, ColumnKind::Text)]
}

/// The monitored field sites.
pub fn sites_table() -> (res: TableSpec)
    ensures
        res.name@ == "sites"@,
        columns_view(res.columns@) == spec_sites_columns(),
        res.local_only == false,
{
    let mut columns: Vec<ColumnSpec> = Vec::new();

    columns.push(column("org_id", ColumnKind::Text));
    columns.push(column("name", ColumnKind::Text));
    columns.push(column("location", ColumnKind::Text));
    columns.push(column("site_type", ColumnKind::Text));
    columns.push(column("lat", ColumnKind::Text));
    columns.push(column("lng", ColumnKind::Text));
    columns.push(column("active", ColumnKind::Integer));
    columns.push(column("created_at", ColumnKind::Text));
    assert(columns_view(columns@) =~= spec_sites_columns());
    TableSpec { name: owned("sites"), columns, local_only: false }
}

/// The columns of `incidents`.
pub open spec fn spec_incidents_columns() -> Seq<(Seq<char>, ColumnKind)> {
    seq![("worker_id"@, ColumnKind::Text), ("site_id"@, ColumnKind::Text), ("title"@, ColumnKind::Text), ("description"@, ColumnKind::Text), ("severity"@, ColumnKind::Text), ("ai_severity"@, ColumnKind::Text), ("status"@, ColumnKind::Text), ("created_at"@, ColumnKind::Text), ("synced_at"@, ColumnKind::Text)]
}

/// Safety incidents, with reported and AI-assessed severity.
pub fn incidents_table() -> (res: TableSpec)
    ensures
        res.name@ == "incidents"@,
        columns_view(res.columns@) == spec_incidents_columns(),
        res.local_only == false,
{
    let mut columns: Vec<ColumnSpec> = Vec::new();

    columns.push(column("worker_id", ColumnKind::Text));
    columns.push(column("site_id", ColumnKind::Text));
    columns.push(column("title", ColumnKind::Text));
    columns.push(column("description", ColumnKind::Text));
    columns.push(column("severity", ColumnKind::Text));
    columns.push(column("ai_severity", ColumnKind::Text));
    columns.push(column("status", ColumnKind::Text));
    columns.push(column("created_at", ColumnKind::Text));
    columns.push(column("synced_at", ColumnKind::Text));
    assert(columns_view(columns@) =~= spec_incidents_columns());
    TableSpec { name: owned("incidents"), columns, local_only: false }
}

/// The columns of `escalations`.
pub open spec fn spec_escalations_columns() -> Seq<(Seq<char>, ColumnKind)> {
    seq![("incident_id"@, ColumnKind::Text), ("supervisor_id"@, ColumnKind::Text), ("escalation_level"@, ColumnKind::Integer), ("message"@, ColumnKind::Text), ("channel"@, ColumnKind::Text), ("acknowledged"@, ColumnKind::Integer), ("acknowledged_at"@, ColumnKind::Text), ("auto_escalate_at"@, ColumnKind::Text), ("escalated_at"@, ColumnKind::Text), ("created_at"@, ColumnKind::Text), ("updated_at"@, ColumnKind::Text)]
}

/// Escalations of incidents to supervisors.
pub fn escalations_table() -> (res: TableSpec)
    ensures
        res.name@ == "escalations"@,
        columns_view(res.columns@) == spec_escalations_columns(),
        res.local_only == false,
{
    let mut columns: Vec<ColumnSpec> = Vec::new();

    columns.push(column("incident_id", ColumnKind::Text));
    columns.push(column("supervisor_id", ColumnKind::Text));
    columns.push(column("escalation_level", ColumnKind::Integer));
    columns.push(column("message", ColumnKind::Text));
    columns.push(column("channel", ColumnKind::Text));
    columns.push(column("acknowledged", ColumnKind::Integer));
    columns.push(column("acknowledged_at", ColumnKind::Text));
    columns.push(column("auto_escalate_at", ColumnKind::Text));
    columns.push(column("escalated_at", ColumnKind::Text));
    columns.push(column("created_at", ColumnKind::Text));
    columns.push(column("updated_at", ColumnKind::Text));
    assert(columns_view(columns@) =~= spec_escalations_columns());
    TableSpec { name: owned("escalations"), columns, local_only: false }
}

/// The columns of `sync_logs`.
pub open spec fn spec_sync_logs_columns() -> Seq<(Seq<char>, ColumnKind)> {
    seq![("worker_id"@, ColumnKind::Text), ("last_synced_at"@, ColumnKind::Text), ("pending_uploads"@, ColumnKind::Integer), ("pending_downloads"@, ColumnKind::Integer), ("sync_status"@, ColumnKind::Text), ("updated_at"@, ColumnKind::Text)]
}

/// Sync bookkeeping of this device; kept locally and never synced.
pub fn sync_logs_table() -> (res: TableSpec)
    ensures
        res.name@ == "sync_logs"@,
        columns_view(res.columns@) == spec_sync_logs_columns(),
        res.local_only == true,
{
    let mut columns: Vec<ColumnSpec> = Vec::new();

    columns.push(column("worker_id", ColumnKind::Text));
    columns.push(column("last_synced_at", ColumnKind::Text));
    columns.push(column("pending_uploads", ColumnKind::Integer));
    columns.push(column("pending_downloads", ColumnKind::Integer));
    columns.push(column("sync_status", ColumnKind::Text));
    columns.push(column("updated_at", ColumnKind::Text));
    assert(columns_view(columns@) =~= spec_sync_logs_columns());
    TableSpec { name: owned("sync_logs"), columns, local_only: true }
}

/// The columns of `user_profiles`.
pub open spec fn spec_user_profiles_columns() -> Seq<(Seq<char>, ColumnKind)> {
    seq![("email"@, ColumnKind::Text), ("full_name"@, ColumnKind::Text), ("role"@, ColumnKind::Text), ("org_id"@, ColumnKind::Text), ("site_id"@, ColumnKind::Text), ("membership_status"@, ColumnKind::Text), ("created_at"@, ColumnKind::Text)]
}

/// User roles, organization membership and status.
pub fn user_profiles_table() -> (res: TableSpec)
    ensures
        res.name@ == "user_profiles"@,
        columns_view(res.columns@) == spec_user_profiles_columns(),
        res.local_only == false,
{
    let mut columns: Vec<ColumnSpec> = Vec::new();

    columns.push(column("email", ColumnKind::Text));
    columns.push(column("full_name", ColumnKind::Text));
    columns.push(column("role", ColumnKind::Text));
    columns.push(column("org_id", ColumnKind::Text));
    columns.push(column("site_id", ColumnKind::Text));
    columns.push(column("membership_status", ColumnKind::Text));
    columns.push(column("created_at", ColumnKind::Text));
    assert(columns_view(columns@) =~= spec_user_profiles_columns());
    TableSpec { name: owned("user_profiles"), columns, local_only: false }
}

/// The columns of `org_join_requests`.
pub open spec fn spec_org_join_requests_columns() -> Seq<(Seq<char>, ColumnKind)> {
    seq![("org_id"@, ColumnKind::Text), ("requester_user_id"@, ColumnKind::Text), ("requested_role"@, ColumnKind::Text), ("status"@, ColumnKind::Text), ("message"@, ColumnKind::Text), ("decided_by"@, ColumnKind::Text), ("decided_at"@, ColumnKind::Text), ("created_at"@, ColumnKind::Text)]
}

/// Requests to join an organization, with their decisions.
pub fn org_join_requests_table() -> (res: TableSpec)
    ensures
        res.name@ == "org_join_requests"@,
        columns_view(res.columns@) == spec_org_join_requests_columns(),
        res.local_only == false,
{
    let mut columns: Vec<ColumnSpec> = Vec::new();

    columns.push(column("org_id", ColumnKind::Text));
    columns.push(column("requester_user_id", ColumnKind::Text));
    columns.push(column("requested_role", ColumnKind::Text));
    columns.push(column("status", ColumnKind::Text));
    columns.push(column("message", ColumnKind::Text));
    columns.push(column("decided_by", ColumnKind::Text));
    columns.push(column("decided_at", ColumnKind::Text));
    columns.push(column("created_at", ColumnKind::Text));
    assert(columns_view(columns@) =~= spec_org_join_requests_columns());
    TableSpec { name: owned("org_join_requests"), columns, local_only: false }
}

/// The columns of `notifications`.
pub open spec fn spec_notifications_columns() -> Seq<(Seq<char>, ColumnKind)> {
    seq![("user_id"@, ColumnKind::Text), ("title"@, ColumnKind::Text), ("body"@, ColumnKind::Text), ("notification_type"@, ColumnKind::Text), ("read"@, ColumnKind::Integer), ("created_at"@, ColumnKind::Text)]
}

/// In-app alerts and push notification payloads.
pub fn notifications_table() -> (res: TableSpec)
    ensures
        res.name@ == "notifications"@,
        columns_view(res.columns@) == spec_notifications_columns(),
        res.local_only == false,
{
    let mut columns: Vec<ColumnSpec> = Vec::new();

    columns.push(column("user_id", ColumnKind::Text));
    columns.push(column("title", ColumnKind::Text));
    columns.push(column("body", ColumnKind::Text));
    columns.push(column("notification_type", ColumnKind::Text));
    columns.push(column("read", ColumnKind::Integer));
    columns.push(column("created_at", ColumnKind::Text));
    assert(columns_view(columns@) =~= spec_notifications_columns());
    TableSpec { name: owned("notifications"), columns, local_only: false }
}

/// The names of the replicated tables, in schema order.
pub open spec fn spec_table_names() -> Seq<Seq<char>> {
    seq!["sites"@, "incidents"@, "escalations"@, "sync_logs"@, "user_profiles"@, "org_join_requests"@, "notifications"@]
}

/// The schema of the local replica: seven tables, of which only the sync log
/// stays on this device.
pub fn app_schema() -> (res: Vec<TableSpec>)
    ensures
        res@.map_values(|t: TableSpec| t.name@) == spec_table_names(),
        forall|i: int| 0 <= i < res.len() ==> (#[trigger] res@[i]).local_only == (i == 3),
        columns_view(res@[0].columns@) == spec_sites_columns(),
        columns_view(res@[1].columns@) == spec_incidents_columns(),
        columns_view(res@[2].columns@) == spec_escalations_columns(),
        columns_view(res@[3].columns@) == spec_sync_logs_columns(),
        columns_view(res@[4].columns@) == spec_user_profiles_columns(),
        columns_view(res@[5].columns@) == spec_org_join_requests_columns(),
        columns_view(res@[6].columns@) == spec_notifications_columns(),
{
    let mut tables: Vec<TableSpec> = Vec::new();

    tables.push(sites_table());
    tables.push(incidents_table());
    tables.push(escalations_table());
    tables.push(sync_logs_table());
    tables.push(user_profiles_table());
    tables.push(org_join_requests_table());
    tables.push(notifications_table());
    assert(tables@.map_values(|t: TableSpec| t.name@) =~= spec_table_names());
    tables
}

/// No two replicated tables share a name.
pub proof fn lemma_table_names_distinct()
    ensures
        spec_table_names().no_duplicates(),
{
    reveal_strlit("sites");
    reveal_strlit("incidents");
    reveal_strlit("escalations");
    reveal_strlit("sync_logs");
    reveal_strlit("user_profiles");
    reveal_strlit("org_join_requests");
    reveal_strlit("notifications");
    let n = spec_table_names();
    assert forall|i: int, j: int| 0 <= i < n.len() && 0 <= j < n.len() && i != j implies n[i] != n[j] by {
        if n[i].len() == n[j].len() {
            assert(n[i][0] != n[j][0]);
        }
    }
}

/// The replicated tables have exactly the columns of the backend tables, in
/// the backend's order and storage classes; in particular an escalation's
/// acknowledgement (a flag and its time) is replicated.
pub proof fn lemma_schema_matches_backend()
    ensures
        spec_sites_columns() == seq![("org_id"@, ColumnKind::Text), ("name"@, ColumnKind::Text), ("location"@, ColumnKind::Text), ("site_type"@, ColumnKind::Text), ("lat"@, ColumnKind::Text), ("lng"@, ColumnKind::Text), ("active"@, ColumnKind::Integer), ("created_at"@, ColumnKind::Text)],
        spec_incidents_columns() == seq![("worker_id"@, ColumnKind::Text), ("site_id"@, ColumnKind::Text), ("title"@, ColumnKind::Text), ("description"@, ColumnKind::Text), ("severity"@, ColumnKind::Text), ("ai_severity"@, ColumnKind::Text), ("status"@, ColumnKind::Text), ("created_at"@, ColumnKind::Text), ("synced_at"@, ColumnKind::Text)],
        spec_escalations_columns() == seq![("incident_id"@, ColumnKind::Text), ("supervisor_id"@, ColumnKind::Text), ("escalation_level"@, ColumnKind::Integer), ("message"@, ColumnKind::Text), ("channel"@, ColumnKind::Text), ("acknowledged"@, ColumnKind::Integer), ("acknowledged_at"@, ColumnKind::Text), ("auto_escalate_at"@, ColumnKind::Text), ("escalated_at"@, ColumnKind::Text), ("created_at"@, ColumnKind::Text), ("updated_at"@, ColumnKind::Text)],
        spec_sync_logs_columns() == seq![("worker_id"@, ColumnKind::Text), ("last_synced_at"@, ColumnKind::Text), ("pending_uploads"@, ColumnKind::Integer), ("pending_downloads"@, ColumnKind::Integer), ("sync_status"@, ColumnKind::Text), ("updated_at"@, ColumnKind::Text)],
        spec_user_profiles_columns() == seq![("email"@, ColumnKind::Text), ("full_name"@, ColumnKind::Text), ("role"@, ColumnKind::Text), ("org_id"@, ColumnKind::Text), ("site_id"@, ColumnKind::Text), ("membership_status"@, ColumnKind::Text), ("created_at"@, ColumnKind::Text)],
        spec_org_join_requests_columns() == seq![("org_id"@, ColumnKind::Text), ("requester_user_id"@, ColumnKind::Text), ("requested_role"@, ColumnKind::Text), ("status"@, ColumnKind::Text), ("message"@, ColumnKind::Text), ("decided_by"@, ColumnKind::Text), ("decided_at"@, ColumnKind::Text), ("created_at"@, ColumnKind::Text)],
        spec_notifications_columns() == seq![("user_id"@, ColumnKind::Text), ("title"@, ColumnKind::Text), ("body"@, ColumnKind::Text), ("notification_type"@, ColumnKind::Text), ("read"@, ColumnKind::Integer), ("created_at"@, ColumnKind::Text)],
        spec_escalations_columns().contains(("acknowledged"@, ColumnKind::Integer)),
        spec_escalations_columns().contains(("acknowledged_at"@, ColumnKind::Text)),
{
    assert(spec_escalations_columns()[5] == ("acknowledged"@, ColumnKind::Integer));
    assert(spec_escalations_columns()[6] == ("acknowledged_at"@, ColumnKind::Text));
}

} // verus!

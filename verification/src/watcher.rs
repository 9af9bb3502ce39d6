//! Incident snapshots, sync-status lines and the local write guard.

use vstd::prelude::*;
use crate::text::{cat, cat3, i64_decimal, occurs_at, opt_view, owned, seq_contains, spec_decimal, spec_signed_decimal, str_eq, u64_decimal};

verus! {

/// Number of incidents the headless watcher shows.
pub const DEFAULT_INCIDENT_LIMIT: i64 = 20;

/// One row of the incident feed.
#[derive(Clone, Debug, PartialEq, Eq)]
pub struct IncidentSummary {
    pub id: String,
    pub title: String,
    pub severity: String,
    pub status: String,
    pub created_at: Option<String>,
}

/// `value` or, when it is absent, `UNKNOWN`.
pub open spec fn or_unknown(value: Option<Seq<char>>) -> Seq<char> {
    match value {
        Some(v) => v,
        None => "UNKNOWN"@,
    }
}

impl IncidentSummary {
    /// Builds a summary from the columns of an incident row; a missing
    /// severity or status reads `UNKNOWN`.
    pub fn from_row(
        id: String,
        title: String,
        severity: Option<String>,
        status: Option<String>,
        created_at: Option<String>,
    ) -> (res: IncidentSummary)
        ensures
            res.id@ == id@,
            res.title@ == title@,
            res.severity@ == or_unknown(opt_view(severity)),
            res.status@ == or_unknown(opt_view(status)),
            opt_view(res.created_at) == opt_view(created_at),
    {
        let severity = match severity {
            Some(s) => s,
            None => owned("UNKNOWN"),
        };
        let status = match status {
            Some(s) => s,
            None => owned("UNKNOWN"),
        };
        IncidentSummary { id, title, severity, status, created_at }
    }
}

/// What the sync engine reports at one moment, as plain values: the two
/// error messages, if any, and the four activity flags.
#[derive(Clone, Debug)]
pub struct SyncStatusSnapshot {
    pub download_error: Option<String>,
    pub upload_error: Option<String>,
    pub uploading: bool,
    pub downloading: bool,
    pub connected: bool,
    pub connecting: bool,
}

/// The one-line rendering of a sync status; the first condition that holds wins.
pub open spec fn spec_sync_line(s: SyncStatusSnapshot) -> Seq<char> {
    if s.download_error is Some {
        "sync_state=download_error error="@ + s.download_error->0@
    } else if s.upload_error is Some {
        "sync_state=upload_error error="@ + s.upload_error->0@
    } else if s.uploading {
        "sync_state=uploading"@
    } else if s.downloading {
        "sync_state=downloading"@
    } else if s.connected {
        "sync_state=connected"@
    } else if s.connecting {
        "sync_state=connecting"@
    } else {
        "sync_state=idle"@
    }
}

/// Renders a sync status as one `sync_state=...` line.
pub fn format_sync_status(status: &SyncStatusSnapshot) -> (res: String)
    ensures
        res@ == spec_sync_line(*status),
{
    if let Some(error) = &status.download_error {
        return cat("sync_state=download_error error=", error.as_str());
    }
    if let Some(error) = &status.upload_error {
        return cat("sync_state=upload_error error=", error.as_str());
    }
    if status.uploading {
        return owned("sync_state=uploading");
    }
    if status.downloading {
        return owned("sync_state=downloading");
    }
    if status.connected {
        return owned("sync_state=connected");
    }
    if status.connecting {
        return owned("sync_state=connecting");
    }
    owned("sync_state=idle")
}

/// Whether the status watcher prints `line`: only when it differs from the last line printed.
pub fn should_print_status(last: &Option<String>, line: &str) -> (res: bool)
    ensures
        res == !(last matches Some(l) && l@ == line@),
{
    match last {
        Some(l) => !str_eq(l.as_str(), line),
        None => true,
    }
}

/// The fixed tail of the local write guard message.
pub open spec fn guard_tail() -> Seq<char> {
    " queued local write(s) in sqlite; rust-edge is strict read-only for the deadline build. reset the local edge database files or remove the local writes before starting the daemon"@
}

/// The message of the local write guard for a queue of `queue_depth` writes.
pub open spec fn spec_guard_message(queue_depth: int) -> Seq<char> {
    "detected "@ + spec_signed_decimal(queue_depth) + guard_tail()
}

/// Explains why the daemon refuses to run with `queue_depth` queued local writes.
pub fn local_write_guard_message(queue_depth: i64) -> (res: String)
    ensures
        res@ == spec_guard_message(queue_depth as int),
{
    let n = i64_decimal(queue_depth);
    cat3(
        "detected ",
        n.as_str(),
        " queued local write(s) in sqlite; rust-edge is strict read-only for the deadline build. reset the local edge database files or remove the local writes before starting the daemon",
    )
}

/// The guard itself: a non-empty local write queue is refused with the guard message.
pub fn check_no_local_writes(queue_depth: i64) -> (res: Result<(), String>)
    ensures
        queue_depth <= 0 ==> res is Ok,
        queue_depth > 0 ==> (res matches Err(m) && m@ == spec_guard_message(queue_depth as int)),
{
    if queue_depth > 0 {
        Err(local_write_guard_message(queue_depth))
    } else {
        Ok(())
    }
}

/// The queue depth read from the primary CRUD table, else from the legacy one, else 0.
pub fn resolve_queue_depth(primary: Option<i64>, legacy: Option<i64>) -> (res: i64)
    ensures
        res == match primary {
            Some(p) => p,
            None => match legacy {
                Some(l) => l,
                None => 0,
            },
        },
{
    match primary {
        Some(p) => p,
        None => match legacy {
            Some(l) => l,
            None => 0,
        },
    }
}

/// The guard message names the queue depth, followed by ` queued local write`,
/// and says that the daemon is strict read-only, for every depth.
pub proof fn lemma_guard_message_mentions_depth(queue_depth: int)
    ensures
        seq_contains(spec_guard_message(queue_depth), spec_signed_decimal(queue_depth) + " queued local write"@),
        seq_contains(spec_guard_message(queue_depth), "strict read-only"@),
{
    reveal_strlit("detected ");
    reveal_strlit(" queued local write(s) in sqlite; rust-edge is strict read-only for the deadline build. reset the local edge database files or remove the local writes before starting the daemon");
    reveal_strlit(" queued local write");
    reveal_strlit("strict read-only");
    let m = spec_guard_message(queue_depth);
    let d = spec_signed_decimal(queue_depth);
    let t = guard_tail();
    let n1 = d + " queued local write"@;
    assert(m.subrange(9, 9 + n1.len() as int) =~= n1) by {
        assert forall|k: int| 0 <= k < n1.len() implies m.subrange(9, 9 + n1.len() as int)[k] == n1[k] by {
            if k < d.len() {
                assert(m[9 + k] == d[k]);
            } else {
                assert(m[9 + k] == t[k - d.len()]);
            }
        }
    }
    assert(occurs_at(m, n1, 9));
    let n2 = "strict read-only"@;
    let at: int = 9 + d.len() as int + 47;
    assert(m.subrange(at, at + 16) =~= n2) by {
        assert forall|k: int| 0 <= k < 16 implies m.subrange(at, at + 16)[k] == n2[k] by {
            assert(m[at + k] == t[47 + k]);
        }
    }
    assert(occurs_at(m, n2, at));
}

/// What happened while waiting for the first sync status.
pub enum SyncWaitEvent {
    /// The overall deadline has passed.
    DeadlineReached,
    /// No status arrived within the time that was left.
    TimedOut,
    /// The status stream ended.
    StreamEnded,
    /// A status arrived.
    Status(SyncStatusSnapshot),
}

/// Why waiting for the first sync status failed.
#[derive(Clone, Copy, Debug, PartialEq, Eq, Structural)]
pub enum SyncWaitError {
    /// No status arrived within the timeout, in seconds.
    TimedOut(u64),
    /// The status stream ended unexpectedly.
    StreamEnded,
}

impl SyncWaitError {
    /// The text shown to the user.
    pub fn message(&self) -> (res: String)
        ensures
            res@ == match *self {
                SyncWaitError::TimedOut(t) => "timed out waiting for sync status after "@ + spec_decimal(t as nat) + "s"@,
                SyncWaitError::StreamEnded => "sync status stream ended unexpectedly"@,
            },
    {
        match self {
            SyncWaitError::TimedOut(t) => {
                let n = u64_decimal(*t);
                cat3("timed out waiting for sync status after ", n.as_str(), "s")
            },
            SyncWaitError::StreamEnded => owned("sync status stream ended unexpectedly"),
        }
    }
}

/// What the wait does next.
pub enum SyncWaitStep {
    /// Stop waiting and report this status line.
    Done(String),
    /// Stop waiting with an error.
    Failed(SyncWaitError),
    /// Keep waiting.
    Continue,
}

/// Waiting for the sync engine to leave the idle state, up to a timeout.
pub struct SyncWait {
    latest: String,
    timeout_secs: u64,
}

impl SyncWait {
    /// The last status line seen (idle until a status arrives).
    pub closed spec fn latest(&self) -> Seq<char> {
        self.latest@
    }

    /// The timeout the wait was started with.
    pub closed spec fn timeout(&self) -> u64 {
        self.timeout_secs
    }

    /// Starts waiting, with `timeout_secs` as the limit.
    pub fn new(timeout_secs: u64) -> (res: Self)
        ensures
            res.latest() == "sync_state=idle"@,
            res.timeout() == timeout_secs,
    {
        SyncWait { latest: owned("sync_state=idle"), timeout_secs }
    }

    /// Handles one event: the deadline reports the latest line, a timeout or a
    /// closed stream fail, and a status that is not idle ends the wait with its line.
    pub fn step(&mut self, event: SyncWaitEvent) -> (res: SyncWaitStep)
        ensures
            final(self).timeout() == old(self).timeout(),
            match event {
                SyncWaitEvent::DeadlineReached => res matches SyncWaitStep::Done(l)
                    && l@ == old(self).latest() && final(self).latest() == old(self).latest(),
                SyncWaitEvent::TimedOut => res matches SyncWaitStep::Failed(e)
                    && e == SyncWaitError::TimedOut(old(self).timeout()) && final(self).latest() == old(self).latest(),
                SyncWaitEvent::StreamEnded => res matches SyncWaitStep::Failed(e)
                    && e == SyncWaitError::StreamEnded && final(self).latest() == old(self).latest(),
                SyncWaitEvent::Status(st) => {
                    &&& final(self).latest() == spec_sync_line(st)
                    &&& spec_sync_line(st) == "sync_state=idle"@ ==> res is Continue
                    &&& spec_sync_line(st) != "sync_state=idle"@ ==> (res matches SyncWaitStep::Done(l)
                        && l@ == spec_sync_line(st))
                },
            },
    {
        match event {
            SyncWaitEvent::DeadlineReached => SyncWaitStep::Done(owned(self.latest.as_str())),
            SyncWaitEvent::TimedOut => SyncWaitStep::Failed(SyncWaitError::TimedOut(self.timeout_secs)),
            SyncWaitEvent::StreamEnded => SyncWaitStep::Failed(SyncWaitError::StreamEnded),
            SyncWaitEvent::Status(st) => {
                self.latest = format_sync_status(&st);
                if str_eq(self.latest.as_str(), "sync_state=idle") {
                    SyncWaitStep::Continue
                } else {
                    SyncWaitStep::Done(owned(self.latest.as_str()))
                }
            },
        }
    }
}

/// One line of the headless incident report: `created | severity | status | id | title`.
pub open spec fn spec_incident_line(i: IncidentSummary) -> Seq<char> {
    (match i.created_at {
        Some(c) => c@,
        None => "-"@,
    }) + " | "@ + i.severity@ + " | "@ + i.status@ + " | "@ + i.id@ + " | "@ + i.title@
}

/// Formats one incident for the headless report.
pub fn incident_line(incident: &IncidentSummary) -> (res: String)
    ensures
        res@ == spec_incident_line(*incident),
{
    let mut out = match &incident.created_at {
        Some(c) => owned(c.as_str()),
        None => owned("-"),
    };
    out.append(" | ");
    out.append(incident.severity.as_str());
    out.append(" | ");
    out.append(incident.status.as_str());
    out.append(" | ");
    out.append(incident.id.as_str());
    out.append(" | ");
    out.append(incident.title.as_str());
    out
}

/// The headless incident report: a count line, then one line per incident.
pub fn incident_report(incidents: &Vec<IncidentSummary>) -> (res: Vec<String>)
    ensures
        res.len() == incidents.len() + 1,
        res@[0]@ == "incidents="@ + spec_decimal(incidents.len() as nat),
        forall|i: int| 0 <= i < incidents.len() ==> (#[trigger] res@[i + 1])@ == spec_incident_line(incidents@[i]),
{
    let mut out: Vec<String> = Vec::new();
    let n = u64_decimal(incidents.len() as u64);
    out.push(cat("incidents=", n.as_str()));
    let mut i: usize = 0;
    while i < incidents.len()
        invariant
            i <= incidents.len(),
            out.len() == i + 1,
            out@[0]@ == "incidents="@ + spec_decimal(incidents.len() as nat),
            forall|k: int| 0 <= k < i ==> (#[trigger] out@[k + 1])@ == spec_incident_line(incidents@[k]),
        decreases incidents.len() - i,
    {
        let line = incident_line(&incidents[i]);
        out.push(line);
        i = i + 1;
    }
    out
}

/// Two incident summaries agree field by field (by their text).
pub open spec fn same_summary(a: IncidentSummary, b: IncidentSummary) -> bool {
    &&& a.id@ == b.id@
    &&& a.title@ == b.title@
    &&& a.severity@ == b.severity@
    &&& a.status@ == b.status@
    &&& opt_view(a.created_at) == opt_view(b.created_at)
}

/// Two incident snapshots hold the same summaries in the same order.
pub open spec fn same_snapshot(a: Seq<IncidentSummary>, b: Seq<IncidentSummary>) -> bool {
    &&& a.len() == b.len()
    &&& forall|i: int| 0 <= i < a.len() ==> same_summary(#[trigger] a[i], b[i])
}

/// The text of an incident summary, field by field.
pub open spec fn summary_view(s: IncidentSummary) -> (Seq<char>, Seq<char>, Seq<char>, Seq<char>, Option<Seq<char>>) {
    (s.id@, s.title@, s.severity@, s.status@, opt_view(s.created_at))
}

/// Two snapshots count as the same exactly when they hold equal summaries in
/// the same order: a difference in any field of any summary is a change.
pub proof fn lemma_same_snapshot_is_equality(a: Seq<IncidentSummary>, b: Seq<IncidentSummary>)
    ensures
        same_snapshot(a, b) <==> a.map_values(|s: IncidentSummary| summary_view(s)) == b.map_values(|s: IncidentSummary| summary_view(s)),
{
    let va = a.map_values(|s: IncidentSummary| summary_view(s));
    let vb = b.map_values(|s: IncidentSummary| summary_view(s));
    if same_snapshot(a, b) {
        assert forall|i: int| 0 <= i < va.len() implies va[i] == vb[i] by {
            assert(same_summary(a[i], b[i]));
        }
        assert(va =~= vb);
    }
    if va == vb {
        assert(a.len() == va.len() && b.len() == vb.len());
        assert forall|i: int| 0 <= i < a.len() implies same_summary(#[trigger] a[i], b[i]) by {
            assert(va[i] == summary_view(a[i]));
            assert(vb[i] == summary_view(b[i]));
            assert(va[i] == vb[i]);
        }
    }
}

fn opt_str_eq(a: &Option<String>, b: &Option<String>) -> (res: bool)
    ensures
        res == (opt_view(*a) == opt_view(*b)),
{
    match (a, b) {
        (Some(x), Some(y)) => str_eq(x.as_str(), y.as_str()),
        (None, None) => true,
        _ => false,
    }
}

fn summaries_equal(a: &IncidentSummary, b: &IncidentSummary) -> (res: bool)
    ensures
        res == same_summary(*a, *b),
{
    str_eq(a.id.as_str(), b.id.as_str()) && str_eq(a.title.as_str(), b.title.as_str())
        && str_eq(a.severity.as_str(), b.severity.as_str())
        && str_eq(a.status.as_str(), b.status.as_str())
        && opt_str_eq(&a.created_at, &b.created_at)
}

fn snapshots_equal(l: &Vec<IncidentSummary>, next: &Vec<IncidentSummary>) -> (res: bool)
    ensures
        res == same_snapshot(l@, next@),
{
    if l.len() != next.len() {
        return false;
    }
    let mut i: usize = 0;
    while i < l.len()
        invariant
            i <= l.len(),
            l.len() == next.len(),
            forall|k: int| 0 <= k < i ==> same_summary(#[trigger] l@[k], next@[k]),
        decreases l.len() - i,
    {
        if !summaries_equal(&l[i], &next[i]) {
            assert(!same_summary(l@[i as int], next@[i as int]));
            return false;
        }
        i = i + 1;
    }
    true
}

/// Whether the live watcher shows `next`: only when no snapshot was shown yet
/// or it differs from the last one shown.
pub fn incidents_changed(last: &Option<Vec<IncidentSummary>>, next: &Vec<IncidentSummary>) -> (res: bool)
    ensures
        res == !(last matches Some(l) && same_snapshot(l@, next@)),
{
    match last {
        None => true,
        Some(l) => !snapshots_equal(l, next),
    }
}

/// What a local read does next.
#[derive(Clone, Copy, Debug, PartialEq, Eq, Structural)]
pub enum ReadStep {
    /// Show what the local database holds.
    ShowLocal,
    /// Connect to the sync service, wait for the first sync, then read again.
    SyncFirst,
}

/// Reads come from the local database; only when it holds nothing and no
/// sync has been made yet for this read does the reader sync first.
pub fn read_step(local_rows: usize, synced: bool) -> (res: ReadStep)
    ensures
        res == (if local_rows == 0 && !synced { ReadStep::SyncFirst } else { ReadStep::ShowLocal }),
{
    if local_rows == 0 && !synced {
        ReadStep::SyncFirst
    } else {
        ReadStep::ShowLocal
    }
}

/// The terminal colour of an incident status in the latest-incidents listing.
pub fn status_color(status: &str) -> (res: &'static str)
    ensures
        res@ == if status@ == "open"@ {
            "\x1b[31m"@
        } else if status@ == "in_progress"@ {
            "\x1b[33m"@
        } else if status@ == "resolved"@ {
            "\x1b[32m"@
        } else {
            "\x1b[2m"@
        },
{
    if str_eq(status, "open") {
        "\x1b[31m"
    } else if str_eq(status, "in_progress") {
        "\x1b[33m"
    } else if str_eq(status, "resolved") {
        "\x1b[32m"
    } else {
        "\x1b[2m"
    }
}

/// The status dot of the connectivity check: green when the status reads
/// `connected`, red otherwise.
pub fn connectivity_icon(status: &str) -> (res: &'static str)
    ensures
        res@ == if status@ == "connected"@ { "\x1b[32m●\x1b[0m"@ } else { "\x1b[31m●\x1b[0m"@ },
{
    if str_eq(status, "connected") {
        "\x1b[32m●\x1b[0m"
    } else {
        "\x1b[31m●\x1b[0m"
    }
}

} // verus!

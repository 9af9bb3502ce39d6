//! The dashboard: its state machine and the text it shows.

use vstd::prelude::*;
use crate::network::WifiTelemetry;
use crate::text::{cat, cat3, chars_of, contains, occurs_at, owned, opt_view, push_char, seq_contains, spec_decimal, spec_signed_decimal, u64_decimal, i64_decimal};
use crate::watcher::{format_sync_status, local_write_guard_message, spec_guard_message, spec_sync_line, IncidentSummary, SyncStatusSnapshot};

verus! {

/// What the dashboard shows about the device and the signed-in user.
#[derive(Clone, Debug)]
pub struct TuiConfig {
    pub device_id: String,
    pub database_path: String,
    pub host_name: String,
    pub hardware_model: Option<String>,
    pub os: String,
    pub arch: String,
    pub stream_subscription_enabled: bool,
    pub role: Option<String>,
    pub org_name: Option<String>,
    pub email: Option<String>,
}

/// The short name of a sync-status line: the first state word it contains.
pub open spec fn spec_compact_sync_state(v: Seq<char>) -> Seq<char> {
    if seq_contains(v, "download_error"@) {
        "download_error"@
    } else if seq_contains(v, "upload_error"@) {
        "upload_error"@
    } else if seq_contains(v, "uploading"@) {
        "uploading"@
    } else if seq_contains(v, "downloading"@) {
        "downloading"@
    } else if seq_contains(v, "connected"@) {
        "connected"@
    } else if seq_contains(v, "connecting"@) {
        "connecting"@
    } else {
        "idle"@
    }
}

/// Shortens a sync-status line to its state word.
pub fn compact_sync_state(value: &str) -> (res: &'static str)
    ensures
        res@ == spec_compact_sync_state(value@),
{
    if contains(value, "download_error") {
        "download_error"
    } else if contains(value, "upload_error") {
        "upload_error"
    } else if contains(value, "uploading") {
        "uploading"
    } else if contains(value, "downloading") {
        "downloading"
    } else if contains(value, "connected") {
        "connected"
    } else if contains(value, "connecting") {
        "connecting"
    } else {
        "idle"
    }
}

/// The colour family of a piece of dashboard text.
#[derive(Clone, Copy, Debug, PartialEq, Eq, Structural)]
pub enum Tone {
    Error,
    Warning,
    Success,
    Muted,
}

/// The tone of a sync state: errors red, activity amber, connected green, otherwise muted.
pub open spec fn spec_sync_state_tone(v: Seq<char>) -> Tone {
    if seq_contains(v, "error"@) {
        Tone::Error
    } else if seq_contains(v, "uploading"@) || seq_contains(v, "downloading"@) || seq_contains(v, "connecting"@) {
        Tone::Warning
    } else if seq_contains(v, "connected"@) {
        Tone::Success
    } else {
        Tone::Muted
    }
}

/// The tone in which a sync state is shown.
pub fn sync_state_tone(value: &str) -> (res: Tone)
    ensures
        res == spec_sync_state_tone(value@),
{
    if contains(value, "error") {
        return Tone::Error;
    }
    if contains(value, "uploading") || contains(value, "downloading") || contains(value, "connecting") {
        return Tone::Warning;
    }
    if contains(value, "connected") {
        return Tone::Success;
    }
    Tone::Muted
}

/// Link quality, 0 to 4, guessed from a sync-status line when no radio telemetry exists.
pub open spec fn spec_connectivity_level(v: Seq<char>) -> u8 {
    if seq_contains(v, "download_error"@) || seq_contains(v, "upload_error"@) {
        0
    } else if seq_contains(v, "connecting"@) {
        1
    } else if seq_contains(v, "uploading"@) || seq_contains(v, "downloading"@) {
        3
    } else if seq_contains(v, "connected"@) {
        4
    } else {
        2
    }
}

/// Guesses link quality from a sync-status line.
pub fn connectivity_level(value: &str) -> (res: u8)
    ensures
        res == spec_connectivity_level(value@),
{
    if contains(value, "download_error") || contains(value, "upload_error") {
        return 0;
    }
    if contains(value, "connecting") {
        return 1;
    }
    if contains(value, "uploading") || contains(value, "downloading") {
        return 3;
    }
    if contains(value, "connected") {
        return 4;
    }
    2
}

/// Link quality, 0 to 4, from a radio quality percentage.
pub open spec fn spec_level_from_percent(p: u8) -> u8 {
    if p <= 10 {
        0
    } else if p <= 35 {
        1
    } else if p <= 60 {
        2
    } else if p <= 80 {
        3
    } else {
        4
    }
}

/// Maps a radio quality percentage to a link quality level.
pub fn connectivity_level_from_percent(percent: u8) -> (res: u8)
    ensures
        res == spec_level_from_percent(percent),
{
    if percent <= 10 {
        0
    } else if percent <= 35 {
        1
    } else if percent <= 60 {
        2
    } else if percent <= 80 {
        3
    } else {
        4
    }
}

/// A better radio quality never shows a lower level, and levels stay within 0 to 4.
pub proof fn lemma_level_from_percent_monotone(p: u8, q: u8)
    requires
        p <= q,
    ensures
        spec_level_from_percent(p) <= spec_level_from_percent(q),
        spec_level_from_percent(q) <= 4,
{
}

/// The tone of a link quality level.
pub open spec fn spec_connectivity_tone(level: u8) -> Tone {
    if level == 0 {
        Tone::Error
    } else if level == 1 || level == 2 {
        Tone::Warning
    } else {
        Tone::Success
    }
}

/// The tone in which a link quality level is shown.
pub fn connectivity_tone(level: u8) -> (res: Tone)
    ensures
        res == spec_connectivity_tone(level),
{
    if level == 0 {
        Tone::Error
    } else if level == 1 || level == 2 {
        Tone::Warning
    } else {
        Tone::Success
    }
}

/// The four-bar signal meter: `level` filled bars, then empty ones, separated by spaces.
pub open spec fn spec_signal_bars(level: u8) -> Seq<char> {
    seq![
        if 0 < level { '▮' } else { '▯' }, ' ',
        if 1 < level { '▮' } else { '▯' }, ' ',
        if 2 < level { '▮' } else { '▯' }, ' ',
        if 3 < level { '▮' } else { '▯' }
    ]
}

/// Draws the signal meter for a link quality level.
pub fn signal_bars(level: u8) -> (res: String)
    ensures
        res@ == spec_signal_bars(level),
{
    let mut bars = String::new();
    push_char(&mut bars, if 0 < level { '▮' } else { '▯' });
    push_char(&mut bars, ' ');
    push_char(&mut bars, if 1 < level { '▮' } else { '▯' });
    push_char(&mut bars, ' ');
    push_char(&mut bars, if 2 < level { '▮' } else { '▯' });
    push_char(&mut bars, ' ');
    push_char(&mut bars, if 3 < level { '▮' } else { '▯' });
    assert(bars@ =~= spec_signal_bars(level));
    bars
}

/// The meter shows exactly `min(level, 4)` filled bars.
pub proof fn lemma_signal_bars_filled(level: u8, k: int)
    requires
        0 <= k < 4,
    ensures
        (spec_signal_bars(level)[2 * k] == '▮') <==> k < level,
        spec_signal_bars(level).len() == 7,
{
}

/// The first eight characters of an identifier.
pub open spec fn spec_short_id(id: Seq<char>) -> Seq<char> {
    if id.len() <= 8 {
        id
    } else {
        id.subrange(0, 8)
    }
}

/// Shortens an identifier to its first eight characters.
pub fn short_id(id: &str) -> (res: String)
    ensures
        res@ == spec_short_id(id@),
{
    let cs = chars_of(id);
    let mut out = String::new();
    let mut i: usize = 0;
    while i < cs.len() && i < 8
        invariant
            i <= cs.len(),
            i <= 8,
            out@ == cs@.subrange(0, i as int),
        decreases 8 - i,
    {
        push_char(&mut out, cs[i]);
        i = i + 1;
        assert(out@ =~= cs@.subrange(0, i as int));
    }
    assert(cs@.len() <= 8 ==> cs@.subrange(0, cs@.len() as int) =~= cs@);
    out
}

/// A duration as `Hh Mm Ss`, `Mm Ss` or `Ss`, leading zero units left out.
pub open spec fn spec_format_duration(total: nat) -> Seq<char> {
    let hours = total / 3600;
    let minutes = (total % 3600) / 60;
    let seconds = total % 60;
    if hours > 0 {
        spec_decimal(hours) + "h "@ + spec_decimal(minutes) + "m "@ + spec_decimal(seconds) + "s"@
    } else if minutes > 0 {
        spec_decimal(minutes) + "m "@ + spec_decimal(seconds) + "s"@
    } else {
        spec_decimal(seconds) + "s"@
    }
}

/// Formats a duration given in whole seconds.
pub fn format_duration(total_seconds: u64) -> (res: String)
    ensures
        res@ == spec_format_duration(total_seconds as nat),
{
    let hours = total_seconds / 3600;
    let minutes = (total_seconds % 3600) / 60;
    let seconds = total_seconds % 60;
    let s = u64_decimal(seconds);
    if hours > 0 {
        let h = u64_decimal(hours);
        let m = u64_decimal(minutes);
        let mut out = cat(h.as_str(), "h ");
        out.append(m.as_str());
        out.append("m ");
        out.append(s.as_str());
        out.append("s");
        out
    } else if minutes > 0 {
        let m = u64_decimal(minutes);
        let mut out = cat(m.as_str(), "m ");
        out.append(s.as_str());
        out.append("s");
        out
    } else {
        cat(s.as_str(), "s")
    }
}

/// A long text cut in the middle: its first and last `(max_len - 3) / 2`
/// characters around `...`; a text of at most `max_len` characters is kept whole.
pub open spec fn spec_shorten_middle(v: Seq<char>, max_len: nat) -> Seq<char> {
    if v.len() <= max_len {
        v
    } else {
        let keep = (if max_len >= 3 { max_len - 3 } else { 0 }) / 2;
        v.subrange(0, keep as int) + "..."@ + v.subrange(v.len() - keep, v.len() as int)
    }
}

/// Shortens a long text in the middle to fit `max_len` characters.
pub fn shorten_middle(value: &str, max_len: usize) -> (res: String)
    ensures
        res@ == spec_shorten_middle(value@, max_len as nat),
{
    let cs = chars_of(value);
    let n = cs.len();
    if n <= max_len {
        return owned(value);
    }
    let keep = (if max_len >= 3 { max_len - 3 } else { 0 }) / 2;
    let mut out = String::new();
    let mut i: usize = 0;
    while i < keep
        invariant
            keep < n,
            n == cs.len(),
            i <= keep,
            out@ == cs@.subrange(0, i as int),
        decreases keep - i,
    {
        push_char(&mut out, cs[i]);
        i = i + 1;
        assert(out@ =~= cs@.subrange(0, i as int));
    }
    out.append("...");
    let ghost head = out@;
    let mut j: usize = n - keep;
    while j < n
        invariant
            keep < n,
            n == cs.len(),
            n - keep <= j <= n,
            out@ == head + cs@.subrange(n - keep, j as int),
        decreases n - j,
    {
        push_char(&mut out, cs[j]);
        j = j + 1;
        assert(out@ =~= head + cs@.subrange(n - keep, j as int));
    }
    out
}

/// A shortened text never exceeds its limit when the limit leaves room for the dots.
pub proof fn lemma_shorten_middle_fits(v: Seq<char>, max_len: nat)
    requires
        max_len >= 3,
    ensures
        spec_shorten_middle(v, max_len).len() <= max_len,
{
    reveal_strlit("...");
    assert("..."@.len() == 3);
}

/// The dashboard as a value: what it shows and when it last changed.
pub struct DashboardView {
    pub sync_state: Seq<char>,
    pub incidents: Seq<IncidentSummary>,
    pub wifi: Option<WifiTelemetry>,
    pub last_error: Option<Seq<char>>,
    pub started_at_ms: u64,
    pub last_update_at_ms: Option<u64>,
}

/// The live state of the dashboard. Times are milliseconds on a monotonic clock.
pub struct DashboardState {
    pub sync_state: String,
    pub incidents: Vec<IncidentSummary>,
    pub wifi: Option<WifiTelemetry>,
    pub last_error: Option<String>,
    pub started_at_ms: u64,
    pub last_update_at_ms: Option<u64>,
}

impl View for DashboardState {
    type V = DashboardView;

    open spec fn view(&self) -> DashboardView {
        DashboardView {
            sync_state: self.sync_state@,
            incidents: self.incidents@,
            wifi: self.wifi,
            last_error: opt_view(self.last_error),
            started_at_ms: self.started_at_ms,
            last_update_at_ms: self.last_update_at_ms,
        }
    }
}

/// Something that happens while the dashboard runs.
pub enum DashboardEvent {
    /// The sync engine reported a status.
    Status(SyncStatusSnapshot),
    /// The critical incident query produced new rows.
    Incidents(Vec<IncidentSummary>),
    /// The critical incident query failed with this error.
    IncidentsFailed(String),
    /// The periodic check: fresh radio telemetry, and the local write queue
    /// depth if it could be read.
    QueueTick { wifi: Option<WifiTelemetry>, queue_depth: Option<i64> },
    /// Time to redraw; whether the user pressed a quit key since the last one.
    DrawTick { quit_requested: bool },
    /// The user interrupted the process.
    Interrupt,
}

/// What the dashboard loop does next.
#[derive(Clone, Copy, Debug, PartialEq, Eq, Structural)]
pub enum DashboardAction {
    Continue,
    Quit,
    /// Stop with the local write guard error for this queue depth.
    StopForLocalWrites(i64),
}

/// The dashboard after an event at time `now`, and what the loop does next.
pub open spec fn spec_step(s: DashboardView, e: DashboardEvent, now: u64) -> (DashboardView, DashboardAction) {
    match e {
        DashboardEvent::Status(st) => {
            let line = spec_sync_line(st);
            (DashboardView {
                sync_state: line,
                last_error: if seq_contains(line, "error="@) { Some(line) } else { s.last_error },
                last_update_at_ms: Some(now),
                ..s
            }, DashboardAction::Continue)
        },
        DashboardEvent::Incidents(v) => (DashboardView { incidents: v@, last_update_at_ms: Some(now), ..s }, DashboardAction::Continue),
        DashboardEvent::IncidentsFailed(err) => (DashboardView {
            last_error: Some("critical incident watcher failed: "@ + err@),
            last_update_at_ms: Some(now),
            ..s
        }, DashboardAction::Continue),
        DashboardEvent::QueueTick { wifi, queue_depth } => (DashboardView { wifi: wifi, ..s }, match queue_depth {
            Some(d) => if d > 0 { DashboardAction::StopForLocalWrites(d) } else { DashboardAction::Continue },
            None => DashboardAction::Continue,
        }),
        DashboardEvent::DrawTick { quit_requested } => (s, if quit_requested { DashboardAction::Quit } else { DashboardAction::Continue }),
        DashboardEvent::Interrupt => (s, DashboardAction::Quit),
    }
}

impl DashboardState {
    /// A fresh dashboard started at `now_ms`: idle, no incidents, no errors.
    pub fn new(wifi: Option<WifiTelemetry>, now_ms: u64) -> (res: Self)
        ensures
            res@.sync_state == "sync_state=idle"@,
            res@.incidents.len() == 0,
            res@.wifi == wifi,
            res@.last_error is None,
            res@.started_at_ms == now_ms,
            res@.last_update_at_ms is None,
    {
        DashboardState {
            sync_state: owned("sync_state=idle"),
            incidents: Vec::new(),
            wifi,
            last_error: None,
            started_at_ms: now_ms,
            last_update_at_ms: None,
        }
    }

    /// Records that the dashboard content changed at `now_ms`.
    pub fn mark_update(&mut self, now_ms: u64)
        ensures
            final(self)@ == (DashboardView { last_update_at_ms: Some(now_ms), ..old(self)@ }),
    {
        self.last_update_at_ms = Some(now_ms);
    }

    /// Applies an event at `now_ms` and says what the loop does next.
    pub fn step(&mut self, event: DashboardEvent, now_ms: u64) -> (res: DashboardAction)
        ensures
            (final(self)@, res) == spec_step(old(self)@, event, now_ms),
    {
        match event {
            DashboardEvent::Status(st) => {
                let line = format_sync_status(&st);
                if contains(line.as_str(), "error=") {
                    self.last_error = Some(owned(line.as_str()));
                }
                self.sync_state = line;
                self.mark_update(now_ms);
                DashboardAction::Continue
            },
            DashboardEvent::Incidents(v) => {
                self.incidents = v;
                self.mark_update(now_ms);
                DashboardAction::Continue
            },
            DashboardEvent::IncidentsFailed(err) => {
                self.last_error = Some(cat("critical incident watcher failed: ", err.as_str()));
                self.mark_update(now_ms);
                DashboardAction::Continue
            },
            DashboardEvent::QueueTick { wifi, queue_depth } => {
                self.wifi = wifi;
                match queue_depth {
                    Some(d) => if d > 0 {
                        DashboardAction::StopForLocalWrites(d)
                    } else {
                        DashboardAction::Continue
                    },
                    None => DashboardAction::Continue,
                }
            },
            DashboardEvent::DrawTick { quit_requested } => if quit_requested {
                DashboardAction::Quit
            } else {
                DashboardAction::Continue
            },
            DashboardEvent::Interrupt => DashboardAction::Quit,
        }
    }
}

/// Once an error has been shown, no later event clears it.
pub proof fn lemma_errors_persist(s: DashboardView, e: DashboardEvent, now: u64)
    requires
        s.last_error is Some,
    ensures
        spec_step(s, e, now).0.last_error is Some,
{
}

/// A non-empty local write queue always stops the dashboard with the guard error.
pub proof fn lemma_local_writes_stop_dashboard(s: DashboardView, wifi: Option<WifiTelemetry>, depth: i64, now: u64)
    requires
        depth > 0,
    ensures
        spec_step(s, DashboardEvent::QueueTick { wifi, queue_depth: Some(depth) }, now).1
            == DashboardAction::StopForLocalWrites(depth),
{
}

/// Only the draw tick and an interrupt end the dashboard without an error, and
/// only the queue check ends it with one.
pub proof fn lemma_only_queue_check_fails(s: DashboardView, e: DashboardEvent, now: u64)
    ensures
        spec_step(s, e, now).1 is StopForLocalWrites ==> e is QueueTick,
        spec_step(s, e, now).1 is Quit ==> (e is DrawTick || e is Interrupt),
{
}

impl DashboardAction {
    /// The error text of a stop, if the action is one.
    pub fn error_message(&self) -> (res: Option<String>)
        ensures
            match *self {
                DashboardAction::StopForLocalWrites(d) => res matches Some(m) && m@ == spec_guard_message(d as int),
                _ => res is None,
            },
    {
        match self {
            DashboardAction::StopForLocalWrites(d) => Some(local_write_guard_message(*d)),
            _ => None,
        }
    }
}

/// A key the user pressed, as far as quitting cares.
#[derive(Clone, Copy, Debug, PartialEq, Eq, Structural)]
pub enum KeyPress {
    Char(char),
    Esc,
    Other,
}

/// A keyboard event: the key, whether it is a press (not a release or repeat),
/// and whether Control was held.
#[derive(Clone, Copy, Debug, PartialEq, Eq, Structural)]
pub struct KeyInput {
    pub key: KeyPress,
    pub is_press: bool,
    pub control: bool,
}

/// Quitting keys: `q`, Escape, and Control-C, on a press.
pub open spec fn spec_should_quit(k: KeyInput) -> bool {
    k.is_press && (k.key == KeyPress::Char('q') || k.key == KeyPress::Esc || (k.key == KeyPress::Char('c') && k.control))
}

/// Whether a keyboard event quits the dashboard.
pub fn should_quit(key: KeyInput) -> (res: bool)
    ensures
        res == spec_should_quit(key),
{
    if !key.is_press {
        return false;
    }
    match key.key {
        KeyPress::Char(c) => c == 'q' || (c == 'c' && key.control),
        KeyPress::Esc => true,
        KeyPress::Other => false,
    }
}

/// The radio line: interface, quality and signal level, or a note that there is no telemetry.
pub open spec fn spec_link_text(wifi: Option<WifiTelemetry>) -> Seq<char> {
    match wifi {
        Some(w) => match w.signal_dbm {
            Some(dbm) => w.interface@ + " "@ + spec_decimal(w.quality_percent as nat) + "% ("@
                + spec_signed_decimal(dbm as int) + " dBm)"@,
            None => w.interface@ + " "@ + spec_decimal(w.quality_percent as nat) + "%"@,
        },
        None => "no wifi telemetry"@,
    }
}

/// Describes the radio link.
pub fn link_text(wifi: &Option<WifiTelemetry>) -> (res: String)
    ensures
        res@ == spec_link_text(*wifi),
{
    match wifi {
        Some(w) => {
            let q = u64_decimal(w.quality_percent as u64);
            let mut out = cat3(w.interface.as_str(), " ", q.as_str());
            match w.signal_dbm {
                Some(dbm) => {
                    let d = i64_decimal(dbm as i64);
                    out.append("% (");
                    out.append(d.as_str());
                    out.append(" dBm)");
                },
                None => {
                    out.append("%");
                },
            }
            out
        },
        None => owned("no wifi telemetry"),
    }
}

/// The link quality level shown: from the radio when there is telemetry, else from the sync state.
pub fn signal_level(state: &DashboardState) -> (res: u8)
    ensures
        res == match state.wifi {
            Some(w) => spec_level_from_percent(w.quality_percent),
            None => spec_connectivity_level(state.sync_state@),
        },
{
    match &state.wifi {
        Some(w) => connectivity_level_from_percent(w.quality_percent),
        None => connectivity_level(state.sync_state.as_str()),
    }
}

/// The error indicator of the sync panel.
pub fn errors_label(state: &DashboardState) -> (res: &'static str)
    ensures
        res@ == if state.last_error is Some { "present"@ } else { "none"@ },
{
    if state.last_error.is_some() {
        "present"
    } else {
        "none"
    }
}

/// The host line: the host name, with the hardware model in brackets when known.
pub fn host_line(config: &TuiConfig) -> (res: String)
    ensures
        res@ == match config.hardware_model {
            Some(m) => config.host_name@ + " ("@ + m@ + ")"@,
            None => config.host_name@,
        },
{
    match &config.hardware_model {
        Some(m) => {
            let mut out = cat3(config.host_name.as_str(), " (", m.as_str());
            out.append(")");
            out
        },
        None => owned(config.host_name.as_str()),
    }
}

/// The system line: operating system and architecture.
pub fn system_line(config: &TuiConfig) -> (res: String)
    ensures
        res@ == config.os@ + " / "@ + config.arch@,
{
    cat3(config.os.as_str(), " / ", config.arch.as_str())
}

/// The stream line: whether a role stream is configured.
pub fn stream_label(config: &TuiConfig) -> (res: &'static str)
    ensures
        res@ == if config.stream_subscription_enabled { "configured"@ } else { "default auto-subscribe"@ },
{
    if config.stream_subscription_enabled {
        "configured"
    } else {
        "default auto-subscribe"
    }
}

/// An optional labelled row: present only when the value is.
pub open spec fn optional_row(label: Seq<char>, value: Option<String>) -> Seq<(Seq<char>, Seq<char>)> {
    match value {
        Some(v) => seq![(label, v@)],
        None => Seq::empty(),
    }
}

/// The rows of the runtime panel, label and value, in order: user, role and
/// organization when known, then device, host, system, shortened database
/// path, mode, stream, a blank row and the controls hint.
pub open spec fn spec_config_rows(c: TuiConfig) -> Seq<(Seq<char>, Seq<char>)> {
    optional_row("User    "@, c.email) + optional_row("Role    "@, c.role) + optional_row("Org     "@, c.org_name)
        + seq![
        ("Device  "@, c.device_id@),
        ("Host    "@, match c.hardware_model {
            Some(m) => c.host_name@ + " ("@ + m@ + ")"@,
            None => c.host_name@,
        }),
        ("System  "@, c.os@ + " / "@ + c.arch@),
        ("DB      "@, spec_shorten_middle(c.database_path@, 34)),
        ("Mode    "@, "read-only"@),
        ("Stream  "@, if c.stream_subscription_enabled { "configured"@ } else { "default auto-subscribe"@ }),
        (Seq::empty(), Seq::empty()),
        (Seq::empty(), "Controls: q / Esc / Ctrl+C"@),
    ]
}

/// The view of a list of rows.
pub open spec fn rows_view(rows: Seq<(String, String)>) -> Seq<(Seq<char>, Seq<char>)> {
    rows.map_values(|r: (String, String)| (r.0@, r.1@))
}

fn push_row(rows: &mut Vec<(String, String)>, label: &str, value: String)
    ensures
        rows_view(final(rows)@) == rows_view(old(rows)@).push((label@, value@)),
{
    let ghost before = rows@;
    rows.push((owned(label), value));
    assert(rows_view(rows@) =~= rows_view(before).push((label@, value@)));
}

/// The rows of the runtime panel.
pub fn config_rows(config: &TuiConfig) -> (res: Vec<(String, String)>)
    ensures
        rows_view(res@) == spec_config_rows(*config),
{
    let mut rows: Vec<(String, String)> = Vec::new();
    assert(rows_view(rows@) =~= Seq::<(Seq<char>, Seq<char>)>::empty());
    if let Some(email) = &config.email {
        push_row(&mut rows, "User    ", owned(email.as_str()));
    }
    let ghost r1 = rows_view(rows@);
    assert(r1 =~= optional_row("User    "@, config.email));
    if let Some(role) = &config.role {
        push_row(&mut rows, "Role    ", owned(role.as_str()));
    }
    let ghost r2 = rows_view(rows@);
    assert(r2 =~= r1 + optional_row("Role    "@, config.role));
    if let Some(org) = &config.org_name {
        push_row(&mut rows, "Org     ", owned(org.as_str()));
    }
    let ghost r3 = rows_view(rows@);
    assert(r3 =~= r2 + optional_row("Org     "@, config.org_name));
    push_row(&mut rows, "Device  ", owned(config.device_id.as_str()));
    push_row(&mut rows, "Host    ", host_line(config));
    push_row(&mut rows, "System  ", system_line(config));
    push_row(&mut rows, "DB      ", shorten_middle(config.database_path.as_str(), 34));
    push_row(&mut rows, "Mode    ", owned("read-only"));
    push_row(&mut rows, "Stream  ", owned(stream_label(config)));
    push_row(&mut rows, "", String::new());
    push_row(&mut rows, "", owned("Controls: q / Esc / Ctrl+C"));
    proof {
        reveal_strlit("");
        assert(""@ =~= Seq::<char>::empty());
    }
    assert(rows_view(rows@) =~= spec_config_rows(*config));
    rows
}

/// One entry of the incident feed: the placeholder when the feed is empty, or
/// the two lines of an incident.
#[derive(Clone, Debug)]
pub enum FeedItem {
    Placeholder(String),
    Incident { title: String, meta: String },
}

/// The feed entry of an incident: `title [status]`, then `created  |  short id`.
pub open spec fn spec_incident_item(i: IncidentSummary) -> (Seq<char>, Seq<char>) {
    (i.title@ + " ["@ + i.status@ + "]"@, match i.created_at {
        Some(c) => c@,
        None => "-"@,
    } + "  |  "@ + spec_short_id(i.id@))
}

/// Whether a feed entry shows an incident as its two lines.
pub open spec fn item_shows(item: FeedItem, lines: (Seq<char>, Seq<char>)) -> bool {
    item matches FeedItem::Incident { title, meta } && title@ == lines.0 && meta@ == lines.1
}

/// The entries of the critical incident feed: one per incident, in order, or
/// the placeholder note when there are none.
pub fn incident_feed(incidents: &Vec<IncidentSummary>) -> (res: Vec<FeedItem>)
    ensures
        incidents.len() == 0 ==> res.len() == 1 && (res@[0] matches FeedItem::Placeholder(p)
            && p@ == "No critical incidents in local replica yet."@),
        incidents.len() > 0 ==> res.len() == incidents.len() && forall|k: int|
            0 <= k < incidents.len() ==> item_shows(#[trigger] res@[k], spec_incident_item(incidents@[k])),
{
    let mut out: Vec<FeedItem> = Vec::new();
    if incidents.len() == 0 {
        out.push(FeedItem::Placeholder(owned("No critical incidents in local replica yet.")));
        return out;
    }
    let mut k: usize = 0;
    while k < incidents.len()
        invariant
            k <= incidents.len(),
            out.len() == k,
            forall|j: int| 0 <= j < k ==> item_shows(#[trigger] out@[j], spec_incident_item(incidents@[j])),
        decreases incidents.len() - k,
    {
        let (title, meta) = incident_lines(&incidents[k]);
        out.push(FeedItem::Incident { title, meta });
        k = k + 1;
    }
    out
}

/// The colour of the role line: admins in the brand colour, supervisors amber, others muted.
#[derive(Clone, Copy, Debug, PartialEq, Eq, Structural)]
pub enum RoleTone {
    Brand,
    Warning,
    Muted,
}

/// The colour in which a role is shown.
pub fn role_tone(role: &str) -> (res: RoleTone)
    ensures
        res == if role@ == "admin"@ {
            RoleTone::Brand
        } else if role@ == "supervisor"@ {
            RoleTone::Warning
        } else {
            RoleTone::Muted
        },
{
    if crate::text::str_eq(role, "admin") {
        RoleTone::Brand
    } else if crate::text::str_eq(role, "supervisor") {
        RoleTone::Warning
    } else {
        RoleTone::Muted
    }
}

/// The two lines of an incident in the feed: `title [status]`, and
/// `created  |  short id`.
pub fn incident_lines(incident: &IncidentSummary) -> (res: (String, String))
    ensures
        res.0@ == incident.title@ + " ["@ + incident.status@ + "]"@,
        res.1@ == match incident.created_at {
            Some(c) => c@,
            None => "-"@,
        } + "  |  "@ + spec_short_id(incident.id@),
{
    let mut title = cat3(incident.title.as_str(), " [", incident.status.as_str());
    title.append("]");
    let id_short = short_id(incident.id.as_str());
    let created = match &incident.created_at {
        Some(c) => owned(c.as_str()),
        None => owned("-"),
    };
    let meta = cat3(created.as_str(), "  |  ", id_short.as_str());
    (title, meta)
}

/// Whole seconds between two millisecond instants (none if the clock went back).
pub open spec fn elapsed_secs(from_ms: u64, to_ms: u64) -> nat {
    if to_ms >= from_ms {
        ((to_ms - from_ms) / 1000) as nat
    } else {
        0
    }
}

fn seconds_between(from_ms: u64, to_ms: u64) -> (res: u64)
    ensures
        res as nat == elapsed_secs(from_ms, to_ms),
{
    if to_ms >= from_ms {
        (to_ms - from_ms) / 1000
    } else {
        0
    }
}

/// How long the dashboard has run at `now_ms`.
pub fn uptime_text(state: &DashboardState, now_ms: u64) -> (res: String)
    ensures
        res@ == spec_format_duration(elapsed_secs(state.started_at_ms, now_ms)),
{
    format_duration(seconds_between(state.started_at_ms, now_ms))
}

/// How long ago the content last changed, or `n/a`.
pub fn update_age_text(state: &DashboardState, now_ms: u64) -> (res: String)
    ensures
        res@ == match state.last_update_at_ms {
            Some(t) => spec_format_duration(elapsed_secs(t, now_ms)) + " ago"@,
            None => "n/a"@,
        },
{
    match state.last_update_at_ms {
        Some(t) => {
            let d = format_duration(seconds_between(t, now_ms));
            cat(d.as_str(), " ago")
        },
        None => owned("n/a"),
    }
}

/// The status line of the footer: the last error, or a note that there is none.
pub fn footer_status(state: &DashboardState) -> (res: String)
    ensures
        res@ == match state.last_error {
            Some(e) => "Last error: "@ + e@,
            None => "No watcher errors"@,
        },
{
    match &state.last_error {
        Some(e) => cat("Last error: ", e.as_str()),
        None => owned("No watcher errors"),
    }
}

/// The state word of a sync status: the first condition that holds.
pub open spec fn spec_state_word(s: SyncStatusSnapshot) -> Seq<char> {
    if s.download_error is Some {
        "download_error"@
    } else if s.upload_error is Some {
        "upload_error"@
    } else if s.uploading {
        "uploading"@
    } else if s.downloading {
        "downloading"@
    } else if s.connected {
        "connected"@
    } else if s.connecting {
        "connecting"@
    } else {
        "idle"@
    }
}

proof fn lemma_absent(h: Seq<char>, n: Seq<char>)
    requires
        n.len() >= 2,
        forall|i: int| 0 <= i && i + n.len() <= h.len() ==> (#[trigger] h[i] != n[0] || h[i + 1] != n[1]),
    ensures
        !seq_contains(h, n),
{
    if seq_contains(h, n) {
        let i = choose|i: int| occurs_at(h, n, i);
        assert(h.subrange(i, i + n.len())[0] == n[0]);
        assert(h.subrange(i, i + n.len())[1] == n[1]);
    }
}

proof fn lemma_present(h: Seq<char>, n: Seq<char>, i: int)
    requires
        0 <= i,
        i + n.len() <= h.len(),
        h.subrange(i, i + n.len()) == n,
    ensures
        seq_contains(h, n),
{
    assert(occurs_at(h, n, i));
}

/// The dashboard shows the state word of every status whose upload error, if
/// it is the one shown, does not itself mention `download_error`.
pub proof fn lemma_compact_names_state(s: SyncStatusSnapshot)
    requires
        s.download_error is None && s.upload_error is Some ==> !seq_contains(s.upload_error->0@, "download_error"@),
    ensures
        spec_compact_sync_state(spec_sync_line(s)) == spec_state_word(s),
{
    reveal_strlit("download_error");
    reveal_strlit("upload_error");
    reveal_strlit("uploading");
    reveal_strlit("downloading");
    reveal_strlit("connected");
    reveal_strlit("connecting");
    reveal_strlit("idle");
    reveal_strlit("sync_state=download_error error=");
    reveal_strlit("sync_state=upload_error error=");
    reveal_strlit("sync_state=uploading");
    reveal_strlit("sync_state=downloading");
    reveal_strlit("sync_state=connected");
    reveal_strlit("sync_state=connecting");
    reveal_strlit("sync_state=idle");
    let line = spec_sync_line(s);
    if s.download_error is Some {
        assert(line.subrange(11, 25) =~= "download_error"@);
        lemma_present(line, "download_error"@, 11);
    } else if s.upload_error is Some {
        let p = "sync_state=upload_error error="@;
        let e = s.upload_error->0@;
        assert(line == p + e);
        assert(line.subrange(11, 23) =~= "upload_error"@);
        lemma_present(line, "upload_error"@, 11);
        let n = "download_error"@;
        if seq_contains(line, n) {
            let i = choose|i: int| occurs_at(line, n, i);
            assert(line.subrange(i, i + 14)[0] == 'd');
            assert(line.subrange(i, i + 14)[1] == 'o');
            if i >= 30 {
                assert(e.subrange(i - 30, i - 30 + 14) =~= line.subrange(i, i + 14));
                assert(occurs_at(e, n, i - 30));
            } else {
                assert(line[i] == p[i]);
                assert(line[i + 1] == p[i + 1]);
            }
        }
    } else if s.uploading {
        assert(line.subrange(11, 20) =~= "uploading"@);
        lemma_present(line, "uploading"@, 11);
        lemma_absent(line, "download_error"@);
        lemma_absent(line, "upload_error"@);
    } else if s.downloading {
        assert(line.subrange(11, 22) =~= "downloading"@);
        lemma_present(line, "downloading"@, 11);
        lemma_absent(line, "download_error"@);
        lemma_absent(line, "upload_error"@);
        lemma_absent(line, "uploading"@);
    } else if s.connected {
        assert(line.subrange(11, 20) =~= "connected"@);
        lemma_present(line, "connected"@, 11);
        lemma_absent(line, "download_error"@);
        lemma_absent(line, "upload_error"@);
        lemma_absent(line, "uploading"@);
        lemma_absent(line, "downloading"@);
    } else if s.connecting {
        assert(line.subrange(11, 21) =~= "connecting"@);
        lemma_present(line, "connecting"@, 11);
        lemma_absent(line, "download_error"@);
        lemma_absent(line, "upload_error"@);
        lemma_absent(line, "uploading"@);
        lemma_absent(line, "downloading"@);
        let n = "connected"@;
        if seq_contains(line, n) {
            let i = choose|i: int| occurs_at(line, n, i);
            assert(line.subrange(i, i + 9)[0] == n[0]);
            assert(line.subrange(i, i + 9)[1] == n[1]);
            assert(line.subrange(i, i + 9)[7] == n[7]);
        }
    } else {
        lemma_absent(line, "download_error"@);
        lemma_absent(line, "upload_error"@);
        lemma_absent(line, "uploading"@);
        lemma_absent(line, "downloading"@);
        lemma_absent(line, "connected"@);
        lemma_absent(line, "connecting"@);
    }
}

/// The link level of a sync state word when no radio telemetry exists.
pub open spec fn spec_state_level(word: Seq<char>) -> u8 {
    if word == "download_error"@ || word == "upload_error"@ {
        0
    } else if word == "connecting"@ {
        1
    } else if word == "uploading"@ || word == "downloading"@ {
        3
    } else if word == "connected"@ {
        4
    } else {
        2
    }
}

/// Without radio telemetry, the signal meter follows the sync state: errors
/// show no bars, connecting one, idle two, transfers three, connected four.
pub proof fn lemma_level_follows_state(s: SyncStatusSnapshot)
    ensures
        spec_connectivity_level(spec_sync_line(s)) == spec_state_level(spec_state_word(s)),
{
    reveal_strlit("download_error");
    reveal_strlit("upload_error");
    reveal_strlit("uploading");
    reveal_strlit("downloading");
    reveal_strlit("connected");
    reveal_strlit("connecting");
    reveal_strlit("idle");
    reveal_strlit("sync_state=download_error error=");
    reveal_strlit("sync_state=upload_error error=");
    reveal_strlit("sync_state=uploading");
    reveal_strlit("sync_state=downloading");
    reveal_strlit("sync_state=connected");
    reveal_strlit("sync_state=connecting");
    reveal_strlit("sync_state=idle");
    let line = spec_sync_line(s);
    if s.download_error is Some {
        assert(line.subrange(11, 25) =~= "download_error"@);
        lemma_present(line, "download_error"@, 11);
    } else if s.upload_error is Some {
        assert(line.subrange(11, 23) =~= "upload_error"@);
        lemma_present(line, "upload_error"@, 11);
    } else if s.uploading {
        assert(line.subrange(11, 20) =~= "uploading"@);
        lemma_present(line, "uploading"@, 11);
        lemma_absent(line, "download_error"@);
        lemma_absent(line, "upload_error"@);
        lemma_absent(line, "connecting"@);
    } else if s.downloading {
        assert(line.subrange(11, 22) =~= "downloading"@);
        lemma_present(line, "downloading"@, 11);
        lemma_absent(line, "download_error"@);
        lemma_absent(line, "upload_error"@);
        lemma_absent(line, "connecting"@);
    } else if s.connected {
        assert(line.subrange(11, 20) =~= "connected"@);
        lemma_present(line, "connected"@, 11);
        lemma_absent(line, "download_error"@);
        lemma_absent(line, "upload_error"@);
        lemma_absent(line, "connecting"@);
        lemma_absent(line, "uploading"@);
        lemma_absent(line, "downloading"@);
        assert("connected"@ != "uploading"@) by {
            assert("connected"@[0] != "uploading"@[0]);
        }
    } else if s.connecting {
        assert(line.subrange(11, 21) =~= "connecting"@);
        lemma_present(line, "connecting"@, 11);
        lemma_absent(line, "download_error"@);
        lemma_absent(line, "upload_error"@);
    } else {
        lemma_absent(line, "download_error"@);
        lemma_absent(line, "upload_error"@);
        lemma_absent(line, "connecting"@);
        lemma_absent(line, "uploading"@);
        lemma_absent(line, "downloading"@);
        lemma_absent(line, "connected"@);
        assert("idle"@.len() == 4 && "connected"@.len() == 9 && "uploading"@.len() == 9);
    }
}

} // verus!

//! The stored login session and the rules on its lifetime.

use vstd::prelude::*;
use crate::text::{opt_view, owned};

verus! {

/// The tokens and profile, as stored between runs.
#[derive(Clone, Debug)]
pub struct Session {
    pub access_token: String,
    pub refresh_token: String,
    pub expires_at: i64,
    pub user_id: String,
    pub email: String,
    pub role: String,
    pub full_name: Option<String>,
    pub org_id: Option<String>,
    pub org_name: Option<String>,
    pub site_id: Option<String>,
    pub site_name: Option<String>,
    pub supabase_url: String,
    pub supabase_anon_key: String,
}

/// A session is usable at `now` while its token has more than a minute left.
pub open spec fn spec_valid_at(expires_at: int, now: int) -> bool {
    expires_at > now + 60
}

/// Whether the token of the session is usable at Unix time `now` (the caller
/// reads the clock).
pub fn ensure_valid_session(session: &Session, now: i64) -> (res: bool)
    ensures
        res == spec_valid_at(session.expires_at as int, now as int),
{
    (session.expires_at as i128) > (now as i128) + 60
}

/// A token usable at some moment was usable at every earlier moment.
pub proof fn lemma_validity_is_monotone(expires_at: i64, earlier: i64, later: i64)
    requires
        earlier <= later,
        spec_valid_at(expires_at as int, later as int),
    ensures
        spec_valid_at(expires_at as int, earlier as int),
{
}

/// How much life a token has left, as the session summary reports it.
#[derive(Clone, Copy, Debug, PartialEq, Eq, Structural)]
pub enum TokenState {
    /// More than half an hour left; the whole minutes left.
    Valid { minutes: i64 },
    /// Half an hour or less left; the whole minutes left.
    ExpiringSoon { minutes: i64 },
    /// No time left.
    Expired,
}

/// The state of a token expiring at `expires_at`, seen at `now`.
pub open spec fn spec_token_state(expires_at: int, now: int) -> TokenState {
    let remaining = expires_at - now;
    if remaining > 0 {
        let minutes = remaining / 60;
        if minutes > 30 {
            TokenState::Valid { minutes: minutes as i64 }
        } else {
            TokenState::ExpiringSoon { minutes: minutes as i64 }
        }
    } else {
        TokenState::Expired
    }
}

/// Classifies the remaining life at Unix time `now`.
pub fn token_state(expires_at: i64, now: i64) -> (res: TokenState)
    ensures
        res == spec_token_state(expires_at as int, now as int),
{
    let remaining: i128 = (expires_at as i128) - (now as i128);
    if remaining > 0 {
        let minutes: i128 = remaining / 60;
        assert(minutes <= i64::MAX);
        if minutes > 30 {
            TokenState::Valid { minutes: minutes as i64 }
        } else {
            TokenState::ExpiringSoon { minutes: minutes as i64 }
        }
    } else {
        TokenState::Expired
    }
}

/// Whether a session can be refreshed: only when it holds a refresh token.
pub fn can_refresh(session: &Session) -> (res: bool)
    ensures
        res == (session.refresh_token@.len() > 0),
{
    let cs = crate::text::chars_of(session.refresh_token.as_str());
    cs.len() > 0
}

/// The session after a token refresh: new tokens and expiry, everything else kept.
pub fn refreshed(session: &Session, access_token: String, refresh_token: String, expires_in: i64, now: i64) -> (res: Session)
    requires
        i64::MIN <= now + expires_in <= i64::MAX,
    ensures
        res.access_token@ == access_token@,
        res.refresh_token@ == refresh_token@,
        res.expires_at == now + expires_in,
        same_identity(res, *session),
{
    Session {
        access_token,
        refresh_token,
        expires_at: now + expires_in,
        user_id: owned(session.user_id.as_str()),
        email: owned(session.email.as_str()),
        role: owned(session.role.as_str()),
        full_name: copy_opt(&session.full_name),
        org_id: copy_opt(&session.org_id),
        org_name: copy_opt(&session.org_name),
        site_id: copy_opt(&session.site_id),
        site_name: copy_opt(&session.site_name),
        supabase_url: owned(session.supabase_url.as_str()),
        supabase_anon_key: owned(session.supabase_anon_key.as_str()),
    }
}

/// Two sessions agree on everything but their tokens and expiry.
pub open spec fn same_identity(a: Session, b: Session) -> bool {
    &&& a.user_id@ == b.user_id@
    &&& a.email@ == b.email@
    &&& a.role@ == b.role@
    &&& opt_view(a.full_name) == opt_view(b.full_name)
    &&& opt_view(a.org_id) == opt_view(b.org_id)
    &&& opt_view(a.org_name) == opt_view(b.org_name)
    &&& opt_view(a.site_id) == opt_view(b.site_id)
    &&& opt_view(a.site_name) == opt_view(b.site_name)
    &&& a.supabase_url@ == b.supabase_url@
    &&& a.supabase_anon_key@ == b.supabase_anon_key@
}

/// A copy of an optional string.
pub fn copy_opt(value: &Option<String>) -> (res: Option<String>)
    ensures
        opt_view(res) == opt_view(*value),
{
    match value {
        Some(v) => Some(owned(v.as_str())),
        None => None,
    }
}

/// A token that is usable at `now` is never reported as expired at `now`.
pub proof fn lemma_usable_token_not_expired(expires_at: i64, now: i64)
    requires
        spec_valid_at(expires_at as int, now as int),
    ensures
        !(spec_token_state(expires_at as int, now as int) is Expired),
{
}

/// The text of a session, field by field.
pub struct SessionView {
    pub access_token: Seq<char>,
    pub refresh_token: Seq<char>,
    pub expires_at: i64,
    pub user_id: Seq<char>,
    pub email: Seq<char>,
    pub role: Seq<char>,
    pub full_name: Option<Seq<char>>,
    pub org_id: Option<Seq<char>>,
    pub org_name: Option<Seq<char>>,
    pub site_id: Option<Seq<char>>,
    pub site_name: Option<Seq<char>>,
    pub supabase_url: Seq<char>,
    pub supabase_anon_key: Seq<char>,
}

impl View for Session {
    type V = SessionView;

    open spec fn view(&self) -> SessionView {
        SessionView {
            access_token: self.access_token@,
            refresh_token: self.refresh_token@,
            expires_at: self.expires_at,
            user_id: self.user_id@,
            email: self.email@,
            role: self.role@,
            full_name: opt_view(self.full_name),
            org_id: opt_view(self.org_id),
            org_name: opt_view(self.org_name),
            site_id: opt_view(self.site_id),
            site_name: opt_view(self.site_name),
            supabase_url: self.supabase_url@,
            supabase_anon_key: self.supabase_anon_key@,
        }
    }
}

/// Where making sure of a usable session stands.
#[derive(Clone, Copy, Debug, PartialEq, Eq, Structural)]
pub enum SessionStage {
    /// Load the stored session and read the clock.
    Load,
    /// The stored session is too close to expiry: refresh it.
    Refresh,
    /// Save the refreshed session.
    Save,
    /// The session is usable.
    Done,
    /// There is no stored session.
    NoSession,
}

/// What came back from the work of the last stage.
pub enum SessionEvent {
    /// The stored session, and the Unix time read right after loading it.
    Loaded { session: Session, now: i64 },
    /// No session could be loaded.
    LoadFailed,
    /// The session the refresh returned.
    Refreshed(Session),
    /// The refreshed session was saved.
    Saved,
}

/// Making sure of a usable session: a stored session that is still valid is
/// used as it is; one that is not is refreshed and saved first.
pub struct SessionCheck {
    pub stage: SessionStage,
    pub session: Option<Session>,
}

impl SessionCheck {
    /// A check that starts by loading the stored session.
    pub fn new() -> (res: SessionCheck)
        ensures
            res.stage == SessionStage::Load,
            res.session is None,
    {
        SessionCheck { stage: SessionStage::Load, session: None }
    }

    /// The next stage, given what the work of the current one gave. An event
    /// that does not belong to the current stage changes nothing.
    pub fn step(&mut self, event: SessionEvent) -> (res: SessionStage)
        ensures
            res == final(self).stage,
            match (old(self).stage, event) {
                (SessionStage::Load, SessionEvent::Loaded { session, now }) => {
                    &&& final(self).session == Some(session)
                    &&& final(self).stage == (if spec_valid_at(session.expires_at as int, now as int) {
                        SessionStage::Done
                    } else {
                        SessionStage::Refresh
                    })
                },
                (SessionStage::Load, SessionEvent::LoadFailed) => {
                    &&& final(self).session is None
                    &&& final(self).stage == SessionStage::NoSession
                },
                (SessionStage::Refresh, SessionEvent::Refreshed(session)) => {
                    &&& final(self).session == Some(session)
                    &&& final(self).stage == SessionStage::Save
                },
                (SessionStage::Save, SessionEvent::Saved) => {
                    &&& final(self).session == old(self).session
                    &&& final(self).stage == SessionStage::Done
                },
                _ => *final(self) == *old(self),
            },
    {
        match (self.stage, event) {
            (SessionStage::Load, SessionEvent::Loaded { session, now }) => {
                let valid = ensure_valid_session(&session, now);
                self.session = Some(session);
                self.stage = if valid { SessionStage::Done } else { SessionStage::Refresh };
            },
            (SessionStage::Load, SessionEvent::LoadFailed) => {
                self.session = None;
                self.stage = SessionStage::NoSession;
            },
            (SessionStage::Refresh, SessionEvent::Refreshed(session)) => {
                self.session = Some(session);
                self.stage = SessionStage::Save;
            },
            (SessionStage::Save, SessionEvent::Saved) => {
                self.stage = SessionStage::Done;
            },
            _ => {},
        }
        self.stage
    }
}

} // verus!

use fieldmid::session::{
    can_refresh, ensure_valid_session, refreshed, token_state, Session, SessionCheck, SessionEvent, SessionStage, TokenState,
};

fn session(expires_at: i64, refresh_token: &str) -> Session {
    Session {
        access_token: "old-access".to_string(),
        refresh_token: refresh_token.to_string(),
        expires_at,
        user_id: "u1".to_string(),
        email: "e@x.io".to_string(),
        role: "supervisor".to_string(),
        full_name: Some("Ada".to_string()),
        org_id: Some("o1".to_string()),
        org_name: Some("Acme".to_string()),
        site_id: Some("s1".to_string()),
        site_name: Some("Pit".to_string()),
        supabase_url: "https://s".to_string(),
        supabase_anon_key: "k".to_string(),
    }
}

#[test]
fn validity_needs_more_than_a_minute() {
    assert!(ensure_valid_session(&session(1061, ""), 1000));
    assert!(!ensure_valid_session(&session(1060, ""), 1000));
    assert!(!ensure_valid_session(&session(i64::MIN, ""), i64::MAX));
    assert!(ensure_valid_session(&session(i64::MAX, ""), i64::MIN));
}

#[test]
fn token_states() {
    assert_eq!(token_state(1000 + 31 * 60, 1000), TokenState::Valid { minutes: 31 });
    assert_eq!(token_state(1000 + 30 * 60 + 59, 1000), TokenState::ExpiringSoon { minutes: 30 });
    assert_eq!(token_state(1001, 1000), TokenState::ExpiringSoon { minutes: 0 });
    assert_eq!(token_state(1000, 1000), TokenState::Expired);
    assert_eq!(token_state(i64::MIN, i64::MAX), TokenState::Expired);
    assert_eq!(token_state(i64::MAX, i64::MIN), TokenState::Valid { minutes: (u64::MAX / 60) as i64 });
}

#[test]
fn refresh_requires_a_refresh_token() {
    assert!(can_refresh(&session(0, "rt")));
    assert!(!can_refresh(&session(0, "")));
}

#[test]
fn refresh_keeps_identity() {
    let old = session(5, "rt");
    let new = refreshed(&old, "new-access".to_string(), "new-rt".to_string(), 3600, 100);
    assert_eq!(new.access_token, "new-access");
    assert_eq!(new.refresh_token, "new-rt");
    assert_eq!(new.expires_at, 3700);
    assert_eq!(new.user_id, old.user_id);
    assert_eq!(new.email, old.email);
    assert_eq!(new.role, old.role);
    assert_eq!(new.full_name, old.full_name);
    assert_eq!(new.org_id, old.org_id);
    assert_eq!(new.org_name, old.org_name);
    assert_eq!(new.site_id, old.site_id);
    assert_eq!(new.site_name, old.site_name);
    assert_eq!(new.supabase_url, old.supabase_url);
    assert_eq!(new.supabase_anon_key, old.supabase_anon_key);
}

#[test]
fn valid_stored_session_is_used_as_is() {
    let mut check = SessionCheck::new();
    assert_eq!(check.stage, SessionStage::Load);
    let stage = check.step(SessionEvent::Loaded { session: session(2_000, "r"), now: 1_000 });
    assert_eq!(stage, SessionStage::Done);
    assert_eq!(check.session.as_ref().unwrap().access_token, "old-access");
}

#[test]
fn expiring_session_is_refreshed_then_saved() {
    let mut check = SessionCheck::new();
    assert_eq!(check.step(SessionEvent::Loaded { session: session(1_060, "r"), now: 1_000 }), SessionStage::Refresh);
    assert_eq!(check.step(SessionEvent::Saved), SessionStage::Refresh);
    let mut fresh = session(5_000, "r2");
    fresh.access_token = "new-access".to_string();
    assert_eq!(check.step(SessionEvent::Refreshed(fresh)), SessionStage::Save);
    assert_eq!(check.step(SessionEvent::Saved), SessionStage::Done);
    assert_eq!(check.session.as_ref().unwrap().access_token, "new-access");
}

#[test]
fn missing_session_is_reported() {
    let mut check = SessionCheck::new();
    assert_eq!(check.step(SessionEvent::LoadFailed), SessionStage::NoSession);
    assert!(check.session.is_none());
    assert_eq!(check.step(SessionEvent::Saved), SessionStage::NoSession);
}

use base64::Engine;
use fieldmid::auth::{
    apply_org, apply_profile, apply_site, classify_auth_error, count_unique_sites, decode_jwt_exp,
    decode_jwt_role, decision_failure, format_role, generate_verification_code, gethostname, hostname_or_unknown,
    http_auth_failure, join_request_displays, login_session_failure, needs_site_choice, CONSUME_FAILED,
    login_timed_out, poll_action, prints_progress_dot, resolve_role, role_option_label, role_options,
    session_from_consumed, session_from_grant, sole_org, split_on, AuthErrorBody, AuthGrant,
    ConsumeError, ConsumedLogin, JoinRequestInfo, LoginFailure, OrgInfo, OrgUserProfile, PollAction,
    PollResponse, SiteInfo, UserProfile, ERR_BROWSER_TIMEOUT, ERR_EMAIL_NOT_VERIFIED,
    ERR_INVALID_CREDENTIALS, ERR_TOO_MANY_REQUESTS, ERR_USER_NOT_FOUND,
};
use fieldmid::session::Session;

fn token_with_claims(claims: &str) -> String {
    let enc = base64::engine::general_purpose::URL_SAFE_NO_PAD;
    format!("{}.{}.{}", enc.encode("{\"alg\":\"HS256\"}"), enc.encode(claims), "sig")
}

fn blank_session() -> Session {
    Session {
        access_token: "a".to_string(),
        refresh_token: "r".to_string(),
        expires_at: 100,
        user_id: "u1".to_string(),
        email: "e@x.io".to_string(),
        role: "field_worker".to_string(),
        full_name: None,
        org_id: None,
        org_name: None,
        site_id: None,
        site_name: None,
        supabase_url: "https://s".to_string(),
        supabase_anon_key: "k".to_string(),
    }
}

#[test]
fn classify_recognizes_known_causes_in_any_case() {
    assert_eq!(classify_auth_error("Invalid login credentials", 400), ERR_INVALID_CREDENTIALS);
    assert_eq!(classify_auth_error("INVALID PASSWORD", 400), ERR_INVALID_CREDENTIALS);
    assert_eq!(classify_auth_error("User not found", 400), ERR_USER_NOT_FOUND);
    assert_eq!(classify_auth_error("Email not confirmed", 400), ERR_EMAIL_NOT_VERIFIED);
    assert_eq!(classify_auth_error("Too Many Requests", 400), ERR_TOO_MANY_REQUESTS);
    assert_eq!(classify_auth_error("slow down", 429), ERR_TOO_MANY_REQUESTS);
}

#[test]
fn classify_falls_back_to_the_message() {
    assert_eq!(
        classify_auth_error("Database exploded", 500),
        "\x1b[31m✗ Authentication failed\x1b[0m\n\n  Database exploded"
    );
}

#[test]
fn error_body_prefers_the_description() {
    let body = AuthErrorBody {
        error: Some("invalid_grant".to_string()),
        error_description: Some("Invalid login credentials".to_string()),
        msg: Some("m".to_string()),
        message: None,
    };
    assert_eq!(body.best_message(), "Invalid login credentials");
    let body = AuthErrorBody { error: Some("invalid_grant".to_string()), error_description: None, msg: None, message: None };
    assert_eq!(body.best_message(), "invalid_grant");
    let body = AuthErrorBody { error: None, error_description: None, msg: None, message: None };
    assert_eq!(body.best_message(), "unknown error");
}

#[test]
fn split_matches_str_split() {
    for s in ["a.b.c", "", "..", "no-dots", "x.y"] {
        let expected: Vec<String> = s.split('.').map(|p| p.to_string()).collect();
        assert_eq!(split_on(s, '.'), expected);
    }
}

#[test]
fn jwt_role_from_user_metadata_then_app_metadata() {
    let t = token_with_claims(r#"{"user_metadata":{"role":"supervisor"},"app_metadata":{"role":"admin"}}"#);
    assert_eq!(decode_jwt_role(&t), Some("supervisor".to_string()));
    let t = token_with_claims(r#"{"user_metadata":{"role":7},"app_metadata":{"role":"admin"}}"#);
    assert_eq!(decode_jwt_role(&t), Some("admin".to_string()));
    let t = token_with_claims(r#"{"sub":"x"}"#);
    assert_eq!(decode_jwt_role(&t), None);
}

#[test]
fn jwt_needs_three_parts_and_valid_payload() {
    assert_eq!(decode_jwt_role("only.two"), None);
    assert_eq!(decode_jwt_role("a.b.c.d"), None);
    assert_eq!(decode_jwt_role("x.!!!.y"), None);
    assert_eq!(decode_jwt_exp("x.bm90IGpzb24.y"), None);
}

#[test]
fn jwt_expiry() {
    let t = token_with_claims(r#"{"exp":1893456000}"#);
    assert_eq!(decode_jwt_exp(&t), Some(1893456000));
    let t = token_with_claims(r#"{"exp":"soon"}"#);
    assert_eq!(decode_jwt_exp(&t), None);
}

#[test]
fn role_resolution_order() {
    let meta: Option<serde_json::Value> = Some(serde_json::from_str(r#"{"role": "admin"}"#).unwrap());
    assert_eq!(resolve_role(&meta, "not-a-token"), "admin");
    let t = token_with_claims(r#"{"app_metadata":{"role":"supervisor"}}"#);
    assert_eq!(resolve_role(&None, &t), "supervisor");
    assert_eq!(resolve_role(&None, "garbage"), "field_worker");
}

#[test]
fn session_from_password_grant() {
    let grant = AuthGrant {
        access_token: "garbage".to_string(),
        refresh_token: "rt".to_string(),
        expires_in: 3600,
        user_id: "u9".to_string(),
        email: None,
        user_metadata: Some(serde_json::from_str(r#"{"name": "Ada", "role": "supervisor"}"#).unwrap()),
    };
    let s = session_from_grant(&grant, "https://s", "k", 1000);
    assert_eq!(s.expires_at, 4600);
    assert_eq!(s.email, "");
    assert_eq!(s.role, "supervisor");
    assert_eq!(s.full_name.as_deref(), Some("Ada"));
    assert_eq!(s.refresh_token, "rt");
    assert!(s.org_id.is_none() && s.site_id.is_none());
}

#[test]
fn session_from_browser_login() {
    let t = token_with_claims(r#"{"exp":5000}"#);
    let consumed = ConsumedLogin {
        access_token: Some(t.clone()),
        user_id: Some("u1".to_string()),
        user_email: None,
        user_metadata: None,
    };
    let s = session_from_consumed(&consumed, "https://s", "k", 10).unwrap();
    assert_eq!(s.expires_at, 5000);
    assert_eq!(s.refresh_token, "");
    assert_eq!(s.role, "field_worker");
    assert_eq!(s.access_token, t);
    let consumed = ConsumedLogin { access_token: Some("opaque".to_string()), user_id: None, user_email: None, user_metadata: None };
    assert_eq!(session_from_consumed(&consumed, "u", "k", 10).unwrap().expires_at, 3610);
}

#[test]
fn browser_login_without_token_fails() {
    let consumed = ConsumedLogin { access_token: None, user_id: None, user_email: None, user_metadata: None };
    let err = session_from_consumed(&consumed, "u", "k", 0).unwrap_err();
    assert_eq!(err, ConsumeError::MissingAccessToken);
    assert_eq!(err.message(), "Server did not return an access token");
}

#[test]
fn polling_decisions() {
    assert!(matches!(poll_action(PollResponse::Status("authorized".to_string())), PollAction::Authorized));
    assert!(matches!(poll_action(PollResponse::Status("pending".to_string())), PollAction::KeepWaiting));
    assert!(matches!(poll_action(PollResponse::Unreachable), PollAction::KeepWaiting));
    assert!(matches!(poll_action(PollResponse::HttpFailure), PollAction::KeepWaiting));
    assert!(matches!(poll_action(PollResponse::Unreadable), PollAction::KeepWaiting));
    match poll_action(PollResponse::Status("expired".to_string())) {
        PollAction::Fail(f) => assert_eq!(f.message(), ERR_BROWSER_TIMEOUT),
        _ => panic!("expired must fail"),
    }
    match poll_action(PollResponse::Status("weird".to_string())) {
        PollAction::Fail(f) => assert_eq!(f.message(), "Unexpected session status: weird"),
        _ => panic!("unknown status must fail"),
    }
    assert_eq!(LoginFailure::TimedOut.message(), ERR_BROWSER_TIMEOUT);
}

#[test]
fn login_timeout_and_progress() {
    assert!(!login_timed_out(600_000));
    assert!(login_timed_out(600_001));
    assert!(prints_progress_dot(3));
    assert!(!prints_progress_dot(4));
}

#[test]
fn profile_and_choices_update_the_session() {
    let mut s = blank_session();
    let profile = UserProfile {
        id: "u1".to_string(),
        email: None,
        full_name: Some("Grace".to_string()),
        role: Some("admin".to_string()),
        org_id: None,
        site_id: None,
        membership_status: None,
    };
    apply_profile(&mut s, &profile);
    assert_eq!(s.role, "admin");
    assert_eq!(s.full_name.as_deref(), Some("Grace"));
    assert!(s.org_id.is_none());
    let orgs = vec![OrgInfo { id: "o1".to_string(), name: "Acme".to_string(), industry: None }];
    assert_eq!(sole_org(&orgs), Some(0));
    apply_org(&mut s, &orgs[0]);
    assert_eq!(s.org_name.as_deref(), Some("Acme"));
    let site = SiteInfo { id: "s1".to_string(), name: "North Pit".to_string(), location: None, site_type: None, org_id: "o1".to_string() };
    apply_site(&mut s, &site);
    assert_eq!(s.site_id.as_deref(), Some("s1"));
    assert_eq!(s.site_name.as_deref(), Some("North Pit"));
    assert_eq!(sole_org(&vec![orgs[0].clone(), orgs[0].clone()]), None);
    assert_eq!(sole_org(&Vec::new()), None);
}

#[test]
fn role_menu() {
    assert_eq!(role_options("admin"), vec!["admin".to_string(), "supervisor".to_string()]);
    assert_eq!(role_options("supervisor"), vec!["supervisor".to_string()]);
    assert_eq!(role_options("guest"), vec!["field_worker".to_string()]);
    assert_eq!(role_option_label("admin"), "Org Admin (full overview of all incidents)");
    assert_eq!(role_option_label("x"), "Field Worker");
    assert_eq!(format_role("admin"), "\x1b[35madmin\x1b[0m");
    assert_eq!(format_role("auditor"), "auditor");
}

#[test]
fn join_requests_are_shown_with_profiles() {
    let requests = vec![
        JoinRequestInfo { id: "r1".to_string(), requester_user_id: "u1".to_string(), requested_role: None, status: None, message: None, created_at: Some("2024-01-01".to_string()) },
        JoinRequestInfo { id: "r2".to_string(), requester_user_id: "u2".to_string(), requested_role: Some("supervisor".to_string()), status: Some("approved".to_string()), message: None, created_at: None },
        JoinRequestInfo { id: "r3".to_string(), requester_user_id: "u3".to_string(), requested_role: None, status: None, message: None, created_at: None },
    ];
    let profiles = vec![
        OrgUserProfile { id: "u1".to_string(), full_name: Some("  ".to_string()), email: Some("a@x.io".to_string()), role: None, membership_status: None },
        OrgUserProfile { id: "u2".to_string(), full_name: Some("Old".to_string()), email: None, role: None, membership_status: None },
        OrgUserProfile { id: "u2".to_string(), full_name: Some("Bea".to_string()), email: None, role: None, membership_status: None },
    ];
    let d = join_request_displays(&requests, &profiles);
    assert_eq!(d.len(), 3);
    assert_eq!((d[0].name.as_str(), d[0].email.as_str()), ("a@x.io", "a@x.io"));
    assert_eq!((d[0].requested_role.as_str(), d[0].status.as_str()), ("field_worker", "pending"));
    assert_eq!(d[0].created_at.as_deref(), Some("2024-01-01"));
    assert_eq!((d[1].name.as_str(), d[1].email.as_str()), ("Bea", "No email"));
    assert_eq!((d[1].requested_role.as_str(), d[1].status.as_str()), ("supervisor", "approved"));
    assert_eq!((d[2].name.as_str(), d[2].email.as_str()), ("Unknown", "No email"));
}

#[test]
fn unique_site_count() {
    let ids = vec![Some("s1".to_string()), None, Some("s2".to_string()), Some("s1".to_string())];
    assert_eq!(count_unique_sites(&ids), 2);
    assert_eq!(count_unique_sites(&Vec::new()), 0);
    assert_eq!(count_unique_sites(&vec![None, None]), 0);
}

#[test]
fn verification_code_is_eight_hex_digits() {
    let code = generate_verification_code().unwrap();
    assert_eq!(code.len(), 8);
    assert!(code.chars().all(|c| c.is_ascii_digit() || ('a'..='f').contains(&c)));
}

#[test]
fn hostname_is_never_empty_text() {
    let h = gethostname();
    assert!(!h.is_empty());
}


#[test]
fn hostname_falls_back_to_unknown() {
    assert_eq!(hostname_or_unknown(Some("edge-gw".to_string())), "edge-gw");
    assert_eq!(hostname_or_unknown(None), "unknown");
}

#[test]
fn failure_texts() {
    assert_eq!(
        http_auth_failure("400 Bad Request", "{\"x\":1}"),
        "\x1b[31m✗ Authentication failed\x1b[0m (HTTP 400 Bad Request)\n\n  {\"x\":1}"
    );
    assert_eq!(login_session_failure("boom"), "Failed to initiate login session: boom");
    assert_eq!(CONSUME_FAILED, "Failed to retrieve login credentials. Please try again.");
    assert_eq!(decision_failure("approve", "denied"), "Failed to approve request: denied");
}

#[test]
fn only_supervisors_choose_a_site() {
    assert!(needs_site_choice("supervisor"));
    assert!(!needs_site_choice("admin"));
    assert!(!needs_site_choice("field_worker"));
    assert!(!needs_site_choice("Supervisor"));
}

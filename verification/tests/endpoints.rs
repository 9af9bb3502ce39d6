use fieldmid::endpoints::{
    bearer, cli_auth_consume_url, cli_session_body, decision_body, password_grant_body, refresh_grant_body, cli_auth_create_url, cli_auth_status_url, cli_login_url,
    cli_token_name, decide_join_request_url, join_requests_url, org_users_url, organizations_url,
    password_grant_url, refresh_grant_url, requester_profile_url, sites_url, supervisor_sites_url,
    user_profile_url,
};

const S: &str = "https://p.supabase.co";

#[test]
fn browser_login_endpoints() {
    assert_eq!(cli_auth_create_url(S), "https://p.supabase.co/functions/v1/cli-auth?action=create");
    assert_eq!(cli_login_url("http://localhost:3000", "abc"), "http://localhost:3000/auth/cli-login?session_id=abc");
    assert_eq!(cli_auth_status_url(S, "abc"), "https://p.supabase.co/functions/v1/cli-auth?action=status&session_id=abc");
    assert_eq!(cli_auth_consume_url(S, "abc"), "https://p.supabase.co/functions/v1/cli-auth?action=consume&session_id=abc");
    assert_eq!(cli_token_name("rig", 1700000000), "cli_rig_1700000000");
    assert_eq!(cli_token_name("rig", -5), "cli_rig_-5");
}

#[test]
fn auth_and_rest_endpoints() {
    assert_eq!(password_grant_url(S), "https://p.supabase.co/auth/v1/token?grant_type=password");
    assert_eq!(refresh_grant_url(S), "https://p.supabase.co/auth/v1/token?grant_type=refresh_token");
    assert_eq!(user_profile_url(S, "u1"), "https://p.supabase.co/rest/v1/user_profiles?id=eq.u1&select=*");
    assert_eq!(organizations_url(S), "https://p.supabase.co/rest/v1/organizations?select=id,name,industry");
    assert_eq!(org_users_url(S, "o1"), "https://p.supabase.co/rest/v1/user_profiles?org_id=eq.o1&select=id,full_name,email,role,membership_status");
    assert_eq!(
        join_requests_url(S, "o1"),
        "https://p.supabase.co/rest/v1/org_join_requests?org_id=eq.o1&status=neq.cancelled&select=id,requester_user_id,requested_role,status,message,created_at&order=created_at.desc"
    );
    assert_eq!(requester_profile_url(S, "u2"), "https://p.supabase.co/rest/v1/user_profiles?id=eq.u2&select=id,full_name,email");
    assert_eq!(decide_join_request_url(S), "https://p.supabase.co/rest/v1/rpc/decide_org_join_request");
    assert_eq!(supervisor_sites_url(S, "u1"), "https://p.supabase.co/rest/v1/supervisors?select=site_id&user_id=eq.u1");
    assert_eq!(bearer("tok"), "Bearer tok");
}

#[test]
fn sites_endpoint_filters_by_org_when_known() {
    assert_eq!(sites_url(S, None), "https://p.supabase.co/rest/v1/sites?select=id,name,location,site_type,org_id&active=eq.true");
    assert_eq!(sites_url(S, Some("o1")), "https://p.supabase.co/rest/v1/sites?select=id,name,location,site_type,org_id&active=eq.true&org_id=eq.o1");
}

#[test]
fn decision_body_is_json() {
    assert_eq!(decision_body("req-1", "approve"), "{\"p_decision\":\"approve\",\"p_request_id\":\"req-1\"}");
    assert_eq!(decision_body("a\"b", "re\\ject"), "{\"p_decision\":\"re\\\\ject\",\"p_request_id\":\"a\\\"b\"}");
    assert_eq!(decision_body("x\u{1}y\n", "é"), "{\"p_decision\":\"é\",\"p_request_id\":\"x\\u0001y\\n\"}");
    let v: serde_json::Value = serde_json::from_str(&decision_body("a\"b\u{7f}", "reject")).unwrap();
    assert_eq!(v["p_request_id"], "a\"b\u{7f}");
    assert_eq!(v["p_decision"], "reject");
    let expected = serde_json::to_string(&serde_json::Value::Object(
        [("p_request_id".to_string(), serde_json::Value::from("r\t9")), ("p_decision".to_string(), serde_json::Value::from("reject"))]
            .into_iter()
            .collect(),
    ))
    .unwrap();
    assert_eq!(decision_body("r\t9", "reject"), expected);
}

#[test]
fn login_bodies_are_json() {
    assert_eq!(
        cli_session_body("sid-1", "0a1b2c3d", "fieldmid-cli edge01 1700000000"),
        "{\"session_id\":\"sid-1\",\"token_name\":\"fieldmid-cli edge01 1700000000\",\"verification_code\":\"0a1b2c3d\"}"
    );
    assert_eq!(password_grant_body("a@b.io", "p\"w\\d"), "{\"email\":\"a@b.io\",\"password\":\"p\\\"w\\\\d\"}");
    assert_eq!(refresh_grant_body("rt\u{8}"), "{\"refresh_token\":\"rt\\b\"}");
    let v: serde_json::Value = serde_json::from_str(&password_grant_body("é@x", "\u{1f}")).unwrap();
    assert_eq!(v["email"], "é@x");
    assert_eq!(v["password"], "\u{1f}");
}

//! The backend endpoints the daemon talks to, and what it sends them.

use vstd::prelude::*;
use crate::json::{json_quote, json_quoted};
use crate::text::{cat, cat3, i64_decimal, spec_signed_decimal};

verus! {

/// Concatenation of four string slices.
fn cat4(a: &str, b: &str, c: &str, d: &str) -> (res: String)
    ensures
        res@ == a@ + b@ + c@ + d@,
{
    let mut out = cat(a, b);
    out.append(c);
    out.append(d);
    out
}

/// Where a pending browser login is created.
pub fn cli_auth_create_url(supabase_url: &str) -> (res: String)
    ensures
        res@ == supabase_url@ + "/functions/v1/cli-auth?action=create"@,
{
    cat(supabase_url, "/functions/v1/cli-auth?action=create")
}

/// The dashboard page the user opens to authorize a browser login.
pub fn cli_login_url(dashboard_url: &str, session_id: &str) -> (res: String)
    ensures
        res@ == dashboard_url@ + "/auth/cli-login?session_id="@ + session_id@,
{
    cat3(dashboard_url, "/auth/cli-login?session_id=", session_id)
}

/// Where the status of a browser login is polled.
pub fn cli_auth_status_url(supabase_url: &str, session_id: &str) -> (res: String)
    ensures
        res@ == supabase_url@ + "/functions/v1/cli-auth?action=status&session_id="@ + session_id@,
{
    cat3(supabase_url, "/functions/v1/cli-auth?action=status&session_id=", session_id)
}

/// Where an authorized browser login is exchanged for tokens.
pub fn cli_auth_consume_url(supabase_url: &str, session_id: &str) -> (res: String)
    ensures
        res@ == supabase_url@ + "/functions/v1/cli-auth?action=consume&session_id="@ + session_id@,
{
    cat3(supabase_url, "/functions/v1/cli-auth?action=consume&session_id=", session_id)
}

/// Where email and password are exchanged for tokens.
pub fn password_grant_url(supabase_url: &str) -> (res: String)
    ensures
        res@ == supabase_url@ + "/auth/v1/token?grant_type=password"@,
{
    cat(supabase_url, "/auth/v1/token?grant_type=password")
}

/// Where a refresh token is exchanged for new tokens.
pub fn refresh_grant_url(supabase_url: &str) -> (res: String)
    ensures
        res@ == supabase_url@ + "/auth/v1/token?grant_type=refresh_token"@,
{
    cat(supabase_url, "/auth/v1/token?grant_type=refresh_token")
}

/// The profile row of one user.
pub fn user_profile_url(supabase_url: &str, user_id: &str) -> (res: String)
    ensures
        res@ == supabase_url@ + "/rest/v1/user_profiles?id=eq."@ + user_id@ + "&select=*"@,
{
    cat4(supabase_url, "/rest/v1/user_profiles?id=eq.", user_id, "&select=*")
}

/// The organizations visible to the user.
pub fn organizations_url(supabase_url: &str) -> (res: String)
    ensures
        res@ == supabase_url@ + "/rest/v1/organizations?select=id,name,industry"@,
{
    cat(supabase_url, "/rest/v1/organizations?select=id,name,industry")
}

/// The members of an organization.
pub fn org_users_url(supabase_url: &str, org_id: &str) -> (res: String)
    ensures
        res@ == supabase_url@ + "/rest/v1/user_profiles?org_id=eq."@ + org_id@ + "&select=id,full_name,email,role,membership_status"@,
{
    cat4(supabase_url, "/rest/v1/user_profiles?org_id=eq.", org_id, "&select=id,full_name,email,role,membership_status")
}

/// The join requests of an organization that are not cancelled, newest first.
pub fn join_requests_url(supabase_url: &str, org_id: &str) -> (res: String)
    ensures
        res@ == supabase_url@ + "/rest/v1/org_join_requests?org_id=eq."@ + org_id@ + "&status=neq.cancelled&select=id,requester_user_id,requested_role,status,message,created_at&order=created_at.desc"@,
{
    cat4(supabase_url, "/rest/v1/org_join_requests?org_id=eq.", org_id, "&status=neq.cancelled&select=id,requester_user_id,requested_role,status,message,created_at&order=created_at.desc")
}

/// The name and email of a requester.
pub fn requester_profile_url(supabase_url: &str, user_id: &str) -> (res: String)
    ensures
        res@ == supabase_url@ + "/rest/v1/user_profiles?id=eq."@ + user_id@ + "&select=id,full_name,email"@,
{
    cat4(supabase_url, "/rest/v1/user_profiles?id=eq.", user_id, "&select=id,full_name,email")
}

/// The procedure that approves or rejects a join request.
pub fn decide_join_request_url(supabase_url: &str) -> (res: String)
    ensures
        res@ == supabase_url@ + "/rest/v1/rpc/decide_org_join_request"@,
{
    cat(supabase_url, "/rest/v1/rpc/decide_org_join_request")
}

/// The site assignments of a supervisor.
pub fn supervisor_sites_url(supabase_url: &str, user_id: &str) -> (res: String)
    ensures
        res@ == supabase_url@ + "/rest/v1/supervisors?select=site_id&user_id=eq."@ + user_id@,
{
    cat3(supabase_url, "/rest/v1/supervisors?select=site_id&user_id=eq.", user_id)
}

/// The `Authorization` header value for an access token.
pub fn bearer(token: &str) -> (res: String)
    ensures
        res@ == "Bearer "@ + token@,
{
    cat("Bearer ", token)
}

/// The name of the token a browser login creates: the host and the Unix time.
pub fn cli_token_name(host: &str, timestamp: i64) -> (res: String)
    ensures
        res@ == "cli_"@ + host@ + "_"@ + spec_signed_decimal(timestamp as int),
{
    let t = i64_decimal(timestamp);
    cat4("cli_", host, "_", t.as_str())
}

/// The active sites, limited to the organization when there is one.
pub fn sites_url(supabase_url: &str, org_id: Option<&str>) -> (res: String)
    ensures
        res@ == supabase_url@ + "/rest/v1/sites?select=id,name,location,site_type,org_id&active=eq.true"@ + match org_id {
            Some(o) => "&org_id=eq."@ + o@,
            None => Seq::<char>::empty(),
        },
{
    let mut url = cat(supabase_url, "/rest/v1/sites?select=id,name,location,site_type,org_id&active=eq.true");
    if let Some(o) = org_id {
        url.append("&org_id=eq.");
        url.append(o);
    }
    url
}

/// The JSON body that opens a browser login session: a compact object with
/// the session id, the token name and the verification code, keys in sorted order.
pub fn cli_session_body(session_id: &str, verification_code: &str, token_name: &str) -> (res: String)
    ensures
        res@ == "{\"session_id\":"@ + json_quoted(session_id@) + ",\"token_name\":"@ + json_quoted(token_name@)
            + ",\"verification_code\":"@ + json_quoted(verification_code@) + "}"@,
{
    let s = json_quote(session_id);
    let t = json_quote(token_name);
    let v = json_quote(verification_code);
    let mut out = cat("{\"session_id\":", s.as_str());
    out.append(",\"token_name\":");
    out.append(t.as_str());
    out.append(",\"verification_code\":");
    out.append(v.as_str());
    out.append("}");
    out
}

/// The JSON body of a password sign-in: a compact object with the email and
/// the password.
pub fn password_grant_body(email: &str, password: &str) -> (res: String)
    ensures
        res@ == "{\"email\":"@ + json_quoted(email@) + ",\"password\":"@ + json_quoted(password@) + "}"@,
{
    let e = json_quote(email);
    let p = json_quote(password);
    let mut out = cat("{\"email\":", e.as_str());
    out.append(",\"password\":");
    out.append(p.as_str());
    out.append("}");
    out
}

/// The JSON body of a token refresh: a compact object with the refresh token.
pub fn refresh_grant_body(refresh_token: &str) -> (res: String)
    ensures
        res@ == "{\"refresh_token\":"@ + json_quoted(refresh_token@) + "}"@,
{
    let r = json_quote(refresh_token);
    let mut out = cat("{\"refresh_token\":", r.as_str());
    out.append("}");
    out
}

/// The JSON body of a join request decision: a compact object with the
/// decision and the request id, keys in sorted order.
pub fn decision_body(request_id: &str, decision: &str) -> (res: String)
    ensures
        res@ == "{\"p_decision\":"@ + json_quoted(decision@) + ",\"p_request_id\":"@ + json_quoted(request_id@) + "}"@,
{
    let d = json_quote(decision);
    let id = json_quote(request_id);
    let mut out = cat("{\"p_decision\":", d.as_str());
    out.append(",\"p_request_id\":");
    out.append(id.as_str());
    out.append("}");
    out
}

} // verus!

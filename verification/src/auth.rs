//! Authentication: records returned by the backend, error classification,
//! token decoding and the decisions of the login flows.

use base64::Engine;
use vstd::prelude::*;
use vstd::string::*;
use vstd::utf8::encode_utf8;
use crate::json::{json_as_i64, json_as_str, json_get, json_integer, json_member, json_parsed, json_text, parse_json};
use crate::config::system_hostname;
use crate::session::{copy_opt, Session};
use crate::text::{cat, chars_of, contains, is_blank, opt_view, owned, seq_contains, spec_trim, str_eq, string_of};

verus! {

/// An organization the user belongs to.
#[derive(Clone, Debug)]
pub struct OrgInfo {
    pub id: String,
    pub name: String,
    pub industry: Option<String>,
}

/// An active field site.
#[derive(Clone, Debug)]
pub struct SiteInfo {
    pub id: String,
    pub name: String,
    pub location: Option<String>,
    pub site_type: Option<String>,
    pub org_id: String,
}

/// The signed-in user's profile row.
#[derive(Clone, Debug)]
pub struct UserProfile {
    pub id: String,
    pub email: Option<String>,
    pub full_name: Option<String>,
    pub role: Option<String>,
    pub org_id: Option<String>,
    pub site_id: Option<String>,
    pub membership_status: Option<String>,
}

/// A member of the user's organization.
#[derive(Clone, Debug)]
pub struct OrgUserProfile {
    pub id: String,
    pub full_name: Option<String>,
    pub email: Option<String>,
    pub role: Option<String>,
    pub membership_status: Option<String>,
}

/// A join request as the CLI shows it.
#[derive(Clone, Debug)]
pub struct JoinRequestDisplay {
    pub id: String,
    pub name: String,
    pub email: String,
    pub requested_role: String,
    pub status: String,
    pub created_at: Option<String>,
}

/// Shown when no session is stored.
pub const ERR_NO_SESSION: &'static str = "\x1b[31m✗ Not logged in.\x1b[0m

  Run \x1b[1mfieldmid login\x1b[0m to authenticate.
  This opens your browser for secure sign-in — no password enters the terminal.";

/// Shown when the token has expired and cannot be refreshed.
pub const ERR_SESSION_EXPIRED: &'static str = "\x1b[33m⚠ Session expired.\x1b[0m

  Your authentication token has expired and could not be refreshed.
  Run \x1b[1mfieldmid login\x1b[0m to sign in again.";

/// Shown when the backend cannot be reached.
pub const ERR_NETWORK: &'static str = "\x1b[31m✗ Network error.\x1b[0m

  Could not reach FieldMid services. Please check:
    • Your internet connection is active
    • Firewall is not blocking outbound HTTPS
    • VPN/proxy settings are correct

  If the problem persists, check https://status.fieldmid.com";

/// Shown when no account exists for the email.
pub const ERR_USER_NOT_FOUND: &'static str = "\x1b[31m✗ Account not found.\x1b[0m

  No FieldMid account exists for this email.
  \x1b[1mTo create an account:\x1b[0m
    1. Visit your organization's FieldMid dashboard
    2. Click \x1b[1mCreate Account\x1b[0m
    3. Verify your email, then try \x1b[1mfieldmid login\x1b[0m again";

/// Shown when the email or password is wrong.
pub const ERR_INVALID_CREDENTIALS: &'static str = "\x1b[31m✗ Invalid credentials.\x1b[0m

  The email or password is incorrect.
  \x1b[2mForgot your password? Visit the FieldMid dashboard → Forgot Password\x1b[0m";

/// Shown when the account's email is not verified.
pub const ERR_EMAIL_NOT_VERIFIED: &'static str = "\x1b[33m⚠ Email not verified.\x1b[0m

  Your account exists but the email is not yet verified.
  Check your inbox for a verification link, then try again.
  \x1b[2mDidn't receive it? Sign in to the dashboard to resend.\x1b[0m";

/// Shown when the backend rate-limits login attempts.
pub const ERR_TOO_MANY_REQUESTS: &'static str = "\x1b[33m⚠ Too many attempts.\x1b[0m

  You've made too many login attempts. Please wait a minute and try again.";

/// Shown when the browser login does not complete in time.
pub const ERR_BROWSER_TIMEOUT: &'static str = "\x1b[33m⚠ Login timed out.\x1b[0m

  The browser login was not completed within 10 minutes.
  Run \x1b[1mfieldmid login\x1b[0m to try again.";

/// Shown before the login link when no browser could be opened.
pub const ERR_BROWSER_OPEN: &'static str = "\x1b[33m⚠ Could not open browser.\x1b[0m

  Please open this URL manually in your browser:";

/// The prefix of an authentication failure that matches no known cause.
pub const AUTH_FAILED_PREFIX: &'static str = "\x1b[31m✗ Authentication failed\x1b[0m\n\n  ";

/// What `str::to_lowercase` gives: the Unicode lower case of the text.
pub uninterp spec fn lowercased(s: Seq<char>) -> Seq<char>;

/// `str::to_lowercase`; the result is the name [`lowercased`] of the text.
#[verifier::external_body]
fn to_lowercase(s: &str) -> (res: String)
    ensures
        res@ == lowercased(s@),
{
    s.to_lowercase()
}

/// The user-facing text for an authentication failure, from the lower-cased
/// backend message, the message itself and the HTTP status.
pub open spec fn spec_classify(lower: Seq<char>, message: Seq<char>, status_code: u16) -> Seq<char> {
    if seq_contains(lower, "invalid login credentials"@) || seq_contains(lower, "invalid credentials"@)
        || seq_contains(lower, "invalid password"@) {
        ERR_INVALID_CREDENTIALS@
    } else if seq_contains(lower, "user not found"@) || seq_contains(lower, "no user found"@) {
        ERR_USER_NOT_FOUND@
    } else if seq_contains(lower, "email not confirmed"@) || seq_contains(lower, "email not verified"@) {
        ERR_EMAIL_NOT_VERIFIED@
    } else if seq_contains(lower, "too many requests"@) || status_code == 429 {
        ERR_TOO_MANY_REQUESTS@
    } else {
        AUTH_FAILED_PREFIX@ + message
    }
}

/// Chooses the user-facing text for an authentication failure, given the
/// backend message already in lower case.
pub fn classify_lowered_auth_error(lower: &str, message: &str, status_code: u16) -> (res: String)
    ensures
        res@ == spec_classify(lower@, message@, status_code),
{
    if contains(lower, "invalid login credentials") || contains(lower, "invalid credentials")
        || contains(lower, "invalid password") {
        return owned(ERR_INVALID_CREDENTIALS);
    }
    if contains(lower, "user not found") || contains(lower, "no user found") {
        return owned(ERR_USER_NOT_FOUND);
    }
    if contains(lower, "email not confirmed") || contains(lower, "email not verified") {
        return owned(ERR_EMAIL_NOT_VERIFIED);
    }
    if contains(lower, "too many requests") || status_code == 429 {
        return owned(ERR_TOO_MANY_REQUESTS);
    }
    cat(AUTH_FAILED_PREFIX, message)
}

/// The user-facing text for an authentication failure: known causes are
/// recognized in the backend message regardless of case.
pub fn classify_auth_error(message: &str, status_code: u16) -> (res: String)
    ensures
        res@ == spec_classify(lowercased(message@), message@, status_code),
{
    let lower = to_lowercase(message);
    classify_lowered_auth_error(lower.as_str(), message, status_code)
}

/// The backend error body of a refused login, as its optional fields.
#[derive(Clone, Debug)]
pub struct AuthErrorBody {
    pub error: Option<String>,
    pub error_description: Option<String>,
    pub msg: Option<String>,
    pub message: Option<String>,
}

/// The message of a refused login: the description, else `msg`, else
/// `message`, else `error`, else `unknown error`.
pub open spec fn spec_error_body_message(b: AuthErrorBody) -> Seq<char> {
    if b.error_description is Some {
        b.error_description->0@
    } else if b.msg is Some {
        b.msg->0@
    } else if b.message is Some {
        b.message->0@
    } else if b.error is Some {
        b.error->0@
    } else {
        "unknown error"@
    }
}

impl AuthErrorBody {
    /// The most specific message the body carries.
    pub fn best_message(&self) -> (res: String)
        ensures
            res@ == spec_error_body_message(*self),
    {
        if let Some(m) = &self.error_description {
            return owned(m.as_str());
        }
        if let Some(m) = &self.msg {
            return owned(m.as_str());
        }
        if let Some(m) = &self.message {
            return owned(m.as_str());
        }
        if let Some(m) = &self.error {
            return owned(m.as_str());
        }
        owned("unknown error")
    }
}

/// Splits `s` at every `sep`, `cur` being the part read so far (`str::split`).
pub open spec fn split_from(s: Seq<char>, sep: char, cur: Seq<char>) -> Seq<Seq<char>>
    decreases s.len(),
{
    if s.len() == 0 {
        seq![cur]
    } else if s[0] == sep {
        seq![cur] + split_from(s.drop_first(), sep, Seq::empty())
    } else {
        split_from(s.drop_first(), sep, cur.push(s[0]))
    }
}

/// The parts of `s` between occurrences of `sep`.
pub open spec fn spec_split(s: Seq<char>, sep: char) -> Seq<Seq<char>> {
    split_from(s, sep, Seq::empty())
}

/// Splits a string at every occurrence of `sep`.
pub fn split_on(s: &str, sep: char) -> (res: Vec<String>)
    ensures
        res@.map_values(|p: String| p@) == spec_split(s@, sep),
{
    let cs = chars_of(s);
    let n = cs.len();
    let mut parts: Vec<String> = Vec::new();
    let mut cur: Vec<char> = Vec::new();
    let mut i: usize = 0;
    assert(cs@.subrange(0, n as int) =~= cs@);
    assert(parts@.map_values(|p: String| p@) + split_from(cs@, sep, cur@) =~= spec_split(cs@, sep));
    while i < n
        invariant
            n == cs.len(),
            i <= n,
            cs@ == s@,
            parts@.map_values(|p: String| p@) + split_from(cs@.subrange(i as int, n as int), sep, cur@)
                == spec_split(s@, sep),
        decreases n - i,
    {
        let ghost rest = cs@.subrange(i as int, n as int);
        assert(rest.drop_first() =~= cs@.subrange(i + 1, n as int));
        let ghost before = parts@.map_values(|p: String| p@);
        if cs[i] == sep {
            let part = string_of(&cur);
            parts.push(part);
            cur = Vec::new();
            assert(parts@.map_values(|p: String| p@) =~= before + seq![part@]);
        } else {
            cur.push(cs[i]);
        }
        i = i + 1;
    }
    let last = string_of(&cur);
    let ghost before = parts@.map_values(|p: String| p@);
    parts.push(last);
    assert(cs@.subrange(n as int, n as int) =~= Seq::<char>::empty());
    assert(parts@.map_values(|p: String| p@) =~= before + seq![last@]);
    parts
}

/// What the base64 engine `URL_SAFE_NO_PAD` decodes from these bytes, if they are valid.
pub uninterp spec fn base64_url_decoded(input: Seq<u8>) -> Option<Seq<u8>>;

/// `base64::engine::general_purpose::URL_SAFE_NO_PAD.decode`; the result is
/// the name [`base64_url_decoded`] of the input, `None` where decoding fails.
#[verifier::external_body]
fn base64_url_decode(input: &[u8]) -> (res: Option<Vec<u8>>)
    ensures
        match res {
            Some(v) => base64_url_decoded(input@) == Some(v@),
            None => base64_url_decoded(input@) is None,
        },
{
    base64::engine::general_purpose::URL_SAFE_NO_PAD.decode(input).ok()
}

/// The claims of a JSON web token: its middle part, base64url-decoded and
/// parsed as JSON; a token that does not have exactly three parts has none.
pub open spec fn spec_jwt_claims(token: Seq<char>) -> Option<serde_json::Value> {
    let parts = spec_split(token, '.');
    if parts.len() != 3 {
        None
    } else {
        match base64_url_decoded(encode_utf8(parts[1])) {
            Some(bytes) => json_parsed(bytes),
            None => None,
        }
    }
}

/// Decodes the claims of a JSON web token (without checking its signature).
pub fn jwt_claims(token: &str) -> (res: Option<serde_json::Value>)
    ensures
        res == spec_jwt_claims(token@),
{
    let parts = split_on(token, '.');
    proof {
        assert(parts@.map_values(|p: String| p@).len() == parts@.len());
    }
    if parts.len() != 3 {
        return None;
    }
    let payload = parts[1].as_str();
    proof {
        assert(parts@.map_values(|p: String| p@)[1] == parts@[1]@);
    }
    let bytes = payload.as_bytes();
    match base64_url_decode(bytes) {
        Some(decoded) => parse_json(decoded.as_slice()),
        None => None,
    }
}

/// The text at `outer.inner` of a JSON value, if both members exist and it is a string.
pub open spec fn member_text(v: serde_json::Value, outer: Seq<char>, inner: Seq<char>) -> Option<Seq<char>> {
    match json_member(v, outer) {
        Some(m) => match json_member(m, inner) {
            Some(r) => json_text(r),
            None => None,
        },
        None => None,
    }
}

/// The role a token grants: `user_metadata.role`, else `app_metadata.role`.
pub open spec fn spec_role_from_claims(claims: serde_json::Value) -> Option<Seq<char>> {
    match member_text(claims, "user_metadata"@, "role"@) {
        Some(r) => Some(r),
        None => member_text(claims, "app_metadata"@, "role"@),
    }
}

fn member_string(v: &serde_json::Value, outer: &str, inner: &str) -> (res: Option<String>)
    ensures
        opt_view(res) == member_text(*v, outer@, inner@),
{
    match json_get(v, outer) {
        Some(m) => match json_get(&m, inner) {
            Some(r) => json_as_str(&r),
            None => None,
        },
        None => None,
    }
}

/// The role recorded in decoded token claims.
pub fn role_from_claims(claims: &serde_json::Value) -> (res: Option<String>)
    ensures
        opt_view(res) == spec_role_from_claims(*claims),
{
    match member_string(claims, "user_metadata", "role") {
        Some(r) => Some(r),
        None => member_string(claims, "app_metadata", "role"),
    }
}

/// The expiry (`exp`, Unix seconds) recorded in decoded token claims.
pub open spec fn spec_exp_from_claims(claims: serde_json::Value) -> Option<i64> {
    match json_member(claims, "exp"@) {
        Some(e) => json_integer(e),
        None => None,
    }
}

/// The expiry recorded in decoded token claims.
pub fn exp_from_claims(claims: &serde_json::Value) -> (res: Option<i64>)
    ensures
        res == spec_exp_from_claims(*claims),
{
    match json_get(claims, "exp") {
        Some(e) => json_as_i64(&e),
        None => None,
    }
}

/// The role a token grants, read from its claims.
pub fn decode_jwt_role(token: &str) -> (res: Option<String>)
    ensures
        opt_view(res) == match spec_jwt_claims(token@) {
            Some(c) => spec_role_from_claims(c),
            None => None,
        },
{
    match jwt_claims(token) {
        Some(c) => role_from_claims(&c),
        None => None,
    }
}

/// The expiry of a token, read from its claims.
pub fn decode_jwt_exp(token: &str) -> (res: Option<i64>)
    ensures
        res == match spec_jwt_claims(token@) {
            Some(c) => spec_exp_from_claims(c),
            None => None,
        },
{
    match jwt_claims(token) {
        Some(c) => exp_from_claims(&c),
        None => None,
    }
}

/// The role in a user's metadata (`role`), if it is a string.
pub open spec fn spec_metadata_role(meta: Option<serde_json::Value>) -> Option<Seq<char>> {
    match meta {
        Some(m) => match json_member(m, "role"@) {
            Some(r) => json_text(r),
            None => None,
        },
        None => None,
    }
}

/// The full name in a user's metadata: `full_name` if present, else `name`, if it is a string.
pub open spec fn spec_metadata_full_name(meta: Option<serde_json::Value>) -> Option<Seq<char>> {
    match meta {
        Some(m) => match json_member(m, "full_name"@) {
            Some(v) => json_text(v),
            None => match json_member(m, "name"@) {
                Some(v) => json_text(v),
                None => None,
            },
        },
        None => None,
    }
}

/// The role of a signed-in user: from the metadata, else from the access
/// token, else `field_worker`.
pub open spec fn spec_resolve_role(meta: Option<serde_json::Value>, access_token: Seq<char>) -> Seq<char> {
    match spec_metadata_role(meta) {
        Some(r) => r,
        None => match spec_jwt_claims(access_token) {
            Some(c) => match spec_role_from_claims(c) {
                Some(r) => r,
                None => "field_worker"@,
            },
            None => "field_worker"@,
        },
    }
}

/// The role in a user's metadata.
pub fn metadata_role(meta: &Option<serde_json::Value>) -> (res: Option<String>)
    ensures
        opt_view(res) == spec_metadata_role(*meta),
{
    match meta {
        Some(m) => match json_get(m, "role") {
            Some(r) => json_as_str(&r),
            None => None,
        },
        None => None,
    }
}

/// The full name in a user's metadata.
pub fn metadata_full_name(meta: &Option<serde_json::Value>) -> (res: Option<String>)
    ensures
        opt_view(res) == spec_metadata_full_name(*meta),
{
    match meta {
        Some(m) => match json_get(m, "full_name") {
            Some(v) => json_as_str(&v),
            None => match json_get(m, "name") {
                Some(v) => json_as_str(&v),
                None => None,
            },
        },
        None => None,
    }
}

/// The full name taken from a user's metadata: the `full_name` member when
/// there is one (its text, if it is a string); the `name` member only when
/// `full_name` is absent; nothing without metadata.
pub proof fn lemma_metadata_full_name_prefers_full_name(meta: Option<serde_json::Value>)
    ensures
        meta is None ==> spec_metadata_full_name(meta) is None,
        meta matches Some(m) ==> match json_member(m, "full_name"@) {
            Some(v) => spec_metadata_full_name(meta) == json_text(v),
            None => spec_metadata_full_name(meta) == match json_member(m, "name"@) {
                Some(v) => json_text(v),
                None => None::<Seq<char>>,
            },
        },
{
}

/// A session made from a grant whose metadata holds a string `full_name`
/// carries that name, whatever `name` holds.
pub proof fn lemma_grant_full_name(s: Session, grant: AuthGrant, m: serde_json::Value, v: serde_json::Value, t: Seq<char>)
    requires
        opt_view(s.full_name) == spec_metadata_full_name(grant.user_metadata),
        grant.user_metadata == Some(m),
        json_member(m, "full_name"@) == Some(v),
        json_text(v) == Some(t),
    ensures
        opt_view(s.full_name) == Some(t),
{
    lemma_metadata_full_name_prefers_full_name(grant.user_metadata);
}

/// The role of a signed-in user: a string `role` in the metadata wins; without
/// one, the role claim of the access token; without either, `field_worker`.
pub proof fn lemma_resolved_role(meta: Option<serde_json::Value>, access_token: Seq<char>)
    ensures
        (meta matches Some(m) && json_member(m, "role"@) matches Some(v) && json_text(v) is Some)
            ==> spec_resolve_role(meta, access_token) == json_text(json_member(meta->0, "role"@)->0)->0,
        spec_metadata_role(meta) is None && (spec_jwt_claims(access_token) matches Some(c) && spec_role_from_claims(c) is Some)
            ==> spec_resolve_role(meta, access_token) == spec_role_from_claims(spec_jwt_claims(access_token)->0)->0,
        spec_metadata_role(meta) is None && (spec_jwt_claims(access_token) is None
            || spec_role_from_claims(spec_jwt_claims(access_token)->0) is None)
            ==> spec_resolve_role(meta, access_token) == "field_worker"@,
{
}

/// The role of a signed-in user, from metadata and access token.
pub fn resolve_role(meta: &Option<serde_json::Value>, access_token: &str) -> (res: String)
    ensures
        res@ == spec_resolve_role(*meta, access_token@),
{
    match metadata_role(meta) {
        Some(r) => r,
        None => match decode_jwt_role(access_token) {
            Some(r) => r,
            None => owned("field_worker"),
        },
    }
}

/// A successful password or refresh grant from the auth backend.
#[derive(Clone, Debug)]
pub struct AuthGrant {
    pub access_token: String,
    pub refresh_token: String,
    pub expires_in: i64,
    pub user_id: String,
    pub email: Option<String>,
    pub user_metadata: Option<serde_json::Value>,
}

/// `value`, or the empty text when absent.
pub open spec fn or_empty(value: Option<Seq<char>>) -> Seq<char> {
    match value {
        Some(v) => v,
        None => Seq::empty(),
    }
}

/// A fresh session has no organization or site chosen yet.
pub open spec fn no_org_or_site(s: Session) -> bool {
    &&& s.org_id is None
    &&& s.org_name is None
    &&& s.site_id is None
    &&& s.site_name is None
}

fn text_or_empty(value: &Option<String>) -> (res: String)
    ensures
        res@ == or_empty(opt_view(*value)),
{
    match value {
        Some(v) => owned(v.as_str()),
        None => String::new(),
    }
}

/// The session opened by a password grant received at Unix time `now`.
pub fn session_from_grant(grant: &AuthGrant, supabase_url: &str, anon_key: &str, now: i64) -> (res: Session)
    requires
        i64::MIN <= now + grant.expires_in <= i64::MAX,
    ensures
        res.access_token@ == grant.access_token@,
        res.refresh_token@ == grant.refresh_token@,
        res.expires_at == now + grant.expires_in,
        res.user_id@ == grant.user_id@,
        res.email@ == or_empty(opt_view(grant.email)),
        res.role@ == spec_resolve_role(grant.user_metadata, grant.access_token@),
        opt_view(res.full_name) == spec_metadata_full_name(grant.user_metadata),
        no_org_or_site(res),
        res.supabase_url@ == supabase_url@,
        res.supabase_anon_key@ == anon_key@,
{
    let role = resolve_role(&grant.user_metadata, grant.access_token.as_str());
    let full_name = metadata_full_name(&grant.user_metadata);
    Session {
        access_token: owned(grant.access_token.as_str()),
        refresh_token: owned(grant.refresh_token.as_str()),
        expires_at: now + grant.expires_in,
        user_id: owned(grant.user_id.as_str()),
        email: text_or_empty(&grant.email),
        role,
        full_name,
        org_id: None,
        org_name: None,
        site_id: None,
        site_name: None,
        supabase_url: owned(supabase_url),
        supabase_anon_key: owned(anon_key),
    }
}

/// Seconds a browser-issued token is assumed to live when it states no expiry.
pub const DEFAULT_TOKEN_LIFETIME_SECS: i64 = 3600;

/// What the CLI auth endpoint hands over when a browser login is consumed.
#[derive(Clone, Debug)]
pub struct ConsumedLogin {
    pub access_token: Option<String>,
    pub user_id: Option<String>,
    pub user_email: Option<String>,
    pub user_metadata: Option<serde_json::Value>,
}

/// Why a browser login could not be turned into a session.
#[derive(Clone, Copy, Debug, PartialEq, Eq, Structural)]
pub enum ConsumeError {
    /// The backend answered without an access token.
    MissingAccessToken,
}

impl ConsumeError {
    /// The text shown to the user.
    pub fn message(&self) -> (res: &'static str)
        ensures
            res@ == "Server did not return an access token"@,
    {
        "Server did not return an access token"
    }
}

/// The expiry of a browser-issued token: the one it states, else an hour after `now`.
pub open spec fn spec_browser_expiry(access_token: Seq<char>, now: int) -> int {
    match spec_jwt_claims(access_token) {
        Some(c) => match spec_exp_from_claims(c) {
            Some(e) => e as int,
            None => now + 3600,
        },
        None => now + 3600,
    }
}

/// The session opened by a consumed browser login at Unix time `now`; it
/// carries no refresh token. Fails exactly when no access token came back.
pub fn session_from_consumed(consumed: &ConsumedLogin, supabase_url: &str, anon_key: &str, now: i64) -> (res: Result<Session, ConsumeError>)
    requires
        now <= i64::MAX - 3600,
    ensures
        consumed.access_token is None <==> res is Err,
        res matches Ok(s) ==> {
            &&& s.access_token@ == consumed.access_token->0@
            &&& s.refresh_token@ == Seq::<char>::empty()
            &&& s.expires_at == spec_browser_expiry(s.access_token@, now as int)
            &&& s.user_id@ == or_empty(opt_view(consumed.user_id))
            &&& s.email@ == or_empty(opt_view(consumed.user_email))
            &&& s.role@ == spec_resolve_role(consumed.user_metadata, s.access_token@)
            &&& opt_view(s.full_name) == spec_metadata_full_name(consumed.user_metadata)
            &&& no_org_or_site(s)
            &&& s.supabase_url@ == supabase_url@
            &&& s.supabase_anon_key@ == anon_key@
        },
{
    let access_token = match &consumed.access_token {
        Some(t) => owned(t.as_str()),
        None => return Err(ConsumeError::MissingAccessToken),
    };
    let role = resolve_role(&consumed.user_metadata, access_token.as_str());
    let full_name = metadata_full_name(&consumed.user_metadata);
    let expires_at = match decode_jwt_exp(access_token.as_str()) {
        Some(e) => e,
        None => now + DEFAULT_TOKEN_LIFETIME_SECS,
    };
    Ok(Session {
        access_token,
        refresh_token: String::new(),
        expires_at,
        user_id: text_or_empty(&consumed.user_id),
        email: text_or_empty(&consumed.user_email),
        role,
        full_name,
        org_id: None,
        org_name: None,
        site_id: None,
        site_name: None,
        supabase_url: owned(supabase_url),
        supabase_anon_key: owned(anon_key),
    })
}

/// Longest wait for a browser login, in milliseconds.
pub const BROWSER_LOGIN_TIMEOUT_MS: u64 = 600000;

/// Pause between two polls of the login status, in seconds.
pub const POLL_INTERVAL_SECS: u64 = 2;

/// Whether a browser login that has waited `elapsed_ms` has timed out.
pub fn login_timed_out(elapsed_ms: u64) -> (res: bool)
    ensures
        res == (elapsed_ms > 600000),
{
    elapsed_ms > BROWSER_LOGIN_TIMEOUT_MS
}

/// Whether the waiting indicator prints a dot after poll number `polls`: every third poll.
pub fn prints_progress_dot(polls: u64) -> (res: bool)
    ensures
        res == (polls % 3 == 0),
{
    polls % 3 == 0
}

/// What one poll of the login status brought back.
#[derive(Clone, Debug)]
pub enum PollResponse {
    /// The request could not be sent.
    Unreachable,
    /// The backend answered with a failure status.
    HttpFailure,
    /// The answer was not a status document.
    Unreadable,
    /// The status the backend reported.
    Status(String),
}

/// Why a browser login ended without authorization.
#[derive(Clone, Debug)]
pub enum LoginFailure {
    /// The login expired or was not completed in time.
    TimedOut,
    /// The backend reported a status the CLI does not know.
    UnexpectedStatus(String),
}

impl LoginFailure {
    /// The text shown to the user.
    pub fn message(&self) -> (res: String)
        ensures
            res@ == match *self {
                LoginFailure::TimedOut => ERR_BROWSER_TIMEOUT@,
                LoginFailure::UnexpectedStatus(s) => "Unexpected session status: "@ + s@,
            },
    {
        match self {
            LoginFailure::TimedOut => owned(ERR_BROWSER_TIMEOUT),
            LoginFailure::UnexpectedStatus(s) => cat("Unexpected session status: ", s.as_str()),
        }
    }
}

/// What the login flow does after a poll.
#[derive(Clone, Debug)]
pub enum PollAction {
    /// Poll again after the interval.
    KeepWaiting,
    /// The browser authorized this device: collect the tokens.
    Authorized,
    /// Stop with this failure.
    Fail(LoginFailure),
}

/// The action after a poll: transport problems and `pending` keep waiting,
/// `authorized` finishes, `expired` times out, any other status fails.
pub open spec fn spec_poll_action(resp: PollResponse) -> PollAction {
    match resp {
        PollResponse::Status(s) => if s@ == "authorized"@ {
            PollAction::Authorized
        } else if s@ == "expired"@ {
            PollAction::Fail(LoginFailure::TimedOut)
        } else if s@ == "pending"@ {
            PollAction::KeepWaiting
        } else {
            PollAction::Fail(LoginFailure::UnexpectedStatus(s))
        },
        _ => PollAction::KeepWaiting,
    }
}

/// Decides what the login flow does after a poll.
pub fn poll_action(resp: PollResponse) -> (res: PollAction)
    ensures
        res == spec_poll_action(resp),
{
    match resp {
        PollResponse::Status(s) => {
            if str_eq(s.as_str(), "authorized") {
                PollAction::Authorized
            } else if str_eq(s.as_str(), "expired") {
                PollAction::Fail(LoginFailure::TimedOut)
            } else if str_eq(s.as_str(), "pending") {
                PollAction::KeepWaiting
            } else {
                PollAction::Fail(LoginFailure::UnexpectedStatus(s))
            }
        },
        _ => PollAction::KeepWaiting,
    }
}

/// A network problem during polling never ends the login: the flow retries.
pub proof fn lemma_transport_problems_are_retried(resp: PollResponse)
    requires
        !(resp is Status),
    ensures
        spec_poll_action(resp) is KeepWaiting,
{
}

/// The session after the user's profile is loaded: the profile's role,
/// organization and name replace the session's where the profile has them.
pub fn apply_profile(session: &mut Session, profile: &UserProfile)
    ensures
        final(session).role@ == match profile.role {
            Some(r) => r@,
            None => old(session).role@,
        },
        opt_view(final(session).org_id) == match profile.org_id {
            Some(o) => Some(o@),
            None => opt_view(old(session).org_id),
        },
        opt_view(final(session).full_name) == match profile.full_name {
            Some(n) => Some(n@),
            None => opt_view(old(session).full_name),
        },
        final(session).access_token@ == old(session).access_token@,
        final(session).refresh_token@ == old(session).refresh_token@,
        final(session).expires_at == old(session).expires_at,
        final(session).user_id@ == old(session).user_id@,
        final(session).email@ == old(session).email@,
        opt_view(final(session).org_name) == opt_view(old(session).org_name),
        opt_view(final(session).site_id) == opt_view(old(session).site_id),
        opt_view(final(session).site_name) == opt_view(old(session).site_name),
        final(session).supabase_url@ == old(session).supabase_url@,
        final(session).supabase_anon_key@ == old(session).supabase_anon_key@,
{
    if let Some(role) = &profile.role {
        session.role = owned(role.as_str());
    }
    if let Some(org_id) = &profile.org_id {
        session.org_id = Some(owned(org_id.as_str()));
    }
    if let Some(name) = &profile.full_name {
        session.full_name = Some(owned(name.as_str()));
    }
}

/// The session after an organization is chosen: its id and name are recorded.
pub fn apply_org(session: &mut Session, org: &OrgInfo)
    ensures
        opt_view(final(session).org_id) == Some(org.id@),
        opt_view(final(session).org_name) == Some(org.name@),
        final(session).role@ == old(session).role@,
        opt_view(final(session).site_id) == opt_view(old(session).site_id),
        opt_view(final(session).site_name) == opt_view(old(session).site_name),
        final(session).access_token@ == old(session).access_token@,
        final(session).user_id@ == old(session).user_id@,
        final(session).refresh_token@ == old(session).refresh_token@,
        final(session).expires_at == old(session).expires_at,
        final(session).email@ == old(session).email@,
        opt_view(final(session).full_name) == opt_view(old(session).full_name),
        final(session).supabase_url@ == old(session).supabase_url@,
        final(session).supabase_anon_key@ == old(session).supabase_anon_key@,
{
    session.org_id = Some(owned(org.id.as_str()));
    session.org_name = Some(owned(org.name.as_str()));
}

/// The session after a site is chosen for monitoring: its id and name are recorded.
pub fn apply_site(session: &mut Session, site: &SiteInfo)
    ensures
        opt_view(final(session).site_id) == Some(site.id@),
        opt_view(final(session).site_name) == Some(site.name@),
        final(session).role@ == old(session).role@,
        opt_view(final(session).org_id) == opt_view(old(session).org_id),
        opt_view(final(session).org_name) == opt_view(old(session).org_name),
        final(session).access_token@ == old(session).access_token@,
        final(session).user_id@ == old(session).user_id@,
        final(session).refresh_token@ == old(session).refresh_token@,
        final(session).expires_at == old(session).expires_at,
        final(session).email@ == old(session).email@,
        opt_view(final(session).full_name) == opt_view(old(session).full_name),
        final(session).supabase_url@ == old(session).supabase_url@,
        final(session).supabase_anon_key@ == old(session).supabase_anon_key@,
{
    session.site_id = Some(owned(site.id.as_str()));
    session.site_name = Some(owned(site.name.as_str()));
}

/// The organization chosen without asking: the only one, when there is exactly one.
pub fn sole_org(orgs: &Vec<OrgInfo>) -> (res: Option<usize>)
    ensures
        res == (if orgs.len() == 1 { Some(0usize) } else { None::<usize> }),
{
    if orgs.len() == 1 {
        Some(0)
    } else {
        None
    }
}

/// The roles an edge device may run as, for the user's own role: an admin may
/// also act as supervisor; a supervisor only as supervisor; anyone else is a
/// field worker.
pub open spec fn spec_role_options(role: Seq<char>) -> Seq<Seq<char>> {
    if role == "admin"@ {
        seq!["admin"@, "supervisor"@]
    } else if role == "supervisor"@ {
        seq!["supervisor"@]
    } else {
        seq!["field_worker"@]
    }
}

/// The roles the user may choose between for this device.
pub fn role_options(role: &str) -> (res: Vec<String>)
    ensures
        res@.map_values(|r: String| r@) == spec_role_options(role@),
{
    let mut v: Vec<String> = Vec::new();
    if str_eq(role, "admin") {
        v.push(owned("admin"));
        v.push(owned("supervisor"));
    } else if str_eq(role, "supervisor") {
        v.push(owned("supervisor"));
    } else {
        v.push(owned("field_worker"));
    }
    assert(v@.map_values(|r: String| r@) =~= spec_role_options(role@));
    v
}

/// The description of a role in the role menu.
pub fn role_option_label(role: &str) -> (res: &'static str)
    ensures
        res@ == if role@ == "admin"@ {
            "Org Admin (full overview of all incidents)"@
        } else if role@ == "supervisor"@ {
            "Supervisor (site-specific incidents and escalations)"@
        } else {
            "Field Worker"@
        },
{
    if str_eq(role, "admin") {
        "Org Admin (full overview of all incidents)"
    } else if str_eq(role, "supervisor") {
        "Supervisor (site-specific incidents and escalations)"
    } else {
        "Field Worker"
    }
}

/// A role name coloured for the terminal; unknown roles are shown as they are.
pub open spec fn spec_format_role(role: Seq<char>) -> Seq<char> {
    if role == "admin"@ {
        "\x1b[35madmin\x1b[0m"@
    } else if role == "supervisor"@ {
        "\x1b[36msupervisor\x1b[0m"@
    } else if role == "field_worker"@ {
        "\x1b[34mfield_worker\x1b[0m"@
    } else {
        role
    }
}

/// Colours a role name for the terminal.
pub fn format_role(role: &str) -> (res: String)
    ensures
        res@ == spec_format_role(role@),
{
    if str_eq(role, "admin") {
        owned("\x1b[35madmin\x1b[0m")
    } else if str_eq(role, "supervisor") {
        owned("\x1b[36msupervisor\x1b[0m")
    } else if str_eq(role, "field_worker") {
        owned("\x1b[34mfield_worker\x1b[0m")
    } else {
        owned(role)
    }
}

/// The organization the session is scoped to, when it has a non-empty one.
pub fn org_scope(session: &Session) -> (res: Option<String>)
    ensures
        opt_view(res) == match session.org_id {
            Some(o) => if o@.len() == 0 { None } else { Some(o@) },
            None => None,
        },
{
    match &session.org_id {
        Some(o) => {
            let cs = chars_of(o.as_str());
            if cs.len() == 0 {
                None
            } else {
                Some(owned(o.as_str()))
            }
        },
        None => None,
    }
}

/// A join request row as the backend returns it.
#[derive(Clone, Debug)]
pub struct JoinRequestInfo {
    pub id: String,
    pub requester_user_id: String,
    pub requested_role: Option<String>,
    pub status: Option<String>,
    pub message: Option<String>,
    pub created_at: Option<String>,
}

/// The profile stored last under `id` (a later profile with the same id replaces an earlier one).
pub open spec fn last_profile_with_id(ps: Seq<OrgUserProfile>, id: Seq<char>) -> Option<OrgUserProfile>
    decreases ps.len(),
{
    if ps.len() == 0 {
        None
    } else if ps.last().id@ == id {
        Some(ps.last())
    } else {
        last_profile_with_id(ps.drop_last(), id)
    }
}

/// The name shown for a requester: a non-blank full name, else the email, else `Unknown`.
pub open spec fn spec_requester_name(p: Option<OrgUserProfile>) -> Seq<char> {
    match p {
        Some(p) => match p.full_name {
            Some(n) => if spec_trim(n@).len() > 0 {
                n@
            } else {
                match p.email {
                    Some(e) => e@,
                    None => "Unknown"@,
                }
            },
            None => match p.email {
                Some(e) => e@,
                None => "Unknown"@,
            },
        },
        None => "Unknown"@,
    }
}

/// The email shown for a requester, else `No email`.
pub open spec fn spec_requester_email(p: Option<OrgUserProfile>) -> Seq<char> {
    match p {
        Some(p) => match p.email {
            Some(e) => e@,
            None => "No email"@,
        },
        None => "No email"@,
    }
}

/// `value`, or `default` when absent.
pub open spec fn or_default(value: Option<Seq<char>>, default: Seq<char>) -> Seq<char> {
    match value {
        Some(v) => v,
        None => default,
    }
}

/// A join request shown with its requester's profile.
pub open spec fn display_matches(d: JoinRequestDisplay, r: JoinRequestInfo, profiles: Seq<OrgUserProfile>) -> bool {
    let p = last_profile_with_id(profiles, r.requester_user_id@);
    &&& d.id@ == r.id@
    &&& d.name@ == spec_requester_name(p)
    &&& d.email@ == spec_requester_email(p)
    &&& d.requested_role@ == or_default(opt_view(r.requested_role), "field_worker"@)
    &&& d.status@ == or_default(opt_view(r.status), "pending"@)
    &&& opt_view(d.created_at) == opt_view(r.created_at)
}

/// The index of the profile stored last under `id`.
fn find_last_profile(profiles: &Vec<OrgUserProfile>, id: &str) -> (res: Option<usize>)
    ensures
        match res {
            Some(k) => k < profiles.len() && last_profile_with_id(profiles@, id@) == Some(profiles@[k as int]),
            None => last_profile_with_id(profiles@, id@) is None,
        },
{
    let mut k = profiles.len();
    assert(profiles@.subrange(0, k as int) =~= profiles@);
    while k > 0
        invariant
            k <= profiles.len(),
            last_profile_with_id(profiles@, id@) == last_profile_with_id(profiles@.subrange(0, k as int), id@),
        decreases k,
    {
        let ghost pre = profiles@.subrange(0, k as int);
        assert(pre.drop_last() =~= profiles@.subrange(0, k - 1));
        assert(pre.last() == profiles@[k - 1]);
        if str_eq(profiles[k - 1].id.as_str(), id) {
            return Some(k - 1);
        }
        k = k - 1;
    }
    None
}

fn text_or(value: &Option<String>, default: &str) -> (res: String)
    ensures
        res@ == or_default(opt_view(*value), default@),
{
    match value {
        Some(v) => owned(v.as_str()),
        None => owned(default),
    }
}

/// Shows one join request with what is known of its requester.
pub fn join_request_display(request: &JoinRequestInfo, profiles: &Vec<OrgUserProfile>) -> (res: JoinRequestDisplay)
    ensures
        display_matches(res, *request, profiles@),
{
    let found = find_last_profile(profiles, request.requester_user_id.as_str());
    let (name, email) = match found {
        Some(k) => {
            let p = &profiles[k];
            let name = match &p.full_name {
                Some(n) => if !is_blank(n.as_str()) {
                    owned(n.as_str())
                } else {
                    text_or(&p.email, "Unknown")
                },
                None => text_or(&p.email, "Unknown"),
            };
            (name, text_or(&p.email, "No email"))
        },
        None => (owned("Unknown"), owned("No email")),
    };
    JoinRequestDisplay {
        id: owned(request.id.as_str()),
        name,
        email,
        requested_role: text_or(&request.requested_role, "field_worker"),
        status: text_or(&request.status, "pending"),
        created_at: copy_opt(&request.created_at),
    }
}

/// Shows the join requests, in order, each with its requester's profile.
pub fn join_request_displays(requests: &Vec<JoinRequestInfo>, profiles: &Vec<OrgUserProfile>) -> (res: Vec<JoinRequestDisplay>)
    ensures
        res.len() == requests.len(),
        forall|i: int| 0 <= i < requests.len() ==> display_matches(#[trigger] res@[i], requests@[i], profiles@),
{
    let mut out: Vec<JoinRequestDisplay> = Vec::new();
    let mut i: usize = 0;
    while i < requests.len()
        invariant
            i <= requests.len(),
            out.len() == i,
            forall|k: int| 0 <= k < i ==> display_matches(#[trigger] out@[k], requests@[k], profiles@),
        decreases requests.len() - i,
    {
        let d = join_request_display(&requests[i], profiles);
        out.push(d);
        i = i + 1;
    }
    out
}

/// The name shown for a join request's requester: the requester's (last)
/// profile's full name when it is not blank; otherwise the profile's email;
/// `Unknown` only when there is no profile, or it has neither.
pub proof fn lemma_requester_name_shown(d: JoinRequestDisplay, r: JoinRequestInfo, profiles: Seq<OrgUserProfile>)
    requires
        display_matches(d, r, profiles),
    ensures
        match last_profile_with_id(profiles, r.requester_user_id@) {
            None => d.name@ == "Unknown"@,
            Some(p) => {
                let has_name = p.full_name matches Some(n) && spec_trim(n@).len() > 0;
                &&& has_name ==> d.name@ == p.full_name->0@
                &&& !has_name && p.email is Some ==> d.name@ == p.email->0@
                &&& !has_name && p.email is None ==> d.name@ == "Unknown"@
            },
        },
        d.email@ == match last_profile_with_id(profiles, r.requester_user_id@) {
            Some(p) if p.email is Some => p.email->0@,
            _ => "No email"@,
        },
        d.id@ == r.id@,
        r.requested_role is Some ==> d.requested_role@ == r.requested_role->0@,
        r.requested_role is None ==> d.requested_role@ == "field_worker"@,
        r.status is Some ==> d.status@ == r.status->0@,
        r.status is None ==> d.status@ == "pending"@,
        opt_view(d.created_at) == opt_view(r.created_at),
{
}

/// The distinct site ids among the assignments that name one.
pub open spec fn assigned_sites(ids: Seq<Option<String>>) -> Set<Seq<char>> {
    Set::new(|s: Seq<char>| exists|i: int| 0 <= i < ids.len() && opt_view(ids[i]) == Some(s))
}

/// Counts the distinct sites a supervisor is assigned to.
///
/// The ids seen so far are kept in a vector without repeats and compared by
/// their text, so the count is proved to be the number of distinct ids. A
/// `HashSet<String>` would leave membership to the hashing and equality of
/// `String`, which have no specification to prove the count from; the lists
/// of assignments are short, so the scan costs nothing that matters.
pub fn count_unique_sites(site_ids: &Vec<Option<String>>) -> (res: usize)
    ensures
        res == assigned_sites(site_ids@).len(),
        assigned_sites(site_ids@).finite(),
{
    let mut seen: Vec<String> = Vec::new();
    let mut i: usize = 0;
    while i < site_ids.len()
        invariant
            i <= site_ids.len(),
            seen@.map_values(|x: String| x@).no_duplicates(),
            seen@.map_values(|x: String| x@).to_set() == assigned_sites(site_ids@.subrange(0, i as int)),
        decreases site_ids.len() - i,
    {
        let ghost sv = seen@.map_values(|x: String| x@);
        let ghost next = site_ids@.subrange(0, i + 1);
        assert(site_ids@.subrange(0, i as int) =~= next.subrange(0, i as int));
        match &site_ids[i] {
            Some(id) => {
                let mut found = false;
                let mut k: usize = 0;
                while k < seen.len()
                    invariant
                        k <= seen.len(),
                        sv == seen@.map_values(|x: String| x@),
                        found ==> sv.contains(id@),
                        !found ==> forall|j: int| 0 <= j < k ==> sv[j] != id@,
                    decreases seen.len() - k,
                {
                    if str_eq(seen[k].as_str(), id.as_str()) {
                        found = true;
                        assert(sv[k as int] == id@);
                    }
                    k = k + 1;
                }
                if !found {
                    seen.push(owned(id.as_str()));
                    assert(seen@.map_values(|x: String| x@) =~= sv.push(id@));
                }
                assert(seen@.map_values(|x: String| x@).to_set() =~= assigned_sites(next)) by {
                    assert forall|s: Seq<char>| assigned_sites(next).contains(s) implies seen@.map_values(|x: String| x@).to_set().contains(s) by {
                        let j = choose|j: int| 0 <= j < next.len() && opt_view(next[j]) == Some(s);
                        if j < i {
                            assert(assigned_sites(site_ids@.subrange(0, i as int)).contains(s)) by {
                                assert(site_ids@.subrange(0, i as int)[j] == next[j]);
                            }
                            assert(sv.to_set().contains(s));
                            let q = choose|q: int| 0 <= q < sv.len() && sv[q] == s;
                            assert(seen@.map_values(|x: String| x@)[q] == s);
                        } else {
                            if found {
                                let q = choose|q: int| 0 <= q < sv.len() && sv[q] == s;
                                assert(seen@.map_values(|x: String| x@)[q] == s);
                            } else {
                                assert(seen@.map_values(|x: String| x@)[sv.len() as int] == s);
                            }
                        }
                    }
                    assert forall|s: Seq<char>| seen@.map_values(|x: String| x@).to_set().contains(s) implies assigned_sites(next).contains(s) by {
                        let nv = seen@.map_values(|x: String| x@);
                        let q = choose|q: int| 0 <= q < nv.len() && nv[q] == s;
                        if q < sv.len() {
                            assert(sv[q] == s);
                            assert(sv.to_set().contains(s));
                            let j = choose|j: int| 0 <= j < i && opt_view(site_ids@.subrange(0, i as int)[j]) == Some(s);
                            assert(next[j] == site_ids@.subrange(0, i as int)[j]);
                        } else {
                            assert(next[i as int] == site_ids@[i as int]);
                        }
                    }
                }
            },
            None => {
                assert(seen@.map_values(|x: String| x@).to_set() =~= assigned_sites(next)) by {
                    assert forall|s: Seq<char>| assigned_sites(next).contains(s) implies assigned_sites(site_ids@.subrange(0, i as int)).contains(s) by {
                        let j = choose|j: int| 0 <= j < next.len() && opt_view(next[j]) == Some(s);
                        assert(j < i);
                        assert(site_ids@.subrange(0, i as int)[j] == next[j]);
                    }
                    assert forall|s: Seq<char>| assigned_sites(site_ids@.subrange(0, i as int)).contains(s) implies assigned_sites(next).contains(s) by {
                        let j = choose|j: int| 0 <= j < i && opt_view(site_ids@.subrange(0, i as int)[j]) == Some(s);
                        assert(next[j] == site_ids@.subrange(0, i as int)[j]);
                    }
                }
            },
        }
        i = i + 1;
    }
    assert(site_ids@.subrange(0, site_ids.len() as int) =~= site_ids@);
    proof {
        seen@.map_values(|x: String| x@).unique_seq_to_set();
    }
    seen.len()
}

/// The lower-case hexadecimal digit for `d < 16`.
pub open spec fn hex_digit(d: nat) -> char {
    if d < 10 {
        ((d + 48) as u8) as char
    } else {
        ((d + 87) as u8) as char
    }
}

/// Bytes in lower-case hexadecimal, two digits per byte, high nibble first.
pub open spec fn spec_hex_lower(b: Seq<u8>) -> Seq<char>
    decreases b.len(),
{
    if b.len() == 0 {
        Seq::empty()
    } else {
        seq![hex_digit((b[0] / 16) as nat), hex_digit((b[0] % 16) as nat)] + spec_hex_lower(b.drop_first())
    }
}

/// `hex::encode`: lower-case hexadecimal, two digits per byte, high nibble
/// first, as the crate documents and its source shows.
#[verifier::external_body]
fn hex_encode(bytes: &[u8]) -> (res: String)
    ensures
        res@ == spec_hex_lower(bytes@),
{
    hex::encode(bytes)
}

/// `n` bytes from the system's random source (`getrandom::fill`), or `None`
/// when the source fails; the bytes themselves are not stated.
#[verifier::external_body]
fn random_bytes(n: usize) -> (res: Option<Vec<u8>>)
    requires
        n <= isize::MAX,
    ensures
        res matches Some(v) ==> v@.len() == n,
{
    let mut buf = vec![0u8; n];
    match getrandom::fill(&mut buf) {
        Ok(()) => Some(buf),
        Err(_) => None,
    }
}

/// The system's random source failed.
#[derive(Clone, Copy, Debug, PartialEq, Eq, Structural)]
pub struct RandomUnavailable;

impl RandomUnavailable {
    /// The text shown to the user.
    pub fn message(&self) -> (res: &'static str)
        ensures
            res@ == "failed to generate random bytes"@,
    {
        "failed to generate random bytes"
    }
}

/// The hexadecimal form of some four random bytes: the code the user pastes
/// into the browser to authorize this device.
pub fn generate_verification_code() -> (res: Result<String, RandomUnavailable>)
    ensures
        res matches Ok(c) ==> exists|b: Seq<u8>| b.len() == 4 && c@ == spec_hex_lower(b),
{
    match random_bytes(4) {
        Some(b) => {
            let code = hex_encode(b.as_slice());
            assert(b@.len() == 4 && code@ == spec_hex_lower(b@));
            Ok(code)
        },
        None => Err(RandomUnavailable),
    }
}

/// A lower-case hexadecimal digit.
pub open spec fn is_hex_digit(c: char) -> bool {
    ('0' <= c && c <= '9') || ('a' <= c && c <= 'f')
}

/// Hex text has two digits per byte.
pub proof fn lemma_hex_shape(b: Seq<u8>)
    ensures
        spec_hex_lower(b).len() == 2 * b.len(),
        forall|i: int| 0 <= i < spec_hex_lower(b).len() ==> is_hex_digit(#[trigger] spec_hex_lower(b)[i]),
    decreases b.len(),
{
    if b.len() > 0 {
        lemma_hex_shape(b.drop_first());
        let hi = (b[0] / 16) as nat;
        let lo = (b[0] % 16) as nat;
        assert(is_hex_digit(hex_digit(hi)));
        assert(is_hex_digit(hex_digit(lo)));
        let h = spec_hex_lower(b);
        let t = spec_hex_lower(b.drop_first());
        assert forall|i: int| 0 <= i < h.len() implies is_hex_digit(#[trigger] h[i]) by {
            if i >= 2 {
                assert(h[i] == t[i - 2]);
            }
        }
    }
}

/// Every verification code has eight hexadecimal digits.
pub proof fn lemma_verification_code_shape(code: Seq<char>, b: Seq<u8>)
    requires
        b.len() == 4,
        code == spec_hex_lower(b),
    ensures
        code.len() == 8,
        forall|i: int| 0 <= i < code.len() ==> is_hex_digit(#[trigger] code[i]),
{
    lemma_hex_shape(b);
}

/// The host name to show: the reported one, or `unknown`.
pub fn hostname_or_unknown(reported: Option<String>) -> (res: String)
    ensures
        res@ == or_default(opt_view(reported), "unknown"@),
{
    match reported {
        Some(h) => h,
        None => owned("unknown"),
    }
}

/// The machine's host name, or `unknown` when it cannot be read; which name
/// the machine reports is not stated.
pub fn gethostname() -> String {
    hostname_or_unknown(system_hostname())
}

/// The failure text of a password login whose error body could not be read:
/// the HTTP status line and the raw body.
pub fn http_auth_failure(status: &str, body: &str) -> (res: String)
    ensures
        res@ == "\x1b[31m✗ Authentication failed\x1b[0m (HTTP "@ + status@ + ")\n\n  "@ + body@,
{
    let mut out = cat("\x1b[31m✗ Authentication failed\x1b[0m (HTTP ", status);
    out.append(")\n\n  ");
    out.append(body);
    out
}

/// The failure text when the backend refuses to start a browser login.
pub fn login_session_failure(body: &str) -> (res: String)
    ensures
        res@ == "Failed to initiate login session: "@ + body@,
{
    cat("Failed to initiate login session: ", body)
}

/// The failure text when the tokens of an authorized browser login cannot be collected.
pub const CONSUME_FAILED: &'static str = "Failed to retrieve login credentials. Please try again.";

/// The failure text when the backend refuses a join request decision.
pub fn decision_failure(decision: &str, body: &str) -> (res: String)
    ensures
        res@ == "Failed to "@ + decision@ + " request: "@ + body@,
{
    let mut out = cat("Failed to ", decision);
    out.append(" request: ");
    out.append(body);
    out
}

/// Whether the user picks a site to monitor: only supervisors do.
pub fn needs_site_choice(role: &str) -> (res: bool)
    ensures
        res == (role@ == "supervisor"@),
{
    str_eq(role, "supervisor")
}

} // verus!

use fieldmid::auth::{OrgInfo, SiteInfo, UserProfile};
use fieldmid::login::{LoginEvent, LoginFlow, LoginStage};
use fieldmid::session::Session;

fn authenticated() -> Session {
    Session {
        access_token: "a".to_string(),
        refresh_token: "r".to_string(),
        expires_at: 10_000,
        user_id: "u1".to_string(),
        email: "ops@example.com".to_string(),
        role: "field_worker".to_string(),
        full_name: None,
        org_id: None,
        org_name: None,
        site_id: None,
        site_name: None,
        supabase_url: "https://s".to_string(),
        supabase_anon_key: "k".to_string(),
    }
}

fn profile(role: &str) -> UserProfile {
    UserProfile {
        id: "u1".to_string(),
        email: None,
        full_name: Some("Ada".to_string()),
        role: Some(role.to_string()),
        org_id: Some("o1".to_string()),
        site_id: None,
        membership_status: None,
    }
}

fn org(id: &str, name: &str) -> OrgInfo {
    OrgInfo { id: id.to_string(), name: name.to_string(), industry: None }
}

fn site(id: &str, name: &str) -> SiteInfo {
    SiteInfo { id: id.to_string(), name: name.to_string(), location: None, site_type: None, org_id: "o1".to_string() }
}

#[test]
fn field_worker_with_one_org_goes_straight_to_save() {
    let mut flow = LoginFlow::new(authenticated());
    assert_eq!(flow.stage, LoginStage::FetchProfile);
    assert_eq!(flow.step(LoginEvent::Profile(Some(profile("field_worker")))), LoginStage::FetchOrganizations);
    assert_eq!(flow.session.full_name.as_deref(), Some("Ada"));
    assert_eq!(flow.step(LoginEvent::Organizations(vec![org("o1", "Acme")])), LoginStage::Save);
    assert_eq!(flow.session.org_name.as_deref(), Some("Acme"));
    assert_eq!(flow.roles, vec!["field_worker".to_string()]);
    assert_eq!(flow.step(LoginEvent::Saved), LoginStage::Done);
}

#[test]
fn several_orgs_are_offered_and_admin_picks_supervisor_then_a_site() {
    let mut flow = LoginFlow::new(authenticated());
    flow.step(LoginEvent::Profile(Some(profile("admin"))));
    assert_eq!(flow.step(LoginEvent::Organizations(vec![org("o1", "Acme"), org("o2", "Beta")])), LoginStage::ChooseOrganization);
    assert!(flow.session.org_name.is_none());
    assert_eq!(flow.step(LoginEvent::OrganizationChosen(5)), LoginStage::ChooseOrganization);
    assert_eq!(flow.step(LoginEvent::OrganizationChosen(1)), LoginStage::ChooseRole);
    assert_eq!(flow.session.org_id.as_deref(), Some("o2"));
    assert_eq!(flow.roles, vec!["admin".to_string(), "supervisor".to_string()]);
    assert_eq!(flow.step(LoginEvent::RoleChosen(1)), LoginStage::FetchSites);
    assert_eq!(flow.session.role, "supervisor");
    assert_eq!(flow.step(LoginEvent::Sites(vec![site("s1", "North Pit"), site("s2", "South Pit")])), LoginStage::ChooseSite);
    assert_eq!(flow.step(LoginEvent::SiteChosen(1)), LoginStage::Save);
    assert_eq!(flow.session.site_name.as_deref(), Some("South Pit"));
    assert_eq!(flow.step(LoginEvent::Saved), LoginStage::Done);
}

#[test]
fn admin_staying_admin_picks_no_site() {
    let mut flow = LoginFlow::new(authenticated());
    flow.step(LoginEvent::Profile(Some(profile("admin"))));
    flow.step(LoginEvent::Organizations(vec![]));
    assert_eq!(flow.stage, LoginStage::ChooseRole);
    assert_eq!(flow.step(LoginEvent::RoleChosen(0)), LoginStage::Save);
}

#[test]
fn supervisor_without_sites_saves_and_missing_profile_keeps_session() {
    let mut s = authenticated();
    s.role = "supervisor".to_string();
    let mut flow = LoginFlow::new(s);
    assert_eq!(flow.step(LoginEvent::Profile(None)), LoginStage::FetchOrganizations);
    assert_eq!(flow.session.role, "supervisor");
    assert_eq!(flow.step(LoginEvent::Organizations(vec![])), LoginStage::FetchSites);
    assert_eq!(flow.step(LoginEvent::Sites(vec![])), LoginStage::Save);
    assert!(flow.session.site_id.is_none());
}

#[test]
fn events_out_of_order_change_nothing() {
    let mut flow = LoginFlow::new(authenticated());
    assert_eq!(flow.step(LoginEvent::Saved), LoginStage::FetchProfile);
    assert_eq!(flow.step(LoginEvent::SiteChosen(0)), LoginStage::FetchProfile);
}

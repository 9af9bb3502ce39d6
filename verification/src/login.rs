//! The steps of an interactive sign-in after the user is authenticated:
//! profile, organization, role, site, then saving the session.

use vstd::prelude::*;
use crate::auth::{apply_org, apply_profile, apply_site, needs_site_choice, role_options, sole_org, spec_role_options, OrgInfo, SiteInfo, UserProfile};
use crate::session::{Session, SessionView};
use crate::text::owned;

verus! {

/// The session after the profile is loaded: the profile's role, organization
/// and name replace the session's where the profile has them.
pub open spec fn profile_applied(v: SessionView, p: UserProfile) -> SessionView {
    SessionView {
        role: match p.role {
            Some(r) => r@,
            None => v.role,
        },
        org_id: match p.org_id {
            Some(o) => Some(o@),
            None => v.org_id,
        },
        full_name: match p.full_name {
            Some(n) => Some(n@),
            None => v.full_name,
        },
        ..v
    }
}

/// The session with an organization recorded.
pub open spec fn org_applied(v: SessionView, org: OrgInfo) -> SessionView {
    SessionView { org_id: Some(org.id@), org_name: Some(org.name@), ..v }
}

/// The session with a site recorded.
pub open spec fn site_applied(v: SessionView, site: SiteInfo) -> SessionView {
    SessionView { site_id: Some(site.id@), site_name: Some(site.name@), ..v }
}

/// The session running as another role.
pub open spec fn role_applied(v: SessionView, role: Seq<char>) -> SessionView {
    SessionView { role: role, ..v }
}

/// What the sign-in does next.
#[derive(Clone, Copy, Debug, PartialEq, Eq, Structural)]
pub enum LoginStage {
    /// Fetch the user's profile.
    FetchProfile,
    /// Fetch the user's organizations.
    FetchOrganizations,
    /// Ask which of several organizations to use.
    ChooseOrganization,
    /// Ask which of several roles the device runs as.
    ChooseRole,
    /// Fetch the sites a supervisor may monitor.
    FetchSites,
    /// Ask which site to monitor.
    ChooseSite,
    /// Save the session.
    Save,
    /// The sign-in is complete.
    Done,
}

/// What came back from the work of the current stage.
pub enum LoginEvent {
    /// The user's profile, or `None` when there is none (or it could not be read).
    Profile(Option<UserProfile>),
    /// The user's organizations (empty when they could not be read).
    Organizations(Vec<OrgInfo>),
    /// The index of the organization chosen.
    OrganizationChosen(usize),
    /// The index of the role chosen.
    RoleChosen(usize),
    /// The active sites (empty when they could not be read).
    Sites(Vec<SiteInfo>),
    /// The index of the site chosen.
    SiteChosen(usize),
    /// The session was saved.
    Saved,
}

/// The sign-in in progress: the session as built so far, the choices on
/// offer, and the stage it has reached.
pub struct LoginFlow {
    pub session: Session,
    pub orgs: Vec<OrgInfo>,
    pub roles: Vec<String>,
    pub sites: Vec<SiteInfo>,
    pub stage: LoginStage,
}

/// The stage after the role is settled: supervisors pick a site, everyone
/// else saves.
pub open spec fn after_role(role: Seq<char>) -> LoginStage {
    if role == "supervisor"@ {
        LoginStage::FetchSites
    } else {
        LoginStage::Save
    }
}

/// The flow once the organization is settled with the session `v`: the role
/// menu is offered when there is more than one role to choose from.
pub open spec fn role_offered(f: LoginFlow, v: SessionView) -> bool {
    &&& f.session@ == v
    &&& f.roles@.map_values(|r: String| r@) == spec_role_options(v.role)
    &&& f.stage == (if spec_role_options(v.role).len() > 1 {
        LoginStage::ChooseRole
    } else {
        after_role(v.role)
    })
}

impl LoginFlow {
    /// A sign-in for an authenticated session; it starts with the profile.
    pub fn new(session: Session) -> (res: LoginFlow)
        ensures
            res.session == session,
            res.orgs@.len() == 0,
            res.roles@.len() == 0,
            res.sites@.len() == 0,
            res.stage == LoginStage::FetchProfile,
    {
        LoginFlow { session, orgs: Vec::new(), roles: Vec::new(), sites: Vec::new(), stage: LoginStage::FetchProfile }
    }

    fn offer_roles(&mut self)
        ensures
            role_offered(*final(self), old(self).session@),
            final(self).orgs == old(self).orgs,
            final(self).sites == old(self).sites,
    {
        let roles = role_options(self.session.role.as_str());
        let n = roles.len();
        proof {
            assert(roles@.map_values(|r: String| r@).len() == n);
        }
        self.roles = roles;
        if n > 1 {
            self.stage = LoginStage::ChooseRole;
        } else if needs_site_choice(self.session.role.as_str()) {
            self.stage = LoginStage::FetchSites;
        } else {
            self.stage = LoginStage::Save;
        }
    }

    /// The next stage, given what the work of the current one gave. An event
    /// that does not belong to the current stage, or a choice out of range,
    /// changes nothing.
    pub fn step(&mut self, event: LoginEvent) -> (res: LoginStage)
        ensures
            res == final(self).stage,
            match (old(self).stage, event) {
                (LoginStage::FetchProfile, LoginEvent::Profile(p)) => {
                    &&& final(self).session@ == match p {
                        Some(profile) => profile_applied(old(self).session@, profile),
                        None => old(self).session@,
                    }
                    &&& final(self).stage == LoginStage::FetchOrganizations
                    &&& final(self).orgs == old(self).orgs
                    &&& final(self).roles == old(self).roles
                    &&& final(self).sites == old(self).sites
                },
                (LoginStage::FetchOrganizations, LoginEvent::Organizations(list)) => {
                    &&& final(self).orgs == list
                    &&& final(self).sites == old(self).sites
                    &&& if list.len() == 1 {
                        role_offered(*final(self), org_applied(old(self).session@, list@[0]))
                    } else if list.len() == 0 {
                        role_offered(*final(self), old(self).session@)
                    } else {
                        &&& final(self).session@ == old(self).session@
                        &&& final(self).roles == old(self).roles
                        &&& final(self).stage == LoginStage::ChooseOrganization
                    }
                },
                (LoginStage::ChooseOrganization, LoginEvent::OrganizationChosen(i)) => if i < old(self).orgs.len() {
                    &&& role_offered(*final(self), org_applied(old(self).session@, old(self).orgs@[i as int]))
                    &&& final(self).orgs == old(self).orgs
                    &&& final(self).sites == old(self).sites
                } else {
                    *final(self) == *old(self)
                },
                (LoginStage::ChooseRole, LoginEvent::RoleChosen(i)) => if i < old(self).roles.len() {
                    &&& final(self).session@ == role_applied(old(self).session@, old(self).roles@[i as int]@)
                    &&& final(self).stage == after_role(old(self).roles@[i as int]@)
                    &&& final(self).orgs == old(self).orgs
                    &&& final(self).roles == old(self).roles
                    &&& final(self).sites == old(self).sites
                } else {
                    *final(self) == *old(self)
                },
                (LoginStage::FetchSites, LoginEvent::Sites(list)) => {
                    &&& final(self).sites == list
                    &&& final(self).session == old(self).session
                    &&& final(self).orgs == old(self).orgs
                    &&& final(self).roles == old(self).roles
                    &&& final(self).stage == (if list.len() == 0 { LoginStage::Save } else { LoginStage::ChooseSite })
                },
                (LoginStage::ChooseSite, LoginEvent::SiteChosen(i)) => if i < old(self).sites.len() {
                    &&& final(self).session@ == site_applied(old(self).session@, old(self).sites@[i as int])
                    &&& final(self).stage == LoginStage::Save
                    &&& final(self).orgs == old(self).orgs
                    &&& final(self).roles == old(self).roles
                    &&& final(self).sites == old(self).sites
                } else {
                    *final(self) == *old(self)
                },
                (LoginStage::Save, LoginEvent::Saved) => {
                    &&& final(self).stage == LoginStage::Done
                    &&& final(self).session == old(self).session
                    &&& final(self).orgs == old(self).orgs
                    &&& final(self).roles == old(self).roles
                    &&& final(self).sites == old(self).sites
                },
                _ => *final(self) == *old(self),
            },
    {
        match (self.stage, event) {
            (LoginStage::FetchProfile, LoginEvent::Profile(p)) => {
                if let Some(profile) = &p {
                    apply_profile(&mut self.session, profile);
                }
                self.stage = LoginStage::FetchOrganizations;
            },
            (LoginStage::FetchOrganizations, LoginEvent::Organizations(list)) => {
                self.orgs = list;
                match sole_org(&self.orgs) {
                    Some(k) => {
                        apply_org(&mut self.session, &self.orgs[k]);
                        self.offer_roles();
                    },
                    None => {
                        if self.orgs.len() == 0 {
                            self.offer_roles();
                        } else {
                            self.stage = LoginStage::ChooseOrganization;
                        }
                    },
                }
            },
            (LoginStage::ChooseOrganization, LoginEvent::OrganizationChosen(i)) => {
                if i < self.orgs.len() {
                    apply_org(&mut self.session, &self.orgs[i]);
                    self.offer_roles();
                }
            },
            (LoginStage::ChooseRole, LoginEvent::RoleChosen(i)) => {
                if i < self.roles.len() {
                    let role = owned(self.roles[i].as_str());
                    self.session.role = role;
                    if needs_site_choice(self.session.role.as_str()) {
                        self.stage = LoginStage::FetchSites;
                    } else {
                        self.stage = LoginStage::Save;
                    }
                }
            },
            (LoginStage::FetchSites, LoginEvent::Sites(list)) => {
                self.sites = list;
                if self.sites.len() == 0 {
                    self.stage = LoginStage::Save;
                } else {
                    self.stage = LoginStage::ChooseSite;
                }
            },
            (LoginStage::ChooseSite, LoginEvent::SiteChosen(i)) => {
                if i < self.sites.len() {
                    apply_site(&mut self.session, &self.sites[i]);
                    self.stage = LoginStage::Save;
                }
            },
            (LoginStage::Save, LoginEvent::Saved) => {
                self.stage = LoginStage::Done;
            },
            _ => {},
        }
        self.stage
    }
}

} // verus!

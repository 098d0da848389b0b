//! Who is calling: the identity that a request carries once its token is verified.

use crate::claims::{
    distinct_orgs, pair_views, Claims, ClaimsView, OrgMembership, OrgMembershipView,
};
use crate::text::views;
use vstd::prelude::*;

verus! {

/// The caller of one request. It is made once, from verified claims, and not
/// changed afterwards. No two of its memberships are in the same organization.
#[derive(Debug, PartialEq, Eq)]
pub struct IdentityContext {
    user_id: String,
    memberships: Vec<OrgMembership>,
    metadata: Vec<(String, String)>,
}

pub struct IdentityView {
    pub user_id: Seq<char>,
    pub memberships: Seq<OrgMembershipView>,
    pub metadata: Seq<(Seq<char>, Seq<char>)>,
}

/// The identity that claims describe: the subject, with every membership and every
/// piece of metadata as the claims hold it.
pub open spec fn identity_of(claims: ClaimsView) -> IdentityView {
    IdentityView {
        user_id: claims.subject,
        memberships: claims.memberships,
        metadata: claims.metadata,
    }
}

impl View for IdentityContext {
    type V = IdentityView;

    closed spec fn view(&self) -> IdentityView {
        IdentityView {
            user_id: self.user_id@,
            memberships: views(self.memberships@),
            metadata: pair_views(self.metadata@),
        }
    }
}

impl IdentityContext {
    #[verifier::type_invariant]
    spec fn one_membership_per_org(&self) -> bool {
        distinct_orgs(views(self.memberships@))
    }

    /// The identity of the holder of `claims`. The claims are those of a verified
    /// token, which holds each organization once.
    pub fn from_claims(claims: Claims) -> (identity: IdentityContext)
        requires
            distinct_orgs(claims@.memberships),
        ensures
            identity@ == identity_of(claims@),
    {
        IdentityContext {
            user_id: claims.subject,
            memberships: claims.memberships,
            metadata: claims.metadata,
        }
    }

    pub fn user_id(&self) -> (id: &String)
        ensures
            id@ == self@.user_id,
    {
        &self.user_id
    }

    /// The memberships, each in an organization of its own.
    pub fn memberships(&self) -> (memberships: &Vec<OrgMembership>)
        ensures
            views(memberships@) == self@.memberships,
            distinct_orgs(self@.memberships),
    {
        proof {
            use_type_invariant(self);
        }
        &self.memberships
    }

    pub fn metadata(&self) -> (metadata: &Vec<(String, String)>)
        ensures
            pair_views(metadata@) == self@.metadata,
    {
        &self.metadata
    }
}

} // verus!

//! Whether an identity may act within an organization.

use crate::claims::{distinct_orgs, ClaimsView, OrgMembership, OrgMembershipView};
use crate::identity::{identity_of, IdentityContext};
use crate::text::{contains_all, contains_all_texts, contains_text, same_text, views};
use vstd::prelude::*;

verus! {

/// How a requirement names its organization.
#[derive(Debug, PartialEq, Eq)]
pub enum OrgRef {
    Id(String),
    /// The organization's name, compared letter by letter.
    Name(String),
}

pub enum OrgRefView {
    Id(Seq<char>),
    Name(Seq<char>),
}

impl View for OrgRef {
    type V = OrgRefView;

    open spec fn view(&self) -> OrgRefView {
        match self {
            OrgRef::Id(id) => OrgRefView::Id(id@),
            OrgRef::Name(name) => OrgRefView::Name(name@),
        }
    }
}

/// What a member must hold within the organization.
#[derive(Debug, PartialEq, Eq)]
pub enum RoleRequirement {
    /// Membership is enough.
    AnyRole,
    IsRole(String),
    /// The member's role is this role or includes it.
    AtLeastRole(String),
    HasPermission(String),
    HasAllPermissions(Vec<String>),
}

pub enum RoleRequirementView {
    AnyRole,
    IsRole(Seq<char>),
    AtLeastRole(Seq<char>),
    HasPermission(Seq<char>),
    HasAllPermissions(Seq<Seq<char>>),
}

impl View for RoleRequirement {
    type V = RoleRequirementView;

    open spec fn view(&self) -> RoleRequirementView {
        match self {
            RoleRequirement::AnyRole => RoleRequirementView::AnyRole,
            RoleRequirement::IsRole(role) => RoleRequirementView::IsRole(role@),
            RoleRequirement::AtLeastRole(role) => RoleRequirementView::AtLeastRole(role@),
            RoleRequirement::HasPermission(permission) => RoleRequirementView::HasPermission(
                permission@,
            ),
            RoleRequirement::HasAllPermissions(permissions) => RoleRequirementView::HasAllPermissions(
                views(permissions@),
            ),
        }
    }
}

/// What a handler asks of the caller: an organization, and what the caller must
/// hold in it.
#[derive(Debug, PartialEq, Eq)]
pub struct OrgRequirement {
    pub org: OrgRef,
    pub role: RoleRequirement,
}

pub struct OrgRequirementView {
    pub org: OrgRefView,
    pub role: RoleRequirementView,
}

impl View for OrgRequirement {
    type V = OrgRequirementView;

    open spec fn view(&self) -> OrgRequirementView {
        OrgRequirementView { org: self.org@, role: self.role@ }
    }
}

/// Why an authenticated caller is refused.
#[derive(Debug, Clone, Copy, PartialEq, Eq, Structural)]
pub enum ForbiddenReason {
    NotAMember,
    InsufficientRole,
    /// The requirement names the organization by a name that several of the
    /// caller's organizations have.
    AmbiguousOrganization,
}

/// The outcome of an authorization.
#[derive(Debug, PartialEq, Eq)]
pub enum AuthDecision {
    /// The caller may proceed; the membership is the one that matched.
    Allowed(OrgMembership),
    /// There is no authenticated caller.
    Unauthorized,
    Forbidden(ForbiddenReason),
}

pub enum AuthDecisionView {
    Allowed(OrgMembershipView),
    Unauthorized,
    Forbidden(ForbiddenReason),
}

impl View for AuthDecision {
    type V = AuthDecisionView;

    open spec fn view(&self) -> AuthDecisionView {
        match self {
            AuthDecision::Allowed(membership) => AuthDecisionView::Allowed(membership@),
            AuthDecision::Unauthorized => AuthDecisionView::Unauthorized,
            AuthDecision::Forbidden(reason) => AuthDecisionView::Forbidden(*reason),
        }
    }
}

/// Whether `org` names the organization of `membership`.
pub open spec fn refers_to(org: OrgRefView, membership: OrgMembershipView) -> bool {
    match org {
        OrgRefView::Id(id) => membership.org_id == id,
        OrgRefView::Name(name) => membership.org_name == name,
    }
}

/// Whether the membership at `i` is in the organization that `org` names.
pub open spec fn is_match(memberships: Seq<OrgMembershipView>, org: OrgRefView, i: int) -> bool {
    0 <= i < memberships.len() && refers_to(org, memberships[i])
}

/// Where among some memberships an organization is found.
pub enum Located {
    Absent,
    /// The only membership that matches is at this index.
    At(int),
    Ambiguous,
}

/// Where `org` is found among `memberships`.
pub open spec fn locate(memberships: Seq<OrgMembershipView>, org: OrgRefView) -> Located {
    if forall|i: int| !is_match(memberships, org, i) {
        Located::Absent
    } else if exists|i: int, j: int|
        i != j && is_match(memberships, org, i) && is_match(memberships, org, j) {
        Located::Ambiguous
    } else {
        Located::At(choose|i: int| is_match(memberships, org, i))
    }
}

/// Whether a membership meets a requirement on role or permissions.
pub open spec fn meets(membership: OrgMembershipView, role: RoleRequirementView) -> bool {
    match role {
        RoleRequirementView::AnyRole => true,
        RoleRequirementView::IsRole(wanted) => membership.role == wanted,
        RoleRequirementView::AtLeastRole(wanted) => membership.role == wanted
            || membership.inherited_roles.contains(wanted),
        RoleRequirementView::HasPermission(wanted) => membership.permissions.contains(wanted),
        RoleRequirementView::HasAllPermissions(wanted) => contains_all(
            membership.permissions,
            wanted,
        ),
    }
}

/// The decision on a caller with these memberships: refused as no member where no
/// membership matches the organization, refused where several match, refused for
/// the role where the one that matches does not meet the requirement, and allowed
/// with that membership otherwise.
pub open spec fn decision_for(
    memberships: Seq<OrgMembershipView>,
    requirement: OrgRequirementView,
) -> AuthDecisionView {
    match locate(memberships, requirement.org) {
        Located::Absent => AuthDecisionView::Forbidden(ForbiddenReason::NotAMember),
        Located::Ambiguous => AuthDecisionView::Forbidden(ForbiddenReason::AmbiguousOrganization),
        Located::At(i) => if meets(memberships[i], requirement.role) {
            AuthDecisionView::Allowed(memberships[i])
        } else {
            AuthDecisionView::Forbidden(ForbiddenReason::InsufficientRole)
        },
    }
}

/// The result of a search among memberships.
#[derive(Debug, Clone, Copy, PartialEq, Eq)]
pub enum Lookup {
    Absent,
    Found(usize),
    Ambiguous,
}

impl View for Lookup {
    type V = Located;

    open spec fn view(&self) -> Located {
        match self {
            Lookup::Absent => Located::Absent,
            Lookup::Found(i) => Located::At(*i as int),
            Lookup::Ambiguous => Located::Ambiguous,
        }
    }
}

/// Whether `org` names the organization of `membership`.
pub fn org_matches(org: &OrgRef, membership: &OrgMembership) -> (matches: bool)
    ensures
        matches == refers_to(org@, membership@),
{
    match org {
        OrgRef::Id(id) => same_text(membership.org_id.as_str(), id.as_str()),
        OrgRef::Name(name) => same_text(membership.org_name.as_str(), name.as_str()),
    }
}

/// Searches `memberships` for the organization that `org` names.
pub fn find_membership(memberships: &Vec<OrgMembership>, org: &OrgRef) -> (found: Lookup)
    ensures
        found@ == locate(views(memberships@), org@),
{
    let ghost all = views(memberships@);
    let mut first: Option<usize> = None;
    let mut i: usize = 0;
    while i < memberships.len()
        invariant
            i <= memberships.len(),
            all == views(memberships@),
            first is None ==> forall|k: int| 0 <= k < i ==> !is_match(all, org@, k),
            first matches Some(f) ==> f < i && is_match(all, org@, f as int) && forall|k: int|
                0 <= k < i && k != f ==> !is_match(all, org@, k),
        decreases memberships.len() - i,
    {
        if org_matches(org, &memberships[i]) {
            assert(is_match(all, org@, i as int));
            match first {
                Some(f) => {
                    assert(f != i && is_match(all, org@, f as int));
                    return Lookup::Ambiguous;
                },
                None => {
                    first = Some(i);
                },
            }
        }
        i = i + 1;
    }
    match first {
        Some(f) => {
            assert(is_match(all, org@, f as int));
            assert(forall|k: int| is_match(all, org@, k) ==> k == f);
            Lookup::Found(f)
        },
        None => Lookup::Absent,
    }
}

/// Whether `membership` meets `role`.
pub fn meets_requirement(membership: &OrgMembership, role: &RoleRequirement) -> (met: bool)
    ensures
        met == meets(membership@, role@),
{
    match role {
        RoleRequirement::AnyRole => true,
        RoleRequirement::IsRole(wanted) => same_text(membership.role.as_str(), wanted.as_str()),
        RoleRequirement::AtLeastRole(wanted) => same_text(membership.role.as_str(), wanted.as_str())
            || contains_text(&membership.inherited_roles, wanted.as_str()),
        RoleRequirement::HasPermission(wanted) => contains_text(
            &membership.permissions,
            wanted.as_str(),
        ),
        RoleRequirement::HasAllPermissions(wanted) => contains_all_texts(
            &membership.permissions,
            wanted,
        ),
    }
}

/// Decides whether `identity` meets `requirement`. The decision is never
/// `Unauthorized`: the caller is known, the question is what the caller may do.
/// An organization that is named by its id is never ambiguous.
pub fn authorize(identity: &IdentityContext, requirement: &OrgRequirement) -> (decision:
    AuthDecision)
    ensures
        decision@ == decision_for(identity@.memberships, requirement@),
        !(decision is Unauthorized),
        requirement.org is Id ==> decision@ != AuthDecisionView::Forbidden(
            ForbiddenReason::AmbiguousOrganization,
        ),
{
    let memberships = identity.memberships();
    proof {
        if requirement.org is Id {
            id_is_never_ambiguous(identity@.memberships, requirement.org->Id_0@);
        }
    }
    match find_membership(memberships, &requirement.org) {
        Lookup::Absent => AuthDecision::Forbidden(ForbiddenReason::NotAMember),
        Lookup::Ambiguous => AuthDecision::Forbidden(ForbiddenReason::AmbiguousOrganization),
        Lookup::Found(i) => {
            if meets_requirement(&memberships[i], &requirement.role) {
                AuthDecision::Allowed(memberships[i].duplicate())
            } else {
                AuthDecision::Forbidden(ForbiddenReason::InsufficientRole)
            }
        },
    }
}

/// Where the organizations of some memberships are distinct, the membership at `i`
/// is the only one that its organization's id matches.
pub proof fn lemma_own_id_locates(memberships: Seq<OrgMembershipView>, i: int)
    requires
        distinct_orgs(memberships),
        0 <= i < memberships.len(),
    ensures
        locate(memberships, OrgRefView::Id(memberships[i].org_id)) == Located::At(i),
{
    let org = OrgRefView::Id(memberships[i].org_id);
    assert(is_match(memberships, org, i));
    assert forall|k: int| is_match(memberships, org, k) implies k == i by {
        if k < i {
            assert(memberships[k].org_id != memberships[i].org_id);
        } else if i < k {
            assert(memberships[i].org_id != memberships[k].org_id);
        }
    }
}

/// Among memberships in distinct organizations an id finds one membership or none,
/// never several.
pub proof fn id_is_never_ambiguous(memberships: Seq<OrgMembershipView>, id: Seq<char>)
    requires
        distinct_orgs(memberships),
    ensures
        !(locate(memberships, OrgRefView::Id(id)) is Ambiguous),
{
    let org = OrgRefView::Id(id);
    assert forall|i: int, j: int|
        i != j && is_match(memberships, org, i) implies !is_match(memberships, org, j) by {
        if is_match(memberships, org, j) {
            if i < j {
                assert(memberships[i].org_id != memberships[j].org_id);
            } else {
                assert(memberships[j].org_id != memberships[i].org_id);
            }
        }
    }
}

/// A membership that the claims hold comes back unchanged: for claims whose
/// memberships are in distinct organizations, the identity made from them, asked
/// for the organization of any one membership by id and for no particular role, is
/// allowed, with that membership.
pub proof fn membership_round_trip(claims: ClaimsView, i: int)
    requires
        distinct_orgs(claims.memberships),
        0 <= i < claims.memberships.len(),
    ensures
        decision_for(
            identity_of(claims).memberships,
            OrgRequirementView {
                org: OrgRefView::Id(claims.memberships[i].org_id),
                role: RoleRequirementView::AnyRole,
            },
        ) == AuthDecisionView::Allowed(claims.memberships[i]),
{
    lemma_own_id_locates(claims.memberships, i);
}

/// Nobody is allowed in without a membership that fits: where the decision allows,
/// the membership that it carries is one of the caller's, it is in the organization
/// that the requirement names, and it meets the requirement on the role.
pub proof fn allowed_means_member(
    memberships: Seq<OrgMembershipView>,
    requirement: OrgRequirementView,
    granted: OrgMembershipView,
)
    requires
        decision_for(memberships, requirement) == AuthDecisionView::Allowed(granted),
    ensures
        memberships.contains(granted),
        refers_to(requirement.org, granted),
        meets(granted, requirement.role),
{
    let i = locate(memberships, requirement.org)->At_0;
    assert(is_match(memberships, requirement.org, i));
    assert(memberships[i] == granted);
}

/// A caller with no membership in an organization is refused there, whatever role
/// is asked for and whatever other organizations the caller belongs to.
pub proof fn non_member_is_forbidden(
    memberships: Seq<OrgMembershipView>,
    org: OrgRefView,
    role: RoleRequirementView,
)
    requires
        forall|i: int| 0 <= i < memberships.len() ==> !refers_to(org, #[trigger] memberships[i]),
    ensures
        decision_for(memberships, OrgRequirementView { org, role }) == AuthDecisionView::Forbidden(
            ForbiddenReason::NotAMember,
        ),
{
    assert(forall|i: int| !is_match(memberships, org, i));
}

/// Authorization has no hidden state: any two decisions that `authorize` gives on
/// the same identity and the same requirement are the same decision.
pub proof fn authorize_is_repeatable(
    identity: &IdentityContext,
    requirement: &OrgRequirement,
    first: AuthDecision,
    second: AuthDecision,
)
    requires
        call_ensures(authorize, (identity, requirement), first),
        call_ensures(authorize, (identity, requirement), second),
    ensures
        first@ == second@,
{
}

} // verus!

//! The claims that a token carries, and how they are read from its payload.
//!
//! A payload is a JSON object. It names its subject under `sub` and its expiry under
//! `exp`; `iat`, `iss`, `aud`, `metadata` and `org_id_to_org_member_info` may be
//! missing. The last maps an organization's id to the holder's membership in it.

use crate::json::{
    distinct_names, json_items, json_member, json_members, json_shape, json_text, member,
    member_shapes, optional_text_member, optional_texts_member, optional_unsigned_member,
    read_optional_text, read_optional_texts, read_optional_unsigned, read_text, read_texts,
    read_unsigned, text_member, texts_of, unsigned_member, Json,
};
use crate::text::{copy_texts, same_text, views};
use vstd::prelude::*;

verus! {

/// One membership of a user in an organization.
#[derive(Debug, PartialEq, Eq)]
pub struct OrgMembership {
    pub org_id: String,
    pub org_name: String,
    /// The role that the user holds in the organization.
    pub role: String,
    /// The roles that this role includes.
    pub inherited_roles: Vec<String>,
    pub permissions: Vec<String>,
}

pub struct OrgMembershipView {
    pub org_id: Seq<char>,
    pub org_name: Seq<char>,
    pub role: Seq<char>,
    pub inherited_roles: Seq<Seq<char>>,
    pub permissions: Seq<Seq<char>>,
}

impl View for OrgMembership {
    type V = OrgMembershipView;

    open spec fn view(&self) -> OrgMembershipView {
        OrgMembershipView {
            org_id: self.org_id@,
            org_name: self.org_name@,
            role: self.role@,
            inherited_roles: views(self.inherited_roles@),
            permissions: views(self.permissions@),
        }
    }
}

impl OrgMembership {
    /// A copy that holds the same membership.
    pub fn duplicate(&self) -> (copy: OrgMembership)
        ensures
            copy@ == self@,
    {
        OrgMembership {
            org_id: self.org_id.clone(),
            org_name: self.org_name.clone(),
            role: self.role.clone(),
            inherited_roles: copy_texts(&self.inherited_roles),
            permissions: copy_texts(&self.permissions),
        }
    }
}

/// Whether no two memberships are in the same organization.
pub open spec fn distinct_orgs(memberships: Seq<OrgMembershipView>) -> bool {
    forall|i: int, j: int|
        0 <= i < j < memberships.len() ==> memberships[i].org_id != memberships[j].org_id
}

/// Whether no two of `memberships` are in the same organization.
pub fn orgs_distinct(memberships: &Vec<OrgMembership>) -> (distinct: bool)
    ensures
        distinct == distinct_orgs(views(memberships@)),
{
    let ghost all = views(memberships@);
    let mut j: usize = 0;
    while j < memberships.len()
        invariant
            j <= memberships.len(),
            all == views(memberships@),
            forall|a: int, b: int| 0 <= a < b < j ==> all[a].org_id != all[b].org_id,
        decreases memberships.len() - j,
    {
        let mut i: usize = 0;
        while i < j
            invariant
                i <= j < memberships.len(),
                all == views(memberships@),
                forall|a: int| 0 <= a < i ==> all[a].org_id != all[j as int].org_id,
            decreases j - i,
        {
            if same_text(memberships[i].org_id.as_str(), memberships[j].org_id.as_str()) {
                assert(all[i as int].org_id == all[j as int].org_id);
                return false;
            }
            i = i + 1;
        }
        j = j + 1;
    }
    true
}

/// The payload of a token. Claims say who the holder is; they are to be trusted
/// only once the token's signature and expiry have been checked.
#[derive(Debug, PartialEq, Eq)]
pub struct Claims {
    /// The user's id.
    pub subject: String,
    /// Seconds since the epoch.
    pub issued_at: Option<u64>,
    /// Seconds since the epoch.
    pub expires_at: u64,
    pub issuer: Option<String>,
    pub audience: Vec<String>,
    pub memberships: Vec<OrgMembership>,
    pub metadata: Vec<(String, String)>,
}

pub struct ClaimsView {
    pub subject: Seq<char>,
    pub issued_at: Option<u64>,
    pub expires_at: u64,
    pub issuer: Option<Seq<char>>,
    pub audience: Seq<Seq<char>>,
    pub memberships: Seq<OrgMembershipView>,
    pub metadata: Seq<(Seq<char>, Seq<char>)>,
}

/// The view of an optional text.
pub open spec fn optional_view(text: Option<String>) -> Option<Seq<char>> {
    match text {
        Some(t) => Some(t@),
        None => None,
    }
}

/// The views of a list of pairs of texts.
pub open spec fn pair_views(pairs: Seq<(String, String)>) -> Seq<(Seq<char>, Seq<char>)> {
    Seq::new(pairs.len(), |i: int| (pairs[i].0@, pairs[i].1@))
}

impl View for Claims {
    type V = ClaimsView;

    open spec fn view(&self) -> ClaimsView {
        ClaimsView {
            subject: self.subject@,
            issued_at: self.issued_at,
            expires_at: self.expires_at,
            issuer: optional_view(self.issuer),
            audience: views(self.audience@),
            memberships: views(self.memberships@),
            metadata: pair_views(self.metadata@),
        }
    }
}

/// The membership that an entry of the organization map describes: the entry's
/// name is the organization's id, its value an object that holds `org_name` and
/// `user_role`, and may hold `inherited_user_roles_plus_current_role` and
/// `user_permissions`.
pub open spec fn membership_of(org_id: Seq<char>, doc: Json) -> Option<OrgMembershipView> {
    match (
        text_member(doc, "org_name"@),
        text_member(doc, "user_role"@),
        optional_texts_member(doc, "inherited_user_roles_plus_current_role"@),
        optional_texts_member(doc, "user_permissions"@),
    ) {
        (Some(org_name), Some(role), Some(inherited_roles), Some(permissions)) => Some(
            OrgMembershipView { org_id, org_name, role, inherited_roles, permissions },
        ),
        _ => None,
    }
}

/// The memberships that the entries of an organization map describe, in the
/// entries' order; nothing where an entry describes none.
pub open spec fn memberships_of(entries: Seq<(Seq<char>, Json)>) -> Option<Seq<OrgMembershipView>> {
    if forall|i: int|
        0 <= i < entries.len() ==> membership_of(
            (#[trigger] entries[i]).0,
            entries[i].1,
        ).is_some() {
        Some(
            Seq::new(
                entries.len(),
                |i: int| membership_of(entries[i].0, entries[i].1).unwrap(),
            ),
        )
    } else {
        None
    }
}

/// The memberships of a payload. A payload without an organization map has none.
pub open spec fn memberships_member(doc: Json) -> Option<Seq<OrgMembershipView>> {
    match member(doc, "org_id_to_org_member_info"@) {
        None => Some(Seq::empty()),
        Some(Json::Record(entries)) => memberships_of(entries),
        Some(_) => None,
    }
}

/// The pairs of an object whose values are all texts.
pub open spec fn text_pairs_of(entries: Seq<(Seq<char>, Json)>) -> Option<
    Seq<(Seq<char>, Seq<char>)>,
> {
    if forall|i: int| 0 <= i < entries.len() ==> (#[trigger] entries[i]).1 is Text {
        Some(Seq::new(entries.len(), |i: int| (entries[i].0, entries[i].1->Text_0)))
    } else {
        None
    }
}

/// The metadata of a payload. A payload without `metadata` has none.
pub open spec fn metadata_member(doc: Json) -> Option<Seq<(Seq<char>, Seq<char>)>> {
    match member(doc, "metadata"@) {
        None => Some(Seq::empty()),
        Some(Json::Record(entries)) => text_pairs_of(entries),
        Some(_) => None,
    }
}

/// The audiences of a payload: `aud` is one text or a list of texts. A payload
/// without `aud` names no audience.
pub open spec fn audience_member(doc: Json) -> Option<Seq<Seq<char>>> {
    match member(doc, "aud"@) {
        None => Some(Seq::empty()),
        Some(Json::Text(one)) => Some(seq![one]),
        Some(Json::List(items)) => texts_of(items),
        Some(_) => None,
    }
}

/// The claims that a payload holds; nothing where `sub` or `exp` is missing or a
/// member has another type than the one it is read as.
pub open spec fn claims_of(doc: Json) -> Option<ClaimsView> {
    match (
        text_member(doc, "sub"@),
        unsigned_member(doc, "exp"@),
        optional_unsigned_member(doc, "iat"@),
        optional_text_member(doc, "iss"@),
        audience_member(doc),
        memberships_member(doc),
        metadata_member(doc),
    ) {
        (
            Some(subject),
            Some(expires_at),
            Some(issued_at),
            Some(issuer),
            Some(audience),
            Some(memberships),
            Some(metadata),
        ) => Some(
            ClaimsView { subject, issued_at, expires_at, issuer, audience, memberships, metadata },
        ),
        _ => None,
    }
}

/// Reads the membership that one entry of the organization map describes.
pub fn read_membership(org_id: &str, doc: &serde_json::Value) -> (membership: Option<OrgMembership>)
    ensures
        membership.is_some() == membership_of(org_id@, json_shape(*doc)).is_some(),
        membership matches Some(m) ==> membership_of(org_id@, json_shape(*doc)) == Some(m@),
{
    let org_name = match read_text(doc, "org_name") {
        Some(text) => text,
        None => {
            return None;
        },
    };
    let role = match read_text(doc, "user_role") {
        Some(text) => text,
        None => {
            return None;
        },
    };
    let inherited_roles = match read_optional_texts(doc, "inherited_user_roles_plus_current_role") {
        Some(list) => list,
        None => {
            return None;
        },
    };
    let permissions = match read_optional_texts(doc, "user_permissions") {
        Some(list) => list,
        None => {
            return None;
        },
    };
    Some(OrgMembership { org_id: org_id.to_owned(), org_name, role, inherited_roles, permissions })
}

/// Reads the memberships of a payload, in the order of the organization map.
pub fn read_memberships(doc: &serde_json::Value) -> (memberships: Option<Vec<OrgMembership>>)
    ensures
        memberships.is_some() == memberships_member(json_shape(*doc)).is_some(),
        memberships matches Some(list) ==> {
            &&& memberships_member(json_shape(*doc)) == Some(views(list@))
            &&& distinct_orgs(views(list@))
        },
{
    let map = match json_member(doc, "org_id_to_org_member_info") {
        Some(map) => map,
        None => {
            let list: Vec<OrgMembership> = Vec::new();
            assert(views(list@) =~= Seq::<OrgMembershipView>::empty());
            return Some(list);
        },
    };
    let entries = match json_members(map) {
        Some(entries) => entries,
        None => {
            return None;
        },
    };
    let ghost shapes = member_shapes(entries@);
    let mut list: Vec<OrgMembership> = Vec::new();
    let mut i: usize = 0;
    while i < entries.len()
        invariant
            i <= entries.len(),
            list@.len() == i,
            memberships_member(json_shape(*doc)) == memberships_of(shapes),
            shapes == member_shapes(entries@),
            distinct_names(shapes),
            forall|k: int|
                0 <= k < i ==> membership_of((#[trigger] shapes[k]).0, shapes[k].1) == Some(
                    list@[k]@,
                ),
        decreases entries.len() - i,
    {
        let entry = &entries[i];
        match read_membership(entry.0.as_str(), entry.1) {
            Some(membership) => {
                list.push(membership);
            },
            None => {
                assert(membership_of(shapes[i as int].0, shapes[i as int].1).is_none());
                return None;
            },
        }
        i = i + 1;
    }
    assert(views(list@) =~= memberships_of(shapes).unwrap());
    assert(distinct_orgs(views(list@))) by {
        assert forall|a: int, b: int| 0 <= a < b < list@.len() implies views(list@)[a].org_id
            != views(list@)[b].org_id by {
            assert(membership_of(shapes[a].0, shapes[a].1) == Some(list@[a]@));
            assert(membership_of(shapes[b].0, shapes[b].1) == Some(list@[b]@));
        }
    }
    Some(list)
}

/// Reads the metadata of a payload.
pub fn read_metadata(doc: &serde_json::Value) -> (metadata: Option<Vec<(String, String)>>)
    ensures
        metadata.is_some() == metadata_member(json_shape(*doc)).is_some(),
        metadata matches Some(list) ==> metadata_member(json_shape(*doc)) == Some(
            pair_views(list@),
        ),
{
    let map = match json_member(doc, "metadata") {
        Some(map) => map,
        None => {
            let list: Vec<(String, String)> = Vec::new();
            assert(pair_views(list@) =~= Seq::<(Seq<char>, Seq<char>)>::empty());
            return Some(list);
        },
    };
    let entries = match json_members(map) {
        Some(entries) => entries,
        None => {
            return None;
        },
    };
    let ghost shapes = member_shapes(entries@);
    let mut list: Vec<(String, String)> = Vec::new();
    let mut i: usize = 0;
    while i < entries.len()
        invariant
            i <= entries.len(),
            list@.len() == i,
            metadata_member(json_shape(*doc)) == text_pairs_of(shapes),
            shapes == member_shapes(entries@),
            distinct_names(shapes),
            forall|k: int|
                0 <= k < i ==> (#[trigger] shapes[k]) == (list@[k].0@, Json::Text(list@[k].1@)),
        decreases entries.len() - i,
    {
        let entry = &entries[i];
        match json_text(entry.1) {
            Some(text) => {
                list.push((entry.0.clone(), text.to_owned()));
            },
            None => {
                assert(!(shapes[i as int].1 is Text));
                return None;
            },
        }
        i = i + 1;
    }
    assert(pair_views(list@) =~= text_pairs_of(shapes).unwrap());
    Some(list)
}

/// Reads the audiences of a payload.
pub fn read_audience(doc: &serde_json::Value) -> (audience: Option<Vec<String>>)
    ensures
        audience.is_some() == audience_member(json_shape(*doc)).is_some(),
        audience matches Some(list) ==> audience_member(json_shape(*doc)) == Some(views(list@)),
{
    match json_member(doc, "aud") {
        Some(value) => match json_text(value) {
            Some(one) => {
                let mut list: Vec<String> = Vec::new();
                list.push(one.to_owned());
                assert(views(list@) =~= seq![one@]);
                Some(list)
            },
            None => match json_items(value) {
                Some(items) => read_texts(items),
                None => None,
            },
        },
        None => {
            let list: Vec<String> = Vec::new();
            assert(views(list@) =~= Seq::<Seq<char>>::empty());
            Some(list)
        },
    }
}

/// Reads the claims of a payload. The memberships that come out are in distinct
/// organizations.
pub fn read_claims(doc: &serde_json::Value) -> (claims: Option<Claims>)
    ensures
        claims.is_some() == claims_of(json_shape(*doc)).is_some(),
        claims matches Some(c) ==> {
            &&& claims_of(json_shape(*doc)) == Some(c@)
            &&& distinct_orgs(c@.memberships)
        },
{
    let subject = match read_text(doc, "sub") {
        Some(text) => text,
        None => {
            return None;
        },
    };
    let expires_at = match read_unsigned(doc, "exp") {
        Some(n) => n,
        None => {
            return None;
        },
    };
    let issued_at = match read_optional_unsigned(doc, "iat") {
        Some(n) => n,
        None => {
            return None;
        },
    };
    let issuer = match read_optional_text(doc, "iss") {
        Some(text) => text,
        None => {
            return None;
        },
    };
    let audience = match read_audience(doc) {
        Some(list) => list,
        None => {
            return None;
        },
    };
    let memberships = match read_memberships(doc) {
        Some(list) => list,
        None => {
            return None;
        },
    };
    let metadata = match read_metadata(doc) {
        Some(list) => list,
        None => {
            return None;
        },
    };
    Some(Claims { subject, issued_at, expires_at, issuer, audience, memberships, metadata })
}

} // verus!

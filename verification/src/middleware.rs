//! What happens to a request before a handler sees it, and what is answered when
//! it is turned away.

use crate::authorizer::{
    authorize, decision_for, AuthDecision, AuthDecisionView, ForbiddenReason, OrgRef, OrgRefView,
    OrgRequirement, OrgRequirementView, RoleRequirement, RoleRequirementView,
};
use crate::claims::{distinct_orgs, Claims, ClaimsView};
use crate::identity::{identity_of, IdentityContext, IdentityView};
use crate::cache::{KeyMaterialCache, KeyMaterialCacheView};
use crate::keys::{InitError, SigningKeySet, SigningKeyView};
use crate::refresh::{
    fetch_called_for, finish_refresh, refreshed_outcome, verify_cached, verify_or_refresh,
    VerifyStep, VerifyStepView,
};
use crate::token::{
    verdict_view, verify, verify_outcome, VerificationError, VerifierConfig, VerifierConfigView,
};
use vstd::prelude::*;
use vstd::string::*;
use vstd::utf8::is_ascii_chars;

verus! {

/// Why a request carries no identity. Both answers are 401; they are told apart
/// for logs and counters.
#[derive(Debug, Clone, Copy, PartialEq, Eq, Structural)]
pub enum AuthFailure {
    /// There is no authorization header, or it holds no bearer token.
    MissingToken,
    InvalidToken(VerificationError),
}

/// Whether a header value starts with the scheme `Bearer`, in any case, and a
/// space.
pub open spec fn has_bearer_scheme(header: Seq<char>) -> bool {
    &&& header.len() >= 7
    &&& (header[0] == 'b' || header[0] == 'B')
    &&& (header[1] == 'e' || header[1] == 'E')
    &&& (header[2] == 'a' || header[2] == 'A')
    &&& (header[3] == 'r' || header[3] == 'R')
    &&& (header[4] == 'e' || header[4] == 'E')
    &&& (header[5] == 'r' || header[5] == 'R')
    &&& header[6] == ' '
}

/// A space or a tab.
pub open spec fn is_blank(c: char) -> bool {
    c == ' ' || c == '\t'
}

/// A text without the blanks at its start.
pub open spec fn trim_start(text: Seq<char>) -> Seq<char>
    decreases text.len(),
{
    if text.len() > 0 && is_blank(text[0]) {
        trim_start(text.drop_first())
    } else {
        text
    }
}

/// A text without the blanks at its end.
pub open spec fn trim_end(text: Seq<char>) -> Seq<char>
    decreases text.len(),
{
    if text.len() > 0 && is_blank(text.last()) {
        trim_end(text.drop_last())
    } else {
        text
    }
}

/// The bearer token of an authorization header: what follows the scheme, without
/// the blanks around it. Nothing for a header with another scheme, or one that
/// holds a character outside ASCII.
pub open spec fn bearer_of(header: Seq<char>) -> Option<Seq<char>> {
    if is_ascii_chars(header) && has_bearer_scheme(header) {
        Some(trim_end(trim_start(header.skip(7))))
    } else {
        None
    }
}

/// The byte of a space.
const SPACE: u8 = 32;

/// The byte of a tab.
const TAB: u8 = 9;

/// Whether the character at `i` is one of the two cases of a letter.
fn letter_at(header: &str, i: usize, lower: char, upper: char) -> (is: bool)
    requires
        i < header@.len(),
    ensures
        is == (header@[i as int] == lower || header@[i as int] == upper),
{
    let c = header.get_char(i);
    c == lower || c == upper
}

/// Whether the character at `i` is a blank.
fn blank_at(header: &str, i: usize) -> (is: bool)
    requires
        header.is_ascii(),
        i < header@.len(),
    ensures
        is == is_blank(header@[i as int]),
{
    let b = header.get_ascii(i);
    b == SPACE || b == TAB
}

/// Takes the bearer token out of the value of an authorization header.
pub fn bearer_token<'a>(header: &'a str) -> (token: Option<&'a str>)
    ensures
        token.is_some() == bearer_of(header@).is_some(),
        token matches Some(t) ==> bearer_of(header@) == Some(t@),
{
    if !header.is_ascii() {
        return None;
    }
    let n = header.unicode_len();
    if n < 7 {
        return None;
    }
    let scheme = letter_at(header, 0, 'b', 'B')
        && letter_at(header, 1, 'e', 'E')
        && letter_at(header, 2, 'a', 'A')
        && letter_at(header, 3, 'r', 'R')
        && letter_at(header, 4, 'e', 'E')
        && letter_at(header, 5, 'r', 'R')
        && header.get_ascii(6) == SPACE;
    if !scheme {
        return None;
    }
    let ghost rest = header@.skip(7);
    let mut start: usize = 7;
    assert(header@.skip(7) =~= header@.subrange(7, n as int));
    while start < n && blank_at(header, start)
        invariant
            7 <= start <= n,
            n == header@.len(),
            header.is_ascii(),
            trim_start(rest) == trim_start(header@.subrange(start as int, n as int)),
        decreases n - start,
    {
        assert(header@.subrange(start as int, n as int).drop_first() =~= header@.subrange(
            start + 1,
            n as int,
        ));
        start = start + 1;
    }
    let ghost tail = header@.subrange(start as int, n as int);
    assert(trim_start(rest) == tail);
    let mut end: usize = n;
    while end > start && blank_at(header, end - 1)
        invariant
            start <= end <= n,
            n == header@.len(),
            header.is_ascii(),
            trim_end(tail) == trim_end(header@.subrange(start as int, end as int)),
        decreases end - start,
    {
        assert(header@.subrange(start as int, end as int).drop_last() =~= header@.subrange(
            start as int,
            end - 1,
        ));
        end = end - 1;
    }
    assert(trim_end(tail) == header@.subrange(start as int, end as int));
    Some(header.substring_ascii(start, end))
}

/// The identity that a verdict lets in, or the failure that it stands for. The
/// verdict is that of a verification, whose claims hold each organization once.
pub fn identify(verdict: Result<Claims, VerificationError>) -> (caller: Result<
    IdentityContext,
    AuthFailure,
>)
    requires
        verdict matches Ok(claims) ==> distinct_orgs(claims@.memberships),
    ensures
        caller_view(caller) == caller_from(verdict_view(verdict)),
{
    match verdict {
        Ok(claims) => Ok(IdentityContext::from_claims(claims)),
        Err(error) => Err(AuthFailure::InvalidToken(error)),
    }
}

/// The bearer token of a request, from the value of its authorization header if
/// it has one.
pub open spec fn token_in(authorization: Option<Seq<char>>) -> Option<Seq<char>> {
    match authorization {
        Some(header) => bearer_of(header),
        None => None,
    }
}

/// The caller that a verdict stands for.
pub open spec fn caller_from(verdict: Result<ClaimsView, VerificationError>) -> Result<
    IdentityView,
    AuthFailure,
> {
    match verdict {
        Ok(claims) => Ok(identity_of(claims)),
        Err(error) => Err(AuthFailure::InvalidToken(error)),
    }
}

/// Who a request is from: the identity of the claims of its bearer token, if the
/// token is there and verifies.
pub open spec fn caller_of(
    authorization: Option<Seq<char>>,
    keys: Seq<SigningKeyView>,
    config: VerifierConfigView,
    now: u64,
) -> Result<IdentityView, AuthFailure> {
    match token_in(authorization) {
        Some(token) => caller_from(verify_outcome(token, keys, config, now)),
        None => Err(AuthFailure::MissingToken),
    }
}

/// The view of an optional header value.
pub open spec fn header_view(authorization: Option<&str>) -> Option<Seq<char>> {
    match authorization {
        Some(header) => Some(header@),
        None => None,
    }
}

/// The view of a caller or a failure.
pub open spec fn caller_view(caller: Result<IdentityContext, AuthFailure>) -> Result<
    IdentityView,
    AuthFailure,
> {
    match caller {
        Ok(identity) => Ok(identity@),
        Err(failure) => Err(failure),
    }
}

/// Takes the bearer token out of a request.
pub fn request_token<'a>(authorization: Option<&'a str>) -> (token: Option<&'a str>)
    ensures
        token.is_some() == token_in(header_view(authorization)).is_some(),
        token matches Some(t) ==> token_in(header_view(authorization)) == Some(t@),
{
    match authorization {
        Some(header) => bearer_token(header),
        None => None,
    }
}

/// Authenticates a request from the value of its authorization header, if it has
/// one. An identity is made only where the token verifies.
pub fn authenticate(
    authorization: Option<&str>,
    keys: &SigningKeySet,
    config: &VerifierConfig,
    now: u64,
) -> (caller: Result<IdentityContext, AuthFailure>)
    ensures
        caller_view(caller) == caller_of(header_view(authorization), keys@.keys, config@, now),
{
    match request_token(authorization) {
        Some(token) => identify(verify(token, keys, config, now)),
        None => Err(AuthFailure::MissingToken),
    }
}

/// What to do next with a request.
#[derive(Debug, PartialEq, Eq)]
pub enum AuthStep {
    /// The request is from this caller, or from nobody.
    Done(Result<IdentityContext, AuthFailure>),
    /// The token declares a key that is not in the set, and a fetch is due: fetch
    /// the keys, then authenticate once more.
    FetchKeys,
}

pub enum AuthStepView {
    Done(Result<IdentityView, AuthFailure>),
    FetchKeys,
}

impl View for AuthStep {
    type V = AuthStepView;

    open spec fn view(&self) -> AuthStepView {
        match self {
            AuthStep::Done(caller) => AuthStepView::Done(caller_view(*caller)),
            AuthStep::FetchKeys => AuthStepView::FetchKeys,
        }
    }
}

/// Whether a request calls for the keys to be fetched at `now`: its token declares
/// an unknown key, and a fetch is due.
pub open spec fn request_calls_for_fetch(
    authorization: Option<Seq<char>>,
    cache: KeyMaterialCacheView,
    now: u64,
) -> bool {
    match token_in(authorization) {
        Some(token) => fetch_called_for(token, cache, now),
        None => false,
    }
}

/// The next step with a request: a fetch where the request calls for one, and else
/// the caller that the keys in use make out.
pub open spec fn step_for(
    authorization: Option<Seq<char>>,
    cache: KeyMaterialCacheView,
    config: VerifierConfigView,
    now: u64,
) -> AuthStepView {
    if request_calls_for_fetch(authorization, cache, now) {
        AuthStepView::FetchKeys
    } else {
        AuthStepView::Done(caller_of(authorization, cache.keys.keys, config, now))
    }
}

/// The step that a step of verification stands for.
fn step_of(step: VerifyStep) -> (next: AuthStep)
    requires
        step matches VerifyStep::Done(Ok(claims)) ==> distinct_orgs(claims@.memberships),
    ensures
        next@ == match step@ {
            VerifyStepView::Done(verdict) => AuthStepView::Done(caller_from(verdict)),
            VerifyStepView::FetchKeys => AuthStepView::FetchKeys,
        },
{
    match step {
        VerifyStep::Done(verdict) => AuthStep::Done(identify(verdict)),
        VerifyStep::FetchKeys => AuthStep::FetchKeys,
    }
}

/// Authenticates a request against the keys in use and changes nothing. Where the
/// request calls for a fetch, none is granted yet.
pub fn authenticate_cached(
    authorization: Option<&str>,
    cache: &KeyMaterialCache,
    config: &VerifierConfig,
    now: u64,
) -> (step: AuthStep)
    ensures
        step@ == step_for(header_view(authorization), cache@, config@, now),
{
    match request_token(authorization) {
        Some(token) => step_of(verify_cached(token, cache, config, now)),
        None => AuthStep::Done(Err(AuthFailure::MissingToken)),
    }
}

/// Authenticates a request against the keys in use. Where the request calls for a
/// fetch, the fetch is recorded as granted at `now`; otherwise the cache stays as
/// it is.
pub fn authenticate_or_refresh(
    authorization: Option<&str>,
    cache: &mut KeyMaterialCache,
    config: &VerifierConfig,
    now: u64,
) -> (step: AuthStep)
    ensures
        step@ == step_for(header_view(authorization), old(cache)@, config@, now),
        final(cache)@ == if request_calls_for_fetch(header_view(authorization), old(cache)@, now) {
            KeyMaterialCacheView { last_attempt: Some(now), ..old(cache)@ }
        } else {
            old(cache)@
        },
{
    match request_token(authorization) {
        Some(token) => step_of(verify_or_refresh(token, cache, config, now)),
        None => AuthStep::Done(Err(AuthFailure::MissingToken)),
    }
}

/// Who a request is from after the keys were fetched again: a token that still
/// declares an unknown key is refused for that.
pub open spec fn refreshed_caller(
    authorization: Option<Seq<char>>,
    keys: Seq<SigningKeyView>,
    config: VerifierConfigView,
    now: u64,
) -> Result<IdentityView, AuthFailure> {
    match token_in(authorization) {
        Some(token) => caller_from(refreshed_outcome(token, keys, config, now)),
        None => Err(AuthFailure::MissingToken),
    }
}

/// Ends a fetch that [`authenticate_or_refresh`] called for. Keys that were fetched
/// and are usable replace the set in use; otherwise the set stays. The request is
/// then authenticated once more, and no further fetch is asked for.
pub fn finish_authentication(
    authorization: Option<&str>,
    cache: &mut KeyMaterialCache,
    fetched: Result<SigningKeySet, InitError>,
    config: &VerifierConfig,
    now: u64,
) -> (caller: Result<IdentityContext, AuthFailure>)
    ensures
        final(cache)@ == match fetched {
            Ok(keys) => KeyMaterialCacheView { keys: keys@, ..old(cache)@ },
            Err(_) => old(cache)@,
        },
        caller_view(caller) == refreshed_caller(
            header_view(authorization),
            final(cache)@.keys.keys,
            config@,
            now,
        ),
{
    match request_token(authorization) {
        Some(token) => identify(finish_refresh(token, cache, fetched, config, now)),
        None => {
            match fetched {
                Ok(keys) => {
                    cache.install(keys);
                },
                Err(_) => {},
            }
            Err(AuthFailure::MissingToken)
        },
    }
}

/// Who the caller is within the organization `org_id`: the caller's membership
/// there if there is one, whatever the role.
pub fn org_whoami(identity: &IdentityContext, org_id: &str) -> (decision: AuthDecision)
    ensures
        decision@ == decision_for(
            identity@.memberships,
            OrgRequirementView { org: OrgRefView::Id(org_id@), role: RoleRequirementView::AnyRole },
        ),
{
    let requirement = OrgRequirement {
        org: OrgRef::Id(org_id.to_owned()),
        role: RoleRequirement::AnyRole,
    };
    authorize(identity, &requirement)
}

/// The decision on a request that may carry no identity: without one it is
/// `Unauthorized`, with one it is that of [`authorize`].
pub fn authorize_caller(
    caller: &Result<IdentityContext, AuthFailure>,
    requirement: &OrgRequirement,
) -> (decision: AuthDecision)
    ensures
        decision@ == match caller {
            Ok(identity) => decision_for(identity@.memberships, requirement@),
            Err(_) => AuthDecisionView::Unauthorized,
        },
{
    match caller {
        Ok(identity) => authorize(identity, requirement),
        Err(_) => AuthDecision::Unauthorized,
    }
}

/// The HTTP status that answers a decision.
pub open spec fn status_of(decision: AuthDecisionView) -> u16 {
    match decision {
        AuthDecisionView::Allowed(_) => 200,
        AuthDecisionView::Unauthorized => 401,
        AuthDecisionView::Forbidden(_) => 403,
    }
}

/// The HTTP status that answers a decision: 200 where it allows, 401 where nobody
/// is authenticated, 403 where the caller is refused.
pub fn decision_status(decision: &AuthDecision) -> (status: u16)
    ensures
        status == status_of(decision@),
{
    match decision {
        AuthDecision::Allowed(_) => 200,
        AuthDecision::Unauthorized => 401,
        AuthDecision::Forbidden(_) => 403,
    }
}

/// The HTTP status that answers a request without identity: always 401.
pub fn failure_status(failure: &AuthFailure) -> (status: u16)
    ensures
        status == 401,
{
    401
}

/// What a refusal says of its reason.
pub open spec fn reason_message(reason: ForbiddenReason) -> Seq<char> {
    match reason {
        ForbiddenReason::NotAMember => "not a member of this organization"@,
        ForbiddenReason::InsufficientRole => "insufficient role"@,
        ForbiddenReason::AmbiguousOrganization => "organization name is ambiguous"@,
    }
}

/// The body of the answer to a refused caller. It names the reason and nothing of
/// the request.
pub fn reason_text(reason: ForbiddenReason) -> (text: &'static str)
    ensures
        text@ == reason_message(reason),
{
    match reason {
        ForbiddenReason::NotAMember => "not a member of this organization",
        ForbiddenReason::InsufficientRole => "insufficient role",
        ForbiddenReason::AmbiguousOrganization => "organization name is ambiguous",
    }
}

} // verus!

//! Sharing documents: who may grant, see and withdraw a user's access to a
//! document. The counts come from the database; the decisions are made here.
use vstd::prelude::*;
use crate::base::UserContext;
use crate::error::{DRError, DRResult, HttpStatus, StructuredError, forbidden, is_forbidden, parse_id};
use crate::ids::{Id, spec_parse_uuid};

verus! {

/// The number of rows a page shows when the request does not say.
pub const DEFAULT_PAGE_LIMIT: usize = 10;

/// The limit and offset of a page of results: ten rows from the start unless
/// the request says otherwise (the limit converted as `as i64` converts it).
pub open spec fn spec_page_bounds(limit: Option<usize>, offset: Option<i64>) -> (i64, i64) {
    (
        match limit {
            Some(l) => l as i64,
            None => 10,
        },
        match offset {
            Some(o) => o,
            None => 0,
        },
    )
}

/// The limit and offset of a page of results.
pub fn page_bounds(limit: Option<usize>, offset: Option<i64>) -> (r: (i64, i64))
    ensures
        r == spec_page_bounds(limit, offset),
{
    let l = match limit {
        Some(l) => l,
        None => DEFAULT_PAGE_LIMIT,
    };
    let o = match offset {
        Some(o) => o,
        None => 0,
    };
    (l as i64, o)
}

/// Whether a user may see and share a document, given how many documents of
/// that identifier they own and how many accesses to it they hold.
pub open spec fn spec_has_access(owner_count: i64, access_count: i64) -> bool {
    owner_count + access_count > 0
}

/// Whether a user may see and share a document.
pub fn has_access(owner_count: i64, access_count: i64) -> (r: bool)
    requires
        i64::MIN <= owner_count + access_count <= i64::MAX,
    ensures
        r == spec_has_access(owner_count, access_count),
{
    owner_count + access_count > 0
}

/// Whether an access is missing, given how many rows grant it.
pub fn access_missing(existing: i64) -> (r: bool)
    ensures
        r == (existing == 0),
{
    existing == 0
}

/// The identifiers in a request to grant `user` access to `doc`: the user is
/// read first, then the document.
pub fn add_access_request(doc: &str, user: &str) -> (r: DRResult<(Id, Id)>)
    ensures
        match (spec_parse_uuid(user@), spec_parse_uuid(doc@)) {
            (Ok(u), Ok(d)) => r == Ok::<(Id, Id), StructuredError>((Id { value: d }, Id { value: u })),
            (Err(m), _) => r matches Err(e) && e.status == HttpStatus::BadRequest && e.error_type == DRError::UuidError && e.error@ == m,
            (Ok(_), Err(m)) => r matches Err(e) && e.status == HttpStatus::BadRequest && e.error_type == DRError::UuidError && e.error@ == m,
        },
{
    let u = parse_id(user)?;
    let d = parse_id(doc)?;
    Ok((d, u))
}

/// What happens to a request to grant an access.
#[derive(Debug, Clone, Copy, PartialEq, Eq, Structural)]
pub enum GrantOutcome {
    /// The access was there already: nothing changes.
    AlreadyGranted,
    /// The access is recorded.
    Granted,
    /// The requester may not share the document.
    Refused,
}

/// The outcome of a request to grant an access, given how many rows grant it
/// already and, when none does, the requester's counts for the document.
pub open spec fn spec_grant_outcome(existing: i64, requester: (i64, i64)) -> GrantOutcome {
    if existing != 0 {
        GrantOutcome::AlreadyGranted
    } else if spec_has_access(requester.0, requester.1) {
        GrantOutcome::Granted
    } else {
        GrantOutcome::Refused
    }
}

/// The status that answers a grant request.
pub open spec fn grant_status(o: GrantOutcome) -> HttpStatus {
    match o {
        GrantOutcome::Refused => HttpStatus::Forbidden,
        _ => HttpStatus::NoContent,
    }
}

/// The outcome of a grant request.
pub fn grant_outcome(existing: i64, requester: (i64, i64)) -> (r: GrantOutcome)
    requires
        i64::MIN <= requester.0 + requester.1 <= i64::MAX,
    ensures
        r == spec_grant_outcome(existing, requester),
{
    if !access_missing(existing) {
        GrantOutcome::AlreadyGranted
    } else if has_access(requester.0, requester.1) {
        GrantOutcome::Granted
    } else {
        GrantOutcome::Refused
    }
}

/// The status that answers a grant request.
pub fn grant_response(o: GrantOutcome) -> (s: HttpStatus)
    ensures
        s == grant_status(o),
{
    match o {
        GrantOutcome::Refused => HttpStatus::Forbidden,
        _ => HttpStatus::NoContent,
    }
}

/// The answer to a grant request: status 204 when the access is there (it
/// was already, or it is now recorded); the structured "forbidden" error when
/// the requester may not share the document.
pub fn grant_result(o: GrantOutcome) -> (r: DRResult<HttpStatus>)
    ensures
        o == GrantOutcome::Refused ==> (r matches Err(e) && is_forbidden(e) && e.consistent()),
        o != GrantOutcome::Refused ==> r == Ok::<HttpStatus, StructuredError>(HttpStatus::NoContent),
{
    match o {
        GrantOutcome::Refused => forbidden(),
        _ => Ok(HttpStatus::NoContent),
    }
}

/// Granting an access that exists already changes nothing and succeeds,
/// whoever asks.
pub proof fn lemma_grant_is_idempotent(existing: i64, requester: (i64, i64))
    requires
        existing != 0,
    ensures
        spec_grant_outcome(existing, requester) == GrantOutcome::AlreadyGranted,
        grant_status(spec_grant_outcome(existing, requester)) == HttpStatus::NoContent,
{
}

/// The owner of a document may always share it.
pub proof fn lemma_owner_may_share(owner_count: i64, access_count: i64)
    requires
        owner_count > 0,
        access_count >= 0,
    ensures
        spec_has_access(owner_count, access_count),
        spec_grant_outcome(0, (owner_count, access_count)) == GrantOutcome::Granted,
{
}

/// Someone who neither owns a document nor holds an access to it may not
/// share it.
pub proof fn lemma_stranger_may_not_share()
    ensures
        !spec_has_access(0, 0),
        spec_grant_outcome(0, (0, 0)) == GrantOutcome::Refused,
        grant_status(spec_grant_outcome(0, (0, 0))) == HttpStatus::Forbidden,
{
}

/// The identifiers in a request to withdraw `user`'s access to `doc`: the
/// document is read first, then the user.
pub fn remove_access_request(doc: &str, user: &str) -> (r: DRResult<(Id, Id)>)
    ensures
        match (spec_parse_uuid(doc@), spec_parse_uuid(user@)) {
            (Ok(d), Ok(u)) => r == Ok::<(Id, Id), StructuredError>((Id { value: d }, Id { value: u })),
            (Err(m), _) => r matches Err(e) && e.status == HttpStatus::BadRequest && e.error_type == DRError::UuidError && e.error@ == m,
            (Ok(_), Err(m)) => r matches Err(e) && e.status == HttpStatus::BadRequest && e.error_type == DRError::UuidError && e.error@ == m,
        },
{
    let d = parse_id(doc)?;
    let u = parse_id(user)?;
    Ok((d, u))
}

/// Whether withdrawing `target`'s access needs to know whether the requester
/// owns the document: it does unless users withdraw their own access.
pub fn remove_needs_owner_check(ctx: &UserContext, target: Id) -> (r: bool)
    ensures
        r == (ctx.user_id != target),
{
    ctx.user_id != target
}

/// Whether a withdrawal is allowed: users may withdraw their own access, and
/// the owner of a document (one owned row) anybody's.
pub open spec fn spec_may_remove(requester: Id, target: Id, owner_count: i64) -> bool {
    requester == target || owner_count == 1
}

/// Whether the requester may withdraw `target`'s access; `owner_count` is the
/// number of documents of that identifier that the requester owns (not used
/// when they withdraw their own access).
pub fn remove_decision(ctx: &UserContext, target: Id, owner_count: i64) -> (r: DRResult<()>)
    ensures
        r is Ok <==> spec_may_remove(ctx.user_id, target, owner_count),
        r matches Err(e) ==> is_forbidden(e),
{
    let owner: i64 = if ctx.user_id == target {
        1
    } else {
        owner_count
    };
    if owner == 1 {
        Ok(())
    } else {
        forbidden()
    }
}

/// Users may always withdraw their own access, whatever they own.
pub proof fn lemma_self_removal_allowed(user: Id, owner_count: i64)
    ensures
        spec_may_remove(user, user, owner_count),
{
}

/// Nobody but the owner may withdraw someone else's access.
pub proof fn lemma_only_owner_removes_others(requester: Id, target: Id, owner_count: i64)
    requires
        requester != target,
        owner_count != 1,
    ensures
        !spec_may_remove(requester, target, owner_count),
{
}

} // verus!

//! Organizations and their members: who may create, delete and manage them.
use vstd::prelude::*;
use crate::base::{UserContext, can_manage_members, may_manage_members};
use crate::error::{DRError, DRResult, HttpStatus, StructuredError, forbidden, is_forbidden, parse_id};
use crate::ids::{Id, is_uuid_char, spec_parse_uuid};
use crate::model::{Member, Organization};
use crate::text::contains_char;

verus! {

/// Only site administrators may create or delete organizations, and see or
/// change other users' limits.
pub fn require_site_admin(ctx: &UserContext) -> (r: DRResult<()>)
    ensures
        r is Ok <==> ctx.site_admin,
        r matches Err(e) ==> is_forbidden(e),
{
    if !ctx.site_admin {
        return forbidden();
    }
    Ok(())
}

/// The identifier of the organization to delete, for a site administrator.
pub fn delete_organization_request(ctx: &UserContext, org: &str) -> (r: DRResult<Id>)
    ensures
        !ctx.site_admin ==> (r matches Err(e) && is_forbidden(e)),
        ctx.site_admin ==> match spec_parse_uuid(org@) {
            Ok(v) => r == Ok::<Id, StructuredError>(Id { value: v }),
            Err(m) => r matches Err(e) && e.status == HttpStatus::BadRequest && e.error_type == DRError::UuidError && e.error@ == m,
        },
{
    require_site_admin(ctx)?;
    parse_id(org)
}

/// The organization that a site administrator's request to create `name`
/// answers with, given the one of that name that exists already, if any: the
/// existing one, or a new one (which is then stored).
pub fn organization_for_name(existing: Option<Organization>, name: &str) -> (r: (Organization, bool))
    ensures
        match existing {
            Some(o) => r.0.id == o.id && r.0.name@ == o.name@ && r.0.created == o.created && !r.1,
            None => r.0.name@ == name@ && r.0.created.wf() && r.1,
        },
{
    match existing {
        Some(o) => (o, false),
        None => (Organization::create(name), true),
    }
}

/// The identifiers in a request about the membership of `user` in `org`, for
/// someone who may manage that organization's members: the organization is
/// read first, the permission checked, then the user read.
pub fn member_request(ctx: &UserContext, org: &str, user: &str) -> (r: DRResult<(Id, Id)>)
    ensures
        match spec_parse_uuid(org@) {
            Err(m) => r matches Err(e) && e.status == HttpStatus::BadRequest && e.error_type == DRError::UuidError && e.error@ == m,
            Ok(o) => if !may_manage_members(*ctx, Id { value: o }) {
                r matches Err(e) && is_forbidden(e)
            } else {
                match spec_parse_uuid(user@) {
                    Ok(u) => r == Ok::<(Id, Id), StructuredError>((Id { value: o }, Id { value: u })),
                    Err(m) => r matches Err(e) && e.status == HttpStatus::BadRequest && e.error_type == DRError::UuidError && e.error@ == m,
                }
            },
        },
{
    let org_id = parse_id(org)?;
    if !can_manage_members(ctx, org_id) {
        return forbidden();
    }
    let user_id = parse_id(user)?;
    Ok((org_id, user_id))
}

/// The user that a request to set a membership names: an identifier, or an
/// e-mail address (whose user is found, or created, by the caller).
#[derive(Debug, Clone)]
pub enum MemberTarget {
    User(Id),
    Email(String),
}

/// Whether `t` is the user that the text `user` names: the identifier it
/// reads as, or else the address when it holds an `@`.
pub open spec fn is_member_target(t: MemberTarget, user: Seq<char>) -> bool {
    match spec_parse_uuid(user) {
        Ok(v) => t == MemberTarget::User(Id { value: v }),
        Err(_) => user.contains('@') && (t matches MemberTarget::Email(a) && a@ == user),
    }
}

/// The organization and user in a request to set a membership, for someone
/// who may manage that organization's members; the user may be given by
/// identifier or by e-mail address.
pub fn set_member_request(ctx: &UserContext, org: &str, user: &str) -> (r: DRResult<(Id, MemberTarget)>)
    ensures
        match spec_parse_uuid(org@) {
            Err(m) => r matches Err(e) && e.status == HttpStatus::BadRequest && e.error_type == DRError::UuidError && e.error@ == m,
            Ok(o) => if !may_manage_members(*ctx, Id { value: o }) {
                r matches Err(e) && is_forbidden(e)
            } else {
                match spec_parse_uuid(user@) {
                    Ok(_) => r matches Ok((org_id, t)) && org_id == (Id { value: o }) && is_member_target(t, user@),
                    Err(m) => if user@.contains('@') {
                        r matches Ok((org_id, t)) && org_id == (Id { value: o }) && is_member_target(t, user@)
                    } else {
                        r matches Err(e) && e.status == HttpStatus::BadRequest && e.error_type == DRError::UuidError && e.error@ == m
                    },
                }
            },
        },
        user@.contains('@') ==> match r {
            Ok((_, t)) => t matches MemberTarget::Email(a) && a@ == user@,
            Err(_) => true,
        },
{
    let org_id = parse_id(org)?;
    if !can_manage_members(ctx, org_id) {
        return forbidden();
    }
    match Id::parse(user) {
        Ok(id) => {
            proof {
                if user@.contains('@') {
                    let k = choose|k: int| 0 <= k < user@.len() && user@[k] == '@';
                    assert(is_uuid_char(user@[k]));
                }
            }
            Ok((org_id, MemberTarget::User(id)))
        },
        Err(m) => {
            if contains_char(user, '@') {
                Ok((org_id, MemberTarget::Email(String::from_str(user))))
            } else {
                Err(StructuredError::uuid(m))
            }
        },
    }
}

/// How a membership is stored.
#[derive(Debug, Clone, Copy, PartialEq, Eq, Structural)]
pub enum MemberChange {
    /// A new membership row.
    Insert,
    /// The administrator flag of the existing row changes.
    Update,
}

/// The membership that a request to set `user_id`'s membership in `org_id`
/// answers with, given the existing one, if any: the existing one with the
/// new administrator flag, or a new one.
pub fn set_member_outcome(existing: Option<Member>, user_id: Id, org_id: Id, admin: bool) -> (r: (Member, MemberChange))
    ensures
        r.0.org_admin == admin,
        match existing {
            Some(m) => r.0.user_id == m.user_id && r.0.org_id == m.org_id && r.0.created == m.created
                && r.1 == MemberChange::Update,
            None => r.0.user_id == user_id && r.0.org_id == org_id && r.0.created.wf() && r.1
                == MemberChange::Insert,
        },
{
    match existing {
        Some(m) => {
            let mut m = m;
            m.org_admin = admin;
            (m, MemberChange::Update)
        },
        None => (Member::join(user_id, org_id, admin), MemberChange::Insert),
    }
}

/// Site administrators may manage the members of every organization.
pub proof fn lemma_site_admin_manages_all(ctx: UserContext, org_id: Id)
    requires
        ctx.site_admin,
    ensures
        may_manage_members(ctx, org_id),
{
}

} // verus!

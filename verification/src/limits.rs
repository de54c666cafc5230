//! Per-user limits: only site administrators may see or change someone's.
use vstd::prelude::*;
use crate::base::UserContext;
use crate::error::{DRError, DRResult, HttpStatus, StructuredError, is_forbidden, parse_id};
use crate::ids::{Id, spec_parse_uuid};
use crate::orgs::require_site_admin;

verus! {

/// The user whose limits a site administrator asks to see or change; anybody
/// else is refused before the identifier is read.
pub fn limits_request(ctx: &UserContext, user: &str) -> (r: DRResult<Id>)
    ensures
        !ctx.site_admin ==> (r matches Err(e) && is_forbidden(e)),
        ctx.site_admin ==> match spec_parse_uuid(user@) {
            Ok(v) => r == Ok::<Id, StructuredError>(Id { value: v }),
            Err(m) => r matches Err(e) && e.status == HttpStatus::BadRequest && e.error_type == DRError::UuidError && e.error@ == m,
        },
{
    require_site_admin(ctx)?;
    parse_id(user)
}

/// The user whose own limits are asked for.
pub fn my_limits_request(ctx: &UserContext) -> (r: Id)
    ensures
        r == ctx.user_id,
{
    ctx.user_id
}

} // verus!

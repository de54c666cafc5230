//! Who is asking: the logged-in user's context, carried in a private cookie,
//! and the other values that the pages and handlers share.
use vstd::prelude::*;
use crate::ids::Id;
use crate::model::Member;

verus! {

/// The name of the cookie that holds the logged-in user's context.
pub const COOKIE: &'static str = "user";

/// A user's membership in an organization, as the login context keeps it.
#[derive(Clone, Copy, PartialEq, Eq, Structural, Debug)]
pub struct Membership {
    pub org_id: Id,
    pub org_admin: bool,
}

/// The logged-in user: who they are, whether they administer the site, and
/// the organizations they belong to.
#[derive(Clone, Debug)]
pub struct UserContext {
    pub user_id: Id,
    pub site_admin: bool,
    pub org_members: Vec<Membership>,
}

/// The membership that the context keeps of a member record.
pub open spec fn membership_of(m: Member) -> Membership {
    Membership { org_id: m.org_id, org_admin: m.org_admin }
}

/// The memberships that the context keeps of member records, in their order.
pub open spec fn memberships_of(members: Seq<Member>) -> Seq<Membership> {
    members.map_values(|m: Member| membership_of(m))
}

/// Whether the memberships make their holder an administrator of `org_id`.
pub open spec fn administers(memberships: Seq<Membership>, org_id: Id) -> bool {
    exists|i: int| 0 <= i < memberships.len() && #[trigger] memberships[i].org_id == org_id && memberships[i].org_admin
}

/// Whether the holder of the context may manage the members of `org_id`:
/// site administrators may, and so may administrators of that organization.
pub open spec fn may_manage_members(ctx: UserContext, org_id: Id) -> bool {
    ctx.site_admin || administers(ctx.org_members@, org_id)
}

impl UserContext {
    /// The context of a user who belongs to no organization.
    pub fn new(user_id: Id, site_admin: bool) -> (c: UserContext)
        ensures
            c.user_id == user_id,
            c.site_admin == site_admin,
            c.org_members@.len() == 0,
    {
        UserContext { user_id, site_admin, org_members: Vec::new() }
    }

    /// The context of a user with the given memberships.
    pub fn new_in_org(user_id: Id, members: &[Member], site_admin: bool) -> (c: UserContext)
        ensures
            c.user_id == user_id,
            c.site_admin == site_admin,
            c.org_members@ == memberships_of(members@),
    {
        let mut org_members: Vec<Membership> = Vec::new();
        let n = members.len();
        let mut i: usize = 0;
        while i < n
            invariant
                n == members@.len(),
                i <= n,
                org_members@ =~= memberships_of(members@.subrange(0, i as int)),
            decreases n - i,
        {
            let m = &members[i];
            org_members.push(Membership { org_id: m.org_id, org_admin: m.org_admin });
            assert(members@.subrange(0, i + 1) =~= members@.subrange(0, i as int).push(members@[i as int]));
            i = i + 1;
        }
        assert(members@.subrange(0, n as int) =~= members@);
        UserContext { user_id, site_admin, org_members }
    }
}

/// Whether the user administers the organization `org_id`.
pub fn is_admin(ctx: &UserContext, org_id: Id) -> (r: bool)
    ensures
        r == administers(ctx.org_members@, org_id),
{
    let n = ctx.org_members.len();
    let mut i: usize = 0;
    while i < n
        invariant
            n == ctx.org_members@.len(),
            i <= n,
            forall|j: int| 0 <= j < i ==> !(#[trigger] ctx.org_members@[j].org_id == org_id && ctx.org_members@[j].org_admin),
        decreases n - i,
    {
        let m = ctx.org_members[i];
        if m.org_id == org_id && m.org_admin {
            return true;
        }
        i = i + 1;
    }
    false
}

/// Whether the user may manage the members of the organization `org_id`.
pub fn can_manage_members(ctx: &UserContext, org_id: Id) -> (r: bool)
    ensures
        r == may_manage_members(*ctx, org_id),
{
    ctx.site_admin || is_admin(ctx, org_id)
}

/// A user's context built from member records makes them an administrator of
/// exactly the organizations whose record says so.
pub proof fn lemma_admin_of_records(user_id: Id, members: Seq<Member>, org_id: Id)
    ensures
        administers(memberships_of(members), org_id) <==> exists|i: int|
            0 <= i < members.len() && #[trigger] members[i].org_id == org_id && members[i].org_admin,
{
    let ms = memberships_of(members);
    if administers(ms, org_id) {
        let i = choose|i: int| 0 <= i < ms.len() && #[trigger] ms[i].org_id == org_id && ms[i].org_admin;
        assert(members[i].org_id == org_id);
    }
    if exists|i: int| 0 <= i < members.len() && #[trigger] members[i].org_id == org_id && members[i].org_admin {
        let i = choose|i: int| 0 <= i < members.len() && #[trigger] members[i].org_id == org_id && members[i].org_admin;
        assert(ms[i].org_id == org_id);
    }
}

/// A user who belongs to no organization administers none, and may manage
/// members only if they administer the site.
pub proof fn lemma_no_memberships(ctx: UserContext, org_id: Id)
    requires
        ctx.org_members@.len() == 0,
    ensures
        !administers(ctx.org_members@, org_id),
        may_manage_members(ctx, org_id) == ctx.site_admin,
{
}

/// The values that the start page shows.
#[derive(Debug)]
pub struct IndexContext<'r> {
    pub error: &'r str,
    pub message: &'r str,
    pub callback_name: &'r str,
}

/// The values that a document's page shows.
#[derive(Debug)]
pub struct DocumentContext<'r> {
    pub user_id: &'r Id,
    pub doc_id: &'r str,
}

/// The values that an organization's page shows.
#[derive(Debug)]
pub struct OrganizationContext<'r> {
    pub user_id: &'r Id,
    pub org_id: &'r str,
}

/// The address to which a login e-mail is asked for.
#[derive(Debug)]
pub struct LoginEmail<'r> {
    pub address: &'r str,
}

/// The claims of a Google sign-in token.
#[derive(Debug, Clone)]
pub struct Claims {
    pub aud: String,
    pub exp: usize,
    pub iat: usize,
    pub iss: String,
    pub nbf: usize,
    pub sub: String,
    pub email: String,
    pub name: String,
}

/// The site's configuration.
#[derive(Debug, Clone)]
pub struct Config {
    pub port: u16,
    pub callback_name: String,
    pub token_lifespan_minutes: u64,
    pub temp_dir: String,
    pub aws_region: String,
    pub aws_queue: String,
}

/// The standard library's `Instant`, declared so that a registration can
/// carry one; nothing inside it is read.
#[verifier::external_type_specification]
#[verifier::external_body]
pub struct ExInstant(std::time::Instant);

/// Calls `std::time::Instant::now`. Nothing is said of the result: it is the
/// clock's.
#[verifier::external_body]
fn instant_now() -> std::time::Instant {
    std::time::Instant::now()
}

/// A pending e-mail login: the address and when it was asked for.
pub struct LoginRegistration {
    pub address: String,
    pub timestamp: std::time::Instant,
}

impl LoginRegistration {
    /// The registration of `address`, asked for now.
    pub fn new(address: &str) -> (r: LoginRegistration)
        ensures
            r.address@ == address@,
    {
        LoginRegistration { address: String::from_str(address), timestamp: instant_now() }
    }
}

/// A file to download: its declared media type, its name and its bytes.
#[derive(Debug, Clone)]
pub struct Download {
    pub mime: Option<String>,
    pub filename: String,
    pub data: Vec<u8>,
}

/// The `Content-Disposition` header value that makes a browser save a file
/// under `filename`.
pub open spec fn attachment_header(filename: Seq<char>) -> Seq<char> {
    "attachment; filename=\""@ + filename + "\""@
}

impl Download {
    /// The `Content-Disposition` header value of the download.
    pub fn content_disposition(&self) -> (s: String)
        ensures
            s@ == attachment_header(self.filename@),
    {
        let mut s = String::from_str("attachment; filename=\"");
        s.append(self.filename.as_str());
        s.append("\"");
        s
    }
}

} // verus!

//! The records that the site keeps: users, documents, accesses to documents,
//! organizations and their members, per-user limits and login tokens.
use vstd::prelude::*;
use crate::ids::{Id, uuid_version};
use crate::time::Timestamp;

verus! {

/// A registered user.
#[derive(Debug, Clone)]
pub struct User {
    pub id: Id,
    pub email: String,
    pub name: String,
    pub created: Timestamp,
    pub last_login: Option<Timestamp>,
    pub site_admin: bool,
}

/// The name that a user gets: the given one, or else the e-mail address.
pub open spec fn display_name(email: Seq<char>, name: Option<Seq<char>>) -> Seq<char> {
    match name {
        Some(n) => n,
        None => email,
    }
}

fn name_or_email(email: &str, name: Option<&str>) -> (r: String)
    ensures
        r@ == display_name(email@, match name { Some(n) => Some(n@), None => None }),
{
    match name {
        Some(n) => String::from_str(n),
        None => String::from_str(email),
    }
}

impl User {
    /// A user who has just logged in for the first time: a fresh identifier,
    /// the given name (or else the address), created and last logged in now,
    /// not a site administrator.
    pub fn new_login(email: &str, name: Option<&str>) -> (u: User)
        ensures
            u.email@ == email@,
            u.name@ == display_name(email@, match name { Some(n) => Some(n@), None => None }),
            u.last_login is Some,
            u.created.wf(),
            u.last_login->0.wf(),
            !u.site_admin,
            uuid_version(u.id.value) == 4,
    {
        let id = Id::new_random();
        let created = Timestamp::now();
        let last = Timestamp::now();
        User {
            id,
            email: String::from_str(email),
            name: name_or_email(email, name),
            created,
            last_login: Some(last),
            site_admin: false,
        }
    }

    /// A user known only by an address someone else gave (a document was
    /// shared with it): a fresh identifier, the address as name, created now,
    /// never logged in, not a site administrator.
    pub fn new_reference(email: &str) -> (u: User)
        ensures
            u.email@ == email@,
            u.name@ == email@,
            u.last_login is None,
            u.created.wf(),
            !u.site_admin,
            uuid_version(u.id.value) == 4,
    {
        let id = Id::new_random();
        let created = Timestamp::now();
        User {
            id,
            email: String::from_str(email),
            name: String::from_str(email),
            created,
            last_login: None,
            site_admin: false,
        }
    }
}

/// The user of an address that someone else names (in a share or an
/// e-mail): the known user `found`, or else a new user known only by that
/// address, which is to be stored. The answer is the user's identifier and the
/// user to store, if any.
pub fn user_for_address(found: Option<&User>, email: &str) -> (r: (Id, Option<User>))
    ensures
        match found {
            Some(u) => r.0 == u.id && r.1 is None,
            None => r.1 matches Some(n) && n.id == r.0 && n.email@ == email@ && n.name@ == email@
                && n.last_login is None && !n.site_admin,
        },
{
    match found {
        Some(u) => (u.id, None),
        None => {
            let n = User::new_reference(email);
            (n.id, Some(n))
        },
    }
}

/// A stored document.
#[derive(Debug, Clone)]
pub struct Document {
    pub id: Id,
    pub name: String,
    pub created: Timestamp,
    pub owner: Id,
    pub org_id: Option<Id>,
    pub mime: Option<String>,
    pub size: i64,
    pub data: Vec<u8>,
    pub hash: Option<String>,
}

/// What is listed of a document: everything but its content and hash.
#[derive(Debug, Clone)]
pub struct DocumentInfo {
    pub id: Id,
    pub name: String,
    pub created: Timestamp,
    pub owner: Id,
    pub org_id: Option<Id>,
    pub mime: Option<String>,
    pub size: i64,
}

fn copy_option_string(s: &Option<String>) -> (r: Option<String>)
    ensures
        match (s, r) {
            (Some(a), Some(b)) => a@ == b@,
            (None, None) => true,
            _ => false,
        },
{
    match s {
        Some(v) => Some(v.clone()),
        None => None,
    }
}

impl Document {
    /// The listed part of the document.
    pub fn info(&self) -> (i: DocumentInfo)
        ensures
            i.id == self.id,
            i.name@ == self.name@,
            i.created == self.created,
            i.owner == self.owner,
            i.org_id == self.org_id,
            match (self.mime, i.mime) {
                (Some(a), Some(b)) => a@ == b@,
                (None, None) => true,
                _ => false,
            },
            i.size == self.size,
    {
        DocumentInfo {
            id: self.id,
            name: self.name.clone(),
            created: self.created,
            owner: self.owner,
            org_id: self.org_id,
            mime: copy_option_string(&self.mime),
            size: self.size,
        }
    }
}

/// A count returned by a raw SQL query.
#[derive(Debug, Clone, Copy)]
pub struct GenericCount {
    pub count: i64,
}

/// A user's access to a document that someone shared with them.
#[derive(Debug, Clone, Copy)]
pub struct Access {
    pub document_id: Id,
    pub user_id: Id,
    pub created: Timestamp,
}

impl Access {
    /// The access of `user_id` to `document_id`, granted now.
    pub fn grant(document_id: Id, user_id: Id) -> (a: Access)
        ensures
            a.document_id == document_id,
            a.user_id == user_id,
            a.created.wf(),
    {
        Access { document_id, user_id, created: Timestamp::now() }
    }
}

/// An organization.
#[derive(Debug, Clone)]
pub struct Organization {
    pub id: Id,
    pub name: String,
    pub created: Timestamp,
}

impl Organization {
    /// A new organization of the given name, with a fresh identifier, created now.
    pub fn create(name: &str) -> (o: Organization)
        ensures
            o.name@ == name@,
            o.created.wf(),
            uuid_version(o.id.value) == 4,
    {
        Organization { id: Id::new_random(), name: String::from_str(name), created: Timestamp::now() }
    }
}

/// The membership of a user in an organization.
#[derive(Debug, Clone, Copy, PartialEq, Eq)]
pub struct Member {
    pub user_id: Id,
    pub org_id: Id,
    pub created: Timestamp,
    pub org_admin: bool,
}

impl Member {
    /// The membership of `user_id` in `org_id`, starting now.
    pub fn join(user_id: Id, org_id: Id, org_admin: bool) -> (m: Member)
        ensures
            m.user_id == user_id,
            m.org_id == org_id,
            m.org_admin == org_admin,
            m.created.wf(),
    {
        Member { user_id, org_id, created: Timestamp::now(), org_admin }
    }
}

/// A member of an organization, as the member list shows them.
#[derive(Debug, Clone)]
pub struct MemberInfo {
    pub user_id: Id,
    pub name: String,
    pub email: String,
    pub org_admin: bool,
}

/// The new maxima of a user's limits.
#[derive(Debug, Clone, Copy)]
pub struct LimitForm {
    pub max_documents: i64,
    pub max_size: i64,
}

/// How many documents, and how many bytes in all, a user may keep, and how
/// many they keep.
#[derive(Debug, Clone, Copy)]
pub struct Limit {
    pub user_id: Id,
    pub max_documents: i64,
    pub max_size: i64,
    pub current_documents: i64,
    pub current_size: i64,
}

/// Whether a user with limit `l` may store one more document of `size` bytes.
pub open spec fn spec_allows_upload(l: Limit, size: int) -> bool {
    l.current_documents + 1 <= l.max_documents && l.current_size + size <= l.max_size
}

/// The usage counts of a limit are not negative.
pub open spec fn limit_wf(l: Limit) -> bool {
    0 <= l.current_documents && 0 <= l.current_size
}

/// Whether the usage stays within the maxima.
pub open spec fn within_limits(l: Limit) -> bool {
    l.current_documents <= l.max_documents && l.current_size <= l.max_size
}

/// The limit once a document of `size` bytes is counted.
pub open spec fn after_upload(l: Limit, size: i64) -> Limit {
    Limit { current_documents: (l.current_documents + 1) as i64, current_size: (l.current_size + size) as i64, ..l }
}

/// The limit once a document of `size` bytes is no longer counted.
pub open spec fn after_removal(l: Limit, size: i64) -> Limit {
    Limit { current_documents: (l.current_documents - 1) as i64, current_size: (l.current_size - size) as i64, ..l }
}

impl Limit {
    /// Whether one more document of `size` bytes fits.
    pub fn allows_upload(&self, size: i64) -> (r: bool)
        ensures
            r == spec_allows_upload(*self, size as int),
    {
        (self.current_documents as i128) + 1 <= self.max_documents as i128 && (self.current_size as i128)
            + (size as i128) <= self.max_size as i128
    }

    /// Counts a new document of `size` bytes.
    pub fn record_upload(&mut self, size: i64)
        requires
            spec_allows_upload(*old(self), size as int),
            0 <= size,
        ensures
            *final(self) == after_upload(*old(self), size),
    {
        self.current_documents = self.current_documents + 1;
        self.current_size = self.current_size + size;
    }

    /// Stops counting a deleted document of `size` bytes.
    pub fn record_removal(&mut self, size: i64)
        requires
            limit_wf(*old(self)),
            old(self).current_documents >= 1,
            0 <= size <= old(self).current_size,
        ensures
            *final(self) == after_removal(*old(self), size),
            limit_wf(*final(self)),
    {
        self.current_documents = self.current_documents - 1;
        self.current_size = self.current_size - size;
    }

    /// Stops counting a deleted document of `size` bytes, when the usage
    /// counts it (at least one document, and at least `size` bytes); usage that
    /// cannot hold it is left as it is.
    pub fn release(&mut self, size: i64)
        requires
            limit_wf(*old(self)),
        ensures
            old(self).current_documents >= 1 && 0 <= size <= old(self).current_size ==> *final(self) == after_removal(
                *old(self),
                size,
            ),
            !(old(self).current_documents >= 1 && 0 <= size <= old(self).current_size) ==> *final(self) == *old(self),
            limit_wf(*final(self)),
    {
        if self.current_documents >= 1 && 0 <= size && size <= self.current_size {
            self.record_removal(size);
        }
    }

    /// Sets the maxima from a form; the usage stays as it is.
    pub fn apply_form(&mut self, form: &LimitForm)
        ensures
            final(self).user_id == old(self).user_id,
            final(self).max_documents == form.max_documents,
            final(self).max_size == form.max_size,
            final(self).current_documents == old(self).current_documents,
            final(self).current_size == old(self).current_size,
    {
        self.max_documents = form.max_documents;
        self.max_size = form.max_size;
    }
}

/// An upload that the limits allow keeps the usage within the limits.
pub proof fn lemma_allowed_upload_stays_within(l: Limit, size: i64)
    requires
        limit_wf(l),
        0 <= size,
        spec_allows_upload(l, size as int),
    ensures
        within_limits(after_upload(l, size)),
        limit_wf(after_upload(l, size)),
{
}

/// Removing a document that was just counted restores the usage as it was.
pub proof fn lemma_removal_undoes_upload(l: Limit, size: i64)
    requires
        limit_wf(l),
        0 <= size,
        spec_allows_upload(l, size as int),
    ensures
        after_removal(after_upload(l, size), size) == l,
{
}

/// A document that the limits refuse is still refused when it is bigger.
pub proof fn lemma_refusal_is_monotone(l: Limit, size: int, bigger: int)
    requires
        !spec_allows_upload(l, size),
        size <= bigger,
    ensures
        !spec_allows_upload(l, bigger),
{
}

/// A login token sent by e-mail.
#[derive(Debug, Clone)]
pub struct Token {
    pub token: String,
    pub email: String,
    pub created: Timestamp,
}

} // verus!

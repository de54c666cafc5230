//! Documents: naming and fingerprinting uploads, detecting duplicates,
//! enforcing limits, deciding who sees a document, and planning the queries
//! that list and count documents.
use vstd::prelude::*;
use vstd::std_specs::hash::DefaultHasherAdditionalSpecFns;
use crate::base::{UserContext, administers};
use crate::error::{DRResult, StructuredError};
use crate::ids::{Id, uuid_version};
use crate::model::{Document, Limit, spec_allows_upload};
use crate::text::{contains_char, decimal, replace_char, replace_char_exec, rfind_char, u64_to_decimal};
use crate::time::Timestamp;

verus! {

/// What became of an uploaded file.
#[derive(Debug, Clone, PartialEq, Eq)]
pub enum DocumentUpload {
    /// The file is stored as a new document.
    Uploaded { id: Id },
    /// The same owner already stored a file of that name and content.
    AlreadyExists { upload_name: String, existing_id: Id },
    /// Storing the file would exceed the owner's limits.
    LimitsReached,
}

impl DocumentUpload {
    /// The identifier of the new document, if one was stored.
    pub fn get_id(&self) -> (r: Option<Id>)
        ensures
            match self {
                DocumentUpload::Uploaded { id } => r == Some(*id),
                _ => r is None,
            },
    {
        match self {
            DocumentUpload::Uploaded { id } => Some(*id),
            _ => None,
        }
    }
}

/// The orders in which documents are listed.
#[derive(Debug, Clone, Copy, PartialEq, Eq, Structural)]
pub enum DocumentOrder {
    /// Most recent first.
    Recent,
    /// By name.
    Name,
}

/// Whether `i` is the position of the last `/` in `s`.
pub open spec fn is_last_slash(s: Seq<char>, i: int) -> bool {
    0 <= i < s.len() && s[i] == '/' && forall|j: int| i < j < s.len() ==> s[j] != '/'
}

/// The name of an uploaded file without its directories: what follows the
/// last `/`, or the whole name when it has none.
pub open spec fn spec_short_name(s: Seq<char>) -> Seq<char> {
    if exists|i: int| is_last_slash(s, i) {
        let i = choose|i: int| is_last_slash(s, i);
        s.subrange(i + 1, s.len() as int)
    } else {
        s
    }
}

proof fn lemma_last_slash_unique(s: Seq<char>, i: int, j: int)
    requires
        is_last_slash(s, i),
        is_last_slash(s, j),
    ensures
        i == j,
{
}

proof fn lemma_last_slash_exists(s: Seq<char>, k: int)
    requires
        0 <= k < s.len(),
        s[k] == '/',
    ensures
        exists|i: int| is_last_slash(s, i),
    decreases s.len() - k,
{
    if exists|j: int| k < j < s.len() && s[j] == '/' {
        let j = choose|j: int| k < j < s.len() && s[j] == '/';
        lemma_last_slash_exists(s, j);
    } else {
        assert(is_last_slash(s, k));
    }
}

/// The name of an uploaded file without its directories.
pub fn short_name(doc_name: &str) -> (r: String)
    ensures
        r@ == spec_short_name(doc_name@),
{
    match rfind_char(doc_name, '/') {
        Some(ix) => {
            let n = doc_name.unicode_len();
            proof {
                assert(is_last_slash(doc_name@, ix as int));
                let c = choose|i: int| is_last_slash(doc_name@, i);
                lemma_last_slash_unique(doc_name@, ix as int, c);
            }
            String::from_str(doc_name.substring_char(ix + 1, n))
        },
        None => {
            proof {
                if exists|i: int| is_last_slash(doc_name@, i) {
                    let c = choose|i: int| is_last_slash(doc_name@, i);
                    assert(doc_name@[c] == '/');
                }
            }
            String::from_str(doc_name)
        },
    }
}

/// A short name holds no `/`, and shortening it again changes nothing.
pub proof fn lemma_short_name_is_short(s: Seq<char>)
    ensures
        !spec_short_name(s).contains('/'),
        spec_short_name(spec_short_name(s)) == spec_short_name(s),
{
    let t = spec_short_name(s);
    if exists|i: int| is_last_slash(s, i) {
        let i = choose|i: int| is_last_slash(s, i);
        if t.contains('/') {
            let k = choose|k: int| 0 <= k < t.len() && t[k] == '/';
            assert(s[i + 1 + k] == '/');
        }
    } else {
        if t.contains('/') {
            let k = choose|k: int| 0 <= k < t.len() && t[k] == '/';
            lemma_last_slash_exists(s, k);
        }
    }
    if exists|i: int| is_last_slash(t, i) {
        let i = choose|i: int| is_last_slash(t, i);
        assert(t.contains('/')) by {
            assert(t[i] == '/');
        }
    }
}

/// Whether the memberships include one in `org_id`.
pub open spec fn belongs_to(memberships: Seq<crate::base::Membership>, org_id: Id) -> bool {
    exists|i: int| 0 <= i < memberships.len() && #[trigger] memberships[i].org_id == org_id
}

/// Whether a user sees a document: they own it, it was shared with them, or
/// it belongs to an organization they are a member of.
pub open spec fn spec_visible(ctx: UserContext, owner: Id, org_id: Option<Id>, access_count: i64) -> bool {
    ||| owner == ctx.user_id
    ||| access_count > 0
    ||| (org_id matches Some(o) && belongs_to(ctx.org_members@, o))
}

/// Whether the user is a member of the organization `org_id`.
pub fn is_member(ctx: &UserContext, org_id: Id) -> (r: bool)
    ensures
        r == belongs_to(ctx.org_members@, org_id),
{
    let n = ctx.org_members.len();
    let mut i: usize = 0;
    while i < n
        invariant
            n == ctx.org_members@.len(),
            i <= n,
            forall|j: int| 0 <= j < i ==> #[trigger] ctx.org_members@[j].org_id != org_id,
        decreases n - i,
    {
        if ctx.org_members[i].org_id == org_id {
            return true;
        }
        i = i + 1;
    }
    false
}

/// Whether a user sees a document, given its owner and organization and the
/// number of accesses to it that the user holds.
pub fn document_visible(ctx: &UserContext, owner: Id, org_id: Option<Id>, access_count: i64) -> (r: bool)
    ensures
        r == spec_visible(*ctx, owner, org_id, access_count),
{
    if owner == ctx.user_id || access_count > 0 {
        return true;
    }
    match org_id {
        Some(o) => is_member(ctx, o),
        None => false,
    }
}

/// The rule by which a listing keeps a document, for one user.
#[derive(Debug, Clone)]
pub struct VisibilityFilter {
    /// The user whose own documents are kept.
    pub owner: Id,
    /// Whether the documents shared with that user (by an access) are kept too.
    pub shared: bool,
    /// The organizations whose documents are kept too.
    pub orgs: Vec<Id>,
}

/// Whether a filter keeps a document of `owner`, in the organization
/// `org_id`, of which the user holds `access_count` accesses.
pub open spec fn filter_keeps(f: VisibilityFilter, owner: Id, org_id: Option<Id>, access_count: i64) -> bool {
    ||| owner == f.owner
    ||| (f.shared && access_count > 0)
    ||| (org_id matches Some(o) && f.orgs@.contains(o))
}

/// The organizations of the memberships, in their order.
pub open spec fn org_ids(ms: Seq<crate::base::Membership>) -> Seq<Id> {
    ms.map_values(|m: crate::base::Membership| m.org_id)
}

/// The rule by which a listing keeps documents for the user `ctx`: only their
/// own when `owner_only`; otherwise exactly those the user sees.
pub fn visibility_filter(ctx: &UserContext, owner_only: bool) -> (f: VisibilityFilter)
    ensures
        forall|owner: Id, org_id: Option<Id>, n: i64|
            #[trigger] filter_keeps(f, owner, org_id, n) == if owner_only {
                owner == ctx.user_id
            } else {
                spec_visible(*ctx, owner, org_id, n)
            },
{
    if owner_only {
        let f = VisibilityFilter { owner: ctx.user_id, shared: false, orgs: Vec::new() };
        assert forall|owner: Id, org_id: Option<Id>, n: i64|
            #[trigger] filter_keeps(f, owner, org_id, n) == (owner == ctx.user_id) by {
            match org_id {
                Some(o) => assert(!f.orgs@.contains(o)),
                None => {},
            }
        }
        return f;
    }
    let ms = &ctx.org_members;
    let mut orgs: Vec<Id> = Vec::new();
    let mut i: usize = 0;
    while i < ms.len()
        invariant
            i <= ms@.len(),
            orgs@ =~= org_ids(ms@.subrange(0, i as int)),
        decreases ms@.len() - i,
    {
        orgs.push(ms[i].org_id);
        assert(ms@.subrange(0, i + 1) =~= ms@.subrange(0, i as int).push(ms@[i as int]));
        i = i + 1;
    }
    assert(ms@.subrange(0, ms@.len() as int) =~= ms@);
    let f = VisibilityFilter { owner: ctx.user_id, shared: true, orgs };
    assert forall|o: Id| #[trigger] f.orgs@.contains(o) == belongs_to(ctx.org_members@, o) by {
        if f.orgs@.contains(o) {
            let k = choose|k: int| 0 <= k < f.orgs@.len() && f.orgs@[k] == o;
            assert(ctx.org_members@[k].org_id == o);
        }
        if belongs_to(ctx.org_members@, o) {
            let k = choose|k: int| 0 <= k < ctx.org_members@.len() && #[trigger] ctx.org_members@[k].org_id == o;
            assert(f.orgs@[k] == o);
        }
    }
    assert forall|owner: Id, org_id: Option<Id>, n: i64|
        #[trigger] filter_keeps(f, owner, org_id, n) == spec_visible(*ctx, owner, org_id, n) by {
        match org_id {
            Some(o) => assert(f.orgs@.contains(o) == belongs_to(ctx.org_members@, o)),
            None => {},
        }
    }
    f
}

/// An organization's administrators see its documents.
pub proof fn lemma_admins_see_org_documents(ctx: UserContext, owner: Id, org_id: Id)
    requires
        administers(ctx.org_members@, org_id),
    ensures
        spec_visible(ctx, owner, Some(org_id), 0),
{
    let i = choose|i: int| 0 <= i < ctx.org_members@.len() && #[trigger] ctx.org_members@[i].org_id == org_id
        && ctx.org_members@[i].org_admin;
    assert(ctx.org_members@[i].org_id == org_id);
}

/// The answer to a request for one document: the last row found, or "not found".
pub fn last_or_not_found<T>(found: Vec<T>) -> (r: DRResult<T>)
    ensures
        found@.len() == 0 ==> (r matches Err(e) && e.status == crate::error::HttpStatus::NotFound
            && e.error_type == crate::error::DRError::NotFoundError
            && e.error@ == "Document not found"@),
        found@.len() > 0 ==> r == Ok::<T, StructuredError>(found@.last()),
{
    let mut found = found;
    match found.pop() {
        None => Err(StructuredError::not_found("Document not found")),
        Some(doc) => Ok(doc),
    }
}

/// The `count` bytes of `n`, least significant first.
pub open spec fn le_bytes(n: nat, count: nat) -> Seq<u8>
    decreases count,
{
    if count == 0 {
        Seq::empty()
    } else {
        seq![(n % 256) as u8] + le_bytes(n / 256, (count - 1) as nat)
    }
}

/// The `count` bytes of `n`, most significant first.
pub open spec fn be_bytes(n: nat, count: nat) -> Seq<u8> {
    le_bytes(n, count).reverse()
}

/// The number of bytes of a `usize`.
pub open spec fn usize_bytes() -> nat {
    (usize::BITS / 8) as nat
}

/// Whether `p` is the memory representation of `n` as a `usize`, in one of
/// the two byte orders that a machine may have.
pub open spec fn native_repr(p: Seq<u8>, n: nat) -> bool {
    p == le_bytes(n, usize_bytes()) || p == be_bytes(n, usize_bytes())
}

/// Calls `usize::to_ne_bytes` and copies the bytes into a vector. Claimed, as
/// the standard library documents it: the memory representation of `n`, that
/// is its `usize::BITS / 8` bytes in the machine's byte order, which is
/// little-endian or big-endian. Which one is not said: it is the machine's.
#[verifier::external_body]
fn native_bytes(n: usize) -> (r: Vec<u8>)
    ensures
        r@.len() == usize_bytes(),
        native_repr(r@, n as nat),
{
    n.to_ne_bytes().to_vec()
}

/// The fingerprint stored with an uploaded file: the decimal text of the
/// standard library's default hash of its bytes, as `Hash` for a byte slice
/// feeds them to the hasher: the length (its `usize` bytes in the machine's
/// byte order), then the bytes.
pub fn content_fingerprint(data: &[u8]) -> (r: String)
    ensures
        exists|p: Seq<u8>| native_repr(p, data@.len() as nat) && r@ == decimal(
            std::collections::hash_map::DefaultHasher::spec_finish(seq![p, data@]) as nat,
        ),
{
    let mut h = std::collections::hash_map::DefaultHasher::new();
    let prefix = native_bytes(data.len());
    std::hash::Hasher::write(&mut h, prefix.as_slice());
    std::hash::Hasher::write(&mut h, data);
    let v = std::hash::Hasher::finish(&h);
    assert(h@ =~= seq![prefix@, data@]);
    let r = u64_to_decimal(v);
    assert(native_repr(prefix@, data@.len() as nat) && r@ == decimal(
        std::collections::hash_map::DefaultHasher::spec_finish(seq![prefix@, data@]) as nat,
    ));
    r
}

/// What the upload of a file answers with before it is stored, given the
/// identifiers of the owner's documents of the same name and fingerprint and
/// the owner's limits: the last duplicate found, or "limits reached" when the
/// file does not fit; nothing when it is to be stored.
pub fn upload_precheck(found: Vec<Id>, upload_name: String, limit: &Limit, size: i64) -> (r: Option<DocumentUpload>)
    ensures
        found@.len() > 0 ==> (r matches Some(DocumentUpload::AlreadyExists { upload_name: n, existing_id })
            && n@ == upload_name@ && existing_id == found@.last()),
        found@.len() == 0 && !spec_allows_upload(*limit, size as int) ==> r == Some(DocumentUpload::LimitsReached),
        found@.len() == 0 && spec_allows_upload(*limit, size as int) ==> r is None,
{
    let mut found = found;
    match found.pop() {
        Some(existing_id) => Some(DocumentUpload::AlreadyExists { upload_name, existing_id }),
        None => {
            if limit.allows_upload(size) {
                None
            } else {
                Some(DocumentUpload::LimitsReached)
            }
        },
    }
}

impl Document {
    /// A newly uploaded document: a fresh identifier, created now, its size
    /// the number of its bytes.
    pub fn new_upload(owner: Id, org_id: Option<Id>, name: String, mime: Option<String>, data: Vec<u8>, hash: String) -> (d: Document)
        ensures
            d.owner == owner,
            d.org_id == org_id,
            d.name@ == name@,
            d.mime == mime,
            d.data@ == data@,
            d.size == data@.len() as i64,
            d.hash matches Some(h) && h@ == hash@,
            d.created.wf(),
            uuid_version(d.id.value) == 4,
    {
        let size = data.len() as i64;
        Document {
            id: Id::new_random(),
            name,
            created: Timestamp::now(),
            owner,
            org_id,
            mime,
            size,
            data,
            hash: Some(hash),
        }
    }
}

/// How a name given in a listing restricts the documents.
#[derive(Debug, Clone)]
pub enum NameFilter {
    /// The name must be this one.
    Exact(String),
    /// The name must match this case-insensitive SQL pattern.
    Pattern(String),
}

/// Whether `f` is the filter for the name `name`: a name with a `*` is a
/// pattern in which each `*` becomes the SQL wildcard `%`; any other name
/// must match exactly.
pub open spec fn is_name_filter(f: NameFilter, name: Seq<char>) -> bool {
    if name.contains('*') {
        f matches NameFilter::Pattern(p) && p@ == replace_char(name, '*', '%')
    } else {
        f matches NameFilter::Exact(n) && n@ == name
    }
}

/// The filter for a name given in a listing.
pub fn name_filter(name: &str) -> (f: NameFilter)
    ensures
        is_name_filter(f, name@),
{
    if contains_char(name, '*') {
        NameFilter::Pattern(replace_char_exec(name, '*', '%'))
    } else {
        NameFilter::Exact(String::from_str(name))
    }
}

/// A pattern made from a name keeps its length and holds no `*`.
pub proof fn lemma_pattern_shape(name: Seq<char>)
    ensures
        replace_char(name, '*', '%').len() == name.len(),
        !replace_char(name, '*', '%').contains('*'),
{
    let p = replace_char(name, '*', '%');
    if p.contains('*') {
        let k = choose|k: int| 0 <= k < p.len() && p[k] == '*';
        assert(p[k] == (if name[k] == '*' { '%' } else { name[k] }));
    }
}

/// Which documents a listing or count considers.
#[derive(Debug, Clone)]
pub struct DocumentFilter {
    /// Only one document per name (the most recent).
    pub distinct: bool,
    /// The restriction by name, if a name was given.
    pub name: Option<NameFilter>,
    /// A document to leave out, if a valid identifier was given.
    pub except: Option<Id>,
    /// Only the user's own documents, rather than all those they see.
    pub owner_only: bool,
}

/// The document to leave out: the identifier given, if it is a valid one.
pub open spec fn spec_except(except: Option<Seq<char>>) -> Option<Id> {
    match except {
        Some(s) => match crate::ids::spec_parse_uuid(s) {
            Ok(v) => Some(Id { value: v }),
            Err(_) => None,
        },
        None => None,
    }
}

/// Whether `f` is the filter that the request parameters ask for.
pub open spec fn is_document_filter(f: DocumentFilter, name: Option<Seq<char>>, owner: bool, distinct: bool, except: Option<Seq<char>>) -> bool {
    &&& f.distinct == distinct
    &&& f.owner_only == owner
    &&& f.except == spec_except(except)
    &&& match name {
        Some(n) => f.name matches Some(nf) && is_name_filter(nf, n),
        None => f.name is None,
    }
}

/// The filter that the request parameters of a listing or count ask for.
pub fn document_filter(name: Option<&str>, owner: bool, distinct: bool, except: Option<&str>) -> (f: DocumentFilter)
    ensures
        is_document_filter(f, match name { Some(x) => Some(x@), None => None }, owner, distinct, match except { Some(x) => Some(x@), None => None }),
{
    let nf = match name {
        Some(n) => Some(name_filter(n)),
        None => None,
    };
    let ex = match except {
        Some(s) => match Id::parse(s) {
            Ok(id) => Some(id),
            Err(_) => None,
        },
        None => None,
    };
    DocumentFilter { distinct, name: nf, except: ex, owner_only: owner }
}

/// How a listing of documents is ordered and paged.
#[derive(Debug, Clone, Copy, PartialEq, Eq, Structural)]
pub struct ListPaging {
    pub order: DocumentOrder,
    pub limit: i64,
    pub offset: i64,
}

/// The ordering and paging that the request parameters ask for: most recent
/// first, ten documents from the start, unless they say otherwise.
pub open spec fn spec_list_paging(order: Option<DocumentOrder>, limit: Option<usize>, offset: Option<i64>) -> ListPaging {
    ListPaging {
        order: match order {
            Some(o) => o,
            None => DocumentOrder::Recent,
        },
        limit: crate::accesses::spec_page_bounds(limit, offset).0,
        offset: crate::accesses::spec_page_bounds(limit, offset).1,
    }
}

/// The ordering and paging that the request parameters ask for.
pub fn list_paging(order: Option<DocumentOrder>, limit: Option<usize>, offset: Option<i64>) -> (p: ListPaging)
    ensures
        p == spec_list_paging(order, limit, offset),
{
    let (l, o) = crate::accesses::page_bounds(limit, offset);
    let ord = match order {
        Some(x) => x,
        None => DocumentOrder::Recent,
    };
    ListPaging { order: ord, limit: l, offset: o }
}

/// The SQL ordering that a distinct listing applies to the most recent
/// version of each name.
pub open spec fn spec_outer_order(order: DocumentOrder) -> Seq<char> {
    match order {
        DocumentOrder::Recent => "created desc"@,
        DocumentOrder::Name => "name asc"@,
    }
}

/// The SQL ordering that a distinct listing applies to the most recent
/// version of each name.
pub fn outer_order(order: DocumentOrder) -> (s: &'static str)
    ensures
        s@ == spec_outer_order(order),
{
    match order {
        DocumentOrder::Recent => "created desc",
        DocumentOrder::Name => "name asc",
    }
}

} // verus!

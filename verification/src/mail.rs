//! Documents that arrive by e-mail: where the stored message lies, whom its
//! headers name, to which organization and users its attachments go, and the
//! encoding of outgoing messages.
use vstd::prelude::*;
use crate::ids::Id;
use crate::model::Member;
use crate::text::{find_str, occurs_at, str_equal};

verus! {

/// The value found in a JSON text: strings in full, the other kinds by kind.
#[derive(Debug, Clone)]
pub enum JsonItem {
    Null,
    Bool(bool),
    Number,
    Str(String),
    Array,
    Object,
}

/// A value found in a JSON text, as text.
pub enum JsonItemView {
    Null,
    Bool(bool),
    Number,
    Str(Seq<char>),
    Array,
    Object,
}

/// A value found in a JSON text, as text.
pub open spec fn json_item_view(v: JsonItem) -> JsonItemView {
    match v {
        JsonItem::Null => JsonItemView::Null,
        JsonItem::Bool(b) => JsonItemView::Bool(b),
        JsonItem::Number => JsonItemView::Number,
        JsonItem::Str(s) => JsonItemView::Str(s@),
        JsonItem::Array => JsonItemView::Array,
        JsonItem::Object => JsonItemView::Object,
    }
}

/// What `serde_json` makes of a JSON text and a JSON pointer: the value at
/// the pointer (nothing when there is none), or the message of the parse
/// error.
pub uninterp spec fn spec_json_at(json: Seq<char>, pointer: Seq<char>) -> Result<Option<JsonItemView>, Seq<char>>;

/// Calls `serde_json::from_str::<Value>` on `json` and `Value::pointer` on the
/// result, converting the value found to its kind (strings with their text);
/// a parse error becomes its message (`to_string`). Claimed: the result is
/// `spec_json_at` of the text and the pointer.
#[verifier::external_body]
fn json_at(json: &str, pointer: &str) -> (r: Result<Option<JsonItem>, String>)
    ensures
        match r {
            Ok(Some(v)) => spec_json_at(json@, pointer@) == Ok::<Option<JsonItemView>, Seq<char>>(Some(json_item_view(v))),
            Ok(None) => spec_json_at(json@, pointer@) == Ok::<Option<JsonItemView>, Seq<char>>(None),
            Err(m) => spec_json_at(json@, pointer@) == Err::<Option<JsonItemView>, Seq<char>>(m@),
        },
{
    let v: serde_json::Value = serde_json::from_str(json).map_err(|e| e.to_string())?;
    Ok(v.pointer(pointer).map(|x| match x {
        serde_json::Value::Null => JsonItem::Null,
        serde_json::Value::Bool(b) => JsonItem::Bool(*b),
        serde_json::Value::Number(_) => JsonItem::Number,
        serde_json::Value::String(s) => JsonItem::Str(s.clone()),
        serde_json::Value::Array(_) => JsonItem::Array,
        serde_json::Value::Object(_) => JsonItem::Object,
    }))
}

/// The string at a pointer in a JSON text: nothing when there is no value
/// there or it is not a string, or the message of the parse error.
pub open spec fn spec_json_string_at(json: Seq<char>, pointer: Seq<char>) -> Result<Option<Seq<char>>, Seq<char>> {
    match spec_json_at(json, pointer) {
        Err(m) => Err(m),
        Ok(Some(JsonItemView::Str(s))) => Ok(Some(s)),
        Ok(_) => Ok(None),
    }
}

/// The string at a pointer in a JSON text, given what was read there.
pub fn string_item(read: Result<Option<JsonItem>, String>) -> (r: Result<Option<String>, String>)
    ensures
        json_view(r) == match read {
            Err(m) => Err::<Option<Seq<char>>, Seq<char>>(m@),
            Ok(Some(JsonItem::Str(s))) => Ok(Some(s@)),
            Ok(_) => Ok(None),
        },
{
    match read {
        Err(m) => Err(m),
        Ok(Some(JsonItem::Str(s))) => Ok(Some(s)),
        Ok(_) => Ok(None),
    }
}

/// The string at a pointer in a JSON text.
pub fn json_string_at(json: &str, pointer: &str) -> (r: Result<Option<String>, String>)
    ensures
        json_view(r) == spec_json_string_at(json@, pointer@),
{
    string_item(json_at(json, pointer))
}

/// What a JSON read gives, over views.
pub open spec fn json_view(r: Result<Option<String>, String>) -> Result<Option<Seq<char>>, Seq<char>> {
    match r {
        Ok(Some(s)) => Ok(Some(s@)),
        Ok(None) => Ok(None),
        Err(m) => Err(m@),
    }
}

/// Where a received e-mail is stored.
#[derive(Debug, Clone)]
pub struct S3Object {
    pub bucket: String,
    pub key: String,
}

/// Where the e-mail lies, given what was read at the bucket and key members
/// of the notification: an error if either read failed (the bucket's first),
/// nothing to fetch if either is missing, else the bucket and the key.
pub open spec fn spec_location_of(bucket: Result<Option<Seq<char>>, Seq<char>>, key: Result<Option<Seq<char>>, Seq<char>>) -> Result<Option<(Seq<char>, Seq<char>)>, Seq<char>> {
    match bucket {
        Err(m) => Err(m),
        Ok(None) => Ok(None),
        Ok(Some(b)) => match key {
            Err(m) => Err(m),
            Ok(None) => Ok(None),
            Ok(Some(k)) => Ok(Some((b, k))),
        },
    }
}

/// Where the e-mail announced by a queue message is stored: the message's
/// body holds a JSON notification whose `Message` member is itself JSON with
/// the bucket and key under `receipt.action`. A body or message that is not
/// JSON is an error; a missing member means there is nothing to fetch.
pub open spec fn spec_email_location(body: Seq<char>) -> Result<Option<(Seq<char>, Seq<char>)>, Seq<char>> {
    match spec_json_string_at(body, "/Message"@) {
        Err(m) => Err(m),
        Ok(None) => Ok(None),
        Ok(Some(inner)) => spec_location_of(
            spec_json_string_at(inner, "/receipt/action/bucketName"@),
            spec_json_string_at(inner, "/receipt/action/objectKey"@),
        ),
    }
}

/// The meaning of a location result.
pub open spec fn location_view(r: Result<Option<S3Object>, String>) -> Result<Option<(Seq<char>, Seq<char>)>, Seq<char>> {
    match r {
        Ok(Some(o)) => Ok(Some((o.bucket@, o.key@))),
        Ok(None) => Ok(None),
        Err(m) => Err(m@),
    }
}

/// Where the e-mail lies, given what was read at the bucket and key members
/// of the notification.
pub fn location_of(bucket: Result<Option<String>, String>, key: Result<Option<String>, String>) -> (r: Result<Option<S3Object>, String>)
    ensures
        location_view(r) == spec_location_of(json_view(bucket), json_view(key)),
{
    let bucket = match bucket {
        Err(m) => return Err(m),
        Ok(None) => return Ok(None),
        Ok(Some(b)) => b,
    };
    match key {
        Err(m) => Err(m),
        Ok(None) => Ok(None),
        Ok(Some(key)) => Ok(Some(S3Object { bucket, key })),
    }
}

/// Where the e-mail announced by a queue message is stored.
pub fn email_location(body: &str) -> (r: Result<Option<S3Object>, String>)
    ensures
        location_view(r) == spec_email_location(body@),
{
    let inner = match json_string_at(body, "/Message") {
        Err(m) => return Err(m),
        Ok(None) => return Ok(None),
        Ok(Some(s)) => s,
    };
    let bucket = json_string_at(inner.as_str(), "/receipt/action/bucketName");
    let key = json_string_at(inner.as_str(), "/receipt/action/objectKey");
    location_of(bucket, key)
}

/// What the site does with a message taken from the queue.
#[derive(Debug, Clone)]
pub enum QueueAction {
    /// Leave it in the queue: it has no receipt handle or no body.
    Keep,
    /// Stop with this error (the notification is not JSON); the message
    /// stays in the queue.
    Fail(String),
    /// Delete it: it announces nothing to fetch.
    Delete,
    /// Fetch the stored e-mail from there; what follows depends on that.
    Fetch(S3Object),
}

/// What the site does with a message taken from the queue, given whether it
/// has a receipt handle and its body, if any.
pub fn queue_action(has_receipt: bool, body: Option<&str>) -> (r: QueueAction)
    ensures
        !has_receipt || body is None ==> r is Keep,
        has_receipt && body is Some ==> match spec_email_location(body->0@) {
            Err(m) => r matches QueueAction::Fail(e) && e@ == m,
            Ok(None) => r is Delete,
            Ok(Some((b, k))) => r matches QueueAction::Fetch(o) && o.bucket@ == b && o.key@ == k,
        },
{
    if !has_receipt {
        return QueueAction::Keep;
    }
    match body {
        None => QueueAction::Keep,
        Some(b) => match email_location(b) {
            Err(m) => QueueAction::Fail(m),
            Ok(None) => QueueAction::Delete,
            Ok(Some(o)) => QueueAction::Fetch(o),
        },
    }
}

/// What came of fetching and handling a stored e-mail.
#[derive(Debug, Clone)]
pub enum FetchOutcome {
    /// The storage answered without content.
    Empty,
    /// The e-mail was read and its attachments stored.
    Handled,
    /// Fetching, reading or storing failed with this error.
    Failed(String),
}

/// What follows the fetch of a stored e-mail.
#[derive(Debug, Clone)]
pub enum FetchAction {
    /// Delete the queue message only.
    DeleteMessage,
    /// Delete the stored e-mail, then the queue message.
    DeleteObjectThenMessage,
    /// Stop with this error; the stored e-mail and the queue message stay.
    Stop(String),
}

/// What follows the fetch of a stored e-mail: a handled e-mail is deleted
/// from the storage, then its queue message; an empty answer deletes only the
/// queue message; a failure deletes nothing.
pub fn after_fetch(o: FetchOutcome) -> (r: FetchAction)
    ensures
        match o {
            FetchOutcome::Empty => r is DeleteMessage,
            FetchOutcome::Handled => r is DeleteObjectThenMessage,
            FetchOutcome::Failed(e) => r matches FetchAction::Stop(f) && f@ == e@,
        },
{
    match o {
        FetchOutcome::Empty => FetchAction::DeleteMessage,
        FetchOutcome::Handled => FetchAction::DeleteObjectThenMessage,
        FetchOutcome::Failed(e) => FetchAction::Stop(e),
    }
}

/// What a header of a received e-mail names.
#[derive(Debug, Clone, Copy, PartialEq, Eq, Structural)]
pub enum HeaderRole {
    /// The sender (`From`).
    Sender,
    /// Recipients (`To` or `Cc`).
    Recipients,
    /// Nothing of interest.
    Other,
}

/// What a header names, by its exact key.
pub open spec fn spec_header_role(key: Seq<char>) -> HeaderRole {
    if key == "From"@ {
        HeaderRole::Sender
    } else if key == "To"@ || key == "Cc"@ {
        HeaderRole::Recipients
    } else {
        HeaderRole::Other
    }
}

/// What a header names.
pub fn header_role(key: &str) -> (r: HeaderRole)
    ensures
        r == spec_header_role(key@),
{
    if str_equal(key, "From") {
        HeaderRole::Sender
    } else if str_equal(key, "To") || str_equal(key, "Cc") {
        HeaderRole::Recipients
    } else {
        HeaderRole::Other
    }
}

/// The domain of the site's own addresses; an address there names an
/// organization by its local part.
pub open spec fn site_domain() -> Seq<char> {
    "@dataregi.com"@
}

/// A recipient of a received e-mail.
#[derive(Debug, Clone)]
pub enum Recipient {
    /// An organization, by name (the part before `@dataregi.com`).
    Organization(String),
    /// A person, by address.
    Person(String),
}

/// The first position at which the site's domain occurs in an address.
pub open spec fn first_domain_position(address: Seq<char>) -> Option<int> {
    if exists|i: int| occurs_at(address, site_domain(), i) {
        Some(
            choose|i: int|
                occurs_at(address, site_domain(), i) && forall|j: int| 0 <= j < i ==> !occurs_at(address, site_domain(), j),
        )
    } else {
        None
    }
}

/// Whether `r` is the recipient that an address names: an organization
/// named by what precedes the first `@dataregi.com` in it, or else the person
/// of that address.
pub open spec fn is_recipient_of(r: Recipient, address: Seq<char>) -> bool {
    match first_domain_position(address) {
        Some(i) => r matches Recipient::Organization(name) && name@ == address.subrange(0, i),
        None => r matches Recipient::Person(a) && a@ == address,
    }
}

proof fn lemma_first_position_unique(address: Seq<char>, i: int, j: int)
    requires
        occurs_at(address, site_domain(), i) && forall|k: int| 0 <= k < i ==> !occurs_at(address, site_domain(), k),
        occurs_at(address, site_domain(), j) && forall|k: int| 0 <= k < j ==> !occurs_at(address, site_domain(), k),
    ensures
        i == j,
{
    if i < j {
        assert(!occurs_at(address, site_domain(), i));
    } else if j < i {
        assert(!occurs_at(address, site_domain(), j));
    }
}

/// The recipient that an address names.
pub fn classify_recipient(address: &str) -> (r: Recipient)
    ensures
        is_recipient_of(r, address@),
{
    match find_str(address, "@dataregi.com") {
        Some(ix) => {
            proof {
                let c = choose|i: int|
                    occurs_at(address@, site_domain(), i) && forall|j: int| 0 <= j < i ==> !occurs_at(address@, site_domain(), j);
                lemma_first_position_unique(address@, ix as int, c);
            }
            Recipient::Organization(String::from_str(address.substring_char(0, ix)))
        },
        None => Recipient::Person(String::from_str(address)),
    }
}

/// Whether an unknown organization name deserves a report: every name but
/// `register`, which is the site's address for new users.
pub fn report_unknown_organization(name: &str) -> (r: bool)
    ensures
        r == (name@ != "register"@),
{
    !str_equal(name, "register")
}

/// The people and organizations that a received e-mail names.
#[derive(Debug, Clone)]
pub struct Addresses {
    pub from: Id,
    pub shared: Vec<Id>,
    pub orgs: Vec<Id>,
}

/// The organizations that the attachments may go to: when the sender is a
/// member of one of the addressed organizations (`member`, found among them),
/// only that one; otherwise those addressed.
pub fn narrow_organizations(orgs: Vec<Id>, member: Option<Member>) -> (r: Vec<Id>)
    ensures
        match member {
            Some(m) => r@ == seq![m.org_id],
            None => r@ == orgs@,
        },
{
    match member {
        Some(m) => {
            let mut v: Vec<Id> = Vec::new();
            v.push(m.org_id);
            v
        },
        None => orgs,
    }
}

/// The organization that the attachments of an e-mail are filed under: the
/// last one the e-mail names, if any.
pub fn attachment_organization(orgs: &mut Vec<Id>) -> (r: Option<Id>)
    ensures
        old(orgs)@.len() == 0 ==> r is None && final(orgs)@ == old(orgs)@,
        old(orgs)@.len() > 0 ==> r == Some(old(orgs)@.last()) && final(orgs)@ == old(orgs)@.drop_last(),
{
    orgs.pop()
}

/// Whether the queue is polled again at once: it is while it returned messages.
pub fn poll_again(received: Option<usize>) -> (r: bool)
    ensures
        r == (received matches Some(n) && n > 0),
{
    match received {
        Some(n) => n > 0,
        None => false,
    }
}

/// The character of a value in the standard base64 alphabet.
pub open spec fn base64_char(v: int) -> char {
    if v < 26 {
        ('A' as int + v) as char
    } else if v < 52 {
        ('a' as int + (v - 26)) as char
    } else if v < 62 {
        ('0' as int + (v - 52)) as char
    } else if v == 62 {
        '+'
    } else {
        '/'
    }
}

/// Standard base64 with padding: each group of three bytes becomes four
/// characters; a last group of one or two bytes is padded with `=`.
pub open spec fn base64_standard(s: Seq<u8>) -> Seq<char>
    decreases s.len(),
{
    if s.len() == 0 {
        Seq::empty()
    } else if s.len() == 1 {
        let a = s[0] as int;
        seq![base64_char(a / 4), base64_char((a % 4) * 16), '=', '=']
    } else if s.len() == 2 {
        let a = s[0] as int;
        let b = s[1] as int;
        seq![base64_char(a / 4), base64_char((a % 4) * 16 + b / 16), base64_char((b % 16) * 4), '=']
    } else {
        let a = s[0] as int;
        let b = s[1] as int;
        let c = s[2] as int;
        seq![base64_char(a / 4), base64_char((a % 4) * 16 + b / 16), base64_char((b % 16) * 4 + c / 64), base64_char(c % 64)]
            + base64_standard(s.subrange(3, s.len() as int))
    }
}

/// Calls `base64::encode` (the standard alphabet, with padding). Claimed: the
/// text is `base64_standard` of the bytes. The call panics when the length of
/// the text does not fit in a `usize`; the precondition leaves that out.
#[verifier::external_body]
fn base64_encode(data: &[u8]) -> (s: String)
    requires
        data@.len() / 3 * 4 + 4 <= usize::MAX,
    ensures
        s@ == base64_standard(data@),
{
    base64::encode(data)
}

/// The data of a raw e-mail as the mail service takes it: its bytes in
/// standard base64.
pub fn encode_raw_email(raw: &[u8]) -> (s: String)
    requires
        raw@.len() / 3 * 4 + 4 <= usize::MAX,
    ensures
        s@ == base64_standard(raw@),
{
    base64_encode(raw)
}

/// An e-mail to send: its sender, its recipient, its subject and its
/// plain-text body.
#[derive(Debug, Clone)]
pub struct OutgoingMail {
    pub from: String,
    pub to: String,
    pub subject: String,
    pub body: String,
}

/// Whether lettre reads a text as a mailbox (`Mailbox`'s `FromStr`).
pub uninterp spec fn spec_mailbox_ok(text: Seq<char>) -> bool;

/// Whether `bytes` is a message that lettre's builder formats from this
/// sender, recipient, subject and plain-text body (with the date and the
/// message identifier that it adds itself).
pub uninterp spec fn spec_formatted_email(bytes: Seq<u8>, from: Seq<char>, to: Seq<char>, subject: Seq<char>, body: Seq<char>) -> bool;

/// Calls lettre's `Message::builder()` with the sender and the recipient
/// (each read by `Mailbox`'s `FromStr`), the subject and the plain-text body,
/// then `formatted()`; a failure gives the error's message. Claimed, from the
/// source: the build fails only for a missing or repeated sender or a missing
/// recipient, so with one of each it succeeds exactly when both addresses
/// read as mailboxes; the bytes are a formatting of those fields
/// (`spec_formatted_email`); and, being a vector, they are at most
/// `isize::MAX` long. The bytes themselves are not named: the builder adds
/// the current date and a fresh message identifier.
#[verifier::external_body]
fn format_email(m: &OutgoingMail) -> (r: Result<Vec<u8>, String>)
    ensures
        match r {
            Ok(b) => spec_mailbox_ok(m.from@) && spec_mailbox_ok(m.to@) && spec_formatted_email(
                b@,
                m.from@,
                m.to@,
                m.subject@,
                m.body@,
            ) && b@.len() <= isize::MAX,
            Err(_) => !(spec_mailbox_ok(m.from@) && spec_mailbox_ok(m.to@)),
        },
{
    let from = m.from.parse::<lettre::message::Mailbox>().map_err(|e| e.to_string())?;
    let to = m.to.parse::<lettre::message::Mailbox>().map_err(|e| e.to_string())?;
    let built = lettre::Message::builder().from(from).to(to).subject(m.subject.as_str()).body(m.body.clone());
    Ok(built.map_err(|e| e.to_string())?.formatted())
}

/// The data of an e-mail as the mail service takes it: the formatted
/// message in standard base64; or the formatter's error.
pub fn outgoing_email(m: &OutgoingMail) -> (r: Result<String, String>)
    ensures
        r is Ok <==> spec_mailbox_ok(m.from@) && spec_mailbox_ok(m.to@),
        r matches Ok(s) ==> exists|raw: Seq<u8>|
            s@ == base64_standard(raw) && spec_formatted_email(raw, m.from@, m.to@, m.subject@, m.body@),
{
    let raw = format_email(m)?;
    let s = encode_raw_email(raw.as_slice());
    assert(s@ == base64_standard(raw@) && spec_formatted_email(raw@, m.from@, m.to@, m.subject@, m.body@));
    Ok(s)
}

/// Base64 text is four characters for every three bytes, rounded up.
pub proof fn lemma_base64_length(s: Seq<u8>)
    ensures
        base64_standard(s).len() == (s.len() + 2) / 3 * 4,
    decreases s.len(),
{
    if s.len() >= 3 {
        lemma_base64_length(s.subrange(3, s.len() as int));
    }
}

} // verus!

//! Received e-mail messages: what the `mailparse` parser reads of a raw
//! message, and what the site takes from it (the sender, the recipients and
//! the attachments).
use vstd::prelude::*;
use crate::mail::{HeaderRole, header_role, spec_header_role};

verus! {

/// An address that a header names: a single mailbox, or a group of them.
#[derive(Debug, Clone)]
pub enum MailAddress {
    Single(String),
    Group(Vec<String>),
}

/// A header of a received message: its key, and the addresses that the
/// address parser reads in its value (or the parser's error message).
#[derive(Debug)]
pub struct MailHeader {
    pub key: String,
    pub addresses: Result<Vec<MailAddress>, String>,
}

/// A top-level part of a received message: whether its disposition is
/// `attachment`, its `filename` parameter, its media type and its decoded
/// body (or the decoder's error message).
#[derive(Debug)]
pub struct MailPart {
    pub is_attachment: bool,
    pub filename: Option<String>,
    pub mimetype: String,
    pub body: Result<Vec<u8>, String>,
}

/// A received message, as the parser reads it.
#[derive(Debug)]
pub struct MailMessage {
    pub headers: Vec<MailHeader>,
    pub parts: Vec<MailPart>,
}

/// An address, as text.
pub enum AddressView {
    Single(Seq<char>),
    Group(Seq<Seq<char>>),
}

/// A header, as text.
pub struct HeaderView {
    pub key: Seq<char>,
    pub addresses: Result<Seq<AddressView>, Seq<char>>,
}

/// A part, as text and bytes.
pub struct PartView {
    pub is_attachment: bool,
    pub filename: Option<Seq<char>>,
    pub mimetype: Seq<char>,
    pub body: Result<Seq<u8>, Seq<char>>,
}

/// The texts of strings.
pub open spec fn strings_view(v: Seq<String>) -> Seq<Seq<char>> {
    v.map_values(|s: String| s@)
}

/// An address, as text.
pub open spec fn address_view(a: MailAddress) -> AddressView {
    match a {
        MailAddress::Single(s) => AddressView::Single(s@),
        MailAddress::Group(v) => AddressView::Group(strings_view(v@)),
    }
}

/// A header, as text.
pub open spec fn header_view(h: MailHeader) -> HeaderView {
    HeaderView {
        key: h.key@,
        addresses: match h.addresses {
            Ok(v) => Ok(v@.map_values(|a: MailAddress| address_view(a))),
            Err(m) => Err(m@),
        },
    }
}

/// A part, as text and bytes.
pub open spec fn part_view(p: MailPart) -> PartView {
    PartView {
        is_attachment: p.is_attachment,
        filename: match p.filename {
            Some(f) => Some(f@),
            None => None,
        },
        mimetype: p.mimetype@,
        body: match p.body {
            Ok(b) => Ok(b@),
            Err(m) => Err(m@),
        },
    }
}

/// The headers of a message, as text.
pub open spec fn headers_view(v: Seq<MailHeader>) -> Seq<HeaderView> {
    v.map_values(|h: MailHeader| header_view(h))
}

/// The parts of a message, as text and bytes.
pub open spec fn parts_view(v: Seq<MailPart>) -> Seq<PartView> {
    v.map_values(|p: MailPart| part_view(p))
}

/// What `mailparse` reads of the headers of a raw message: each header's key
/// and the addresses in its value, or the message of the parse error.
pub uninterp spec fn spec_mail_headers(data: Seq<u8>) -> Result<Seq<HeaderView>, Seq<char>>;

/// What `mailparse` reads of the top-level parts of a raw message, or the
/// message of the parse error.
pub uninterp spec fn spec_mail_parts(data: Seq<u8>) -> Result<Seq<PartView>, Seq<char>>;

/// Calls `mailparse::parse_mail`, then for each header `get_key` and
/// `addrparse_header`, converting each address to its mailbox text (`addr`)
/// and each error to its message. Claimed: the result is
/// `spec_mail_headers` of the bytes.
#[verifier::external_body]
fn mail_headers(data: &[u8]) -> (r: Result<Vec<MailHeader>, String>)
    ensures
        match r {
            Ok(v) => spec_mail_headers(data@) == Ok::<Seq<HeaderView>, Seq<char>>(headers_view(v@)),
            Err(m) => spec_mail_headers(data@) == Err::<Seq<HeaderView>, Seq<char>>(m@),
        },
{
    let m = mailparse::parse_mail(data).map_err(|e| e.to_string())?;
    Ok(m.headers.iter().map(|h| MailHeader {
        key: h.get_key(),
        addresses: mailparse::addrparse_header(h).map_err(|e| e.to_string()).map(|l| l.iter().map(|a| match a {
            mailparse::MailAddr::Single(s) => MailAddress::Single(s.addr.clone()),
            mailparse::MailAddr::Group(g) => MailAddress::Group(g.addrs.iter().map(|s| s.addr.clone()).collect()),
        }).collect()),
    }).collect())
}

/// Calls `mailparse::parse_mail`, then for each top-level part
/// `get_content_disposition` (whether it is `Attachment`, and its `filename`
/// parameter), its `ctype.mimetype` and `get_body_raw`, each error converted
/// to its message. Claimed: the result is `spec_mail_parts` of the bytes.
#[verifier::external_body]
fn mail_parts(data: &[u8]) -> (r: Result<Vec<MailPart>, String>)
    ensures
        match r {
            Ok(v) => spec_mail_parts(data@) == Ok::<Seq<PartView>, Seq<char>>(parts_view(v@)),
            Err(m) => spec_mail_parts(data@) == Err::<Seq<PartView>, Seq<char>>(m@),
        },
{
    let m = mailparse::parse_mail(data).map_err(|e| e.to_string())?;
    Ok(m.subparts.iter().map(|p| {
        let cd = p.get_content_disposition();
        MailPart {
            is_attachment: cd.disposition == mailparse::DispositionType::Attachment,
            filename: cd.params.get("filename").cloned(),
            mimetype: p.ctype.mimetype.clone(),
            body: p.get_body_raw().map_err(|e| e.to_string()),
        }
    }).collect())
}

/// A received message as the parser reads it: its headers and its parts, or
/// the parser's error (the one met reading the headers first).
pub open spec fn spec_parse_email(data: Seq<u8>) -> Result<(Seq<HeaderView>, Seq<PartView>), Seq<char>> {
    match spec_mail_headers(data) {
        Err(m) => Err(m),
        Ok(hs) => match spec_mail_parts(data) {
            Err(m) => Err(m),
            Ok(ps) => Ok((hs, ps)),
        },
    }
}

/// A parsed message, as text.
pub open spec fn message_view(r: Result<MailMessage, String>) -> Result<(Seq<HeaderView>, Seq<PartView>), Seq<char>> {
    match r {
        Ok(m) => Ok((headers_view(m.headers@), parts_view(m.parts@))),
        Err(e) => Err(e@),
    }
}

/// Reads a raw received message.
pub fn parse_email(data: &[u8]) -> (r: Result<MailMessage, String>)
    ensures
        message_view(r) == spec_parse_email(data@),
{
    let headers = match mail_headers(data) {
        Err(m) => return Err(m),
        Ok(h) => h,
    };
    match mail_parts(data) {
        Err(m) => Err(m),
        Ok(parts) => Ok(MailMessage { headers, parts }),
    }
}

/// The single address of a list: when the list holds exactly one address,
/// and that a single mailbox.
pub open spec fn single_address(l: Seq<AddressView>) -> Option<Seq<char>> {
    if l.len() == 1 {
        match l[0] {
            AddressView::Single(s) => Some(s),
            AddressView::Group(_) => None,
        }
    } else {
        None
    }
}

/// The mailboxes of a list, in order, the members of a group in its place.
pub open spec fn flat_addresses(l: Seq<AddressView>) -> Seq<Seq<char>>
    decreases l.len(),
{
    if l.len() == 0 {
        Seq::empty()
    } else {
        flat_addresses(l.drop_last()) + match l.last() {
            AddressView::Single(s) => seq![s],
            AddressView::Group(g) => g,
        }
    }
}

/// The sender and the recipients that the headers name, in header order: the
/// sender is the single address of the last `From` header that has one; the
/// recipients are the mailboxes of the `To` and `Cc` headers. A `From`, `To`
/// or `Cc` header whose addresses could not be read makes the whole an error.
pub open spec fn spec_mail_contacts(hs: Seq<HeaderView>) -> Result<(Option<Seq<char>>, Seq<Seq<char>>), Seq<char>>
    decreases hs.len(),
{
    if hs.len() == 0 {
        Ok((None, Seq::empty()))
    } else {
        match spec_mail_contacts(hs.drop_last()) {
            Err(m) => Err(m),
            Ok((from, to)) => {
                let h = hs.last();
                match spec_header_role(h.key) {
                    HeaderRole::Sender => match h.addresses {
                        Err(m) => Err(m),
                        Ok(l) => Ok(
                            (
                                match single_address(l) {
                                    Some(a) => Some(a),
                                    None => from,
                                },
                                to,
                            ),
                        ),
                    },
                    HeaderRole::Recipients => match h.addresses {
                        Err(m) => Err(m),
                        Ok(l) => Ok((from, to + flat_addresses(l))),
                    },
                    HeaderRole::Other => Ok((from, to)),
                }
            },
        }
    }
}

/// The people a received message names.
#[derive(Debug, Clone)]
pub struct MailContacts {
    /// The sender, if the headers name one.
    pub sender: Option<String>,
    /// The recipients, in header order.
    pub recipients: Vec<String>,
}

/// The people that a result names, as text.
pub open spec fn contacts_view(r: Result<MailContacts, String>) -> Result<(Option<Seq<char>>, Seq<Seq<char>>), Seq<char>> {
    match r {
        Ok(c) => Ok(
            (
                match c.sender {
                    Some(s) => Some(s@),
                    None => None,
                },
                strings_view(c.recipients@),
            ),
        ),
        Err(e) => Err(e@),
    }
}

proof fn lemma_contacts_error_stays(hs: Seq<HeaderView>, k: int)
    requires
        0 <= k <= hs.len(),
        spec_mail_contacts(hs.subrange(0, k)) is Err,
    ensures
        spec_mail_contacts(hs) == spec_mail_contacts(hs.subrange(0, k)),
    decreases hs.len(),
{
    if k == hs.len() {
        assert(hs.subrange(0, k) =~= hs);
    } else {
        assert(hs.drop_last().subrange(0, k) =~= hs.subrange(0, k));
        lemma_contacts_error_stays(hs.drop_last(), k);
    }
}

/// Appends copies of the strings of `g` to `out`.
fn append_strings(g: &Vec<String>, out: &mut Vec<String>)
    ensures
        strings_view(final(out)@) == strings_view(old(out)@) + strings_view(g@),
{
    let ghost start = strings_view(out@);
    let mut j: usize = 0;
    while j < g.len()
        invariant
            j <= g@.len(),
            strings_view(out@) =~= start + strings_view(g@).subrange(0, j as int),
        decreases g@.len() - j,
    {
        let ghost prev = out@;
        out.push(g[j].clone());
        assert(strings_view(out@) =~= strings_view(prev).push(g@[j as int]@));
        assert(strings_view(g@).subrange(0, j + 1) =~= strings_view(g@).subrange(0, j as int).push(g@[j as int]@));
        j = j + 1;
    }
    assert(strings_view(g@).subrange(0, g@.len() as int) =~= strings_view(g@));
}

/// Appends the mailboxes of a list of addresses to `out`.
fn append_addresses(l: &Vec<MailAddress>, out: &mut Vec<String>)
    ensures
        strings_view(final(out)@) == strings_view(old(out)@) + flat_addresses(
            l@.map_values(|a: MailAddress| address_view(a)),
        ),
{
    let ghost lv = l@.map_values(|a: MailAddress| address_view(a));
    let ghost start = strings_view(out@);
    let mut i: usize = 0;
    while i < l.len()
        invariant
            i <= l@.len(),
            lv == l@.map_values(|a: MailAddress| address_view(a)),
            strings_view(out@) =~= start + flat_addresses(lv.subrange(0, i as int)),
        decreases l@.len() - i,
    {
        let ghost before = out@;
        assert(lv.subrange(0, i + 1).drop_last() =~= lv.subrange(0, i as int));
        assert(lv.subrange(0, i + 1).last() == address_view(l@[i as int]));
        match &l[i] {
            MailAddress::Single(s) => {
                out.push(s.clone());
                assert(strings_view(out@) =~= strings_view(before) + seq![s@]);
            },
            MailAddress::Group(g) => {
                append_strings(g, out);
            },
        }
        assert(strings_view(out@) =~= start + flat_addresses(lv.subrange(0, i + 1)));
        i = i + 1;
    }
    assert(lv.subrange(0, l@.len() as int) =~= lv);
}

/// The sender and the recipients that a received message names.
pub fn mail_addresses(m: &MailMessage) -> (r: Result<MailContacts, String>)
    ensures
        contacts_view(r) == spec_mail_contacts(headers_view(m.headers@)),
{
    let ghost hv = headers_view(m.headers@);
    let mut sender: Option<String> = None;
    let mut recipients: Vec<String> = Vec::new();
    assert(strings_view(recipients@) =~= Seq::<Seq<char>>::empty());
    assert(hv.subrange(0, 0) =~= Seq::<HeaderView>::empty());
    let mut i: usize = 0;
    while i < m.headers.len()
        invariant
            i <= m.headers@.len(),
            hv == headers_view(m.headers@),
            spec_mail_contacts(hv.subrange(0, i as int)) == contacts_view(
                Ok::<MailContacts, String>(MailContacts { sender, recipients }),
            ),
        decreases m.headers@.len() - i,
    {
        let h = &m.headers[i];
        assert(hv.subrange(0, i + 1).drop_last() =~= hv.subrange(0, i as int));
        assert(hv.subrange(0, i + 1).last() == header_view(*h));
        let ghost before = recipients@;
        match header_role(h.key.as_str()) {
            HeaderRole::Sender => match &h.addresses {
                Err(e) => {
                    proof {
                        lemma_contacts_error_stays(hv, i + 1);
                    }
                    return Err(e.clone());
                },
                Ok(l) => {
                    if l.len() == 1 {
                        match &l[0] {
                            MailAddress::Single(a) => {
                                sender = Some(a.clone());
                            },
                            MailAddress::Group(_) => {},
                        }
                    }
                },
            },
            HeaderRole::Recipients => match &h.addresses {
                Err(e) => {
                    proof {
                        lemma_contacts_error_stays(hv, i + 1);
                    }
                    return Err(e.clone());
                },
                Ok(l) => {
                    append_addresses(l, &mut recipients);
                },
            },
            HeaderRole::Other => {},
        }
        i = i + 1;
    }
    assert(hv.subrange(0, m.headers@.len() as int) =~= hv);
    Ok(MailContacts { sender, recipients })
}

/// A file attached to a received message: its name, its media type and its
/// decoded bytes (or the decoder's error).
#[derive(Debug)]
pub struct Attachment {
    pub filename: String,
    pub mimetype: String,
    pub body: Result<Vec<u8>, String>,
}

/// An attachment, as text and bytes.
pub open spec fn attachment_view(a: Attachment) -> (Seq<char>, Seq<char>, Result<Seq<u8>, Seq<char>>) {
    (
        a.filename@,
        a.mimetype@,
        match a.body {
            Ok(b) => Ok(b@),
            Err(m) => Err(m@),
        },
    )
}

/// The attachments of a message, in order: the parts whose disposition is
/// `attachment` and that have a file name.
pub open spec fn spec_attachments(ps: Seq<PartView>) -> Seq<(Seq<char>, Seq<char>, Result<Seq<u8>, Seq<char>>)>
    decreases ps.len(),
{
    if ps.len() == 0 {
        Seq::empty()
    } else {
        let p = ps.last();
        spec_attachments(ps.drop_last()) + if p.is_attachment && p.filename is Some {
            seq![(p.filename->0, p.mimetype, p.body)]
        } else {
            Seq::empty()
        }
    }
}

/// Only parts whose disposition is `attachment` give attachments: leaving
/// out every other part (inline images, text bodies) changes nothing.
pub proof fn lemma_only_attachment_parts_count(ps: Seq<PartView>)
    ensures
        spec_attachments(ps) == spec_attachments(ps.filter(|p: PartView| p.is_attachment)),
    decreases ps.len(),
{
    reveal(Seq::filter);
    if ps.len() > 0 {
        lemma_only_attachment_parts_count(ps.drop_last());
        let f = ps.filter(|p: PartView| p.is_attachment);
        let g = ps.drop_last().filter(|p: PartView| p.is_attachment);
        if ps.last().is_attachment {
            assert(f == g.push(ps.last()));
            assert(f.drop_last() =~= g);
        } else {
            assert(f == g);
            assert(spec_attachments(ps) =~= spec_attachments(ps.drop_last()));
        }
    }
}

/// Each attachment comes from a part whose disposition is `attachment`, and
/// carries that part's file name, media type and body.
pub proof fn lemma_attachments_come_from_attachment_parts(ps: Seq<PartView>)
    ensures
        forall|k: int|
            0 <= k < spec_attachments(ps).len() ==> exists|j: int|
                0 <= j < ps.len() && #[trigger] ps[j].is_attachment && ps[j].filename == Some(
                    (#[trigger] spec_attachments(ps)[k]).0,
                ) && ps[j].mimetype == spec_attachments(ps)[k].1 && ps[j].body == spec_attachments(ps)[k].2,
    decreases ps.len(),
{
    if ps.len() > 0 {
        let rest = ps.drop_last();
        lemma_attachments_come_from_attachment_parts(rest);
        let a = spec_attachments(ps);
        let b = spec_attachments(rest);
        assert forall|k: int| 0 <= k < a.len() implies exists|j: int|
            0 <= j < ps.len() && #[trigger] ps[j].is_attachment && ps[j].filename == Some((#[trigger] a[k]).0)
                && ps[j].mimetype == a[k].1 && ps[j].body == a[k].2 by {
            if k < b.len() {
                assert(a[k] == b[k]);
                let j = choose|j: int|
                    0 <= j < rest.len() && #[trigger] rest[j].is_attachment && rest[j].filename == Some(b[k].0)
                        && rest[j].mimetype == b[k].1 && rest[j].body == b[k].2;
                assert(ps[j] == rest[j]);
            } else {
                let j = ps.len() - 1;
                assert(ps[j] == ps.last());
            }
        }
    }
}

/// A message with no part whose disposition is `attachment` has no
/// attachments.
pub proof fn lemma_no_attachment_parts_no_attachments(ps: Seq<PartView>)
    requires
        forall|j: int| 0 <= j < ps.len() ==> !(#[trigger] ps[j]).is_attachment,
    ensures
        spec_attachments(ps).len() == 0,
    decreases ps.len(),
{
    if ps.len() > 0 {
        assert forall|j: int| 0 <= j < ps.drop_last().len() implies !(#[trigger] ps.drop_last()[j]).is_attachment by {
            assert(ps.drop_last()[j] == ps[j]);
        }
        lemma_no_attachment_parts_no_attachments(ps.drop_last());
        assert(!ps[ps.len() - 1].is_attachment);
    }
}

fn copy_body(b: &Result<Vec<u8>, String>) -> (r: Result<Vec<u8>, String>)
    ensures
        match (b, r) {
            (Ok(x), Ok(y)) => x@ == y@,
            (Err(x), Err(y)) => x@ == y@,
            _ => false,
        },
{
    match b {
        Ok(x) => {
            let y = x.clone();
            assert(x@ =~= y@);
            Ok(y)
        },
        Err(m) => Err(m.clone()),
    }
}

/// The attachments of a received message, in order.
pub fn mail_attachments(m: &MailMessage) -> (r: Vec<Attachment>)
    ensures
        r@.map_values(|a: Attachment| attachment_view(a)) == spec_attachments(parts_view(m.parts@)),
        forall|k: int|
            0 <= k < r@.len() ==> exists|j: int|
                0 <= j < m.parts@.len() && #[trigger] m.parts@[j].is_attachment && (m.parts@[j].filename matches Some(
                    f,
                ) && f@ == (#[trigger] r@[k]).filename@),
        (forall|j: int| 0 <= j < m.parts@.len() ==> !(#[trigger] m.parts@[j]).is_attachment) ==> r@.len() == 0,
{
    let ghost pv = parts_view(m.parts@);
    let mut out: Vec<Attachment> = Vec::new();
    let mut i: usize = 0;
    while i < m.parts.len()
        invariant
            i <= m.parts@.len(),
            pv == parts_view(m.parts@),
            out@.map_values(|a: Attachment| attachment_view(a)) == spec_attachments(pv.subrange(0, i as int)),
        decreases m.parts@.len() - i,
    {
        let p = &m.parts[i];
        let ghost before = out@.map_values(|a: Attachment| attachment_view(a));
        assert(pv.subrange(0, i + 1).drop_last() =~= pv.subrange(0, i as int));
        assert(pv.subrange(0, i + 1).last() == part_view(*p));
        if p.is_attachment {
            match &p.filename {
                Some(f) => {
                    let a = Attachment { filename: f.clone(), mimetype: p.mimetype.clone(), body: copy_body(&p.body) };
                    out.push(a);
                    assert(out@.map_values(|a: Attachment| attachment_view(a)) =~= before.push(attachment_view(a)));
                },
                None => {},
            }
        }
        assert(out@.map_values(|a: Attachment| attachment_view(a)) =~= spec_attachments(pv.subrange(0, i + 1)));
        i = i + 1;
    }
    assert(pv.subrange(0, m.parts@.len() as int) =~= pv);
    proof {
        let av = out@.map_values(|a: Attachment| attachment_view(a));
        lemma_attachments_come_from_attachment_parts(pv);
        assert forall|k: int| 0 <= k < out@.len() implies exists|j: int|
            0 <= j < m.parts@.len() && #[trigger] m.parts@[j].is_attachment && (m.parts@[j].filename matches Some(
                f,
            ) && f@ == (#[trigger] out@[k]).filename@) by {
            assert(av[k] == attachment_view(out@[k]));
            let j = choose|j: int|
                0 <= j < pv.len() && #[trigger] pv[j].is_attachment && pv[j].filename == Some(
                    spec_attachments(pv)[k].0,
                ) && pv[j].mimetype == spec_attachments(pv)[k].1 && pv[j].body == spec_attachments(pv)[k].2;
            assert(pv[j] == part_view(m.parts@[j]));
        }
        if forall|j: int| 0 <= j < m.parts@.len() ==> !(#[trigger] m.parts@[j]).is_attachment {
            assert forall|j: int| 0 <= j < pv.len() implies !(#[trigger] pv[j]).is_attachment by {
                assert(pv[j] == part_view(m.parts@[j]));
            }
            lemma_no_attachment_parts_no_attachments(pv);
        }
    }
    out
}

} // verus!

use dataregi::accesses::{grant_result, GrantOutcome};
use dataregi::base::{Membership, UserContext};
use dataregi::docs::{last_or_not_found, visibility_filter};
use dataregi::error::{parse_id, DRError, HttpStatus};
use dataregi::ids::Id;
use dataregi::mail::{
    after_fetch, json_string_at, location_of, outgoing_email, queue_action, string_item, FetchAction, FetchOutcome,
    JsonItem, OutgoingMail, QueueAction,
};
use dataregi::message::{mail_addresses, mail_attachments, parse_email};
use dataregi::orgs::{set_member_request, MemberTarget};
use dataregi::site::{login_email, login_message};

const RAW: &str = "From: Alice <alice@example.com>\r\n\
To: bob@example.com, Team: carol@example.com, dave@example.com;\r\n\
Cc: acme@dataregi.com\r\n\
Subject: sheets\r\n\
MIME-Version: 1.0\r\n\
Content-Type: multipart/mixed; boundary=\"XX\"\r\n\
\r\n\
--XX\r\n\
Content-Type: text/plain\r\n\
\r\n\
Here they are.\r\n\
--XX\r\n\
Content-Type: application/vnd.oasis.opendocument.spreadsheet\r\n\
Content-Disposition: attachment; filename=\"a.ods\"\r\n\
Content-Transfer-Encoding: base64\r\n\
\r\n\
aGVsbG8=\r\n\
--XX\r\n\
Content-Type: text/csv\r\n\
Content-Disposition: attachment\r\n\
\r\n\
x,y\r\n\
--XX\r\n\
Content-Type: text/csv\r\n\
Content-Disposition: attachment; filename=\"b.csv\"\r\n\
\r\n\
1,2\r\n\
--XX--\r\n";

#[test]
fn email_contacts_in_header_order() {
    let m = parse_email(RAW.as_bytes()).unwrap();
    let c = mail_addresses(&m).unwrap();
    assert_eq!(c.sender.as_deref(), Some("alice@example.com"));
    assert_eq!(c.recipients, vec!["bob@example.com", "carol@example.com", "dave@example.com", "acme@dataregi.com"]);
}

#[test]
fn email_attachments_with_names() {
    let m = parse_email(RAW.as_bytes()).unwrap();
    let a = mail_attachments(&m);
    assert_eq!(a.len(), 2);
    assert_eq!(a[0].filename, "a.ods");
    assert_eq!(a[0].mimetype, "application/vnd.oasis.opendocument.spreadsheet");
    assert_eq!(a[0].body.as_ref().unwrap(), b"hello");
    assert_eq!(a[1].filename, "b.csv");
    assert_eq!(a[1].mimetype, "text/csv");
    assert_eq!(a[1].body.as_ref().unwrap(), b"1,2\r\n");
}

#[test]
fn email_without_sender() {
    let m = parse_email(b"To: bob@example.com\r\nSubject: x\r\n\r\nbody\r\n").unwrap();
    let c = mail_addresses(&m).unwrap();
    assert!(c.sender.is_none());
    assert_eq!(c.recipients, vec!["bob@example.com"]);
    assert!(mail_attachments(&m).is_empty());
}

#[test]
fn unreadable_address_header_is_an_error() {
    let m = parse_email(b"From: \"unterminated <a@b.c>\r\n\r\nbody\r\n").unwrap();
    assert!(mail_addresses(&m).is_err());
}

#[test]
fn refused_grant_is_the_forbidden_error() {
    let e = grant_result(GrantOutcome::Refused).unwrap_err();
    assert_eq!(e.status, HttpStatus::Forbidden);
    assert_eq!(e.error_type, DRError::ForbiddenError);
    assert_eq!(e.error, "");
    assert_eq!(grant_result(GrantOutcome::Granted).unwrap(), HttpStatus::NoContent);
    assert_eq!(grant_result(GrantOutcome::AlreadyGranted).unwrap(), HttpStatus::NoContent);
}

#[test]
fn error_kinds() {
    let e = parse_id("nope").unwrap_err();
    assert_eq!(e.error_type, DRError::UuidError);
    let e = last_or_not_found::<u8>(vec![]).unwrap_err();
    assert_eq!(e.error_type, DRError::NotFoundError);
    assert_eq!(e.status, HttpStatus::NotFound);
}

#[test]
fn listing_filter_follows_visibility() {
    let me = Id::from_u128(1);
    let org = Id::from_u128(9);
    let ctx = UserContext { user_id: me, site_admin: false, org_members: vec![Membership { org_id: org, org_admin: false }] };
    let all = visibility_filter(&ctx, false);
    assert_eq!(all.owner, me);
    assert!(all.shared);
    assert_eq!(all.orgs, vec![org]);
    let mine = visibility_filter(&ctx, true);
    assert_eq!(mine.owner, me);
    assert!(!mine.shared);
    assert!(mine.orgs.is_empty());
}

#[test]
fn location_from_reads() {
    let l = location_of(Ok(Some(String::from("b"))), Ok(Some(String::from("k")))).unwrap().unwrap();
    assert_eq!((l.bucket.as_str(), l.key.as_str()), ("b", "k"));
    assert!(location_of(Ok(None), Ok(Some(String::from("k")))).unwrap().is_none());
    assert!(location_of(Ok(Some(String::from("b"))), Ok(None)).unwrap().is_none());
    assert_eq!(location_of(Err(String::from("e1")), Err(String::from("e2"))).unwrap_err(), "e1");
    assert_eq!(location_of(Ok(Some(String::from("b"))), Err(String::from("e2"))).unwrap_err(), "e2");
}

#[test]
fn member_named_by_address() {
    let ctx = UserContext::new(Id::from_u128(1), true);
    let org = Id::from_u128(5).to_hyphenated_string();
    let (_, t) = set_member_request(&ctx, &org, "test2@dataregi.com").unwrap();
    assert!(matches!(t, MemberTarget::Email(a) if a == "test2@dataregi.com"));
    assert!(Id::parse("a@b").is_err());
}

#[test]
fn login_email_data() {
    let data = login_email("me@example.com", "https://x.dataregi.com/loginToken?token=abc").unwrap();
    let raw = String::from_utf8(base64::decode(&data).unwrap()).unwrap();
    assert!(raw.contains("From: login@dataregi.com"));
    assert!(raw.contains("To: me@example.com"));
    assert!(raw.contains("Subject: Login to DataRegi"));
    assert!(raw.contains("https://x.dataregi.com/loginToken?token=abc"));
    assert!(login_email("not an address", "l").is_err());
}

#[test]
fn strings_in_json() {
    assert_eq!(json_string_at(r#"{"a":{"b":"x"}}"#, "/a/b").unwrap().as_deref(), Some("x"));
    assert_eq!(json_string_at(r#"{"a":{"b":3}}"#, "/a/b").unwrap(), None);
    assert_eq!(json_string_at(r#"{"a":null}"#, "/a").unwrap(), None);
    assert_eq!(json_string_at(r#"{"a":1}"#, "/c").unwrap(), None);
    assert!(json_string_at("{", "/a").is_err());
    assert_eq!(string_item(Ok(Some(JsonItem::Bool(true)))).unwrap(), None);
    assert_eq!(string_item(Ok(Some(JsonItem::Str(String::from("s"))))).unwrap().as_deref(), Some("s"));
    assert_eq!(string_item(Err(String::from("bad"))).unwrap_err(), "bad");
}

#[test]
fn queue_messages() {
    let inner = r#"{"receipt":{"action":{"bucketName":"mails","objectKey":"k1"}}}"#;
    let body = format!("{{\"Message\":{}}}", serde_json::to_string(inner).unwrap());
    assert!(matches!(queue_action(false, Some(&body)), QueueAction::Keep));
    assert!(matches!(queue_action(true, None), QueueAction::Keep));
    match queue_action(true, Some(&body)) {
        QueueAction::Fetch(o) => assert_eq!((o.bucket.as_str(), o.key.as_str()), ("mails", "k1")),
        other => panic!("unexpected action: {:?}", other),
    }
    assert!(matches!(queue_action(true, Some(r#"{"Type":"x"}"#)), QueueAction::Delete));
    assert!(matches!(queue_action(true, Some("not json")), QueueAction::Fail(_)));
    assert!(matches!(after_fetch(FetchOutcome::Empty), FetchAction::DeleteMessage));
    assert!(matches!(after_fetch(FetchOutcome::Handled), FetchAction::DeleteObjectThenMessage));
    assert!(matches!(after_fetch(FetchOutcome::Failed(String::from("e"))), FetchAction::Stop(e) if e == "e"));
}

#[test]
fn outgoing_mails() {
    let m = login_message("me@example.com", "L");
    assert_eq!(m.from, "login@dataregi.com");
    assert_eq!(m.to, "me@example.com");
    assert_eq!(m.subject, "Login to DataRegi");
    assert_eq!(m.body, "Click on this link to log in to DataRegi: \nL\nThank you!\n\nDataRegi");
    let bad_from = OutgoingMail { from: String::from("nobody"), to: String::from("a@b.c"), subject: String::from("s"), body: String::from("b") };
    assert!(outgoing_email(&bad_from).is_err());
    let good = OutgoingMail { from: String::from("x@y.z"), to: String::from("a@b.c"), subject: String::from("s"), body: String::from("b") };
    let raw = String::from_utf8(base64::decode(outgoing_email(&good).unwrap()).unwrap()).unwrap();
    assert!(raw.contains("From: x@y.z") && raw.contains("To: a@b.c") && raw.contains("Subject: s"));
}

use dataregi::base::{Download, UserContext};
use dataregi::docs::{
    content_fingerprint, document_filter, document_visible, last_or_not_found, list_paging, name_filter,
    outer_order, short_name, upload_precheck, DocumentFilter, DocumentOrder, DocumentUpload, ListPaging,
    NameFilter,
};
use dataregi::error::{parse_id, DRResult, HttpStatus};
use dataregi::ids::Id;
use dataregi::model::{Document, DocumentInfo, Limit};
use dataregi::time::Timestamp;
use std::hash::{Hash, Hasher};

fn uid(user_idx: u8) -> Id {
    Id::parse(&format!("b9518d55-3256-4b96-81d0-65b1d7c4fb3{}", user_idx)).unwrap()
}

fn login(user_idx: u8) -> UserContext {
    UserContext::new(uid(user_idx), user_idx == 1)
}

/// Case-insensitive SQL `LIKE` with `%` as the only wildcard.
fn ilike(text: &str, pattern: &str) -> bool {
    fn go(t: &[char], p: &[char]) -> bool {
        match p.first() {
            None => t.is_empty(),
            Some('%') => (0..=t.len()).any(|i| go(&t[i..], &p[1..])),
            Some(c) => !t.is_empty() && t[0].to_lowercase().eq(c.to_lowercase()) && go(&t[1..], &p[1..]),
        }
    }
    let t: Vec<char> = text.chars().collect();
    let p: Vec<char> = pattern.chars().collect();
    go(&t, &p)
}

struct Store {
    docs: Vec<Document>,
    clock: i64,
}

impl Store {
    fn new() -> Store {
        Store { docs: vec![], clock: 1_000 }
    }

    /// POST /api/docs with one file uploaded from `path`.
    fn do_upload(&mut self, ctx: &UserContext, path: &str, data: Vec<u8>) -> DocumentUpload {
        let name = short_name(path);
        let hash = content_fingerprint(&data);
        let found: Vec<Id> = self
            .docs
            .iter()
            .filter(|d| d.owner == ctx.user_id && d.name == name && d.hash.as_deref() == Some(hash.as_str()))
            .map(|d| d.id)
            .collect();
        let limit = Limit { user_id: ctx.user_id, max_documents: 100, max_size: 1048576000, current_documents: 0, current_size: 0 };
        if let Some(answer) = upload_precheck(found, name.clone(), &limit, data.len() as i64) {
            return answer;
        }
        self.clock += 1;
        let mut doc = Document::new_upload(ctx.user_id, None, name, None, data, hash);
        doc.created = Timestamp::new(self.clock, 0);
        let id = doc.id;
        self.docs.push(doc);
        DocumentUpload::Uploaded { id }
    }

    fn upload(&mut self, path: &str, data: Vec<u8>) -> Id {
        match self.do_upload(&login(1), path, data) {
            DocumentUpload::Uploaded { id } => id,
            du => panic!("unexpected upload result:{:?}", du),
        }
    }

    fn get_doc(&self, ctx: &UserContext, doc: &str) -> DRResult<Document> {
        let d = parse_id(doc)?;
        let found: Vec<Document> = self
            .docs
            .iter()
            .filter(|x| x.id == d && document_visible(ctx, x.owner, x.org_id, 0))
            .cloned()
            .collect();
        last_or_not_found(found)
    }

    fn delete(&mut self, ctx: &UserContext, id: Id) -> HttpStatus {
        self.docs.retain(|d| !(d.id == id && d.owner == ctx.user_id));
        HttpStatus::NoContent
    }

    fn matching(&self, ctx: &UserContext, f: &DocumentFilter) -> Vec<Document> {
        self.docs
            .iter()
            .filter(|d| {
                let by_owner = if f.owner_only { d.owner == ctx.user_id } else { document_visible(ctx, d.owner, d.org_id, 0) };
                let by_name = match &f.name {
                    None => true,
                    Some(NameFilter::Exact(n)) => &d.name == n,
                    Some(NameFilter::Pattern(p)) => ilike(&d.name, p),
                };
                let by_except = f.except.map_or(true, |e| d.id != e);
                by_owner && by_name && by_except
            })
            .cloned()
            .collect()
    }

    /// GET /api/docs/?name&order&limit&owner&offset&distinct&except
    fn list(&self, ctx: &UserContext, name: Option<&str>, order: Option<DocumentOrder>, limit: Option<usize>, owner: bool, offset: Option<i64>, distinct: bool, except: Option<&str>) -> Vec<DocumentInfo> {
        let f = document_filter(name, owner, distinct, except);
        let ListPaging { order, limit, offset } = list_paging(order, limit, offset);
        let mut docs = self.matching(ctx, &f);
        if f.distinct {
            docs.sort_by(|a, b| a.name.cmp(&b.name).then(b.created.secs.cmp(&a.created.secs)));
            docs.dedup_by(|b, a| a.name == b.name);
            match outer_order(order) {
                "created desc" => docs.sort_by(|a, b| b.created.secs.cmp(&a.created.secs)),
                _ => docs.sort_by(|a, b| a.name.cmp(&b.name)),
            }
        } else {
            match order {
                DocumentOrder::Recent => docs.sort_by(|a, b| b.created.secs.cmp(&a.created.secs)),
                DocumentOrder::Name => docs.sort_by(|a, b| a.name.cmp(&b.name)),
            }
        }
        docs.iter().skip(offset.max(0) as usize).take(limit.max(0) as usize).map(|d| d.info()).collect()
    }

    /// GET /api/docs/count?name&owner&distinct&except
    fn count(&self, ctx: &UserContext, name: Option<&str>, owner: bool, distinct: bool, except: Option<&str>) -> i64 {
        let f = document_filter(name, owner, distinct, except);
        let docs = self.matching(ctx, &f);
        if f.distinct {
            let mut names: Vec<&String> = docs.iter().map(|d| &d.name).collect();
            names.sort();
            names.dedup();
            names.len() as i64
        } else {
            docs.len() as i64
        }
    }
}

fn cell() -> Vec<u8> {
    vec![1u8; 7651]
}
fn cell_v2() -> Vec<u8> {
    vec![2u8; 7700]
}
fn row() -> Vec<u8> {
    vec![3u8; 7600]
}
fn col() -> Vec<u8> {
    vec![4u8; 8100]
}

#[test]
fn upload_get_delete() {
    let mut store = Store::new();
    let file = cell();
    let uuid = store.upload("test_data/1sheet1cell.ods", file.clone());
    let id = uuid.to_hyphenated_string();

    let doc = store.get_doc(&login(1), &id).unwrap();
    assert_eq!(uuid, doc.id);
    assert_eq!("b9518d55-3256-4b96-81d0-65b1d7c4fb31", doc.owner.to_hyphenated_string());
    assert_eq!(file, doc.data);
    assert_eq!(file.len() as i64, doc.size);

    let info = doc.info();
    assert_eq!(uuid, info.id);
    assert_eq!(file.len() as i64, info.size);

    // read as another user, not found
    assert_eq!(store.get_doc(&login(2), &id).unwrap_err().http_status(), HttpStatus::NotFound);

    // delete as another user, no error but no effect
    assert_eq!(store.delete(&login(2), uuid), HttpStatus::NoContent);
    assert!(store.get_doc(&login(1), &id).is_ok());

    assert_eq!(store.delete(&login(1), uuid), HttpStatus::NoContent);
    assert_eq!(store.get_doc(&login(1), &id).unwrap_err().http_status(), HttpStatus::NotFound);
    assert_eq!(store.get_doc(&login(2), &id).unwrap_err().http_status(), HttpStatus::NotFound);
}

#[test]
fn list() {
    let mut store = Store::new();
    let me = login(1);
    assert_eq!(0, store.list(&me, None, None, None, false, None, false, None).len());

    let uuid1 = store.upload("test_data/1sheet1cell.ods", cell());
    let uuid2 = store.upload("test_data/1sheet1row.ods", row());
    let uuid3 = store.upload("test_data/1sheet1col.ods", col());

    let docs = store.list(&me, None, None, None, false, None, false, None);
    assert_eq!(3, docs.len());
    assert_eq!(docs[0].id, uuid3);
    assert_eq!(docs[1].id, uuid2);
    assert_eq!(docs[2].id, uuid1);
    assert_eq!(docs[0].name, "1sheet1col.ods");
    assert_eq!(docs[1].name, "1sheet1row.ods");
    assert_eq!(docs[2].name, "1sheet1cell.ods");

    let docs = store.list(&me, None, None, Some(2), false, None, false, None);
    assert_eq!(2, docs.len());
    assert_eq!(docs[0].id, uuid3);
    assert_eq!(docs[1].id, uuid2);

    let docs = store.list(&me, None, Some(DocumentOrder::Recent), Some(2), false, None, false, None);
    assert_eq!(2, docs.len());
    assert_eq!(docs[0].id, uuid3);
    assert_eq!(docs[1].id, uuid2);

    let docs = store.list(&me, None, Some(DocumentOrder::Name), Some(2), false, None, false, None);
    assert_eq!(2, docs.len());
    assert_eq!(docs[0].id, uuid1);
    assert_eq!(docs[1].id, uuid3);
    assert_eq!(docs[0].name, "1sheet1cell.ods");
    assert_eq!(docs[1].name, "1sheet1col.ods");

    let docs = store.list(&me, None, Some(DocumentOrder::Name), Some(2), false, Some(1), false, None);
    assert_eq!(2, docs.len());
    assert_eq!(docs[0].id, uuid3);
    assert_eq!(docs[1].id, uuid2);

    for u in [uuid1, uuid2, uuid3] {
        store.delete(&me, u);
    }
    assert_eq!(0, store.list(&me, None, None, None, false, None, false, None).len());
}

#[test]
fn search() {
    let mut store = Store::new();
    let me = login(1);
    let uuid1 = store.upload("test_data/1sheet1cell.ods", cell());
    let uuid2 = store.upload("test_data/1sheet1row.ods", row());
    let uuid3 = store.upload("test_data/1sheet1col.ods", col());
    let by_name = Some(DocumentOrder::Name);

    let docs = store.list(&me, Some("1sheet1cell.ods"), by_name, None, false, None, false, None);
    assert_eq!(1, docs.len());
    assert_eq!(docs[0].id, uuid1);

    let docs = store.list(&me, Some("sheet"), by_name, None, false, None, false, None);
    assert_eq!(0, docs.len());

    for pattern in ["*sheet*", "*SHEET*"] {
        let docs = store.list(&me, Some(pattern), by_name, None, false, None, false, None);
        assert_eq!(3, docs.len());
        assert_eq!(docs[0].id, uuid1);
        assert_eq!(docs[1].id, uuid3);
        assert_eq!(docs[2].id, uuid2);
    }
}

#[test]
fn count() {
    let mut store = Store::new();
    let me = login(1);
    assert_eq!(0, store.count(&me, None, true, false, None));
    store.upload("test_data/1sheet1cell.ods", cell());
    assert_eq!(1, store.count(&me, None, true, false, None));
    store.upload("test_data/1sheet1row.ods", row());
    assert_eq!(2, store.count(&me, None, true, false, None));
    store.upload("test_data/1sheet1col.ods", col());
    assert_eq!(3, store.count(&me, None, true, false, None));
    assert_eq!(1, store.count(&me, Some("*col*"), true, false, None));
    assert_eq!(1, store.count(&me, Some("*COL*"), true, false, None));
}

#[test]
fn distinct() {
    let mut store = Store::new();
    let me = login(1);
    assert_eq!(0, store.count(&me, None, true, false, None));
    assert_eq!(0, store.count(&me, None, true, true, None));
    assert_eq!(0, store.list(&me, None, None, None, false, None, false, None).len());
    assert_eq!(0, store.list(&me, None, None, None, false, None, true, None).len());

    let uuid1 = store.upload("test_data/1sheet1cell.ods", cell());
    let uuid2 = store.upload("test_data/v2/1sheet1cell.ods", cell_v2());
    let uuid3 = store.upload("test_data/1sheet1row.ods", row());

    assert_eq!(3, store.count(&me, None, true, false, None));
    assert_eq!(2, store.count(&me, None, true, true, None));

    let docs = store.list(&me, None, None, None, false, None, false, None);
    assert_eq!(3, docs.len());
    assert_eq!(docs[0].id, uuid3);
    assert_eq!(docs[1].id, uuid2);
    assert_eq!(docs[2].id, uuid1);

    let docs = store.list(&me, None, None, None, false, None, true, None);
    assert_eq!(2, docs.len());
    assert_eq!(docs[0].id, uuid3);
    assert_eq!(docs[1].id, uuid2);

    store.delete(&me, uuid1);
    let docs = store.list(&me, None, None, None, false, None, true, None);
    assert_eq!(2, docs.len());
    assert_eq!(docs[0].id, uuid3);
    assert_eq!(docs[1].id, uuid2);
}

#[test]
fn versions() {
    let mut store = Store::new();
    let me = login(1);
    let uuid1 = store.upload("test_data/1sheet1cell.ods", cell());
    let uuid2 = store.upload("test_data/v2/1sheet1cell.ods", cell_v2());

    let docs = store.list(&me, Some("1sheet1cell.ods"), None, None, false, None, false, None);
    assert_eq!(2, docs.len());
    assert_eq!(docs[0].id, uuid2);
    assert_eq!(docs[1].id, uuid1);

    let docs = store.list(&me, None, None, None, false, None, true, None);
    assert_eq!(1, docs.len());
    assert_eq!(docs[0].id, uuid2);

    let e1 = uuid1.to_hyphenated_string();
    let docs = store.list(&me, Some("1sheet1cell.ods"), None, None, false, None, true, Some(&e1));
    assert_eq!(1, docs.len());
    assert_eq!(docs[0].id, uuid2);

    let e2 = uuid2.to_hyphenated_string();
    let docs = store.list(&me, Some("1sheet1cell.ods"), None, None, false, None, true, Some(&e2));
    assert_eq!(1, docs.len());
    assert_eq!(docs[0].id, uuid1);

    assert_eq!(2, store.count(&me, Some("1sheet1cell.ods"), true, false, None));
    assert_eq!(1, store.count(&me, Some("1sheet1cell.ods"), true, false, Some(&e2)));
}

#[test]
fn detect_duplicate() {
    let mut store = Store::new();
    let uuid1 = store.upload("test_data/1sheet1cell.ods", cell());
    match store.do_upload(&login(1), "test_data/1sheet1cell.ods", cell()) {
        DocumentUpload::AlreadyExists { upload_name, existing_id } => {
            assert_eq!(uuid1, existing_id);
            assert_eq!("1sheet1cell.ods", &upload_name);
        }
        du => panic!("Unexpect upload: {:?}", du),
    };
    store.delete(&login(1), uuid1);
}

#[test]
fn short_names() {
    assert_eq!(short_name("test_data/v2/1sheet1cell.ods"), "1sheet1cell.ods");
    assert_eq!(short_name("plain.ods"), "plain.ods");
    assert_eq!(short_name("dir/"), "");
    assert_eq!(short_name("/a"), "a");
    assert_eq!(short_name(""), "");
}

#[test]
fn fingerprints_are_decimal_and_deterministic() {
    let a = content_fingerprint(&[1, 2, 3]);
    let b = content_fingerprint(&[1, 2, 3]);
    let c = content_fingerprint(&[1, 2, 4]);
    assert_eq!(a, b);
    assert_ne!(a, c);
    assert!(a.chars().all(|ch| ch.is_ascii_digit()));
    assert!(a.parse::<u64>().is_ok());
}

#[test]
fn name_filters() {
    match name_filter("*sheet*") {
        NameFilter::Pattern(p) => assert_eq!(p, "%sheet%"),
        f => panic!("unexpected {:?}", f),
    }
    match name_filter("a.ods") {
        NameFilter::Exact(n) => assert_eq!(n, "a.ods"),
        f => panic!("unexpected {:?}", f),
    }
    let f = document_filter(None, true, false, Some("not an id"));
    assert!(f.except.is_none());
    assert!(f.owner_only);
    assert_eq!(outer_order(DocumentOrder::Name), "name asc");
    assert_eq!(outer_order(DocumentOrder::Recent), "created desc");
    let p = list_paging(None, None, None);
    assert_eq!(p.order, DocumentOrder::Recent);
    assert_eq!(p.limit, 10);
    assert_eq!(p.offset, 0);
}

#[test]
fn upload_answers() {
    assert_eq!(DocumentUpload::Uploaded { id: uid(1) }.get_id(), Some(uid(1)));
    assert_eq!(DocumentUpload::LimitsReached.get_id(), None);
    let limit = Limit { user_id: uid(1), max_documents: 1, max_size: 10, current_documents: 0, current_size: 0 };
    let found = vec![uid(2), uid(3)];
    match upload_precheck(found, String::from("x"), &limit, 100) {
        Some(DocumentUpload::AlreadyExists { existing_id, .. }) => assert_eq!(existing_id, uid(3)),
        r => panic!("unexpected {:?}", r),
    }
    assert_eq!(upload_precheck(vec![], String::from("x"), &limit, 11), Some(DocumentUpload::LimitsReached));
    assert_eq!(upload_precheck(vec![], String::from("x"), &limit, 10), None);
}

#[test]
fn download_header() {
    let d = Download { mime: None, filename: String::from("a b.ods"), data: vec![] };
    assert_eq!(d.content_disposition(), "attachment; filename=\"a b.ods\"");
}

#[test]
fn fingerprint_is_the_default_hash_of_the_bytes() {
    let data: Vec<u8> = (0..200u8).collect();
    let mut hasher = std::collections::hash_map::DefaultHasher::new();
    data.hash(&mut hasher);
    assert_eq!(content_fingerprint(&data), hasher.finish().to_string());
}

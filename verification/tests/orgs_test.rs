use dataregi::accesses::page_bounds;
use dataregi::base::{can_manage_members, is_admin, UserContext};
use dataregi::docs::document_visible;
use dataregi::error::{parse_id, DRResult, HttpStatus};
use dataregi::ids::Id;
use dataregi::model::{Document, Member, MemberInfo, Organization, User};
use dataregi::orgs::{
    delete_organization_request, member_request, organization_for_name, require_site_admin, set_member_outcome,
    set_member_request, MemberChange, MemberTarget,
};
use dataregi::time::Timestamp;

fn uid(user_idx: u8) -> Id {
    Id::parse(&format!("b9518d55-3256-4b96-81d0-65b1d7c4fb3{}", user_idx)).unwrap()
}

fn login(user_idx: u8) -> UserContext {
    UserContext::new(uid(user_idx), user_idx == 1)
}

fn org_login(user_idx: u8, members: &[Member]) -> UserContext {
    UserContext::new_in_org(uid(user_idx), members, user_idx == 1)
}

const U2: &str = "b9518d55-3256-4b96-81d0-65b1d7c4fb32";
const U3: &str = "b9518d55-3256-4b96-81d0-65b1d7c4fb33";

struct Store {
    users: Vec<User>,
    orgs: Vec<Organization>,
    members: Vec<Member>,
}

impl Store {
    fn new() -> Store {
        let users = (1..5u8)
            .map(|i| User {
                id: uid(i),
                email: format!("test{}@dataregi.com", i),
                name: format!("Test User {}", i),
                created: Timestamp::new(0, 0),
                last_login: None,
                site_admin: i == 1,
            })
            .collect();
        Store { users, orgs: vec![], members: vec![] }
    }

    /// POST /api/orgs/<name>
    fn set_organization(&mut self, ctx: &UserContext, name: &str) -> DRResult<Organization> {
        require_site_admin(ctx)?;
        let existing = self.orgs.iter().find(|o| o.name == name).cloned();
        let (org, created) = organization_for_name(existing, name);
        if created {
            self.orgs.push(org.clone());
        }
        Ok(org)
    }

    /// GET /api/orgs/<id>
    fn get_organization(&self, org: &str) -> DRResult<Organization> {
        let id = parse_id(org)?;
        Ok(self.orgs.iter().find(|o| o.id == id).cloned().unwrap())
    }

    /// DELETE /api/orgs/<id>
    fn delete_organization(&mut self, ctx: &UserContext, org: &str) -> DRResult<HttpStatus> {
        let id = delete_organization_request(ctx, org)?;
        self.orgs.retain(|o| o.id != id);
        self.members.retain(|m| m.org_id != id);
        Ok(HttpStatus::NoContent)
    }

    /// GET /api/orgs?member&limit&offset
    fn list(&self, ctx: &UserContext, member: bool) -> Vec<Organization> {
        let (limit, offset) = page_bounds(None, None);
        let mut v: Vec<Organization> = self
            .orgs
            .iter()
            .filter(|o| !member || self.members.iter().any(|m| m.org_id == o.id && m.user_id == ctx.user_id))
            .cloned()
            .collect();
        v.sort_by(|a, b| a.name.cmp(&b.name));
        v.into_iter().skip(offset as usize).take(limit as usize).collect()
    }

    /// GET /api/orgs/<org>/<user>
    fn get_member(&self, ctx: &UserContext, org: &str, user: &str) -> DRResult<Option<Member>> {
        let (o, u) = member_request(ctx, org, user)?;
        Ok(self.members.iter().find(|m| m.org_id == o && m.user_id == u).copied())
    }

    /// PUT /api/orgs/<org>/<user>?admin
    fn set_member(&mut self, ctx: &UserContext, org: &str, user: &str, admin: bool) -> DRResult<Member> {
        let (o, target) = set_member_request(ctx, org, user)?;
        let u = match target {
            MemberTarget::User(id) => id,
            MemberTarget::Email(address) => match self.users.iter().find(|x| x.email == address) {
                Some(x) => x.id,
                None => {
                    let x = User::new_reference(&address);
                    let id = x.id;
                    self.users.push(x);
                    id
                }
            },
        };
        let existing = self.members.iter().find(|m| m.org_id == o && m.user_id == u).copied();
        let (m, change) = set_member_outcome(existing, u, o, admin);
        match change {
            MemberChange::Insert => self.members.push(m),
            MemberChange::Update => {
                for x in self.members.iter_mut() {
                    if x.org_id == o && x.user_id == u {
                        *x = m;
                    }
                }
            }
        }
        Ok(m)
    }

    /// DELETE /api/orgs/<org>/<user>
    fn delete_member(&mut self, ctx: &UserContext, org: &str, user: &str) -> DRResult<HttpStatus> {
        let (o, u) = member_request(ctx, org, user)?;
        self.members.retain(|m| !(m.org_id == o && m.user_id == u));
        Ok(HttpStatus::NoContent)
    }

    /// GET /api/orgs/<org>/members
    fn member_infos(&self, ctx: &UserContext, org: &str) -> DRResult<Vec<MemberInfo>> {
        let o = parse_id(org)?;
        if !can_manage_members(ctx, o) {
            return Err(dataregi::error::forbidden::<()>().unwrap_err());
        }
        let mut v: Vec<MemberInfo> = self
            .members
            .iter()
            .filter(|m| m.org_id == o)
            .map(|m| {
                let u = self.users.iter().find(|x| x.id == m.user_id).unwrap();
                MemberInfo { user_id: u.id, name: u.name.clone(), email: u.email.clone(), org_admin: m.org_admin }
            })
            .collect();
        v.sort_by(|a, b| a.name.cmp(&b.name));
        Ok(v)
    }
}

#[test]
fn orgs_test_crud() {
    let mut store = Store::new();
    assert_eq!(0, store.list(&login(1), false).len());

    let org = store.set_organization(&login(1), "Acme").unwrap();
    assert_eq!("Acme", &org.name);
    let id = org.id.to_hyphenated_string();
    assert_eq!("Acme", &store.get_organization(&id).unwrap().name);

    let org2 = store.set_organization(&login(1), "Acme").unwrap();
    assert_eq!("Acme", &org2.name);
    assert_eq!(org.id, org2.id);

    let e = store.set_organization(&login(2), "Acme").unwrap_err();
    assert_eq!(e.http_status(), HttpStatus::Forbidden);

    let orgs = store.list(&login(1), false);
    assert_eq!(1, orgs.len());
    assert_eq!("Acme", &orgs[0].name);

    let e = store.delete_organization(&login(2), &id).unwrap_err();
    assert_eq!(e.http_status(), HttpStatus::Forbidden);
    assert_eq!(store.delete_organization(&login(1), &id).unwrap(), HttpStatus::NoContent);
    assert_eq!(0, store.list(&login(1), false).len());
}

#[test]
fn members() {
    let mut store = Store::new();
    let org = store.set_organization(&login(1), "Acme").unwrap();
    let id = org.id.to_hyphenated_string();

    assert_eq!(None, store.get_member(&login(1), &id, U2).unwrap());
    assert_eq!(store.get_member(&login(2), &id, U2).unwrap_err().http_status(), HttpStatus::Forbidden);

    let mbr = store.set_member(&login(1), &id, U2, false).unwrap();
    assert_eq!(org.id, mbr.org_id);
    assert_eq!(U2, &mbr.user_id.to_hyphenated_string());
    assert!(!mbr.org_admin);

    assert_eq!(store.set_member(&login(2), &id, U2, false).unwrap_err().http_status(), HttpStatus::Forbidden);

    let m = store.get_member(&login(1), &id, U2).unwrap().unwrap();
    assert_eq!(org.id, m.org_id);
    assert!(!m.org_admin);

    let mbr = store.set_member(&login(1), &id, U2, true).unwrap();
    assert_eq!(org.id, mbr.org_id);
    assert!(mbr.org_admin);
    assert!(store.get_member(&login(1), &id, U2).unwrap().unwrap().org_admin);

    let orgs = store.list(&login(2), true);
    assert_eq!(1, orgs.len());
    assert_eq!(org.id, orgs[0].id);
    assert_eq!(0, store.list(&login(1), true).len());
    assert_eq!(1, store.list(&login(1), false).len());

    assert_eq!(store.delete_member(&login(1), &id, U2).unwrap(), HttpStatus::NoContent);
    assert_eq!(store.delete_member(&login(2), &id, U2).unwrap_err().http_status(), HttpStatus::Forbidden);
    assert_eq!(0, store.list(&login(2), true).len());

    assert_eq!(store.delete_organization(&login(1), &id).unwrap(), HttpStatus::NoContent);
}

#[test]
fn members_email() {
    let mut store = Store::new();
    let org = store.set_organization(&login(1), "Acme").unwrap();
    let id = org.id.to_hyphenated_string();

    assert_eq!(None, store.get_member(&login(1), &id, U2).unwrap());

    let mbr = store.set_member(&login(1), &id, "test2@dataregi.com", false).unwrap();
    assert_eq!(org.id, mbr.org_id);
    assert_eq!(U2, &mbr.user_id.to_hyphenated_string());
    assert!(!mbr.org_admin);

    let m = store.get_member(&login(1), &id, U2).unwrap().unwrap();
    assert_eq!(org.id, m.org_id);
    assert!(!m.org_admin);

    assert_eq!(store.delete_member(&login(1), &id, U2).unwrap(), HttpStatus::NoContent);

    let mbr = store.set_member(&login(1), &id, "test5@dataregi.com", false).unwrap();
    assert_eq!(org.id, mbr.org_id);
    assert!(!mbr.org_admin);

    let new_user = mbr.user_id.to_hyphenated_string();
    let m2 = store.get_member(&login(1), &id, &new_user).unwrap().unwrap();
    assert_eq!(org.id, m2.org_id);
    assert_eq!(mbr.user_id, m2.user_id);
    assert!(!m2.org_admin);

    assert_eq!(store.delete_member(&login(1), &id, &new_user).unwrap(), HttpStatus::NoContent);
    assert_eq!(0, store.list(&login(2), true).len());
    assert_eq!(store.delete_organization(&login(1), &id).unwrap(), HttpStatus::NoContent);
}

#[test]
fn members_org_admin() {
    let mut store = Store::new();
    let org = store.set_organization(&login(1), "Acme").unwrap();
    let id = org.id.to_hyphenated_string();

    assert_eq!(None, store.get_member(&login(1), &id, U2).unwrap());

    let mbr = store.set_member(&login(1), &id, U2, true).unwrap();
    assert_eq!(org.id, mbr.org_id);
    assert!(mbr.org_admin);

    let v = vec![mbr];
    let user2 = org_login(2, &v);
    assert!(is_admin(&user2, org.id));

    let m3 = store.set_member(&user2, &id, U3, false).unwrap();
    assert_eq!(U3, &m3.user_id.to_hyphenated_string());
    let m = store.get_member(&user2, &id, U3).unwrap().unwrap();
    assert_eq!(org.id, m.org_id);
    assert!(!m.org_admin);

    let m3 = store.set_member(&user2, &id, U3, true).unwrap();
    assert!(m3.org_admin);
    assert!(store.get_member(&user2, &id, U3).unwrap().unwrap().org_admin);

    let mbrs = store.member_infos(&user2, &id).unwrap();
    assert_eq!(2, mbrs.len());
    assert_eq!(U2, &mbrs[0].user_id.to_hyphenated_string());
    assert_eq!(U3, &mbrs[1].user_id.to_hyphenated_string());
    assert_eq!("Test User 2", &mbrs[0].name);
    assert_eq!("Test User 3", &mbrs[1].name);
    assert_eq!("test2@dataregi.com", &mbrs[0].email);
    assert_eq!("test3@dataregi.com", &mbrs[1].email);

    assert_eq!(store.delete_member(&user2, &id, U3).unwrap(), HttpStatus::NoContent);
    assert_eq!(store.delete_member(&login(1), &id, U2).unwrap(), HttpStatus::NoContent);
    assert_eq!(store.delete_organization(&login(1), &id).unwrap(), HttpStatus::NoContent);
}

#[test]
fn org_documents() {
    let mut store = Store::new();
    let org = store.set_organization(&login(1), "Acme").unwrap();
    let id = org.id.to_hyphenated_string();

    let mbr = store.set_member(&login(1), &id, "b9518d55-3256-4b96-81d0-65b1d7c4fb31", true).unwrap();
    assert!(mbr.org_admin);
    let v = vec![mbr];
    let mbr2 = store.set_member(&login(1), &id, U2, false).unwrap();
    assert!(!mbr2.org_admin);
    let v2 = vec![mbr2];

    let doc = Document::new_upload(uid(1), Some(org.id), String::from("1sheet1cell.ods"), None, vec![1], String::from("1"));
    // as owner, and as member of the organization
    assert!(document_visible(&org_login(1, &v), doc.owner, doc.org_id, 0));
    assert!(document_visible(&org_login(2, &v2), doc.owner, doc.org_id, 0));
    assert_eq!(Some(org.id), doc.info().org_id);
    // not as a stranger
    assert!(!document_visible(&login(3), doc.owner, doc.org_id, 0));

    assert_eq!(store.delete_member(&org_login(1, &v), &id, U2).unwrap(), HttpStatus::NoContent);
    assert_eq!(store.delete_organization(&login(1), &id).unwrap(), HttpStatus::NoContent);
}

#[test]
fn bad_identifiers() {
    let mut store = Store::new();
    assert_eq!(store.get_member(&login(1), "nope", U2).unwrap_err().http_status(), HttpStatus::BadRequest);
    let org = store.set_organization(&login(1), "Acme").unwrap();
    let id = org.id.to_hyphenated_string();
    assert_eq!(store.get_member(&login(1), &id, "nope").unwrap_err().http_status(), HttpStatus::BadRequest);
    assert_eq!(store.set_member(&login(1), &id, "nope", false).unwrap_err().http_status(), HttpStatus::BadRequest);
    // permission is checked before the user is read
    assert_eq!(store.get_member(&login(2), &id, "nope").unwrap_err().http_status(), HttpStatus::Forbidden);
}

//! The web site around the API: who gets past the login check, which page a
//! request shows, what an unauthenticated request is answered, and the
//! addresses and messages of the e-mail login.
use vstd::prelude::*;
use crate::base::{Config, UserContext, memberships_of};
use crate::ids::Id;
use crate::mail::{OutgoingMail, base64_standard, outgoing_email, spec_formatted_email, spec_mailbox_ok};
use crate::model::{Member, Token, User, display_name};
use crate::error::HttpStatus;
use crate::text::{decimal, occurs_at, push_char, starts_with, str_equal, write_decimal};
use crate::time::{Timestamp, spec_token_expired, token_expired};

verus! {

/// What the login check makes of a request.
#[derive(Debug, Clone)]
pub enum GuardOutcome {
    /// The request carries a valid login: the handler runs with it.
    Success(UserContext),
    /// No login, on the start page: the request goes on to the page for
    /// visitors.
    Forward,
    /// No login elsewhere: the request fails as unauthorized.
    Unauthorized,
}

/// What the login check makes of a request for `uri`, given the context read
/// from its login cookie, if one could be read.
pub open spec fn spec_guard(login: Option<UserContext>, uri: Seq<char>) -> GuardOutcome {
    match login {
        Some(ctx) => GuardOutcome::Success(ctx),
        None => if uri == "/"@ {
            GuardOutcome::Forward
        } else {
            GuardOutcome::Unauthorized
        },
    }
}

/// What the login check makes of a request.
pub fn guard(login: Option<UserContext>, uri: &str) -> (r: GuardOutcome)
    ensures
        r == spec_guard(login, uri@),
        login matches Some(ctx) ==> r == GuardOutcome::Success(ctx),
        login is None && uri@ == "/"@ ==> r is Forward,
        login is None && uri@ != "/"@ ==> r is Unauthorized,
{
    match login {
        Some(ctx) => GuardOutcome::Success(ctx),
        None => if str_equal(uri, "/") {
            GuardOutcome::Forward
        } else {
            GuardOutcome::Unauthorized
        },
    }
}

/// The pages of the site.
#[derive(Debug, Clone, Copy, PartialEq, Eq, Structural)]
pub enum Page {
    /// The start page for visitors: the login form.
    Index,
    /// The start page for logged-in users: their documents and the upload form.
    Home,
    /// A document's page.
    Doc,
    /// An organization's page.
    Org,
    /// The user's profile.
    Profile,
}

impl Page {
    /// The name of the page's template.
    pub fn template_name(&self) -> (s: &'static str)
        ensures
            s@ == spec_template_name(*self),
    {
        match self {
            Page::Index => "index",
            Page::Home => "home",
            Page::Doc => "doc",
            Page::Org => "org",
            Page::Profile => "profile",
        }
    }

    /// Whether the page holds the e-mail login form.
    pub fn offers_login(&self) -> (r: bool)
        ensures
            r == (*self == Page::Index),
    {
        match self {
            Page::Index => true,
            _ => false,
        }
    }

    /// Whether the page holds the upload form.
    pub fn offers_upload(&self) -> (r: bool)
        ensures
            r == (*self == Page::Home),
    {
        match self {
            Page::Home => true,
            _ => false,
        }
    }
}

/// The name of a page's template.
pub open spec fn spec_template_name(p: Page) -> Seq<char> {
    match p {
        Page::Index => "index"@,
        Page::Home => "home"@,
        Page::Doc => "doc"@,
        Page::Org => "org"@,
        Page::Profile => "profile"@,
    }
}

/// The answer to a request: a page, or a redirection.
#[derive(Debug, Clone, Copy, PartialEq, Eq, Structural)]
pub enum SiteResponse {
    /// A page in HTML, status 200.
    Html(Page),
    /// A redirection (status 303) to the start page.
    RedirectHome,
    /// A bare status.
    Status(HttpStatus),
}

/// The status of a response.
pub open spec fn response_status(r: SiteResponse) -> HttpStatus {
    match r {
        SiteResponse::Html(_) => HttpStatus::Success,
        SiteResponse::RedirectHome => HttpStatus::SeeOther,
        SiteResponse::Status(s) => s,
    }
}

impl SiteResponse {
    /// The status of the response.
    pub fn status(&self) -> (s: HttpStatus)
        ensures
            s == response_status(*self),
    {
        match self {
            SiteResponse::Html(_) => HttpStatus::Success,
            SiteResponse::RedirectHome => HttpStatus::SeeOther,
            SiteResponse::Status(s) => *s,
        }
    }

    /// Whether the response is an HTML page.
    pub fn is_html(&self) -> (r: bool)
        ensures
            r == (*self is Html),
    {
        match self {
            SiteResponse::Html(_) => true,
            _ => false,
        }
    }
}

/// Whether a path lies under the API (`/api`), whose failures are answered
/// with bare statuses rather than redirections.
pub open spec fn in_api_scope(path: Seq<char>) -> bool {
    path == "/api"@ || occurs_at(path, "/api/"@, 0)
}

/// Whether a path lies under the API.
pub fn is_api_path(path: &str) -> (r: bool)
    ensures
        r == in_api_scope(path@),
{
    str_equal(path, "/api") || starts_with(path, "/api/")
}

/// The answer to an unauthorized request for `path`: under the API, status
/// 401; elsewhere, a redirection to the start page.
pub open spec fn spec_unauthorized_response(path: Seq<char>) -> SiteResponse {
    if in_api_scope(path) {
        SiteResponse::Status(HttpStatus::Unauthorized)
    } else {
        SiteResponse::RedirectHome
    }
}

/// The answer to an unauthorized request for `path`.
pub fn unauthorized_response(path: &str) -> (r: SiteResponse)
    ensures
        r == spec_unauthorized_response(path@),
{
    if is_api_path(path) {
        SiteResponse::Status(HttpStatus::Unauthorized)
    } else {
        SiteResponse::RedirectHome
    }
}

/// The page that the start page shows, given what the login check made of
/// the request: the user's home page, or the login page for visitors.
pub open spec fn spec_start_page(g: GuardOutcome) -> SiteResponse {
    match g {
        GuardOutcome::Success(_) => SiteResponse::Html(Page::Home),
        _ => SiteResponse::Html(Page::Index),
    }
}

/// The answer to a request for the start page.
pub fn start_page(g: &GuardOutcome) -> (r: SiteResponse)
    ensures
        r == spec_start_page(*g),
{
    match g {
        GuardOutcome::Success(_) => SiteResponse::Html(Page::Home),
        _ => SiteResponse::Html(Page::Index),
    }
}

/// The answer to a request for a page that needs a login (`page`), at `path`.
pub open spec fn spec_member_page(g: GuardOutcome, page: Page, path: Seq<char>) -> SiteResponse {
    match g {
        GuardOutcome::Success(_) => SiteResponse::Html(page),
        _ => spec_unauthorized_response(path),
    }
}

/// The answer to a request for a page that needs a login.
pub fn member_page(g: &GuardOutcome, page: Page, path: &str) -> (r: SiteResponse)
    ensures
        r == spec_member_page(*g, page, path@),
{
    match g {
        GuardOutcome::Success(_) => SiteResponse::Html(page),
        _ => unauthorized_response(path),
    }
}

/// Without a login, the check lets only the start page through (to the
/// visitors' page); every other path is unauthorized. With a login, every
/// path is let through with the login's context.
pub proof fn lemma_guard_forwards_only_the_start_page(login: Option<UserContext>, uri: Seq<char>)
    ensures
        login is None ==> (spec_guard(login, uri) is Forward <==> uri == "/"@),
        login is None ==> (spec_guard(login, uri) is Unauthorized <==> uri != "/"@),
        login matches Some(ctx) ==> spec_guard(login, uri) == GuardOutcome::Success(ctx),
{
}

/// A visitor without a login who asks for the start page sees the login
/// page; one who asks for any other page of the site is sent to the start
/// page, and one who calls the API is answered 401.
pub proof fn lemma_visitors(path: Seq<char>, page: Page)
    ensures
        spec_start_page(spec_guard(None, "/"@)) == SiteResponse::Html(Page::Index),
        path != "/"@ && !in_api_scope(path) ==> spec_member_page(spec_guard(None, path), page, path)
            == SiteResponse::RedirectHome,
        in_api_scope(path) ==> response_status(spec_member_page(spec_guard(None, path), page, path))
            == HttpStatus::Unauthorized,
{
}

/// A logged-in user sees their home page at the start page, and every page
/// that needs a login.
pub proof fn lemma_logged_in(ctx: UserContext, uri: Seq<char>, page: Page)
    ensures
        spec_start_page(spec_guard(Some(ctx), uri)) == SiteResponse::Html(Page::Home),
        spec_member_page(spec_guard(Some(ctx), uri), page, uri) == SiteResponse::Html(page),
{
}

/// The host name (and port, unless it is 443) at which the site calls back.
pub open spec fn spec_callback_address(callback_name: Seq<char>, port: u16) -> Seq<char> {
    if port == 443 {
        callback_name + ".dataregi.com"@
    } else {
        callback_name + ".dataregi.com:"@ + decimal(port as nat)
    }
}

/// The host name (and port, unless it is 443) at which the site calls back.
pub fn callback_address(config: &Config) -> (s: String)
    ensures
        s@ == spec_callback_address(config.callback_name@, config.port),
{
    let mut s = config.callback_name.clone();
    if config.port == 443 {
        s.append(".dataregi.com");
    } else {
        s.append(".dataregi.com:");
        write_decimal(config.port as u64, &mut s);
    }
    s
}

/// The link in a login e-mail.
pub open spec fn spec_login_link(callback_name: Seq<char>, port: u16, token: Seq<char>) -> Seq<char> {
    "https://"@ + spec_callback_address(callback_name, port) + "/loginToken?token="@ + token
}

/// The link in a login e-mail.
pub fn login_link(config: &Config, token: &str) -> (s: String)
    ensures
        s@ == spec_login_link(config.callback_name@, config.port, token@),
{
    let mut s = String::from_str("https://");
    let host = callback_address(config);
    s.append(host.as_str());
    s.append("/loginToken?token=");
    s.append(token);
    s
}

/// The sender of login e-mails.
pub const LOGIN_SENDER: &'static str = "login@dataregi.com";

/// The subject of login e-mails.
pub const LOGIN_SUBJECT: &'static str = "Login to DataRegi";

/// The body of a login e-mail.
pub open spec fn spec_login_body(link: Seq<char>) -> Seq<char> {
    "Click on this link to log in to DataRegi: \n"@ + link + "\nThank you!\n\nDataRegi"@
}

/// The body of a login e-mail.
pub fn login_body(link: &str) -> (s: String)
    ensures
        s@ == spec_login_body(link@),
{
    let mut s = String::from_str("Click on this link to log in to DataRegi: \n");
    s.append(link);
    s.append("\nThank you!\n\nDataRegi");
    s
}

/// The login e-mail to `to`: from the login sender, with the login subject
/// and the body that carries `link`.
pub fn login_message(to: &str, link: &str) -> (m: OutgoingMail)
    ensures
        m.from@ == LOGIN_SENDER@,
        m.to@ == to@,
        m.subject@ == LOGIN_SUBJECT@,
        m.body@ == spec_login_body(link@),
{
    OutgoingMail {
        from: String::from_str(LOGIN_SENDER),
        to: String::from_str(to),
        subject: String::from_str(LOGIN_SUBJECT),
        body: login_body(link),
    }
}

/// The data of the login e-mail to `to`, as the mail service takes it: the
/// message from the login sender, with the login subject and the body that
/// carries `link`, formatted and in standard base64. It is built exactly
/// when the sender and `to` read as mailboxes; otherwise the answer is the
/// formatter's error.
pub fn login_email(to: &str, link: &str) -> (r: Result<String, String>)
    ensures
        r is Ok <==> spec_mailbox_ok(LOGIN_SENDER@) && spec_mailbox_ok(to@),
        r matches Ok(s) ==> exists|raw: Seq<u8>|
            s@ == base64_standard(raw) && spec_formatted_email(
                raw,
                LOGIN_SENDER@,
                to@,
                LOGIN_SUBJECT@,
                spec_login_body(link@),
            ),
{
    let m = login_message(to, link);
    outgoing_email(&m)
}

/// The answer to a request for a login e-mail.
pub open spec fn spec_login_sent(address: Seq<char>) -> Seq<char> {
    "An email has been sent to "@ + address + ", please click on the link it contains to login!"@
}

/// The answer to a request for a login e-mail.
pub fn login_sent_message(address: &str) -> (s: String)
    ensures
        s@ == spec_login_sent(address@),
{
    let mut s = String::from_str("An email has been sent to ");
    s.append(address);
    s.append(", please click on the link it contains to login!");
    s
}

/// The number of characters of a login token.
pub const TOKEN_LENGTH: usize = 20;

/// Whether a character is an ASCII letter or digit.
pub open spec fn is_alphanumeric(c: char) -> bool {
    ('a' <= c && c <= 'z') || ('A' <= c && c <= 'Z') || ('0' <= c && c <= '9')
}

/// Calls `rand::thread_rng().sample(Alphanumeric)` and converts the byte
/// to a `char`. Claimed (the distribution documents it): an ASCII letter or
/// digit. Nothing else is said: the value is random. The thread's generator
/// panics if the operating system cannot seed it.
#[verifier::external_body]
fn random_alphanumeric() -> (c: char)
    ensures
        is_alphanumeric(c),
{
    char::from(rand::Rng::sample(&mut rand::thread_rng(), rand::distributions::Alphanumeric))
}

/// A fresh login token: twenty random ASCII letters and digits.
pub fn new_login_token() -> (s: String)
    ensures
        s@.len() == TOKEN_LENGTH,
        forall|i: int| 0 <= i < s@.len() ==> is_alphanumeric(#[trigger] s@[i]),
{
    let mut s = String::new();
    let mut i: usize = 0;
    while i < TOKEN_LENGTH
        invariant
            i <= TOKEN_LENGTH,
            s@.len() == i,
            forall|j: int| 0 <= j < s@.len() ==> is_alphanumeric(#[trigger] s@[j]),
        decreases TOKEN_LENGTH - i,
    {
        let c = random_alphanumeric();
        push_char(&mut s, c);
        i = i + 1;
    }
    s
}

impl Token {
    /// The token sent to an address that asks to log in: a fresh login token,
    /// created now.
    pub fn issue(email: &str) -> (t: Token)
        ensures
            t.email@ == email@,
            t.token@.len() == TOKEN_LENGTH,
            forall|i: int| 0 <= i < t.token@.len() ==> is_alphanumeric(#[trigger] t.token@[i]),
            t.created.wf(),
    {
        Token { token: new_login_token(), email: String::from_str(email), created: Timestamp::now() }
    }
}

/// What a login writes to the users' table.
#[derive(Debug, Clone)]
pub enum LoginStep {
    /// Store this new user (and give them the default limits).
    Create(User),
    /// Set the last login of this known user to this time.
    Touch { user_id: Id, now: Timestamp },
}

/// The context that logging in the user of an address gives, and what the
/// login writes. An unknown address (`found` is `None`) becomes a new user,
/// named `name` or else by the address, who administers nothing and belongs
/// to no organization. A known user keeps their site role, gets the
/// memberships `members` (their member records), and their last login is set
/// to now.
pub fn login_step(found: Option<User>, members: &[Member], email: &str, name: Option<&str>) -> (r: (UserContext, LoginStep))
    ensures
        match found {
            None => r.1 matches LoginStep::Create(u) && u.email@ == email@
                && u.name@ == display_name(email@, match name { Some(n) => Some(n@), None => None })
                && !u.site_admin && u.last_login is Some && r.0.user_id == u.id && !r.0.site_admin
                && r.0.org_members@.len() == 0,
            Some(u) => r.1 matches LoginStep::Touch { user_id, now } && user_id == u.id && now.wf()
                && r.0.user_id == u.id && r.0.site_admin == u.site_admin
                && r.0.org_members@ == memberships_of(members@),
        },
{
    match found {
        None => {
            let user = User::new_login(email, name);
            let ctx = UserContext::new(user.id, false);
            (ctx, LoginStep::Create(user))
        },
        Some(u) => {
            let ctx = UserContext::new_in_org(u.id, members, u.site_admin);
            (ctx, LoginStep::Touch { user_id: u.id, now: Timestamp::now() })
        },
    }
}

/// What a login link leads to.
#[derive(Debug, Clone)]
pub enum TokenLogin {
    /// Log in the user of this address.
    Login(String),
    /// Show the start page with this error.
    Refused(String),
}

/// What a login link leads to, given the address and creation time stored
/// with its token (if the token was found, and then taken), the current time
/// and the tokens' lifespan.
pub open spec fn spec_token_login(found: Option<(Seq<char>, Timestamp)>, now: Timestamp, lifespan_minutes: u64) -> (bool, Seq<char>) {
    match found {
        None => (false, "Could not log in, invalid token"@),
        Some((address, created)) => if spec_token_expired(created, now, lifespan_minutes) {
            (false, "Could not log in, expired token"@)
        } else {
            (true, address)
        },
    }
}

/// The meaning of a `TokenLogin`: whether it logs in, and the address or the error.
pub open spec fn token_login_view(t: TokenLogin) -> (bool, Seq<char>) {
    match t {
        TokenLogin::Login(a) => (true, a@),
        TokenLogin::Refused(e) => (false, e@),
    }
}

/// What a login link leads to.
pub fn token_login(found: Option<(String, Timestamp)>, now: Timestamp, lifespan_minutes: u64) -> (r: TokenLogin)
    requires
        lifespan_minutes * 60 <= u64::MAX,
    ensures
        token_login_view(r) == spec_token_login(
            match found { Some((a, t)) => Some((a@, t)), None => None },
            now,
            lifespan_minutes,
        ),
{
    match found {
        None => TokenLogin::Refused(String::from_str("Could not log in, invalid token")),
        Some((address, created)) => {
            if token_expired(created, now, lifespan_minutes) {
                TokenLogin::Refused(String::from_str("Could not log in, expired token"))
            } else {
                TokenLogin::Login(address)
            }
        },
    }
}

/// Whether the token posted by Google's sign-in form matches the one in its
/// cookie.
pub fn csrf_matches(cookie: Option<&str>, form: &str) -> (r: bool)
    ensures
        r == (cookie matches Some(c) && c@ == form@),
{
    match cookie {
        Some(c) => str_equal(c, form),
        None => false,
    }
}

/// The error shown when the sign-in form and its cookie disagree.
pub fn csrf_error() -> (s: String)
    ensures
        s@ == "Error matching token and form"@,
{
    String::from_str("Error matching token and form")
}

} // verus!

//! The login state machine. Each step takes what the outside world answered
//! and says what to do next; the caller performs the requests, the CAPTCHA
//! recognition and the launch.
use vstd::prelude::*;
use vstd::string::StringExecFns;
use crate::accounts::{choose_account, select_entries, selected_entries, selection, SelectError, ACCOUNT_OPTIONS};
use crate::chars::{from_chars, to_chars};
use crate::form::{captcha_form, captcha_form_body, form_serialize, form_serialized, shift_jis, shift_jis_encoded};
use crate::page::{get_view_state, lacks_entitlement, launch_password, launch_password_of, session_token, session_token_of, view_state_of, ENTITLEMENT_MARKER};
use crate::pattern::{contains, has_at, starts_at};
use crate::target::{classify, decode_target, decoded_target, target_kind, Target, IMAGE_AUTH_PAGE_PATH, IMAGE_AUTH_PATH, MENU_PATH};

verus! {

broadcast use vstd::string::group_string_axioms;

/// Query that the CAPTCHA confirmation pages take after the session token.
pub const RETURN_QUERY: &'static str = "&.goeReturnUrl=/front/member/center.aspx&.goeBackUrl=/front/member/center.aspx";

/// Prefix of the name of the cookie that an authenticated session holds.
pub const SESSION_COOKIE_PREFIX: &'static str = "GHLI";

/// Prefix of the string handed to the game client.
pub const LAUNCH_PREFIX: &'static str = "ROEXEURI://-w^&";

/// Seconds to wait before a new attempt.
pub const RETRY_DELAY_SECS: u64 = 3;

/// Length of a well-read CAPTCHA answer.
pub const ANSWER_LEN: usize = 4;

/// Why an attempt was abandoned.
#[derive(PartialEq, Eq, Structural, Clone, Copy, Debug)]
pub enum Fatal {
    /// The login form answered with this status instead of a redirect.
    UnexpectedStatus(u16),
    /// The login redirected to a target that the protocol does not know.
    UnexpectedRedirect,
    /// A redirect of the account page came without a target.
    MissingLocation,
    /// A CAPTCHA redirect target lacks its session token.
    MissingSessionToken,
    /// The selector of the account list does not parse.
    UnusableSelector,
    /// An account entry lacks its value or its text.
    MalformedAccountEntry,
    /// No account entry carries the attraction identifier.
    AccountNotFound,
    /// The account lacks the entitlement to play.
    NoEntitlement,
    /// The account page lacks the launch trigger.
    LaunchTriggerMissing,
    /// The CAPTCHA answer has no Shift_JIS form.
    UnencodableAnswer,
    /// An accepted CAPTCHA left no session cookie.
    SessionCookieMissing,
    /// An answer came that the current step does not wait for.
    UnexpectedEvent,
}

/// How an attempt ended.
#[derive(Debug)]
pub enum Outcome {
    /// The launch string for the game client.
    Success(String),
    /// The attempt failed in a way that a new attempt may not.
    SoftRetry,
    /// The attempt failed in a way that a new attempt cannot mend.
    Fatal(Fatal),
}

/// What the caller does next.
#[derive(Debug)]
pub enum Action {
    /// GET this path under the base origin; answer with `Response`.
    Get(String),
    /// POST these form fields to the login path; answer with `Response`.
    PostLogin(Vec<(String, String)>),
    /// Fetch the CAPTCHA image, recognise it; answer with `Recognized`.
    SolveCaptcha,
    /// POST this url-encoded body to this path; answer with `Submitted`.
    PostCaptcha { path: String, body: String },
    /// Phone verification is pending; answer with any event once it is done.
    AwaitPhone,
    /// The attempt is over.
    Finish(Outcome),
}

/// What the outside world answered.
#[derive(Debug)]
pub enum Event {
    /// An HTTP response: its status, its `location` header and its body.
    Response { status: u16, location: Option<String>, body: String },
    /// The text that the CAPTCHA recogniser read.
    Recognized(String),
    /// The status of the CAPTCHA submission and the names of the cookies held since.
    Submitted { status: u16, cookie_names: Vec<String> },
}

/// Where an attempt stands.
#[derive(Debug)]
pub enum Stage {
    LoginPage,
    Credentials,
    PhoneVerification(String),
    AccountList,
    AccountPage,
    RedirectedAccountPage,
    CaptchaFirst(String),
    CaptchaSecond(String),
    Recognition { page: String, view_state: String },
    CaptchaResult,
    Done,
}

/// One login attempt: the credentials, the account sought, and the stage.
#[derive(Debug)]
pub struct Login {
    pub id: String,
    pub password: String,
    pub aid: String,
    pub otp: String,
    pub stage: Stage,
}

pub open spec fn fields_view(f: Seq<(String, String)>) -> Seq<(Seq<char>, Seq<char>)> {
    f.map_values(|p: (String, String)| (p.0@, p.1@))
}

/// The fields of the credential form.
pub open spec fn login_fields(view_state: Seq<char>, id: Seq<char>, password: Seq<char>, otp: Seq<char>) -> Seq<(Seq<char>, Seq<char>)> {
    seq![
        ("__EVENTTARGET"@, ""@),
        ("__EVENTARGUMENT"@, ""@),
        ("__VIEWSTATE"@, view_state),
        ("loginNameControl$txtLoginName"@, id),
        ("login"@, ""@),
        ("passwordControl$txtPassword"@, password),
        ("OTPControl$inputOTP"@, otp),
    ]
}

/// A CAPTCHA confirmation page for a session token.
pub open spec fn captcha_page(path: Seq<char>, token: Seq<char>) -> Seq<char> {
    path + "?otp="@ + token + RETURN_QUERY@
}

/// The page of one account, by its internal id.
pub open spec fn account_page(siid: Seq<char>) -> Seq<char> {
    MENU_PATH@ + "?SIID="@ + siid
}

/// A character of Unicode's `White_Space` property.
pub open spec fn is_white(c: char) -> bool {
    ('\u{9}' <= c <= '\u{d}') || c == ' ' || c == '\u{85}' || c == '\u{a0}' || c == '\u{1680}'
        || ('\u{2000}' <= c <= '\u{200a}') || c == '\u{2028}' || c == '\u{2029}' || c == '\u{202f}'
        || c == '\u{205f}' || c == '\u{3000}'
}

/// The recogniser's text with its whitespace taken out.
pub open spec fn without_whitespace(s: Seq<char>) -> Seq<char>
    decreases s.len(),
{
    if s.len() == 0 {
        seq![]
    } else {
        without_whitespace(s.drop_last()) + if is_white(s.last()) {
            seq![]
        } else {
            seq![s.last()]
        }
    }
}

/// Some cookie name starts with the session prefix.
pub open spec fn has_session_cookie(names: Seq<String>) -> bool {
    exists|i: int| 0 <= i < names.len() && has_at(names[i]@, SESSION_COOKIE_PREFIX@, 0)
}

pub open spec fn fails(stage: Stage, act: Action, f: Fatal) -> bool {
    stage is Done && act == Action::Finish(Outcome::Fatal(f))
}

pub open spec fn retries(stage: Stage, act: Action) -> bool {
    stage is Done && act == Action::Finish(Outcome::SoftRetry)
}

pub open spec fn fetches(act: Action, path: Seq<char>) -> bool {
    act matches Action::Get(p) && p@ == path
}

/// Entering the state that a redirect target stands for.
pub open spec fn dispatched(t: Seq<char>, stage: Stage, act: Action) -> bool {
    match target_kind(t) {
        Target::AccountList => stage is AccountList && fetches(act, MENU_PATH@),
        Target::PhoneVerification => stage matches Stage::PhoneVerification(u) && u@ == t && act is AwaitPhone,
        Target::ImageCaptcha => match session_token_of(t) {
            Some(tok) => stage matches Stage::CaptchaFirst(u) && u@ == tok && fetches(act, captcha_page(IMAGE_AUTH_PATH@, tok)),
            None => fails(stage, act, Fatal::MissingSessionToken),
        },
        Target::Unrecognized => fails(stage, act, Fatal::UnexpectedRedirect),
    }
}

/// Reading the launch password off an account page.
pub open spec fn ticket_read(body: Seq<char>, stage: Stage, act: Action) -> bool {
    if contains(body, ENTITLEMENT_MARKER@) {
        fails(stage, act, Fatal::NoEntitlement)
    } else {
        match launch_password_of(body) {
            Some(pw) => stage is Done && (act matches Action::Finish(Outcome::Success(c)) && c@ == LAUNCH_PREFIX@ + pw),
            None => fails(stage, act, Fatal::LaunchTriggerMissing),
        }
    }
}

/// Choosing the account on the account list.
pub open spec fn account_chosen(body: Seq<char>, aid: Seq<char>, stage: Stage, act: Action) -> bool {
    match selected_entries(body, ACCOUNT_OPTIONS@) {
        None => fails(stage, act, Fatal::UnusableSelector),
        Some(es) => match selection(es, aid) {
            Ok(k) => stage is AccountPage && fetches(act, account_page(es[k].0->0)),
            Err(SelectError::NotFound) => fails(stage, act, Fatal::AccountNotFound),
            Err(SelectError::MalformedEntry) => fails(stage, act, Fatal::MalformedAccountEntry),
        },
    }
}

/// Acting on the recogniser's text.
pub open spec fn answer_handled(page: Seq<char>, view_state: Seq<char>, text: Seq<char>, stage: Stage, act: Action) -> bool {
    let answer = without_whitespace(text);
    if answer.len() != ANSWER_LEN {
        retries(stage, act)
    } else if shift_jis_encoded(answer).1 {
        fails(stage, act, Fatal::UnencodableAnswer)
    } else {
        stage is CaptchaResult && (act matches Action::PostCaptcha { path, body } && path@ == page
            && body@ == captcha_form(view_state, form_serialized(shift_jis_encoded(answer).0)))
    }
}

/// The location of a response, empty where it has none.
pub open spec fn location_or_empty(l: Option<String>) -> Seq<char> {
    match l {
        Some(s) => s@,
        None => seq![],
    }
}

/// One step of the login: from the attempt `pre` and the answer `ev` to the
/// attempt `post` and the action `act`.
pub open spec fn transition(pre: Login, ev: Event, post: Login, act: Action) -> bool {
    &&& post.id == pre.id
    &&& post.password == pre.password
    &&& post.aid == pre.aid
    &&& post.otp == pre.otp
    &&& match (pre.stage, ev) {
        (Stage::LoginPage, Event::Response { body, .. }) => post.stage is Credentials
            && (act matches Action::PostLogin(f) && fields_view(f@)
            == login_fields(view_state_of(body@), pre.id@, pre.password@, pre.otp@)),
        (Stage::Credentials, Event::Response { status, location, .. }) => if status != 302 {
            fails(post.stage, act, Fatal::UnexpectedStatus(status))
        } else {
            dispatched(decoded_target(location_or_empty(location)), post.stage, act)
        },
        (Stage::PhoneVerification(t), _) => dispatched(t@, post.stage, act),
        (Stage::AccountList, Event::Response { body, .. }) => account_chosen(body@, pre.aid@, post.stage, act),
        (Stage::AccountPage, Event::Response { status, location, body }) => if status == 302 {
            match location {
                Some(l) => post.stage is RedirectedAccountPage && fetches(act, l@),
                None => fails(post.stage, act, Fatal::MissingLocation),
            }
        } else {
            ticket_read(body@, post.stage, act)
        },
        (Stage::RedirectedAccountPage, Event::Response { body, .. }) => ticket_read(body@, post.stage, act),
        (Stage::CaptchaFirst(tok), Event::Response { .. }) => post.stage matches Stage::CaptchaSecond(u)
            && u@ == tok@ && fetches(act, captcha_page(IMAGE_AUTH_PAGE_PATH@, tok@)),
        (Stage::CaptchaSecond(tok), Event::Response { body, .. }) => post.stage matches Stage::Recognition { page, view_state }
            && page@ == captcha_page(IMAGE_AUTH_PAGE_PATH@, tok@) && view_state@ == view_state_of(body@)
            && act is SolveCaptcha,
        (Stage::Recognition { page, view_state }, Event::Recognized(text)) => answer_handled(page@, view_state@, text@, post.stage, act),
        (Stage::CaptchaResult, Event::Submitted { status, cookie_names }) => if status != 302 {
            retries(post.stage, act)
        } else if has_session_cookie(cookie_names@) {
            post.stage is AccountList && fetches(act, MENU_PATH@)
        } else {
            fails(post.stage, act, Fatal::SessionCookieMissing)
        },
        (Stage::Done, _) => false,
        _ => fails(post.stage, act, Fatal::UnexpectedEvent),
    }
}

fn fatal(f: Fatal) -> (r: (Stage, Action))
    ensures
        fails(r.0, r.1, f),
{
    (Stage::Done, Action::Finish(Outcome::Fatal(f)))
}

fn captcha_page_of(path: &str, token: &String) -> (r: String)
    ensures
        r@ == captcha_page(path@, token@),
{
    let mut r = String::from_str(path);
    r.append("?otp=");
    r.append(token.as_str());
    r.append(RETURN_QUERY);
    r
}

/// Enters the state that a redirect target stands for.
pub fn dispatch(target: &str) -> (r: (Stage, Action))
    ensures
        dispatched(target@, r.0, r.1),
{
    match classify(target) {
        Target::AccountList => (Stage::AccountList, Action::Get(String::from_str(MENU_PATH))),
        Target::PhoneVerification => (Stage::PhoneVerification(String::from_str(target)), Action::AwaitPhone),
        Target::ImageCaptcha => match session_token(target) {
            Some(token) => {
                let page = captcha_page_of(IMAGE_AUTH_PATH, &token);
                (Stage::CaptchaFirst(token), Action::Get(page))
            },
            None => fatal(Fatal::MissingSessionToken),
        },
        Target::Unrecognized => fatal(Fatal::UnexpectedRedirect),
    }
}

/// Reads the launch password off an account page and builds the launch
/// string.
pub fn read_ticket(body: &str) -> (r: (Stage, Action))
    ensures
        ticket_read(body@, r.0, r.1),
{
    if lacks_entitlement(body) {
        fatal(Fatal::NoEntitlement)
    } else {
        match launch_password(body) {
            Some(pw) => {
                let mut c = String::from_str(LAUNCH_PREFIX);
                c.append(pw.as_str());
                (Stage::Done, Action::Finish(Outcome::Success(c)))
            },
            None => fatal(Fatal::LaunchTriggerMissing),
        }
    }
}

/// Chooses the account for `aid` on the account list and asks for its page.
pub fn pick_account(body: &str, aid: &String) -> (r: (Stage, Action))
    ensures
        account_chosen(body@, aid@, r.0, r.1),
{
    match select_entries(body, ACCOUNT_OPTIONS) {
        None => fatal(Fatal::UnusableSelector),
        Some(es) => match choose_account(&es, aid.as_str()) {
            Ok(k) => {
                assert(crate::accounts::entries_view(es@)[k as int] == es@[k as int]@);
                match &es[k].value {
                    Some(v) => {
                        let mut p = String::from_str(MENU_PATH);
                        p.append("?SIID=");
                        p.append(v.as_str());
                        (Stage::AccountPage, Action::Get(p))
                    },
                    None => fatal(Fatal::MalformedAccountEntry),
                }
            },
            Err(SelectError::NotFound) => fatal(Fatal::AccountNotFound),
            Err(SelectError::MalformedEntry) => fatal(Fatal::MalformedAccountEntry),
        },
    }
}

/// Whether `c` is whitespace.
pub fn white(c: char) -> (r: bool)
    ensures
        r == is_white(c),
{
    ('\u{9}' <= c && c <= '\u{d}') || c == ' ' || c == '\u{85}' || c == '\u{a0}' || c == '\u{1680}'
        || ('\u{2000}' <= c && c <= '\u{200a}') || c == '\u{2028}' || c == '\u{2029}' || c == '\u{202f}'
        || c == '\u{205f}' || c == '\u{3000}'
}

/// The characters of the recogniser's text but its whitespace.
pub fn strip_whitespace(text: &str) -> (r: Vec<char>)
    ensures
        r@ == without_whitespace(text@),
{
    let v = to_chars(text);
    let mut out: Vec<char> = Vec::new();
    let mut i: usize = 0;
    assert(v@.subrange(0, 0) =~= seq![]);
    while i < v.len()
        invariant
            i <= v.len(),
            out@ == without_whitespace(v@.subrange(0, i as int)),
        decreases v.len() - i,
    {
        assert(v@.subrange(0, i + 1).drop_last() =~= v@.subrange(0, i as int));
        if !white(v[i]) {
            out.push(v[i]);
        }
        i += 1;
    }
    assert(v@.subrange(0, v.len() as int) =~= v@);
    out
}

/// Acts on the recogniser's text, whitespace taken out: a misread answer
/// gives up the attempt, a well-read one is encoded and submitted.
pub fn handle_answer(page: &String, view_state: &String, text: &str) -> (r: (Stage, Action))
    ensures
        answer_handled(page@, view_state@, text@, r.0, r.1),
{
    let a = strip_whitespace(text);
    if a.len() != ANSWER_LEN {
        (Stage::Done, Action::Finish(Outcome::SoftRetry))
    } else {
        let answer = from_chars(&a);
        let (bytes, unmappable) = shift_jis(answer.as_str());
        if unmappable {
            fatal(Fatal::UnencodableAnswer)
        } else {
            let encoded = form_serialize(&bytes);
            let body = captcha_form_body(view_state.as_str(), encoded.as_str());
            (Stage::CaptchaResult, Action::PostCaptcha { path: page.clone(), body })
        }
    }
}

/// Whether some cookie name starts with the session prefix.
pub fn session_cookie_held(names: &Vec<String>) -> (r: bool)
    ensures
        r == has_session_cookie(names@),
{
    let prefix = to_chars(SESSION_COOKIE_PREFIX);
    let mut i: usize = 0;
    while i < names.len()
        invariant
            i <= names.len(),
            prefix@ == SESSION_COOKIE_PREFIX@,
            forall|m: int| 0 <= m < i ==> !has_at(names@[m]@, SESSION_COOKIE_PREFIX@, 0),
        decreases names.len() - i,
    {
        if starts_at(&to_chars(names[i].as_str()), &prefix, 0) {
            return true;
        }
        i += 1;
    }
    false
}

fn field(name: &str, value: &str) -> (r: (String, String))
    ensures
        r.0@ == name@,
        r.1@ == value@,
{
    (String::from_str(name), String::from_str(value))
}

impl Login {
    /// A fresh attempt for these credentials and this attraction identifier.
    pub fn new(id: &str, password: &str, aid: &str, otp: &str) -> (r: Login)
        ensures
            r.id@ == id@,
            r.password@ == password@,
            r.aid@ == aid@,
            r.otp@ == otp@,
            r.stage is LoginPage,
    {
        Login {
            id: String::from_str(id),
            password: String::from_str(password),
            aid: String::from_str(aid),
            otp: String::from_str(otp),
            stage: Stage::LoginPage,
        }
    }

    /// The first action of an attempt: fetching the login form.
    pub fn first_action() -> (a: Action)
        ensures
            fetches(a, crate::target::LOGIN_PATH@),
    {
        Action::Get(String::from_str(crate::target::LOGIN_PATH))
    }

    /// Whether the attempt is over.
    pub fn is_done(&self) -> (r: bool)
        ensures
            r == self.stage is Done,
    {
        match self.stage {
            Stage::Done => true,
            _ => false,
        }
    }

    fn credential_fields(&self, view_state: &String) -> (r: Vec<(String, String)>)
        ensures
            fields_view(r@) == login_fields(view_state@, self.id@, self.password@, self.otp@),
    {
        let mut f: Vec<(String, String)> = Vec::new();
        f.push(field("__EVENTTARGET", ""));
        f.push(field("__EVENTARGUMENT", ""));
        f.push(field("__VIEWSTATE", view_state.as_str()));
        f.push(field("loginNameControl$txtLoginName", self.id.as_str()));
        f.push(field("login", ""));
        f.push(field("passwordControl$txtPassword", self.password.as_str()));
        f.push(field("OTPControl$inputOTP", self.otp.as_str()));
        assert(fields_view(f@) =~= login_fields(view_state@, self.id@, self.password@, self.otp@));
        f
    }

    /// Takes what the outside world answered and says what to do next.
    pub fn step(&mut self, ev: Event) -> (act: Action)
        requires
            !(old(self).stage is Done),
        ensures
            transition(*old(self), ev, *final(self), act),
    {
        let (stage, act) = match (&self.stage, ev) {
            (Stage::LoginPage, Event::Response { body, .. }) => {
                let vs = get_view_state(body.as_str());
                (Stage::Credentials, Action::PostLogin(self.credential_fields(&vs)))
            },
            (Stage::Credentials, Event::Response { status, location, .. }) => {
                if status != 302 {
                    fatal(Fatal::UnexpectedStatus(status))
                } else {
                    let raw = match location {
                        Some(l) => l,
                        None => String::new(),
                    };
                    dispatch(decode_target(raw.as_str()).as_str())
                }
            },
            (Stage::PhoneVerification(t), _) => dispatch(t.as_str()),
            (Stage::AccountList, Event::Response { body, .. }) => pick_account(body.as_str(), &self.aid),
            (Stage::AccountPage, Event::Response { status, location, body }) => {
                if status == 302 {
                    match location {
                        Some(l) => (Stage::RedirectedAccountPage, Action::Get(l)),
                        None => fatal(Fatal::MissingLocation),
                    }
                } else {
                    read_ticket(body.as_str())
                }
            },
            (Stage::RedirectedAccountPage, Event::Response { body, .. }) => read_ticket(body.as_str()),
            (Stage::CaptchaFirst(token), Event::Response { .. }) => {
                let page = captcha_page_of(IMAGE_AUTH_PAGE_PATH, token);
                (Stage::CaptchaSecond(token.clone()), Action::Get(page))
            },
            (Stage::CaptchaSecond(token), Event::Response { body, .. }) => {
                let page = captcha_page_of(IMAGE_AUTH_PAGE_PATH, token);
                let view_state = get_view_state(body.as_str());
                (Stage::Recognition { page, view_state }, Action::SolveCaptcha)
            },
            (Stage::Recognition { page, view_state }, Event::Recognized(text)) => handle_answer(page, view_state, text.as_str()),
            (Stage::CaptchaResult, Event::Submitted { status, cookie_names }) => {
                if status != 302 {
                    (Stage::Done, Action::Finish(Outcome::SoftRetry))
                } else if session_cookie_held(&cookie_names) {
                    (Stage::AccountList, Action::Get(String::from_str(MENU_PATH)))
                } else {
                    fatal(Fatal::SessionCookieMissing)
                }
            },
            _ => fatal(Fatal::UnexpectedEvent),
        };
        self.stage = stage;
        act
    }
}

/// The wait before a new attempt: only an attempt that may succeed when
/// tried again is retried.
pub fn retry_delay(o: &Outcome) -> (r: Option<u64>)
    ensures
        o is SoftRetry ==> r == Some(RETRY_DELAY_SECS),
        !(o is SoftRetry) ==> r is None,
{
    match o {
        Outcome::SoftRetry => Some(RETRY_DELAY_SECS),
        _ => None,
    }
}

} // verus!

use rologin::flow::{retry_delay, Action, Event, Fatal, Login, Outcome, Stage};

const LOGIN_PAGE: &str = "<form><input type=\"hidden\" name=\"__VIEWSTATE\" id=\"__VIEWSTATE\" value=\"VS1\" />\n</form>";
const CAPTCHA_PAGE: &str = "<input type=\"hidden\" name=\"__VIEWSTATE\" id=\"__VIEWSTATE\" value=\"VS2\" />\n";
const ACCOUNT_LIST: &str = "<select id=\"ddlCPID\"><option value=\"101\">A(B)</option><option value=\"102\">C(D)</option><option value=\"103\">未設定</option></select>";
const TICKET_PAGE: &str = "<script>\nGameStartAsync('secret123');\n</script>";

fn page(body: &str) -> Event {
    Event::Response { status: 200, location: None, body: body.to_string() }
}

fn redirect(to: &str) -> Event {
    Event::Response { status: 302, location: Some(to.to_string()), body: String::new() }
}

fn get_path(a: &Action) -> String {
    match a {
        Action::Get(p) => p.clone(),
        other => panic!("expected a GET, got {:?}", other),
    }
}

fn logged_in(aid: &str) -> Login {
    let mut login = Login::new("user", "pass", aid, "");
    let act = login.step(page(LOGIN_PAGE));
    match act {
        Action::PostLogin(fields) => {
            assert_eq!(fields.len(), 7);
            assert_eq!(fields[2], ("__VIEWSTATE".to_string(), "VS1".to_string()));
            assert_eq!(fields[3], ("loginNameControl$txtLoginName".to_string(), "user".to_string()));
            assert_eq!(fields[5], ("passwordControl$txtPassword".to_string(), "pass".to_string()));
        },
        other => panic!("expected the credential form, got {:?}", other),
    }
    login
}

fn at_recognition() -> Login {
    let mut login = logged_in("B");
    let act = login.step(redirect("%2ffront%2fro%2fiframe%2fredirectimageauth.aspx?otp=TOK&x=1"));
    assert_eq!(get_path(&act), "/front/ro/iframe/redirectimageauth.aspx?otp=TOK&.goeReturnUrl=/front/member/center.aspx&.goeBackUrl=/front/member/center.aspx");
    let act = login.step(page(""));
    assert_eq!(get_path(&act), "/front/ro/guest/imageauth.aspx?otp=TOK&.goeReturnUrl=/front/member/center.aspx&.goeBackUrl=/front/member/center.aspx");
    let act = login.step(page(CAPTCHA_PAGE));
    assert!(matches!(act, Action::SolveCaptcha));
    login
}

fn launch_string(a: &Action) -> String {
    match a {
        Action::Finish(Outcome::Success(c)) => c.clone(),
        other => panic!("expected success, got {:?}", other),
    }
}

#[test]
fn first_action_fetches_login_form() {
    assert_eq!(get_path(&Login::first_action()), "/front/ro/iframe/login.aspx");
}

#[test]
fn login_to_account_list_launches() {
    let mut login = logged_in("B");
    let act = login.step(redirect("/front/ro/iframe/menu.aspx"));
    assert_eq!(get_path(&act), "/front/ro/iframe/menu.aspx");
    let act = login.step(page(ACCOUNT_LIST));
    assert_eq!(get_path(&act), "/front/ro/iframe/menu.aspx?SIID=101");
    let act = login.step(page(TICKET_PAGE));
    assert_eq!(launch_string(&act), "ROEXEURI://-w^&secret123");
    assert!(login.is_done());
}

#[test]
fn account_page_redirect_followed_once() {
    let mut login = logged_in("C");
    login.step(redirect("/front/ro/iframe/menu.aspx"));
    let act = login.step(page(ACCOUNT_LIST));
    assert_eq!(get_path(&act), "/front/ro/iframe/menu.aspx?SIID=102");
    let act = login.step(redirect("/front/ro/game/start.aspx"));
    assert_eq!(get_path(&act), "/front/ro/game/start.aspx");
    let act = login.step(page(TICKET_PAGE));
    assert_eq!(launch_string(&act), "ROEXEURI://-w^&secret123");
}

#[test]
fn second_redirect_of_account_page_fails() {
    let mut login = logged_in("C");
    login.step(redirect("/front/ro/iframe/menu.aspx"));
    login.step(page(ACCOUNT_LIST));
    login.step(redirect("/a"));
    let act = login.step(redirect("/b"));
    assert!(matches!(act, Action::Finish(Outcome::Fatal(Fatal::LaunchTriggerMissing))));
}

#[test]
fn unknown_account_is_fatal() {
    let mut login = logged_in("Z");
    login.step(redirect("/front/ro/iframe/menu.aspx"));
    let act = login.step(page(ACCOUNT_LIST));
    assert!(matches!(act, Action::Finish(Outcome::Fatal(Fatal::AccountNotFound))));
}

#[test]
fn missing_entitlement_is_fatal() {
    let mut login = logged_in("B");
    login.step(redirect("/front/ro/iframe/menu.aspx"));
    login.step(page(ACCOUNT_LIST));
    let act = login.step(page("利用券の購入が必要です GameStartAsync('x')"));
    assert!(matches!(act, Action::Finish(Outcome::Fatal(Fatal::NoEntitlement))));
}

#[test]
fn login_answering_200_is_fatal() {
    let mut login = logged_in("B");
    let act = login.step(page("<html></html>"));
    match &act {
        Action::Finish(o) => {
            assert!(matches!(o, Outcome::Fatal(Fatal::UnexpectedStatus(200))));
            assert_eq!(retry_delay(o), None);
        },
        other => panic!("expected a failure, got {:?}", other),
    }
    assert!(login.is_done());
}

#[test]
fn unrecognized_redirect_is_fatal() {
    let mut login = logged_in("B");
    let act = login.step(redirect("/front/unknown.aspx"));
    assert!(matches!(act, Action::Finish(Outcome::Fatal(Fatal::UnexpectedRedirect))));
}

#[test]
fn phone_verification_waits_without_failing() {
    let mut login = logged_in("B");
    let act = login.step(redirect("/front/safetylock/ivrauth.aspx"));
    assert!(matches!(act, Action::AwaitPhone));
    let act = login.step(page(""));
    assert!(matches!(act, Action::AwaitPhone));
    assert!(matches!(login.stage, Stage::PhoneVerification(_)));
}

#[test]
fn captcha_redirect_without_token_is_fatal() {
    let mut login = logged_in("B");
    let act = login.step(redirect("/front/ro/iframe/redirectimageauth.aspx"));
    assert!(matches!(act, Action::Finish(Outcome::Fatal(Fatal::MissingSessionToken))));
}

#[test]
fn three_character_answer_retries() {
    let mut login = at_recognition();
    let act = login.step(Event::Recognized("abc".to_string()));
    match &act {
        Action::Finish(o) => {
            assert!(matches!(o, Outcome::SoftRetry));
            assert_eq!(retry_delay(o), Some(3));
        },
        other => panic!("expected a retry, got {:?}", other),
    }
}

#[test]
fn five_character_answer_retries() {
    let mut login = at_recognition();
    let act = login.step(Event::Recognized("abcde".to_string()));
    assert!(matches!(act, Action::Finish(Outcome::SoftRetry)));
}

#[test]
fn four_character_answer_submitted_once() {
    let mut login = at_recognition();
    let act = login.step(Event::Recognized("a b 1 2".to_string()));
    match act {
        Action::PostCaptcha { path, body } => {
            assert_eq!(path, "/front/ro/guest/imageauth.aspx?otp=TOK&.goeReturnUrl=/front/member/center.aspx&.goeBackUrl=/front/member/center.aspx");
            assert!(body.starts_with("__LASTFOCUS=&__EVENTTARGET=&__EVENTARGUMENT=&__VIEWSTATE=VS2&"));
            assert!(body.contains("txtCaptcha=ab12&"));
        },
        other => panic!("expected a submission, got {:?}", other),
    }
    let act = login.step(Event::Submitted { status: 200, cookie_names: vec![] });
    assert!(matches!(act, Action::Finish(Outcome::SoftRetry)));
}

#[test]
fn unencodable_answer_is_fatal() {
    let mut login = at_recognition();
    let act = login.step(Event::Recognized("ab😀1".to_string()));
    assert!(matches!(act, Action::Finish(Outcome::Fatal(Fatal::UnencodableAnswer))));
}

#[test]
fn captcha_accepted_without_cookie_is_fatal() {
    let mut login = at_recognition();
    login.step(Event::Recognized("abcd".to_string()));
    let act = login.step(Event::Submitted { status: 302, cookie_names: vec!["ASP.NET_SessionId".to_string()] });
    assert!(matches!(act, Action::Finish(Outcome::Fatal(Fatal::SessionCookieMissing))));
}

#[test]
fn captcha_then_account_list_launches() {
    let mut login = at_recognition();
    let act = login.step(Event::Recognized("wxyz".to_string()));
    assert!(matches!(act, Action::PostCaptcha { .. }));
    let act = login.step(Event::Submitted { status: 302, cookie_names: vec!["other".to_string(), "GHLI_X".to_string()] });
    assert_eq!(get_path(&act), "/front/ro/iframe/menu.aspx");
    let act = login.step(page(ACCOUNT_LIST));
    assert_eq!(get_path(&act), "/front/ro/iframe/menu.aspx?SIID=101");
    let act = login.step(page(TICKET_PAGE));
    assert_eq!(launch_string(&act), "ROEXEURI://-w^&secret123");
}

#[test]
fn unexpected_event_is_fatal() {
    let mut login = Login::new("u", "p", "B", "");
    let act = login.step(Event::Recognized("abcd".to_string()));
    assert!(matches!(act, Action::Finish(Outcome::Fatal(Fatal::UnexpectedEvent))));
}

#[test]
fn answer_whitespace_taken_out() {
    let mut login = at_recognition();
    let act = login.step(Event::Recognized("a\tb\n1\u{3000}2 ".to_string()));
    match act {
        Action::PostCaptcha { body, .. } => assert!(body.contains("txtCaptcha=ab12&")),
        other => panic!("expected a submission, got {:?}", other),
    }
}

#[test]
fn answer_short_after_whitespace_retries() {
    let mut login = at_recognition();
    let act = login.step(Event::Recognized("ab\u{3000}c\r\n".to_string()));
    assert!(matches!(act, Action::Finish(Outcome::SoftRetry)));
}

use rologin::accounts::{choose_account, select_entries, SelectError, ACCOUNT_OPTIONS};
use rologin::form::{captcha_form_body, form_serialize, percent_encode, shift_jis};
use rologin::page::{account_labels, get_view_state, lacks_entitlement, launch_password, session_token};
use rologin::target::{classify, decode_target, Target};

const ACCOUNT_LIST: &str = "<html><body><form><select id=\"ddlCPID\" name=\"ddlCPID\">\
<option value=\"101\">A(B)</option>\
<option value=\"102\">C(D)</option>\
<option value=\"103\">ゲームアカウントを設定してください</option>\
</select></form></body></html>";

#[test]
fn view_state_is_the_quoted_value() {
    let html = "<input type=\"hidden\" name=\"__VIEWSTATE\" id=\"__VIEWSTATE\" value=\"dDwtMTA4=\" />\n<p>\"x\"</p>";
    assert_eq!(get_view_state(html), "dDwtMTA4=");
}

#[test]
fn view_state_ends_at_its_closing_quote() {
    let html = "<input type=\"hidden\" name=\"__VIEWSTATE\" id=\"__VIEWSTATE\" value=\"abc\" data-x=\"y\" />";
    assert_eq!(get_view_state(html), "abc");
}

#[test]
fn view_state_missing_is_empty() {
    assert_eq!(get_view_state("<html><body>no token</body></html>"), "");
    assert_eq!(get_view_state(""), "");
}

#[test]
fn view_state_with_empty_value_is_empty() {
    let html = "name=\"__VIEWSTATE\" id=\"__VIEWSTATE\" value=\"\"\n";
    assert_eq!(get_view_state(html), "");
}

#[test]
fn view_state_skips_a_tag_without_closing_quote() {
    let html = "name=\"__VIEWSTATE\" id=\"__VIEWSTATE\" value=\"x\nname=\"__VIEWSTATE\" id=\"__VIEWSTATE\" value=\"yz\"";
    assert_eq!(get_view_state(html), "yz");
}

#[test]
fn targets_classified_by_prefix() {
    assert_eq!(classify("/front/ro/iframe/menu.aspx?x=1"), Target::AccountList);
    assert_eq!(classify("/front/safetylock/ivrauth.aspx"), Target::PhoneVerification);
    assert_eq!(classify("/front/ro/iframe/redirectimageauth.aspx?otp=abc&y=2"), Target::ImageCaptcha);
    assert_eq!(classify("/front/other.aspx"), Target::Unrecognized);
    assert_eq!(classify("x/front/ro/iframe/menu.aspx"), Target::Unrecognized);
    assert_eq!(classify(""), Target::Unrecognized);
}

#[test]
fn target_escapes_written_out() {
    assert_eq!(decode_target("%2ffront%2fro%3a8080"), "/front/ro:8080");
    assert_eq!(decode_target("%2F%3A"), "%2F%3A");
    assert_eq!(decode_target("/plain"), "/plain");
}

#[test]
fn session_token_up_to_first_ampersand() {
    assert_eq!(session_token("/front/ro/iframe/redirectimageauth.aspx?otp=T0K3N&a=1&b=2"), Some("T0K3N".to_string()));
    assert_eq!(session_token("/front/ro/iframe/redirectimageauth.aspx?otp=&a=1"), Some("".to_string()));
    assert_eq!(session_token("/front/ro/iframe/redirectimageauth.aspx?otp=T0K3N"), None);
    assert_eq!(session_token("/front/ro/iframe/redirectimageauth.aspx"), None);
}

#[test]
fn launch_password_read_from_trigger() {
    let html = "<script>GameStartAsync('secret123');</script>";
    assert_eq!(launch_password(html), Some("secret123".to_string()));
    assert_eq!(launch_password("<script>GameStartAsync();</script>"), None);
    assert_eq!(launch_password("GameStartAsync('a') GameStartAsync('b')"), Some("a') GameStartAsync('b".to_string()));
}

#[test]
fn entitlement_marker_detected() {
    assert!(lacks_entitlement("<p>利用券の購入が必要です</p>"));
    assert!(!lacks_entitlement("<p>GameStartAsync('x')</p>"));
}

#[test]
fn labels_split_on_last_group() {
    assert_eq!(account_labels("A(B)"), Some(("A".to_string(), "B".to_string())));
    assert_eq!(account_labels("x(y)z(w)"), Some(("x(y)z".to_string(), "w".to_string())));
    assert_eq!(account_labels("(a)b)"), Some(("".to_string(), "a)b".to_string())));
    assert_eq!(account_labels("ゲームアカウントを設定してください"), None);
    assert_eq!(account_labels("a)b(c"), None);
    assert_eq!(account_labels("no\n(x)"), Some(("".to_string(), "x".to_string())));
}

#[test]
fn account_list_entries_scraped() {
    let es = select_entries(ACCOUNT_LIST, ACCOUNT_OPTIONS).unwrap();
    assert_eq!(es.len(), 3);
    assert_eq!(es[0].value, Some("101".to_string()));
    assert_eq!(es[0].text, Some("A(B)".to_string()));
    assert_eq!(es[2].value, Some("103".to_string()));
}

#[test]
fn account_selected_by_either_label() {
    let es = select_entries(ACCOUNT_LIST, ACCOUNT_OPTIONS).unwrap();
    assert_eq!(choose_account(&es, "B"), Ok(0));
    assert_eq!(choose_account(&es, "A"), Ok(0));
    assert_eq!(choose_account(&es, "C"), Ok(1));
    assert_eq!(choose_account(&es, "D"), Ok(1));
}

#[test]
fn account_absent_is_not_found() {
    let es = select_entries(ACCOUNT_LIST, ACCOUNT_OPTIONS).unwrap();
    assert_eq!(choose_account(&es, "Z"), Err(SelectError::NotFound));
    assert_eq!(choose_account(&es, "ゲームアカウントを設定してください"), Err(SelectError::NotFound));
    assert_eq!(choose_account(&es, ""), Err(SelectError::NotFound));
}

#[test]
fn account_first_match_wins() {
    let html = "<select id=\"ddlCPID\"><option value=\"1\">X(Y)</option><option value=\"2\">Y(Z)</option></select>";
    let es = select_entries(html, ACCOUNT_OPTIONS).unwrap();
    assert_eq!(choose_account(&es, "Y"), Ok(0));
}

#[test]
fn account_entry_without_value_is_malformed() {
    let html = "<select id=\"ddlCPID\"><option>X(Y)</option><option value=\"2\">Y(Z)</option></select>";
    let es = select_entries(html, ACCOUNT_OPTIONS).unwrap();
    assert_eq!(choose_account(&es, "Y"), Err(SelectError::MalformedEntry));
    assert_eq!(choose_account(&es, "Z"), Ok(1));
}

#[test]
fn account_entry_without_text_is_skipped() {
    let html = "<select id=\"ddlCPID\"><option value=\"3\"></option><option value=\"1\">A(B)</option></select>";
    let es = select_entries(html, ACCOUNT_OPTIONS).unwrap();
    assert_eq!(es[0].text, None);
    assert_eq!(choose_account(&es, "B"), Ok(1));
    assert_eq!(choose_account(&es, ""), Err(SelectError::NotFound));
}

#[test]
fn unparsable_selector_gives_none() {
    assert!(select_entries(ACCOUNT_LIST, "##(").is_none());
}

#[test]
fn form_serialization_of_bytes() {
    assert_eq!(form_serialize(&vec![b'a', b' ', b'*', b'~', 0x93, 0xFA]), "a+*%7E%93%FA");
    assert_eq!(form_serialize(&vec![]), "");
}

#[test]
fn percent_encoding_of_text() {
    assert_eq!(percent_encode("a$b"), "a%24b");
    assert_eq!(percent_encode("x+/="), "x%2B%2F%3D");
    assert_eq!(percent_encode("-_.~"), "-_.~");
    assert_eq!(percent_encode("日 a"), "%E6%97%A5%20a");
}

#[test]
fn shift_jis_of_text() {
    assert_eq!(shift_jis("ab12"), (vec![b'a', b'b', b'1', b'2'], false));
    assert_eq!(shift_jis("日本"), (vec![0x93, 0xFA, 0x96, 0x7B], false));
    assert!(shift_jis("😀").1);
}

#[test]
fn captcha_form_exact() {
    let body = captcha_form_body("a+b", "X%93");
    assert_eq!(
        body,
        "__LASTFOCUS=&__EVENTTARGET=&__EVENTARGUMENT=&__VIEWSTATE=a%2Bb&\
ctl00%24ctl00%24MainContent%24TopContent%24captchaControlAjax%24txtCaptcha=X%93&\
ctl00%24ctl00%24MainContent%24TopContent%24chbSave=on&\
ctl00%24ctl00%24MainContent%24TopContent%24txt=&\
ctl00%24ctl00%24MainContent%24TopContent%24btnNext="
    );
}

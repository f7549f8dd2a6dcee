//! Properties that hold of the scanners and of the login state machine.
use vstd::prelude::*;
use crate::accounts::{entry_matches, selected_entries, selection, ACCOUNT_OPTIONS};
use crate::flow::{
    account_page, dispatched, fetches, has_session_cookie, LAUNCH_PREFIX, location_or_empty, transition, without_whitespace, Action, Event,
    Fatal, Login, Outcome, Stage, ANSWER_LEN,
};
use crate::form::shift_jis_encoded;
use crate::page::{labels_of, launch_password_of, view_state_of, ENTITLEMENT_MARKER, VIEW_STATE_LEAD};
use crate::pattern::{capture_from, close_after, contains, first_on_line, has_at};
use crate::target::{decoded_target, target_kind, Target, MENU_PATH};

verus! {

proof fn lemma_skip_to(s: Seq<char>, p: Seq<char>, t: Seq<char>, greedy: bool, nonempty: bool, i: int, a: int)
    requires
        0 <= i <= a <= s.len(),
        forall|m: int| 0 <= m < a ==> !has_at(s, p, m),
    ensures
        capture_from(s, p, t, greedy, nonempty, i) == capture_from(s, p, t, greedy, nonempty, a),
    decreases a - i,
{
    if i < a {
        lemma_skip_to(s, p, t, greedy, nonempty, i + 1, a);
    }
}

proof fn lemma_first_quote(s: Seq<char>, j: int, k: int)
    requires
        0 <= k <= j < s.len(),
        s[j] == '"',
        forall|m: int| k <= m < j ==> s[m] != '\n' && s[m] != '"',
    ensures
        first_on_line(s, seq!['"'], k) == Some(j),
    decreases j - k,
{
    if k < j {
        assert(!has_at(s, seq!['"'], k)) by {
            if has_at(s, seq!['"'], k) {
                assert(s.subrange(k, k + 1)[0] == s[k]);
            }
        }
        lemma_first_quote(s, j, k + 1);
    } else {
        assert(s.subrange(j, j + 1) =~= seq!['"']);
    }
}

/// The view-state token of a page is the quoted value of its first
/// view-state input tag, where that value holds no line break.
pub proof fn lemma_view_state_found(html: Seq<char>, before: Seq<char>, value: Seq<char>, after: Seq<char>)
    requires
        html == before + VIEW_STATE_LEAD@ + value + seq!['"'] + after,
        forall|i: int| 0 <= i < before.len() ==> !has_at(html, VIEW_STATE_LEAD@, i),
        forall|k: int| 0 <= k < value.len() ==> value[k] != '"' && value[k] != '\n',
    ensures
        view_state_of(html) == value,
{
    let lead = VIEW_STATE_LEAD@;
    let q = seq!['"'];
    let a = before.len() as int;
    let s0 = a + lead.len();
    let j = s0 + value.len();
    lemma_skip_to(html, lead, q, false, false, 0, a);
    assert(html.subrange(a, s0) =~= lead);
    assert forall|m: int| s0 <= m < j implies html[m] != '\n' && html[m] != '"' by {
        assert(html[m] == value[m - s0]);
    }
    assert(html[j] == '"');
    lemma_first_quote(html, j, s0);
    assert(close_after(html, q, s0, false, false) == Some(j));
    assert(html.subrange(s0, j) =~= value);
}

proof fn lemma_none_from(s: Seq<char>, p: Seq<char>, t: Seq<char>, greedy: bool, nonempty: bool, i: int)
    requires
        forall|m: int| !has_at(s, p, m),
    ensures
        capture_from(s, p, t, greedy, nonempty, i) is None,
    decreases s.len() + 1 - i,
{
    if 0 <= i <= s.len() {
        lemma_none_from(s, p, t, greedy, nonempty, i + 1);
    }
}

/// A page without the view-state input tag has an empty view-state token.
pub proof fn lemma_view_state_absent(html: Seq<char>)
    requires
        forall|i: int| !has_at(html, VIEW_STATE_LEAD@, i),
    ensures
        view_state_of(html) == Seq::<char>::empty(),
{
    lemma_none_from(html, VIEW_STATE_LEAD@, seq!['"'], false, false, 0);
}

/// The login response redirects by prefix alone, and a target that no known
/// prefix starts ends the attempt with an unexpected-redirect failure.
pub proof fn lemma_unrecognized_target_is_fatal(pre: Login, status: u16, location: Option<String>, body: String, post: Login, act: Action)
    requires
        pre.stage is Credentials,
        status == 302,
        target_kind(decoded_target(location_or_empty(location))) == Target::Unrecognized,
        transition(pre, Event::Response { status, location, body }, post, act),
    ensures
        post.stage is Done,
        act == Action::Finish(Outcome::Fatal(Fatal::UnexpectedRedirect)),
{
}

/// Entering a redirect target picks its state by prefix alone: each target
/// leads to exactly one of the four states.
pub proof fn lemma_dispatch_by_prefix(t: Seq<char>, stage: Stage, act: Action)
    requires
        dispatched(t, stage, act),
    ensures
        target_kind(t) == Target::AccountList ==> stage is AccountList,
        target_kind(t) == Target::PhoneVerification ==> stage is PhoneVerification,
        target_kind(t) == Target::ImageCaptcha ==> (stage is CaptchaFirst || act == Action::Finish(Outcome::Fatal(Fatal::MissingSessionToken))),
        target_kind(t) == Target::Unrecognized ==> act == Action::Finish(Outcome::Fatal(Fatal::UnexpectedRedirect)),
{
}

/// A CAPTCHA answer that is not four characters long once its whitespace is
/// taken out ends the attempt for a retry, and nothing is submitted.
pub proof fn lemma_misread_answer_retries(pre: Login, text: String, post: Login, act: Action)
    requires
        pre.stage is Recognition,
        without_whitespace(text@).len() != ANSWER_LEN,
        transition(pre, Event::Recognized(text), post, act),
    ensures
        post.stage is Done,
        act == Action::Finish(Outcome::SoftRetry),
{
}

/// A four-character answer that has a Shift_JIS form is submitted, once: the
/// step that follows the submission submits nothing.
pub proof fn lemma_answer_submitted_once(pre: Login, text: String, mid: Login, act: Action, ev: Event, post: Login, next: Action)
    requires
        pre.stage is Recognition,
        without_whitespace(text@).len() == ANSWER_LEN,
        !shift_jis_encoded(without_whitespace(text@)).1,
        transition(pre, Event::Recognized(text), mid, act),
        transition(mid, ev, post, next),
    ensures
        act is PostCaptcha,
        mid.stage is CaptchaResult,
        !(next is PostCaptcha),
{
}

/// A login form that answers with anything but a redirect ends the attempt
/// as a failure that names the status.
pub proof fn lemma_login_without_redirect_is_fatal(pre: Login, status: u16, location: Option<String>, body: String, post: Login, act: Action)
    requires
        pre.stage is Credentials,
        status != 302,
        transition(pre, Event::Response { status, location, body }, post, act),
    ensures
        post.stage is Done,
        act == Action::Finish(Outcome::Fatal(Fatal::UnexpectedStatus(status))),
{
}

/// An account entry without a group in parentheses matches no identifier.
pub proof fn lemma_incomplete_entry_never_matches(value: Option<Seq<char>>, text: Seq<char>, aid: Seq<char>)
    requires
        labels_of(text) is None,
    ensures
        !entry_matches((value, Some(text)), aid),
{
}

/// A login redirected to the account list, whose list holds an entry for the
/// identifier, and whose account page carries the launch trigger, ends in
/// success with the launch string for that page's password.
pub proof fn lemma_account_list_path_launches(
    l0: Login,
    loc: Option<String>,
    b0: String,
    l1: Login,
    a1: Action,
    list: String,
    l2: Login,
    a2: Action,
    s3: u16,
    loc3: Option<String>,
    ticket: String,
    l3: Login,
    a3: Action,
)
    requires
        l0.stage is Credentials,
        target_kind(decoded_target(location_or_empty(loc))) == Target::AccountList,
        transition(l0, Event::Response { status: 302, location: loc, body: b0 }, l1, a1),
        selected_entries(list@, ACCOUNT_OPTIONS@) matches Some(es) && selection(es, l0.aid@) is Ok,
        transition(l1, Event::Response { status: 200, location: None, body: list }, l2, a2),
        s3 != 302,
        !contains(ticket@, ENTITLEMENT_MARKER@),
        launch_password_of(ticket@) is Some,
        transition(l2, Event::Response { status: s3, location: loc3, body: ticket }, l3, a3),
    ensures
        fetches(a1, MENU_PATH@),
        selected_entries(list@, ACCOUNT_OPTIONS@) matches Some(es) && fetches(a2, account_page(es[selection(es, l0.aid@)->Ok_0].0->0)),
        a3 matches Action::Finish(Outcome::Success(c)) && c@ == LAUNCH_PREFIX@ + launch_password_of(ticket@)->0,
        l3.stage is Done,
{
}

/// A well-read CAPTCHA whose submission is accepted with a session cookie
/// leads back to the account list.
pub proof fn lemma_accepted_captcha_reaches_account_list(
    l0: Login,
    text: String,
    l1: Login,
    a1: Action,
    cookie_names: Vec<String>,
    l2: Login,
    a2: Action,
)
    requires
        l0.stage is Recognition,
        without_whitespace(text@).len() == ANSWER_LEN,
        !shift_jis_encoded(without_whitespace(text@)).1,
        transition(l0, Event::Recognized(text), l1, a1),
        has_session_cookie(cookie_names@),
        transition(l1, Event::Submitted { status: 302, cookie_names }, l2, a2),
    ensures
        a1 is PostCaptcha,
        l2.stage is AccountList,
        fetches(a2, MENU_PATH@),
{
}

} // verus!

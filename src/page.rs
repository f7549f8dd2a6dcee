//! What the login pages and redirect targets carry: the view-state token,
//! the session token of a CAPTCHA redirect, the launch password and the
//! labels of a linked account.
use vstd::prelude::*;
use crate::chars::{from_chars, to_chars};
use crate::pattern::{capture, capture_chars, contains, contains_chars, last_on_line, last_on_line_at, opt_int, slice};

verus! {

broadcast use vstd::string::group_string_axioms;

/// Lead of the hidden input that holds the view-state token.
pub const VIEW_STATE_LEAD: &'static str = "name=\"__VIEWSTATE\" id=\"__VIEWSTATE\" value=\"";

/// Lead of the session token in a CAPTCHA redirect target.
pub const SESSION_TOKEN_LEAD: &'static str = "aspx?otp=";

/// Lead of the client-side call that carries the launch password.
pub const LAUNCH_TRIGGER_LEAD: &'static str = "GameStartAsync('";

/// Closing of the client-side call that carries the launch password.
pub const LAUNCH_TRIGGER_CLOSE: &'static str = "')";

/// Marker of an account page whose account lacks the entitlement to play.
pub const ENTITLEMENT_MARKER: &'static str = "利用券の購入が必要です";

/// The view-state token of a page: the quoted value of the first lead whose
/// closing `"` stands on its line; empty where there is none.
pub open spec fn view_state_of(html: Seq<char>) -> Seq<char> {
    match capture(html, VIEW_STATE_LEAD@, seq!['"'], false, false) {
        Some(v) => v,
        None => seq![],
    }
}

/// The session token of a CAPTCHA redirect target: the run up to the first
/// `&` after the lead.
pub open spec fn session_token_of(target: Seq<char>) -> Option<Seq<char>> {
    capture(target, SESSION_TOKEN_LEAD@, seq!['&'], false, false)
}

/// The launch password of an account page: the run up to the last `')` on
/// the line of the trigger call.
pub open spec fn launch_password_of(html: Seq<char>) -> Option<Seq<char>> {
    capture(html, LAUNCH_TRIGGER_LEAD@, LAUNCH_TRIGGER_CLOSE@, true, false)
}

/// Extracts the view-state token of a page; empty where the page has none.
pub fn get_view_state(html: &str) -> (r: String)
    ensures
        r@ == view_state_of(html@),
{
    let s = to_chars(html);
    let lead = to_chars(VIEW_STATE_LEAD);
    let quote: Vec<char> = vec!['"'];
    assert(quote@ =~= seq!['"']);
    match capture_chars(&s, &lead, &quote, false, false) {
        Some(v) => from_chars(&v),
        None => String::new(),
    }
}

/// Extracts the session token of a CAPTCHA redirect target.
pub fn session_token(target: &str) -> (r: Option<String>)
    ensures
        match r {
            Some(v) => session_token_of(target@) == Some(v@),
            None => session_token_of(target@) is None,
        },
{
    let s = to_chars(target);
    let lead = to_chars(SESSION_TOKEN_LEAD);
    let amp: Vec<char> = vec!['&'];
    assert(amp@ =~= seq!['&']);
    match capture_chars(&s, &lead, &amp, false, false) {
        Some(v) => Some(from_chars(&v)),
        None => None,
    }
}

/// Extracts the launch password from an account page.
pub fn launch_password(html: &str) -> (r: Option<String>)
    ensures
        match r {
            Some(v) => launch_password_of(html@) == Some(v@),
            None => launch_password_of(html@) is None,
        },
{
    let s = to_chars(html);
    let lead = to_chars(LAUNCH_TRIGGER_LEAD);
    let close = to_chars(LAUNCH_TRIGGER_CLOSE);
    match capture_chars(&s, &lead, &close, true, false) {
        Some(v) => Some(from_chars(&v)),
        None => None,
    }
}

/// Whether an account page says that the account lacks the entitlement.
pub fn lacks_entitlement(html: &str) -> (r: bool)
    ensures
        r == contains(html@, ENTITLEMENT_MARKER@),
{
    let s = to_chars(html);
    let marker = to_chars(ENTITLEMENT_MARKER);
    contains_chars(&s, &marker)
}

/// Scanning back from `q`: the last `(` in `s` at or after `i` and before `q`.
pub open spec fn last_open_before(s: Seq<char>, i: int, q: int) -> Option<int>
    decreases q - i,
{
    if q <= i {
        None
    } else if s[q - 1] == '(' {
        Some(q - 1)
    } else {
        last_open_before(s, i, q - 1)
    }
}

/// The bounds `(start, open, close)` of the leftmost `first(second)` in `s`,
/// searching from `i` on: the last `)` of the line, and the last `(` before it.
pub open spec fn labels_from(s: Seq<char>, i: int) -> Option<(int, int, int)>
    decreases s.len() + 1 - i,
{
    if i < 0 || i > s.len() {
        None
    } else {
        match last_on_line(s, seq![')'], i) {
            Some(q) => match last_open_before(s, i, q) {
                Some(p) => Some((i, p, q)),
                None => labels_from(s, i + 1),
            },
            None => labels_from(s, i + 1),
        }
    }
}

/// The two labels of an account entry written `first(second)`; none for an
/// entry that lacks the group in parentheses.
pub open spec fn labels_of(text: Seq<char>) -> Option<(Seq<char>, Seq<char>)> {
    match labels_from(text, 0) {
        Some((i, p, q)) => Some((text.subrange(i, p), text.subrange(p + 1, q))),
        None => None,
    }
}

/// The last `(` in `s` at or after `i` and before `q`.
fn last_open(s: &Vec<char>, i: usize, q: usize) -> (r: Option<usize>)
    requires
        q <= s.len(),
    ensures
        opt_int(r) == last_open_before(s@, i as int, q as int),
        r matches Some(p) ==> i <= p < q,
{
    let mut k: usize = q;
    while k > i
        invariant
            k <= q <= s.len(),
            last_open_before(s@, i as int, q as int) == last_open_before(s@, i as int, k as int),
        decreases k,
    {
        if s[k - 1] == '(' {
            return Some(k - 1);
        }
        k -= 1;
    }
    None
}

/// Splits an account entry written `first(second)` into its two labels.
pub fn account_labels(text: &str) -> (r: Option<(String, String)>)
    ensures
        match r {
            Some((a, b)) => labels_of(text@) == Some((a@, b@)),
            None => labels_of(text@) is None,
        },
{
    let s = to_chars(text);
    let close: Vec<char> = vec![')'];
    assert(close@ =~= seq![')']);
    let mut i: usize = 0;
    while i <= s.len()
        invariant
            i <= s.len(),
            s@ == text@,
            close@ == seq![')'],
            labels_from(s@, 0) == labels_from(s@, i as int),
        decreases s.len() + 1 - i,
    {
        if let Some(q) = last_on_line_at(&s, &close, i) {
            if let Some(p) = last_open(&s, i, q) {
                let first = slice(&s, i, p);
                let second = slice(&s, p + 1, q);
                assert(labels_from(s@, i as int) == Some((i as int, p as int, q as int)));
                return Some((from_chars(&first), from_chars(&second)));
            }
        }
        if i == s.len() {
            assert(labels_from(s@, i + 1) is None);
            assert(labels_from(s@, i as int) is None);
            return None;
        }
        i += 1;
    }
    None
}

} // verus!

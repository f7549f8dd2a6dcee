//! Redirect targets: their decoding and their classification by prefix.
use vstd::prelude::*;
use crate::chars::{from_chars, to_chars};
use crate::pattern::{has_at, starts_at};

verus! {

broadcast use vstd::string::group_string_axioms;

/// Path of the login form.
pub const LOGIN_PATH: &'static str = "/front/ro/iframe/login.aspx";

/// Path that leads into the image CAPTCHA; also its first confirmation page.
pub const IMAGE_AUTH_PATH: &'static str = "/front/ro/iframe/redirectimageauth.aspx";

/// Path of the second CAPTCHA confirmation page, where the answer is posted.
pub const IMAGE_AUTH_PAGE_PATH: &'static str = "/front/ro/guest/imageauth.aspx";

/// Path of the CAPTCHA image.
pub const CAPTCHA_IMAGE_PATH: &'static str = "/front/register/JpegImage.aspx";

/// Path of the phone verification step.
pub const IVR_PATH: &'static str = "/front/safetylock/ivrauth.aspx";

/// Path of the account list.
pub const MENU_PATH: &'static str = "/front/ro/iframe/menu.aspx";

/// The protocol state that a redirect target stands for.
#[derive(PartialEq, Eq, Structural, Clone, Copy, Debug)]
pub enum Target {
    AccountList,
    PhoneVerification,
    ImageCaptcha,
    Unrecognized,
}

/// The state that a redirect target stands for, by the first known path
/// that it starts with.
pub open spec fn target_kind(t: Seq<char>) -> Target {
    if has_at(t, MENU_PATH@, 0) {
        Target::AccountList
    } else if has_at(t, IVR_PATH@, 0) {
        Target::PhoneVerification
    } else if has_at(t, IMAGE_AUTH_PATH@, 0) {
        Target::ImageCaptcha
    } else {
        Target::Unrecognized
    }
}

/// Classifies a redirect target by its prefix.
pub fn classify(target: &str) -> (r: Target)
    ensures
        r == target_kind(target@),
{
    let t = to_chars(target);
    if starts_at(&t, &to_chars(MENU_PATH), 0) {
        Target::AccountList
    } else if starts_at(&t, &to_chars(IVR_PATH), 0) {
        Target::PhoneVerification
    } else if starts_at(&t, &to_chars(IMAGE_AUTH_PATH), 0) {
        Target::ImageCaptcha
    } else {
        Target::Unrecognized
    }
}

/// `s` from position `i` on, with each occurrence of `p` replaced by `r`,
/// left to right.
pub open spec fn replaced_from(s: Seq<char>, p: Seq<char>, r: Seq<char>, i: int) -> Seq<char>
    decreases s.len() - i,
{
    if i < 0 || i >= s.len() {
        seq![]
    } else if p.len() > 0 && has_at(s, p, i) {
        r + replaced_from(s, p, r, i + p.len())
    } else {
        seq![s[i]] + replaced_from(s, p, r, i + 1)
    }
}

/// `s` with each occurrence of `p` replaced by `r`, left to right.
pub open spec fn replaced(s: Seq<char>, p: Seq<char>, r: Seq<char>) -> Seq<char> {
    replaced_from(s, p, r, 0)
}

/// A redirect target as the login response gives it, with its escaped
/// slashes and colons written out.
pub open spec fn decoded_target(t: Seq<char>) -> Seq<char> {
    replaced(replaced(t, "%2f"@, "/"@), "%3a"@, ":"@)
}

fn replace_chars(s: &Vec<char>, p: &Vec<char>, r: &Vec<char>) -> (out: Vec<char>)
    ensures
        out@ == replaced(s@, p@, r@),
{
    let mut out: Vec<char> = Vec::new();
    let mut i: usize = 0;
    while i < s.len()
        invariant
            i <= s.len(),
            replaced(s@, p@, r@) == out@ + replaced_from(s@, p@, r@, i as int),
        decreases s.len() - i,
    {
        if p.len() > 0 && starts_at(s, p, i) {
            let mut k: usize = 0;
            let ghost before = out@;
            while k < r.len()
                invariant
                    k <= r.len(),
                    out@ == before + r@.subrange(0, k as int),
                decreases r.len() - k,
            {
                out.push(r[k]);
                k += 1;
                assert(out@ =~= before + r@.subrange(0, k as int));
            }
            assert(r@.subrange(0, r.len() as int) =~= r@);
            assert(out@ + replaced_from(s@, p@, r@, i + p.len()) =~= before + (r@ + replaced_from(s@, p@, r@, i + p.len())));
            i += p.len();
        } else {
            let ghost before = out@;
            out.push(s[i]);
            assert(out@ + replaced_from(s@, p@, r@, i + 1) =~= before + (seq![s@[i as int]] + replaced_from(s@, p@, r@, i + 1)));
            i += 1;
        }
    }
    assert(out@ + replaced_from(s@, p@, r@, i as int) =~= out@);
    out
}

/// Writes out the escaped slashes and colons of a redirect target.
pub fn decode_target(t: &str) -> (r: String)
    ensures
        r@ == decoded_target(t@),
{
    let s = to_chars(t);
    let once = replace_chars(&s, &to_chars("%2f"), &to_chars("/"));
    let twice = replace_chars(&once, &to_chars("%3a"), &to_chars(":"));
    from_chars(&twice)
}

} // verus!

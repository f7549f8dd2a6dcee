//! Encoding of the CAPTCHA answer and of the form that submits it.
use vstd::prelude::*;
use vstd::string::StringExecFns;
use vstd::utf8::encode_utf8;

verus! {

/// The upper-case hexadecimal digit of `d`, for `d < 16`.
pub open spec fn hex_digit(d: u8) -> char {
    seq!['0', '1', '2', '3', '4', '5', '6', '7', '8', '9', 'A', 'B', 'C', 'D', 'E', 'F'][d as int]
}

/// `%XX`, upper case, for one byte.
pub open spec fn escaped_byte(b: u8) -> Seq<char> {
    seq!['%', hex_digit(b / 16), hex_digit(b % 16)]
}

/// A byte that `application/x-www-form-urlencoded` leaves as it is.
pub open spec fn form_keeps(b: u8) -> bool {
    b == 0x2a || b == 0x2d || b == 0x2e || b == 0x5f || (0x30 <= b <= 0x39) || (0x41 <= b <= 0x5a)
        || (0x61 <= b <= 0x7a)
}

/// The `application/x-www-form-urlencoded` form of one byte.
pub open spec fn form_byte(b: u8) -> Seq<char> {
    if form_keeps(b) {
        seq![b as char]
    } else if b == 0x20 {
        seq!['+']
    } else {
        escaped_byte(b)
    }
}

/// The `application/x-www-form-urlencoded` form of a byte string.
pub open spec fn form_serialized(b: Seq<u8>) -> Seq<char>
    decreases b.len(),
{
    if b.len() == 0 {
        seq![]
    } else {
        form_byte(b[0]) + form_serialized(b.drop_first())
    }
}

/// Relies on url's `form_urlencoded::byte_serialize`: `*-._`, digits and
/// ASCII letters stay, a space becomes `+`, any other byte `%XX` in upper case.
#[verifier::external_body]
pub fn form_serialize(b: &Vec<u8>) -> (r: String)
    ensures
        r@ == form_serialized(b@),
{
    url::form_urlencoded::byte_serialize(b.as_slice()).collect()
}

/// A byte that percent-encoding leaves as it is: ASCII letters, digits and
/// `-_.~`.
pub open spec fn unreserved(b: u8) -> bool {
    b == 0x2d || b == 0x2e || b == 0x5f || b == 0x7e || (0x30 <= b <= 0x39) || (0x41 <= b <= 0x5a)
        || (0x61 <= b <= 0x7a)
}

/// Percent-encoding of a byte string.
pub open spec fn percent_bytes(b: Seq<u8>) -> Seq<char>
    decreases b.len(),
{
    if b.len() == 0 {
        seq![]
    } else {
        (if unreserved(b[0]) {
            seq![b[0] as char]
        } else {
            escaped_byte(b[0])
        }) + percent_bytes(b.drop_first())
    }
}

/// Percent-encoding of the UTF-8 bytes of a string.
pub open spec fn percent_encoded(s: Seq<char>) -> Seq<char> {
    percent_bytes(encode_utf8(s))
}

/// Relies on urlencoding's `encode`: every byte of the UTF-8 form but ASCII
/// letters, digits and `-_.~` becomes `%XX` in upper case.
#[verifier::external_body]
pub fn percent_encode(s: &str) -> (r: String)
    ensures
        r@ == percent_encoded(s@),
{
    urlencoding::encode(s).into_owned()
}

/// The Shift_JIS bytes of a string, and whether a character had no Shift_JIS
/// form.
pub uninterp spec fn shift_jis_encoded(s: Seq<char>) -> (Seq<u8>, bool);

/// Relies on encoding_rs's `Encoding::encode` with `SHIFT_JIS`: ASCII text is
/// kept byte for byte, and the flag tells whether a character was unmappable.
#[verifier::external_body]
pub fn shift_jis(s: &str) -> (r: (Vec<u8>, bool))
    ensures
        (r.0@, r.1) == shift_jis_encoded(s@),
        vstd::utf8::is_ascii_chars(s@) ==> r.0@ == s@.map_values(|c: char| c as u8) && !r.1,
{
    let (bytes, _, unmappable) = encoding_rs::SHIFT_JIS.encode(s);
    (bytes.into_owned(), unmappable)
}

/// Field of the CAPTCHA answer.
pub const CAPTCHA_FIELD: &'static str = "ctl00$ctl00$MainContent$TopContent$captchaControlAjax$txtCaptcha";

/// Field of the "remember this browser" flag.
pub const REMEMBER_FIELD: &'static str = "ctl00$ctl00$MainContent$TopContent$chbSave";

/// First empty control field of the CAPTCHA form.
pub const TEXT_FIELD: &'static str = "ctl00$ctl00$MainContent$TopContent$txt";

/// Second empty control field of the CAPTCHA form.
pub const NEXT_FIELD: &'static str = "ctl00$ctl00$MainContent$TopContent$btnNext";

/// The body of the CAPTCHA form for a view-state token and an already
/// encoded answer.
pub open spec fn captcha_form(view_state: Seq<char>, answer: Seq<char>) -> Seq<char> {
    "__LASTFOCUS=&__EVENTTARGET=&__EVENTARGUMENT=&__VIEWSTATE="@ + percent_encoded(view_state) + "&"@
        + percent_encoded(CAPTCHA_FIELD@) + "="@ + answer + "&"@ + percent_encoded(REMEMBER_FIELD@)
        + "=on&"@ + percent_encoded(TEXT_FIELD@) + "=&"@ + percent_encoded(NEXT_FIELD@) + "="@
}

/// Builds the body of the CAPTCHA form; `answer` is already encoded.
pub fn captcha_form_body(view_state: &str, answer: &str) -> (r: String)
    ensures
        r@ == captcha_form(view_state@, answer@),
{
    let mut r = String::from_str("__LASTFOCUS=&__EVENTTARGET=&__EVENTARGUMENT=&__VIEWSTATE=");
    r.append(percent_encode(view_state).as_str());
    r.append("&");
    r.append(percent_encode(CAPTCHA_FIELD).as_str());
    r.append("=");
    r.append(answer);
    r.append("&");
    r.append(percent_encode(REMEMBER_FIELD).as_str());
    r.append("=on&");
    r.append(percent_encode(TEXT_FIELD).as_str());
    r.append("=&");
    r.append(percent_encode(NEXT_FIELD).as_str());
    r.append("=");
    r
}

} // verus!

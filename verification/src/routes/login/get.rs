//! GET /login: the login form, with the error messages of a failed attempt.

use crate::startup::HmacSecret;
use hmac::{Hmac, Mac};
use vstd::prelude::*;
use vstd::utf8::encode_utf8;

verus! {

// ---------------------------------------------------------------------------
// Hex decoding of the tag
// ---------------------------------------------------------------------------

/// The value of the hex digit `b` (either case), or `None` if `b` is not one.
pub open spec fn hex_digit_value(b: u8) -> Option<u8> {
    if 0x30 <= b && b <= 0x39 {
        Some((b - 0x30) as u8)
    } else if 0x41 <= b && b <= 0x46 {
        Some((b - 0x41 + 10) as u8)
    } else if 0x61 <= b && b <= 0x66 {
        Some((b - 0x61 + 10) as u8)
    } else {
        None
    }
}

/// The bytes that the hex text `hex` stands for: two digits per byte, high
/// digit first. `None` when the length is odd or a byte is no hex digit.
pub open spec fn hex_decoded(hex: Seq<u8>) -> Option<Seq<u8>>
    decreases hex.len(),
{
    if hex.len() % 2 != 0 {
        None
    } else if hex.len() == 0 {
        Some(seq![])
    } else {
        match (hex_digit_value(hex[0]), hex_digit_value(hex[1]), hex_decoded(hex.skip(2))) {
            (Some(hi), Some(lo), Some(rest)) => Some(seq![(hi * 16 + lo) as u8] + rest),
            _ => None,
        }
    }
}

/// Decodes the hex text `s` with `hex::decode`.
/// Trusted: the result is `hex_decoded` of the UTF-8 bytes of `s`, as the
/// crate's source shows (odd length and non-digit bytes are errors, which
/// this wrapper returns as `None`).
#[verifier::external_body]
fn decode_hex(s: &str) -> (r: Option<Vec<u8>>)
    ensures
        match r {
            Some(v) => hex_decoded(encode_utf8(s@)) == Some(v@),
            None => hex_decoded(encode_utf8(s@)) is None,
        },
{
    hex::decode(s).ok()
}

// ---------------------------------------------------------------------------
// Percent-encoding of the error message
// ---------------------------------------------------------------------------

/// Bytes that percent-encoding leaves as they are: ASCII letters and digits
/// and `-`, `.`, `_`, `~`.
pub open spec fn is_unreserved_byte(b: u8) -> bool {
    ||| (0x30 <= b && b <= 0x39)
    ||| (0x41 <= b && b <= 0x5a)
    ||| (0x61 <= b && b <= 0x7a)
    ||| b == 0x2d
    ||| b == 0x2e
    ||| b == 0x5f
    ||| b == 0x7e
}

/// The upper-case hex digit for `d < 16`.
pub open spec fn upper_hex_digit(d: u8) -> char {
    if d < 10 {
        (0x30 + d) as char
    } else {
        (0x41 + d - 10) as char
    }
}

/// One byte, percent-encoded.
pub open spec fn percent_encoded_byte(b: u8) -> Seq<char> {
    if is_unreserved_byte(b) {
        seq![b as char]
    } else {
        seq!['%', upper_hex_digit(b / 16), upper_hex_digit(b % 16)]
    }
}

/// The percent-encoding of `bytes`, byte by byte.
pub open spec fn url_encoded(bytes: Seq<u8>) -> Seq<char>
    decreases bytes.len(),
{
    if bytes.len() == 0 {
        seq![]
    } else {
        percent_encoded_byte(bytes[0]) + url_encoded(bytes.drop_first())
    }
}

/// Percent-encodes the UTF-8 bytes of `s` by formatting
/// `urlencoding::Encoded::new(s)`.
/// Trusted: the text is `url_encoded` of the bytes of `s`, as the crate's
/// source shows.
#[verifier::external_body]
fn url_encode(s: &str) -> (r: String)
    ensures
        r@ == url_encoded(encode_utf8(s@)),
{
    format!("{}", urlencoding::Encoded::new(s))
}

// ---------------------------------------------------------------------------
// HMAC-SHA256
// ---------------------------------------------------------------------------

/// The HMAC-SHA256 tag (32 bytes) of `message` under `key`.
pub uninterp spec fn hmac_sha256(key: Seq<u8>, message: Seq<u8>) -> Seq<u8>;

/// Checks `tag` against the HMAC-SHA256 of `message` under `key`:
/// `Hmac::<Sha256>::new_from_slice` (which accepts keys of any length),
/// `Mac::update` and `Mac::verify_slice`.
/// Trusted: the answer is whether `tag` has the 32 bytes of an HMAC-SHA256
/// output and equals the named tag `hmac_sha256(key, message)`;
/// `verify_slice` refuses a tag of another length before it compares, in
/// constant time.
#[verifier::external_body]
fn hmac_sha256_matches(key: &[u8], message: &[u8], tag: &[u8]) -> (r: bool)
    ensures
        r == (tag@.len() == 32 && tag@ == hmac_sha256(key@, message@)),
{
    let mut mac = Hmac::<sha2::Sha256>::new_from_slice(key).unwrap();
    mac.update(message);
    mac.verify_slice(tag).is_ok()
}

// ---------------------------------------------------------------------------
// The signed error message
// ---------------------------------------------------------------------------

/// The query string whose tag accompanies the error message `error`.
pub open spec fn signed_query(error: Seq<char>) -> Seq<char> {
    "error="@ + url_encoded(encode_utf8(error))
}

/// The tag that the holder of `secret` gives the error message `error`.
pub open spec fn expected_tag(secret: Seq<char>, error: Seq<char>) -> Seq<u8> {
    hmac_sha256(encode_utf8(secret), encode_utf8(signed_query(error)))
}

/// Percent-encoding of one byte: ASCII letters, digits and `- . _ ~` stand
/// for themselves; every other byte becomes `%` and its two upper-case hex
/// digits, high digit first.
pub proof fn percent_encoding_of_a_byte(b: u8)
    ensures
        url_encoded(seq![b]) == if (0x30 <= b <= 0x39) || (0x41 <= b <= 0x5a) || (0x61 <= b
            <= 0x7a) || b == 0x2d || b == 0x2e || b == 0x5f || b == 0x7e {
            seq![b as char]
        } else {
            seq!['%', "0123456789ABCDEF"@[(b / 16) as int], "0123456789ABCDEF"@[(b % 16) as int]]
        },
{
    reveal_strlit("0123456789ABCDEF");
    assert(seq![b].drop_first() =~= Seq::<u8>::empty());
    assert(url_encoded(Seq::<u8>::empty()) =~= Seq::<char>::empty());
    assert(percent_encoded_byte(b) + Seq::<char>::empty() =~= percent_encoded_byte(b));
    assert(url_encoded(seq![b]) =~= percent_encoded_byte(b));
}

/// Percent-encoding works byte by byte: the encoding of two byte strings
/// one after the other is the two encodings one after the other.
pub proof fn url_encoded_concat(a: Seq<u8>, b: Seq<u8>)
    ensures
        url_encoded(a + b) == url_encoded(a) + url_encoded(b),
    decreases a.len(),
{
    if a.len() == 0 {
        assert(a + b =~= b);
    } else {
        assert((a + b).drop_first() =~= a.drop_first() + b);
        url_encoded_concat(a.drop_first(), b);
    }
}

proof fn upper_hex_digit_injective(x: u8, y: u8)
    requires
        x < 16,
        y < 16,
        upper_hex_digit(x) == upper_hex_digit(y),
    ensures
        x == y,
{
}

/// Different byte strings have different percent-encodings.
pub proof fn url_encoded_injective(a: Seq<u8>, b: Seq<u8>)
    requires
        url_encoded(a) == url_encoded(b),
    ensures
        a == b,
    decreases a.len(),
{
    if a.len() == 0 {
        if b.len() != 0 {
            assert(url_encoded(b).len() >= percent_encoded_byte(b[0]).len());
        }
        assert(a =~= b);
    } else if b.len() == 0 {
        assert(url_encoded(a).len() >= percent_encoded_byte(a[0]).len());
    } else {
        let x = a[0];
        let y = b[0];
        let ea = percent_encoded_byte(x);
        let eb = percent_encoded_byte(y);
        let ra = url_encoded(a.drop_first());
        let rb = url_encoded(b.drop_first());
        assert(url_encoded(a) == ea + ra);
        assert(url_encoded(b) == eb + rb);
        assert((ea + ra)[0] == (eb + rb)[0]);
        if is_unreserved_byte(x) {
            if !is_unreserved_byte(y) {
                assert(ea[0] == x as char);
                assert(eb[0] == '%');
                assert(false);
            }
            assert(x == y);
        } else {
            if is_unreserved_byte(y) {
                assert(ea[0] == '%');
                assert(eb[0] == y as char);
                assert(false);
            }
            assert((ea + ra)[1] == (eb + rb)[1]);
            assert((ea + ra)[2] == (eb + rb)[2]);
            upper_hex_digit_injective((x / 16) as u8, (y / 16) as u8);
            upper_hex_digit_injective((x % 16) as u8, (y % 16) as u8);
            assert(x == y);
        }
        assert(ea == eb);
        assert(ra =~= (ea + ra).subrange(ea.len() as int, (ea + ra).len() as int));
        assert(rb =~= (eb + rb).subrange(eb.len() as int, (eb + rb).len() as int));
        url_encoded_injective(a.drop_first(), b.drop_first());
        assert(a =~= seq![x] + a.drop_first());
        assert(b =~= seq![y] + b.drop_first());
    }
}

/// The signed query of an error message is `error=` followed by the
/// percent-encoding of the UTF-8 bytes of the whole message.
pub proof fn signed_query_in_full(error: Seq<char>)
    ensures
        signed_query(error) == "error="@ + url_encoded(encode_utf8(error)),
        signed_query(error).len() >= "error="@.len() + error.len(),
{
    lemma_encode_utf8_len(error);
    lemma_url_encoded_len(encode_utf8(error));
}

proof fn lemma_url_encoded_len(bytes: Seq<u8>)
    ensures
        url_encoded(bytes).len() >= bytes.len(),
    decreases bytes.len(),
{
    if bytes.len() > 0 {
        lemma_url_encoded_len(bytes.drop_first());
    }
}

proof fn lemma_encode_utf8_len(chars: Seq<char>)
    ensures
        encode_utf8(chars).len() >= chars.len(),
    decreases chars.len(),
{
    if chars.len() > 0 {
        lemma_encode_utf8_len(chars.drop_first());
        vstd::utf8::char_is_scalar(chars[0]);
    }
}

/// Different error messages have different signed queries: every character
/// of the message is covered by its tag.
pub proof fn signed_query_injective(e1: Seq<char>, e2: Seq<char>)
    requires
        signed_query(e1) == signed_query(e2),
    ensures
        e1 == e2,
{
    let p = "error="@;
    let u1 = url_encoded(encode_utf8(e1));
    let u2 = url_encoded(encode_utf8(e2));
    assert(u1 =~= (p + u1).subrange(p.len() as int, (p + u1).len() as int));
    assert(u2 =~= (p + u2).subrange(p.len() as int, (p + u2).len() as int));
    url_encoded_injective(encode_utf8(e1), encode_utf8(e2));
    vstd::utf8::encode_utf8_decode_utf8(e1);
    vstd::utf8::encode_utf8_decode_utf8(e2);
}

/// Why the query parameters of the login page were refused.
#[derive(Debug, Clone, Copy, PartialEq, Eq)]
pub enum VerifyError {
    /// The tag is not hex text.
    InvalidTag,
    /// The tag is not the one that the secret gives this error message.
    InvalidSignature,
}

/// The query parameters of the login page: an error message and its tag.
pub struct QueryParams {
    pub error: String,
    pub tag: String,
}

impl QueryParams {
    /// Returns the error message if `tag` is the hex encoding of the 32-byte
    /// HMAC-SHA256, under `secret`, of `error=` followed by the
    /// percent-encoded message; refuses it otherwise.
    pub fn verify(self, secret: &HmacSecret) -> (r: Result<String, VerifyError>)
        ensures
            hex_decoded(encode_utf8(self.tag@)) is None ==> r == Err::<String, VerifyError>(
                VerifyError::InvalidTag,
            ),
            hex_decoded(encode_utf8(self.tag@)) matches Some(t) ==> {
                if t.len() == 32 && t == expected_tag(secret.0@, self.error@) {
                    r matches Ok(e) && e@ == self.error@
                } else {
                    r == Err::<String, VerifyError>(VerifyError::InvalidSignature)
                }
            },
    {
        let tag = match decode_hex(self.tag.as_str()) {
            Some(t) => t,
            None => return Err(VerifyError::InvalidTag),
        };
        let mut query_string = String::from_str("error=");
        let encoded = url_encode(self.error.as_str());
        query_string.append(encoded.as_str());
        let matches = hmac_sha256_matches(
            secret.0.as_str().as_bytes(),
            query_string.as_str().as_bytes(),
            tag.as_slice(),
        );
        Self::accept_if_authentic(self.error, matches)
    }

    /// The decision of `verify` once the tag has been checked: the error
    /// message when the tag matched, `InvalidSignature` otherwise.
    pub fn accept_if_authentic(error: String, tag_matches: bool) -> (r: Result<String, VerifyError>)
        ensures
            tag_matches ==> (r matches Ok(e) && e@ == error@),
            !tag_matches ==> r == Err::<String, VerifyError>(VerifyError::InvalidSignature),
    {
        if tag_matches {
            Ok(error)
        } else {
            Err(VerifyError::InvalidSignature)
        }
    }
}

// ---------------------------------------------------------------------------
// The login form
// ---------------------------------------------------------------------------

/// The HTML of the login page up to the error messages.
pub const LOGIN_PAGE_HEAD: &'static str = "<!DOCTYPE html>\n                <html lang=\"en\">\n                <head>\n                <meta http-equiv=\"content-type\" content=\"text/html; charset=utf-8\">\n                <title>Login</title>\n                </head>\n                <body>\n                ";

/// The HTML of the login page after the error messages.
pub const LOGIN_PAGE_TAIL: &'static str = "\n                <form action=\"/login\" method=\"post\">\n                <label>Username\n                <input\n                type=\"text\"\n                placeholder=\"Enter Username\"\n                name=\"username\"\n                >\n                </label>\n                <label>Password\n                <input\n                type=\"password\"\n                placeholder=\"Enter Password\"\n                name=\"password\"\n                >\n                </label>\n                <button type=\"submit\">Login</button>\n                </form>\n                </body>\n                </html>";

/// The importance of a flash message.
#[derive(Debug, Clone, Copy, PartialEq, Eq)]
pub enum FlashLevel {
    Debug,
    Info,
    Success,
    Warning,
    Error,
}

/// A one-time message for the user, carried over from an earlier request.
pub struct FlashMessage {
    pub level: FlashLevel,
    pub content: String,
}

/// The paragraph that shows one error message.
pub open spec fn error_paragraph(content: Seq<char>) -> Seq<char> {
    "<p><i>"@ + content + "</i></p>\n"@
}

/// The error messages among `messages`, in their order, one paragraph each;
/// messages of other levels leave no trace.
pub open spec fn error_html(messages: Seq<FlashMessage>) -> Seq<char>
    decreases messages.len(),
{
    if messages.len() == 0 {
        seq![]
    } else {
        error_html(messages.drop_last()) + if messages.last().level is Error {
            error_paragraph(messages.last().content@)
        } else {
            seq![]
        }
    }
}

/// The login page that shows `errors` above the form.
pub open spec fn login_page(errors: Seq<char>) -> Seq<char> {
    LOGIN_PAGE_HEAD@ + errors + LOGIN_PAGE_TAIL@
}

/// The error HTML of no messages is empty.
pub proof fn error_html_of_nothing()
    ensures
        error_html(Seq::<FlashMessage>::empty()) == Seq::<char>::empty(),
{
}

/// One more message adds, when it is an error, the paragraph
/// `<p><i>` + its full content + `</i></p>` and a line break, and nothing
/// otherwise.
pub proof fn error_html_push(messages: Seq<FlashMessage>, m: FlashMessage)
    ensures
        error_html(messages.push(m)) == error_html(messages) + if m.level is Error {
            "<p><i>"@ + m.content@ + "</i></p>\n"@
        } else {
            Seq::<char>::empty()
        },
{
    assert(messages.push(m).drop_last() =~= messages);
}

/// The error HTML of messages one list after another is the two error
/// HTMLs one after the other.
pub proof fn error_html_concat(a: Seq<FlashMessage>, b: Seq<FlashMessage>)
    ensures
        error_html(a + b) == error_html(a) + error_html(b),
    decreases b.len(),
{
    if b.len() == 0 {
        assert(a + b =~= a);
    } else {
        assert((a + b).drop_last() =~= a + b.drop_last());
        error_html_concat(a, b.drop_last());
    }
}

/// The login page is the head, the error HTML in full, and the tail; the
/// error HTML stands unchanged right after the head.
pub proof fn login_page_in_full(errors: Seq<char>)
    ensures
        login_page(errors) == LOGIN_PAGE_HEAD@ + errors + LOGIN_PAGE_TAIL@,
        login_page(errors).len() == LOGIN_PAGE_HEAD@.len() + errors.len() + LOGIN_PAGE_TAIL@.len(),
        login_page(errors).subrange(
            LOGIN_PAGE_HEAD@.len() as int,
            (LOGIN_PAGE_HEAD@.len() + errors.len()) as int,
        ) == errors,
{
    assert(login_page(errors).subrange(
        LOGIN_PAGE_HEAD@.len() as int,
        (LOGIN_PAGE_HEAD@.len() + errors.len()) as int,
    ) =~= errors);
}

/// One paragraph per error-level message, in order.
pub fn error_messages_html(flash_messages: &Vec<FlashMessage>) -> (r: String)
    ensures
        r@ == error_html(flash_messages@),
{
    let mut html = String::new();
    let n = flash_messages.len();
    let mut i: usize = 0;
    while i < n
        invariant
            n == flash_messages@.len(),
            i <= n,
            html@ == error_html(flash_messages@.take(i as int)),
        decreases n - i,
    {
        let m = &flash_messages[i];
        assert(flash_messages@.take(i + 1).drop_last() =~= flash_messages@.take(i as int));
        match m.level {
            FlashLevel::Error => {
                html.append("<p><i>");
                html.append(m.content.as_str());
                html.append("</i></p>\n");
            },
            _ => {},
        }
        i = i + 1;
    }
    assert(flash_messages@.take(n as int) =~= flash_messages@);
    html
}

/// The HTML body of the login page: the form, preceded by the error-level
/// flash messages, one paragraph each.
pub fn login_form(flash_messages: &Vec<FlashMessage>) -> (r: String)
    ensures
        r@ == login_page(error_html(flash_messages@)),
{
    let errors = error_messages_html(flash_messages);
    let mut page = String::from_str(LOGIN_PAGE_HEAD);
    page.append(errors.as_str());
    page.append(LOGIN_PAGE_TAIL);
    page
}

} // verus!

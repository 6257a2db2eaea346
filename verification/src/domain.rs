//! Subscriber data and the validation rules for subscriber names.

use unicode_segmentation::UnicodeSegmentation;
use vstd::prelude::*;

verus! {

/// Largest number of user-perceived characters (extended grapheme
/// clusters) that a subscriber name may have.
pub const MAX_NAME_GRAPHEMES: usize = 256;

/// Text that follows the rejected input in the message of a rejection.
pub const REJECTION_SUFFIX: &'static str = " is not a valid subscriber name";

/// The number of extended grapheme clusters (Unicode Standard Annex #29)
/// into which `s` splits.
pub uninterp spec fn extended_grapheme_count(s: Seq<char>) -> nat;

/// Counts the extended grapheme clusters of `s` with
/// `unicode_segmentation::UnicodeSegmentation::graphemes(s, true).count()`.
/// Trusted: the count is the named value `extended_grapheme_count`, and it
/// is never larger than the number of characters, since the clusters are
/// non-empty pieces that together make up `s`.
#[verifier::external_body]
fn grapheme_count(s: &str) -> (n: usize)
    ensures
        n == extended_grapheme_count(s@),
        n <= s@.len(),
{
    UnicodeSegmentation::graphemes(s, true).count()
}

/// The characters with the Unicode `White_Space` property, which are the
/// ones that `char::is_whitespace` and `str::trim` treat as whitespace.
pub open spec fn is_white_space(c: char) -> bool {
    ||| ('\u{9}' <= c && c <= '\u{d}')
    ||| c == ' '
    ||| c == '\u{85}'
    ||| c == '\u{a0}'
    ||| c == '\u{1680}'
    ||| ('\u{2000}' <= c && c <= '\u{200a}')
    ||| c == '\u{2028}'
    ||| c == '\u{2029}'
    ||| c == '\u{202f}'
    ||| c == '\u{205f}'
    ||| c == '\u{3000}'
}

/// `s` is empty or made of whitespace only: trimming it leaves nothing.
pub open spec fn is_blank(s: Seq<char>) -> bool {
    forall|i: int| 0 <= i < s.len() ==> #[trigger] is_white_space(s[i])
}

/// The characters that a subscriber name may not hold.
pub open spec fn is_forbidden_char(c: char) -> bool {
    ||| c == '/'
    ||| c == '('
    ||| c == ')'
    ||| c == '"'
    ||| c == '<'
    ||| c == '>'
    ||| c == '\\'
    ||| c == '{'
    ||| c == '}'
}

/// `s` holds at least one forbidden character.
pub open spec fn has_forbidden_char(s: Seq<char>) -> bool {
    exists|i: int| 0 <= i < s.len() && #[trigger] is_forbidden_char(s[i])
}

/// The name rules, given the number of grapheme clusters of the name.
pub open spec fn name_rules_hold(s: Seq<char>, graphemes: int) -> bool {
    &&& !is_blank(s)
    &&& graphemes <= MAX_NAME_GRAPHEMES
    &&& !has_forbidden_char(s)
}

/// `s` is a valid subscriber name.
pub open spec fn is_valid_subscriber_name(s: Seq<char>) -> bool {
    name_rules_hold(s, extended_grapheme_count(s) as int)
}

/// The message with which the name `s` is rejected.
pub open spec fn rejection_message(s: Seq<char>) -> Seq<char> {
    s + REJECTION_SUFFIX@
}

/// Whether `c` has the Unicode `White_Space` property.
pub fn is_white_space_char(c: char) -> (r: bool)
    ensures
        r == is_white_space(c),
{
    ('\u{9}' <= c && c <= '\u{d}') || c == ' ' || c == '\u{85}' || c == '\u{a0}' || c
        == '\u{1680}' || ('\u{2000}' <= c && c <= '\u{200a}') || c == '\u{2028}' || c
        == '\u{2029}' || c == '\u{202f}' || c == '\u{205f}' || c == '\u{3000}'
}

/// Whether `c` is one of the characters that a name may not hold.
pub fn is_forbidden_name_char(c: char) -> (r: bool)
    ensures
        r == is_forbidden_char(c),
{
    c == '/' || c == '(' || c == ')' || c == '"' || c == '<' || c == '>' || c == '\\' || c
        == '{' || c == '}'
}

/// Whether `s` is empty or whitespace only (`s.trim().is_empty()`).
pub fn is_empty_or_whitespace(s: &str) -> (r: bool)
    ensures
        r == is_blank(s@),
{
    let len = s.unicode_len();
    let mut i: usize = 0;
    while i < len
        invariant
            len == s@.len(),
            i <= len,
            forall|j: int| 0 <= j < i ==> #[trigger] is_white_space(s@[j]),
        decreases len - i,
    {
        if !is_white_space_char(s.get_char(i)) {
            assert(!is_white_space(s@[i as int]));
            return false;
        }
        i = i + 1;
    }
    true
}

/// Whether `s` holds one of the forbidden characters.
pub fn contains_forbidden_characters(s: &str) -> (r: bool)
    ensures
        r == has_forbidden_char(s@),
{
    let len = s.unicode_len();
    let mut i: usize = 0;
    while i < len
        invariant
            len == s@.len(),
            i <= len,
            forall|j: int| 0 <= j < i ==> !#[trigger] is_forbidden_char(s@[j]),
        decreases len - i,
    {
        if is_forbidden_name_char(s.get_char(i)) {
            assert(is_forbidden_char(s@[i as int]));
            return true;
        }
        i = i + 1;
    }
    false
}

/// The rejection message is the rejected text, unchanged, followed by
/// ` is not a valid subscriber name`.
pub proof fn rejection_message_in_full(s: Seq<char>)
    ensures
        rejection_message(s) == s + " is not a valid subscriber name"@,
        rejection_message(s).subrange(0, s.len() as int) == s,
{
    assert(rejection_message(s).subrange(0, s.len() as int) =~= s);
}

/// The name rules in full: a name meets them exactly when some character
/// of it is not whitespace, it has at most 256 grapheme clusters, and no
/// character of it, at any position, is one of `/ ( ) " < > \ { }`. Any
/// other character, such as `-` or `'`, is allowed.
pub proof fn name_rules_in_full(s: Seq<char>, graphemes: int)
    ensures
        name_rules_hold(s, graphemes) <==> {
            &&& exists|i: int|
                0 <= i < s.len() && !({
                    let c = #[trigger] s[i];
                    ||| ('\u{9}' <= c && c <= '\u{d}')
                    ||| c == ' '
                    ||| c == '\u{85}'
                    ||| c == '\u{a0}'
                    ||| c == '\u{1680}'
                    ||| ('\u{2000}' <= c && c <= '\u{200a}')
                    ||| c == '\u{2028}'
                    ||| c == '\u{2029}'
                    ||| c == '\u{202f}'
                    ||| c == '\u{205f}'
                    ||| c == '\u{3000}'
                })
            &&& graphemes <= 256
            &&& forall|i: int|
                0 <= i < s.len() ==> {
                    let c = #[trigger] s[i];
                    &&& c != '/'
                    &&& c != '('
                    &&& c != ')'
                    &&& c != '"'
                    &&& c != '<'
                    &&& c != '>'
                    &&& c != '\\'
                    &&& c != '{'
                    &&& c != '}'
                }
        },
{
    assert(is_blank(s) <==> forall|i: int| 0 <= i < s.len() ==> is_white_space(#[trigger] s[i]));
    assert(has_forbidden_char(s) <==> exists|i: int|
        0 <= i < s.len() && is_forbidden_char(#[trigger] s[i]));
}

/// A name with a forbidden character anywhere in it breaks the rules,
/// whatever its length and grapheme count.
pub proof fn forbidden_char_anywhere_breaks_rules(s: Seq<char>, graphemes: int, i: int)
    requires
        0 <= i < s.len(),
        s[i] == '/' || s[i] == '(' || s[i] == ')' || s[i] == '"' || s[i] == '<' || s[i] == '>'
            || s[i] == '\\' || s[i] == '{' || s[i] == '}',
    ensures
        !name_rules_hold(s, graphemes),
{
    assert(is_forbidden_char(s[i]));
}

/// A subscriber's name: never blank, at most 256 grapheme clusters long,
/// and free of forbidden characters.
pub struct SubscriberName(String);

impl View for SubscriberName {
    type V = Seq<char>;

    closed spec fn view(&self) -> Seq<char> {
        self.0@
    }
}

impl SubscriberName {
    #[verifier::type_invariant]
    closed spec fn well_formed(self) -> bool {
        is_valid_subscriber_name(self.0@)
    }

    /// Returns the name if `s` satisfies all the validation constraints on
    /// subscriber names: it is not empty or whitespace only, it has at most
    /// 256 grapheme clusters, and it holds none of `/ ( ) " < > \ { }`.
    /// Otherwise returns the message "`s` is not a valid subscriber name".
    pub fn parse(s: String) -> (r: Result<SubscriberName, String>)
        ensures
            r is Ok <==> is_valid_subscriber_name(s@),
            r matches Ok(name) ==> name@ == s@,
            r matches Err(msg) ==> msg@ == rejection_message(s@),
            s@.len() <= MAX_NAME_GRAPHEMES && !is_blank(s@) && !has_forbidden_char(s@) ==> r is Ok,
    {
        let graphemes = grapheme_count(s.as_str());
        if Self::meets_name_rules(s.as_str(), graphemes) {
            Ok(SubscriberName(s))
        } else {
            let mut msg = s.clone();
            msg.append(REJECTION_SUFFIX);
            Err(msg)
        }
    }

    /// The decision of `parse`, given the number of grapheme clusters of `s`:
    /// `s` is not blank, the count is at most 256, and `s` holds no
    /// forbidden character.
    pub fn meets_name_rules(s: &str, graphemes: usize) -> (r: bool)
        ensures
            r == name_rules_hold(s@, graphemes as int),
    {
        let is_blank_name = is_empty_or_whitespace(s);
        let is_too_long = graphemes > MAX_NAME_GRAPHEMES;
        let has_forbidden = contains_forbidden_characters(s);
        !(is_blank_name || is_too_long || has_forbidden)
    }

    /// The name as text. Every name is a valid subscriber name: not blank,
    /// at most 256 grapheme clusters, free of forbidden characters.
    pub fn as_ref(&self) -> (r: &str)
        ensures
            r@ == self@,
            is_valid_subscriber_name(self@),
            !is_blank(self@),
            extended_grapheme_count(self@) <= MAX_NAME_GRAPHEMES,
            !has_forbidden_char(self@),
    {
        proof {
            use_type_invariant(self);
        }
        self.0.as_str()
    }
}

/// A new subscriber: an email address and a validated name.
pub struct NewSubscriber {
    pub email: String,
    pub name: SubscriberName,
}

} // verus!

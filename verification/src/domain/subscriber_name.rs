use vstd::prelude::*;

use unicode_segmentation::UnicodeSegmentation;

use crate::domain::ValidationError;

verus! {

/// Number of extended grapheme clusters ("user-perceived characters") in a
/// string. Only the trusted counter below gives it a value.
pub uninterp spec fn grapheme_count(s: Seq<char>) -> nat;

/// The Unicode `White_Space` property of a character. Only the trusted test
/// below gives it a value.
pub uninterp spec fn white_space(c: char) -> bool;

/// Characters that may never appear in a subscriber name.
pub open spec fn forbidden_name_char(c: char) -> bool {
    ||| c == '/'
    ||| c == '('
    ||| c == ')'
    ||| c == '<'
    ||| c == '>'
    ||| c == '['
    ||| c == ']'
    ||| c == '\\'
    ||| c == '{'
    ||| c == '}'
}

/// Every character is whitespace; equivalently, the string trims to nothing.
/// An empty string satisfies this vacuously.
pub open spec fn all_whitespace(s: Seq<char>) -> bool {
    forall|i: int| 0 <= i < s.len() ==> white_space(#[trigger] s[i])
}

/// Some character of the string is forbidden in a name.
pub open spec fn has_forbidden_name_char(s: Seq<char>) -> bool {
    exists|i: int| 0 <= i < s.len() && forbidden_name_char(#[trigger] s[i])
}

/// A string is an acceptable subscriber name when it does not trim to
/// nothing, holds at most 256 grapheme clusters, and holds no forbidden
/// character.
pub open spec fn is_valid_name(s: Seq<char>) -> bool {
    &&& !all_whitespace(s)
    &&& grapheme_count(s) <= 256
    &&& !has_forbidden_name_char(s)
}

/// Relies on unicode_segmentation's `graphemes` with the extended cluster
/// set: the number of clusters depends on the characters alone.
#[verifier::external_body]
fn count_graphemes(s: &str) -> (n: usize)
    ensures
        n as nat == grapheme_count(s@),
{
    s.graphemes(true).count()
}

/// Relies on char::is_whitespace: whether the character has the Unicode
/// `White_Space` property, a property of the character alone.
#[verifier::external_body]
fn is_whitespace_char(c: char) -> (b: bool)
    ensures
        b == white_space(c),
{
    c.is_whitespace()
}

fn str_all_whitespace(s: &str) -> (b: bool)
    ensures
        b == all_whitespace(s@),
{
    let n = s.unicode_len();
    let mut blank = true;
    for i in 0..n
        invariant
            n == s@.len(),
            blank <==> (forall|j: int| 0 <= j < i ==> white_space(#[trigger] s@[j])),
    {
        let c = s.get_char(i);
        if !is_whitespace_char(c) {
            blank = false;
        }
    }
    blank
}

fn str_has_forbidden_name_char(s: &str) -> (b: bool)
    ensures
        b == has_forbidden_name_char(s@),
{
    let n = s.unicode_len();
    let mut found = false;
    for i in 0..n
        invariant
            n == s@.len(),
            found <==> (exists|j: int| 0 <= j < i && forbidden_name_char(#[trigger] s@[j])),
    {
        let c = s.get_char(i);
        if c == '/' || c == '(' || c == ')' || c == '<' || c == '>' || c == '[' || c == ']'
            || c == '\\' || c == '{' || c == '}' {
            found = true;
        }
    }
    found
}

/// A subscriber's display name. `parse` is the only way to obtain one, so
/// every value in existence wraps a string that `is_valid_name` accepts.
#[derive(Debug)]
pub struct SubscriberName {
    name: String,
}

impl View for SubscriberName {
    type V = Seq<char>;

    closed spec fn view(&self) -> Seq<char> {
        self.name@
    }
}

impl SubscriberName {
    #[verifier::type_invariant]
    spec fn wf(self) -> bool {
        is_valid_name(self.name@)
    }

    /// The single validation gate: accepts exactly the strings that
    /// `is_valid_name` accepts, and wraps them unchanged.
    pub fn parse(s: String) -> (r: Result<SubscriberName, ValidationError>)
        ensures
            match r {
                Ok(n) => is_valid_name(s@) && n@ == s@,
                Err(e) => !is_valid_name(s@) && e == ValidationError::InvalidName,
            },
    {
        let blank = str_all_whitespace(s.as_str());
        let too_long = count_graphemes(s.as_str()) > 256;
        let forbidden = str_has_forbidden_name_char(s.as_str());
        if blank || too_long || forbidden {
            Err(ValidationError::InvalidName)
        } else {
            Ok(SubscriberName { name: s })
        }
    }

    /// Read-only view of the wrapped string.
    pub fn as_ref(&self) -> (r: &str)
        ensures
            r@ == self@,
            is_valid_name(self@),
    {
        proof {
            use_type_invariant(self);
        }
        self.name.as_str()
    }
}

/// Law: a string whose characters are all whitespace — one that trims to
/// nothing, the empty string included — is never a valid subscriber name.
pub proof fn lemma_blank_name_rejected(s: Seq<char>)
    requires
        all_whitespace(s),
    ensures
        !is_valid_name(s),
{
}

/// Law: at the length boundary, a string of exactly 256 grapheme clusters
/// with no forbidden character and not trimming to nothing is a valid name,
/// while any string of 257 grapheme clusters is rejected.
pub proof fn lemma_name_length_boundary(s: Seq<char>, t: Seq<char>)
    requires
        grapheme_count(s) == 256,
        !has_forbidden_name_char(s),
        !all_whitespace(s),
        grapheme_count(t) == 257,
    ensures
        is_valid_name(s),
        !is_valid_name(t),
{
}

/// Law: a string holding any of the forbidden characters is never a valid
/// subscriber name.
pub proof fn lemma_forbidden_char_rejected(s: Seq<char>, i: int)
    requires
        0 <= i < s.len(),
        forbidden_name_char(s[i]),
    ensures
        !is_valid_name(s),
{
}

} // verus!

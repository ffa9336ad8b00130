use vstd::prelude::*;

use crate::domain::ValidationError;

verus! {

/// Some character of the string equals `c`.
pub open spec fn contains_char(s: Seq<char>, c: char) -> bool {
    exists|i: int| 0 <= i < s.len() && s[i] == c
}

/// The fine grain of the email grammar — character classes of the local
/// part, shape of the domain labels — beyond the structure that
/// `email_valid` spells out. Only the trusted test below gives it a value.
pub uninterp spec fn email_grammar_ok(s: Seq<char>) -> bool;

/// A string is an acceptable email address when it is non-empty, holds an
/// `@` that is neither its first nor its last character — so a local part
/// and a domain segment both exist — and satisfies the rest of the email
/// grammar.
pub open spec fn email_valid(s: Seq<char>) -> bool {
    &&& s.len() > 0
    &&& contains_char(s, '@')
    &&& s[0] != '@'
    &&& s[s.len() - 1] != '@'
    &&& email_grammar_ok(s)
}

/// Relies on validator::validate_email (the HTML5 email grammar): the result
/// depends on the characters alone, and the string is rejected outright when
/// it is empty, holds no `@`, or has an empty local part or an empty domain
/// part on either side of its last `@`.
#[verifier::external_body]
fn validate_email_str(s: &str) -> (b: bool)
    ensures
        b == email_valid(s@),
        b ==> email_grammar_ok(s@),
{
    validator::validate_email(s)
}

/// A subscriber's email address. `parse` is the only way to obtain one, so
/// every value in existence wraps a string that `email_valid` accepts.
#[derive(Debug)]
pub struct SubscriberEmail {
    email: String,
}

impl View for SubscriberEmail {
    type V = Seq<char>;

    closed spec fn view(&self) -> Seq<char> {
        self.email@
    }
}

impl SubscriberEmail {
    #[verifier::type_invariant]
    spec fn wf(self) -> bool {
        email_valid(self.email@)
    }

    /// The single validation gate: accepts exactly the strings that
    /// `email_valid` accepts, and wraps them unchanged.
    pub fn parse(s: String) -> (r: Result<SubscriberEmail, ValidationError>)
        ensures
            match r {
                Ok(e) => email_valid(s@) && e@ == s@,
                Err(e) => !email_valid(s@) && e == ValidationError::InvalidEmail,
            },
    {
        if validate_email_str(s.as_str()) {
            Ok(SubscriberEmail { email: s })
        } else {
            Err(ValidationError::InvalidEmail)
        }
    }

    /// Read-only view of the wrapped string.
    pub fn as_ref(&self) -> (r: &str)
        ensures
            r@ == self@,
            email_valid(self@),
    {
        proof {
            use_type_invariant(self);
        }
        self.email.as_str()
    }
}

/// Law: a string without `@`, or one whose last `@` is its final character
/// and so has no domain segment, is never a valid email address.
pub proof fn lemma_email_needs_at_and_domain(s: Seq<char>)
    requires
        !contains_char(s, '@') || (s.len() > 0 && s[s.len() - 1] == '@'),
    ensures
        !email_valid(s),
{
}

} // verus!

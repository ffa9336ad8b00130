use vstd::prelude::*;

pub mod new_subscriber;
pub mod subscriber_email;
pub mod subscriber_name;

verus! {

/// Rejection of a raw submission by one of the value-object constructors.
#[derive(Clone, Copy, Debug, PartialEq, Eq, Structural)]
pub enum ValidationError {
    /// The name is blank, too long, or holds a forbidden character.
    InvalidName,
    /// The email address does not match the email grammar.
    InvalidEmail,
}

} // verus!

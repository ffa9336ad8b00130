use vstd::prelude::*;

use crate::domain::subscriber_email::{email_valid, SubscriberEmail};
use crate::domain::subscriber_name::{is_valid_name, SubscriberName};
use crate::domain::ValidationError;
use crate::enrollment::FormData;

verus! {

/// A fully validated enrollment request: both fields passed their value
/// objects' gates, so no invalid form ever becomes a `NewSubscriber`.
#[derive(Debug)]
pub struct NewSubscriber {
    pub name: SubscriberName,
    pub email: SubscriberEmail,
}

impl NewSubscriber {
    /// Validates a raw form, name first. Succeeds exactly when both fields
    /// are acceptable, and then carries them through unchanged.
    pub fn try_from(form: FormData) -> (r: Result<NewSubscriber, ValidationError>)
        ensures
            match r {
                Ok(ns) => {
                    &&& is_valid_name(form.name@)
                    &&& email_valid(form.email@)
                    &&& ns.name@ == form.name@
                    &&& ns.email@ == form.email@
                },
                Err(e) => {
                    &&& !(is_valid_name(form.name@) && email_valid(form.email@))
                    &&& (e == ValidationError::InvalidName <==> !is_valid_name(form.name@))
                },
            },
    {
        let name = match SubscriberName::parse(form.name) {
            Ok(name) => name,
            Err(e) => {
                return Err(e);
            },
        };
        let email = match SubscriberEmail::parse(form.email) {
            Ok(email) => email,
            Err(e) => {
                return Err(e);
            },
        };
        Ok(NewSubscriber { name, email })
    }
}

} // verus!

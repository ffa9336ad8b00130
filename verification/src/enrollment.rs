use vstd::prelude::*;

use vstd::string::StringExecFns;

use crate::domain::new_subscriber::NewSubscriber;
use crate::domain::subscriber_email::email_valid;
use crate::domain::subscriber_name::is_valid_name;
use crate::email_client::NotifierError;
use crate::store::{Store, SubscriberId};
use crate::token::{generate_subscription_token, is_well_formed_token};

verus! {

/// The raw enrollment form as the inbound layer hands it over: two
/// unvalidated strings.
#[derive(Debug)]
pub struct FormData {
    pub name: String,
    pub email: String,
}

/// Failure of an enrollment.
#[derive(Clone, Copy, Debug, PartialEq, Eq, Structural)]
pub enum EnrollmentError {
    /// The form failed validation — the client's fault.
    InvalidInput,
    /// The atomic insert failed, so nothing was written.
    PersistenceFailed,
    /// The subscriber was durably recorded, but the confirmation email was
    /// not delivered; the row stays pending for a later retry.
    NotificationFailed,
}

/// What a successful enrollment hands to the notification step: the new
/// subscriber's identifier and the issued confirmation token.
#[derive(Debug)]
pub struct EnrollmentTicket {
    pub subscriber_id: SubscriberId,
    pub token: String,
}

/// Both form fields pass their value objects' gates.
pub open spec fn valid_form(name: Seq<char>, email: Seq<char>) -> bool {
    is_valid_name(name) && email_valid(email)
}

/// The enrollment write with the token fixed by the caller: validates the
/// form, then writes the pending subscriber and the token atomically. This
/// is the deterministic core of `enroll`: it succeeds exactly when the form
/// is valid and the token is not yet taken.
pub fn enroll_with_token(store: &mut Store, form: FormData, token: String) -> (r: Result<
    SubscriberId,
    EnrollmentError,
>)
    requires
        old(store)@.wf(),
    ensures
        final(store)@.wf(),
        r is Ok <==> valid_form(form.name@, form.email@) && !old(store)@.has_token(token@),
        match r {
            Ok(id) => {
                &&& old(store)@.enrollment_written(
                    final(store)@,
                    id,
                    form.name@,
                    form.email@,
                    token@,
                )
                &&& final(store)@.has_token(token@)
                &&& final(store)@.token_owner(token@) == id
            },
            Err(e) => {
                &&& final(store)@ == old(store)@
                &&& (e == EnrollmentError::InvalidInput <==> !valid_form(
                    form.name@,
                    form.email@,
                ))
                &&& e != EnrollmentError::NotificationFailed
            },
        },
{
    let new_subscriber = match NewSubscriber::try_from(form) {
        Ok(new_subscriber) => new_subscriber,
        Err(_) => {
            return Err(EnrollmentError::InvalidInput);
        },
    };
    match store.insert_pending_subscriber_and_token(&new_subscriber, token) {
        Ok(id) => Ok(id),
        Err(_) => Err(EnrollmentError::PersistenceFailed),
    }
}

/// Enrollment service, validation through persistence: validates the form,
/// draws a fresh confirmation token, and records subscriber and token in
/// one transaction. On success the caller builds the confirmation link from
/// the ticket, sends the email, and folds the outcome in through
/// `complete_enrollment`. An invalid form is always refused with
/// `InvalidInput` and writes nothing; `PersistenceFailed` can only arise
/// from a collision of the freshly drawn token, so a valid form is owed
/// success whenever the store holds no well-formed token at all.
pub fn enroll(store: &mut Store, form: FormData) -> (r: Result<EnrollmentTicket, EnrollmentError>)
    requires
        old(store)@.wf(),
    ensures
        final(store)@.wf(),
        match r {
            Ok(t) => {
                &&& valid_form(form.name@, form.email@)
                &&& is_well_formed_token(t.token@)
                &&& !old(store)@.has_token(t.token@)
                &&& old(store)@.enrollment_written(
                    final(store)@,
                    t.subscriber_id,
                    form.name@,
                    form.email@,
                    t.token@,
                )
                &&& final(store)@.has_token(t.token@)
                &&& final(store)@.token_owner(t.token@) == t.subscriber_id
            },
            Err(e) => {
                &&& final(store)@ == old(store)@
                &&& (e == EnrollmentError::InvalidInput <==> !valid_form(
                    form.name@,
                    form.email@,
                ))
                &&& e != EnrollmentError::NotificationFailed
            },
        },
        r is Err ==> (!valid_form(form.name@, form.email@) || exists|tok: Seq<char>|
            is_well_formed_token(tok) && #[trigger] old(store)@.has_token(tok)),
{
    let token = generate_subscription_token();
    let issued = token.clone();
    match enroll_with_token(store, form, token) {
        Ok(subscriber_id) => Ok(EnrollmentTicket { subscriber_id, token: issued }),
        Err(e) => {
            proof {
                if valid_form(form.name@, form.email@) {
                    assert(is_well_formed_token(issued@) && old(store)@.has_token(issued@));
                }
            }
            Err(e)
        },
    }
}

/// The confirmation link embedded in the email: the application's base URL,
/// the confirm route, and the token as its query parameter.
pub fn build_confirmation_link(base_url: &str, token: &str) -> (link: String)
    ensures
        link@ == base_url@ + "/subscriptions/confirm?subscription_token="@ + token@,
{
    let mut link = base_url.to_owned();
    link.append("/subscriptions/confirm?subscription_token=");
    link.append(token);
    link
}

/// The notification step's outcome folded into the enrollment result. The
/// store is not touched: a failed notification never rolls the subscriber
/// back — the row stays pending — but the enrollment as a whole reports
/// `NotificationFailed`.
pub fn complete_enrollment(notification: Result<(), NotifierError>) -> (r: Result<
    (),
    EnrollmentError,
>)
    ensures
        r is Ok <==> notification is Ok,
        r is Err ==> r == Err::<(), EnrollmentError>(EnrollmentError::NotificationFailed),
{
    match notification {
        Ok(()) => Ok(()),
        Err(_) => Err(EnrollmentError::NotificationFailed),
    }
}

} // verus!

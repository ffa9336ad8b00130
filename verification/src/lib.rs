//! Core of a mailing-list signup service.
//!
//! A visitor submits a name and an email address. The library validates the
//! submission into value objects that cannot exist in an invalid state,
//! records the new subscriber together with a single-use confirmation token
//! in one atomic step, prepares the confirmation email, and later resolves a
//! presented token to flip the subscriber to confirmed. The HTTP transport,
//! configuration loading and the actual database and email-API calls live
//! outside this crate; the rules they must follow are stated and proved here.

pub mod configurations;
pub mod confirmation;
pub mod domain;
pub mod email_client;
pub mod enrollment;
pub mod store;
pub mod token;

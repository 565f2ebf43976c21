//! Signatures: who did something, and when.

use crate::error::Error;
use vstd::prelude::*;

verus! {

/// A signature: a name, an e-mail address and a point in time.
#[derive(Clone, Debug, PartialEq, Eq)]
pub struct Signature {
    /// Name on the signature.
    pub name: String,
    /// Email on the signature.
    pub email: String,
    /// Time in seconds, from epoch
    pub timestamp: i64,
}

/// What choosing a signature comes to, of the one given and of what the
/// configuration yields.
pub open spec fn chosen<S>(given: Option<S>, configured: Option<S>) -> Result<S, Error> {
    match given {
        Some(s) => Ok(s),
        None => match configured {
            Some(s) => Ok(s),
            None => Err(Error::SignatureNotFound),
        },
    }
}

/// Chooses the signature of an operation: the one that was given, else the
/// one of the configuration, which `configured` looks up; it is not looked up
/// where one was given. Without either there is no signature, and the
/// operation cannot be done.
pub fn choose_signature<S, F>(given: Option<S>, configured: F) -> (choice: Result<S, Error>) where
    F: FnOnce() -> Option<S>,

    requires
        call_requires(configured, ()),
    ensures
        given is Some ==> choice == chosen(given, None),
        given is None ==> exists|found: Option<S>|
            call_ensures(configured, (), found) && choice == chosen(given, found),
{
    match given {
        Some(s) => Ok(s),
        None => {
            let found = configured();
            let ghost looked_up = found;
            let choice = match found {
                Some(s) => Ok(s),
                None => Err(Error::SignatureNotFound),
            };
            assert(call_ensures(configured, (), looked_up) && choice == chosen(given, looked_up));
            choice
        },
    }
}

} // verus!

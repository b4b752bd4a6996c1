//! The failure type of the transport that performs the transfers. It is
//! carried through unread; only its message is ever asked for.

use vstd::prelude::*;

verus! {

/// `reqwest::Error`, opaque to the proofs.
#[verifier::external_type_specification]
#[verifier::external_body]
pub struct ExTransportFailure(reqwest::Error);

/// The words of a failed transfer: `reqwest::Error` written through its
/// `Display`. Nothing is claimed of them.
#[verifier::external_body]
pub(crate) fn failure_message(failure: &reqwest::Error) -> (message: String) {
    failure.to_string()
}

} // verus!

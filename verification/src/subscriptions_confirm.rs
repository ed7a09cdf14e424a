//! The confirmation endpoint's query parameters.  Extracting them from the
//! request is the driver's work; a request whose token does not parse never
//! reaches the handler.

use vstd::prelude::*;

verus! {

/// The query parameters of a confirmation request.
pub struct Parameters {
    pub subscription_token: String,
}

} // verus!

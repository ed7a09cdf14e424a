//! Application-level wrapper types.  Retrieval from the request context is
//! type-based in the driver, so a raw string would be open to conflicts;
//! the wrapper gives the base url its own type.

use vstd::prelude::*;

verus! {

/// The base url the application is reachable under, used to build the
/// confirmation links that go out by mail.
pub struct ApplicationBaseUrl(pub String);

} // verus!

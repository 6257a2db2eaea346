//! Application-wide values that the request handlers share.

use vstd::prelude::*;

verus! {

/// The secret key with which the error messages handed to the login form
/// are signed.
pub struct HmacSecret(pub String);

} // verus!

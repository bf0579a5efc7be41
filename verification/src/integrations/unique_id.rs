//! Random identifiers, from the `uuid` crate.
//!
//! Nothing in this file is proved: the function below makes the call and
//! states what the crate's source shows of every result.

use uuid::Uuid;
use vstd::prelude::*;

verus! {

/// `Uuid::new_v4()` written out with `to_string()`: a fresh random
/// identifier in its hyphenated form, which is 36 characters long. Which
/// identifier comes back is left open: two calls differ.
#[verifier::external_body]
pub(crate) fn random_id() -> (id: String)
    ensures
        id@.len() == 36,
{
    Uuid::new_v4().to_string()
}

} // verus!

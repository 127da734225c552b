use vstd::prelude::*;

verus! {

#[verifier::external_type_specification]
#[verifier::external_body]
pub struct ExAnyhowError(anyhow::Error);

/// Relies on anyhow::Error::msg: wraps a plain message string as an opaque
/// error value for the reporting layer around the library.
#[verifier::external_body]
pub fn string_to_err(s: String) -> anyhow::Error {
    anyhow::Error::msg(s)
}

} // verus!

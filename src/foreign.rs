use vstd::prelude::*;

verus! {

/// A JSON value of serde_json, carried through the endpoint without being read.
#[verifier::external_type_specification]
#[verifier::external_body]
pub struct ExJsonValue(serde_json::Value);

/// The chat service's error, of anyhow.
#[verifier::external_type_specification]
#[verifier::external_body]
pub struct ExServiceError(anyhow::Error);

} // verus!

//! JSON values that the models carry without interpreting them.
use vstd::prelude::*;
pub use serde_json::Value;

verus! {

/// An arbitrary JSON value, carried through unchanged.
#[verifier::external_type_specification]
#[verifier::external_body]
pub struct ExJsonValue(serde_json::Value);

/// `serde_json::Value::clone` (derived by serde_json): a deep copy. Nothing is stated of the
/// copy, since a JSON value is opaque here; the models only carry such values.
pub assume_specification[ <serde_json::Value as Clone>::clone ](v: &serde_json::Value) -> (r: serde_json::Value);

} // verus!

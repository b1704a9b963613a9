//! Arbitrary JSON values (ABAC context), which the models carry without
//! reading them.

use vstd::prelude::*;

verus! {

#[verifier::external_type_specification]
#[verifier::external_body]
pub struct ExJsonValue(serde_json::Value);

} // verus!

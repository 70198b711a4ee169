//! Updating a customer.
use vstd::prelude::*;
use crate::error::AppError;
use crate::graphql::{spec_mutation_id_outcome, mutation_id_outcome};
use crate::json::JsonValue;

verus! {

/// The updated customer's GID from a `customerUpdate` response: user errors
/// are reported as "Failed to update customer: [..]", a missing id as "No
/// customer ID in response".
pub fn customer_update_outcome(resp: &JsonValue) -> (r: Result<String, AppError>)
    ensures
        spec_mutation_id_outcome(
            r,
            *resp,
            "customerUpdate"@,
            "userErrors"@,
            "Failed to update customer: "@,
            "customer"@,
            "No customer ID in response"@,
        ),
{
    mutation_id_outcome(
        resp,
        "customerUpdate",
        "userErrors",
        "Failed to update customer: ",
        "customer",
        "No customer ID in response",
    )
}

} // verus!

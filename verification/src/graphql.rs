//! Interpreting GraphQL mutation and query responses: user-error checks and
//! extraction of the identifiers a mutation returns.
use vstd::prelude::*;
use crate::error::{AppError, is_other_error, other_error};
use crate::json::{
    JsonValue, spec_get, spec_get_opt, spec_as_str_opt, spec_as_array_opt, spec_debug_list,
    deref_opt, get, get_opt, as_str_opt, as_array_opt, debug_list,
};

verus! {

/// The array found at `root.errors_key`, if there is one.
pub open spec fn spec_user_errors(resp: JsonValue, root: Seq<char>, errors_key: Seq<char>) -> Option<
    Seq<JsonValue>,
> {
    spec_as_array_opt(spec_get_opt(spec_get(resp, root), errors_key))
}

/// The response passes the user-error check: no error array, or an empty one.
pub open spec fn spec_no_user_errors(resp: JsonValue, root: Seq<char>, errors_key: Seq<char>) -> bool {
    match spec_user_errors(resp, root, errors_key) {
        Some(errs) => errs.len() == 0,
        None => true,
    }
}

/// The message for a non-empty error array: `prefix` then the debug text of
/// the array.
pub open spec fn spec_user_errors_message(
    resp: JsonValue,
    root: Seq<char>,
    errors_key: Seq<char>,
    prefix: Seq<char>,
) -> Seq<char> {
    prefix + spec_debug_list(spec_user_errors(resp, root, errors_key)->0)
}

/// Fails when the response reports user errors at `root.errors_key`; the
/// message is `prefix` followed by the debug text of the error array.
pub fn check_user_errors(resp: &JsonValue, root: &str, errors_key: &str, prefix: &str) -> (r: Result<
    (),
    AppError,
>)
    ensures
        r is Ok <==> spec_no_user_errors(*resp, root@, errors_key@),
        r matches Err(e) ==> is_other_error(e, spec_user_errors_message(*resp, root@, errors_key@, prefix@)),
{
    let errors = as_array_opt(get_opt(get(resp, root), errors_key));
    match errors {
        Some(errs) => {
            if errs.len() > 0 {
                let mut msg = String::from_str(prefix);
                let d = debug_list(errs);
                msg.append(d.as_str());
                Err(AppError::OtherError(msg))
            } else {
                Ok(())
            }
        },
        None => Ok(()),
    }
}

/// The string at `root.payload.id`.
pub open spec fn spec_payload_id(resp: JsonValue, root: Seq<char>, payload: Seq<char>) -> Option<Seq<char>> {
    spec_as_str_opt(spec_get_opt(spec_get_opt(spec_get(resp, root), payload), "id"@))
}

/// The identifier at `root.payload.id`, or an error with text `missing`.
pub fn payload_id(resp: &JsonValue, root: &str, payload: &str, missing: &str) -> (r: Result<String, AppError>)
    ensures
        match spec_payload_id(*resp, root@, payload@) {
            Some(id) => r matches Ok(s) && s@ == id,
            None => r matches Err(e) && is_other_error(e, missing@),
        },
{
    let id = as_str_opt(get_opt(get_opt(get(resp, root), payload), "id"));
    match id {
        Some(s) => Ok(s.clone()),
        None => Err(other_error(missing)),
    }
}

/// What a create-style mutation answers: its user errors if any, else the
/// new identifier, else the `missing` error.
pub open spec fn spec_mutation_id_outcome(
    r: Result<String, AppError>,
    resp: JsonValue,
    root: Seq<char>,
    errors_key: Seq<char>,
    prefix: Seq<char>,
    payload: Seq<char>,
    missing: Seq<char>,
) -> bool {
    if !spec_no_user_errors(resp, root, errors_key) {
        r matches Err(e) && is_other_error(e, spec_user_errors_message(resp, root, errors_key, prefix))
    } else {
        match spec_payload_id(resp, root, payload) {
            Some(id) => r matches Ok(s) && s@ == id,
            None => r matches Err(e) && is_other_error(e, missing),
        }
    }
}

/// The user-error check followed by the identifier at `root.payload.id`.
pub fn mutation_id_outcome(
    resp: &JsonValue,
    root: &str,
    errors_key: &str,
    prefix: &str,
    payload: &str,
    missing: &str,
) -> (r: Result<String, AppError>)
    ensures
        spec_mutation_id_outcome(r, *resp, root@, errors_key@, prefix@, payload@, missing@),
{
    match check_user_errors(resp, root, errors_key, prefix) {
        Err(e) => Err(e),
        Ok(()) => payload_id(resp, root, payload, missing),
    }
}

/// The string at `node.id` of the first element of the array at
/// `root.edges` (a connection's first node).
pub open spec fn spec_first_edge_node_id(resp: JsonValue, root: Seq<char>) -> Option<Seq<char>> {
    match spec_as_array_opt(spec_get_opt(spec_get(resp, root), "edges"@)) {
        Some(edges) => if edges.len() > 0 {
            spec_as_str_opt(spec_get_opt(spec_get(edges[0], "node"@), "id"@))
        } else {
            None
        },
        None => None,
    }
}

/// The identifier of the first node of the connection at `root`.
pub fn first_edge_node_id(resp: &JsonValue, root: &str) -> (r: Option<String>)
    ensures
        match r {
            Some(s) => spec_first_edge_node_id(*resp, root@) == Some(s@),
            None => spec_first_edge_node_id(*resp, root@) is None,
        },
{
    let edges = as_array_opt(get_opt(get(resp, root), "edges"));
    match edges {
        Some(arr) => {
            if arr.len() > 0 {
                let id = as_str_opt(get_opt(get(&arr[0], "node"), "id"));
                match id {
                    Some(s) => Some(s.clone()),
                    None => None,
                }
            } else {
                None
            }
        },
        None => None,
    }
}

} // verus!

verus! {

/// The error prefix of a mutation's user errors: `<root> userErrors: `.
pub open spec fn spec_user_errors_prefix(root: Seq<char>) -> Seq<char> {
    root + " userErrors: "@
}

fn user_errors_prefix(root: &str) -> (r: String)
    ensures
        r@ == spec_user_errors_prefix(root@),
{
    let mut p = String::from_str(root);
    p.append(" userErrors: ");
    p
}

/// The outcome of a mutation that answers nothing but its user errors.
pub open spec fn spec_user_error_check(r: Result<(), AppError>, resp: JsonValue, root: Seq<char>) -> bool {
    &&& (r is Ok <==> spec_no_user_errors(resp, root, "userErrors"@))
    &&& (r matches Err(e) ==> is_other_error(
        e,
        spec_user_errors_message(resp, root, "userErrors"@, spec_user_errors_prefix(root)),
    ))
}

/// Fails with "<root> userErrors: [..]" when `root.userErrors` is a
/// non-empty array.
pub fn user_error_check(resp: &JsonValue, root: &str) -> (r: Result<(), AppError>)
    ensures
        spec_user_error_check(r, *resp, root@),
{
    let prefix = user_errors_prefix(root);
    check_user_errors(resp, root, "userErrors", prefix.as_str())
}

/// The outcome of a create mutation that answers `root.payload.id`.
pub open spec fn spec_created_id(
    r: Result<String, AppError>,
    resp: JsonValue,
    root: Seq<char>,
    payload: Seq<char>,
    missing: Seq<char>,
) -> bool {
    spec_mutation_id_outcome(r, resp, root, "userErrors"@, spec_user_errors_prefix(root), payload, missing)
}

/// User errors as "<root> userErrors: [..]", then the id at
/// `root.payload.id`, else the error `missing`.
pub fn created_id(resp: &JsonValue, root: &str, payload: &str, missing: &str) -> (r: Result<String, AppError>)
    ensures
        spec_created_id(r, *resp, root@, payload@, missing@),
{
    let prefix = user_errors_prefix(root);
    mutation_id_outcome(resp, root, "userErrors", prefix.as_str(), payload, missing)
}

} // verus!
verus! {

/// A create-style mutation succeeds exactly when it reports no user errors
/// and a new identifier, and then returns that identifier, the text at
/// `root.payload.id`; with user errors it fails.
pub proof fn lemma_mutation_id_outcome_returns_new_id(
    r: Result<String, AppError>,
    resp: JsonValue,
    root: Seq<char>,
    errors_key: Seq<char>,
    prefix: Seq<char>,
    payload: Seq<char>,
    missing: Seq<char>,
)
    requires
        spec_mutation_id_outcome(r, resp, root, errors_key, prefix, payload, missing),
    ensures
        r matches Ok(s) ==> spec_as_str_opt(spec_get_opt(spec_get_opt(spec_get(resp, root), payload), "id"@)) == Some(
            s@,
        ),
        r is Ok <==> ({
            &&& match spec_as_array_opt(spec_get_opt(spec_get(resp, root), errors_key)) {
                Some(errs) => errs.len() == 0,
                None => true,
            }
            &&& spec_as_str_opt(spec_get_opt(spec_get_opt(spec_get(resp, root), payload), "id"@)) is Some
        }),
{
}

} // verus!

//! The library's error type.
use vstd::prelude::*;
use crate::json::JsonValue;

verus! {

/// `anyhow::Error`, carried by some error variants.
#[verifier::external_type_specification]
#[verifier::external_body]
pub struct ExAnyhowError(anyhow::Error);

/// Errors of the toolkit. Display texts, in order: "GQL Client error when
/// attempting query", "TAKEN", "Unable to Connect to Mongo DB!",
/// "No Object ID Found", "Invalid API Error", and the message itself.
#[derive(Debug)]
pub enum AppError {
    GraphQlErrorQueryAttempt(anyhow::Error),
    MetaObjectDefinitionCreateError(anyhow::Error),
    MongoDBErrorConnection(anyhow::Error),
    ErrorNoObjectID(anyhow::Error),
    InvalidApiResponse(anyhow::Error),
    OtherError(String),
}

/// `AppError::OtherError` carrying exactly the text `msg`.
pub open spec fn is_other_error(e: AppError, msg: Seq<char>) -> bool {
    e matches AppError::OtherError(m) && m@ == msg
}

/// An error a mutation reports to its caller.
#[derive(Debug)]
pub struct UserError {
    pub code: Option<String>,
    pub field: Option<Vec<JsonValue>>,
    pub message: Option<String>,
}

/// An `AppError::OtherError` with the given text.
pub fn other_error(msg: &str) -> (e: AppError)
    ensures
        is_other_error(e, msg@),
{
    AppError::OtherError(String::from_str(msg))
}

/// An `anyhow::Error` whose message is empty.
///
/// Trusted: calls `anyhow::Error::msg("")`; nothing is stated of the value.
#[verifier::external_body]
pub(crate) fn empty_anyhow_error() -> anyhow::Error {
    anyhow::Error::msg("")
}

} // verus!

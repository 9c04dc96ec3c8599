//! The outside values and calls that the library relies on: serde_json's
//! parser and encoder, and async-graphql's request and response types.

use std::collections::HashMap;
use vstd::prelude::*;

verus! {

#[verifier::external_type_specification]
#[verifier::external_body]
pub struct ExJsonValue(serde_json::Value);

#[verifier::external_type_specification]
#[verifier::external_body]
pub struct ExJsonError(serde_json::Error);

#[verifier::external_type_specification]
#[verifier::external_body]
pub struct ExGraphQLValue(async_graphql::Value);

#[verifier::external_type_specification]
#[verifier::external_body]
pub struct ExName(async_graphql::Name);

#[verifier::external_type_specification]
#[verifier::external_body]
pub struct ExVariables(async_graphql::Variables);

#[verifier::external_type_specification]
#[verifier::external_body]
pub struct ExRequest(async_graphql::Request);

#[verifier::external_type_specification]
#[verifier::external_body]
pub struct ExResponse(async_graphql::Response);

/// Whether serde_json accepts the text as one JSON value.
pub uninterp spec fn json_text_parses(s: Seq<char>) -> bool;

/// Whether serde_json accepts the text as a JSON object whose entries are
/// GraphQL values.
pub uninterp spec fn extensions_text_parses(s: Seq<char>) -> bool;

/// Relies on `serde_json::from_str` into `serde_json::Value`: it succeeds
/// exactly on the texts that hold one JSON value.
#[verifier::external_body]
pub(crate) fn parse_json(text: &String) -> (r: Result<serde_json::Value, serde_json::Error>)
    ensures
        r is Ok == json_text_parses(text@),
{
    serde_json::from_str::<serde_json::Value>(text.as_str())
}

/// Relies on `serde_json::from_str` into a map of GraphQL values: it succeeds
/// exactly on the texts that hold such an object.
#[verifier::external_body]
pub(crate) fn parse_extensions(text: &String) -> (r: Result<
    HashMap<String, async_graphql::Value>,
    serde_json::Error,
>)
    ensures
        r is Ok == extensions_text_parses(text@),
{
    serde_json::from_str::<HashMap<String, async_graphql::Value>>(text.as_str())
}

/// The JSON text that serde_json makes of an execution result, or `None`
/// where it cannot encode it.
pub uninterp spec fn encoding_of(r: async_graphql::Response) -> Option<Seq<char>>;

/// Relies on `serde_json::to_string` to encode one execution result: the
/// outcome depends on the result alone.
#[verifier::external_body]
pub(crate) fn encode_response(response: &async_graphql::Response) -> (r: Result<
    String,
    serde_json::Error,
>)
    ensures
        r is Ok == encoding_of(*response) is Some,
        r is Ok ==> r->Ok_0@ == encoding_of(*response)->0,
{
    serde_json::to_string(response)
}

/// Relies on `async_graphql::Request::new` to start a request from its
/// operation text.
#[verifier::external_body]
pub(crate) fn new_request(text: String) -> (r: async_graphql::Request) {
    async_graphql::Request::new(text)
}

/// Relies on `async_graphql::Request::operation_name` to set the operation
/// name.
#[verifier::external_body]
pub(crate) fn set_operation_name(request: async_graphql::Request, name: String) -> (r:
    async_graphql::Request) {
    request.operation_name(name)
}

/// Relies on `async_graphql::Variables::from_json` to turn a JSON value into
/// request variables.
#[verifier::external_body]
pub(crate) fn variables_from_json(value: serde_json::Value) -> (r: async_graphql::Variables) {
    async_graphql::Variables::from_json(value)
}

/// Relies on `async_graphql::Request::variables` to set the variables.
#[verifier::external_body]
pub(crate) fn set_variables(request: async_graphql::Request, variables: async_graphql::Variables) -> (r:
    async_graphql::Request) {
    request.variables(variables)
}

/// Relies on the public `extensions` field of `async_graphql::Request`.
#[verifier::external_body]
pub(crate) fn set_extensions(
    request: async_graphql::Request,
    extensions: HashMap<String, async_graphql::Value>,
) -> (r: async_graphql::Request) {
    let mut request = request;
    request.extensions = extensions;
    request
}

} // verus!

//! Preparation of a query execution: parsing and validating the schema and
//! the query document through the engine, and parsing the root data tree.
//!
//! The engine performs GraphQL parsing, validation and execution; this
//! module drives its parse and validate steps in order and maps every
//! failure to the error kind the host is owed: a [`GraphQlError::Validation`]
//! before execution starts, a [`GraphQlError::Execution`] once the engine
//! runs. The execution call itself takes a resolver implementation of the
//! engine's callback trait and so lives with the host boundary, which hands
//! each callback to the verified resolution logic.

use vstd::prelude::*;
use crate::data::JsonData;

verus! {

/// Declares `apollo_compiler::Schema`, the engine's parsed schema.
#[verifier::external_type_specification]
#[verifier::external_body]
pub struct ExSchema(apollo_compiler::Schema);

/// Declares `apollo_compiler::ExecutableDocument`, the engine's parsed
/// query document.
#[verifier::external_type_specification]
#[verifier::external_body]
pub struct ExExecutableDocument(apollo_compiler::ExecutableDocument);

/// Declares `apollo_compiler::validation::Valid`, the engine's marker for a
/// schema or document that passed validation.
#[verifier::external_type_specification]
#[verifier::external_body]
#[verifier::reject_recursive_types(T)]
pub struct ExValid<T>(apollo_compiler::validation::Valid<T>);

/// The errors the execution façade surfaces to the host.
#[derive(Debug)]
pub enum GraphQlError {
    /// The schema or the query failed to parse or validate, or the root
    /// data text was not valid JSON. Execution was not attempted.
    Validation(String),
    /// The engine reported a failure from its execution call.
    Execution(String),
}

/// A schema and a query document, both validated and ready to execute.
pub struct PreparedQuery {
    /// The validated schema.
    pub schema: apollo_compiler::validation::Valid<apollo_compiler::Schema>,
    /// The validated query document.
    pub document: apollo_compiler::validation::Valid<apollo_compiler::ExecutableDocument>,
}

/// Whether `apollo_compiler::Schema::parse_and_validate` accepts the SDL
/// text `sdl`. Acceptance is a function of the text alone.
pub uninterp spec fn schema_accepted(sdl: Seq<char>) -> bool;

/// Whether `apollo_compiler::ExecutableDocument::parse_and_validate`
/// accepts the query text `query` against the schema built from `sdl`.
/// Acceptance is a function of the two texts alone.
pub uninterp spec fn document_accepted(sdl: Seq<char>, query: Seq<char>) -> bool;

/// Whether `serde_json::from_str` accepts `text` as a JSON document.
/// Acceptance is a function of the text alone.
pub uninterp spec fn json_accepted(text: Seq<char>) -> bool;

/// Relies on `apollo_compiler::Schema::parse_and_validate` and
/// `apollo_compiler::ExecutableDocument::parse_and_validate`: each accepts
/// or rejects as a function of the given texts alone, and returns its
/// diagnostics instead of panicking. The two calls share this one wrapper
/// because the schema value tying them together is opaque: only here can
/// the document's acceptance be stated over the SDL text it came from.
#[verifier::external_body]
fn parse_and_validate(sdl: &str, query: &str) -> (r: Result<PreparedQuery, String>)
    ensures
        r is Ok <==> (schema_accepted(sdl@) && document_accepted(sdl@, query@)),
{
    let schema = apollo_compiler::Schema::parse_and_validate(sdl, "schema.graphql")
        .map_err(|e| format!("{:?}", e))?;
    let document =
        apollo_compiler::ExecutableDocument::parse_and_validate(&schema, query, "query.graphql")
            .map_err(|e| format!("{:?}", e))?;
    Ok(PreparedQuery { schema, document })
}

/// Relies on `serde_json::from_str`: parses JSON text into a JSON tree —
/// accepting as a function of the text alone — or reports the parse error
/// as text.
#[verifier::external_body]
fn json_from_str(text: &str) -> (r: Result<serde_json::Value, String>)
    ensures
        r is Ok <==> json_accepted(text@),
{
    match serde_json::from_str::<serde_json::Value>(text) {
        Ok(v) => Ok(v),
        Err(e) => Err(e.to_string()),
    }
}

/// Relies on the variants of `serde_json::Value`: each is moved one for one
/// into the matching [`JsonData`] variant; an array is kept whole, and an
/// object's entries are converted in the order serde_json's map yields
/// them — sorted by key in this build. Parsed objects have unique keys, so
/// field lookup does not depend on that order.
#[verifier::external_body]
fn data_of_value(v: serde_json::Value) -> (r: JsonData) {
    match v {
        serde_json::Value::Null => JsonData::Null,
        serde_json::Value::Bool(b) => JsonData::Bool(b),
        serde_json::Value::Number(n) => JsonData::Number(n),
        serde_json::Value::String(s) => JsonData::Str(s),
        a @ serde_json::Value::Array(_) => JsonData::Array(a),
        serde_json::Value::Object(map) => JsonData::Object(
            map.into_iter().map(|(k, w)| (k, data_of_value(w))).collect(),
        ),
    }
}

/// Parses and validates the schema, then parses and validates the query
/// document against it. The engine accepts a pair of texts exactly when
/// both acceptance conditions hold; every rejection is surfaced as a
/// [`GraphQlError::Validation`] holding the engine's diagnostic text, and
/// execution is not attempted.
pub fn prepare_query(sdl: &str, query: &str) -> (r: Result<PreparedQuery, GraphQlError>)
    ensures
        r is Ok <==> (schema_accepted(sdl@) && document_accepted(sdl@, query@)),
        r matches Err(e) ==> e matches GraphQlError::Validation(_),
{
    match parse_and_validate(sdl, query) {
        Ok(p) => Ok(p),
        Err(m) => Err(GraphQlError::Validation(m)),
    }
}

/// Parses the root data JSON text and converts it into the data tree the
/// data-dict adapter resolves over. The text is accepted exactly when it
/// is valid JSON; a rejection is surfaced as a [`GraphQlError::Validation`]
/// holding the JSON parser's diagnostic text.
pub fn parse_root_data(text: &str) -> (r: Result<JsonData, GraphQlError>)
    ensures
        r is Ok <==> json_accepted(text@),
        r matches Err(e) ==> e matches GraphQlError::Validation(_),
{
    match json_from_str(text) {
        Ok(v) => Ok(data_of_value(v)),
        Err(m) => Err(GraphQlError::Validation(m)),
    }
}

} // verus!

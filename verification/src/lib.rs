//! A bridge that lets a dynamic host runtime execute GraphQL queries against
//! schemas and resolver objects defined in that host, by delegating parsing,
//! validation and execution to the `apollo_compiler` engine.
//!
//! The verified core is the boundary logic: translating field names between
//! the GraphQL and host naming styles ([`names`]), classifying and marshaling
//! host values into the engine's resolved-value shapes ([`host`]), resolving
//! fields of an already-materialized JSON data tree ([`data`]), and preparing
//! a schema/query pair for execution ([`engine`]).

pub mod data;
pub mod engine;
pub mod host;
pub mod names;

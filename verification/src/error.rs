//! The client's error taxonomy.
//!
//! Exactly one of these outcomes is produced per call; nothing is retried
//! or swallowed.

use vstd::prelude::*;

verus! {

/// One entry of the gateway's `errors` array: its `message` text.
#[derive(Debug)]
#[verifier::ext_equal]
pub struct HasuraError {
    pub message: String,
}

/// Everything `post_query` can fail with.
#[derive(Debug)]
pub enum HasuraGraphQLClientError {
    /// The HTTP exchange itself failed: the transport reported an error
    /// (`None`), or the response status was outside the success range
    /// (`Some(status)`).
    TransportError(Option<u16>),
    /// The response body is not valid JSON, or its `errors` value does not
    /// have the expected shape.
    BodyParseError,
    /// The gateway reported application-level GraphQL errors.
    GraphqlError(Vec<HasuraError>),
    /// The body is valid JSON with neither `errors` nor `data`: the gateway
    /// broke the envelope contract.
    MissingDataError,
    /// The `data` payload does not match the shape the caller asked for.
    DecodeError,
}

} // verus!

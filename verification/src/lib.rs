//! A minimal client for a Hasura GraphQL gateway.
//!
//! The client posts a query (with optional variables) to one endpoint,
//! authenticating with either a per-call bearer token or the configured
//! admin secret, and unwraps the gateway's response envelope into a typed
//! outcome: the `data` payload, the GraphQL error list, or a distinct
//! error for a transport failure, an unparsable body, or a malformed
//! envelope. The HTTP transport and the JSON encoding are done by outside
//! libraries; everything the client itself decides is specified and
//! verified here.

pub mod client;
pub mod codec;
pub mod envelope;
pub mod error;
pub mod json;
pub mod request;

pub use client::HasuraGraphQLClient;
pub use codec::render_json;
pub use envelope::interpret_response;
pub use error::HasuraError;
pub use error::HasuraGraphQLClientError;
pub use json::JsonValue;
pub use request::GraphQLRequest;

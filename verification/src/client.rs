//! The client's configuration: transport handle, endpoint, credential.
//!
//! The admin secret is held in `secrecy`'s wrapper, which keeps it out of
//! debug output and hands the raw string back only on an explicit call;
//! `secret_chars` names what a wrapper holds, and the contracts below say
//! that the configured secret, and nothing else, is what the admin-secret
//! header carries.

use vstd::prelude::*;
use vstd::string::StringExecFns;

verus! {

#[verifier::external_type_specification]
#[verifier::external_body]
pub struct ExClient(reqwest::Client);

/// Relies on `reqwest`'s `Clone for Client`: a second handle on the same
/// shared transport. Nothing is claimed of the copy.
pub assume_specification[ <reqwest::Client as Clone>::clone ](
    c: &reqwest::Client,
) -> reqwest::Client;

/// The admin secret, inside `secrecy`'s wrapper, which keeps it out of
/// debug output. The wrapper's `Zeroize` bound keeps its type from being
/// declared here, so it is held behind this opaque struct; `secret_chars`
/// names what it holds, and the two accessors below say how it moves.
#[derive(Debug)]
#[verifier::external_body]
pub struct AdminSecret {
    inner: secrecy::Secret<String>,
}

/// The string an `AdminSecret` holds.
pub uninterp spec fn secret_chars(s: AdminSecret) -> Seq<char>;

/// Relies on `secrecy::Secret::new`: wraps the given string, unchanged.
#[verifier::external_body]
fn new_secret(value: String) -> (r: AdminSecret)
    ensures
        secret_chars(r) == value@,
{
    AdminSecret { inner: secrecy::Secret::new(value) }
}

/// Relies on `secrecy::ExposeSecret::expose_secret`: hands back the wrapped
/// string, unchanged.
#[verifier::external_body]
fn expose_secret_value(s: &AdminSecret) -> (r: &String)
    ensures
        r@ == secret_chars(*s),
{
    secrecy::ExposeSecret::expose_secret(&s.inner)
}

impl Clone for AdminSecret {
    /// Relies on `secrecy`'s `Clone for Secret`: the copy wraps the same
    /// string.
    #[verifier::external_body]
    fn clone(&self) -> (r: Self)
        ensures
            secret_chars(r) == secret_chars(*self),
    {
        AdminSecret { inner: self.inner.clone() }
    }
}

/// Relies on `reqwest::Client::default`: a fresh transport handle with the
/// library's default configuration, shareable across calls.
#[verifier::external_body]
fn default_http_client() -> reqwest::Client {
    reqwest::Client::default()
}

/// The one authentication header of a request: with a bearer token, the
/// `Authorization` header carrying `Bearer <token>`; without one, the
/// `x-hasura-admin-secret` header carrying the configured secret.
pub open spec fn spec_auth_header(secret: Seq<char>, bearer: Option<Seq<char>>) -> (
    Seq<char>,
    Seq<char>,
) {
    match bearer {
        Some(t) => ("Authorization"@, "Bearer "@ + t),
        None => ("x-hasura-admin-secret"@, secret),
    }
}

/// A handle on one GraphQL gateway: the HTTP transport, the endpoint URL,
/// and the admin secret. Immutable once built.
#[derive(Clone, Debug)]
pub struct HasuraGraphQLClient {
    http_client: reqwest::Client,
    api_url: String,
    hasura_admin_secret: AdminSecret,
}

impl HasuraGraphQLClient {
    /// The configured endpoint URL, as text.
    pub closed spec fn spec_api_url(self) -> Seq<char> {
        self.api_url@
    }

    /// The configured admin secret, as text.
    pub closed spec fn spec_admin_secret(self) -> Seq<char> {
        secret_chars(self.hasura_admin_secret)
    }

    /// A client for the gateway at `api_url`, authenticating with
    /// `hasura_admin_secret` where a call brings no bearer token. The URL
    /// is not validated here; a bad one surfaces from the transport at call
    /// time.
    pub fn new(api_url: &str, hasura_admin_secret: &str) -> (r: Self)
        ensures
            r.spec_api_url() == api_url@,
            r.spec_admin_secret() == hasura_admin_secret@,
    {
        let http_client = default_http_client();
        HasuraGraphQLClient {
            http_client,
            api_url: api_url.to_owned(),
            hasura_admin_secret: new_secret(hasura_admin_secret.to_owned()),
        }
    }

    /// The configured endpoint URL.
    pub fn api_url(&self) -> (r: &str)
        ensures
            r@ == self.spec_api_url(),
    {
        self.api_url.as_str()
    }

    /// The shared transport handle.
    pub fn http_client(&self) -> &reqwest::Client {
        &self.http_client
    }

    /// The name and value of the request's one authentication header.
    pub fn auth_header(&self, bearer_token: Option<&str>) -> (r: (String, String))
        ensures
            r.0@ == spec_auth_header(
                self.spec_admin_secret(),
                match bearer_token {
                    Some(t) => Some(t@),
                    None => None,
                },
            ).0,
            r.1@ == spec_auth_header(
                self.spec_admin_secret(),
                match bearer_token {
                    Some(t) => Some(t@),
                    None => None,
                },
            ).1,
    {
        match bearer_token {
            Some(token) => {
                let value = String::from_str("Bearer ").concat(token);
                ("Authorization".to_owned(), value)
            },
            None => {
                let secret = expose_secret_value(&self.hasura_admin_secret);
                ("x-hasura-admin-secret".to_owned(), secret.clone())
            },
        }
    }
}

/// Exactly one authentication header is ever chosen, and the two never
/// coincide: a bearer token selects `Authorization` with `Bearer <token>`
/// and not the admin-secret header, even though a secret is configured;
/// without a token the admin-secret header carries exactly the configured
/// secret, and the bearer header is not chosen.
pub proof fn lemma_auth_header_exclusive(secret: Seq<char>, bearer: Option<Seq<char>>)
    ensures
        bearer matches Some(t) ==> spec_auth_header(secret, bearer) == ("Authorization"@, "Bearer "@
            + t),
        bearer is Some ==> spec_auth_header(secret, bearer).0 != "x-hasura-admin-secret"@,
        bearer is None ==> spec_auth_header(secret, bearer) == ("x-hasura-admin-secret"@, secret),
        bearer is None ==> spec_auth_header(secret, bearer).0 != "Authorization"@,
{
    reveal_strlit("Authorization");
    reveal_strlit("x-hasura-admin-secret");
    assert("Authorization"@.len() == 13);
    assert("x-hasura-admin-secret"@.len() == 21);
}

} // verus!

//! A verified client core for a remote DNS/CDN management API.
//!
//! Every response of the service arrives wrapped in a common envelope
//! (`result`, `success`, `errors`, `messages`, `result_info`); list endpoints
//! page their results. This crate holds the logic of that protocol: the
//! client configuration, the envelope model and its success/failure
//! classification, the page-walking state machine, and the composer that
//! turns structured record filters into ordered query parameters. The
//! transport itself (HTTP, JSON (de)serialization) is left to callers, which
//! hand the raw outcomes back in as plain values.

use vstd::prelude::*;

pub mod envelope;
pub mod errors;
pub mod pagination;
pub mod query;
pub mod user_api;
pub mod zones;

pub use errors::ApiError;

verus! {

/// Relies on `url::Url::parse` followed by `Url::as_str`: the result is the
/// normalized serialization of the input when it parses as an absolute URL,
/// and `None` when it does not.
pub uninterp spec fn parsed_url(s: Seq<char>) -> Option<Seq<char>>;

/// Relies on `url::Url::parse`: returns the parse error unless the input is
/// a valid absolute URL, in which case it returns the URL's serialization.
/// The `url` sources maintain the invariant that a serialization reparses to
/// itself, which the last clause records.
#[verifier::external_body]
fn parse_base_url(s: &str) -> (r: Result<String, url::ParseError>)
    ensures
        r is Ok <==> parsed_url(s@) is Some,
        r matches Ok(u) ==> parsed_url(s@) == Some(u@),
        r matches Ok(u) ==> parsed_url(u@) == Some(u@),
{
    match url::Url::parse(s) {
        Ok(u) => Ok(String::from(u)),
        Err(e) => Err(e),
    }
}

/// Which credential fields are sent with a request.
///
/// Only the key/email mode is exercised by the accessors in scope; the
/// user-service-key mode exists for completeness.
#[derive(Debug, Clone, Copy, PartialEq, Eq, Structural)]
pub enum AuthType {
    AuthKeyEmail,
    AuthUserService,
}

/// The configuration of one client: credentials plus the base URL every
/// request path is resolved against. Immutable after construction.
#[derive(Debug)]
pub struct Cloudflare {
    api_key: String,
    api_email: String,
    api_user_service_key: Option<String>,
    organization_id: Option<String>,
    base_url: String,
    auth_type: AuthType,
}

impl Cloudflare {
    /// The stored API key, as a sequence of characters.
    pub closed spec fn spec_api_key(self) -> Seq<char> {
        self.api_key@
    }

    /// The stored account email, as a sequence of characters.
    pub closed spec fn spec_api_email(self) -> Seq<char> {
        self.api_email@
    }

    /// The stored base URL, as a sequence of characters.
    pub closed spec fn spec_base_url(self) -> Seq<char> {
        self.base_url@
    }

    /// The stored optional user service key.
    pub closed spec fn spec_user_service_key(self) -> Option<String> {
        self.api_user_service_key
    }

    /// The stored optional organization id.
    pub closed spec fn spec_organization_id(self) -> Option<String> {
        self.organization_id
    }

    /// The stored authentication mode.
    pub closed spec fn spec_auth_type(self) -> AuthType {
        self.auth_type
    }

    /// No partially-valid client exists: the base URL is either a valid
    /// absolute URL (kept in normalized form) or construction fails whole.
    pub open spec fn wf(self) -> bool {
        parsed_url(self.spec_base_url()) == Some(self.spec_base_url())
    }

    /// Builds a client from an API key, an account email and a base URL.
    ///
    /// Fails with [`ApiError::Url`] exactly when the base URL does not parse as
    /// an absolute URL; otherwise the client holds the credentials unchanged
    /// and the normalized base URL, in key/email auth mode.
    pub fn new(key: &str, email: &str, base_url: &str) -> (r: Result<Cloudflare, ApiError>)
        ensures
            r is Ok <==> parsed_url(base_url@) is Some,
            r matches Ok(c) ==> {
                &&& c.wf()
                &&& c.spec_api_key() == key@
                &&& c.spec_api_email() == email@
                &&& c.spec_user_service_key() is None
                &&& c.spec_organization_id() is None
                &&& Some(c.spec_base_url()) == parsed_url(base_url@)
                &&& c.spec_auth_type() == AuthType::AuthKeyEmail
            },
            r matches Err(e) ==> e is Url,
    {
        match parse_base_url(base_url) {
            Ok(normalized) => Ok(Cloudflare {
                api_key: key.to_owned(),
                api_email: email.to_owned(),
                api_user_service_key: None,
                organization_id: None,
                base_url: normalized,
                auth_type: AuthType::AuthKeyEmail,
            }),
            Err(e) => Err(ApiError::Url(e)),
        }
    }

    /// The API key presented in the `X-Auth-Key` header.
    pub fn api_key(&self) -> (r: &String)
        ensures
            r@ == self.spec_api_key(),
    {
        &self.api_key
    }

    /// The account email presented in the `X-Auth-Email` header.
    pub fn api_email(&self) -> (r: &String)
        ensures
            r@ == self.spec_api_email(),
    {
        &self.api_email
    }

    /// The normalized base URL that request paths are resolved against.
    pub fn base_url(&self) -> (r: &String)
        ensures
            r@ == self.spec_base_url(),
    {
        &self.base_url
    }

    /// The selected authentication mode.
    pub fn auth_type(&self) -> (r: AuthType)
        ensures
            r == self.spec_auth_type(),
    {
        self.auth_type
    }

    /// The two authentication headers attached to every request, derived
    /// from the configuration: the API key under `X-Auth-Key` and the
    /// account email under `X-Auth-Email`.
    pub fn auth_headers(&self) -> (r: Vec<(String, String)>)
        ensures
            r@.len() == 2,
            r@[0].0@ == "X-Auth-Key"@,
            r@[0].1@ == self.spec_api_key(),
            r@[1].0@ == "X-Auth-Email"@,
            r@[1].1@ == self.spec_api_email(),
    {
        let mut headers: Vec<(String, String)> = Vec::new();
        headers.push((String::from_str("X-Auth-Key"), self.api_key.clone()));
        headers.push((String::from_str("X-Auth-Email"), self.api_email.clone()));
        headers
    }
}

} // verus!

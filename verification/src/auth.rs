//! Storefront authentication model: the stores, their configuration
//! provenance, the authentication status reported to the shell, and the
//! error shape handed across the command boundary.  The credential flows
//! themselves drive external tools and live outside the library.

use vstd::prelude::*;

verus! {

/// The storefronts a library can be signed into.
#[derive(Debug, Clone, PartialEq, Eq, Hash)]
pub enum Store {
    Epic,
    GOG,
    Amazon,
    Steam,
}

/// The wire name of a store.
pub open spec fn spec_store_name(s: Store) -> Seq<char> {
    match s {
        Store::Epic => "epic"@,
        Store::GOG => "gog"@,
        Store::Amazon => "amazon"@,
        Store::Steam => "steam"@,
    }
}

impl Store {
    /// The wire name of this store.
    pub fn as_str(&self) -> (r: &str)
        ensures
            r@ == spec_store_name(*self),
    {
        match self {
            Store::Epic => "epic",
            Store::GOG => "gog",
            Store::Amazon => "amazon",
            Store::Steam => "steam",
        }
    }
}

/// Where a store's credential configuration came from.
#[derive(Debug, Clone, PartialEq, Eq)]
pub enum ConfigSource {
    /// Configuration created by this application.
    Pixxiden,
    /// An existing configuration found from Heroic.
    Heroic,
    /// No configuration present.
    Unconfigured,
}

/// Authentication status of one store.
#[derive(Debug, Clone, PartialEq)]
pub struct AuthStatus {
    pub authenticated: bool,
    pub username: Option<String>,
    pub config_source: ConfigSource,
}

/// Authentication failures reported by the credential flows.
#[derive(Debug, Clone, PartialEq)]
pub enum AuthError {
    InvalidCredentials,
    TwoFactorRequired,
    NetworkError,
    Unknown(String),
}

/// The serializable error shape handed across the command boundary.
#[derive(Debug, Clone, PartialEq)]
pub struct AuthErrorResponse {
    pub error_type: String,
    pub message: String,
}

/// The stable type tag of an authentication error.
pub open spec fn spec_error_type(e: AuthError) -> Seq<char> {
    match e {
        AuthError::InvalidCredentials => "invalid_credentials"@,
        AuthError::TwoFactorRequired => "two_factor_required"@,
        AuthError::NetworkError => "network_error"@,
        AuthError::Unknown(_) => "unknown"@,
    }
}

/// The message carried by an authentication error.
pub open spec fn spec_error_text(e: AuthError) -> Seq<char> {
    match e {
        AuthError::InvalidCredentials => "Invalid email or password"@,
        AuthError::TwoFactorRequired => "Two-factor authentication required"@,
        AuthError::NetworkError => "Network error occurred"@,
        AuthError::Unknown(msg) => msg@,
    }
}

/// Builds the response shape for an authentication error, with its
/// stable type tag and human-readable message.
pub fn auth_error_response(e: &AuthError) -> (r: AuthErrorResponse)
    ensures
        r.error_type@ == spec_error_type(*e),
        r.message@ == spec_error_text(*e),
{
    match e {
        AuthError::InvalidCredentials => AuthErrorResponse {
            error_type: "invalid_credentials".to_owned(),
            message: "Invalid email or password".to_owned(),
        },
        AuthError::TwoFactorRequired => AuthErrorResponse {
            error_type: "two_factor_required".to_owned(),
            message: "Two-factor authentication required".to_owned(),
        },
        AuthError::NetworkError => AuthErrorResponse {
            error_type: "network_error".to_owned(),
            message: "Network error occurred".to_owned(),
        },
        AuthError::Unknown(msg) => AuthErrorResponse {
            error_type: "unknown".to_owned(),
            message: msg.clone(),
        },
    }
}

impl From<AuthError> for AuthErrorResponse {
    /// The response shape of an error, as `auth_error_response` builds it.
    fn from(e: AuthError) -> (r: AuthErrorResponse)
        ensures
            r.error_type@ == spec_error_type(e),
            r.message@ == spec_error_text(e),
    {
        auth_error_response(&e)
    }
}

impl vstd::std_specs::convert::FromSpecImpl<AuthError> for AuthErrorResponse {
    open spec fn obeys_from_spec() -> bool {
        false
    }

    open spec fn from_spec(e: AuthError) -> AuthErrorResponse {
        arbitrary()
    }
}

} // verus!

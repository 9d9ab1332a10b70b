//! User-supplied API keys for the three credentialed sources.  Reading
//! and writing the configuration file is I/O and lives outside the
//! library; the predicates that decide which sources are usable are
//! verified here.

use vstd::prelude::*;

verus! {

/// The API keys a user may configure; absent or empty means unset.
#[derive(Debug, Clone, PartialEq, Default)]
pub struct ApiKeysConfig {
    /// Asset-service API key.
    pub steamgriddb_api_key: Option<String>,
    /// Catalog-service OAuth client identifier.
    pub igdb_client_id: Option<String>,
    /// Catalog-service OAuth client secret.
    pub igdb_client_secret: Option<String>,
    /// Achievement-service API key.
    pub steam_api_key: Option<String>,
    /// Achievement-service user identifier.
    pub steam_id: Option<String>,
    /// Whether the initial setup flow was completed.
    pub setup_completed: bool,
}

/// A credential counts as configured only when present and non-empty.
pub open spec fn key_set(o: Option<String>) -> bool {
    match o {
        Some(s) => s@.len() > 0,
        None => false,
    }
}

/// Whether an optional credential is present and non-empty.
fn key_set_exec(o: &Option<String>) -> (r: bool)
    ensures
        r == key_set(*o),
{
    match o {
        Some(s) => !s.as_str().is_empty(),
        None => false,
    }
}

impl ApiKeysConfig {
    /// The catalog source needs both the client id and the secret.
    pub fn has_igdb(&self) -> (r: bool)
        ensures
            r == (key_set(self.igdb_client_id) && key_set(self.igdb_client_secret)),
    {
        key_set_exec(&self.igdb_client_id) && key_set_exec(&self.igdb_client_secret)
    }

    /// The asset source needs its API key.
    pub fn has_steamgriddb(&self) -> (r: bool)
        ensures
            r == key_set(self.steamgriddb_api_key),
    {
        key_set_exec(&self.steamgriddb_api_key)
    }

    /// The achievement source needs both the API key and the user id.
    pub fn has_steam(&self) -> (r: bool)
        ensures
            r == (key_set(self.steam_api_key) && key_set(self.steam_id)),
    {
        key_set_exec(&self.steam_api_key) && key_set_exec(&self.steam_id)
    }
}

} // verus!

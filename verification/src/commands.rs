//! Data shapes exchanged with the desktop shell: events emitted while
//! launching and installing, synchronization summaries, and the API-key
//! views.  The command handlers themselves belong to the shell layer
//! outside the library.

use vstd::prelude::*;
use crate::api_keys::{key_set, ApiKeysConfig};
use crate::models::clone_opt_string;

verus! {

/// Emitted when a game launch begins.
#[derive(Debug, Clone, PartialEq)]
pub struct LaunchEvent {
    pub game_id: String,
    pub game_title: String,
    pub store: String,
}

/// Emitted when a game launch succeeded.
#[derive(Debug, Clone, PartialEq)]
pub struct LaunchSuccessEvent {
    pub game_id: String,
    pub pid: Option<u32>,
}

/// Emitted when a game launch failed.
#[derive(Debug, Clone, PartialEq)]
pub struct LaunchErrorEvent {
    pub game_id: String,
    pub error: String,
}

/// Emitted when an installation begins.
#[derive(Debug, Clone, PartialEq)]
pub struct InstallEvent {
    pub game_id: String,
    pub game_title: String,
    pub store: String,
}

/// Emitted when an installation succeeded.
#[derive(Debug, Clone, PartialEq)]
pub struct InstallSuccessEvent {
    pub game_id: String,
}

/// Emitted when an installation failed.
#[derive(Debug, Clone, PartialEq)]
pub struct InstallErrorEvent {
    pub game_id: String,
    pub error: String,
}

/// Summary of one library synchronization.
#[derive(Debug, Clone, PartialEq, Default)]
pub struct SyncResult {
    pub total_games: usize,
    pub new_games: usize,
    pub updated_games: usize,
    pub errors: Vec<String>,
}

/// Progress shown on the splash screen while the library loads.
#[derive(Debug, Clone, PartialEq)]
pub struct SplashProgressEvent {
    pub store: String,
    pub game_title: String,
    pub current: usize,
    pub total: usize,
    pub message: String,
}

/// Availability and sign-in state of one storefront.
#[derive(Debug, Clone, PartialEq)]
pub struct StoreStatus {
    pub name: String,
    pub available: bool,
    pub authenticated: bool,
    pub username: Option<String>,
}

/// The launch-relevant slice of a game's configuration.
#[derive(Debug, Clone, PartialEq)]
pub struct GameConfig {
    pub id: String,
    pub title: String,
    pub store: String,
    pub store_id: String,
    pub install_path: Option<String>,
    pub wine_prefix: Option<String>,
    pub wine_version: Option<String>,
    pub installed: bool,
}

/// The data needed to launch one game.
#[derive(Debug, Clone, PartialEq)]
pub struct LaunchGameData {
    pub id: String,
    pub title: String,
    pub store: String,
    pub store_id: String,
    pub app_name: String,
    pub install_path: Option<String>,
    pub custom_executable: Option<String>,
}

/// The API-key configuration as shown to the shell, with the derived
/// per-source availability flags.
#[derive(Debug, Clone, PartialEq)]
pub struct ApiKeysResponse {
    pub steamgriddb_api_key: Option<String>,
    pub igdb_client_id: Option<String>,
    pub igdb_client_secret: Option<String>,
    pub steam_api_key: Option<String>,
    pub steam_id: Option<String>,
    pub setup_completed: bool,
    pub has_steamgriddb: bool,
    pub has_igdb: bool,
    pub has_steam: bool,
}

/// An API-key update sent by the shell.
#[derive(Debug, Clone, PartialEq)]
pub struct ApiKeysUpdateRequest {
    pub steamgriddb_api_key: Option<String>,
    pub igdb_client_id: Option<String>,
    pub igdb_client_secret: Option<String>,
    pub steam_api_key: Option<String>,
    pub steam_id: Option<String>,
    pub mark_setup_completed: bool,
}

/// The outcome of probing each configured key against its service.
#[derive(Debug, Clone, PartialEq, Default)]
pub struct ApiKeyTestResult {
    pub steamgriddb_valid: bool,
    pub steamgriddb_message: Option<String>,
    pub igdb_valid: bool,
    pub igdb_message: Option<String>,
    pub steam_valid: bool,
    pub steam_message: Option<String>,
}

/// Builds the shell view of an API-key configuration: the keys pass
/// through and the availability flags are derived from them.
pub fn response_from_config(config: &ApiKeysConfig) -> (r: ApiKeysResponse)
    ensures
        r.steamgriddb_api_key == config.steamgriddb_api_key,
        r.igdb_client_id == config.igdb_client_id,
        r.igdb_client_secret == config.igdb_client_secret,
        r.steam_api_key == config.steam_api_key,
        r.steam_id == config.steam_id,
        r.setup_completed == config.setup_completed,
        r.has_steamgriddb == key_set(config.steamgriddb_api_key),
        r.has_igdb == (key_set(config.igdb_client_id) && key_set(config.igdb_client_secret)),
        r.has_steam == (key_set(config.steam_api_key) && key_set(config.steam_id)),
{
    ApiKeysResponse {
        has_steamgriddb: config.has_steamgriddb(),
        has_igdb: config.has_igdb(),
        has_steam: config.has_steam(),
        steamgriddb_api_key: clone_opt_string(&config.steamgriddb_api_key),
        igdb_client_id: clone_opt_string(&config.igdb_client_id),
        igdb_client_secret: clone_opt_string(&config.igdb_client_secret),
        steam_api_key: clone_opt_string(&config.steam_api_key),
        steam_id: clone_opt_string(&config.steam_id),
        setup_completed: config.setup_completed,
    }
}

} // verus!

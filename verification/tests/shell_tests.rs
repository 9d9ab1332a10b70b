//! Tests of the shell-facing shapes: authentication errors, API keys,
//! settings, store names, package classification and the sudoers policy.

use pixxiden::api_keys::ApiKeysConfig;
use pixxiden::auth::{auth_error_response, AuthError, AuthErrorResponse, ConfigSource, Store};
use pixxiden::commands::{response_from_config, SyncResult};
use pixxiden::models::{Game, ProtonTier};
use pixxiden::sudoers::generate_sudoers_content;
use pixxiden::system::{get_settings, save_settings, SettingsConfig};
use pixxiden::system_updates::{categorize_package, is_critical_package, Distro, PackageCategory};

#[test]
fn test_auth_error_conversion() {
    let error = AuthError::InvalidCredentials;
    let response: AuthErrorResponse = error.into();
    assert_eq!(response.error_type, "invalid_credentials");
}

#[test]
fn unknown_auth_errors_carry_their_message() {
    let response = auth_error_response(&AuthError::Unknown("rate limited".to_string()));
    assert_eq!(response.error_type, "unknown");
    assert_eq!(response.message, "rate limited");
    let network = auth_error_response(&AuthError::NetworkError);
    assert_eq!(network.message, "Network error occurred");
}

#[test]
fn store_names_are_stable() {
    assert_eq!(Store::Epic.as_str(), "epic");
    assert_eq!(Store::GOG.as_str(), "gog");
    assert_eq!(Store::Amazon.as_str(), "amazon");
    assert_eq!(Store::Steam.as_str(), "steam");
    assert_ne!(ConfigSource::Heroic, ConfigSource::Unconfigured);
}

#[test]
fn game_test_proton_tier_from_str() {
    assert_eq!(ProtonTier::from_str("platinum"), Some(ProtonTier::Platinum));
    assert_eq!(ProtonTier::from_str("GOLD"), Some(ProtonTier::Gold));
    assert_eq!(ProtonTier::from_str("Silver"), Some(ProtonTier::Silver));
    assert_eq!(ProtonTier::from_str("unknown"), None);
}

#[test]
fn test_proton_tier_as_str() {
    assert_eq!(ProtonTier::Platinum.as_str(), "platinum");
    assert_eq!(ProtonTier::Borked.as_str(), "borked");
}

#[test]
fn test_default_config() {
    let config = ApiKeysConfig::default();
    assert!(!config.has_igdb());
    assert!(!config.has_steamgriddb());
    assert!(!config.has_steam());
    assert!(!config.setup_completed);
}

#[test]
fn test_has_igdb() {
    let mut config = ApiKeysConfig::default();
    assert!(!config.has_igdb());

    config.igdb_client_id = Some("client_id".to_string());
    assert!(!config.has_igdb());

    config.igdb_client_secret = Some("secret".to_string());
    assert!(config.has_igdb());

    config.igdb_client_id = Some("".to_string());
    assert!(!config.has_igdb());
}

#[test]
fn api_keys_response_derives_flags() {
    let config = ApiKeysConfig {
        steamgriddb_api_key: Some("key".to_string()),
        steam_api_key: Some("key2".to_string()),
        steam_id: Some("7656".to_string()),
        setup_completed: true,
        ..Default::default()
    };
    let response = response_from_config(&config);
    assert!(response.has_steamgriddb);
    assert!(response.has_steam);
    assert!(!response.has_igdb);
    assert!(response.setup_completed);
    assert_eq!(response.steam_id, Some("7656".to_string()));
}

#[test]
fn settings_round_out_with_defaults() {
    let settings = get_settings().unwrap();
    assert_eq!(settings.proton_version, "GE-Proton8-32");
    assert!(!settings.mangohud_enabled);
    assert_eq!(settings.default_install_path, "~/Games");
    let saved = save_settings(SettingsConfig {
        proton_version: "GE-Proton9-1".to_string(),
        mangohud_enabled: true,
        default_install_path: "/games".to_string(),
        wine_prefix_path: "/prefixes".to_string(),
    });
    assert!(saved.is_ok());
}

#[test]
fn test_generate_sudoers_content_arch() {
    let content = generate_sudoers_content("testuser", &Distro::Arch);
    assert!(content.contains("testuser"));
    assert!(content.contains("pacman -Syu"));
    assert!(content.contains("NOPASSWD"));
}

#[test]
fn test_generate_sudoers_content_debian() {
    let content = generate_sudoers_content("testuser", &Distro::Debian);
    assert!(content.contains("testuser"));
    assert!(content.contains("apt upgrade"));
    assert!(content.contains("NOPASSWD"));
}

#[test]
fn unknown_distro_gets_no_sudoers_policy() {
    assert_eq!(generate_sudoers_content("u", &Distro::Unknown), "");
    let fedora = generate_sudoers_content("u", &Distro::Fedora);
    assert!(fedora.contains("dnf upgrade -y"));
}

#[test]
fn test_categorize_package() {
    assert!(matches!(categorize_package("linux"), PackageCategory::System));
    assert!(matches!(categorize_package("mesa"), PackageCategory::Graphics));
    assert!(matches!(categorize_package("pipewire"), PackageCategory::Audio));
    assert!(matches!(categorize_package("steam"), PackageCategory::Gaming));
    assert!(matches!(categorize_package("libfoo"), PackageCategory::Library));
}

#[test]
fn test_is_critical_package() {
    assert!(is_critical_package("linux"));
    assert!(is_critical_package("linux-cachyos"));
    assert!(is_critical_package("nvidia-dkms"));
    assert!(is_critical_package("mesa"));
    assert!(!is_critical_package("firefox"));
    assert!(!is_critical_package("vim"));
}

#[test]
fn test_game_id_generation() {
    let store = "epic";
    let store_id = "fortnite";
    let game_id = format!("{}-{}", store, store_id);
    assert_eq!(game_id, "epic-fortnite");
}

#[test]
fn test_game_struct_creation() {
    let game = Game {
        id: "epic-fortnite".to_string(),
        title: "Fortnite".to_string(),
        store: "epic".to_string(),
        store_id: "fortnite".to_string(),
        installed: false,
        ..Default::default()
    };
    assert_eq!(game.id, "epic-fortnite");
    assert_eq!(game.store, "epic");
    assert!(!game.installed);
}

#[test]
fn test_sync_result_struct() {
    let result = SyncResult {
        total_games: 10,
        new_games: 3,
        updated_games: 2,
        errors: vec![],
    };
    assert_eq!(result.total_games, 10);
    assert!(result.errors.is_empty());
}

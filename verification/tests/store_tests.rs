//! Tests of the Steam manifest parsing at the storefront boundary.

use pixxiden::store::steam::{extract_vdf_value, parse_app_manifest_text, SteamAdapter};

const MANIFEST: &str = "\"AppState\"\n{\n\t\"appid\"\t\t\"367520\"\n\t\"name\"\t\t\"Hollow Knight\"\n\t\"installdir\"\t\t\"Hollow Knight\"\n}\n";

#[test]
fn manifest_parses_into_a_base_game() {
    let game = parse_app_manifest_text(MANIFEST, "/games/steamapps", 1_700_000_000).unwrap();
    assert_eq!(game.id, "steam_367520");
    assert_eq!(game.title, "Hollow Knight");
    assert_eq!(game.store, "steam");
    assert_eq!(game.store_id, "367520");
    assert!(game.installed);
    assert_eq!(
        game.install_path,
        Some("/games/steamapps/common/Hollow Knight".to_string())
    );
    assert_eq!(
        game.cover_url,
        Some("https://steamcdn-a.akamaihd.net/steam/apps/367520/library_600x900.jpg".to_string())
    );
    assert_eq!(game.created_at, 1_700_000_000);
}

#[test]
fn manifest_without_name_is_rejected() {
    let content = "\"AppState\"\n{\n\t\"appid\"\t\t\"10\"\n}\n";
    assert!(parse_app_manifest_text(content, "/s", 0).is_none());
    let empty = parse_app_manifest_text("", "/s", 0);
    assert!(empty.is_none());
}

#[test]
fn later_manifest_lines_win() {
    let content = "\"appid\"  \"1\"\n\"appid\"  \"2\"\n\"name\"  \"Twice\"\n";
    let game = parse_app_manifest_text(content, "/s", 0).unwrap();
    assert_eq!(game.store_id, "2");
}

#[test]
fn steam_adapter_reports_availability() {
    let detected = SteamAdapter::new(
        Some("/home/user/.steam/steam".to_string()),
        vec!["/home/user/.steam/steam/steamapps".to_string()],
    );
    assert!(detected.is_available());
    let missing = SteamAdapter::new(None, vec![]);
    assert!(!missing.is_available());
}

#[test]
fn vdf_values_take_the_last_quoted_pair() {
    assert_eq!(extract_vdf_value("\"appid\"\t\t\"367520\""), "367520");
    assert_eq!(extract_vdf_value("no quotes here"), "");
    assert_eq!(extract_vdf_value("\"lonely"), "");
}

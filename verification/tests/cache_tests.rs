//! Tests of the metadata cache document, path layout and staleness rules.

use pixxiden::cache::{compute_stats, is_stale_record, sanitize_filename, AssetType, CacheManager,
    MetadataCache};
use pixxiden::models::GameMetadata;

fn record(id: &str, last_updated: i64) -> GameMetadata {
    GameMetadata {
        game_id: id.to_string(),
        description: Some(format!("description of {}", id)),
        fetched_at: last_updated,
        last_updated,
        ..Default::default()
    }
}

#[test]
fn test_sanitize_filename() {
    assert_eq!(sanitize_filename("normal_name"), "normal_name");
    assert_eq!(sanitize_filename("path/with/slashes"), "path_with_slashes");
    assert_eq!(sanitize_filename("special:chars*here"), "special_chars_here");
}

#[test]
fn sanitize_replaces_control_characters() {
    assert_eq!(sanitize_filename("a\tb\nc"), "a_b_c");
    assert_eq!(sanitize_filename("back\\slash|pipe"), "back_slash_pipe");
    assert_eq!(sanitize_filename("quo\"te<angle>"), "quo_te_angle_");
}

#[test]
fn new_document_is_empty_version_one() {
    let doc = MetadataCache::new();
    assert_eq!(doc.version, 1);
    assert_eq!(doc.games_count(), 0);
    assert!(doc.get_game("anything").is_none());
}

#[test]
fn save_then_get_roundtrips_the_record() {
    let mut doc = MetadataCache::new();
    let m = record("test_game", 1000);
    doc.save_game(m.clone());
    let loaded = doc.get_game("test_game");
    assert!(loaded.is_some());
    assert_eq!(*loaded.unwrap(), m);
    assert_eq!(
        loaded.unwrap().description,
        Some("description of test_game".to_string())
    );
}

#[test]
fn save_replaces_the_record_with_the_same_id() {
    let mut doc = MetadataCache::new();
    doc.save_game(record("g", 1000));
    let mut newer = record("g", 2000);
    newer.developer = Some("Studio".to_string());
    doc.save_game(newer.clone());
    assert_eq!(doc.games_count(), 1);
    assert_eq!(*doc.get_game("g").unwrap(), newer);
}

#[test]
fn clear_game_cache_is_isolated() {
    let mut doc = MetadataCache::new();
    let a = record("game-a", 1000);
    let b = record("game-b", 2000);
    doc.save_game(a);
    doc.save_game(b.clone());
    assert!(doc.has_game("game-a"));
    assert!(doc.has_game("game-b"));

    doc.remove_game("game-a");

    assert!(!doc.has_game("game-a"));
    assert!(doc.has_game("game-b"));
    assert_eq!(*doc.get_game("game-b").unwrap(), b);
}

#[test]
fn remove_of_missing_id_changes_nothing() {
    let mut doc = MetadataCache::new();
    doc.save_game(record("only", 5));
    doc.remove_game("absent");
    assert_eq!(doc.games_count(), 1);
    assert!(doc.has_game("only"));
}

#[test]
fn staleness_boundary_is_exclusive() {
    let now: i64 = 1_700_000_000;
    let max_age_days: i64 = 30;
    let window: i64 = max_age_days * 86400;

    let exactly_at_limit = record("a", now - window);
    assert!(!is_stale_record(&exactly_at_limit, now, max_age_days));

    let one_second_older = record("b", now - window - 1);
    assert!(is_stale_record(&one_second_older, now, max_age_days));
}

#[test]
fn missing_record_counts_as_stale() {
    let doc = MetadataCache::new();
    assert!(doc.is_stale("never-seen", 1_700_000_000, 30));
}

#[test]
fn asset_paths_follow_the_layout() {
    let mgr = CacheManager::with_path("/tmp/cacheroot".to_string());
    assert_eq!(mgr.cache_dir(), "/tmp/cacheroot");
    assert_eq!(mgr.metadata_path(), "/tmp/cacheroot/metadata.json");
    assert_eq!(mgr.assets_dir(), "/tmp/cacheroot/assets");
    assert_eq!(mgr.game_assets_dir("game123"), "/tmp/cacheroot/assets/game123");
    assert_eq!(
        mgr.get_asset_path("game123", AssetType::Hero, "jpg"),
        "/tmp/cacheroot/assets/game123/hero.jpg"
    );
    assert_eq!(
        mgr.get_asset_path("a/b", AssetType::Icon, "png"),
        "/tmp/cacheroot/assets/a_b/icon.png"
    );
}

#[test]
fn asset_filenames_cover_all_kinds() {
    assert_eq!(AssetType::Hero.filename(), "hero");
    assert_eq!(AssetType::Grid.filename(), "grid");
    assert_eq!(AssetType::Logo.filename(), "logo");
    assert_eq!(AssetType::Icon.filename(), "icon");
}

#[test]
fn stats_sum_sizes_and_counts() {
    let sizes: Vec<u64> = vec![100, 200, 300];
    let stats = compute_stats(2, &sizes, "/tmp/c".to_string());
    assert_eq!(stats.games_count, 2);
    assert_eq!(stats.total_assets_count, 3);
    assert_eq!(stats.total_assets_size, 600);
    assert_eq!(stats.cache_dir, "/tmp/c");
}

#[test]
fn stats_saturate_instead_of_overflowing() {
    let sizes: Vec<u64> = vec![u64::MAX, 1];
    let stats = compute_stats(0, &sizes, String::new());
    assert_eq!(stats.total_assets_size, u64::MAX);
}

//! Tests of the orchestrator: configuration defaults, the additive merge,
//! the enriched view, and the cached-record fast path.

use pixxiden::cache::MetadataCache;
use pixxiden::enricher::{build_enriched_game, build_minimal_enriched, merge_metadata,
    needs_refetch, resolve_asset_paths, should_fetch_assets, AssetPaths, EnricherConfig,
    FetchResults};
use pixxiden::igdb::IGDBMetadata;
use pixxiden::models::{Game, GameMetadata};
use pixxiden::protondb::ProtonDBCompatibility;

fn base_game(id: &str, title: &str) -> Game {
    Game {
        id: id.to_string(),
        title: title.to_string(),
        store: "steam".to_string(),
        store_id: "367520".to_string(),
        installed: true,
        developer: Some("Base Dev".to_string()),
        release_date: Some("2017-02-24".to_string()),
        ..Default::default()
    }
}

#[test]
fn test_enricher_config_default() {
    let config = EnricherConfig::default();
    assert_eq!(config.cache_max_age_days, 30);
    assert!(config.fetch_assets);
    assert!(config.fetch_hltb);
    assert!(config.fetch_protondb);
    assert!(config.fetch_achievements);
}

#[test]
fn merge_fills_igdb_fields_and_stamps_times() {
    let results = FetchResults {
        igdb: Some(IGDBMetadata {
            igdb_id: 42,
            name: "Hollow Knight".to_string(),
            summary: Some("A bug crawls down.".to_string()),
            description: None,
            aggregated_rating: Some(9000),
            developer: Some("Team Cherry".to_string()),
            genres: vec!["Platform".to_string(), "Adventure".to_string()],
            steam_app_id: Some(367520),
            ..Default::default()
        }),
        ..Default::default()
    };
    let merged = merge_metadata("steam-367520".to_string(), None, &results, 1_700_000_000);
    assert_eq!(merged.game_id, "steam-367520");
    assert_eq!(merged.igdb_id, Some(42));
    // with no storyline the summary doubles as description
    assert_eq!(merged.description, Some("A bug crawls down.".to_string()));
    assert_eq!(merged.metacritic_score, Some(90));
    assert_eq!(merged.developer, Some("Team Cherry".to_string()));
    assert_eq!(merged.genres, vec!["Platform", "Adventure"]);
    assert_eq!(merged.steam_app_id, Some(367520));
    assert_eq!(merged.fetched_at, 1_700_000_000);
    assert_eq!(merged.last_updated, 1_700_000_000);
}

#[test]
fn merge_keeps_previous_fields_when_a_source_fails() {
    let prev = GameMetadata {
        game_id: "g".to_string(),
        hltb_main: Some(26),
        hltb_complete: Some(58),
        proton_tier: Some("platinum".to_string()),
        developer: Some("Old Dev".to_string()),
        hero_path: Some("/cache/assets/g/hero.jpg".to_string()),
        fetched_at: 1_000,
        last_updated: 2_000,
        ..Default::default()
    };
    let results = FetchResults {
        igdb: Some(IGDBMetadata {
            igdb_id: 7,
            name: "G".to_string(),
            developer: Some("New Dev".to_string()),
            ..Default::default()
        }),
        ..Default::default()
    };
    let merged = merge_metadata("g".to_string(), Some(&prev), &results, 3_000);
    // the failed sources keep the cached values
    assert_eq!(merged.hltb_main, Some(26));
    assert_eq!(merged.hltb_complete, Some(58));
    assert_eq!(merged.proton_tier, Some("platinum".to_string()));
    assert_eq!(merged.hero_path, Some("/cache/assets/g/hero.jpg".to_string()));
    // the successful source overwrites its own group
    assert_eq!(merged.developer, Some("New Dev".to_string()));
    // fetched_at is set once; last_updated refreshes
    assert_eq!(merged.fetched_at, 1_000);
    assert_eq!(merged.last_updated, 3_000);
}

#[test]
fn enriched_view_applies_precedence() {
    let game = base_game("steam-367520", "Hollow Knight");
    let metadata = GameMetadata {
        game_id: "steam-367520".to_string(),
        developer: Some("Team Cherry".to_string()),
        genres: vec!["Platform".to_string()],
        last_updated: 5_000,
        ..Default::default()
    };
    let enriched = build_enriched_game(&game, &metadata);
    // metadata wins where present, the base value fills the gaps
    assert_eq!(enriched.developer, Some("Team Cherry".to_string()));
    assert_eq!(enriched.release_date, Some("2017-02-24".to_string()));
    assert_eq!(enriched.title, "Hollow Knight");
    assert_eq!(enriched.enriched_at, Some(5_000));
}

#[test]
fn minimal_view_keeps_only_base_fields() {
    let game = base_game("g", "Game");
    let minimal = build_minimal_enriched(&game);
    assert_eq!(minimal.developer, Some("Base Dev".to_string()));
    assert!(minimal.genres.is_empty());
    assert!(minimal.proton_tier.is_none());
    assert!(minimal.enriched_at.is_none());
}

#[test]
fn asset_planning_skips_complete_sets() {
    assert!(!should_fetch_assets(true, true, true, true));
    assert!(should_fetch_assets(true, true, true, false));
    assert!(should_fetch_assets(false, false, false, false));
}

#[test]
fn existing_asset_paths_win() {
    let existing = AssetPaths { hero: Some("/old/hero.jpg".to_string()), ..Default::default() };
    let fetched = AssetPaths {
        hero: Some("/new/hero.png".to_string()),
        grid: Some("/new/grid.png".to_string()),
        ..Default::default()
    };
    let resolved = resolve_asset_paths(existing, fetched);
    assert_eq!(resolved.hero, Some("/old/hero.jpg".to_string()));
    assert_eq!(resolved.grid, Some("/new/grid.png".to_string()));
    assert_eq!(resolved.logo, None);
}

#[test]
fn enrich_hollow_knight_end_to_end() {
    let game = base_game("steam-367520", "Hollow Knight");
    let now: i64 = 1_700_000_000;
    let config = EnricherConfig::default();
    let mut doc = MetadataCache::new();

    // first pass: nothing cached, so a fetch is due
    assert!(needs_refetch(&doc, &game.id, now, config.cache_max_age_days));

    // all sources configured and answering
    let results = FetchResults {
        igdb: Some(IGDBMetadata {
            igdb_id: 1234,
            name: "Hollow Knight".to_string(),
            summary: Some("Forge your own path.".to_string()),
            genres: vec!["Platform".to_string(), "Adventure".to_string()],
            steam_app_id: Some(367520),
            ..Default::default()
        }),
        protondb: Some(ProtonDBCompatibility {
            steam_app_id: Some(367520),
            tier: Some("platinum".to_string()),
            tier_score: Some(90),
            is_playable: true,
            ..Default::default()
        }),
        achievements: Some((63, 37)),
        assets: AssetPaths {
            hero: Some("/cache/assets/steam-367520/hero.png".to_string()),
            ..Default::default()
        },
        ..Default::default()
    };
    let merged = merge_metadata(game.id.clone(), None, &results, now);
    doc.save_game(merged.clone());
    let first = build_enriched_game(&game, doc.get_game(&game.id).unwrap());

    assert!(!first.genres.is_empty());
    let known = ["native", "platinum", "gold", "silver", "bronze", "pending", "borked"];
    let tier = first.proton_tier.clone().unwrap();
    assert!(known.contains(&tier.as_str()));
    assert!(first.hero_path.is_some());

    // second pass, still inside the staleness window: the cache answers,
    // no source is called, and the view is identical
    let later = now + config.cache_max_age_days * 86400;
    assert!(!needs_refetch(&doc, &game.id, later, config.cache_max_age_days));
    let cached = doc.get_game(&game.id).unwrap();
    assert_eq!(*cached, merged);
    let second = build_enriched_game(&game, cached);
    assert_eq!(first, second);
}

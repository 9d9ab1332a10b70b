//! Tests of the per-source adapters: catalog parsing, duration matching,
//! compatibility tiers, asset selection and status classification.

use pixxiden::howlongtobeat::{durations_from_results, seconds_to_hours, select_match, HLTBDurations,
    HLTBGame};
use pixxiden::igdb::{ExternalCategory, IGDBCompany, IGDBCover, IGDBExternalGame, IGDBGame,
    IGDBGenre, IGDBInvolvedCompany, IGDBService};
use pixxiden::protondb::{compatibility_from_summary, ProtonDBCompatibility, ProtonDBSummary,
    ProtonTier};
use pixxiden::status::{classify_status, SourceError, StatusClass};
use pixxiden::steamgriddb::{extension_for_content_type, pick_search_result, select_best_image,
    GridStyle, SteamGridDBGame, SteamGridDBImage, SteamGridDBService};

fn image(id: u64, score: i32, nsfw: bool, humor: bool) -> SteamGridDBImage {
    SteamGridDBImage {
        id,
        score,
        style: "alternate".to_string(),
        url: format!("url{}", id),
        thumb: format!("thumb{}", id),
        width: 600,
        height: 900,
        mime: "image/png".to_string(),
        nsfw,
        humor,
    }
}

fn hltb_game(id: u64, name: &str, main_secs: Option<u64>) -> HLTBGame {
    HLTBGame {
        game_id: id,
        game_name: name.to_string(),
        comp_main: main_secs,
        ..Default::default()
    }
}

#[test]
fn test_external_category() {
    assert_eq!(ExternalCategory::from_u8(1), Some(ExternalCategory::Steam));
    assert_eq!(ExternalCategory::from_u8(5), Some(ExternalCategory::Gog));
    assert_eq!(ExternalCategory::from_u8(26), Some(ExternalCategory::Epic));
    assert_eq!(ExternalCategory::from_u8(99), None);
}

#[test]
fn test_parse_metadata() {
    let service = IGDBService::new("test".to_string(), "test".to_string());

    let game = IGDBGame {
        id: 1234,
        name: "Test Game".to_string(),
        summary: Some("A test game".to_string()),
        storyline: Some("Full storyline".to_string()),
        rating: Some(8550),
        aggregated_rating: Some(9000),
        first_release_date: Some(1609459200),
        genres: Some(vec![
            IGDBGenre { id: 1, name: "Action".to_string() },
            IGDBGenre { id: 2, name: "Adventure".to_string() },
        ]),
        involved_companies: Some(vec![
            IGDBInvolvedCompany {
                id: 1,
                company: Some(IGDBCompany { id: 1, name: "Dev Studio".to_string() }),
                developer: Some(true),
                publisher: Some(false),
            },
            IGDBInvolvedCompany {
                id: 2,
                company: Some(IGDBCompany { id: 2, name: "Publisher Inc".to_string() }),
                developer: Some(false),
                publisher: Some(true),
            },
        ]),
        external_games: Some(vec![IGDBExternalGame {
            id: 1,
            category: 1,
            uid: "123456".to_string(),
        }]),
        platforms: None,
        cover: Some(IGDBCover { id: 1, url: None, image_id: Some("abc123".to_string()) }),
    };

    let metadata = service.parse_metadata(&game);

    assert_eq!(metadata.igdb_id, 1234);
    assert_eq!(metadata.name, "Test Game");
    assert_eq!(metadata.developer, Some("Dev Studio".to_string()));
    assert_eq!(metadata.publisher, Some("Publisher Inc".to_string()));
    assert_eq!(metadata.genres, vec!["Action", "Adventure"]);
    assert_eq!(metadata.steam_app_id, Some(123456));
    assert!(metadata.cover_url.is_some());
    assert_eq!(metadata.rating, Some(8550));
}

#[test]
fn parse_metadata_formats_the_release_date() {
    let service = IGDBService::new("a".to_string(), "b".to_string());
    let game = IGDBGame {
        id: 1,
        name: "Dated".to_string(),
        first_release_date: Some(1609459200),
        ..Default::default()
    };
    let metadata = service.parse_metadata(&game);
    assert_eq!(metadata.release_date, Some("2021-01-01".to_string()));
}

#[test]
fn parse_metadata_builds_the_cover_url() {
    let service = IGDBService::new("a".to_string(), "b".to_string());
    let game = IGDBGame {
        id: 7,
        name: "Covered".to_string(),
        cover: Some(IGDBCover { id: 1, url: None, image_id: Some("xyz".to_string()) }),
        ..Default::default()
    };
    let metadata = service.parse_metadata(&game);
    assert_eq!(
        metadata.cover_url,
        Some("https://images.igdb.com/igdb/image/upload/t_cover_big/xyz.jpg".to_string())
    );
}

#[test]
fn parse_metadata_review_score_truncates() {
    let service = IGDBService::new("a".to_string(), "b".to_string());
    let game = IGDBGame {
        id: 2,
        name: "Scored".to_string(),
        aggregated_rating: Some(9075),
        ..Default::default()
    };
    let metadata = service.parse_metadata(&game);
    assert_eq!(metadata.review_score(), Some(90));
}

#[test]
fn protondb_test_proton_tier_from_str() {
    assert_eq!(ProtonTier::from_str("platinum"), Some(ProtonTier::Platinum));
    assert_eq!(ProtonTier::from_str("GOLD"), Some(ProtonTier::Gold));
    assert_eq!(ProtonTier::from_str("Silver"), Some(ProtonTier::Silver));
    assert_eq!(ProtonTier::from_str("bronze"), Some(ProtonTier::Bronze));
    assert_eq!(ProtonTier::from_str("borked"), Some(ProtonTier::Borked));
    assert_eq!(ProtonTier::from_str("native"), Some(ProtonTier::Native));
    assert_eq!(ProtonTier::from_str("unknown"), None);
}

#[test]
fn test_proton_tier_score() {
    assert_eq!(ProtonTier::Native.score(), 100);
    assert_eq!(ProtonTier::Platinum.score(), 90);
    assert_eq!(ProtonTier::Gold.score(), 75);
    assert_eq!(ProtonTier::Silver.score(), 50);
    assert_eq!(ProtonTier::Bronze.score(), 25);
    assert_eq!(ProtonTier::Borked.score(), 0);
}

#[test]
fn test_proton_tier_is_playable() {
    assert!(ProtonTier::Native.is_playable());
    assert!(ProtonTier::Platinum.is_playable());
    assert!(ProtonTier::Gold.is_playable());
    assert!(ProtonTier::Silver.is_playable());
    assert!(!ProtonTier::Bronze.is_playable());
    assert!(!ProtonTier::Borked.is_playable());
}

#[test]
fn test_compatibility_default() {
    let compat = ProtonDBCompatibility::default();
    assert!(compat.steam_app_id.is_none());
    assert!(!compat.is_playable);
}

#[test]
fn compatibility_from_summary_scores_known_tiers() {
    let summary = ProtonDBSummary {
        tier: "platinum".to_string(),
        total: 420,
        confidence: Some("strong".to_string()),
        trending_tier: Some("gold".to_string()),
        best_reported_tier: None,
        provisional: None,
    };
    let compat = compatibility_from_summary(367520, &summary);
    assert_eq!(compat.steam_app_id, Some(367520));
    assert_eq!(compat.tier, Some("platinum".to_string()));
    assert_eq!(compat.tier_score, Some(90));
    assert!(compat.is_playable);
    assert_eq!(compat.total_reports, Some(420));
}

#[test]
fn compatibility_from_summary_tolerates_unknown_tier() {
    let summary = ProtonDBSummary {
        tier: "mysterious".to_string(),
        total: 1,
        confidence: None,
        trending_tier: None,
        best_reported_tier: None,
        provisional: None,
    };
    let compat = compatibility_from_summary(1, &summary);
    assert_eq!(compat.tier, Some("mysterious".to_string()));
    assert_eq!(compat.tier_score, None);
    assert!(!compat.is_playable);
}

#[test]
fn test_hltb_durations_default() {
    let durations = HLTBDurations::default();
    assert!(durations.game_id.is_none());
    assert!(durations.main_story.is_none());
}

#[test]
fn duration_match_prefers_first_matching_name() {
    let games = vec![
        hltb_game(1, "Hollow Knight: Silksong", Some(90000)),
        hltb_game(2, "Hollow Knight", Some(95000)),
    ];
    let best = select_match(&games, "Hollow Knight").unwrap();
    assert_eq!(best.game_id, 1);
}

#[test]
fn duration_nonsense_query_is_not_found() {
    let games = vec![
        hltb_game(1, "Hollow Knight", Some(95000)),
        hltb_game(2, "Celeste", Some(30000)),
    ];
    let result = durations_from_results(&games, "Zzznotagame12345XYZ");
    assert!(result.is_none());
}

#[test]
fn durations_convert_seconds_to_rounded_hours() {
    let games = vec![hltb_game(9, "Rounding Game", Some(95000))];
    let d = durations_from_results(&games, "rounding game").unwrap();
    assert_eq!(d.game_id, Some(9));
    assert_eq!(d.main_story, Some(26));
    assert_eq!(d.speedrun, None);
}

#[test]
fn seconds_round_to_the_nearest_hour() {
    assert_eq!(seconds_to_hours(0), 0);
    assert_eq!(seconds_to_hours(1799), 0);
    assert_eq!(seconds_to_hours(1800), 1);
    assert_eq!(seconds_to_hours(3600), 1);
    assert_eq!(seconds_to_hours(5400), 2);
}

#[test]
fn test_select_best_image() {
    let images = vec![
        image(1, 5, false, false),
        image(2, 10, false, false),
        image(3, 15, true, false),
    ];
    let best = select_best_image(images);
    assert!(best.is_some());
    assert_eq!(best.unwrap().id, 2);
}

#[test]
fn test_select_best_image_empty() {
    let images: Vec<SteamGridDBImage> = vec![];
    let best = select_best_image(images);
    assert!(best.is_none());
}

#[test]
fn select_best_image_skips_humor_flag() {
    let images = vec![image(1, 3, false, false), image(2, 50, false, true)];
    assert_eq!(select_best_image(images).unwrap().id, 1);
}

#[test]
fn test_grid_style() {
    assert_eq!(GridStyle::Alternate.as_str(), "alternate");
    assert_eq!(GridStyle::Material.as_str(), "material");
}

#[test]
fn test_auth_header() {
    let service = SteamGridDBService::new("test_api_key".to_string());
    assert_eq!(service.auth_header(), "Bearer test_api_key");
}

#[test]
fn search_result_prefers_verified_then_shortest() {
    let games = vec![
        SteamGridDBGame { id: 1, name: "Long Unverified Name".to_string(), verified: false, release_date: None },
        SteamGridDBGame { id: 2, name: "Verified But Longer".to_string(), verified: true, release_date: None },
        SteamGridDBGame { id: 3, name: "Verified".to_string(), verified: true, release_date: None },
    ];
    assert_eq!(pick_search_result(games).unwrap().id, 3);
    let none: Vec<SteamGridDBGame> = vec![];
    assert!(pick_search_result(none).is_none());
}

#[test]
fn content_types_map_to_extensions() {
    assert_eq!(extension_for_content_type("image/png"), "png");
    assert_eq!(extension_for_content_type("image/webp"), "webp");
    assert_eq!(extension_for_content_type("image/gif"), "gif");
    assert_eq!(extension_for_content_type("image/jpeg"), "jpg");
    assert_eq!(extension_for_content_type("text/html"), "jpg");
}

#[test]
fn status_codes_classify_by_adapter_rules() {
    assert_eq!(classify_status(200), StatusClass::Success);
    assert_eq!(classify_status(299), StatusClass::Success);
    assert_eq!(classify_status(404), StatusClass::NotFound);
    assert_eq!(classify_status(429), StatusClass::RateLimited);
    assert_eq!(classify_status(500), StatusClass::Failure);
    assert_eq!(classify_status(301), StatusClass::Failure);
}

#[test]
fn source_errors_have_messages() {
    assert_eq!(SourceError::ConfigurationAbsent.message(), "credentials not configured");
    assert_eq!(SourceError::NotFound.message(), "not found");
    assert_eq!(SourceError::RateLimited.message(), "rate limit exceeded");
    assert_eq!(SourceError::TransientNetwork.message(), "request failed");
    assert_eq!(SourceError::Protocol.message(), "malformed response");
    assert_eq!(SourceError::CacheIo.message(), "cache unavailable");
}

//! Tests of the achievement join and the storefront listing parser.

use pixxiden::achievements::{join_achievements, player_achievements_from_response,
    schema_from_response, AchievementsService, GameAchievements, SteamAchievementSchema,
    SteamGameSchema, SteamGameStats, SteamPlayerAchievement, SteamPlayerAchievementsResponse,
    SteamPlayerStats, SteamSchemaResponse};

fn schema_entry(name: &str, display: &str) -> SteamAchievementSchema {
    SteamAchievementSchema {
        name: name.to_string(),
        display_name: display.to_string(),
        description: None,
        icon: None,
        icongray: None,
        hidden: None,
    }
}

fn player_entry(name: &str, achieved: u8, unlocktime: Option<i64>) -> SteamPlayerAchievement {
    SteamPlayerAchievement {
        apiname: name.to_string(),
        achieved,
        unlocktime,
        name: None,
        description: None,
    }
}

#[test]
fn test_game_achievements_completion() {
    let achievements = GameAchievements { total: 100, unlocked: 50, achievements: vec![] };
    assert_eq!(achievements.completion_percentage(), 5000);
}

#[test]
fn test_game_achievements_completion_zero() {
    let achievements = GameAchievements { total: 0, unlocked: 0, achievements: vec![] };
    assert_eq!(achievements.completion_percentage(), 0);
}

#[test]
fn completion_for_37_of_100_is_37_percent() {
    let achievements = GameAchievements { total: 100, unlocked: 37, achievements: vec![] };
    assert_eq!(achievements.completion_percentage(), 3700);
}

#[test]
fn test_parse_achievement_counts() {
    assert_eq!(
        AchievementsService::parse_achievement_counts("Achievements: 37/63 unlocked"),
        Some((63, 37))
    );
    assert_eq!(AchievementsService::parse_achievement_counts("10/20"), Some((20, 10)));
}

#[test]
fn counts_need_two_numbers() {
    assert_eq!(AchievementsService::parse_achievement_counts("nothing numeric"), None);
    assert_eq!(AchievementsService::parse_achievement_counts("only 7 here"), None);
}

#[test]
fn test_parse_legendary_achievements() {
    let output = "\nGame Status: Hollow Knight\nVersion: 1.5.0.0\nInstalled: Yes\n\nAchievements: 37/63 unlocked\n- [\u{2713}] Completion - Complete the game\n- [\u{2713}] Speedrun - Complete in under 5 hours\n- [ ] 100% - Achieve 100% completion\n- [x] Another - With description - This is a description\n";

    let result = AchievementsService::parse_legendary_achievements(output);
    assert!(result.is_some());

    let achievements = result.unwrap();
    assert_eq!(achievements.total, 63);
    assert_eq!(achievements.unlocked, 37);
    assert_eq!(achievements.achievements.len(), 4);

    assert!(achievements.achievements[0].achieved);
    assert_eq!(achievements.achievements[0].name, "Completion");

    assert!(achievements.achievements[1].achieved);

    assert!(!achievements.achievements[2].achieved);
    assert_eq!(achievements.achievements[2].name, "100%");

    assert!(achievements.achievements[3].achieved);
}

#[test]
fn test_parse_legendary_no_achievements() {
    let output = "Game Status: Some Game\nNo achievements available\n";
    let result = AchievementsService::parse_legendary_achievements(output);
    assert!(result.is_none());
}

#[test]
fn listing_without_summary_counts_checked_lines() {
    let output = "Achievements: unlocked so far\n- [x] First - one\n- [ ] Second - two\n- [X] Third\n";
    let result = AchievementsService::parse_legendary_achievements(output).unwrap();
    assert_eq!(result.total, 3);
    assert_eq!(result.unlocked, 2);
    assert_eq!(result.achievements[2].name, "Third");
    assert_eq!(result.achievements[1].description, Some("two".to_string()));
}

#[test]
fn gogdl_and_nile_listings_parse_the_same() {
    let output = "Achievements: 1/2 unlocked\n- [x] Done\n";
    let a = AchievementsService::parse_gogdl_achievements(output).unwrap();
    let b = AchievementsService::parse_nile_achievements(output).unwrap();
    assert_eq!(a.total, 2);
    assert_eq!(a.unlocked, 1);
    assert_eq!(a, b);
}

#[test]
fn test_can_fetch_steam() {
    let service =
        AchievementsService::new(Some("api_key".to_string()), Some("steam_id".to_string()));
    assert!(service.can_fetch_steam());

    let service_no_key = AchievementsService::new(None, Some("steam_id".to_string()));
    assert!(!service_no_key.can_fetch_steam());

    let service_no_id = AchievementsService::new(Some("api_key".to_string()), None);
    assert!(!service_no_id.can_fetch_steam());
}

#[test]
fn empty_schema_means_no_achievements() {
    let schema: Vec<SteamAchievementSchema> = vec![];
    let player: Vec<SteamPlayerAchievement> = vec![];
    assert!(join_achievements(&schema, &player).is_none());
}

#[test]
fn join_counts_unlocks_and_misses() {
    let schema = vec![schema_entry("ACH_A", "Alpha"), schema_entry("ACH_B", "Beta")];
    let player = vec![player_entry("ACH_A", 1, Some(1234))];
    let joined = join_achievements(&schema, &player).unwrap();
    assert_eq!(joined.total, 2);
    assert_eq!(joined.unlocked, 1);
    assert!(joined.achievements[0].achieved);
    assert_eq!(joined.achievements[0].unlock_time, Some(1234));
    assert_eq!(joined.achievements[0].name, "Alpha");
    assert!(!joined.achievements[1].achieved);
    assert_eq!(joined.achievements[1].unlock_time, None);
}

#[test]
fn join_takes_the_last_duplicate_player_entry() {
    let schema = vec![schema_entry("ACH", "Dup")];
    let player = vec![player_entry("ACH", 0, None), player_entry("ACH", 1, Some(99))];
    let joined = join_achievements(&schema, &player).unwrap();
    assert!(joined.achievements[0].achieved);
    assert_eq!(joined.achievements[0].unlock_time, Some(99));
}

#[test]
fn schema_response_unwraps_or_defaults() {
    let full = SteamSchemaResponse {
        game: Some(SteamGameSchema {
            game_name: Some("G".to_string()),
            game_version: None,
            available_game_stats: Some(SteamGameStats {
                achievements: Some(vec![schema_entry("A", "A")]),
            }),
        }),
    };
    assert_eq!(schema_from_response(full).len(), 1);
    assert_eq!(schema_from_response(SteamSchemaResponse { game: None }).len(), 0);
}

#[test]
fn player_error_field_means_no_achievements() {
    let resp = SteamPlayerAchievementsResponse {
        playerstats: Some(SteamPlayerStats {
            steam_id: None,
            game_name: None,
            achievements: Some(vec![player_entry("A", 1, None)]),
            success: Some(false),
            error: Some("Profile is not public".to_string()),
        }),
    };
    assert!(player_achievements_from_response(resp).is_empty());
}

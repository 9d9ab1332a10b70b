//! Enrichment orchestrator: decides when the cache is fresh, merges the
//! per-source fetch results into a cache record, and builds the enriched
//! view of a game.  Driving the sources themselves is I/O and lives
//! outside the library; the decisions and the merge are verified here.

use vstd::prelude::*;
use crate::cache::{lookup, spec_is_stale, MetadataCache};
use crate::howlongtobeat::HLTBDurations;
use crate::igdb::IGDBMetadata;
use crate::models::{clone_opt_string, clone_opt_u32, clone_vec_string, EnrichedGame, Game,
    GameMetadata};
use crate::protondb::ProtonDBCompatibility;

verus! {

/// Configuration of the orchestrator: the cache age limit and the per-
/// source enable switches.
#[derive(Debug, Clone, PartialEq)]
pub struct EnricherConfig {
    /// Maximum age of cached metadata before refresh, in days.
    pub cache_max_age_days: i64,
    /// Whether to fetch visual assets.
    pub fetch_assets: bool,
    /// Whether to fetch duration estimates.
    pub fetch_hltb: bool,
    /// Whether to fetch compatibility reports.
    pub fetch_protondb: bool,
    /// Whether to fetch achievements.
    pub fetch_achievements: bool,
}

impl Default for EnricherConfig {
    /// Thirty days of cache life with every source enabled.
    fn default() -> (r: EnricherConfig)
        ensures
            r.cache_max_age_days == 30,
            r.fetch_assets,
            r.fetch_hltb,
            r.fetch_protondb,
            r.fetch_achievements,
    {
        EnricherConfig {
            cache_max_age_days: 30,
            fetch_assets: true,
            fetch_hltb: true,
            fetch_protondb: true,
            fetch_achievements: true,
        }
    }
}

/// Local paths of the four asset kinds, as far as they are present.
#[derive(Debug, Clone, PartialEq, Default)]
pub struct AssetPaths {
    pub hero: Option<String>,
    pub grid: Option<String>,
    pub logo: Option<String>,
    pub icon: Option<String>,
}

/// What one enrichment pass fetched: whatever subset of sources
/// succeeded.  A `None` source failed or was disabled and must not
/// disturb previously cached values.
#[derive(Debug, Clone, PartialEq, Default)]
pub struct FetchResults {
    pub igdb: Option<IGDBMetadata>,
    pub hltb: Option<HLTBDurations>,
    pub protondb: Option<ProtonDBCompatibility>,
    /// Achievement totals: (total, unlocked).
    pub achievements: Option<(u32, u32)>,
    pub assets: AssetPaths,
}

/// The first option when present, else the second.
pub open spec fn opt_or<A>(a: Option<A>, b: Option<A>) -> Option<A> {
    match a {
        Some(x) => Some(x),
        None => b,
    }
}

/// Takes the first option when present, else a copy of the second.
fn or_string(a: Option<String>, b: &Option<String>) -> (r: Option<String>)
    ensures
        r == opt_or(a, *b),
{
    match a {
        Some(s) => Some(s),
        None => clone_opt_string(b),
    }
}

/// A game needs a fetch when it has no cached record or the record is
/// stale; a present, fresh record is served from the cache.
pub fn needs_refetch(doc: &MetadataCache, game_id: &str, now: i64, max_age_days: i64) -> (r: bool)
    ensures
        r == match lookup(doc.games@, game_id@) {
            Some(m) => spec_is_stale(m, now as int, max_age_days as int),
            None => true,
        },
{
    doc.is_stale(game_id, now, max_age_days)
}

/// The asset step is skipped entirely when all four kinds already exist
/// on disk.
pub fn should_fetch_assets(
    hero_exists: bool,
    grid_exists: bool,
    logo_exists: bool,
    icon_exists: bool,
) -> (r: bool)
    ensures
        r == !(hero_exists && grid_exists && logo_exists && icon_exists),
{
    !(hero_exists && grid_exists && logo_exists && icon_exists)
}

/// Per kind, an already existing asset path wins over a freshly
/// downloaded one.
pub fn resolve_asset_paths(existing: AssetPaths, fetched: AssetPaths) -> (r: AssetPaths)
    ensures
        r.hero == opt_or(existing.hero, fetched.hero),
        r.grid == opt_or(existing.grid, fetched.grid),
        r.logo == opt_or(existing.logo, fetched.logo),
        r.icon == opt_or(existing.icon, fetched.icon),
{
    AssetPaths {
        hero: or_string(existing.hero, &fetched.hero),
        grid: or_string(existing.grid, &fetched.grid),
        logo: or_string(existing.logo, &fetched.logo),
        icon: or_string(existing.icon, &fetched.icon),
    }
}

/// Merges one pass's fetch results over the previous cache record.
/// Each source's field group is replaced when that source succeeded and
/// carried over from the previous record otherwise, so a failed source
/// never erases cached data.  `fetched_at` is set once and kept;
/// `last_updated` is refreshed on every merge.
pub fn merge_metadata(
    game_id: String,
    prev: Option<&GameMetadata>,
    results: &FetchResults,
    now: i64,
) -> (r: GameMetadata)
    ensures
        r.game_id == game_id,
        r.fetched_at == match prev {
            Some(p) => p.fetched_at,
            None => now,
        },
        r.last_updated == now,
        ({
            let p_igdb_id: Option<u64> = match prev {
                Some(p) => p.igdb_id,
                None => None,
            };
            let p_descr: Option<String> = match prev {
                Some(p) => p.description,
                None => None,
            };
            let p_summary: Option<String> = match prev {
                Some(p) => p.summary,
                None => None,
            };
            let p_meta: Option<u8> = match prev {
                Some(p) => p.metacritic_score,
                None => None,
            };
            let p_rating: Option<u32> = match prev {
                Some(p) => p.igdb_rating,
                None => None,
            };
            let p_dev: Option<String> = match prev {
                Some(p) => p.developer,
                None => None,
            };
            let p_pub: Option<String> = match prev {
                Some(p) => p.publisher,
                None => None,
            };
            let p_genres: Seq<String> = match prev {
                Some(p) => p.genres@,
                None => Seq::empty(),
            };
            let p_release: Option<String> = match prev {
                Some(p) => p.release_date,
                None => None,
            };
            let p_steam: Option<u32> = match prev {
                Some(p) => p.steam_app_id,
                None => None,
            };
            match results.igdb {
                Some(m) => {
                    &&& r.igdb_id == Some(m.igdb_id)
                    &&& r.description == opt_or(m.description, m.summary)
                    &&& r.summary == m.summary
                    &&& r.metacritic_score == m.metacritic_score()
                    &&& r.igdb_rating == m.rating
                    &&& r.developer == m.developer
                    &&& r.publisher == m.publisher
                    &&& r.genres@ == m.genres@
                    &&& r.release_date == m.release_date
                    &&& r.steam_app_id == m.steam_app_id
                },
                None => {
                    &&& r.igdb_id == p_igdb_id
                    &&& r.description == p_descr
                    &&& r.summary == p_summary
                    &&& r.metacritic_score == p_meta
                    &&& r.igdb_rating == p_rating
                    &&& r.developer == p_dev
                    &&& r.publisher == p_pub
                    &&& r.genres@ == p_genres
                    &&& r.release_date == p_release
                    &&& r.steam_app_id == p_steam
                },
            }
        }),
        ({
            let p_hltb_id: Option<u64> = match prev {
                Some(p) => p.hltb_id,
                None => None,
            };
            let p_main: Option<u32> = match prev {
                Some(p) => p.hltb_main,
                None => None,
            };
            let p_extra: Option<u32> = match prev {
                Some(p) => p.hltb_main_extra,
                None => None,
            };
            let p_complete: Option<u32> = match prev {
                Some(p) => p.hltb_complete,
                None => None,
            };
            let p_speed: Option<u32> = match prev {
                Some(p) => p.hltb_speedrun,
                None => None,
            };
            match results.hltb {
                Some(d) => {
                    &&& r.hltb_id == d.game_id
                    &&& r.hltb_main == d.main_story
                    &&& r.hltb_main_extra == d.main_extra
                    &&& r.hltb_complete == d.completionist
                    &&& r.hltb_speedrun == d.speedrun
                },
                None => {
                    &&& r.hltb_id == p_hltb_id
                    &&& r.hltb_main == p_main
                    &&& r.hltb_main_extra == p_extra
                    &&& r.hltb_complete == p_complete
                    &&& r.hltb_speedrun == p_speed
                },
            }
        }),
        ({
            let p_tier: Option<String> = match prev {
                Some(p) => p.proton_tier,
                None => None,
            };
            let p_conf: Option<String> = match prev {
                Some(p) => p.proton_confidence,
                None => None,
            };
            let p_trend: Option<String> = match prev {
                Some(p) => p.proton_trending_tier,
                None => None,
            };
            match results.protondb {
                Some(c) => {
                    &&& r.proton_tier == c.tier
                    &&& r.proton_confidence == c.confidence
                    &&& r.proton_trending_tier == c.trending_tier
                },
                None => {
                    &&& r.proton_tier == p_tier
                    &&& r.proton_confidence == p_conf
                    &&& r.proton_trending_tier == p_trend
                },
            }
        }),
        ({
            let p_total: Option<u32> = match prev {
                Some(p) => p.achievements_total,
                None => None,
            };
            let p_unlocked: Option<u32> = match prev {
                Some(p) => p.achievements_unlocked,
                None => None,
            };
            match results.achievements {
                Some(t) => r.achievements_total == Some(t.0) && r.achievements_unlocked == Some(
                    t.1,
                ),
                None => r.achievements_total == p_total && r.achievements_unlocked == p_unlocked,
            }
        }),
        ({
            let p_hero: Option<String> = match prev {
                Some(p) => p.hero_path,
                None => None,
            };
            let p_grid: Option<String> = match prev {
                Some(p) => p.grid_path,
                None => None,
            };
            let p_logo: Option<String> = match prev {
                Some(p) => p.logo_path,
                None => None,
            };
            let p_icon: Option<String> = match prev {
                Some(p) => p.icon_path,
                None => None,
            };
            &&& r.hero_path == opt_or(results.assets.hero, p_hero)
            &&& r.grid_path == opt_or(results.assets.grid, p_grid)
            &&& r.logo_path == opt_or(results.assets.logo, p_logo)
            &&& r.icon_path == opt_or(results.assets.icon, p_icon)
        }),
{
    let fetched_at: i64 = match prev {
        Some(p) => p.fetched_at,
        None => now,
    };
    let (igdb_id, description, summary, metacritic_score, igdb_rating, developer, publisher,
        genres, release_date, steam_app_id): (
        Option<u64>,
        Option<String>,
        Option<String>,
        Option<u8>,
        Option<u32>,
        Option<String>,
        Option<String>,
        Vec<String>,
        Option<String>,
        Option<u32>,
    ) = match &results.igdb {
        Some(m) => {
            let descr = or_string(clone_opt_string(&m.description), &m.summary);
            (
                Some(m.igdb_id),
                descr,
                clone_opt_string(&m.summary),
                m.review_score(),
                clone_opt_u32(&m.rating),
                clone_opt_string(&m.developer),
                clone_opt_string(&m.publisher),
                clone_vec_string(&m.genres),
                clone_opt_string(&m.release_date),
                clone_opt_u32(&m.steam_app_id),
            )
        },
        None => match prev {
            Some(p) => (
                p.igdb_id,
                clone_opt_string(&p.description),
                clone_opt_string(&p.summary),
                match p.metacritic_score {
                    Some(v) => Some(v),
                    None => None,
                },
                clone_opt_u32(&p.igdb_rating),
                clone_opt_string(&p.developer),
                clone_opt_string(&p.publisher),
                clone_vec_string(&p.genres),
                clone_opt_string(&p.release_date),
                clone_opt_u32(&p.steam_app_id),
            ),
            None => (None, None, None, None, None, None, None, Vec::new(), None, None),
        },
    };
    let (hltb_id, hltb_main, hltb_main_extra, hltb_complete, hltb_speedrun): (
        Option<u64>,
        Option<u32>,
        Option<u32>,
        Option<u32>,
        Option<u32>,
    ) = match &results.hltb {
        Some(d) => (
            match d.game_id {
                Some(v) => Some(v),
                None => None,
            },
            clone_opt_u32(&d.main_story),
            clone_opt_u32(&d.main_extra),
            clone_opt_u32(&d.completionist),
            clone_opt_u32(&d.speedrun),
        ),
        None => match prev {
            Some(p) => (
                p.hltb_id,
                clone_opt_u32(&p.hltb_main),
                clone_opt_u32(&p.hltb_main_extra),
                clone_opt_u32(&p.hltb_complete),
                clone_opt_u32(&p.hltb_speedrun),
            ),
            None => (None, None, None, None, None),
        },
    };
    let (proton_tier, proton_confidence, proton_trending_tier): (
        Option<String>,
        Option<String>,
        Option<String>,
    ) = match &results.protondb {
        Some(c) => (
            clone_opt_string(&c.tier),
            clone_opt_string(&c.confidence),
            clone_opt_string(&c.trending_tier),
        ),
        None => match prev {
            Some(p) => (
                clone_opt_string(&p.proton_tier),
                clone_opt_string(&p.proton_confidence),
                clone_opt_string(&p.proton_trending_tier),
            ),
            None => (None, None, None),
        },
    };
    let (achievements_total, achievements_unlocked): (Option<u32>, Option<u32>) = match
        &results.achievements {
        Some(t) => (Some(t.0), Some(t.1)),
        None => match prev {
            Some(p) => (clone_opt_u32(&p.achievements_total), clone_opt_u32(
                &p.achievements_unlocked,
            )),
            None => (None, None),
        },
    };
    let (p_hero, p_grid, p_logo, p_icon): (
        Option<String>,
        Option<String>,
        Option<String>,
        Option<String>,
    ) = match prev {
        Some(p) => (
            clone_opt_string(&p.hero_path),
            clone_opt_string(&p.grid_path),
            clone_opt_string(&p.logo_path),
            clone_opt_string(&p.icon_path),
        ),
        None => (None, None, None, None),
    };
    GameMetadata {
        game_id,
        igdb_id,
        description,
        summary,
        metacritic_score,
        igdb_rating,
        developer,
        publisher,
        genres,
        release_date,
        hltb_id,
        hltb_main,
        hltb_main_extra,
        hltb_complete,
        hltb_speedrun,
        steam_app_id,
        proton_tier,
        proton_confidence,
        proton_trending_tier,
        achievements_total,
        achievements_unlocked,
        hero_path: or_string(clone_opt_string(&results.assets.hero), &p_hero),
        grid_path: or_string(clone_opt_string(&results.assets.grid), &p_grid),
        logo_path: or_string(clone_opt_string(&results.assets.logo), &p_logo),
        icon_path: or_string(clone_opt_string(&results.assets.icon), &p_icon),
        fetched_at,
        last_updated: now,
    }
}

/// Builds the enriched view of a game from its base record and a cache
/// record.  Metadata-sourced developer, publisher and release date take
/// precedence over the base record's own values; base fields pass
/// through unchanged.
pub fn build_enriched_game(game: &Game, metadata: &GameMetadata) -> (r: EnrichedGame)
    ensures
        r.id@ == game.id@,
        r.title@ == game.title@,
        r.store@ == game.store@,
        r.store_id@ == game.store_id@,
        r.installed == game.installed,
        r.install_path == game.install_path,
        r.wine_prefix == game.wine_prefix,
        r.wine_version == game.wine_version,
        r.description == metadata.description,
        r.metacritic_score == metadata.metacritic_score,
        r.igdb_rating == metadata.igdb_rating,
        r.developer == opt_or(metadata.developer, game.developer),
        r.publisher == opt_or(metadata.publisher, game.publisher),
        r.genres@ == metadata.genres@,
        r.release_date == opt_or(metadata.release_date, game.release_date),
        r.summary == metadata.summary,
        r.hltb_main == metadata.hltb_main,
        r.hltb_main_extra == metadata.hltb_main_extra,
        r.hltb_complete == metadata.hltb_complete,
        r.hltb_speedrun == metadata.hltb_speedrun,
        r.proton_tier == metadata.proton_tier,
        r.proton_confidence == metadata.proton_confidence,
        r.proton_trending_tier == metadata.proton_trending_tier,
        r.steam_app_id == metadata.steam_app_id,
        r.achievements_total == metadata.achievements_total,
        r.achievements_unlocked == metadata.achievements_unlocked,
        r.hero_path == metadata.hero_path,
        r.grid_path == metadata.grid_path,
        r.logo_path == metadata.logo_path,
        r.icon_path == metadata.icon_path,
        r.cover_url == game.cover_url,
        r.background_url == game.background_url,
        r.play_time_minutes == game.play_time_minutes,
        r.last_played == game.last_played,
        r.created_at == game.created_at,
        r.updated_at == game.updated_at,
        r.enriched_at == Some(metadata.last_updated),
{
    EnrichedGame {
        id: game.id.clone(),
        title: game.title.clone(),
        store: game.store.clone(),
        store_id: game.store_id.clone(),
        installed: game.installed,
        install_path: clone_opt_string(&game.install_path),
        wine_prefix: clone_opt_string(&game.wine_prefix),
        wine_version: clone_opt_string(&game.wine_version),
        description: clone_opt_string(&metadata.description),
        metacritic_score: match metadata.metacritic_score {
            Some(v) => Some(v),
            None => None,
        },
        igdb_rating: clone_opt_u32(&metadata.igdb_rating),
        developer: or_string(clone_opt_string(&metadata.developer), &game.developer),
        publisher: or_string(clone_opt_string(&metadata.publisher), &game.publisher),
        genres: clone_vec_string(&metadata.genres),
        release_date: or_string(clone_opt_string(&metadata.release_date), &game.release_date),
        summary: clone_opt_string(&metadata.summary),
        hltb_main: clone_opt_u32(&metadata.hltb_main),
        hltb_main_extra: clone_opt_u32(&metadata.hltb_main_extra),
        hltb_complete: clone_opt_u32(&metadata.hltb_complete),
        hltb_speedrun: clone_opt_u32(&metadata.hltb_speedrun),
        proton_tier: clone_opt_string(&metadata.proton_tier),
        proton_confidence: clone_opt_string(&metadata.proton_confidence),
        proton_trending_tier: clone_opt_string(&metadata.proton_trending_tier),
        steam_app_id: clone_opt_u32(&metadata.steam_app_id),
        achievements_total: clone_opt_u32(&metadata.achievements_total),
        achievements_unlocked: clone_opt_u32(&metadata.achievements_unlocked),
        hero_path: clone_opt_string(&metadata.hero_path),
        grid_path: clone_opt_string(&metadata.grid_path),
        logo_path: clone_opt_string(&metadata.logo_path),
        icon_path: clone_opt_string(&metadata.icon_path),
        cover_url: clone_opt_string(&game.cover_url),
        background_url: clone_opt_string(&game.background_url),
        play_time_minutes: game.play_time_minutes,
        last_played: match game.last_played {
            Some(v) => Some(v),
            None => None,
        },
        created_at: game.created_at,
        updated_at: game.updated_at,
        enriched_at: Some(metadata.last_updated),
    }
}

/// Builds the minimal enriched view from the base record alone, used
/// when enrichment fails irrecoverably: every metadata-derived field is
/// absent and the base fields pass through.
pub fn build_minimal_enriched(game: &Game) -> (r: EnrichedGame)
    ensures
        r.id@ == game.id@,
        r.title@ == game.title@,
        r.store@ == game.store@,
        r.store_id@ == game.store_id@,
        r.installed == game.installed,
        r.install_path == game.install_path,
        r.wine_prefix == game.wine_prefix,
        r.wine_version == game.wine_version,
        r.description == game.description,
        r.metacritic_score is None,
        r.igdb_rating is None,
        r.developer == game.developer,
        r.publisher == game.publisher,
        r.genres@ =~= Seq::<String>::empty(),
        r.release_date == game.release_date,
        r.summary is None,
        r.hltb_main is None,
        r.hltb_main_extra is None,
        r.hltb_complete is None,
        r.hltb_speedrun is None,
        r.proton_tier is None,
        r.proton_confidence is None,
        r.proton_trending_tier is None,
        r.steam_app_id is None,
        r.achievements_total is None,
        r.achievements_unlocked is None,
        r.hero_path is None,
        r.grid_path is None,
        r.logo_path is None,
        r.icon_path is None,
        r.cover_url == game.cover_url,
        r.background_url == game.background_url,
        r.play_time_minutes == game.play_time_minutes,
        r.last_played == game.last_played,
        r.created_at == game.created_at,
        r.updated_at == game.updated_at,
        r.enriched_at is None,
{
    EnrichedGame {
        id: game.id.clone(),
        title: game.title.clone(),
        store: game.store.clone(),
        store_id: game.store_id.clone(),
        installed: game.installed,
        install_path: clone_opt_string(&game.install_path),
        wine_prefix: clone_opt_string(&game.wine_prefix),
        wine_version: clone_opt_string(&game.wine_version),
        description: clone_opt_string(&game.description),
        metacritic_score: None,
        igdb_rating: None,
        developer: clone_opt_string(&game.developer),
        publisher: clone_opt_string(&game.publisher),
        genres: Vec::new(),
        release_date: clone_opt_string(&game.release_date),
        summary: None,
        hltb_main: None,
        hltb_main_extra: None,
        hltb_complete: None,
        hltb_speedrun: None,
        proton_tier: None,
        proton_confidence: None,
        proton_trending_tier: None,
        steam_app_id: None,
        achievements_total: None,
        achievements_unlocked: None,
        hero_path: None,
        grid_path: None,
        logo_path: None,
        icon_path: None,
        cover_url: clone_opt_string(&game.cover_url),
        background_url: clone_opt_string(&game.background_url),
        play_time_minutes: game.play_time_minutes,
        last_played: match game.last_played {
            Some(v) => Some(v),
            None => None,
        },
        created_at: game.created_at,
        updated_at: game.updated_at,
        enriched_at: None,
    }
}

/// A record saved by one enrichment pass is served from the cache by any
/// later pass within the staleness window: the lookup finds exactly the
/// saved record and the staleness check does not ask for a re-fetch, so
/// the later pass performs no source calls and builds its view from the
/// identical record.
pub proof fn lemma_fresh_record_reused(
    doc: MetadataCache,
    m: GameMetadata,
    now: int,
    max_age_days: int,
)
    requires
        lookup(doc.games@, m.game_id@) == Some(m),
        now - m.last_updated <= max_age_days * 86400,
    ensures
        !spec_is_stale(m, now, max_age_days),
        lookup(doc.games@, m.game_id@) == Some(m),
{
}

} // verus!

//! Data model of the enrichment pipeline: the base game record handed in by
//! the storefront layer, the cached metadata record, the enriched view built
//! from both, and small result types shared by several sources.
//!
//! Timestamps are Unix seconds (`i64`).  Ratings are stored in hundredths,
//! so a catalog rating of 85.5 becomes 8550.

use vstd::prelude::*;

verus! {

/// A base game record, owned by the storefront layer and read-only here.
#[derive(Debug, Clone, PartialEq, Default)]
pub struct Game {
    pub id: String,
    pub title: String,
    pub store: String,
    pub store_id: String,
    pub installed: bool,
    pub install_path: Option<String>,
    pub custom_executable: Option<String>,
    pub wine_prefix: Option<String>,
    pub wine_version: Option<String>,
    pub cover_url: Option<String>,
    pub background_url: Option<String>,
    pub developer: Option<String>,
    pub publisher: Option<String>,
    pub description: Option<String>,
    pub release_date: Option<String>,
    pub last_played: Option<i64>,
    pub play_time_minutes: i64,
    pub created_at: i64,
    pub updated_at: i64,
}

/// The cached metadata record for one game, as persisted in the metadata
/// document.  Every field a source failed to supply stays `None`.
#[derive(Debug, Clone, PartialEq, Default)]
pub struct GameMetadata {
    pub game_id: String,
    pub igdb_id: Option<u64>,
    pub description: Option<String>,
    pub summary: Option<String>,
    pub metacritic_score: Option<u8>,
    /// Catalog rating in hundredths of a point.
    pub igdb_rating: Option<u32>,
    pub developer: Option<String>,
    pub publisher: Option<String>,
    pub genres: Vec<String>,
    pub release_date: Option<String>,
    pub hltb_id: Option<u64>,
    pub hltb_main: Option<u32>,
    pub hltb_main_extra: Option<u32>,
    pub hltb_complete: Option<u32>,
    pub hltb_speedrun: Option<u32>,
    pub steam_app_id: Option<u32>,
    pub proton_tier: Option<String>,
    pub proton_confidence: Option<String>,
    pub proton_trending_tier: Option<String>,
    pub achievements_total: Option<u32>,
    pub achievements_unlocked: Option<u32>,
    pub hero_path: Option<String>,
    pub grid_path: Option<String>,
    pub logo_path: Option<String>,
    pub icon_path: Option<String>,
    /// Set once, when the record is first created.
    pub fetched_at: i64,
    /// Refreshed on every re-fetch.
    pub last_updated: i64,
}

/// The enriched view of a game: base fields plus cached metadata, built on
/// demand and never persisted.
#[derive(Debug, Clone, PartialEq, Default)]
pub struct EnrichedGame {
    pub id: String,
    pub title: String,
    pub store: String,
    pub store_id: String,
    pub installed: bool,
    pub install_path: Option<String>,
    pub wine_prefix: Option<String>,
    pub wine_version: Option<String>,
    pub description: Option<String>,
    pub metacritic_score: Option<u8>,
    /// Catalog rating in hundredths of a point.
    pub igdb_rating: Option<u32>,
    pub developer: Option<String>,
    pub publisher: Option<String>,
    pub genres: Vec<String>,
    pub release_date: Option<String>,
    pub summary: Option<String>,
    pub hltb_main: Option<u32>,
    pub hltb_main_extra: Option<u32>,
    pub hltb_complete: Option<u32>,
    pub hltb_speedrun: Option<u32>,
    pub proton_tier: Option<String>,
    pub proton_confidence: Option<String>,
    pub proton_trending_tier: Option<String>,
    pub steam_app_id: Option<u32>,
    pub achievements_total: Option<u32>,
    pub achievements_unlocked: Option<u32>,
    pub hero_path: Option<String>,
    pub grid_path: Option<String>,
    pub logo_path: Option<String>,
    pub icon_path: Option<String>,
    pub cover_url: Option<String>,
    pub background_url: Option<String>,
    pub play_time_minutes: i64,
    pub last_played: Option<i64>,
    pub created_at: i64,
    pub updated_at: i64,
    pub enriched_at: Option<i64>,
}

/// Compatibility tiers as cached alongside game records.
#[derive(Debug, Clone, PartialEq, Eq)]
pub enum ProtonTier {
    Platinum,
    Gold,
    Silver,
    Bronze,
    Borked,
    Pending,
}

/// The canonical lower-case name of a tier.
pub open spec fn spec_tier_name(t: ProtonTier) -> Seq<char> {
    match t {
        ProtonTier::Platinum => "platinum"@,
        ProtonTier::Gold => "gold"@,
        ProtonTier::Silver => "silver"@,
        ProtonTier::Bronze => "bronze"@,
        ProtonTier::Borked => "borked"@,
        ProtonTier::Pending => "pending"@,
    }
}

/// The tier named by a string, compared after ASCII lower-casing.
pub open spec fn spec_tier_from_str(s: Seq<char>) -> Option<ProtonTier> {
    let l = crate::text::lower_seq(s);
    if l == "platinum"@ {
        Some(ProtonTier::Platinum)
    } else if l == "gold"@ {
        Some(ProtonTier::Gold)
    } else if l == "silver"@ {
        Some(ProtonTier::Silver)
    } else if l == "bronze"@ {
        Some(ProtonTier::Bronze)
    } else if l == "borked"@ {
        Some(ProtonTier::Borked)
    } else if l == "pending"@ {
        Some(ProtonTier::Pending)
    } else {
        None
    }
}

impl ProtonTier {
    /// Parses a tier name, ignoring ASCII case; unknown names yield `None`.
    pub fn from_str(s: &str) -> (r: Option<ProtonTier>)
        ensures
            r == spec_tier_from_str(s@),
    {
        let l = crate::text::ascii_lowercase(s);
        if crate::text::str_eq(l.as_str(), "platinum") {
            Some(ProtonTier::Platinum)
        } else if crate::text::str_eq(l.as_str(), "gold") {
            Some(ProtonTier::Gold)
        } else if crate::text::str_eq(l.as_str(), "silver") {
            Some(ProtonTier::Silver)
        } else if crate::text::str_eq(l.as_str(), "bronze") {
            Some(ProtonTier::Bronze)
        } else if crate::text::str_eq(l.as_str(), "borked") {
            Some(ProtonTier::Borked)
        } else if crate::text::str_eq(l.as_str(), "pending") {
            Some(ProtonTier::Pending)
        } else {
            None
        }
    }

    /// The canonical lower-case name of the tier.
    pub fn as_str(&self) -> (r: &'static str)
        ensures
            r@ == spec_tier_name(*self),
    {
        match self {
            ProtonTier::Platinum => "platinum",
            ProtonTier::Gold => "gold",
            ProtonTier::Silver => "silver",
            ProtonTier::Bronze => "bronze",
            ProtonTier::Borked => "borked",
            ProtonTier::Pending => "pending",
        }
    }
}

/// A genre entry of the catalog service.
#[derive(Debug, Clone, PartialEq)]
pub struct IGDBGenre {
    pub id: u64,
    pub name: String,
}

/// A company entry of the catalog service.
#[derive(Debug, Clone, PartialEq)]
pub struct IGDBCompany {
    pub id: u64,
    pub name: String,
}

/// A company involved with a game, with its role flags.
#[derive(Debug, Clone, PartialEq)]
pub struct IGDBInvolvedCompany {
    pub company: Option<IGDBCompany>,
    pub developer: Option<bool>,
    pub publisher: Option<bool>,
}

/// A cross-store identifier entry of the catalog service.
#[derive(Debug, Clone, PartialEq)]
pub struct IGDBExternalGame {
    pub category: u8,
    pub uid: String,
}

/// A search result of the asset service.
#[derive(Debug, Clone, PartialEq)]
pub struct SteamGridDBGame {
    pub id: u64,
    pub name: String,
    pub verified: bool,
}

/// Achievement totals for a game on the achievement service.
#[derive(Debug, Clone, PartialEq)]
pub struct SteamAchievements {
    pub total: u32,
    pub unlocked: u32,
    pub achievements: Vec<SteamAchievement>,
}

/// One achievement, joined from schema and player state.
#[derive(Debug, Clone, PartialEq)]
pub struct SteamAchievement {
    pub api_name: String,
    pub name: String,
    pub description: Option<String>,
    pub achieved: bool,
    pub unlock_time: Option<i64>,
    pub icon_url: Option<String>,
}

/// Copies an optional string; the result equals the input.
pub fn clone_opt_string(o: &Option<String>) -> (r: Option<String>)
    ensures
        r == *o,
{
    match o {
        Option::None => Option::None,
        Option::Some(s) => Option::Some(s.clone()),
    }
}

/// Copies an optional integer; the result equals the input.
pub fn clone_opt_u32(o: &Option<u32>) -> (r: Option<u32>)
    ensures
        r == *o,
{
    match o {
        Option::None => Option::None,
        Option::Some(v) => Option::Some(*v),
    }
}

/// Copies a vector of strings; the result has the same view.
pub fn clone_vec_string(v: &Vec<String>) -> (r: Vec<String>)
    ensures
        r@ == v@,
{
    let mut r: Vec<String> = Vec::new();
    let mut i: usize = 0;
    proof {
        assert(r@ =~= v@.subrange(0, 0));
    }
    while i < v.len()
        invariant
            i <= v@.len(),
            r@ == v@.subrange(0, i as int),
        decreases v.len() - i,
    {
        r.push(v[i].clone());
        i = i + 1;
        proof {
            assert(r@ =~= v@.subrange(0, i as int));
        }
    }
    proof {
        assert(v@.subrange(0, v@.len() as int) =~= v@);
    }
    r
}

} // verus!

//! Compatibility source: maps community report summaries to an ordered
//! tier scale and a playability verdict.  The HTTP transport lives outside
//! the library; this module holds the tier algebra and the parsing of a
//! fetched summary into the cached compatibility shape.

use vstd::prelude::*;
use crate::models::clone_opt_string;
use crate::text;

verus! {

/// Compatibility tiers reported by the community service, best first.
#[derive(Debug, Clone, Copy, PartialEq, Eq)]
pub enum ProtonTier {
    Platinum,
    Gold,
    Silver,
    Bronze,
    Borked,
    Pending,
    Native,
}

/// Numeric score of a tier; higher is better.
pub open spec fn spec_tier_score(t: ProtonTier) -> u8 {
    match t {
        ProtonTier::Native => 100u8,
        ProtonTier::Platinum => 90u8,
        ProtonTier::Gold => 75u8,
        ProtonTier::Silver => 50u8,
        ProtonTier::Bronze => 25u8,
        ProtonTier::Pending => 10u8,
        ProtonTier::Borked => 0u8,
    }
}

/// The playable tiers are exactly Native, Platinum, Gold and Silver.
pub open spec fn spec_is_playable(t: ProtonTier) -> bool {
    t == ProtonTier::Native || t == ProtonTier::Platinum || t == ProtonTier::Gold || t
        == ProtonTier::Silver
}

/// The tier named by a string, compared after ASCII lower-casing.
pub open spec fn spec_tier_from_str(s: Seq<char>) -> Option<ProtonTier> {
    let l = text::lower_seq(s);
    if l == "platinum"@ {
        Some(ProtonTier::Platinum)
    } else if l == "gold"@ {
        Some(ProtonTier::Gold)
    } else if l == "silver"@ {
        Some(ProtonTier::Silver)
    } else if l == "bronze"@ {
        Some(ProtonTier::Bronze)
    } else if l == "borked"@ {
        Some(ProtonTier::Borked)
    } else if l == "pending"@ {
        Some(ProtonTier::Pending)
    } else if l == "native"@ {
        Some(ProtonTier::Native)
    } else {
        None
    }
}

impl ProtonTier {
    /// Parses a tier name, ignoring ASCII case; unknown names yield `None`.
    pub fn from_str(s: &str) -> (r: Option<ProtonTier>)
        ensures
            r == spec_tier_from_str(s@),
    {
        let l = text::ascii_lowercase(s);
        if text::str_eq(l.as_str(), "platinum") {
            Some(ProtonTier::Platinum)
        } else if text::str_eq(l.as_str(), "gold") {
            Some(ProtonTier::Gold)
        } else if text::str_eq(l.as_str(), "silver") {
            Some(ProtonTier::Silver)
        } else if text::str_eq(l.as_str(), "bronze") {
            Some(ProtonTier::Bronze)
        } else if text::str_eq(l.as_str(), "borked") {
            Some(ProtonTier::Borked)
        } else if text::str_eq(l.as_str(), "pending") {
            Some(ProtonTier::Pending)
        } else if text::str_eq(l.as_str(), "native") {
            Some(ProtonTier::Native)
        } else {
            None
        }
    }

    /// Numeric score for sorting; higher is better.
    pub fn score(&self) -> (r: u8)
        ensures
            r == spec_tier_score(*self),
    {
        match self {
            ProtonTier::Native => 100,
            ProtonTier::Platinum => 90,
            ProtonTier::Gold => 75,
            ProtonTier::Silver => 50,
            ProtonTier::Bronze => 25,
            ProtonTier::Pending => 10,
            ProtonTier::Borked => 0,
        }
    }

    /// Whether a title at this tier is playable.
    pub fn is_playable(&self) -> (r: bool)
        ensures
            r == spec_is_playable(*self),
    {
        match self {
            ProtonTier::Native | ProtonTier::Platinum | ProtonTier::Gold | ProtonTier::Silver =>
                true,
            ProtonTier::Bronze | ProtonTier::Borked | ProtonTier::Pending => false,
        }
    }
}

/// Tier scores strictly order the scale
/// Native > Platinum > Gold > Silver > Bronze > Pending > Borked,
/// and the playable tiers are exactly those scoring Silver or better.
pub proof fn lemma_tier_order_and_playability()
    ensures
        spec_tier_score(ProtonTier::Native) > spec_tier_score(ProtonTier::Platinum),
        spec_tier_score(ProtonTier::Platinum) > spec_tier_score(ProtonTier::Gold),
        spec_tier_score(ProtonTier::Gold) > spec_tier_score(ProtonTier::Silver),
        spec_tier_score(ProtonTier::Silver) > spec_tier_score(ProtonTier::Bronze),
        spec_tier_score(ProtonTier::Bronze) > spec_tier_score(ProtonTier::Pending),
        spec_tier_score(ProtonTier::Pending) > spec_tier_score(ProtonTier::Borked),
        forall|t: ProtonTier|
            spec_is_playable(t) <==> spec_tier_score(t) >= spec_tier_score(ProtonTier::Silver),
        forall|t: ProtonTier|
            spec_is_playable(t) <==> (t == ProtonTier::Native || t == ProtonTier::Platinum || t
                == ProtonTier::Gold || t == ProtonTier::Silver),
{
    assert forall|t: ProtonTier|
        spec_is_playable(t) <==> spec_tier_score(t) >= spec_tier_score(ProtonTier::Silver) by {
        match t {
            ProtonTier::Native => {},
            ProtonTier::Platinum => {},
            ProtonTier::Gold => {},
            ProtonTier::Silver => {},
            ProtonTier::Bronze => {},
            ProtonTier::Pending => {},
            ProtonTier::Borked => {},
        }
    }
}

/// A community report summary, as fetched for one Steam application.
#[derive(Debug, Clone, PartialEq)]
pub struct ProtonDBSummary {
    pub tier: String,
    pub total: u32,
    pub confidence: Option<String>,
    pub trending_tier: Option<String>,
    pub best_reported_tier: Option<String>,
    pub provisional: Option<bool>,
}

/// Compatibility fields in the shape kept in the cache record.
#[derive(Debug, Clone, PartialEq, Default)]
pub struct ProtonDBCompatibility {
    pub steam_app_id: Option<u32>,
    pub tier: Option<String>,
    pub tier_score: Option<u8>,
    pub confidence: Option<String>,
    pub trending_tier: Option<String>,
    pub best_reported_tier: Option<String>,
    pub total_reports: Option<u32>,
    pub is_playable: bool,
}

impl ProtonDBCompatibility {
    /// The compatibility record meaning "no report": every field absent
    /// and the title not playable.
    pub fn empty() -> (r: ProtonDBCompatibility)
        ensures
            r.steam_app_id is None,
            r.tier is None,
            r.tier_score is None,
            r.confidence is None,
            r.trending_tier is None,
            r.best_reported_tier is None,
            r.total_reports is None,
            !r.is_playable,
    {
        ProtonDBCompatibility {
            steam_app_id: None,
            tier: None,
            tier_score: None,
            confidence: None,
            trending_tier: None,
            best_reported_tier: None,
            total_reports: None,
            is_playable: false,
        }
    }
}

/// Turns a fetched summary into the cached compatibility shape: the tier
/// string is kept as sent, its score and playability come from the parsed
/// tier, and an unknown tier name scores nothing and is not playable.
pub fn compatibility_from_summary(steam_app_id: u32, s: &ProtonDBSummary) -> (r:
    ProtonDBCompatibility)
    ensures
        r.steam_app_id == Some(steam_app_id),
        r.tier is Some && r.tier->0@ == s.tier@,
        r.tier_score == match spec_tier_from_str(s.tier@) {
            Some(t) => Some(spec_tier_score(t)),
            None => None::<u8>,
        },
        r.is_playable == match spec_tier_from_str(s.tier@) {
            Some(t) => spec_is_playable(t),
            None => false,
        },
        r.confidence == s.confidence,
        r.trending_tier == s.trending_tier,
        r.best_reported_tier == s.best_reported_tier,
        r.total_reports == Some(s.total),
{
    let tier = ProtonTier::from_str(s.tier.as_str());
    let tier_score: Option<u8> = match &tier {
        Some(t) => Some(t.score()),
        None => None,
    };
    let playable: bool = match &tier {
        Some(t) => t.is_playable(),
        None => false,
    };
    ProtonDBCompatibility {
        steam_app_id: Some(steam_app_id),
        tier: Some(s.tier.clone()),
        tier_score,
        confidence: clone_opt_string(&s.confidence),
        trending_tier: clone_opt_string(&s.trending_tier),
        best_reported_tier: clone_opt_string(&s.best_reported_tier),
        total_reports: Some(s.total),
        is_playable: playable,
    }
}

} // verus!

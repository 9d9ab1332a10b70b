//! Duration source: picks the best match among search results and converts
//! its completion times, which arrive in seconds, to whole hours.  The
//! HTTP transport lives outside the library.

use vstd::prelude::*;
use crate::models::clone_opt_string;
use crate::text;

verus! {

/// A search result of the duration service.  The `comp_*` fields are
/// completion times in seconds, as the service reports them.
#[derive(Debug, Clone, PartialEq, Default)]
pub struct HLTBGame {
    pub game_id: u64,
    pub game_name: String,
    pub game_image: Option<String>,
    pub comp_main: Option<u64>,
    pub comp_plus: Option<u64>,
    pub comp_100: Option<u64>,
    pub comp_all: Option<u64>,
    pub comp_main_count: Option<u32>,
    pub comp_plus_count: Option<u32>,
    pub comp_100_count: Option<u32>,
}

/// Duration estimates in whole hours, in the shape kept in the cache.
#[derive(Debug, Clone, PartialEq, Default)]
pub struct HLTBDurations {
    pub game_id: Option<u64>,
    pub game_name: Option<String>,
    pub main_story: Option<u32>,
    pub main_extra: Option<u32>,
    pub completionist: Option<u32>,
    pub speedrun: Option<u32>,
}

/// A result name matches the query when, after ASCII lower-casing, they
/// are equal or either contains the other.
pub open spec fn name_matches(name: Seq<char>, query: Seq<char>) -> bool {
    let n = text::lower_seq(name);
    let q = text::lower_seq(query);
    n == q || text::contains_seq(n, q) || text::contains_seq(q, n)
}

/// The first result whose name matches the query, if any.
pub open spec fn first_match(games: Seq<HLTBGame>, query: Seq<char>) -> Option<HLTBGame>
    decreases games.len(),
{
    if games.len() == 0 {
        None
    } else if name_matches(games[0].game_name@, query) {
        Some(games[0])
    } else {
        first_match(games.drop_first(), query)
    }
}

proof fn lemma_first_match_at(games: Seq<HLTBGame>, query: Seq<char>, i: int)
    requires
        0 <= i < games.len(),
        name_matches(games[i].game_name@, query),
        forall|k: int| 0 <= k < i ==> !name_matches((#[trigger] games[k]).game_name@, query),
    ensures
        first_match(games, query) == Some(games[i]),
    decreases games.len(),
{
    if i > 0 {
        let t = games.drop_first();
        assert(forall|k: int|
            0 <= k < i - 1 ==> !name_matches((#[trigger] t[k]).game_name@, query));
        lemma_first_match_at(t, query, i - 1);
    }
}

proof fn lemma_first_match_none(games: Seq<HLTBGame>, query: Seq<char>)
    requires
        forall|k: int| 0 <= k < games.len() ==> !name_matches((#[trigger] games[k]).game_name@, query),
    ensures
        first_match(games, query) is None,
    decreases games.len(),
{
    if games.len() > 0 {
        let t = games.drop_first();
        assert(forall|k: int| 0 <= k < t.len() ==> !name_matches((#[trigger] t[k]).game_name@, query));
        lemma_first_match_none(t, query);
    }
}

/// A search comes back "not found" exactly when no result name matches
/// the query: a query matching nothing never yields a false match.
pub proof fn lemma_not_found_is_no_match(games: Seq<HLTBGame>, query: Seq<char>)
    ensures
        first_match(games, query) is None <==> (forall|k: int|
            0 <= k < games.len() ==> !name_matches((#[trigger] games[k]).game_name@, query)),
    decreases games.len(),
{
    if games.len() > 0 && !name_matches(games[0].game_name@, query) {
        let t = games.drop_first();
        lemma_not_found_is_no_match(t, query);
        assert(forall|k: int| 0 <= k < t.len() ==> (#[trigger] t[k]) == games[k + 1]);
        if first_match(games, query) is None {
            assert forall|k: int| 0 <= k < games.len() implies !name_matches(
                (#[trigger] games[k]).game_name@,
                query,
            ) by {
                if k > 0 {
                    assert(!name_matches(t[k - 1].game_name@, query));
                }
            }
        } else {
            assert(!(forall|k: int|
                0 <= k < t.len() ==> !name_matches((#[trigger] t[k]).game_name@, query)));
        }
    }
}

/// Whether one name matches the query under `name_matches`.
fn name_matches_exec(name: &str, query_lower: &Vec<char>, ghost_query: Ghost<Seq<char>>) -> (r:
    bool)
    requires
        query_lower@ == text::lower_seq(ghost_query@),
    ensures
        r == name_matches(name@, ghost_query@),
{
    let name_chars = text::to_chars(name);
    let name_lower = text::lowercase_chars(&name_chars);
    if text::chars_eq(&name_lower, query_lower) {
        return true;
    }
    if text::contains_chars(&name_lower, query_lower) {
        return true;
    }
    text::contains_chars(query_lower, &name_lower)
}

/// Picks the best match for the query: the first result whose name, after
/// lower-casing, equals or contains or is contained in the query.  A
/// query matching no result yields `None`, never an arbitrary result.
pub fn select_match<'a>(games: &'a Vec<HLTBGame>, name: &str) -> (r: Option<&'a HLTBGame>)
    ensures
        match r {
            Some(g) => first_match(games@, name@) == Some(*g),
            None => first_match(games@, name@) is None,
        },
{
    let name_chars = text::to_chars(name);
    let query_lower = text::lowercase_chars(&name_chars);
    let mut i: usize = 0;
    while i < games.len()
        invariant
            i <= games@.len(),
            query_lower@ == text::lower_seq(name@),
            forall|k: int| 0 <= k < i ==> !name_matches((#[trigger] games@[k]).game_name@, name@),
        decreases games.len() - i,
    {
        if name_matches_exec(games[i].game_name.as_str(), &query_lower, Ghost(name@)) {
            proof {
                lemma_first_match_at(games@, name@, i as int);
            }
            return Some(&games[i]);
        }
        i = i + 1;
    }
    proof {
        lemma_first_match_none(games@, name@);
    }
    None
}

/// Seconds rounded to the nearest whole hour, half an hour rounding up,
/// capped at `u32::MAX`.
pub open spec fn spec_seconds_to_hours(s: u64) -> u32 {
    if (s + 1800) / 3600 <= u32::MAX {
        ((s + 1800) / 3600) as u32
    } else {
        u32::MAX
    }
}

/// Converts seconds to whole hours, rounding to the nearest hour.
pub fn seconds_to_hours(s: u64) -> (r: u32)
    ensures
        r == spec_seconds_to_hours(s),
{
    let whole: u64 = s / 3600;
    let rem: u64 = s % 3600;
    let rounded: u64 = if rem >= 1800 {
        whole + 1
    } else {
        whole
    };
    proof {
        assert(rounded == (s + 1800) / 3600) by (nonlinear_arith)
            requires
                whole == s / 3600,
                rem == s % 3600,
                rounded == if rem >= 1800 {
                    (whole + 1) as u64
                } else {
                    whole
                },
        ;
    }
    if rounded > 0xFFFF_FFFFu64 {
        u32::MAX
    } else {
        rounded as u32
    }
}

/// The duration estimates of one result, in whole hours; the search does
/// not report speedrun times, so that field stays unset.
pub fn durations_from_game(g: &HLTBGame) -> (r: HLTBDurations)
    ensures
        r.game_id == Some(g.game_id),
        r.game_name is Some && r.game_name->0@ == g.game_name@,
        r.main_story == match g.comp_main {
            Some(s) => Some(spec_seconds_to_hours(s)),
            None => None::<u32>,
        },
        r.main_extra == match g.comp_plus {
            Some(s) => Some(spec_seconds_to_hours(s)),
            None => None::<u32>,
        },
        r.completionist == match g.comp_100 {
            Some(s) => Some(spec_seconds_to_hours(s)),
            None => None::<u32>,
        },
        r.speedrun is None,
{
    HLTBDurations {
        game_id: Some(g.game_id),
        game_name: Some(g.game_name.clone()),
        main_story: match &g.comp_main {
            Some(s) => Some(seconds_to_hours(*s)),
            None => None,
        },
        main_extra: match &g.comp_plus {
            Some(s) => Some(seconds_to_hours(*s)),
            None => None,
        },
        completionist: match &g.comp_100 {
            Some(s) => Some(seconds_to_hours(*s)),
            None => None,
        },
        speedrun: None,
    }
}

/// Duration estimates for the query, from a fetched result list: the best
/// match converted to hours, or `None` when nothing matches.  A query that
/// matches no result is "not found", not an error and not a false match.
pub fn durations_from_results(games: &Vec<HLTBGame>, name: &str) -> (r: Option<HLTBDurations>)
    ensures
        r is Some <==> first_match(games@, name@) is Some,
        match first_match(games@, name@) {
            Some(g) => r is Some && {
                let d = r->0;
                &&& d.game_id == Some(g.game_id)
                &&& d.game_name is Some && d.game_name->0@ == g.game_name@
                &&& d.main_story == match g.comp_main {
                    Some(s) => Some(spec_seconds_to_hours(s)),
                    None => None::<u32>,
                }
                &&& d.main_extra == match g.comp_plus {
                    Some(s) => Some(spec_seconds_to_hours(s)),
                    None => None::<u32>,
                }
                &&& d.completionist == match g.comp_100 {
                    Some(s) => Some(spec_seconds_to_hours(s)),
                    None => None::<u32>,
                }
                &&& d.speedrun is None
            },
            None => r is None,
        },
{
    match select_match(games, name) {
        Some(g) => Some(durations_from_game(g)),
        None => None,
    }
}

} // verus!

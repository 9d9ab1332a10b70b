//! Catalog source: resolves a searched game into descriptive metadata and
//! cross-store identifiers.  Authentication and the HTTP transport live
//! outside the library; this module holds the parsing of a fetched game
//! into the metadata shape, with an exact contract per field.

use vstd::prelude::*;
use vstd::string::StringExecFns;
use crate::models::{clone_opt_string, clone_opt_u32};
use crate::text;
use crate::time;

verus! {

/// Category codes of the catalog's cross-store identifier entries.
#[derive(Debug, Clone, Copy, PartialEq, Eq)]
pub enum ExternalCategory {
    Steam,
    Gog,
    Epic,
    Amazon,
}

/// The category encoded by a code: Steam is 1, GOG 5, Amazon 20, Epic 26.
pub open spec fn spec_category_from_u8(value: u8) -> Option<ExternalCategory> {
    if value == 1 {
        Some(ExternalCategory::Steam)
    } else if value == 5 {
        Some(ExternalCategory::Gog)
    } else if value == 26 {
        Some(ExternalCategory::Epic)
    } else if value == 20 {
        Some(ExternalCategory::Amazon)
    } else {
        None
    }
}

impl ExternalCategory {
    /// Decodes a category code; unknown codes yield `None`.
    pub fn from_u8(value: u8) -> (r: Option<ExternalCategory>)
        ensures
            r == spec_category_from_u8(value),
    {
        match value {
            1u8 => Some(ExternalCategory::Steam),
            5u8 => Some(ExternalCategory::Gog),
            26u8 => Some(ExternalCategory::Epic),
            20u8 => Some(ExternalCategory::Amazon),
            _ => None,
        }
    }
}

/// A genre entry of a fetched game.
#[derive(Debug, Clone, PartialEq)]
pub struct IGDBGenre {
    pub id: u64,
    pub name: String,
}

/// A company entry of a fetched game.
#[derive(Debug, Clone, PartialEq)]
pub struct IGDBCompany {
    pub id: u64,
    pub name: String,
}

/// A company involved with a game, with its role flags.
#[derive(Debug, Clone, PartialEq)]
pub struct IGDBInvolvedCompany {
    pub id: u64,
    pub company: Option<IGDBCompany>,
    pub developer: Option<bool>,
    pub publisher: Option<bool>,
}

/// A cross-store identifier entry of a fetched game.
#[derive(Debug, Clone, PartialEq)]
pub struct IGDBExternalGame {
    pub id: u64,
    pub category: u8,
    pub uid: String,
}

/// A platform entry of a fetched game.
#[derive(Debug, Clone, PartialEq)]
pub struct IGDBPlatform {
    pub id: u64,
    pub name: String,
}

/// The cover image reference of a fetched game.
#[derive(Debug, Clone, PartialEq)]
pub struct IGDBCover {
    pub id: u64,
    pub url: Option<String>,
    pub image_id: Option<String>,
}

/// A game as returned by the catalog search.  Ratings are in hundredths
/// of a point; the release date is a Unix timestamp.
#[derive(Debug, Clone, PartialEq, Default)]
pub struct IGDBGame {
    pub id: u64,
    pub name: String,
    pub summary: Option<String>,
    pub storyline: Option<String>,
    pub rating: Option<u32>,
    pub aggregated_rating: Option<u32>,
    pub first_release_date: Option<i64>,
    pub genres: Option<Vec<IGDBGenre>>,
    pub involved_companies: Option<Vec<IGDBInvolvedCompany>>,
    pub external_games: Option<Vec<IGDBExternalGame>>,
    pub platforms: Option<Vec<IGDBPlatform>>,
    pub cover: Option<IGDBCover>,
}

/// Metadata parsed from one fetched game.
#[derive(Debug, Clone, PartialEq, Default)]
pub struct IGDBMetadata {
    pub igdb_id: u64,
    pub name: String,
    pub description: Option<String>,
    pub summary: Option<String>,
    /// Rating in hundredths of a point.
    pub rating: Option<u32>,
    /// Aggregated rating in hundredths of a point.
    pub aggregated_rating: Option<u32>,
    pub release_date: Option<String>,
    pub developer: Option<String>,
    pub publisher: Option<String>,
    pub genres: Vec<String>,
    pub steam_app_id: Option<u32>,
    pub epic_store_id: Option<String>,
    pub gog_id: Option<String>,
    pub cover_url: Option<String>,
}

/// The first company flagged as developer, if any.
pub open spec fn first_developer(cs: Seq<IGDBInvolvedCompany>) -> Option<IGDBInvolvedCompany>
    decreases cs.len(),
{
    if cs.len() == 0 {
        None
    } else if cs[0].developer == Some(true) {
        Some(cs[0])
    } else {
        first_developer(cs.drop_first())
    }
}

/// The first company flagged as publisher, if any.
pub open spec fn first_publisher(cs: Seq<IGDBInvolvedCompany>) -> Option<IGDBInvolvedCompany>
    decreases cs.len(),
{
    if cs.len() == 0 {
        None
    } else if cs[0].publisher == Some(true) {
        Some(cs[0])
    } else {
        first_publisher(cs.drop_first())
    }
}

/// The first cross-store entry with the given category code, if any.
pub open spec fn first_external(es: Seq<IGDBExternalGame>, cat: u8) -> Option<IGDBExternalGame>
    decreases es.len(),
{
    if es.len() == 0 {
        None
    } else if es[0].category == cat {
        Some(es[0])
    } else {
        first_external(es.drop_first(), cat)
    }
}

/// The company name taken from a first-match search: absent when no entry
/// matched or the matching entry names no company.
pub open spec fn company_name_of(found: Option<IGDBInvolvedCompany>) -> Option<Seq<char>> {
    match found {
        None => None,
        Some(c) => match c.company {
            None => None,
            Some(co) => Some(co.name@),
        },
    }
}

/// The genre names of a fetched game, in response order.
pub open spec fn spec_genre_names(game: IGDBGame) -> Seq<Seq<char>> {
    match game.genres {
        None => Seq::empty(),
        Some(gs) => gs@.map_values(|g: IGDBGenre| g.name@),
    }
}

proof fn lemma_first_developer_at(cs: Seq<IGDBInvolvedCompany>, i: int)
    requires
        0 <= i < cs.len(),
        cs[i].developer == Some(true),
        forall|k: int| 0 <= k < i ==> (#[trigger] cs[k]).developer != Some(true),
    ensures
        first_developer(cs) == Some(cs[i]),
    decreases cs.len(),
{
    if i > 0 {
        let t = cs.drop_first();
        assert(forall|k: int| 0 <= k < i - 1 ==> (#[trigger] t[k]).developer != Some(true));
        lemma_first_developer_at(t, i - 1);
    }
}

proof fn lemma_first_developer_none(cs: Seq<IGDBInvolvedCompany>)
    requires
        forall|k: int| 0 <= k < cs.len() ==> (#[trigger] cs[k]).developer != Some(true),
    ensures
        first_developer(cs) is None,
    decreases cs.len(),
{
    if cs.len() > 0 {
        let t = cs.drop_first();
        assert(forall|k: int| 0 <= k < t.len() ==> (#[trigger] t[k]).developer != Some(true));
        lemma_first_developer_none(t);
    }
}

proof fn lemma_first_publisher_at(cs: Seq<IGDBInvolvedCompany>, i: int)
    requires
        0 <= i < cs.len(),
        cs[i].publisher == Some(true),
        forall|k: int| 0 <= k < i ==> (#[trigger] cs[k]).publisher != Some(true),
    ensures
        first_publisher(cs) == Some(cs[i]),
    decreases cs.len(),
{
    if i > 0 {
        let t = cs.drop_first();
        assert(forall|k: int| 0 <= k < i - 1 ==> (#[trigger] t[k]).publisher != Some(true));
        lemma_first_publisher_at(t, i - 1);
    }
}

proof fn lemma_first_publisher_none(cs: Seq<IGDBInvolvedCompany>)
    requires
        forall|k: int| 0 <= k < cs.len() ==> (#[trigger] cs[k]).publisher != Some(true),
    ensures
        first_publisher(cs) is None,
    decreases cs.len(),
{
    if cs.len() > 0 {
        let t = cs.drop_first();
        assert(forall|k: int| 0 <= k < t.len() ==> (#[trigger] t[k]).publisher != Some(true));
        lemma_first_publisher_none(t);
    }
}

proof fn lemma_first_external_at(es: Seq<IGDBExternalGame>, cat: u8, i: int)
    requires
        0 <= i < es.len(),
        es[i].category == cat,
        forall|k: int| 0 <= k < i ==> (#[trigger] es[k]).category != cat,
    ensures
        first_external(es, cat) == Some(es[i]),
    decreases es.len(),
{
    if i > 0 {
        let t = es.drop_first();
        assert(forall|k: int| 0 <= k < i - 1 ==> (#[trigger] t[k]).category != cat);
        lemma_first_external_at(t, cat, i - 1);
    }
}

proof fn lemma_first_external_none(es: Seq<IGDBExternalGame>, cat: u8)
    requires
        forall|k: int| 0 <= k < es.len() ==> (#[trigger] es[k]).category != cat,
    ensures
        first_external(es, cat) is None,
    decreases es.len(),
{
    if es.len() > 0 {
        let t = es.drop_first();
        assert(forall|k: int| 0 <= k < t.len() ==> (#[trigger] t[k]).category != cat);
        lemma_first_external_none(t, cat);
    }
}

/// Finds the name of the first company flagged as developer.
fn find_developer(cs: &Vec<IGDBInvolvedCompany>) -> (r: Option<String>)
    ensures
        match r {
            Some(s) => company_name_of(first_developer(cs@)) == Some(s@),
            None => company_name_of(first_developer(cs@)) is None,
        },
{
    let mut i: usize = 0;
    while i < cs.len()
        invariant
            i <= cs@.len(),
            forall|k: int| 0 <= k < i ==> (#[trigger] cs@[k]).developer != Some(true),
        decreases cs.len() - i,
    {
        let flagged: bool = match &cs[i].developer {
            Some(b) => *b,
            None => false,
        };
        if flagged {
            proof {
                lemma_first_developer_at(cs@, i as int);
            }
            return match &cs[i].company {
                Some(co) => Some(co.name.clone()),
                None => None,
            };
        }
        i = i + 1;
    }
    proof {
        lemma_first_developer_none(cs@);
    }
    None
}

/// Finds the name of the first company flagged as publisher.
fn find_publisher(cs: &Vec<IGDBInvolvedCompany>) -> (r: Option<String>)
    ensures
        match r {
            Some(s) => company_name_of(first_publisher(cs@)) == Some(s@),
            None => company_name_of(first_publisher(cs@)) is None,
        },
{
    let mut i: usize = 0;
    while i < cs.len()
        invariant
            i <= cs@.len(),
            forall|k: int| 0 <= k < i ==> (#[trigger] cs@[k]).publisher != Some(true),
        decreases cs.len() - i,
    {
        let flagged: bool = match &cs[i].publisher {
            Some(b) => *b,
            None => false,
        };
        if flagged {
            proof {
                lemma_first_publisher_at(cs@, i as int);
            }
            return match &cs[i].company {
                Some(co) => Some(co.name.clone()),
                None => None,
            };
        }
        i = i + 1;
    }
    proof {
        lemma_first_publisher_none(cs@);
    }
    None
}

/// Finds the first cross-store entry with the given category code.
fn find_external<'a>(es: &'a Vec<IGDBExternalGame>, cat: u8) -> (r: Option<&'a IGDBExternalGame>)
    ensures
        match r {
            Some(e) => first_external(es@, cat) == Some(*e),
            None => first_external(es@, cat) is None,
        },
{
    let mut i: usize = 0;
    while i < es.len()
        invariant
            i <= es@.len(),
            forall|k: int| 0 <= k < i ==> (#[trigger] es@[k]).category != cat,
        decreases es.len() - i,
    {
        if es[i].category == cat {
            proof {
                lemma_first_external_at(es@, cat, i as int);
            }
            return Some(&es[i]);
        }
        i = i + 1;
    }
    proof {
        lemma_first_external_none(es@, cat);
    }
    None
}

/// Collects the genre names of a fetched game, in response order.
fn collect_genres(game: &IGDBGame) -> (r: Vec<String>)
    ensures
        r@.map_values(|s: String| s@) == spec_genre_names(*game),
{
    let mut r: Vec<String> = Vec::new();
    match &game.genres {
        None => {
            proof {
                assert(r@.map_values(|s: String| s@) =~= spec_genre_names(*game));
            }
        },
        Some(gs) => {
            let mut i: usize = 0;
            while i < gs.len()
                invariant
                    i <= gs@.len(),
                    game.genres == Some(*gs),
                    r@.len() == i,
                    forall|k: int| 0 <= k < i ==> (#[trigger] r@[k])@ == gs@[k].name@,
                decreases gs.len() - i,
            {
                r.push(gs[i].name.clone());
                i = i + 1;
            }
            proof {
                assert(r@.map_values(|s: String| s@) =~= gs@.map_values(|g: IGDBGenre| g.name@));
            }
        },
    }
    r
}

/// The catalog client's identity: its OAuth client credentials.  The
/// network side of the client lives outside the library.
#[derive(Debug, Clone, PartialEq)]
pub struct IGDBService {
    pub client_id: String,
    pub client_secret: String,
}

impl IGDBService {
    /// A client for the given OAuth credentials.
    pub fn new(client_id: String, client_secret: String) -> (r: IGDBService)
        ensures
            r.client_id@ == client_id@,
            r.client_secret@ == client_secret@,
    {
        IGDBService { client_id, client_secret }
    }

    /// Parses a fetched game into the metadata shape.  Each field is
    /// pinned: the description is the storyline, the developer and
    /// publisher are the first flagged companies, genres keep their
    /// order, store identifiers come from the category codes, and the
    /// aggregated rating truncated to whole points (capped at 255) is the
    /// review score.
    pub fn parse_metadata(&self, game: &IGDBGame) -> (r: IGDBMetadata)
        ensures
            r.igdb_id == game.id,
            r.name@ == game.name@,
            r.description == game.storyline,
            r.summary == game.summary,
            r.rating == game.rating,
            r.aggregated_rating == game.aggregated_rating,
            ({
                let cs = match game.involved_companies {
                    None => Seq::<IGDBInvolvedCompany>::empty(),
                    Some(v) => v@,
                };
                &&& (match r.developer {
                    Some(s) => company_name_of(first_developer(cs)) == Some(s@),
                    None => company_name_of(first_developer(cs)) is None,
                })
                &&& (match r.publisher {
                    Some(s) => company_name_of(first_publisher(cs)) == Some(s@),
                    None => company_name_of(first_publisher(cs)) is None,
                })
            }),
            r.genres@.map_values(|s: String| s@) == spec_genre_names(*game),
            ({
                let es = match game.external_games {
                    None => Seq::<IGDBExternalGame>::empty(),
                    Some(v) => v@,
                };
                &&& r.steam_app_id == (match first_external(es, 1) {
                    None => None::<u32>,
                    Some(e) => text::parse_u32_spec(e.uid@),
                })
                &&& (match r.epic_store_id {
                    Some(s) => match first_external(es, 26) {
                        Some(e) => s@ == e.uid@,
                        None => false,
                    },
                    None => first_external(es, 26) is None,
                })
                &&& (match r.gog_id {
                    Some(s) => match first_external(es, 5) {
                        Some(e) => s@ == e.uid@,
                        None => false,
                    },
                    None => first_external(es, 5) is None,
                })
            }),
            match game.first_release_date {
                None => r.release_date is None,
                Some(ts) => {
                    &&& (r.release_date is Some ==> r.release_date->0@ == time::unix_date_string(
                        ts as int,
                    ))
                    &&& (0 <= ts <= 253402300799 ==> r.release_date is Some)
                },
            },
            match game.aggregated_rating {
                None => r.metacritic_score() is None,
                Some(h) => r.metacritic_score() == Some(
                    if h / 100 <= 255 {
                        (h / 100) as u8
                    } else {
                        255u8
                    },
                ),
            },
            match game.cover {
                None => r.cover_url is None,
                Some(c) => match c.image_id {
                    None => r.cover_url is None,
                    Some(img) => r.cover_url is Some && r.cover_url->0@
                        == "https://images.igdb.com/igdb/image/upload/t_cover_big/"@ + img@
                        + ".jpg"@,
                },
            },
    {
        let empty_companies: Vec<IGDBInvolvedCompany> = Vec::new();
        let (developer, publisher) = match &game.involved_companies {
            Some(cs) => (find_developer(cs), find_publisher(cs)),
            None => (find_developer(&empty_companies), find_publisher(&empty_companies)),
        };
        let genres = collect_genres(game);
        let empty_externals: Vec<IGDBExternalGame> = Vec::new();
        let externals: &Vec<IGDBExternalGame> = match &game.external_games {
            Some(es) => es,
            None => &empty_externals,
        };
        let steam_app_id: Option<u32> = match find_external(externals, 1) {
            Some(e) => {
                let uid_chars = text::to_chars(e.uid.as_str());
                text::parse_u32_chars(&uid_chars)
            },
            None => None,
        };
        let epic_store_id: Option<String> = match find_external(externals, 26) {
            Some(e) => Some(e.uid.clone()),
            None => None,
        };
        let gog_id: Option<String> = match find_external(externals, 5) {
            Some(e) => Some(e.uid.clone()),
            None => None,
        };
        let release_date: Option<String> = match &game.first_release_date {
            Some(ts) => time::format_unix_date(*ts),
            None => None,
        };
        let cover_url: Option<String> = match &game.cover {
            Some(c) => match &c.image_id {
                Some(img) => {
                    let mut url: String =
                        "https://images.igdb.com/igdb/image/upload/t_cover_big/".to_owned();
                    url.append(img.as_str());
                    url.append(".jpg");
                    Some(url)
                },
                None => None,
            },
            None => None,
        };
        IGDBMetadata {
            igdb_id: game.id,
            name: game.name.clone(),
            description: clone_opt_string(&game.storyline),
            summary: clone_opt_string(&game.summary),
            rating: clone_opt_u32(&game.rating),
            aggregated_rating: clone_opt_u32(&game.aggregated_rating),
            release_date,
            developer,
            publisher,
            genres,
            steam_app_id,
            epic_store_id,
            gog_id,
            cover_url,
        }
    }
}

/// What the catalog client does with a query response.
#[derive(Debug, Clone, Copy, PartialEq, Eq)]
pub enum QueryAction {
    /// Read the body as the answer.
    UseResponse,
    /// Drop the token, authenticate again, and retry the query once.
    ReauthAndRetry,
    /// A rate-limit rejection: a hard error for this call, never retried.
    FailRateLimited,
    /// Any other failure status: a hard error for this call.
    FailStatus,
}

/// The action a query response calls for.  A first rejection as
/// unauthorized triggers one re-authentication; the retried response is
/// read as the answer whatever its status.  Rate limiting and other
/// failure statuses are hard errors on the first attempt only.
pub open spec fn spec_query_action(status: u16, already_retried: bool) -> QueryAction {
    if already_retried {
        QueryAction::UseResponse
    } else if status == 401 {
        QueryAction::ReauthAndRetry
    } else if status == 429 {
        QueryAction::FailRateLimited
    } else if 200 <= status < 300 {
        QueryAction::UseResponse
    } else {
        QueryAction::FailStatus
    }
}

/// Decides how to handle a catalog query response.
pub fn query_action(status: u16, already_retried: bool) -> (r: QueryAction)
    ensures
        r == spec_query_action(status, already_retried),
{
    if already_retried {
        QueryAction::UseResponse
    } else if status == 401 {
        QueryAction::ReauthAndRetry
    } else if status == 429 {
        QueryAction::FailRateLimited
    } else if 200 <= status && status < 300 {
        QueryAction::UseResponse
    } else {
        QueryAction::FailStatus
    }
}

impl IGDBMetadata {
    /// The aggregated rating truncated to whole points, capped at 255.
    pub open spec fn metacritic_score(self) -> Option<u8> {
        match self.aggregated_rating {
            None => None,
            Some(h) => Some(
                if h / 100 <= 255 {
                    (h / 100) as u8
                } else {
                    255u8
                },
            ),
        }
    }

    /// The aggregated rating as a whole-point review score, capped at 255.
    pub fn review_score(&self) -> (r: Option<u8>)
        ensures
            r == self.metacritic_score(),
    {
        match &self.aggregated_rating {
            None => None,
            Some(h) => {
                let points: u32 = *h / 100;
                if points <= 255 {
                    Some(points as u8)
                } else {
                    Some(255u8)
                }
            },
        }
    }
}

} // verus!

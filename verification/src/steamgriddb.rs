//! Asset source: resolves a title to a catalog entry and selects the best
//! candidate image per asset kind.  Downloads and HTTP live outside the
//! library; this module holds the selection rules and small derived
//! values such as the authorization header and the file extension for a
//! response content type.

use vstd::prelude::*;
use vstd::string::StringExecFns;
use crate::text;

verus! {

/// The service's response envelope.
#[derive(Debug, Clone, PartialEq)]
pub struct SteamGridDBResponse<T> {
    pub success: bool,
    pub data: Option<T>,
    pub errors: Option<Vec<String>>,
}

/// A game entry of the asset service.
#[derive(Debug, Clone, PartialEq)]
pub struct SteamGridDBGame {
    pub id: u64,
    pub name: String,
    pub verified: bool,
    pub release_date: Option<i64>,
}

/// A candidate image with its community score and content flags.
#[derive(Debug, Clone, PartialEq)]
pub struct SteamGridDBImage {
    pub id: u64,
    pub score: i32,
    pub style: String,
    pub url: String,
    pub thumb: String,
    pub width: u32,
    pub height: u32,
    pub mime: String,
    pub nsfw: bool,
    pub humor: bool,
}

/// Grid style names accepted by the service.
#[derive(Debug, Clone, Copy, PartialEq, Eq)]
pub enum GridStyle {
    Alternate,
    Blurred,
    WhiteLogo,
    Material,
    NoLogo,
}

/// The wire name of a grid style.
pub open spec fn spec_grid_style_name(s: GridStyle) -> Seq<char> {
    match s {
        GridStyle::Alternate => "alternate"@,
        GridStyle::Blurred => "blurred"@,
        GridStyle::WhiteLogo => "white_logo"@,
        GridStyle::Material => "material"@,
        GridStyle::NoLogo => "no_logo"@,
    }
}

impl GridStyle {
    /// The wire name of this style.
    pub fn as_str(&self) -> (r: &'static str)
        ensures
            r@ == spec_grid_style_name(*self),
    {
        match self {
            GridStyle::Alternate => "alternate",
            GridStyle::Blurred => "blurred",
            GridStyle::WhiteLogo => "white_logo",
            GridStyle::Material => "material",
            GridStyle::NoLogo => "no_logo",
        }
    }
}

/// The best images found for one game, one per asset kind.
#[derive(Debug, Clone, PartialEq)]
pub struct GameAssets {
    pub game_id: u64,
    pub game_name: String,
    pub hero: Option<SteamGridDBImage>,
    pub grid: Option<SteamGridDBImage>,
    pub logo: Option<SteamGridDBImage>,
    pub icon: Option<SteamGridDBImage>,
}

/// An image may be selected only when neither flagged NSFW nor humor.
pub open spec fn image_allowed(img: SteamGridDBImage) -> bool {
    !img.nsfw && !img.humor
}

/// The selected image: among the allowed ones, the highest score, and of
/// equally scored images the one listed last.
pub open spec fn spec_best_image(images: Seq<SteamGridDBImage>) -> Option<SteamGridDBImage>
    decreases images.len(),
{
    if images.len() == 0 {
        None
    } else {
        let earlier = spec_best_image(images.drop_last());
        let last = images.last();
        if image_allowed(last) {
            match earlier {
                None => Some(last),
                Some(b) => if last.score >= b.score {
                    Some(last)
                } else {
                    Some(b)
                },
            }
        } else {
            earlier
        }
    }
}

/// What image selection guarantees: nothing is selected exactly when
/// every candidate is flagged, and a selected image is an unflagged
/// candidate whose score no other unflagged candidate beats.
pub proof fn lemma_best_image_characterized(images: Seq<SteamGridDBImage>)
    ensures
        (spec_best_image(images) is None <==> (forall|k: int|
            0 <= k < images.len() ==> !image_allowed(#[trigger] images[k]))),
        spec_best_image(images) is Some ==> {
            let b = spec_best_image(images)->0;
            &&& image_allowed(b)
            &&& (exists|k: int| 0 <= k < images.len() && #[trigger] images[k] == b)
            &&& (forall|k: int|
                0 <= k < images.len() && image_allowed(#[trigger] images[k]) ==> images[k].score
                    <= b.score)
        },
    decreases images.len(),
{
    if images.len() > 0 {
        let t = images.drop_last();
        lemma_best_image_characterized(t);
        assert(forall|k: int| 0 <= k < t.len() ==> (#[trigger] t[k]) == images[k]);
        let last = images.last();
        let n = images.len() as int;
        assert(images[n - 1] == last);
        if image_allowed(last) {
            assert(spec_best_image(images) is Some);
            assert(image_allowed(images[n - 1]));
            let b = spec_best_image(images)->0;
            match spec_best_image(t) {
                None => {
                    assert(b == last);
                    assert forall|k: int|
                        0 <= k < n && image_allowed(#[trigger] images[k]) implies images[k].score
                        <= b.score by {
                        if k < n - 1 {
                            assert(!image_allowed(t[k]));
                        }
                    }
                },
                Some(e) => {
                    let ghost w = choose|k: int| 0 <= k < t.len() && #[trigger] t[k] == e;
                    if last.score >= e.score {
                        assert(b == last);
                        assert forall|k: int|
                            0 <= k < n && image_allowed(#[trigger] images[k]) implies
                            images[k].score <= b.score by {
                            if k < n - 1 {
                                assert(image_allowed(t[k]) ==> t[k].score <= e.score);
                            }
                        }
                    } else {
                        assert(b == e);
                        assert(images[w] == e);
                        assert forall|k: int|
                            0 <= k < n && image_allowed(#[trigger] images[k]) implies
                            images[k].score <= b.score by {
                            if k < n - 1 {
                                assert(image_allowed(t[k]) ==> t[k].score <= e.score);
                            }
                        }
                    }
                },
            }
        } else {
            assert(spec_best_image(images) == spec_best_image(t));
            match spec_best_image(t) {
                None => {
                    assert forall|k: int| 0 <= k < n implies !image_allowed(
                        #[trigger] images[k],
                    ) by {
                        if k < n - 1 {
                            assert(!image_allowed(t[k]));
                        }
                    }
                },
                Some(e) => {
                    let ghost w = choose|k: int| 0 <= k < t.len() && #[trigger] t[k] == e;
                    assert(images[w] == e);
                    assert forall|k: int|
                        0 <= k < n && image_allowed(#[trigger] images[k]) implies images[k].score
                        <= e.score by {
                        if k < n - 1 {
                            assert(image_allowed(t[k]) ==> t[k].score <= e.score);
                        }
                    }
                },
            }
        }
    }
}

/// Copies an image; the result equals the input.
fn clone_image(img: &SteamGridDBImage) -> (r: SteamGridDBImage)
    ensures
        r == *img,
{
    SteamGridDBImage {
        id: img.id,
        score: img.score,
        style: img.style.clone(),
        url: img.url.clone(),
        thumb: img.thumb.clone(),
        width: img.width,
        height: img.height,
        mime: img.mime.clone(),
        nsfw: img.nsfw,
        humor: img.humor,
    }
}

/// Selects the best image from a candidate list: the highest-scored image
/// that is not flagged NSFW or humor; `None` when every image is flagged
/// or the list is empty.
pub fn select_best_image(images: Vec<SteamGridDBImage>) -> (r: Option<SteamGridDBImage>)
    ensures
        r == spec_best_image(images@),
{
    let mut best: Option<usize> = None;
    let mut i: usize = 0;
    proof {
        assert(images@.subrange(0, 0) =~= Seq::<SteamGridDBImage>::empty());
    }
    while i < images.len()
        invariant
            i <= images@.len(),
            match best {
                None => spec_best_image(images@.subrange(0, i as int)) is None,
                Some(b) => b < i && spec_best_image(images@.subrange(0, i as int)) == Some(
                    images@[b as int],
                ),
            },
        decreases images.len() - i,
    {
        proof {
            assert(images@.subrange(0, (i + 1) as int).drop_last() =~= images@.subrange(
                0,
                i as int,
            ));
            assert(images@.subrange(0, (i + 1) as int).last() == images@[i as int]);
        }
        let img = &images[i];
        if !img.nsfw && !img.humor {
            match best {
                None => {
                    best = Some(i);
                },
                Some(b) => {
                    if img.score >= images[b].score {
                        best = Some(i);
                    }
                },
            }
        }
        i = i + 1;
    }
    proof {
        assert(images@.subrange(0, images@.len() as int) =~= images@);
    }
    match best {
        Some(b) => Some(clone_image(&images[b])),
        None => None,
    }
}

/// The search key of a game entry: verified entries beat unverified ones,
/// and of two entries with the same verified status the shorter name wins;
/// of two equal keys the entry listed last wins.
pub open spec fn game_key_geq(a: SteamGridDBGame, b: SteamGridDBGame) -> bool {
    ||| (a.verified && !b.verified)
    ||| (a.verified == b.verified && a.name@.len() <= b.name@.len())
}

/// The search result picked for a query: the last entry whose key beats
/// or equals every earlier entry's key.
pub open spec fn spec_pick_game(games: Seq<SteamGridDBGame>) -> Option<SteamGridDBGame>
    decreases games.len(),
{
    if games.len() == 0 {
        None
    } else {
        let earlier = spec_pick_game(games.drop_last());
        let last = games.last();
        match earlier {
            None => Some(last),
            Some(b) => if game_key_geq(last, b) {
                Some(last)
            } else {
                Some(b)
            },
        }
    }
}

/// Copies a game entry; the result equals the input.
fn clone_game(g: &SteamGridDBGame) -> (r: SteamGridDBGame)
    ensures
        r == *g,
{
    SteamGridDBGame {
        id: g.id,
        name: g.name.clone(),
        verified: g.verified,
        release_date: match &g.release_date {
            Some(t) => Some(*t),
            None => None,
        },
    }
}

/// Picks the best search result: a verified entry over an unverified one,
/// then the shortest name; `None` only for an empty result list.
pub fn pick_search_result(games: Vec<SteamGridDBGame>) -> (r: Option<SteamGridDBGame>)
    ensures
        r == spec_pick_game(games@),
        r is Some <==> games@.len() > 0,
{
    let mut best: Option<usize> = None;
    let mut i: usize = 0;
    proof {
        assert(games@.subrange(0, 0) =~= Seq::<SteamGridDBGame>::empty());
    }
    while i < games.len()
        invariant
            i <= games@.len(),
            match best {
                None => i == 0 && spec_pick_game(games@.subrange(0, 0)) is None,
                Some(b) => b < i && spec_pick_game(games@.subrange(0, i as int)) == Some(
                    games@[b as int],
                ),
            },
        decreases games.len() - i,
    {
        proof {
            assert(games@.subrange(0, (i + 1) as int).drop_last() =~= games@.subrange(0, i as int));
            assert(games@.subrange(0, (i + 1) as int).last() == games@[i as int]);
        }
        let g = &games[i];
        match best {
            None => {
                best = Some(i);
            },
            Some(b) => {
                let cur_verified = games[b].verified;
                let g_len = text::to_chars(g.name.as_str()).len();
                let b_len = text::to_chars(games[b].name.as_str()).len();
                let geq: bool = (g.verified && !cur_verified) || (g.verified == cur_verified
                    && g_len <= b_len);
                if geq {
                    best = Some(i);
                }
            },
        }
        i = i + 1;
    }
    proof {
        assert(games@.subrange(0, games@.len() as int) =~= games@);
    }
    match best {
        Some(b) => Some(clone_game(&games[b])),
        None => None,
    }
}

/// The file extension chosen for a download's content type: png, webp and
/// gif keep their own; anything else is saved as jpg.
pub open spec fn spec_extension_for(ct: Seq<char>) -> Seq<char> {
    if ct == "image/png"@ {
        "png"@
    } else if ct == "image/webp"@ {
        "webp"@
    } else if ct == "image/gif"@ {
        "gif"@
    } else {
        "jpg"@
    }
}

/// The file extension for a download's content type.
pub fn extension_for_content_type(ct: &str) -> (r: &'static str)
    ensures
        r@ == spec_extension_for(ct@),
{
    if text::str_eq(ct, "image/png") {
        "png"
    } else if text::str_eq(ct, "image/webp") {
        "webp"
    } else if text::str_eq(ct, "image/gif") {
        "gif"
    } else {
        "jpg"
    }
}

/// The asset client's identity: its API key.  The network side of the
/// client lives outside the library.
#[derive(Debug, Clone, PartialEq)]
pub struct SteamGridDBService {
    pub api_key: String,
}

impl SteamGridDBService {
    /// A client for the given API key.
    pub fn new(api_key: String) -> (r: SteamGridDBService)
        ensures
            r.api_key@ == api_key@,
    {
        SteamGridDBService { api_key }
    }

    /// The bearer authorization header sent with every request.
    pub fn auth_header(&self) -> (r: String)
        ensures
            r@ == "Bearer "@ + self.api_key@,
    {
        let mut r: String = "Bearer ".to_owned();
        r.append(self.api_key.as_str());
        r
    }
}

} // verus!

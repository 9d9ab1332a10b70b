//! The metadata cache document and the cache manager's path logic.
//!
//! The document maps game identifiers to cached metadata records; the
//! invariant is that no identifier occurs twice.  All file I/O lives
//! outside the library: the operations here transform the in-memory
//! document, and their contracts pin down exactly which records change.

use vstd::prelude::*;
use vstd::string::StringExecFns;
use crate::models::GameMetadata;
use crate::text;

verus! {

/// The versioned metadata document persisted as `metadata.json`.
#[derive(Debug, Clone, PartialEq)]
pub struct MetadataCache {
    pub version: u32,
    pub games: Vec<GameMetadata>,
}

/// No game identifier occurs twice in the document.
pub open spec fn wf_cache(games: Seq<GameMetadata>) -> bool {
    forall|i: int, j: int|
        0 <= i < j < games.len() ==> (#[trigger] games[i]).game_id@ != (
        #[trigger] games[j]).game_id@
}

/// The first record with the given identifier, if any.
pub open spec fn lookup(games: Seq<GameMetadata>, id: Seq<char>) -> Option<GameMetadata>
    decreases games.len(),
{
    if games.len() == 0 {
        None
    } else if games[0].game_id@ == id {
        Some(games[0])
    } else {
        lookup(games.drop_first(), id)
    }
}

/// Position of the first record with the given identifier, if any.
pub open spec fn first_id_index(games: Seq<GameMetadata>, id: Seq<char>) -> Option<int>
    decreases games.len(),
{
    if games.len() == 0 {
        None
    } else if games[0].game_id@ == id {
        Some(0int)
    } else {
        match first_id_index(games.drop_first(), id) {
            Some(i) => Some(i + 1),
            None => None,
        }
    }
}

/// The document's record list after saving a record: the first record
/// with the same identifier is replaced, or the record is appended.
pub open spec fn spec_save(games: Seq<GameMetadata>, m: GameMetadata) -> Seq<GameMetadata> {
    match first_id_index(games, m.game_id@) {
        Some(i) => games.update(i, m),
        None => games.push(m),
    }
}

/// The document's record list after removing an identifier: the first
/// record with it disappears, or nothing changes.
pub open spec fn spec_remove(games: Seq<GameMetadata>, id: Seq<char>) -> Seq<GameMetadata> {
    match first_id_index(games, id) {
        Some(i) => games.remove(i),
        None => games,
    }
}

proof fn lemma_first_id_index_at(games: Seq<GameMetadata>, id: Seq<char>, i: int)
    requires
        0 <= i < games.len(),
        games[i].game_id@ == id,
        forall|k: int| 0 <= k < i ==> (#[trigger] games[k]).game_id@ != id,
    ensures
        first_id_index(games, id) == Some(i),
    decreases games.len(),
{
    if i > 0 {
        let t = games.drop_first();
        assert(forall|k: int| 0 <= k < i - 1 ==> (#[trigger] t[k]).game_id@ != id);
        lemma_first_id_index_at(t, id, i - 1);
    }
}

proof fn lemma_first_id_index_none(games: Seq<GameMetadata>, id: Seq<char>)
    requires
        forall|k: int| 0 <= k < games.len() ==> (#[trigger] games[k]).game_id@ != id,
    ensures
        first_id_index(games, id) is None,
    decreases games.len(),
{
    if games.len() > 0 {
        let t = games.drop_first();
        assert(forall|k: int| 0 <= k < t.len() ==> (#[trigger] t[k]).game_id@ != id);
        lemma_first_id_index_none(t, id);
    }
}

/// What a first-match position means: the record there carries the
/// identifier and no earlier one does; a missing position means no
/// record carries it.
proof fn lemma_first_id_index_props(games: Seq<GameMetadata>, id: Seq<char>)
    ensures
        match first_id_index(games, id) {
            Some(i) => 0 <= i < games.len() && games[i].game_id@ == id && (forall|k: int|
                0 <= k < i ==> (#[trigger] games[k]).game_id@ != id),
            None => forall|k: int|
                0 <= k < games.len() ==> (#[trigger] games[k]).game_id@ != id,
        },
    decreases games.len(),
{
    if games.len() > 0 && games[0].game_id@ != id {
        let t = games.drop_first();
        lemma_first_id_index_props(t, id);
        assert(forall|k: int| 0 <= k < t.len() ==> (#[trigger] t[k]) == games[k + 1]);
        match first_id_index(t, id) {
            Some(i) => {
                assert(games[i + 1].game_id@ == id);
                assert forall|k: int| 0 <= k < i + 1 implies (#[trigger] games[k]).game_id@
                    != id by {
                    if k > 0 {
                        assert(t[k - 1].game_id@ != id);
                    }
                }
            },
            None => {
                assert forall|k: int| 0 <= k < games.len() implies (#[trigger] games[k]).game_id@
                    != id by {
                    if k > 0 {
                        assert(t[k - 1].game_id@ != id);
                    }
                }
            },
        }
    }
}

/// Saving a record and then looking its identifier up yields exactly the
/// saved record, and the document stays well formed.  This is the cache
/// round trip at the document level.
pub proof fn lemma_save_then_lookup(games: Seq<GameMetadata>, m: GameMetadata)
    requires
        wf_cache(games),
    ensures
        lookup(spec_save(games, m), m.game_id@) == Some(m),
        wf_cache(spec_save(games, m)),
{
    let id = m.game_id@;
    lemma_first_id_index_props(games, id);
    match first_id_index(games, id) {
        Some(i) => {
            let gnew = games.update(i, m);
            assert forall|k: int| 0 <= k < i implies (#[trigger] gnew[k]).game_id@ != id by {
                assert(gnew[k] == games[k]);
            }
            lemma_lookup_at(gnew, id, i);
            assert forall|a: int, b: int|
                0 <= a < b < gnew.len() implies (#[trigger] gnew[a]).game_id@ != (
            #[trigger] gnew[b]).game_id@ by {
                assert(gnew[a].game_id@ == games[a].game_id@);
                assert(gnew[b].game_id@ == games[b].game_id@);
            }
        },
        None => {
            let gnew = games.push(m);
            assert(gnew[games.len() as int] == m);
            lemma_lookup_at(gnew, id, games.len() as int);
            assert forall|a: int, b: int|
                0 <= a < b < gnew.len() implies (#[trigger] gnew[a]).game_id@ != (
            #[trigger] gnew[b]).game_id@ by {
                if b < games.len() {
                    assert(gnew[a] == games[a]);
                    assert(gnew[b] == games[b]);
                } else {
                    assert(gnew[b] == m);
                    assert(gnew[a] == games[a]);
                }
            }
        },
    }
}

/// Saving one record leaves every other identifier's lookup unchanged.
pub proof fn lemma_save_isolated(games: Seq<GameMetadata>, m: GameMetadata, other: Seq<char>)
    requires
        wf_cache(games),
        other != m.game_id@,
    ensures
        lookup(spec_save(games, m), other) == lookup(games, other),
{
    let id = m.game_id@;
    lemma_first_id_index_props(games, id);
    match first_id_index(games, id) {
        Some(i) => {
            let gnew = games.update(i, m);
            assert forall|k: int| 0 <= k < gnew.len() implies ((#[trigger] gnew[k]).game_id@
                == other <==> games[k].game_id@ == other) by {
                if k == i {
                    assert(gnew[k].game_id@ == id);
                    assert(games[k].game_id@ == id);
                }
            }
            lemma_lookup_frame(gnew, games, other);
        },
        None => {
            lemma_lookup_push_other(games, m, other);
        },
    }
}

/// Removing one identifier deletes exactly that record: its own lookup
/// becomes empty and every other identifier's lookup is unchanged.
pub proof fn lemma_remove_isolated(games: Seq<GameMetadata>, id: Seq<char>, other: Seq<char>)
    requires
        wf_cache(games),
        other != id,
    ensures
        lookup(spec_remove(games, id), id) is None,
        lookup(spec_remove(games, id), other) == lookup(games, other),
        wf_cache(spec_remove(games, id)),
{
    lemma_first_id_index_props(games, id);
    match first_id_index(games, id) {
        Some(i) => {
            let gnew = games.remove(i);
            assert forall|k: int| 0 <= k < gnew.len() implies (#[trigger] gnew[k]).game_id@
                != id by {
                if k < i {
                    assert(gnew[k] == games[k]);
                } else {
                    assert(gnew[k] == games[k + 1]);
                }
            }
            lemma_lookup_none(gnew, id);
            lemma_lookup_remove_other(games, i, other, id);
            assert forall|a: int, b: int|
                0 <= a < b < gnew.len() implies (#[trigger] gnew[a]).game_id@ != (
            #[trigger] gnew[b]).game_id@ by {
                let a0 = if a < i {
                    a
                } else {
                    a + 1
                };
                let b0 = if b < i {
                    b
                } else {
                    b + 1
                };
                assert(gnew[a] == games[a0]);
                assert(gnew[b] == games[b0]);
            }
        },
        None => {
            lemma_lookup_none(games, id);
        },
    }
}

/// A record at a first-match position is what lookup returns.
proof fn lemma_lookup_at(games: Seq<GameMetadata>, id: Seq<char>, i: int)
    requires
        0 <= i < games.len(),
        games[i].game_id@ == id,
        forall|k: int| 0 <= k < i ==> (#[trigger] games[k]).game_id@ != id,
    ensures
        lookup(games, id) == Some(games[i]),
    decreases games.len(),
{
    if i > 0 {
        let t = games.drop_first();
        assert(forall|k: int| 0 <= k < i - 1 ==> (#[trigger] t[k]).game_id@ != id);
        lemma_lookup_at(t, id, i - 1);
    }
}

/// When no record carries the identifier, lookup yields `None`.
proof fn lemma_lookup_none(games: Seq<GameMetadata>, id: Seq<char>)
    requires
        forall|k: int| 0 <= k < games.len() ==> (#[trigger] games[k]).game_id@ != id,
    ensures
        lookup(games, id) is None,
    decreases games.len(),
{
    if games.len() > 0 {
        let t = games.drop_first();
        assert(forall|k: int| 0 <= k < t.len() ==> (#[trigger] t[k]).game_id@ != id);
        lemma_lookup_none(t, id);
    }
}

/// Lookup of `id` only inspects records whose identifier is `id`; two
/// sequences that agree on those records agree on the lookup.
proof fn lemma_lookup_frame(a: Seq<GameMetadata>, b: Seq<GameMetadata>, id: Seq<char>)
    requires
        a.len() == b.len(),
        forall|k: int|
            0 <= k < a.len() ==> ((#[trigger] a[k]).game_id@ == id || (
            #[trigger] b[k]).game_id@ == id ==> a[k] == b[k]),
        forall|k: int|
            0 <= k < a.len() ==> ((#[trigger] a[k]).game_id@ == id <==> (
            #[trigger] b[k]).game_id@ == id),
    ensures
        lookup(a, id) == lookup(b, id),
    decreases a.len(),
{
    if a.len() > 0 {
        if a[0].game_id@ == id {
        } else {
            let ta = a.drop_first();
            let tb = b.drop_first();
            assert(forall|k: int| 0 <= k < ta.len() ==> (#[trigger] ta[k]) == a[k + 1]);
            assert(forall|k: int| 0 <= k < tb.len() ==> (#[trigger] tb[k]) == b[k + 1]);
            lemma_lookup_frame(ta, tb, id);
        }
    }
}

impl MetadataCache {
    /// The identifiers are unique, so each lookup is unambiguous.
    pub open spec fn wf(self) -> bool {
        wf_cache(self.games@)
    }

    /// The empty version-1 document.
    pub fn new() -> (r: MetadataCache)
        ensures
            r.version == 1,
            r.games@ =~= Seq::<GameMetadata>::empty(),
            r.wf(),
    {
        MetadataCache { version: 1, games: Vec::new() }
    }

    /// Position of the record with the given identifier, if any.
    fn find_index(&self, game_id: &str) -> (r: Option<usize>)
        ensures
            match r {
                Some(i) => i < self.games@.len() && self.games@[i as int].game_id@ == game_id@
                    && (forall|k: int|
                    0 <= k < i ==> (#[trigger] self.games@[k]).game_id@ != game_id@),
                None => forall|k: int|
                    0 <= k < self.games@.len() ==> (#[trigger] self.games@[k]).game_id@
                        != game_id@,
            },
    {
        let mut i: usize = 0;
        while i < self.games.len()
            invariant
                i <= self.games@.len(),
                forall|k: int| 0 <= k < i ==> (#[trigger] self.games@[k]).game_id@ != game_id@,
            decreases self.games.len() - i,
        {
            if text::str_eq(self.games[i].game_id.as_str(), game_id) {
                return Some(i);
            }
            i = i + 1;
        }
        None
    }

    /// The cached record for a game, if one exists.
    pub fn get_game(&self, game_id: &str) -> (r: Option<&GameMetadata>)
        ensures
            match r {
                Some(m) => lookup(self.games@, game_id@) == Some(*m),
                None => lookup(self.games@, game_id@) is None,
            },
    {
        match self.find_index(game_id) {
            Some(i) => {
                proof {
                    lemma_lookup_at(self.games@, game_id@, i as int);
                }
                Some(&self.games[i])
            },
            None => {
                proof {
                    lemma_lookup_none(self.games@, game_id@);
                }
                None
            },
        }
    }

    /// Whether the document holds a record for the game.
    pub fn has_game(&self, game_id: &str) -> (r: bool)
        ensures
            r == (lookup(self.games@, game_id@) is Some),
    {
        match self.get_game(game_id) {
            Some(_) => true,
            None => false,
        }
    }

    /// Inserts or replaces the record under its own game identifier.  Only
    /// that identifier's record changes; every other lookup is unchanged.
    pub fn save_game(&mut self, m: GameMetadata)
        requires
            old(self).wf(),
        ensures
            final(self).wf(),
            final(self).version == old(self).version,
            final(self).games@ == spec_save(old(self).games@, m),
            lookup(final(self).games@, m.game_id@) == Some(m),
            forall|id2: Seq<char>|
                id2 != m.game_id@ ==> #[trigger] lookup(final(self).games@, id2) == lookup(
                    old(self).games@,
                    id2,
                ),
    {
        let ghost gold = self.games@;
        let ghost mid = m.game_id@;
        match self.find_index(m.game_id.as_str()) {
            Some(i) => {
                proof {
                    lemma_first_id_index_at(gold, mid, i as int);
                }
                self.games.set(i, m);
                proof {
                    let gnew = self.games@;
                    assert(gnew =~= gold.update(i as int, m));
                    assert forall|id2: Seq<char>| id2 != mid implies #[trigger] lookup(gnew, id2)
                        == lookup(gold, id2) by {
                        assert forall|k: int| 0 <= k < gnew.len() implies ((
                        #[trigger] gnew[k]).game_id@ == id2 <==> gold[k].game_id@ == id2) by {
                            if k == i {
                                assert(gnew[k].game_id@ == mid);
                                assert(gold[k].game_id@ == mid);
                            }
                        }
                        lemma_lookup_frame(gnew, gold, id2);
                    }
                    lemma_lookup_at(gnew, mid, i as int);
                }
            },
            None => {
                proof {
                    lemma_first_id_index_none(gold, mid);
                }
                self.games.push(m);
                proof {
                    let gnew = self.games@;
                    assert(gnew =~= gold.push(m));
                    assert forall|id2: Seq<char>| id2 != mid implies #[trigger] lookup(gnew, id2)
                        == lookup(gold, id2) by {
                        lemma_lookup_push_other(gold, m, id2);
                    }
                    lemma_lookup_at(gnew, mid, gold.len() as int);
                }
            },
        }
    }

    /// Removes the record for the game, if present.  Every other lookup is
    /// unchanged.
    pub fn remove_game(&mut self, game_id: &str)
        requires
            old(self).wf(),
        ensures
            final(self).wf(),
            final(self).version == old(self).version,
            final(self).games@ == spec_remove(old(self).games@, game_id@),
            lookup(final(self).games@, game_id@) is None,
            forall|id2: Seq<char>|
                id2 != game_id@ ==> #[trigger] lookup(final(self).games@, id2) == lookup(
                    old(self).games@,
                    id2,
                ),
    {
        let ghost gold = self.games@;
        match self.find_index(game_id) {
            Some(i) => {
                proof {
                    lemma_first_id_index_at(gold, game_id@, i as int);
                }
                self.games.remove(i);
                proof {
                    let gnew = self.games@;
                    assert(gnew =~= gold.remove(i as int));
                    assert forall|k: int| 0 <= k < gnew.len() implies (#[trigger] gnew[k]).game_id@
                        != game_id@ by {
                        if k < i {
                            assert(gnew[k] == gold[k]);
                        } else {
                            assert(gnew[k] == gold[k + 1]);
                        }
                    }
                    lemma_lookup_none(gnew, game_id@);
                    assert forall|id2: Seq<char>| id2 != game_id@ implies #[trigger] lookup(
                        gnew,
                        id2,
                    ) == lookup(gold, id2) by {
                        lemma_lookup_remove_other(gold, i as int, id2, game_id@);
                    }
                }
            },
            None => {
                proof {
                    lemma_first_id_index_none(self.games@, game_id@);
                    lemma_lookup_none(self.games@, game_id@);
                }
            },
        }
    }

    /// Number of cached game records.
    pub fn games_count(&self) -> (r: usize)
        ensures
            r == self.games@.len(),
    {
        self.games.len()
    }

    /// A record is stale when it is absent or older than allowed.
    pub fn is_stale(&self, game_id: &str, now: i64, max_age_days: i64) -> (r: bool)
        ensures
            r == match lookup(self.games@, game_id@) {
                Some(m) => spec_is_stale(m, now as int, max_age_days as int),
                None => true,
            },
    {
        match self.get_game(game_id) {
            Some(m) => is_stale_record(m, now, max_age_days),
            None => true,
        }
    }
}

/// Appending a record does not affect lookups of other identifiers.
proof fn lemma_lookup_push_other(games: Seq<GameMetadata>, m: GameMetadata, id2: Seq<char>)
    requires
        id2 != m.game_id@,
    ensures
        lookup(games.push(m), id2) == lookup(games, id2),
    decreases games.len(),
{
    if games.len() == 0 {
        assert(games.push(m)[0] == m);
        assert(games.push(m).drop_first() =~= Seq::<GameMetadata>::empty());
        assert(lookup(games.push(m), id2) == lookup(games.push(m).drop_first(), id2));
        assert(lookup(Seq::<GameMetadata>::empty(), id2) is None);
    } else {
        assert(games.push(m)[0] == games[0]);
        if games[0].game_id@ == id2 {
        } else {
            assert(games.push(m).drop_first() =~= games.drop_first().push(m));
            lemma_lookup_push_other(games.drop_first(), m, id2);
        }
    }
}

/// Removing the record at `i` (whose identifier is `rid`) does not affect
/// lookups of other identifiers.
proof fn lemma_lookup_remove_other(games: Seq<GameMetadata>, i: int, id2: Seq<char>, rid: Seq<char>)
    requires
        0 <= i < games.len(),
        games[i].game_id@ == rid,
        id2 != rid,
    ensures
        lookup(games.remove(i), id2) == lookup(games, id2),
    decreases games.len(),
{
    let g2 = games.remove(i);
    if i == 0 {
        assert(g2 =~= games.drop_first());
    } else {
        assert(g2[0] == games[0]);
        if games[0].game_id@ == id2 {
        } else {
            assert(g2.drop_first() =~= games.drop_first().remove(i - 1));
            lemma_lookup_remove_other(games.drop_first(), i - 1, id2, rid);
        }
    }
}

/// A record is stale when its age strictly exceeds the allowed maximum;
/// an age exactly equal to the maximum is not stale.
pub open spec fn spec_is_stale(m: GameMetadata, now: int, max_age_days: int) -> bool {
    now - m.last_updated > max_age_days * 86400
}

/// Staleness of one record against a clock reading, in seconds.
pub fn is_stale_record(m: &GameMetadata, now: i64, max_age_days: i64) -> (r: bool)
    ensures
        r == spec_is_stale(*m, now as int, max_age_days as int),
{
    let age: i128 = (now as i128) - (m.last_updated as i128);
    let limit: i128 = (max_age_days as i128) * 86400i128;
    age > limit
}

/// Staleness of a record against the current clock.  The verdict depends
/// on the clock reading, so nothing further can be promised of it;
/// callers that need a pinned result pass a time to `is_stale_record`.
pub fn is_stale_record_now(m: &GameMetadata, max_age_days: i64) -> bool {
    let now = crate::time::now_unix_seconds();
    is_stale_record(m, now, max_age_days)
}

/// A record whose age is exactly the maximum is not stale; one second
/// older is stale.  This pins the exclusive boundary.
pub proof fn lemma_staleness_boundary(m: GameMetadata, now: int, max_age_days: int)
    ensures
        m.last_updated == now - max_age_days * 86400 ==> !spec_is_stale(m, now, max_age_days),
        m.last_updated == now - max_age_days * 86400 - 1 ==> spec_is_stale(m, now, max_age_days),
{
}

/// The four kinds of visual asset kept per game.
#[derive(Debug, Clone, Copy, PartialEq, Eq)]
pub enum AssetType {
    Hero,
    Grid,
    Logo,
    Icon,
}

/// The base file name used for an asset kind.
pub open spec fn spec_asset_filename(t: AssetType) -> Seq<char> {
    match t {
        AssetType::Hero => "hero"@,
        AssetType::Grid => "grid"@,
        AssetType::Logo => "logo"@,
        AssetType::Icon => "icon"@,
    }
}

impl AssetType {
    /// The base file name used for this asset kind.
    pub fn filename(&self) -> (r: &'static str)
        ensures
            r@ == spec_asset_filename(*self),
    {
        match self {
            AssetType::Hero => "hero",
            AssetType::Grid => "grid",
            AssetType::Logo => "logo",
            AssetType::Icon => "icon",
        }
    }
}

/// Characters replaced by `_` when an identifier becomes a directory name:
/// path separators, shell-hostile punctuation, and control characters.
pub open spec fn is_unsafe_char(c: char) -> bool {
    ||| c == '/'
    ||| c == '\\'
    ||| c == ':'
    ||| c == '*'
    ||| c == '?'
    ||| c == '"'
    ||| c == '<'
    ||| c == '>'
    ||| c == '|'
    ||| (c as u32) < 0x20
    ||| (0x7f <= (c as u32) && (c as u32) <= 0x9f)
}

/// The sanitized image of one character.
pub open spec fn sanitize_char(c: char) -> char {
    if is_unsafe_char(c) {
        '_'
    } else {
        c
    }
}

/// The sanitized image of a whole identifier.
pub open spec fn spec_sanitize(s: Seq<char>) -> Seq<char> {
    s.map_values(|c: char| sanitize_char(c))
}

/// Replaces path separators, reserved punctuation and control characters
/// with `_`, so an identifier is safe as a directory name.
pub fn sanitize_filename(name: &str) -> (r: String)
    ensures
        r@ == spec_sanitize(name@),
{
    let cs = text::to_chars(name);
    let mut out: Vec<char> = Vec::new();
    let mut i: usize = 0;
    proof {
        assert(out@ =~= spec_sanitize(name@.subrange(0, 0)));
    }
    while i < cs.len()
        invariant
            i <= cs.len(),
            cs@ == name@,
            out@ == spec_sanitize(name@.subrange(0, i as int)),
        decreases cs.len() - i,
    {
        let c = cs[i];
        let u: u32 = c as u32;
        let unsafe_c: bool = c == '/' || c == '\\' || c == ':' || c == '*' || c == '?' || c == '"'
            || c == '<' || c == '>' || c == '|' || u < 0x20 || (0x7f <= u && u <= 0x9f);
        if unsafe_c {
            out.push('_');
        } else {
            out.push(c);
        }
        i = i + 1;
        proof {
            assert(out@ =~= spec_sanitize(name@.subrange(0, i as int)));
        }
    }
    proof {
        assert(name@.subrange(0, name@.len() as int) =~= name@);
    }
    text::chars_to_string(&out)
}

/// Joins two path segments with `/`.
fn join_path(a: &str, b: &str) -> (r: String)
    ensures
        r@ == a@ + "/"@ + b@,
{
    let mut r: String = a.to_owned();
    r.append("/");
    r.append(b);
    r
}

/// Computes where the cache keeps its files.  The manager holds only the
/// root directory; every other location is derived from it.
#[derive(Debug, Clone, PartialEq)]
pub struct CacheManager {
    pub cache_dir_path: String,
}

impl CacheManager {
    /// A manager rooted at the given directory.
    pub fn with_path(cache_dir: String) -> (r: CacheManager)
        ensures
            r.cache_dir_path@ == cache_dir@,
    {
        CacheManager { cache_dir_path: cache_dir }
    }

    /// The cache root directory.
    pub fn cache_dir(&self) -> (r: &str)
        ensures
            r@ == self.cache_dir_path@,
    {
        self.cache_dir_path.as_str()
    }

    /// Where the metadata document lives.
    pub fn metadata_path(&self) -> (r: String)
        ensures
            r@ == self.cache_dir_path@ + "/"@ + "metadata.json"@,
    {
        join_path(self.cache_dir_path.as_str(), "metadata.json")
    }

    /// The directory that holds all per-game asset directories.
    pub fn assets_dir(&self) -> (r: String)
        ensures
            r@ == self.cache_dir_path@ + "/"@ + "assets"@,
    {
        join_path(self.cache_dir_path.as_str(), "assets")
    }

    /// The per-game asset directory, under the sanitized identifier.
    pub fn game_assets_dir(&self, game_id: &str) -> (r: String)
        ensures
            r@ == self.cache_dir_path@ + "/"@ + "assets"@ + "/"@ + spec_sanitize(game_id@),
    {
        let assets = self.assets_dir();
        let safe = sanitize_filename(game_id);
        join_path(assets.as_str(), safe.as_str())
    }

    /// The full path of one asset file: `<game dir>/<kind>.<extension>`.
    pub fn get_asset_path(&self, game_id: &str, asset_type: AssetType, extension: &str) -> (r:
        String)
        ensures
            r@ == self.cache_dir_path@ + "/"@ + "assets"@ + "/"@ + spec_sanitize(game_id@) + "/"@
                + spec_asset_filename(asset_type) + "."@ + extension@,
    {
        let dir = self.game_assets_dir(game_id);
        let mut file: String = asset_type.filename().to_owned();
        file.append(".");
        file.append(extension);
        join_path(dir.as_str(), file.as_str())
    }
}

/// Two games whose sanitized identifiers differ keep their assets in
/// different directories, so clearing one game's directory cannot touch
/// another's.
pub proof fn lemma_asset_dirs_distinct(mgr: CacheManager, a: Seq<char>, b: Seq<char>)
    requires
        spec_sanitize(a) != spec_sanitize(b),
    ensures
        mgr.cache_dir_path@ + "/"@ + "assets"@ + "/"@ + spec_sanitize(a) != mgr.cache_dir_path@
            + "/"@ + "assets"@ + "/"@ + spec_sanitize(b),
{
    let prefix = mgr.cache_dir_path@ + "/"@ + "assets"@ + "/"@;
    let da = prefix + spec_sanitize(a);
    let db = prefix + spec_sanitize(b);
    if da == db {
        assert(spec_sanitize(a) =~= spec_sanitize(b)) by {
            assert(da.len() == db.len());
            assert(spec_sanitize(a).len() == spec_sanitize(b).len());
            assert(forall|k: int|
                0 <= k < spec_sanitize(a).len() ==> spec_sanitize(a)[k] == da[prefix.len() + k]
                    && spec_sanitize(b)[k] == db[prefix.len() + k]);
        }
    }
}

/// What a cache walk reports: record count, asset count, total asset
/// bytes, and the root directory.
#[derive(Debug, Clone, PartialEq)]
pub struct CacheStats {
    pub games_count: u32,
    pub total_assets_count: u32,
    pub total_assets_size: u64,
    pub cache_dir: String,
}

/// Plain sum of a sequence of sizes.
pub open spec fn sum_sizes(s: Seq<u64>) -> int
    decreases s.len(),
{
    if s.len() == 0 {
        0
    } else {
        sum_sizes(s.drop_last()) + s.last()
    }
}

proof fn lemma_sum_sizes_nonneg(s: Seq<u64>)
    ensures
        sum_sizes(s) >= 0,
    decreases s.len(),
{
    if s.len() > 0 {
        lemma_sum_sizes_nonneg(s.drop_last());
    }
}

/// Aggregates a cache walk into statistics.  The byte total saturates at
/// `u64::MAX`; the counts are exact.
pub fn compute_stats(games_count: u32, asset_sizes: &Vec<u64>, cache_dir: String) -> (r: CacheStats)
    requires
        asset_sizes@.len() <= u32::MAX,
    ensures
        r.games_count == games_count,
        r.total_assets_count == asset_sizes@.len(),
        r.total_assets_size == if sum_sizes(asset_sizes@) <= u64::MAX {
            sum_sizes(asset_sizes@)
        } else {
            u64::MAX as int
        },
        r.cache_dir == cache_dir,
{
    let mut total: u64 = 0;
    let mut i: usize = 0;
    proof {
        assert(asset_sizes@.subrange(0, 0) =~= Seq::<u64>::empty());
    }
    while i < asset_sizes.len()
        invariant
            i <= asset_sizes@.len(),
            total == if sum_sizes(asset_sizes@.subrange(0, i as int)) <= u64::MAX {
                sum_sizes(asset_sizes@.subrange(0, i as int))
            } else {
                u64::MAX as int
            },
        decreases asset_sizes.len() - i,
    {
        let sz = asset_sizes[i];
        proof {
            assert(asset_sizes@.subrange(0, (i + 1) as int).drop_last() =~= asset_sizes@.subrange(
                0,
                i as int,
            ));
            lemma_sum_sizes_nonneg(asset_sizes@.subrange(0, i as int));
        }
        if sz > u64::MAX - total {
            total = u64::MAX;
        } else {
            total = total + sz;
        }
        i = i + 1;
    }
    proof {
        assert(asset_sizes@.subrange(0, asset_sizes@.len() as int) =~= asset_sizes@);
    }
    CacheStats {
        games_count,
        total_assets_count: asset_sizes.len() as u32,
        total_assets_size: total,
        cache_dir,
    }
}

} // verus!

//! Achievement source: joins the achievement schema of a game with the
//! player's unlock state, and parses the achievement listings printed by
//! storefront command-line tools.  The HTTP calls and process spawning
//! live outside the library.

use vstd::prelude::*;
use crate::models::clone_opt_string;
use crate::text;

verus! {

/// One achievement, joined from schema and player state.
#[derive(Debug, Clone, PartialEq)]
pub struct Achievement {
    pub api_name: String,
    pub name: String,
    pub description: Option<String>,
    pub achieved: bool,
    pub unlock_time: Option<i64>,
    pub icon_url: Option<String>,
    pub icon_gray_url: Option<String>,
}

/// Achievement totals and the joined list for one game.
#[derive(Debug, Clone, PartialEq, Default)]
pub struct GameAchievements {
    pub total: u32,
    pub unlocked: u32,
    pub achievements: Vec<Achievement>,
}

/// Completion in hundredths of a percent: 0 when no achievements are
/// defined, otherwise unlocked over total, capped at `u32::MAX`.
pub open spec fn spec_completion(total: u32, unlocked: u32) -> u32 {
    if total == 0 {
        0u32
    } else if unlocked * 10000 / (total as int) <= u32::MAX {
        (unlocked * 10000 / (total as int)) as u32
    } else {
        u32::MAX
    }
}

impl GameAchievements {
    /// Completion percentage in hundredths of a percent, 0 when the game
    /// defines no achievements.
    pub fn completion_percentage(&self) -> (r: u32)
        ensures
            r == spec_completion(self.total, self.unlocked),
    {
        if self.total == 0 {
            0
        } else {
            let v: u64 = (self.unlocked as u64) * 10000u64 / (self.total as u64);
            if v > 0xFFFF_FFFFu64 {
                u32::MAX
            } else {
                v as u32
            }
        }
    }
}

/// One entry of a game's achievement schema.
#[derive(Debug, Clone, PartialEq)]
pub struct SteamAchievementSchema {
    pub name: String,
    pub display_name: String,
    pub description: Option<String>,
    pub icon: Option<String>,
    pub icongray: Option<String>,
    pub hidden: Option<u8>,
}

/// One entry of a player's achievement state.
#[derive(Debug, Clone, PartialEq)]
pub struct SteamPlayerAchievement {
    pub apiname: String,
    pub achieved: u8,
    pub unlocktime: Option<i64>,
    pub name: Option<String>,
    pub description: Option<String>,
}

/// The schema response envelope.
#[derive(Debug, Clone, PartialEq)]
pub struct SteamSchemaResponse {
    pub game: Option<SteamGameSchema>,
}

/// The game part of a schema response.
#[derive(Debug, Clone, PartialEq)]
pub struct SteamGameSchema {
    pub game_name: Option<String>,
    pub game_version: Option<String>,
    pub available_game_stats: Option<SteamGameStats>,
}

/// The statistics part of a schema response.
#[derive(Debug, Clone, PartialEq)]
pub struct SteamGameStats {
    pub achievements: Option<Vec<SteamAchievementSchema>>,
}

/// The player-achievements response envelope.
#[derive(Debug, Clone, PartialEq)]
pub struct SteamPlayerAchievementsResponse {
    pub playerstats: Option<SteamPlayerStats>,
}

/// The player part of a player-achievements response.
#[derive(Debug, Clone, PartialEq)]
pub struct SteamPlayerStats {
    pub steam_id: Option<String>,
    pub game_name: Option<String>,
    pub achievements: Option<Vec<SteamPlayerAchievement>>,
    pub success: Option<bool>,
    pub error: Option<String>,
}

/// The schema entries carried by a response, or none.
pub open spec fn spec_schema_of(resp: SteamSchemaResponse) -> Seq<SteamAchievementSchema> {
    match resp.game {
        None => Seq::empty(),
        Some(g) => match g.available_game_stats {
            None => Seq::empty(),
            Some(st) => match st.achievements {
                None => Seq::empty(),
                Some(v) => v@,
            },
        },
    }
}

/// Unwraps the schema entries of a response; a missing level means the
/// game defines no achievements.
pub fn schema_from_response(resp: SteamSchemaResponse) -> (r: Vec<SteamAchievementSchema>)
    ensures
        r@ == spec_schema_of(resp),
{
    match resp.game {
        None => Vec::new(),
        Some(g) => match g.available_game_stats {
            None => Vec::new(),
            Some(st) => match st.achievements {
                None => Vec::new(),
                Some(v) => v,
            },
        },
    }
}

/// The player entries carried by a response.  A per-user error field
/// (private profile, no stats) yields the empty list, not a failure.
pub open spec fn spec_player_of(resp: SteamPlayerAchievementsResponse) -> Seq<
    SteamPlayerAchievement,
> {
    match resp.playerstats {
        None => Seq::empty(),
        Some(st) => if st.error is Some {
            Seq::empty()
        } else {
            match st.achievements {
                None => Seq::empty(),
                Some(v) => v@,
            }
        },
    }
}

/// Unwraps the player entries of a response, treating a reported per-user
/// error as "no achievements".
pub fn player_achievements_from_response(resp: SteamPlayerAchievementsResponse) -> (r: Vec<
    SteamPlayerAchievement,
>)
    ensures
        r@ == spec_player_of(resp),
{
    match resp.playerstats {
        None => Vec::new(),
        Some(st) => if st.error.is_some() {
            Vec::new()
        } else {
            match st.achievements {
                None => Vec::new(),
                Some(v) => v,
            }
        },
    }
}

/// The last player entry whose internal name matches, if any: when a name
/// occurs twice, the later entry wins.
pub open spec fn last_player_match(ps: Seq<SteamPlayerAchievement>, name: Seq<char>) -> Option<
    SteamPlayerAchievement,
>
    decreases ps.len(),
{
    if ps.len() == 0 {
        None
    } else if ps.last().apiname@ == name {
        Some(ps.last())
    } else {
        last_player_match(ps.drop_last(), name)
    }
}

proof fn lemma_last_match_at(ps: Seq<SteamPlayerAchievement>, name: Seq<char>, j: int)
    requires
        0 <= j < ps.len(),
        ps[j].apiname@ == name,
        forall|k: int| j < k < ps.len() ==> (#[trigger] ps[k]).apiname@ != name,
    ensures
        last_player_match(ps, name) == Some(ps[j]),
    decreases ps.len(),
{
    if j < ps.len() - 1 {
        let t = ps.drop_last();
        assert(forall|k: int| j < k < t.len() ==> (#[trigger] t[k]).apiname@ != name);
        lemma_last_match_at(t, name, j);
    }
}

proof fn lemma_last_match_none(ps: Seq<SteamPlayerAchievement>, name: Seq<char>)
    requires
        forall|k: int| 0 <= k < ps.len() ==> (#[trigger] ps[k]).apiname@ != name,
    ensures
        last_player_match(ps, name) is None,
    decreases ps.len(),
{
    if ps.len() > 0 {
        let t = ps.drop_last();
        assert(forall|k: int| 0 <= k < t.len() ==> (#[trigger] t[k]).apiname@ != name);
        lemma_last_match_none(t, name);
    }
}

/// Finds the last player entry with the given internal name.
fn find_last_player<'a>(ps: &'a Vec<SteamPlayerAchievement>, name: &str) -> (r: Option<
    &'a SteamPlayerAchievement,
>)
    ensures
        match r {
            Some(p) => last_player_match(ps@, name@) == Some(*p),
            None => last_player_match(ps@, name@) is None,
        },
{
    let mut found: Option<usize> = None;
    let mut j: usize = 0;
    while j < ps.len()
        invariant
            j <= ps@.len(),
            match found {
                None => forall|k: int| 0 <= k < j ==> (#[trigger] ps@[k]).apiname@ != name@,
                Some(fj) => fj < j && ps@[fj as int].apiname@ == name@ && (forall|k: int|
                    fj < k < j ==> (#[trigger] ps@[k]).apiname@ != name@),
            },
        decreases ps.len() - j,
    {
        if text::str_eq(ps[j].apiname.as_str(), name) {
            found = Some(j);
        }
        j = j + 1;
    }
    match found {
        Some(fj) => {
            proof {
                lemma_last_match_at(ps@, name@, fj as int);
            }
            Some(&ps[fj])
        },
        None => {
            proof {
                lemma_last_match_none(ps@, name@);
            }
            None
        },
    }
}

/// Achieved count of a joined list.
pub open spec fn count_achieved(s: Seq<Achievement>) -> int
    decreases s.len(),
{
    if s.len() == 0 {
        0
    } else {
        count_achieved(s.drop_last()) + if s.last().achieved {
            1int
        } else {
            0int
        }
    }
}

/// Whether one joined entry is the join of a schema entry with the
/// player's state.
pub open spec fn joined_entry(
    a: Achievement,
    s: SteamAchievementSchema,
    ps: Seq<SteamPlayerAchievement>,
) -> bool {
    &&& a.api_name@ == s.name@
    &&& a.name@ == s.display_name@
    &&& a.description == s.description
    &&& a.achieved == match last_player_match(ps, s.name@) {
        Some(p) => p.achieved == 1,
        None => false,
    }
    &&& a.unlock_time == match last_player_match(ps, s.name@) {
        Some(p) => p.unlocktime,
        None => None::<i64>,
    }
    &&& a.icon_url == s.icon
    &&& a.icon_gray_url == s.icongray
}

/// Joins a game's achievement schema with the player's unlock state.  An
/// empty schema means the title defines no achievements: `None`, not an
/// error.  A schema entry absent from the player's list counts as not
/// achieved.
pub fn join_achievements(
    schema: &Vec<SteamAchievementSchema>,
    player: &Vec<SteamPlayerAchievement>,
) -> (r: Option<GameAchievements>)
    requires
        schema@.len() <= u32::MAX,
    ensures
        r is Some <==> schema@.len() > 0,
        schema@.len() > 0 ==> {
            let g = r->0;
            &&& g.total == schema@.len()
            &&& g.achievements@.len() == schema@.len()
            &&& (forall|i: int|
                0 <= i < schema@.len() ==> joined_entry(
                    #[trigger] g.achievements@[i],
                    schema@[i],
                    player@,
                ))
            &&& g.unlocked == count_achieved(g.achievements@)
        },
{
    if schema.len() == 0 {
        return None;
    }
    let mut achievements: Vec<Achievement> = Vec::new();
    let mut unlocked: u32 = 0;
    let mut i: usize = 0;
    while i < schema.len()
        invariant
            i <= schema@.len(),
            schema@.len() <= u32::MAX,
            achievements@.len() == i,
            forall|k: int|
                0 <= k < i ==> joined_entry(#[trigger] achievements@[k], schema@[k], player@),
            unlocked == count_achieved(achievements@),
            unlocked <= i,
        decreases schema.len() - i,
    {
        let s = &schema[i];
        let found = find_last_player(player, s.name.as_str());
        let achieved: bool = match found {
            Some(p) => p.achieved == 1,
            None => false,
        };
        let unlock_time: Option<i64> = match found {
            Some(p) => clone_opt_i64(&p.unlocktime),
            None => None,
        };
        if achieved {
            unlocked = unlocked + 1;
        }
        let entry = Achievement {
            api_name: s.name.clone(),
            name: s.display_name.clone(),
            description: clone_opt_string(&s.description),
            achieved,
            unlock_time,
            icon_url: clone_opt_string(&s.icon),
            icon_gray_url: clone_opt_string(&s.icongray),
        };
        let ghost prev = achievements@;
        achievements.push(entry);
        i = i + 1;
        proof {
            assert(achievements@.drop_last() =~= prev);
            assert(achievements@.last() == entry);
        }
    }
    Some(GameAchievements { total: schema.len() as u32, unlocked, achievements })
}

/// Copies an optional timestamp; the result equals the input.
fn clone_opt_i64(o: &Option<i64>) -> (r: Option<i64>)
    ensures
        r == *o,
{
    match o {
        Option::None => Option::None,
        Option::Some(v) => Option::Some(*v),
    }
}

/// The visible content of a parsed achievement line: its name, optional
/// description, and whether it is checked.
pub struct AchView {
    pub name: Seq<char>,
    pub description: Option<Seq<char>>,
    pub achieved: bool,
}

/// The parsed view of a joined achievement entry.
pub open spec fn ach_view(a: Achievement) -> AchView {
    AchView {
        name: a.name@,
        description: match a.description {
            None => None,
            Some(s) => Some(s@),
        },
        achieved: a.achieved,
    }
}

/// Achieved count of a parsed list.
pub open spec fn count_views(s: Seq<AchView>) -> int
    decreases s.len(),
{
    if s.len() == 0 {
        0
    } else {
        count_views(s.drop_last()) + if s.last().achieved {
            1int
        } else {
            0int
        }
    }
}

proof fn lemma_count_views_bounds(s: Seq<AchView>)
    ensures
        0 <= count_views(s) <= s.len(),
    decreases s.len(),
{
    if s.len() > 0 {
        lemma_count_views_bounds(s.drop_last());
    }
}

/// What a summary line such as `Achievements: 37/63 unlocked` yields: the
/// first two digit runs read as unlocked and total, in that order, or
/// nothing when there are fewer than two runs or one does not fit.
pub open spec fn spec_parse_counts(line: Seq<char>) -> Option<(u32, u32)> {
    let runs = text::digit_runs(line);
    if runs.len() < 2 {
        None
    } else {
        match text::parse_u32_spec(runs[0]) {
            None => None,
            Some(unlocked) => match text::parse_u32_spec(runs[1]) {
                None => None,
                Some(total) => Some((total, unlocked)),
            },
        }
    }
}

/// What one achievement line yields.  The checkbox decides the achieved
/// flag, the checkbox prefix is stripped, and a ` - ` separator splits
/// name from description.
pub open spec fn spec_parse_ach_line(line: Seq<char>) -> AchView {
    let achieved = text::contains_seq(line, "[\u{2713}]"@) || text::contains_seq(line, "[x]"@)
        || text::contains_seq(line, "[X]"@);
    let p1 = text::strip_all(line, "- [\u{2713}]"@);
    let p2 = text::strip_all(p1, "- [\u{2717}]"@);
    let p3 = text::strip_all(p2, "- [ ]"@);
    let p4 = text::strip_all(p3, "- [x]"@);
    let np = text::strip_all(p4, "- [X]"@);
    match text::first_pos(np, " - "@) {
        Some(idx) => AchView {
            name: text::trim_seq(np.subrange(0, idx)),
            description: Some(text::trim_seq(np.subrange(idx + 3, np.len() as int))),
            achieved,
        },
        None => AchView { name: text::trim_seq(np), description: None, achieved },
    }
}

/// The parser's running state: the totals seen on a summary line, the
/// achievements collected so far, and whether the cursor stands inside
/// the achievements section.
pub struct LegendaryState {
    pub total: u32,
    pub unlocked: u32,
    pub achievements: Seq<AchView>,
    pub in_section: bool,
}

/// One line of listing output applied to the parser state.  A summary
/// line records the counts and opens the section; inside the section a
/// `- [` line adds an achievement, and a non-empty line with a colon and
/// no `Achievement` closes the section.
pub open spec fn legendary_step(st: LegendaryState, raw: Seq<char>) -> LegendaryState {
    let line = text::trim_seq(raw);
    if text::contains_seq(line, "Achievements:"@) && text::contains_seq(line, "unlocked"@) {
        match spec_parse_counts(line) {
            Some(c) => LegendaryState {
                total: c.0,
                unlocked: c.1,
                achievements: st.achievements,
                in_section: true,
            },
            None => LegendaryState {
                total: st.total,
                unlocked: st.unlocked,
                achievements: st.achievements,
                in_section: true,
            },
        }
    } else {
        let achs2 = if st.in_section && text::begins_with(line, "- ["@) {
            st.achievements.push(spec_parse_ach_line(line))
        } else {
            st.achievements
        };
        let in2 = if st.in_section && (line.len() == 0 || (text::contains_seq(line, ":"@)
            && !text::contains_seq(line, "Achievement"@))) {
            line.len() == 0
        } else {
            st.in_section
        };
        LegendaryState { total: st.total, unlocked: st.unlocked, achievements: achs2, in_section: in2 }
    }
}

/// The parser state after a whole sequence of lines.
pub open spec fn legendary_fold(lines: Seq<Seq<char>>) -> LegendaryState
    decreases lines.len(),
{
    if lines.len() == 0 {
        LegendaryState { total: 0, unlocked: 0, achievements: Seq::empty(), in_section: false }
    } else {
        legendary_step(legendary_fold(lines.drop_last()), lines.last())
    }
}

/// Reads the two counts out of a summary line.
fn parse_counts_chars(line: &Vec<char>) -> (r: Option<(u32, u32)>)
    ensures
        r == spec_parse_counts(line@),
{
    let runs = text::digit_runs_exec(line);
    if runs.len() < 2 {
        return None;
    }
    proof {
        assert(text::digit_runs(line@)[0] == runs@.map_values(|l: Vec<char>| l@)[0]);
        assert(text::digit_runs(line@)[1] == runs@.map_values(|l: Vec<char>| l@)[1]);
    }
    let unlocked = text::parse_u32_chars(&runs[0]);
    let total = text::parse_u32_chars(&runs[1]);
    match (unlocked, total) {
        (Some(u), Some(t)) => Some((t, u)),
        _ => None,
    }
}

/// Parses one `- [..]` achievement line.
fn parse_ach_line(line: &Vec<char>) -> (r: Achievement)
    ensures
        ach_view(r) == spec_parse_ach_line(line@),
        r.api_name@ == r.name@,
        r.unlock_time is None,
        r.icon_url is None,
        r.icon_gray_url is None,
{
    let pat_check = text::to_chars("[\u{2713}]");
    let pat_x = text::to_chars("[x]");
    let pat_xx = text::to_chars("[X]");
    let achieved = text::contains_chars(line, &pat_check) || text::contains_chars(line, &pat_x)
        || text::contains_chars(line, &pat_xx);
    let strip1 = text::to_chars("- [\u{2713}]");
    let strip2 = text::to_chars("- [\u{2717}]");
    let strip3 = text::to_chars("- [ ]");
    let strip4 = text::to_chars("- [x]");
    let strip5 = text::to_chars("- [X]");
    let line_copy = text::subvec(line, 0, line.len());
    proof {
        assert(line_copy@ =~= line@);
        reveal_strlit("- [\u{2713}]");
        reveal_strlit("- [\u{2717}]");
        reveal_strlit("- [ ]");
        reveal_strlit("- [x]");
        reveal_strlit("- [X]");
    }
    let p1 = text::strip_all_chars(line_copy, &strip1);
    let p2 = text::strip_all_chars(p1, &strip2);
    let p3 = text::strip_all_chars(p2, &strip3);
    let p4 = text::strip_all_chars(p3, &strip4);
    let np = text::strip_all_chars(p4, &strip5);
    let sep = text::to_chars(" - ");
    let (name_chars, desc) = match text::find_sub(&np, &sep) {
        Some(idx) => {
            proof {
                reveal_strlit(" - ");
                text::lemma_first_pos_some(np@, sep@, 0, idx as int);
            }
            let name_part = text::subvec(&np, 0, idx);
            let desc_part = text::subvec(&np, idx + 3, np.len());
            let nt = text::trim_chars(&name_part);
            let dt = text::trim_chars(&desc_part);
            (nt, Some(text::chars_to_string(&dt)))
        },
        None => {
            let nt = text::trim_chars(&np);
            (nt, None)
        },
    };
    let name = text::chars_to_string(&name_chars);
    Achievement {
        api_name: name.clone(),
        name,
        description: desc,
        achieved,
        unlock_time: None,
        icon_url: None,
        icon_gray_url: None,
    }
}

/// The achievement client's configuration: the API key and user identity
/// needed to query the achievement service.  The network side lives
/// outside the library.
#[derive(Debug, Clone, PartialEq)]
pub struct AchievementsService {
    pub steam_api_key: Option<String>,
    pub steam_id: Option<String>,
}

impl AchievementsService {
    /// A client for the given credentials; either may be absent.
    pub fn new(steam_api_key: Option<String>, steam_id: Option<String>) -> (r: AchievementsService)
        ensures
            r.steam_api_key == steam_api_key,
            r.steam_id == steam_id,
    {
        AchievementsService { steam_api_key, steam_id }
    }

    /// Achievements can be fetched exactly when both the API key and the
    /// user identifier are configured.
    pub fn can_fetch_steam(&self) -> (r: bool)
        ensures
            r == (self.steam_api_key is Some && self.steam_id is Some),
    {
        self.steam_api_key.is_some() && self.steam_id.is_some()
    }

    /// Reads the unlocked and total counts out of a summary line such as
    /// `Achievements: 37/63 unlocked`, returned as (total, unlocked).
    pub fn parse_achievement_counts(line: &str) -> (r: Option<(u32, u32)>)
        ensures
            r == spec_parse_counts(line@),
    {
        let cs = text::to_chars(line);
        parse_counts_chars(&cs)
    }

    /// Parses the achievement section of a storefront tool's status
    /// listing.  The result is exactly the fold of the parser state over
    /// the listing's lines: the summary counts when a summary line was
    /// seen, else the checked lines counted directly; no achievement
    /// section at all yields `None`.
    pub fn parse_legendary_achievements(output: &str) -> (r: Option<GameAchievements>)
        ensures
            parse_result_matches(output@, r),
    {
        let lines = text::split_lines(output);
        let pat_summary = text::to_chars("Achievements:");
        let pat_unlocked = text::to_chars("unlocked");
        let pat_dash = text::to_chars("- [");
        let pat_colon = text::to_chars(":");
        let pat_word = text::to_chars("Achievement");
        let mut total: u32 = 0;
        let mut unlocked: u32 = 0;
        let mut achs: Vec<Achievement> = Vec::new();
        let mut in_section: bool = false;
        let mut li: usize = 0;
        let ghost lv = lines@.map_values(|l: Vec<char>| l@);
        proof {
            assert(lv.subrange(0, 0) =~= Seq::<Seq<char>>::empty());
            assert(achs@.map_values(|a: Achievement| ach_view(a)) =~= Seq::<AchView>::empty());
        }
        while li < lines.len()
            invariant
                li <= lines@.len(),
                lv == lines@.map_values(|l: Vec<char>| l@),
                ({
                    let st = legendary_fold(lv.subrange(0, li as int));
                    &&& st.total == total
                    &&& st.unlocked == unlocked
                    &&& st.in_section == in_section
                    &&& st.achievements == achs@.map_values(|a: Achievement| ach_view(a))
                }),
                forall|k: int|
                    0 <= k < achs@.len() ==> {
                        let a = #[trigger] achs@[k];
                        &&& a.api_name@ == a.name@
                        &&& a.unlock_time is None
                        &&& a.icon_url is None
                        &&& a.icon_gray_url is None
                    },
                pat_summary@ == "Achievements:"@,
                pat_unlocked@ == "unlocked"@,
                pat_dash@ == "- ["@,
                pat_colon@ == ":"@,
                pat_word@ == "Achievement"@,
            decreases lines.len() - li,
        {
            let ghost st0 = legendary_fold(lv.subrange(0, li as int));
            proof {
                assert(lv.subrange(0, (li + 1) as int).drop_last() =~= lv.subrange(0, li as int));
                assert(lv.subrange(0, (li + 1) as int).last() == lv[li as int]);
                assert(lv[li as int] == lines@[li as int]@);
            }
            let line = text::trim_chars(&lines[li]);
            let is_summary = text::contains_chars(&line, &pat_summary) && text::contains_chars(
                &line,
                &pat_unlocked,
            );
            if is_summary {
                match parse_counts_chars(&line) {
                    Some(c) => {
                        total = c.0;
                        unlocked = c.1;
                    },
                    None => {},
                }
                in_section = true;
            } else {
                if in_section && text::starts_with_chars(&line, &pat_dash) {
                    let a = parse_ach_line(&line);
                    let ghost prev = achs@;
                    achs.push(a);
                    proof {
                        assert(achs@.map_values(|x: Achievement| ach_view(x)) =~= prev.map_values(
                            |x: Achievement| ach_view(x),
                        ).push(ach_view(a)));
                    }
                }
                let empty_line = line.len() == 0;
                if in_section && (empty_line || (text::contains_chars(&line, &pat_colon)
                    && !text::contains_chars(&line, &pat_word))) {
                    if !empty_line {
                        in_section = false;
                    }
                }
            }
            li = li + 1;
        }
        proof {
            assert(lv.subrange(0, lv.len() as int) =~= lv);
            assert(lv =~= text::split_lines_spec(output@));
        }
        if total == 0 && achs.len() > 0 {
            total = if achs.len() > 0xFFFF_FFFFusize {
                u32::MAX
            } else {
                achs.len() as u32
            };
            let mut cnt: u32 = 0;
            let mut ci: usize = 0;
            let ghost views = achs@.map_values(|a: Achievement| ach_view(a));
            proof {
                assert(views.subrange(0, 0) =~= Seq::<AchView>::empty());
            }
            while ci < achs.len()
                invariant
                    ci <= achs@.len(),
                    views == achs@.map_values(|a: Achievement| ach_view(a)),
                    cnt == if count_views(views.subrange(0, ci as int)) <= u32::MAX {
                        count_views(views.subrange(0, ci as int))
                    } else {
                        u32::MAX as int
                    },
                decreases achs.len() - ci,
            {
                proof {
                    assert(views.subrange(0, (ci + 1) as int).drop_last() =~= views.subrange(
                        0,
                        ci as int,
                    ));
                    assert(views.subrange(0, (ci + 1) as int).last() == views[ci as int]);
                    lemma_count_views_bounds(views.subrange(0, ci as int));
                }
                if achs[ci].achieved {
                    if cnt < u32::MAX {
                        cnt = cnt + 1;
                    }
                }
                ci = ci + 1;
            }
            proof {
                assert(views.subrange(0, views.len() as int) =~= views);
            }
            unlocked = cnt;
            Some(GameAchievements { total, unlocked, achievements: achs })
        } else if total > 0 || achs.len() > 0 {
            Some(GameAchievements { total, unlocked, achievements: achs })
        } else {
            None
        }
    }

    /// Parses a GOG tool's status listing; the format is the same.
    pub fn parse_gogdl_achievements(output: &str) -> (r: Option<GameAchievements>)
        ensures
            parse_result_matches(output@, r),
    {
        Self::parse_legendary_achievements(output)
    }

    /// Parses an Amazon tool's status listing; the format is the same.
    pub fn parse_nile_achievements(output: &str) -> (r: Option<GameAchievements>)
        ensures
            parse_result_matches(output@, r),
    {
        Self::parse_legendary_achievements(output)
    }
}

/// What the listing parser returns for a whole output: the fold of the
/// parser state over its lines, with the totals recomputed from the
/// collected lines when no summary line supplied them.
pub open spec fn parse_result_matches(output: Seq<char>, r: Option<GameAchievements>) -> bool {
    let st = legendary_fold(text::split_lines_spec(output));
    let n = st.achievements.len();
    if st.total > 0 || n > 0 {
        &&& r is Some
        &&& {
            let g = r->0;
            let ftotal: int = if st.total == 0 {
                if n <= u32::MAX {
                    n as int
                } else {
                    u32::MAX as int
                }
            } else {
                st.total as int
            };
            let funlocked: int = if st.total == 0 {
                if count_views(st.achievements) <= u32::MAX {
                    count_views(st.achievements)
                } else {
                    u32::MAX as int
                }
            } else {
                st.unlocked as int
            };
            &&& g.total == ftotal
            &&& g.unlocked == funlocked
            &&& g.achievements@.map_values(|a: Achievement| ach_view(a)) == st.achievements
            &&& (forall|k: int|
                0 <= k < g.achievements@.len() ==> {
                    let a = #[trigger] g.achievements@[k];
                    &&& a.api_name@ == a.name@
                    &&& a.unlock_time is None
                    &&& a.icon_url is None
                    &&& a.icon_gray_url is None
                })
        }
    } else {
        r is None
    }
}

} // verus!

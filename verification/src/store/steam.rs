//! The Steam library boundary: parsing of VDF-style manifest lines and
//! whole application manifests into base game records.  Locating the
//! Steam installation and reading files stay outside the library.

use vstd::prelude::*;
use vstd::string::StringExecFns;
use crate::models::Game;
use crate::text;

verus! {

/// The quote scan over a manifest line: whether the scan stands inside
/// quotes, where the value after the last opening quote starts, and
/// where the last closing quote stands.
pub open spec fn vdf_scan(s: Seq<char>) -> (bool, int, int)
    decreases s.len(),
{
    if s.len() == 0 {
        (false, 0int, 0int)
    } else {
        let prior = vdf_scan(s.drop_last());
        let i = s.len() - 1;
        if s.last() == '"' {
            if prior.0 {
                (false, prior.1, i as int)
            } else {
                (true, i + 1, prior.2)
            }
        } else {
            prior
        }
    }
}

/// The value carried by a VDF line such as `"key"  "value"`: the text
/// between the last opening quote and the last closing quote, or empty
/// when the quotes do not pair up that way.
pub open spec fn spec_extract_vdf(s: Seq<char>) -> Seq<char> {
    let scan = vdf_scan(s);
    if scan.1 < scan.2 {
        s.subrange(scan.1, scan.2)
    } else {
        Seq::empty()
    }
}

/// Extracts the quoted value of a VDF line.
pub fn extract_vdf_value_chars(cs: &Vec<char>) -> (r: Vec<char>)
    ensures
        r@ == spec_extract_vdf(cs@),
{
    let mut in_quotes: bool = false;
    let mut value_start: usize = 0;
    let mut last_quote_end: usize = 0;
    let mut i: usize = 0;
    proof {
        assert(cs@.subrange(0, 0) =~= Seq::<char>::empty());
    }
    while i < cs.len()
        invariant
            i <= cs@.len(),
            value_start <= i,
            last_quote_end <= i,
            vdf_scan(cs@.subrange(0, i as int)) == (in_quotes, value_start as int, last_quote_end as int),
        decreases cs@.len() - i,
    {
        proof {
            assert(cs@.subrange(0, (i + 1) as int).drop_last() =~= cs@.subrange(0, i as int));
            assert(cs@.subrange(0, (i + 1) as int).last() == cs@[i as int]);
        }
        if cs[i] == '"' {
            if in_quotes {
                last_quote_end = i;
                in_quotes = false;
            } else {
                value_start = i + 1;
                in_quotes = true;
            }
        }
        i = i + 1;
    }
    proof {
        assert(cs@.subrange(0, cs@.len() as int) =~= cs@);
    }
    if value_start < last_quote_end {
        text::subvec(cs, value_start, last_quote_end)
    } else {
        let r: Vec<char> = Vec::new();
        proof {
            assert(r@ =~= Seq::<char>::empty());
        }
        r
    }
}

/// Extracts the quoted value of a VDF line such as `"key"  "value"`.
pub fn extract_vdf_value(line: &str) -> (r: String)
    ensures
        r@ == spec_extract_vdf(line@),
{
    let cs = text::to_chars(line);
    let value = extract_vdf_value_chars(&cs);
    text::chars_to_string(&value)
}

/// A manifest scan keeps the value of the last line seen per key.
pub struct ManifestFields {
    pub app_id: Seq<char>,
    pub name: Seq<char>,
    pub install_dir: Seq<char>,
}

/// One manifest line applied to the collected fields: a line whose
/// trimmed text opens with a known quoted key replaces that field with
/// the line's quoted value.
pub open spec fn manifest_step(st: ManifestFields, raw: Seq<char>) -> ManifestFields {
    let line = text::trim_seq(raw);
    if text::begins_with(line, "\"appid\""@) {
        ManifestFields { app_id: spec_extract_vdf(line), name: st.name, install_dir: st.install_dir }
    } else if text::begins_with(line, "\"name\""@) {
        ManifestFields { app_id: st.app_id, name: spec_extract_vdf(line), install_dir: st.install_dir }
    } else if text::begins_with(line, "\"installdir\""@) {
        ManifestFields { app_id: st.app_id, name: st.name, install_dir: spec_extract_vdf(line) }
    } else {
        st
    }
}

/// The fields collected over a whole manifest.
pub open spec fn manifest_fold(lines: Seq<Seq<char>>) -> ManifestFields
    decreases lines.len(),
{
    if lines.len() == 0 {
        ManifestFields { app_id: Seq::empty(), name: Seq::empty(), install_dir: Seq::empty() }
    } else {
        manifest_step(manifest_fold(lines.drop_last()), lines.last())
    }
}

/// What parsing a manifest yields: with both an application id and a
/// name present, a base game record whose identifier, paths and store
/// URLs are all derived from those fields; otherwise nothing.
pub open spec fn manifest_game_matches(
    content: Seq<char>,
    manifest_dir: Seq<char>,
    now: int,
    r: Option<Game>,
) -> bool {
    let st = manifest_fold(text::split_lines_spec(content));
    if st.app_id.len() > 0 && st.name.len() > 0 {
        &&& r is Some
        &&& {
            let g = r->0;
            &&& g.id@ == "steam_"@ + st.app_id
            &&& g.title@ == st.name
            &&& g.store@ == "steam"@
            &&& g.store_id@ == st.app_id
            &&& g.installed
            &&& g.install_path is Some && g.install_path->0@ == manifest_dir + "/common/"@
                + st.install_dir
            &&& g.custom_executable is None
            &&& g.wine_prefix is None
            &&& g.wine_version is None
            &&& g.cover_url is Some && g.cover_url->0@
                == "https://steamcdn-a.akamaihd.net/steam/apps/"@ + st.app_id
                + "/library_600x900.jpg"@
            &&& g.background_url is Some && g.background_url->0@
                == "https://steamcdn-a.akamaihd.net/steam/apps/"@ + st.app_id
                + "/library_hero.jpg"@
            &&& g.developer is None
            &&& g.publisher is None
            &&& g.description is None
            &&& g.release_date is None
            &&& g.last_played is None
            &&& g.play_time_minutes == 0
            &&& g.created_at == now
            &&& g.updated_at == now
        }
    } else {
        r is None
    }
}

/// Parses the text of a Steam application manifest into a base game
/// record.  The manifest directory is the directory the manifest file
/// lies in; the install path points into its `common` subdirectory.  A
/// manifest missing the application id or the name yields `None`.
pub fn parse_app_manifest_text(content: &str, manifest_dir: &str, now: i64) -> (r: Option<Game>)
    ensures
        manifest_game_matches(content@, manifest_dir@, now as int, r),
{
    let lines = text::split_lines(content);
    let pat_appid = text::to_chars("\"appid\"");
    let pat_name = text::to_chars("\"name\"");
    let pat_dir = text::to_chars("\"installdir\"");
    let mut app_id: Vec<char> = Vec::new();
    let mut name: Vec<char> = Vec::new();
    let mut install_dir: Vec<char> = Vec::new();
    let mut li: usize = 0;
    let ghost lv = lines@.map_values(|l: Vec<char>| l@);
    proof {
        assert(lv.subrange(0, 0) =~= Seq::<Seq<char>>::empty());
        assert(app_id@ =~= Seq::<char>::empty());
        assert(name@ =~= Seq::<char>::empty());
        assert(install_dir@ =~= Seq::<char>::empty());
    }
    while li < lines.len()
        invariant
            li <= lines@.len(),
            lv == lines@.map_values(|l: Vec<char>| l@),
            ({
                let st = manifest_fold(lv.subrange(0, li as int));
                st.app_id == app_id@ && st.name == name@ && st.install_dir == install_dir@
            }),
            pat_appid@ == "\"appid\""@,
            pat_name@ == "\"name\""@,
            pat_dir@ == "\"installdir\""@,
        decreases lines.len() - li,
    {
        proof {
            assert(lv.subrange(0, (li + 1) as int).drop_last() =~= lv.subrange(0, li as int));
            assert(lv.subrange(0, (li + 1) as int).last() == lv[li as int]);
            assert(lv[li as int] == lines@[li as int]@);
        }
        let line = text::trim_chars(&lines[li]);
        if text::starts_with_chars(&line, &pat_appid) {
            app_id = extract_vdf_value_chars(&line);
        } else if text::starts_with_chars(&line, &pat_name) {
            name = extract_vdf_value_chars(&line);
        } else if text::starts_with_chars(&line, &pat_dir) {
            install_dir = extract_vdf_value_chars(&line);
        }
        li = li + 1;
    }
    proof {
        assert(lv.subrange(0, lv.len() as int) =~= lv);
        assert(lv =~= text::split_lines_spec(content@));
    }
    if app_id.len() == 0 || name.len() == 0 {
        return None;
    }
    let app_id_str = text::chars_to_string(&app_id);
    let mut id: String = "steam_".to_owned();
    id.append(app_id_str.as_str());
    let mut install_path: String = manifest_dir.to_owned();
    install_path.append("/common/");
    let dir_str = text::chars_to_string(&install_dir);
    install_path.append(dir_str.as_str());
    let mut cover: String = "https://steamcdn-a.akamaihd.net/steam/apps/".to_owned();
    cover.append(app_id_str.as_str());
    cover.append("/library_600x900.jpg");
    let mut background: String = "https://steamcdn-a.akamaihd.net/steam/apps/".to_owned();
    background.append(app_id_str.as_str());
    background.append("/library_hero.jpg");
    Some(
        Game {
            id,
            title: text::chars_to_string(&name),
            store: "steam".to_owned(),
            store_id: app_id_str,
            installed: true,
            install_path: Some(install_path),
            custom_executable: None,
            wine_prefix: None,
            wine_version: None,
            cover_url: Some(cover),
            background_url: Some(background),
            developer: None,
            publisher: None,
            description: None,
            release_date: None,
            last_played: None,
            play_time_minutes: 0,
            created_at: now,
            updated_at: now,
        },
    )
}

/// The identity of a detected Steam installation, as plain paths.
#[derive(Debug, Clone, PartialEq, Default)]
pub struct SteamAdapter {
    pub steam_path: Option<String>,
    pub library_folders: Vec<String>,
}

impl SteamAdapter {
    /// An adapter over an already detected installation.  Detection walks
    /// the file system and stays outside the library.
    pub fn new(steam_path: Option<String>, library_folders: Vec<String>) -> (r: SteamAdapter)
        ensures
            r.steam_path == steam_path,
            r.library_folders@ == library_folders@,
    {
        SteamAdapter { steam_path, library_folders }
    }

    /// Steam counts as installed when a path was detected.
    pub fn is_available(&self) -> (r: bool)
        ensures
            r == (self.steam_path is Some),
    {
        self.steam_path.is_some()
    }
}

} // verus!

//! Tags: common and reusable lists of metadata such as categories, game
//! versions, project types and report types.

use crate::api::projects::{
    is_known_project_type_tag, is_other_project_type, project_type_tag, ProjectType,
};
use crate::client::{parts_match, AuthState, Modrinth, RequestParts};
use crate::helpers::{find_name, str_eq};
use crate::ModrinthError;
use vstd::prelude::*;

verus! {

/// Headers that categories can be grouped under.
#[derive(Clone, Debug, PartialEq, Eq)]
pub enum CategoryHeader {
    /// Categories that are related to the project type.
    Categories,
    /// Categories that are related to the features of the project.
    Features,
    /// Categories that are related to the resolution(s) of textures in the
    /// project.
    Resolutions,
    /// Categories that are related to the performance impact of the
    /// project.
    PerformanceImpact,
    /// A header this library does not know, kept verbatim.
    Other(String),
}

/// The wire tag of a category header; an unknown tag is carried as itself.
pub open spec fn category_header_tag(t: CategoryHeader) -> Seq<char> {
    match t {
        CategoryHeader::Categories => "categories"@,
        CategoryHeader::Features => "features"@,
        CategoryHeader::Resolutions => "resolutions"@,
        CategoryHeader::PerformanceImpact => "performanceimpact"@,
        CategoryHeader::Other(s) => s@,
    }
}

/// Whether `s` is one of the known category header tags.
pub open spec fn is_known_category_header_tag(s: Seq<char>) -> bool {
    ||| s == "categories"@
    ||| s == "features"@
    ||| s == "resolutions"@
    ||| s == "performanceimpact"@
}

/// Whether a category header is the catch-all variant.
pub open spec fn is_other_category_header(t: CategoryHeader) -> bool {
    t is Other
}

impl CategoryHeader {
    /// Parse a wire tag.  Any string outside the known tag set falls into
    /// [`CategoryHeader::Other`] carrying the original string unchanged,
    /// so parsing never fails.
    pub fn from_tag(s: &str) -> (r: CategoryHeader)
        ensures
            category_header_tag(r) == s@,
            is_other_category_header(r) <==> !is_known_category_header_tag(s@),
    {
        if str_eq(s, "categories") {
            CategoryHeader::Categories
        } else if str_eq(s, "features") {
            CategoryHeader::Features
        } else if str_eq(s, "resolutions") {
            CategoryHeader::Resolutions
        } else if str_eq(s, "performanceimpact") {
            CategoryHeader::PerformanceImpact
        } else {
            CategoryHeader::Other(s.to_owned())
        }
    }
}

/// The type of release a game version is.
#[derive(Clone, Copy, Debug, PartialEq, Eq, PartialOrd, Ord, Structural)]
pub enum GameVersionType {
    Alpha,
    Beta,
    Snapshot,
    Release,
}

/// The wire tag of a game version type.
pub open spec fn game_version_type_tag(t: GameVersionType) -> Seq<char> {
    match t {
        GameVersionType::Alpha => "alpha"@,
        GameVersionType::Beta => "beta"@,
        GameVersionType::Snapshot => "snapshot"@,
        GameVersionType::Release => "release"@,
    }
}

/// Whether `s` is one of the known game version type tags.
pub open spec fn is_known_game_version_type_tag(s: Seq<char>) -> bool {
    ||| s == "alpha"@
    ||| s == "beta"@
    ||| s == "snapshot"@
    ||| s == "release"@
}

impl GameVersionType {
    /// Parse a wire tag; this enumeration is closed, so an unknown tag is
    /// rejected.
    pub fn from_tag(s: &str) -> (r: Option<GameVersionType>)
        ensures
            r is Some <==> is_known_game_version_type_tag(s@),
            match r {
                Some(v) => game_version_type_tag(v) == s@,
                None => true,
            },
    {
        if str_eq(s, "alpha") {
            Some(GameVersionType::Alpha)
        } else if str_eq(s, "beta") {
            Some(GameVersionType::Beta)
        } else if str_eq(s, "snapshot") {
            Some(GameVersionType::Snapshot)
        } else if str_eq(s, "release") {
            Some(GameVersionType::Release)
        } else {
            None
        }
    }
}

/// A report type supported by Modrinth.
#[derive(Clone, Debug, PartialEq, Eq)]
pub enum ReportType {
    /// The project is spam or contains spam content.
    Spam,
    /// The project violates copyright laws or contains copyrighted
    /// material without permission.
    Copyright,
    /// The project is inappropriate or contains offensive content.
    Inappropriate,
    /// The project is malicious or contains harmful content.
    Malicious,
    /// The project is
    /// [cybersquatting](https://en.wikipedia.org/wiki/Cybersquatting) the
    /// name.
    NameSquatting,
    /// The project has a poor description.
    PoorDescription,
    /// The project has invalid metadata, such as missing or incorrect
    /// fields.
    InvalidMetadata,
    /// Any other issue, carried as the reported tag verbatim: the API's
    /// own `"other"` kind and any kind this library does not know.
    Other(String),
}

/// The wire tag of a report type; an unknown tag is carried as itself.
pub open spec fn report_type_tag(t: ReportType) -> Seq<char> {
    match t {
        ReportType::Spam => "spam"@,
        ReportType::Copyright => "copyright"@,
        ReportType::Inappropriate => "inappropriate"@,
        ReportType::Malicious => "malicious"@,
        ReportType::NameSquatting => "name-squatting"@,
        ReportType::PoorDescription => "poor description"@,
        ReportType::InvalidMetadata => "invalid metadata"@,
        ReportType::Other(s) => s@,
    }
}

/// Whether `s` is one of the known report type tags.
pub open spec fn is_known_report_type_tag(s: Seq<char>) -> bool {
    ||| s == "spam"@
    ||| s == "copyright"@
    ||| s == "inappropriate"@
    ||| s == "malicious"@
    ||| s == "name-squatting"@
    ||| s == "poor description"@
    ||| s == "invalid metadata"@
}

/// Whether a report type is the catch-all variant.
pub open spec fn is_other_report_type(t: ReportType) -> bool {
    t is Other
}

impl ReportType {
    /// Parse a wire tag.  Any string outside the known tag set falls into
    /// [`ReportType::Other`] carrying the original string unchanged, so
    /// parsing never fails: the API may introduce new report types
    /// without breaking older clients.
    pub fn from_tag(s: &str) -> (r: ReportType)
        ensures
            report_type_tag(r) == s@,
            is_other_report_type(r) <==> !is_known_report_type_tag(s@),
    {
        if str_eq(s, "spam") {
            ReportType::Spam
        } else if str_eq(s, "copyright") {
            ReportType::Copyright
        } else if str_eq(s, "inappropriate") {
            ReportType::Inappropriate
        } else if str_eq(s, "malicious") {
            ReportType::Malicious
        } else if str_eq(s, "name-squatting") {
            ReportType::NameSquatting
        } else if str_eq(s, "poor description") {
            ReportType::PoorDescription
        } else if str_eq(s, "invalid metadata") {
            ReportType::InvalidMetadata
        } else {
            ReportType::Other(s.to_owned())
        }
    }
}

/// Parse the raw report type listing; parsing never fails, so the call
/// survives new report types.
pub fn report_types_from_tags(raw: &Vec<String>) -> (r: Vec<ReportType>)
    ensures
        r@.len() == raw@.len(),
        forall|i: int|
            0 <= i < raw@.len() ==> report_type_tag(#[trigger] r@[i]) == raw@[i]@ && (
            is_other_report_type(r@[i]) <==> !is_known_report_type_tag(raw@[i]@)),
{
    let mut out: Vec<ReportType> = Vec::new();
    let n = raw.len();
    let mut i: usize = 0;
    while i < n
        invariant
            i <= n,
            n == raw@.len(),
            out@.len() == i,
            forall|k: int|
                0 <= k < i ==> report_type_tag(#[trigger] out@[k]) == raw@[k]@ && (
                is_other_report_type(out@[k]) <==> !is_known_report_type_tag(raw@[k]@)),
        decreases n - i,
    {
        out.push(ReportType::from_tag(raw[i].as_str()));
        i = i + 1;
    }
    out
}

/// A category that can be applied to a project.
#[derive(Clone, Debug, PartialEq, Eq)]
pub struct Category {
    /// The SVG icon of the category.
    pub icon: String,
    /// The project type this category is applicable to.
    pub project_type: ProjectType,
    /// The header under which the category should go.
    pub header: CategoryHeader,
}

/// One raw entry of the category listing, as the API reports it.
pub struct CategoryRow {
    /// The category name: the key of the resulting mapping.
    pub name: String,
    /// The SVG icon of the category.
    pub icon: String,
    /// The raw project type tag.
    pub project_type: String,
    /// The raw header tag.
    pub header: String,
}

/// Whether `entry` is the faithful reading of `row`.
pub open spec fn category_entry_matches(entry: (String, Category), row: CategoryRow) -> bool {
    &&& entry.0@ == row.name@
    &&& entry.1.icon@ == row.icon@
    &&& project_type_tag(entry.1.project_type) == row.project_type@
    &&& (is_other_project_type(entry.1.project_type) <==> !is_known_project_type_tag(
        row.project_type@,
    ))
    &&& category_header_tag(entry.1.header) == row.header@
    &&& (is_other_category_header(entry.1.header) <==> !is_known_category_header_tag(row.header@))
}

/// Whether some entry of the mapping bears the name `name`.
pub open spec fn has_category_key(entries: Seq<(String, Category)>, name: Seq<char>) -> bool {
    exists|p: int| 0 <= p < entries.len() && (#[trigger] entries[p]).0@ == name
}

/// Whether `entry` reads the last row in `rows` that bears its name: a
/// later row overwrites an earlier one with the same name, as map
/// insertion does.
pub open spec fn category_entry_from_rows(entry: (String, Category), rows: Seq<CategoryRow>) -> bool {
    exists|k: int|
        #![auto]
        0 <= k < rows.len() && category_entry_matches(entry, rows[k]) && (forall|k2: int|
            k < k2 < rows.len() ==> rows[k2].name@ != entry.0@)
}

/// Reshape the raw category listing into a mapping from category name to
/// category: one entry per distinct name, in order of first appearance,
/// each holding the last row reported under its name.
pub fn categories_from_rows(rows: &Vec<CategoryRow>) -> (r: Vec<(String, Category)>)
    ensures
        forall|p: int, q: int| 0 <= p < q < r@.len() ==> (#[trigger] r@[p]).0@ != (#[trigger] r@[q]).0@,
        forall|p: int| 0 <= p < r@.len() ==> category_entry_from_rows(#[trigger] r@[p], rows@),
        forall|k: int|
            0 <= k < rows@.len() ==> has_category_key(r@, (#[trigger] rows@[k]).name@),
{
    let mut out: Vec<(String, Category)> = Vec::new();
    let mut names: Vec<String> = Vec::new();
    let ghost mut wit: Seq<int> = Seq::empty();
    let ghost mut pos: Seq<int> = Seq::empty();
    let n = rows.len();
    let mut i: usize = 0;
    while i < n
        invariant
            i <= n,
            n == rows@.len(),
            wit.len() == out@.len(),
            names@.len() == out@.len(),
            pos.len() == i,
            forall|p: int| 0 <= p < out@.len() ==> (#[trigger] names@[p])@ == out@[p].0@,
            forall|p: int, q: int|
                0 <= p < q < out@.len() ==> (#[trigger] out@[p]).0@ != (#[trigger] out@[q]).0@,
            forall|p: int|
                0 <= p < out@.len() ==> 0 <= #[trigger] wit[p] < i && category_entry_matches(
                    out@[p],
                    rows@[wit[p]],
                ) && (forall|k2: int| wit[p] < k2 < i ==> rows@[k2].name@ != out@[p].0@),
            forall|k: int|
                0 <= k < i ==> 0 <= #[trigger] pos[k] < out@.len() && out@[pos[k]].0@
                    == rows@[k].name@,
        decreases n - i,
    {
        let row = &rows[i];
        let entry = (
            row.name.clone(),
            Category {
                icon: row.icon.clone(),
                project_type: ProjectType::from_tag(row.project_type.as_str()),
                header: CategoryHeader::from_tag(row.header.as_str()),
            },
        );
        let ghost ge = entry;
        let ghost key = rows@[i as int].name@;
        proof {
            assert(category_entry_matches(ge, rows@[i as int]));
            assert(ge.0@ == key);
        }
        match find_name(&names, row.name.as_str()) {
            Some(p) => {
                let ghost old_out = out@;
                let ghost old_wit = wit;
                out.remove(p);
                out.insert(p, entry);
                proof {
                    assert(out@ =~= old_out.update(p as int, ge));
                    wit = wit.update(p as int, i as int);
                    pos = pos.push(p as int);
                    assert(old_out[p as int].0@ == key);
                    assert forall|a: int, b: int|
                        0 <= a < b < out@.len() implies (#[trigger] out@[a]).0@ != (
                    #[trigger] out@[b]).0@ by {
                        assert(out@[a].0@ == old_out[a].0@);
                        assert(out@[b].0@ == old_out[b].0@);
                    }
                    assert forall|p2: int| 0 <= p2 < out@.len() implies 0 <= #[trigger] wit[p2] < i
                        + 1 && category_entry_matches(out@[p2], rows@[wit[p2]]) && (forall|k2: int|
                        wit[p2] < k2 < i + 1 ==> rows@[k2].name@ != out@[p2].0@) by {
                        if p2 == p as int {
                            assert(wit[p2] == i as int);
                            assert(out@[p2] == ge);
                        } else {
                            assert(out@[p2] == old_out[p2]);
                            assert(wit[p2] == old_wit[p2]);
                            assert(0 <= old_wit[p2] < i && category_entry_matches(
                                old_out[p2],
                                rows@[old_wit[p2]],
                            ) && (forall|k2: int|
                                old_wit[p2] < k2 < i ==> rows@[k2].name@ != old_out[p2].0@));
                            assert(old_out[p2].0@ != old_out[p as int].0@);
                            assert(rows@[i as int].name@ != out@[p2].0@);
                        }
                    }
                    assert forall|k: int|
                        0 <= k < i + 1 implies 0 <= #[trigger] pos[k] < out@.len() && out@[pos[k]].0@
                        == rows@[k].name@ by {
                        if k < i {
                            assert(out@[pos[k]].0@ == old_out[pos[k]].0@);
                        } else {
                            assert(pos[k] == p as int);
                        }
                    }
                }
            },
            None => {
                let ghost old_out = out@;
                let ghost old_names = names@;
                let ghost old_wit = wit;
                out.push(entry);
                names.push(row.name.clone());
                proof {
                    wit = wit.push(i as int);
                    pos = pos.push(old_out.len() as int);
                    assert(out@ =~= old_out.push(ge));
                    assert forall|q: int| 0 <= q < old_out.len() implies (#[trigger] old_out[q]).0@
                        != key by {
                        assert(old_names[q]@ == old_out[q].0@);
                    }
                    assert forall|a: int, b: int|
                        0 <= a < b < out@.len() implies (#[trigger] out@[a]).0@ != (
                    #[trigger] out@[b]).0@ by {
                        if b < old_out.len() as int {
                            assert(out@[a].0@ == old_out[a].0@);
                            assert(out@[b].0@ == old_out[b].0@);
                        } else {
                            assert(out@[b] == ge);
                            assert(out@[a].0@ == old_out[a].0@);
                        }
                    }
                    assert forall|p2: int| 0 <= p2 < out@.len() implies 0 <= #[trigger] wit[p2] < i
                        + 1 && category_entry_matches(out@[p2], rows@[wit[p2]]) && (forall|k2: int|
                        wit[p2] < k2 < i + 1 ==> rows@[k2].name@ != out@[p2].0@) by {
                        if p2 == old_out.len() as int {
                            assert(wit[p2] == i as int);
                            assert(out@[p2] == ge);
                        } else {
                            assert(out@[p2] == old_out[p2]);
                            assert(wit[p2] == old_wit[p2]);
                            assert(0 <= old_wit[p2] < i && category_entry_matches(
                                old_out[p2],
                                rows@[old_wit[p2]],
                            ) && (forall|k2: int|
                                old_wit[p2] < k2 < i ==> rows@[k2].name@ != old_out[p2].0@));
                            assert(rows@[i as int].name@ != out@[p2].0@);
                        }
                    }
                    assert forall|k: int|
                        0 <= k < i + 1 implies 0 <= #[trigger] pos[k] < out@.len() && out@[pos[k]].0@
                        == rows@[k].name@ by {
                        if k < i {
                            assert(out@[pos[k]].0@ == old_out[pos[k]].0@);
                        } else {
                            assert(pos[k] == old_out.len() as int);
                        }
                    }
                }
            },
        }
        i = i + 1;
    }
    proof {
        assert forall|p: int| 0 <= p < out@.len() implies category_entry_from_rows(
            out@[p],
            rows@,
        ) by {
            assert(0 <= wit[p] < rows@.len() && category_entry_matches(out@[p], rows@[wit[p]]));
        }
        assert forall|k: int| 0 <= k < rows@.len() implies has_category_key(
            out@,
            (#[trigger] rows@[k]).name@,
        ) by {
            assert(0 <= pos[k] < out@.len() && out@[pos[k]].0@ == rows@[k].name@);
        }
    }
    out
}

/// A version of a game that a project can target.
#[derive(Clone, Debug, PartialEq, Eq)]
pub struct GameVersion {
    /// The type of the game version.
    pub version_type: GameVersionType,
    /// The release instant of the game version, in unix seconds.
    pub date: i64,
    /// Whether or not this is a major version, used for Featured Versions.
    pub major: bool,
}

/// One raw entry of the game version listing, as the API reports it.
pub struct GameVersionRow {
    /// The version name: the key of the resulting mapping.
    pub version: String,
    /// The raw version type tag.
    pub version_type: String,
    /// The release instant of the game version, in unix seconds.
    pub date: i64,
    /// Whether or not this is a major version.
    pub major: bool,
}

/// Whether `entry` is the faithful reading of `row`.
pub open spec fn game_version_entry_matches(entry: (String, GameVersion), row: GameVersionRow) -> bool {
    &&& entry.0@ == row.version@
    &&& game_version_type_tag(entry.1.version_type) == row.version_type@
    &&& entry.1.date == row.date
    &&& entry.1.major == row.major
}

/// Whether some entry of the mapping bears the version name `name`.
pub open spec fn has_game_version_key(
    entries: Seq<(String, GameVersion)>,
    name: Seq<char>,
) -> bool {
    exists|p: int| 0 <= p < entries.len() && (#[trigger] entries[p]).0@ == name
}

/// Whether `entry` reads the last row in `rows` that bears its version
/// name: a later row overwrites an earlier one with the same name, as map
/// insertion does.
pub open spec fn game_version_entry_from_rows(
    entry: (String, GameVersion),
    rows: Seq<GameVersionRow>,
) -> bool {
    exists|k: int|
        #![auto]
        0 <= k < rows.len() && game_version_entry_matches(entry, rows[k]) && (forall|k2: int|
            k < k2 < rows.len() ==> rows[k2].version@ != entry.0@)
}

/// Reshape the raw game version listing into a mapping from version name
/// to version: one entry per distinct name, in order of first appearance,
/// each holding the last row reported under its name.  The version type
/// enumeration is closed, so one unknown tag fails the whole call with
/// [`ModrinthError::Parse`].
pub fn game_versions_from_rows(rows: &Vec<GameVersionRow>) -> (r: Result<
    Vec<(String, GameVersion)>,
    ModrinthError,
>)
    ensures
        r is Ok <==> (forall|i: int|
            0 <= i < rows@.len() ==> is_known_game_version_type_tag(
                (#[trigger] rows@[i]).version_type@,
            )),
        match r {
            Ok(out) => {
                &&& forall|p: int, q: int|
                    0 <= p < q < out@.len() ==> (#[trigger] out@[p]).0@ != (#[trigger] out@[q]).0@
                &&& forall|p: int|
                    0 <= p < out@.len() ==> game_version_entry_from_rows(#[trigger] out@[p], rows@)
                &&& forall|k: int|
                    0 <= k < rows@.len() ==> has_game_version_key(
                        out@,
                        (#[trigger] rows@[k]).version@,
                    )
            },
            Err(e) => e is Parse,
        },
{
    let mut out: Vec<(String, GameVersion)> = Vec::new();
    let mut names: Vec<String> = Vec::new();
    let ghost mut wit: Seq<int> = Seq::empty();
    let ghost mut pos: Seq<int> = Seq::empty();
    let n = rows.len();
    let mut i: usize = 0;
    while i < n
        invariant
            i <= n,
            n == rows@.len(),
            wit.len() == out@.len(),
            names@.len() == out@.len(),
            pos.len() == i,
            forall|k: int|
                0 <= k < i ==> is_known_game_version_type_tag((#[trigger] rows@[k]).version_type@),
            forall|p: int| 0 <= p < out@.len() ==> (#[trigger] names@[p])@ == out@[p].0@,
            forall|p: int, q: int|
                0 <= p < q < out@.len() ==> (#[trigger] out@[p]).0@ != (#[trigger] out@[q]).0@,
            forall|p: int|
                0 <= p < out@.len() ==> 0 <= #[trigger] wit[p] < i && game_version_entry_matches(
                    out@[p],
                    rows@[wit[p]],
                ) && (forall|k2: int| wit[p] < k2 < i ==> rows@[k2].version@ != out@[p].0@),
            forall|k: int|
                0 <= k < i ==> 0 <= #[trigger] pos[k] < out@.len() && out@[pos[k]].0@
                    == rows@[k].version@,
        decreases n - i,
    {
        let row = &rows[i];
        let version_type = match GameVersionType::from_tag(row.version_type.as_str()) {
            Some(v) => v,
            None => {
                proof {
                    reveal_strlit("unknown game version type");
                }
                return Err(ModrinthError::Parse(String::from_str("unknown game version type")));
            },
        };
        let entry = (
            row.version.clone(),
            GameVersion { version_type, date: row.date, major: row.major },
        );
        let ghost ge = entry;
        let ghost key = rows@[i as int].version@;
        proof {
            assert(game_version_entry_matches(ge, rows@[i as int]));
            assert(ge.0@ == key);
        }
        match find_name(&names, row.version.as_str()) {
            Some(p) => {
                let ghost old_out = out@;
                let ghost old_wit = wit;
                out.remove(p);
                out.insert(p, entry);
                proof {
                    assert(out@ =~= old_out.update(p as int, ge));
                    wit = wit.update(p as int, i as int);
                    pos = pos.push(p as int);
                    assert(old_out[p as int].0@ == key);
                    assert forall|a: int, b: int|
                        0 <= a < b < out@.len() implies (#[trigger] out@[a]).0@ != (
                    #[trigger] out@[b]).0@ by {
                        assert(out@[a].0@ == old_out[a].0@);
                        assert(out@[b].0@ == old_out[b].0@);
                    }
                    assert forall|p2: int| 0 <= p2 < out@.len() implies 0 <= #[trigger] wit[p2] < i
                        + 1 && game_version_entry_matches(out@[p2], rows@[wit[p2]]) && (forall|k2: int|
                        wit[p2] < k2 < i + 1 ==> rows@[k2].version@ != out@[p2].0@) by {
                        if p2 == p as int {
                            assert(wit[p2] == i as int);
                            assert(out@[p2] == ge);
                        } else {
                            assert(out@[p2] == old_out[p2]);
                            assert(wit[p2] == old_wit[p2]);
                            assert(0 <= old_wit[p2] < i && game_version_entry_matches(
                                old_out[p2],
                                rows@[old_wit[p2]],
                            ) && (forall|k2: int|
                                old_wit[p2] < k2 < i ==> rows@[k2].version@ != old_out[p2].0@));
                            assert(old_out[p2].0@ != old_out[p as int].0@);
                            assert(rows@[i as int].version@ != out@[p2].0@);
                        }
                    }
                    assert forall|k: int|
                        0 <= k < i + 1 implies 0 <= #[trigger] pos[k] < out@.len() && out@[pos[k]].0@
                        == rows@[k].version@ by {
                        if k < i {
                            assert(out@[pos[k]].0@ == old_out[pos[k]].0@);
                        } else {
                            assert(pos[k] == p as int);
                        }
                    }
                }
            },
            None => {
                let ghost old_out = out@;
                let ghost old_names = names@;
                let ghost old_wit = wit;
                out.push(entry);
                names.push(row.version.clone());
                proof {
                    wit = wit.push(i as int);
                    pos = pos.push(old_out.len() as int);
                    assert(out@ =~= old_out.push(ge));
                    assert forall|q: int| 0 <= q < old_out.len() implies (#[trigger] old_out[q]).0@
                        != key by {
                        assert(old_names[q]@ == old_out[q].0@);
                    }
                    assert forall|a: int, b: int|
                        0 <= a < b < out@.len() implies (#[trigger] out@[a]).0@ != (
                    #[trigger] out@[b]).0@ by {
                        if b < old_out.len() as int {
                            assert(out@[a].0@ == old_out[a].0@);
                            assert(out@[b].0@ == old_out[b].0@);
                        } else {
                            assert(out@[b] == ge);
                            assert(out@[a].0@ == old_out[a].0@);
                        }
                    }
                    assert forall|p2: int| 0 <= p2 < out@.len() implies 0 <= #[trigger] wit[p2] < i
                        + 1 && game_version_entry_matches(out@[p2], rows@[wit[p2]]) && (forall|k2: int|
                        wit[p2] < k2 < i + 1 ==> rows@[k2].version@ != out@[p2].0@) by {
                        if p2 == old_out.len() as int {
                            assert(wit[p2] == i as int);
                            assert(out@[p2] == ge);
                        } else {
                            assert(out@[p2] == old_out[p2]);
                            assert(wit[p2] == old_wit[p2]);
                            assert(0 <= old_wit[p2] < i && game_version_entry_matches(
                                old_out[p2],
                                rows@[old_wit[p2]],
                            ) && (forall|k2: int|
                                old_wit[p2] < k2 < i ==> rows@[k2].version@ != old_out[p2].0@));
                            assert(rows@[i as int].version@ != out@[p2].0@);
                        }
                    }
                    assert forall|k: int|
                        0 <= k < i + 1 implies 0 <= #[trigger] pos[k] < out@.len() && out@[pos[k]].0@
                        == rows@[k].version@ by {
                        if k < i {
                            assert(out@[pos[k]].0@ == old_out[pos[k]].0@);
                        } else {
                            assert(pos[k] == old_out.len() as int);
                        }
                    }
                }
            },
        }
        i = i + 1;
    }
    proof {
        assert forall|p: int| 0 <= p < out@.len() implies game_version_entry_from_rows(
            out@[p],
            rows@,
        ) by {
            assert(0 <= wit[p] < rows@.len() && game_version_entry_matches(
                out@[p],
                rows@[wit[p]],
            ));
        }
        assert forall|k: int| 0 <= k < rows@.len() implies has_game_version_key(
            out@,
            (#[trigger] rows@[k]).version@,
        ) by {
            assert(0 <= pos[k] < out@.len() && out@[pos[k]].0@ == rows@[k].version@);
        }
    }
    Ok(out)
}

/// Build the request for the category listing endpoint.
pub fn categories_request<Auth: AuthState>(m: &Modrinth<Auth>, now: i64) -> (r: Result<
    RequestParts,
    ModrinthError,
>)
    ensures
        r is Ok <==> m.auth_ok_at(false, now as int),
        match r {
            Ok(parts) => parts_match(m, parts, "/tag/category"@) && parts.query is None,
            Err(e) => e is Unauthorized,
        },
{
    m.request_parts_at("/tag/category", None, false, now)
}

/// Build the request for the game version listing endpoint.
pub fn game_versions_request<Auth: AuthState>(m: &Modrinth<Auth>, now: i64) -> (r: Result<
    RequestParts,
    ModrinthError,
>)
    ensures
        r is Ok <==> m.auth_ok_at(false, now as int),
        match r {
            Ok(parts) => parts_match(m, parts, "/tag/game_version"@) && parts.query is None,
            Err(e) => e is Unauthorized,
        },
{
    m.request_parts_at("/tag/game_version", None, false, now)
}

/// Build the request for the project type listing endpoint.
pub fn project_types_request<Auth: AuthState>(m: &Modrinth<Auth>, now: i64) -> (r: Result<
    RequestParts,
    ModrinthError,
>)
    ensures
        r is Ok <==> m.auth_ok_at(false, now as int),
        match r {
            Ok(parts) => parts_match(m, parts, "/tag/project_type"@) && parts.query is None,
            Err(e) => e is Unauthorized,
        },
{
    m.request_parts_at("/tag/project_type", None, false, now)
}

/// Build the request for the project side listing endpoint.
pub fn side_types_request<Auth: AuthState>(m: &Modrinth<Auth>, now: i64) -> (r: Result<
    RequestParts,
    ModrinthError,
>)
    ensures
        r is Ok <==> m.auth_ok_at(false, now as int),
        match r {
            Ok(parts) => parts_match(m, parts, "/tag/side_type"@) && parts.query is None,
            Err(e) => e is Unauthorized,
        },
{
    m.request_parts_at("/tag/side_type", None, false, now)
}

/// Build the request for the report type listing endpoint.
pub fn report_types_request<Auth: AuthState>(m: &Modrinth<Auth>, now: i64) -> (r: Result<
    RequestParts,
    ModrinthError,
>)
    ensures
        r is Ok <==> m.auth_ok_at(false, now as int),
        match r {
            Ok(parts) => parts_match(m, parts, "/tag/report_type"@) && parts.query is None,
            Err(e) => e is Unauthorized,
        },
{
    m.request_parts_at("/tag/report_type", None, false, now)
}

} // verus!

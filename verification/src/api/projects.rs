//! Project-related enumerations.

use crate::helpers::str_eq;
use crate::ModrinthError;
use vstd::prelude::*;
use vstd::string::StringExecFns;

verus! {

/// Whether a project is needed on the client side, the server side, or both.
#[derive(Clone, Copy, Debug, PartialEq, Eq, Structural)]
pub enum ProjectSide {
    /// The project is required to function.
    Required,
    /// The project is not required, but may enhance the experience.
    Optional,
    /// The project is unsupported, meaning it is not recommended for use.
    Unsupported,
    /// It is unknown whether the project will work.
    Unknown,
}

/// The wire tag of a project side.
pub open spec fn project_side_tag(t: ProjectSide) -> Seq<char> {
    match t {
        ProjectSide::Required => "required"@,
        ProjectSide::Optional => "optional"@,
        ProjectSide::Unsupported => "unsupported"@,
        ProjectSide::Unknown => "unknown"@,
    }
}

/// Whether `s` is one of the known project side tags.
pub open spec fn is_known_project_side_tag(s: Seq<char>) -> bool {
    ||| s == "required"@
    ||| s == "optional"@
    ||| s == "unsupported"@
    ||| s == "unknown"@
}

impl ProjectSide {
    /// Parse a wire tag; this enumeration is closed, so an unknown tag is
    /// rejected.
    pub fn from_tag(s: &str) -> (r: Option<ProjectSide>)
        ensures
            r is Some <==> is_known_project_side_tag(s@),
            match r {
                Some(v) => project_side_tag(v) == s@,
                None => true,
            },
    {
        if str_eq(s, "required") {
            Some(ProjectSide::Required)
        } else if str_eq(s, "optional") {
            Some(ProjectSide::Optional)
        } else if str_eq(s, "unsupported") {
            Some(ProjectSide::Unsupported)
        } else if str_eq(s, "unknown") {
            Some(ProjectSide::Unknown)
        } else {
            None
        }
    }
}

/// Parse the raw project side listing.  The enumeration is closed, so one
/// unknown tag fails the whole call with [`ModrinthError::Parse`].
pub fn side_types_from_tags(raw: &Vec<String>) -> (r: Result<Vec<ProjectSide>, ModrinthError>)
    ensures
        r is Ok <==> (forall|i: int|
            0 <= i < raw@.len() ==> is_known_project_side_tag((#[trigger] raw@[i])@)),
        match r {
            Ok(out) => {
                &&& out@.len() == raw@.len()
                &&& forall|i: int|
                    0 <= i < raw@.len() ==> project_side_tag(#[trigger] out@[i]) == raw@[i]@
            },
            Err(e) => e is Parse,
        },
{
    let mut out: Vec<ProjectSide> = Vec::new();
    let n = raw.len();
    let mut i: usize = 0;
    while i < n
        invariant
            i <= n,
            n == raw@.len(),
            out@.len() == i,
            forall|k: int| 0 <= k < i ==> is_known_project_side_tag((#[trigger] raw@[k])@),
            forall|k: int| 0 <= k < i ==> project_side_tag(#[trigger] out@[k]) == raw@[k]@,
        decreases n - i,
    {
        match ProjectSide::from_tag(raw[i].as_str()) {
            Some(side) => {
                out.push(side);
            },
            None => {
                proof {
                    reveal_strlit("unknown project side");
                }
                return Err(ModrinthError::Parse(String::from_str("unknown project side")));
            },
        }
        i = i + 1;
    }
    Ok(out)
}

/// Types of projects that can be found on Modrinth.
#[derive(Clone, Debug, PartialEq, Eq)]
pub enum ProjectType {
    /// A mod is a modification to the game that adds new features,
    /// mechanics, or content.
    Mod,
    /// A modpack is a curated collection of mods that are designed to work
    /// together.
    ModPack,
    /// A resource pack is a collection of assets that change the game's
    /// visuals or sounds.
    ResourcePack,
    /// A shader is a special type of resource pack that enhances the
    /// game's graphics with advanced visual effects.
    Shader,
    /// A plugin is a server-side modification that adds new features or
    /// functionality to the game.
    Plugin,
    /// A data pack is a collection of data-driven content that modifies or
    /// adds to the game's mechanics.
    DataPack,
    /// A project type this library does not know, kept verbatim.
    Other(String),
}

/// The wire tag of a project type; an unknown tag is carried as itself.
pub open spec fn project_type_tag(t: ProjectType) -> Seq<char> {
    match t {
        ProjectType::Mod => "mod"@,
        ProjectType::ModPack => "modpack"@,
        ProjectType::ResourcePack => "resourcepack"@,
        ProjectType::Shader => "shader"@,
        ProjectType::Plugin => "plugin"@,
        ProjectType::DataPack => "datapack"@,
        ProjectType::Other(s) => s@,
    }
}

/// Whether `s` is one of the known project type tags.
pub open spec fn is_known_project_type_tag(s: Seq<char>) -> bool {
    ||| s == "mod"@
    ||| s == "modpack"@
    ||| s == "resourcepack"@
    ||| s == "shader"@
    ||| s == "plugin"@
    ||| s == "datapack"@
}

/// Whether a project type is the catch-all variant.
pub open spec fn is_other_project_type(t: ProjectType) -> bool {
    t is Other
}

impl ProjectType {
    /// Parse a wire tag.  Any string outside the known tag set falls into
    /// [`ProjectType::Other`] carrying the original string unchanged, so
    /// parsing never fails: the API may introduce new tags without
    /// breaking older clients.
    pub fn from_tag(s: &str) -> (r: ProjectType)
        ensures
            project_type_tag(r) == s@,
            is_other_project_type(r) <==> !is_known_project_type_tag(s@),
    {
        if str_eq(s, "mod") {
            ProjectType::Mod
        } else if str_eq(s, "modpack") {
            ProjectType::ModPack
        } else if str_eq(s, "resourcepack") {
            ProjectType::ResourcePack
        } else if str_eq(s, "shader") {
            ProjectType::Shader
        } else if str_eq(s, "plugin") {
            ProjectType::Plugin
        } else if str_eq(s, "datapack") {
            ProjectType::DataPack
        } else {
            ProjectType::Other(s.to_owned())
        }
    }
}

/// A list of project types, with the always-present `"project"`
/// pseudo-type filtered out.
#[derive(Clone, Debug, PartialEq, Eq)]
pub struct ProjectTypes(pub Vec<ProjectType>);

/// The raw tags that survive the filter: every tag but `"project"`.
pub open spec fn filtered_project_type_tags(tags: Seq<Seq<char>>) -> Seq<Seq<char>>
    decreases tags.len(),
{
    if tags.len() == 0 {
        Seq::empty()
    } else {
        let rest = filtered_project_type_tags(tags.drop_last());
        if tags.last() == "project"@ {
            rest
        } else {
            rest.push(tags.last())
        }
    }
}

/// Whether `pts` holds, in order, the parse of every raw tag in `raw` that
/// survives the `"project"` filter.
pub open spec fn project_types_match(pts: ProjectTypes, raw: Seq<Seq<char>>) -> bool {
    let ft = filtered_project_type_tags(raw);
    &&& pts.0@.len() == ft.len()
    &&& forall|k: int|
        0 <= k < ft.len() ==> project_type_tag(#[trigger] pts.0@[k]) == ft[k] && (
        is_other_project_type(pts.0@[k]) <==> !is_known_project_type_tag(ft[k]))
}

/// Parse a raw list of project type tags, dropping the `"project"`
/// pseudo-type the API always reports.
pub fn project_types_from_tags(raw: &Vec<String>) -> (r: ProjectTypes)
    ensures
        project_types_match(r, raw.deep_view()),
{
    let ghost dv: Seq<Seq<char>> = raw.deep_view();
    let mut out: Vec<ProjectType> = Vec::new();
    let n = raw.len();
    let mut i: usize = 0;
    proof {
        assert(filtered_project_type_tags(dv.take(0)) =~= Seq::<Seq<char>>::empty());
    }
    while i < n
        invariant
            i <= n,
            n == raw@.len(),
            dv == raw.deep_view(),
            dv.len() == n,
            forall|j: int| 0 <= j < n ==> dv[j] == raw@[j]@,
            project_types_match(ProjectTypes(out), dv.take(i as int)),
        decreases n - i,
    {
        proof {
            assert(dv.take(i + 1).drop_last() =~= dv.take(i as int));
            assert(dv.take(i + 1).last() == dv[i as int]);
        }
        if !str_eq(raw[i].as_str(), "project") {
            out.push(ProjectType::from_tag(raw[i].as_str()));
        }
        i = i + 1;
    }
    proof {
        assert(dv.take(n as int) =~= dv);
    }
    ProjectTypes(out)
}

} // verus!

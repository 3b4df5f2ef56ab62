//! Loaders: the mechanisms used to modify or extend Minecraft, and the
//! endpoint that lists them.

use crate::api::projects::{project_types_from_tags, project_types_match, ProjectTypes};
use crate::client::{parts_match, AuthState, Modrinth, RequestParts};
use crate::helpers::{find_name, str_eq};
use crate::ModrinthError;
use vstd::prelude::*;

verus! {

/// Represents the different types of mod loaders, plugin platforms,
/// proxies, and other mechanisms used to modify or extend Minecraft.
#[derive(Clone, Debug, PartialEq, Eq)]
pub enum Loader {
    /// Babric brings [`Loader::Fabric`] support to beta versions of
    /// Minecraft.
    Babric,
    /// Bukkit is a popular API and implementation for creating server-side
    /// plugins.
    Bukkit,
    /// Bungeecord is a proxy system that links multiple Minecraft servers
    /// together.
    Bungeecord,
    /// Canvas is a rendering engine mod that extends the Fabric rendering
    /// pipeline.
    Canvas,
    /// A data pack is a collection of data-driven content that modifies or
    /// adds to the game's mechanics.
    Datapack,
    /// Fabric is a lightweight, modular modding toolchain for Minecraft.
    Fabric,
    /// Folia is a high-performance fork of Paper with a regionized
    /// threading model.
    Folia,
    /// Forge is a widely-used Minecraft modding API that allows for deep
    /// modifications to the game.
    Forge,
    /// Iris is a mod that adds modern shader support and integrates with
    /// existing mods like Sodium.
    Iris,
    /// JavaAgent refers to mods or utilities that use Java instrumentation
    /// to modify the game at runtime.
    JavaAgent,
    /// Legacy Fabric brings Fabric-like modding support to older versions
    /// of Minecraft, including classic and alpha.
    LegacyFabric,
    /// LiteLoader is a lightweight modding platform for older versions of
    /// Minecraft.
    LiteLoader,
    /// Minecraft refers to the base game with no loaders or modifications.
    Minecraft,
    /// Modloader is one of the earliest Minecraft modding platforms,
    /// predating Forge.
    Modloader,
    /// Neoforge is a modern fork of Forge aiming for cleaner architecture
    /// and active development.
    Neoforge,
    /// Nilloader is a minimal mod loader designed for maximum
    /// compatibility and portability.
    Nilloader,
    /// Optifine is a standalone client-side mod that enhances performance
    /// and adds visual features.
    Optifine,
    /// Ornithe is a mod loader forked from Fabric, focused on expanding
    /// legacy support and experimentation.
    Ornithe,
    /// Paper is a high-performance Minecraft server built on top of Spigot
    /// with additional optimizations.
    Paper,
    /// Purpur is a fork of Paper that adds more configuration options and
    /// gameplay features.
    Purpur,
    /// Quilt is a community-driven fork of Fabric with additional
    /// modularity and loader features.
    Quilt,
    /// Rift is a lightweight modding API for Minecraft 1.13.
    Rift,
    /// Spigot is a performance-optimized fork of Bukkit used for running
    /// Minecraft servers with plugins.
    Spigot,
    /// Sponge is a modding and plugin platform designed to be compatible
    /// with Forge.
    Sponge,
    /// Vanilla refers to the unmodified Minecraft client or server.
    Vanilla,
    /// Velocity is a modern, high-performance Minecraft proxy for linking
    /// multiple servers.
    Velocity,
    /// Waterfall is a fork of Bungeecord that improves performance and bug
    /// fixes.
    Waterfall,
    /// A custom or unknown loader, represented by the original string.
    Other(String),
}

/// The wire tag of a loader (kebab-case); an unknown tag is carried as
/// itself.
pub open spec fn loader_tag(t: Loader) -> Seq<char> {
    match t {
        Loader::Babric => "babric"@,
        Loader::Bukkit => "bukkit"@,
        Loader::Bungeecord => "bungeecord"@,
        Loader::Canvas => "canvas"@,
        Loader::Datapack => "datapack"@,
        Loader::Fabric => "fabric"@,
        Loader::Folia => "folia"@,
        Loader::Forge => "forge"@,
        Loader::Iris => "iris"@,
        Loader::JavaAgent => "java-agent"@,
        Loader::LegacyFabric => "legacy-fabric"@,
        Loader::LiteLoader => "lite-loader"@,
        Loader::Minecraft => "minecraft"@,
        Loader::Modloader => "modloader"@,
        Loader::Neoforge => "neoforge"@,
        Loader::Nilloader => "nilloader"@,
        Loader::Optifine => "optifine"@,
        Loader::Ornithe => "ornithe"@,
        Loader::Paper => "paper"@,
        Loader::Purpur => "purpur"@,
        Loader::Quilt => "quilt"@,
        Loader::Rift => "rift"@,
        Loader::Spigot => "spigot"@,
        Loader::Sponge => "sponge"@,
        Loader::Vanilla => "vanilla"@,
        Loader::Velocity => "velocity"@,
        Loader::Waterfall => "waterfall"@,
        Loader::Other(s) => s@,
    }
}

/// Whether `s` is one of the known loader tags.
pub open spec fn is_known_loader_tag(s: Seq<char>) -> bool {
    ||| s == "babric"@
    ||| s == "bukkit"@
    ||| s == "bungeecord"@
    ||| s == "canvas"@
    ||| s == "datapack"@
    ||| s == "fabric"@
    ||| s == "folia"@
    ||| s == "forge"@
    ||| s == "iris"@
    ||| s == "java-agent"@
    ||| s == "legacy-fabric"@
    ||| s == "lite-loader"@
    ||| s == "minecraft"@
    ||| s == "modloader"@
    ||| s == "neoforge"@
    ||| s == "nilloader"@
    ||| s == "optifine"@
    ||| s == "ornithe"@
    ||| s == "paper"@
    ||| s == "purpur"@
    ||| s == "quilt"@
    ||| s == "rift"@
    ||| s == "spigot"@
    ||| s == "sponge"@
    ||| s == "vanilla"@
    ||| s == "velocity"@
    ||| s == "waterfall"@
}

/// Whether a loader is the catch-all variant.
pub open spec fn is_other_loader(t: Loader) -> bool {
    t is Other
}

impl Loader {
    /// Parse a wire tag.  Any string outside the known tag set falls into
    /// [`Loader::Other`] carrying the original string unchanged, so
    /// parsing never fails: the API may introduce new loaders without
    /// breaking older clients.
    pub fn from_tag(s: &str) -> (r: Loader)
        ensures
            loader_tag(r) == s@,
            is_other_loader(r) <==> !is_known_loader_tag(s@),
    {
        if str_eq(s, "babric") {
            Loader::Babric
        } else if str_eq(s, "bukkit") {
            Loader::Bukkit
        } else if str_eq(s, "bungeecord") {
            Loader::Bungeecord
        } else if str_eq(s, "canvas") {
            Loader::Canvas
        } else if str_eq(s, "datapack") {
            Loader::Datapack
        } else if str_eq(s, "fabric") {
            Loader::Fabric
        } else if str_eq(s, "folia") {
            Loader::Folia
        } else if str_eq(s, "forge") {
            Loader::Forge
        } else if str_eq(s, "iris") {
            Loader::Iris
        } else if str_eq(s, "java-agent") {
            Loader::JavaAgent
        } else if str_eq(s, "legacy-fabric") {
            Loader::LegacyFabric
        } else if str_eq(s, "lite-loader") {
            Loader::LiteLoader
        } else if str_eq(s, "minecraft") {
            Loader::Minecraft
        } else if str_eq(s, "modloader") {
            Loader::Modloader
        } else if str_eq(s, "neoforge") {
            Loader::Neoforge
        } else if str_eq(s, "nilloader") {
            Loader::Nilloader
        } else if str_eq(s, "optifine") {
            Loader::Optifine
        } else if str_eq(s, "ornithe") {
            Loader::Ornithe
        } else if str_eq(s, "paper") {
            Loader::Paper
        } else if str_eq(s, "purpur") {
            Loader::Purpur
        } else if str_eq(s, "quilt") {
            Loader::Quilt
        } else if str_eq(s, "rift") {
            Loader::Rift
        } else if str_eq(s, "spigot") {
            Loader::Spigot
        } else if str_eq(s, "sponge") {
            Loader::Sponge
        } else if str_eq(s, "vanilla") {
            Loader::Vanilla
        } else if str_eq(s, "velocity") {
            Loader::Velocity
        } else if str_eq(s, "waterfall") {
            Loader::Waterfall
        } else {
            Loader::Other(s.to_owned())
        }
    }
}

/// Information about a loader.
#[derive(Clone, Debug, PartialEq, Eq)]
pub struct LoaderInfo {
    /// The SVG icon of the loader.
    pub icon: String,
    /// The project types that this loader is applicable to.
    pub project_types: ProjectTypes,
}

/// One raw entry of the loader listing, as the API reports it.
pub struct LoaderRow {
    /// The raw loader tag: the key of the resulting mapping.
    pub name: String,
    /// The SVG icon of the loader.
    pub icon: String,
    /// The raw tags of the supported project types.
    pub supported_project_types: Vec<String>,
}

/// Whether one reshaped entry corresponds to one raw row of the loader
/// listing.
pub open spec fn loader_entry_matches(entry: (Loader, LoaderInfo), row: LoaderRow) -> bool {
    &&& loader_tag(entry.0) == row.name@
    &&& (is_other_loader(entry.0) <==> !is_known_loader_tag(row.name@))
    &&& entry.1.icon@ == row.icon@
    &&& project_types_match(entry.1.project_types, row.supported_project_types.deep_view())
}

/// Whether some entry of the mapping bears the loader tag `name`.
pub open spec fn has_loader_key(entries: Seq<(Loader, LoaderInfo)>, name: Seq<char>) -> bool {
    exists|p: int| 0 <= p < entries.len() && loader_tag((#[trigger] entries[p]).0) == name
}

/// Whether `entry` reads the last row in `rows` that bears its loader tag:
/// a later row overwrites an earlier one with the same tag, as map
/// insertion does.
pub open spec fn loader_entry_from_rows(entry: (Loader, LoaderInfo), rows: Seq<LoaderRow>) -> bool {
    exists|k: int|
        #![auto]
        0 <= k < rows.len() && loader_entry_matches(entry, rows[k]) && (forall|k2: int|
            k < k2 < rows.len() ==> rows[k2].name@ != loader_tag(entry.0))
}

/// Reshape the raw loader listing into a mapping from loader to loader
/// information: one entry per distinct loader tag, in order of first
/// appearance, each holding the last row reported under its tag.
pub fn loaders_from_rows(rows: &Vec<LoaderRow>) -> (r: Vec<(Loader, LoaderInfo)>)
    ensures
        forall|p: int, q: int|
            0 <= p < q < r@.len() ==> loader_tag((#[trigger] r@[p]).0) != loader_tag(
                (#[trigger] r@[q]).0,
            ),
        forall|p: int| 0 <= p < r@.len() ==> loader_entry_from_rows(#[trigger] r@[p], rows@),
        forall|k: int|
            0 <= k < rows@.len() ==> has_loader_key(r@, (#[trigger] rows@[k]).name@),
{
    let mut out: Vec<(Loader, LoaderInfo)> = Vec::new();
    let mut names: Vec<String> = Vec::new();
    let ghost mut wit: Seq<int> = Seq::empty();
    let ghost mut pos: Seq<int> = Seq::empty();
    let n = rows.len();
    let mut i: usize = 0;
    while i < n
        invariant
            i <= n,
            n == rows@.len(),
            wit.len() == out@.len(),
            names@.len() == out@.len(),
            pos.len() == i,
            forall|p: int| 0 <= p < out@.len() ==> (#[trigger] names@[p])@ == loader_tag(out@[p].0),
            forall|p: int, q: int|
                0 <= p < q < out@.len() ==> loader_tag((#[trigger] out@[p]).0) != loader_tag(
                    (#[trigger] out@[q]).0,
                ),
            forall|p: int|
                0 <= p < out@.len() ==> 0 <= #[trigger] wit[p] < i && loader_entry_matches(
                    out@[p],
                    rows@[wit[p]],
                ) && (forall|k2: int| wit[p] < k2 < i ==> rows@[k2].name@ != loader_tag(out@[p].0)),
            forall|k: int|
                0 <= k < i ==> 0 <= #[trigger] pos[k] < out@.len() && loader_tag(out@[pos[k]].0)
                    == rows@[k].name@,
        decreases n - i,
    {
        let row = &rows[i];
        let entry = (
            Loader::from_tag(row.name.as_str()),
            LoaderInfo {
                icon: row.icon.clone(),
                project_types: project_types_from_tags(&row.supported_project_types),
            },
        );
        let ghost ge = entry;
        let ghost key = rows@[i as int].name@;
        proof {
            assert(loader_entry_matches(ge, rows@[i as int]));
            assert(loader_tag(ge.0) == key);
        }
        match find_name(&names, row.name.as_str()) {
            Some(p) => {
                let ghost old_out = out@;
                let ghost old_wit = wit;
                out.remove(p);
                out.insert(p, entry);
                proof {
                    assert(out@ =~= old_out.update(p as int, ge));
                    wit = wit.update(p as int, i as int);
                    pos = pos.push(p as int);
                    assert(loader_tag(old_out[p as int].0) == key);
                    assert forall|a: int, b: int|
                        0 <= a < b < out@.len() implies loader_tag((#[trigger] out@[a]).0)
                        != loader_tag((#[trigger] out@[b]).0) by {
                        assert(loader_tag(out@[a].0) == loader_tag(old_out[a].0));
                        assert(loader_tag(out@[b].0) == loader_tag(old_out[b].0));
                    }
                    assert forall|p2: int| 0 <= p2 < out@.len() implies 0 <= #[trigger] wit[p2] < i
                        + 1 && loader_entry_matches(out@[p2], rows@[wit[p2]]) && (forall|k2: int|
                        wit[p2] < k2 < i + 1 ==> rows@[k2].name@ != loader_tag(out@[p2].0)) by {
                        if p2 == p as int {
                            assert(wit[p2] == i as int);
                            assert(out@[p2] == ge);
                        } else {
                            assert(out@[p2] == old_out[p2]);
                            assert(wit[p2] == old_wit[p2]);
                            assert(0 <= old_wit[p2] < i && loader_entry_matches(
                                old_out[p2],
                                rows@[old_wit[p2]],
                            ) && (forall|k2: int|
                                old_wit[p2] < k2 < i ==> rows@[k2].name@ != loader_tag(
                                    old_out[p2].0,
                                )));
                            assert(loader_tag(old_out[p2].0) != loader_tag(old_out[p as int].0));
                            assert(rows@[i as int].name@ != loader_tag(out@[p2].0));
                        }
                    }
                    assert forall|k: int|
                        0 <= k < i + 1 implies 0 <= #[trigger] pos[k] < out@.len() && loader_tag(
                        out@[pos[k]].0) == rows@[k].name@ by {
                        if k < i {
                            assert(loader_tag(out@[pos[k]].0) == loader_tag(old_out[pos[k]].0));
                        } else {
                            assert(pos[k] == p as int);
                        }
                    }
                }
            },
            None => {
                let ghost old_out = out@;
                let ghost old_names = names@;
                let ghost old_wit = wit;
                out.push(entry);
                names.push(row.name.clone());
                proof {
                    wit = wit.push(i as int);
                    pos = pos.push(old_out.len() as int);
                    assert(out@ =~= old_out.push(ge));
                    assert forall|q: int| 0 <= q < old_out.len() implies loader_tag(
                        (#[trigger] old_out[q]).0) != key by {
                        assert(old_names[q]@ == loader_tag(old_out[q].0));
                    }
                    assert forall|a: int, b: int|
                        0 <= a < b < out@.len() implies loader_tag((#[trigger] out@[a]).0)
                        != loader_tag((#[trigger] out@[b]).0) by {
                        if b < old_out.len() as int {
                            assert(loader_tag(out@[a].0) == loader_tag(old_out[a].0));
                            assert(loader_tag(out@[b].0) == loader_tag(old_out[b].0));
                        } else {
                            assert(out@[b] == ge);
                            assert(loader_tag(out@[a].0) == loader_tag(old_out[a].0));
                        }
                    }
                    assert forall|p2: int| 0 <= p2 < out@.len() implies 0 <= #[trigger] wit[p2] < i
                        + 1 && loader_entry_matches(out@[p2], rows@[wit[p2]]) && (forall|k2: int|
                        wit[p2] < k2 < i + 1 ==> rows@[k2].name@ != loader_tag(out@[p2].0)) by {
                        if p2 == old_out.len() as int {
                            assert(wit[p2] == i as int);
                            assert(out@[p2] == ge);
                        } else {
                            assert(out@[p2] == old_out[p2]);
                            assert(wit[p2] == old_wit[p2]);
                            assert(0 <= old_wit[p2] < i && loader_entry_matches(
                                old_out[p2],
                                rows@[old_wit[p2]],
                            ) && (forall|k2: int|
                                old_wit[p2] < k2 < i ==> rows@[k2].name@ != loader_tag(
                                    old_out[p2].0,
                                )));
                            assert(rows@[i as int].name@ != loader_tag(out@[p2].0));
                        }
                    }
                    assert forall|k: int|
                        0 <= k < i + 1 implies 0 <= #[trigger] pos[k] < out@.len() && loader_tag(
                        out@[pos[k]].0) == rows@[k].name@ by {
                        if k < i {
                            assert(loader_tag(out@[pos[k]].0) == loader_tag(old_out[pos[k]].0));
                        } else {
                            assert(pos[k] == old_out.len() as int);
                        }
                    }
                }
            },
        }
        i = i + 1;
    }
    proof {
        assert forall|p: int| 0 <= p < out@.len() implies loader_entry_from_rows(
            out@[p],
            rows@,
        ) by {
            assert(0 <= wit[p] < rows@.len() && loader_entry_matches(out@[p], rows@[wit[p]]));
        }
        assert forall|k: int| 0 <= k < rows@.len() implies has_loader_key(
            out@,
            (#[trigger] rows@[k]).name@,
        ) by {
            assert(0 <= pos[k] < out@.len() && loader_tag(out@[pos[k]].0) == rows@[k].name@);
        }
    }
    out
}

/// Build the request for the loader listing endpoint.
pub fn loaders_request<Auth: AuthState>(m: &Modrinth<Auth>, now: i64) -> (r: Result<
    RequestParts,
    ModrinthError,
>)
    ensures
        r is Ok <==> m.auth_ok_at(false, now as int),
        match r {
            Ok(parts) => parts_match(m, parts, "/tag/loader"@) && parts.query is None,
            Err(e) => e is Unauthorized,
        },
{
    m.request_parts_at("/tag/loader", None, false, now)
}

} // verus!

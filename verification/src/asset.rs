use vstd::prelude::*;

use crate::errors::CoreError;
use crate::paths::{file_name_of, file_name_spec};

verus! {

/// One file reference plus its activation flag. Mutated only by toggling
/// `enabled` and by rewriting `path` when the backing file is relocated.
#[derive(Debug)]
pub struct Asset {
    pub path: String,
    pub enabled: bool,
}

/// Which construction rules, extension filter and display strings apply
/// to an entity. The tag determines behavior, never data.
#[derive(Clone, Copy, Debug, PartialEq, Eq, Structural)]
pub enum EntityKind {
    /// A primary required data file.
    BaseData,
    /// An optional supplementary content file.
    AddOn,
}

/// A tagged wrapper around an `Asset`.
#[derive(Debug)]
pub struct Entity {
    pub kind: EntityKind,
    pub asset: Asset,
}

/// The views of a sequence of strings.
pub open spec fn views_of_strings(v: Seq<String>) -> Seq<Seq<char>> {
    v.map_values(|s: String| s@)
}

/// The literal extension filter each entity kind restricts its additions
/// to. Matched case-insensitively.
pub open spec fn allowed_exts(kind: EntityKind) -> Seq<Seq<char>> {
    match kind {
        EntityKind::BaseData => seq!["wad"@, "iwad"@],
        EntityKind::AddOn => seq!["wad"@, "pk3"@, "zip"@],
    }
}

/// Builds the extension filter of `kind`.
pub fn allowed_extensions(kind: EntityKind) -> (r: Vec<String>)
    ensures
        views_of_strings(r@) == allowed_exts(kind),
{
    let mut v: Vec<String> = Vec::new();
    match kind {
        EntityKind::BaseData => {
            v.push("wad".to_owned());
            v.push("iwad".to_owned());
        },
        EntityKind::AddOn => {
            v.push("wad".to_owned());
            v.push("pk3".to_owned());
            v.push("zip".to_owned());
        },
    }
    proof {
        assert(views_of_strings(v@) =~~= allowed_exts(kind));
    }
    v
}

/// Builds a new entity for `path` with `enabled = true`. Fails with
/// `InvalidPath` exactly when the path has no file-name component.
pub fn construct(kind: EntityKind, path: String) -> (r: Result<Entity, CoreError>)
    ensures
        match r {
            Ok(e) => {
                &&& file_name_spec(path@).len() > 0
                &&& e.kind == kind
                &&& e.asset.path == path
                &&& e.asset.enabled
            },
            Err(err) => {
                &&& err == CoreError::InvalidPath
                &&& file_name_spec(path@).len() == 0
            },
        },
{
    match file_name_of(path.as_str()) {
        Option::Some(_) => Ok(Entity { kind, asset: Asset { path, enabled: true } }),
        Option::None => Err(CoreError::InvalidPath),
    }
}

/// The file-name portion of the entity's path. Fails with `InvalidPath`
/// exactly when there is none.
pub fn display_name(e: &Entity) -> (r: Result<String, CoreError>)
    ensures
        match r {
            Ok(n) => n@ == file_name_spec(e.asset.path@) && n@.len() > 0,
            Err(err) => {
                &&& err == CoreError::InvalidPath
                &&& file_name_spec(e.asset.path@).len() == 0
            },
        },
{
    match file_name_of(e.asset.path.as_str()) {
        Option::Some(n) => Ok(n),
        Option::None => Err(CoreError::InvalidPath),
    }
}

/// Whether the entity is currently enabled.
pub fn is_enabled(e: &Entity) -> (r: bool)
    ensures
        r == e.asset.enabled,
{
    e.asset.enabled
}

/// The list label of an entity: its display name followed by its
/// enable-state in parentheses.
pub open spec fn label_spec(e: Entity) -> Seq<char> {
    file_name_spec(e.asset.path@) + (if e.asset.enabled {
        " (Enabled)"@
    } else {
        " (Disabled)"@
    })
}

/// Builds the list label of an entity whose path has a file name.
pub fn label_of(e: &Entity) -> (r: String)
    requires
        file_name_spec(e.asset.path@).len() > 0,
    ensures
        r@ == label_spec(*e),
{
    let mut out = match file_name_of(e.asset.path.as_str()) {
        Option::Some(n) => n,
        Option::None => {
            proof {
                assert(false);
            }
            String::new()
        },
    };
    if e.asset.enabled {
        out.append(" (Enabled)");
    } else {
        out.append(" (Disabled)");
    }
    out
}

} // verus!

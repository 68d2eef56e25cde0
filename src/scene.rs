use vstd::prelude::*;
use vstd::string::*;

verus! {

/// Opens the scene description, before any entry.
pub const SCENE_HEADER: &'static str = "#![enable(implicit_some)] Prefab ( entities: [";

/// Closes the scene description, after the last entry.
pub const SCENE_FOOTER: &'static str = " ], )";

/// The solid green material that terrain meshes are drawn with.
pub const TERRAIN_ALBEDO: &'static str = "Generate(Srgba(0, 1, 0, 1))";

/// The origin, where the terrain mesh is placed.
pub const ORIGIN: &'static str = "(0, 0, 0)";

/// The scene entry that places the mesh file at `path` with material `albedo` at
/// `translation`.
pub open spec fn entry_text(path: Seq<char>, albedo: Seq<char>, translation: Seq<char>) -> Seq<
    char,
> {
    "( data: ( graphics: ( mesh: Asset(File(\""@ + path + "\", (\"OBJ\", ()))), material: ( albedo: "@
        + albedo + ", ), ), transform: ( translation: "@ + translation + ", ), ), ),"@
}

/// Writes the scene entry for one mesh.
pub fn scene_entry(path: &str, albedo: &str, translation: &str) -> (r: String)
    ensures
        r@ == entry_text(path@, albedo@, translation@),
{
    let mut s = String::from_str("( data: ( graphics: ( mesh: Asset(File(\"");
    s.append(path);
    s.append("\", (\"OBJ\", ()))), material: ( albedo: ");
    s.append(albedo);
    s.append(", ), ), transform: ( translation: ");
    s.append(translation);
    s.append(", ), ), ),");
    s
}

} // verus!

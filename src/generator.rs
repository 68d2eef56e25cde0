use vstd::prelude::*;
use vstd::string::*;
use rand::rngs::StdRng;
use crate::error::GenError;
use crate::random::draw_usize;
use crate::scene::{entry_text, scene_entry, ORIGIN, SCENE_FOOTER, SCENE_HEADER, TERRAIN_ALBEDO};
use crate::mesh::{
    grid_triangle, grid_triangle_count, grid_triangles, grid_vertex, grid_vertex_count,
    grid_vertices, triangle_distinct, triangle_in_range, triangle_view,
};
use crate::terrain::Terrain;

verus! {

/// The decimal digit `d`, for `d < 10`.
pub open spec fn digit_char(d: nat) -> char {
    if d == 0 {
        '0'
    } else if d == 1 {
        '1'
    } else if d == 2 {
        '2'
    } else if d == 3 {
        '3'
    } else if d == 4 {
        '4'
    } else if d == 5 {
        '5'
    } else if d == 6 {
        '6'
    } else if d == 7 {
        '7'
    } else if d == 8 {
        '8'
    } else {
        '9'
    }
}

/// `n` written in decimal, without sign or leading zeros.
pub open spec fn decimal_text(n: nat) -> Seq<char>
    decreases n,
{
    if n < 10 {
        seq![digit_char(n)]
    } else {
        decimal_text(n / 10) + seq![digit_char(n % 10)]
    }
}

/// Relies on `ToString` for `usize`, which writes the number in decimal.
#[verifier::external_body]
fn decimal(n: usize) -> (r: String)
    ensures
        r@ == decimal_text(n as nat),
{
    n.to_string()
}

/// Path, below the asset directory, of the scene description numbered `num`.
pub open spec fn map_path_text(num: nat) -> Seq<char> {
    "prefabs/map-"@ + decimal_text(num) + ".ron"@
}

/// Path, below the asset directory, of the terrain mesh file numbered `num`.
pub open spec fn mesh_path_text(num: nat) -> Seq<char> {
    "models/terrain-"@ + decimal_text(num) + ".obj"@
}

/// The path of the terrain mesh file numbered `num`.
pub fn mesh_path_for(num: usize) -> (r: String)
    ensures
        r@ == mesh_path_text(num as nat),
{
    let s = String::from_str("models/terrain-");
    let d = decimal(num);
    let s = s.concat(d.as_str());
    s.concat(".obj")
}

/// A fresh terrain mesh path, numbered by a draw from `rng`.
pub fn draw_mesh_path(rng: &mut StdRng) -> (r: String)
    ensures
        exists|num: usize| r@ == mesh_path_text(num as nat),
{
    let num = draw_usize(rng);
    mesh_path_for(num)
}

/// Where a generator stands: synthesised, with at least one mesh entry, or
/// closed.
#[derive(Debug, Clone, Copy, PartialEq, Eq, Structural)]
pub enum Phase {
    Synthesized,
    Exported,
    Finished,
}

/// One terrain generation: its archetype, the layout of its mesh on the
/// archetype's grid, the scene description that it writes, and the meshes
/// entered there.
pub struct MapGenerator {
    map_type: Terrain,
    vertex_cells: Vec<(u32, u32)>,
    triangles: Vec<(u32, u32, u32)>,
    path: String,
    scene: String,
    meshes: Vec<String>,
    phase: Phase,
}

impl MapGenerator {
    pub closed spec fn spec_map_type(self) -> Terrain {
        self.map_type
    }

    pub closed spec fn spec_path(self) -> Seq<char> {
        self.path@
    }

    /// The grid cell `(col, row)` of each mesh vertex.
    pub closed spec fn spec_vertex_cells(self) -> Seq<(u32, u32)> {
        self.vertex_cells@
    }

    /// The mesh triangles, as vertex indices.
    pub closed spec fn spec_triangles(self) -> Seq<(u32, u32, u32)> {
        self.triangles@
    }

    /// The mesh lies on the archetype's `n × n` grid: `n²` vertices, one per
    /// cell row after row, and the `2·(n−1)²` triangles of its regular
    /// triangulation, each naming three different vertices below `n²`.
    pub open spec fn on_grid(self) -> bool {
        let n = self.spec_map_type().spec_cells();
        let cells = self.spec_vertex_cells();
        let tris = self.spec_triangles();
        &&& cells.len() == grid_vertex_count(n, n)
        &&& forall|k: int|
            0 <= k < cells.len() ==> (#[trigger] cells[k].0 as nat, cells[k].1 as nat)
                == grid_vertex(n, k as nat)
        &&& tris.len() == grid_triangle_count(n, n)
        &&& forall|k: int|
            0 <= k < tris.len() ==> triangle_view(#[trigger] tris[k]) == grid_triangle(
                n,
                k as nat,
            )
        &&& forall|k: int|
            0 <= k < tris.len() ==> triangle_in_range(
                triangle_view(#[trigger] tris[k]),
                grid_vertex_count(n, n),
            ) && triangle_distinct(triangle_view(tris[k]))
    }

    /// The scene description written so far.
    pub closed spec fn spec_scene(self) -> Seq<char> {
        self.scene@
    }

    /// Paths of the meshes entered in the scene, in order.
    pub closed spec fn spec_meshes(self) -> Seq<Seq<char>> {
        self.meshes@.map_values(|s: String| s@)
    }

    pub closed spec fn spec_phase(self) -> Phase {
        self.phase
    }

    /// A generator has entered a mesh exactly when it has left the synthesised
    /// phase, and its mesh lies on its archetype's grid.
    pub open spec fn wf(self) -> bool {
        &&& (self.spec_phase() == Phase::Synthesized) <==> (self.spec_meshes().len() == 0)
        &&& self.on_grid()
    }

    /// `next` is `self` with one more scene entry: the mesh at `path`, with
    /// material `albedo`, at `translation`.
    pub open spec fn entered(
        self,
        next: MapGenerator,
        path: Seq<char>,
        albedo: Seq<char>,
        translation: Seq<char>,
    ) -> bool {
        &&& next.spec_map_type() == self.spec_map_type()
        &&& next.spec_vertex_cells() == self.spec_vertex_cells()
        &&& next.spec_triangles() == self.spec_triangles()
        &&& next.spec_path() == self.spec_path()
        &&& next.spec_scene() == self.spec_scene() + entry_text(path, albedo, translation)
        &&& next.spec_meshes() == self.spec_meshes().push(path)
        &&& next.spec_phase() == Phase::Exported
    }

    /// A generator for a synthesised terrain of kind `map_type`, with its mesh laid
    /// out on the archetype's grid, whose scene description is numbered `num` and
    /// holds its header.
    pub fn with_number(map_type: Terrain, num: usize) -> (r: MapGenerator)
        ensures
            r.spec_map_type() == map_type,
            r.spec_path() == map_path_text(num as nat),
            r.spec_scene() == SCENE_HEADER@,
            r.spec_meshes().len() == 0,
            r.spec_phase() == Phase::Synthesized,
            r.on_grid(),
            r.wf(),
    {
        let path = String::from_str("prefabs/map-");
        let d = decimal(num);
        let path = path.concat(d.as_str());
        let path = path.concat(".ron");
        let n = map_type.cells();
        let vertex_cells = grid_vertices(n, n);
        let triangles = grid_triangles(n, n);
        let r = MapGenerator {
            map_type,
            vertex_cells,
            triangles,
            path,
            scene: String::from_str(SCENE_HEADER),
            meshes: Vec::new(),
            phase: Phase::Synthesized,
        };
        proof {
            assert(r.spec_meshes() =~= Seq::<Seq<char>>::empty());
        }
        r
    }

    /// A generator for a synthesised terrain of kind `map_type`, its scene
    /// description numbered by a draw from `rng`.
    pub fn new(map_type: Terrain, rng: &mut StdRng) -> (r: MapGenerator)
        ensures
            r.spec_map_type() == map_type,
            exists|num: usize| r.spec_path() == map_path_text(num as nat),
            r.spec_scene() == SCENE_HEADER@,
            r.spec_meshes().len() == 0,
            r.spec_phase() == Phase::Synthesized,
            r.on_grid(),
            r.wf(),
    {
        let num = draw_usize(rng);
        MapGenerator::with_number(map_type, num)
    }

    /// The grid cell `(col, row)` of each mesh vertex, row after row.
    pub fn vertex_cells(&self) -> (r: &Vec<(u32, u32)>)
        ensures
            r@ == self.spec_vertex_cells(),
    {
        &self.vertex_cells
    }

    /// The mesh triangles, as vertex indices.
    pub fn triangles(&self) -> (r: &Vec<(u32, u32, u32)>)
        ensures
            r@ == self.spec_triangles(),
    {
        &self.triangles
    }

    pub fn map_type(&self) -> (r: Terrain)
        ensures
            r == self.spec_map_type(),
    {
        self.map_type
    }

    /// Path of the scene description, below the asset directory.
    pub fn map_path(&self) -> (r: &str)
        ensures
            r@ == self.spec_path(),
    {
        self.path.as_str()
    }

    /// The scene description written so far.
    pub fn scene_text(&self) -> (r: &str)
        ensures
            r@ == self.spec_scene(),
    {
        self.scene.as_str()
    }

    pub fn phase(&self) -> (r: Phase)
        ensures
            r == self.spec_phase(),
    {
        self.phase
    }

    /// Number of meshes entered in the scene.
    pub fn mesh_count(&self) -> (r: usize)
        ensures
            r == self.spec_meshes().len(),
    {
        self.meshes.len()
    }

    /// Enters the mesh at `path` in the scene, with material `albedo`, at
    /// `translation`. Fails with `InvalidSequence`, and changes nothing, once the
    /// scene is finished.
    pub fn add_mesh(&mut self, path: &str, albedo: &str, translation: &str) -> (r: Result<
        (),
        GenError,
    >)
        requires
            old(self).wf(),
        ensures
            final(self).wf(),
            old(self).spec_phase() == Phase::Finished ==> r == Err::<(), GenError>(
                GenError::InvalidSequence,
            ) && *final(self) == *old(self),
            old(self).spec_phase() != Phase::Finished ==> r == Ok::<(), GenError>(())
                && old(self).entered(*final(self), path@, albedo@, translation@),
    {
        if self.phase == Phase::Finished {
            return Err(GenError::InvalidSequence);
        }
        let entry = scene_entry(path, albedo, translation);
        self.scene.append(entry.as_str());
        let ghost before = self.meshes@;
        self.meshes.push(String::from_str(path));
        self.phase = Phase::Exported;
        proof {
            assert(self.meshes@.map_values(|s: String| s@) =~= before.map_values(
                |s: String| s@,
            ).push(path@));
        }
        Ok(())
    }

    /// Enters the terrain mesh, written to `mesh_path`, in the scene: solid green,
    /// at the origin. A generator takes any number of meshes before it is
    /// finished, one entry each; afterwards this fails with `InvalidSequence`.
    pub fn build_terrain(&mut self, mesh_path: &str) -> (r: Result<(), GenError>)
        requires
            old(self).wf(),
        ensures
            final(self).wf(),
            old(self).spec_phase() == Phase::Finished ==> r == Err::<(), GenError>(
                GenError::InvalidSequence,
            ) && *final(self) == *old(self),
            old(self).spec_phase() != Phase::Finished ==> r == Ok::<(), GenError>(())
                && old(self).entered(*final(self), mesh_path@, TERRAIN_ALBEDO@, ORIGIN@),
    {
        self.add_mesh(mesh_path, TERRAIN_ALBEDO, ORIGIN)
    }

    /// Closes the scene description with its footer. Fails with
    /// `InvalidSequence`, and changes nothing, unless a mesh has been entered and
    /// the scene is not yet closed.
    pub fn finish(&mut self) -> (r: Result<(), GenError>)
        requires
            old(self).wf(),
        ensures
            final(self).wf(),
            old(self).spec_phase() != Phase::Exported ==> r == Err::<(), GenError>(
                GenError::InvalidSequence,
            ) && *final(self) == *old(self),
            old(self).spec_phase() == Phase::Exported ==> {
                &&& r == Ok::<(), GenError>(())
                &&& final(self).spec_map_type() == old(self).spec_map_type()
                &&& final(self).spec_vertex_cells() == old(self).spec_vertex_cells()
                &&& final(self).spec_triangles() == old(self).spec_triangles()
                &&& final(self).spec_path() == old(self).spec_path()
                &&& final(self).spec_scene() == old(self).spec_scene() + SCENE_FOOTER@
                &&& final(self).spec_meshes() == old(self).spec_meshes()
                &&& final(self).spec_phase() == Phase::Finished
            },
    {
        if self.phase != Phase::Exported {
            return Err(GenError::InvalidSequence);
        }
        self.scene.append(SCENE_FOOTER);
        self.phase = Phase::Finished;
        Ok(())
    }
}

/// Two terrain builds on one generator before it is finished both succeed and
/// leave two entries, one per mesh file, in the order of the calls.
pub proof fn lemma_two_builds(
    g0: MapGenerator,
    g1: MapGenerator,
    g2: MapGenerator,
    p1: Seq<char>,
    p2: Seq<char>,
)
    requires
        g0.spec_phase() == Phase::Synthesized,
        g0.entered(g1, p1, TERRAIN_ALBEDO@, ORIGIN@),
        g1.entered(g2, p2, TERRAIN_ALBEDO@, ORIGIN@),
    ensures
        g2.spec_meshes() == g0.spec_meshes() + seq![p1, p2],
        g2.spec_scene() == g0.spec_scene() + entry_text(p1, TERRAIN_ALBEDO@, ORIGIN@)
            + entry_text(p2, TERRAIN_ALBEDO@, ORIGIN@),
        g2.spec_phase() == Phase::Exported,
{
    assert(g2.spec_meshes() =~= g0.spec_meshes() + seq![p1, p2]);
    assert(g2.spec_scene() =~= g0.spec_scene() + entry_text(p1, TERRAIN_ALBEDO@, ORIGIN@)
        + entry_text(p2, TERRAIN_ALBEDO@, ORIGIN@));
}

} // verus!

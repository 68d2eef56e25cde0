use vstd::prelude::*;
use crate::error::GenError;
use crate::terrain::Terrain;

verus! {

/// Vertex `(col, row)` of a grid `cols` wide, numbered row after row.
pub open spec fn vertex_id(cols: nat, col: nat, row: nat) -> nat {
    row * cols + col
}

/// Triangle `k` of the regular triangulation of a grid `cols` wide: quad `k / 2`
/// (row-major over the `cols − 1` quads of each row) is split along its diagonal
/// into a lower-left triangle (even `k`) and an upper-right one (odd `k`).
pub open spec fn grid_triangle(cols: nat, k: nat) -> (nat, nat, nat) {
    let q = k / 2;
    let row = q / (cols - 1) as nat;
    let col = q % (cols - 1) as nat;
    if k % 2 == 0 {
        (
            vertex_id(cols, col, row + 1),
            vertex_id(cols, col, row),
            vertex_id(cols, col + 1, row + 1),
        )
    } else {
        (
            vertex_id(cols, col, row),
            vertex_id(cols, col + 1, row),
            vertex_id(cols, col + 1, row + 1),
        )
    }
}

/// Number of triangles of a `cols × rows` grid: two per quad.
pub open spec fn grid_triangle_count(cols: nat, rows: nat) -> nat {
    2 * ((cols - 1) as nat * (rows - 1) as nat)
}

pub open spec fn triangle_view(t: (u32, u32, u32)) -> (nat, nat, nat) {
    (t.0 as nat, t.1 as nat, t.2 as nat)
}

/// All three corners of `t` name one of `n` vertices.
pub open spec fn triangle_in_range(t: (nat, nat, nat), n: nat) -> bool {
    t.0 < n && t.1 < n && t.2 < n
}

/// The three corners of `t` are three different vertices.
pub open spec fn triangle_distinct(t: (nat, nat, nat)) -> bool {
    t.0 != t.1 && t.1 != t.2 && t.0 != t.2
}

/// Number of vertices of a `cols × rows` grid: one per cell.
pub open spec fn grid_vertex_count(cols: nat, rows: nat) -> nat {
    cols * rows
}

/// The cell `(col, row)` that vertex `k` of a grid `cols` wide stands on.
pub open spec fn grid_vertex(cols: nat, k: nat) -> (nat, nat) {
    (k % cols, k / cols)
}

proof fn lemma_grid_triangle_in_range(cols: nat, rows: nat, k: nat)
    requires
        cols >= 2,
        rows >= 2,
        k < grid_triangle_count(cols, rows),
    ensures
        triangle_in_range(grid_triangle(cols, k), cols * rows),
        triangle_distinct(grid_triangle(cols, k)),
{
    let w = (cols - 1) as nat;
    let h = (rows - 1) as nat;
    let q = k / 2;
    assert(q < w * h);
    let row = q / w;
    let col = q % w;
    assert(row < h) by {
        assert(q / w < h) by (nonlinear_arith)
            requires
                q < w * h,
                w > 0,
        ;
    }
    assert(col < w);
    assert((row + 1) * cols + col + 1 <= cols * rows - 1) by (nonlinear_arith)
        requires
            row + 1 <= h,
            col + 1 <= w,
            w == cols - 1,
            h == rows - 1,
    ;
    assert(row * cols <= (row + 1) * cols) by (nonlinear_arith);
    assert((row + 1) * cols == row * cols + cols) by (nonlinear_arith);
}

/// The cells `(col, row)` of a `cols × rows` grid, one per vertex of its mesh,
/// row after row.
pub fn grid_vertices(cols: u32, rows: u32) -> (r: Vec<(u32, u32)>)
    requires
        cols >= 1,
        cols * rows <= u32::MAX,
    ensures
        r@.len() == grid_vertex_count(cols as nat, rows as nat),
        forall|k: int|
            0 <= k < r@.len() ==> (#[trigger] r@[k].0 as nat, r@[k].1 as nat) == grid_vertex(
                cols as nat,
                k as nat,
            ),
{
    let mut out: Vec<(u32, u32)> = Vec::new();
    let mut row: u32 = 0;
    while row < rows
        invariant
            cols >= 1,
            cols * rows <= u32::MAX,
            row <= rows,
            out@.len() == row * cols,
            forall|k: int|
                0 <= k < out@.len() ==> (#[trigger] out@[k].0 as nat, out@[k].1 as nat)
                    == grid_vertex(cols as nat, k as nat),
        decreases rows - row,
    {
        let mut col: u32 = 0;
        while col < cols
            invariant
                cols >= 1,
                cols * rows <= u32::MAX,
                row < rows,
                col <= cols,
                out@.len() == row * cols + col,
                forall|k: int|
                    0 <= k < out@.len() ==> (#[trigger] out@[k].0 as nat, out@[k].1 as nat)
                        == grid_vertex(cols as nat, k as nat),
            decreases cols - col,
        {
            let ghost k = out@.len();
            proof {
                assert(k % (cols as nat) == col && k / (cols as nat) == row) by (nonlinear_arith)
                    requires
                        k == row * cols + col,
                        col < cols,
                ;
            }
            out.push((col, row));
            col = col + 1;
        }
        row = row + 1;
        proof {
            assert(out@.len() == row * cols) by (nonlinear_arith)
                requires
                    out@.len() == (row - 1) * cols + cols,
            ;
        }
    }
    proof {
        assert(out@.len() == grid_vertex_count(cols as nat, rows as nat)) by (nonlinear_arith)
            requires
                out@.len() == row * cols,
                row == rows,
        ;
    }
    out
}

/// The triangles of the regular triangulation of a `cols × rows` grid of vertices,
/// two per quad, quads in row-major order; none when the grid is one cell wide or
/// high.
pub fn grid_triangles(cols: u32, rows: u32) -> (r: Vec<(u32, u32, u32)>)
    requires
        cols >= 1,
        rows >= 1,
        cols * rows <= u32::MAX,
    ensures
        r@.len() == grid_triangle_count(cols as nat, rows as nat),
        forall|k: int|
            0 <= k < r@.len() ==> triangle_view(#[trigger] r@[k]) == grid_triangle(
                cols as nat,
                k as nat,
            ),
        forall|k: int|
            0 <= k < r@.len() ==> triangle_in_range(
                triangle_view(#[trigger] r@[k]),
                cols as nat * rows as nat,
            ),
        forall|k: int| 0 <= k < r@.len() ==> triangle_distinct(triangle_view(#[trigger] r@[k])),
{
    let ghost w = (cols - 1) as nat;
    let ghost h = (rows - 1) as nat;
    let mut out: Vec<(u32, u32, u32)> = Vec::new();
    let mut row: u32 = 0;
    while row < rows - 1
        invariant
            cols >= 1,
            rows >= 1,
            cols * rows <= u32::MAX,
            w == cols - 1,
            h == rows - 1,
            row <= h,
            out@.len() == 2 * (row * w),
            forall|k: int|
                0 <= k < out@.len() ==> triangle_view(#[trigger] out@[k]) == grid_triangle(
                    cols as nat,
                    k as nat,
                ),
        decreases h - row,
    {
        let mut col: u32 = 0;
        while col < cols - 1
            invariant
                cols >= 1,
                rows >= 1,
                cols * rows <= u32::MAX,
                w == cols - 1,
                h == rows - 1,
                row < h,
                col <= w,
                out@.len() == 2 * (row * w + col),
                forall|k: int|
                    0 <= k < out@.len() ==> triangle_view(#[trigger] out@[k]) == grid_triangle(
                        cols as nat,
                        k as nat,
                    ),
            decreases w - col,
        {
            proof {
                assert((row as nat + 1) * cols as nat + col as nat + 1 <= cols as nat * rows as nat - 1)
                    by (nonlinear_arith)
                    requires
                        row < h,
                        col < w,
                        w == cols - 1,
                        h == rows - 1,
                ;
                assert(row as nat * cols as nat <= (row as nat + 1) * cols as nat) by (nonlinear_arith);
            }
            let top = row * cols + col;
            let bottom = (row + 1) * cols + col;
            let ghost q = (row * w + col) as nat;
            let ghost k0 = out@.len();
            proof {
                assert(q / w == row && q % w == col) by (nonlinear_arith)
                    requires
                        q == row * w + col,
                        col < w,
                ;
                assert(k0 / 2 == q && k0 % 2 == 0);
                assert((k0 + 1) / 2 == q && (k0 + 1) % 2 == 1);
                assert(vertex_id(cols as nat, col as nat, row as nat) == top);
                assert(vertex_id(cols as nat, col as nat, row as nat + 1) == bottom) by (nonlinear_arith)
                    requires
                        bottom == (row + 1) * cols + col,
                ;
            }
            out.push((bottom, top, bottom + 1));
            out.push((top, top + 1, bottom + 1));
            col = col + 1;
            proof {
                assert(2 * (row * w + col) == out@.len()) by (nonlinear_arith)
                    requires
                        out@.len() == k0 + 2,
                        k0 == 2 * (row * w + (col - 1)),
                ;
            }
        }
        row = row + 1;
        proof {
            assert(out@.len() == 2 * (row * w)) by (nonlinear_arith)
                requires
                    out@.len() == 2 * ((row - 1) * w + w),
            ;
        }
    }
    proof {
        assert(out@.len() == grid_triangle_count(cols as nat, rows as nat)) by (nonlinear_arith)
            requires
                out@.len() == 2 * (row * w),
                row == h,
                w == cols - 1,
                h == rows - 1,
        ;
        assert forall|k: int| 0 <= k < out@.len() implies triangle_in_range(
            triangle_view(#[trigger] out@[k]),
            cols as nat * rows as nat,
        ) && triangle_distinct(triangle_view(out@[k])) by {
            assert(w > 0 && h > 0) by (nonlinear_arith)
                requires
                    0 <= k < 2 * (w * h),
            ;
            lemma_grid_triangle_in_range(cols as nat, rows as nat, k as nat);
        }
    }
    out
}

/// Face corner of a mesh file: indices of a position, a texture coordinate and a
/// normal.
#[derive(Debug, Clone, Copy, PartialEq, Eq, Structural)]
pub struct FaceCorner {
    pub position: usize,
    pub texture: usize,
    pub normal: usize,
}

/// A triangle of a mesh file, as three face corners.
pub type Face = (FaceCorner, FaceCorner, FaceCorner);

/// The corner that names vertex `v` in all three slots: position, texture
/// coordinate and normal are kept in lockstep.
pub open spec fn lockstep_corner(c: FaceCorner, v: nat) -> bool {
    c.position == v && c.texture == v && c.normal == v
}

/// `f` is the face of mesh triangle `t`.
pub open spec fn face_of_triangle(f: Face, t: (nat, nat, nat)) -> bool {
    lockstep_corner(f.0, t.0) && lockstep_corner(f.1, t.1) && lockstep_corner(f.2, t.2)
}

/// Texture coordinates and normals are present, one per position.
pub open spec fn attributes_present(
    n_positions: usize,
    n_uvs: Option<usize>,
    n_normals: Option<usize>,
) -> bool {
    n_uvs == Some(n_positions) && n_normals == Some(n_positions)
}

/// Every triangle of `tris` names only vertices below `n`.
pub open spec fn triangles_in_range(tris: Seq<(u32, u32, u32)>, n: nat) -> bool {
    forall|k: int| 0 <= k < tris.len() ==> triangle_in_range(triangle_view(#[trigger] tris[k]), n)
}

/// The faces that a mesh file lists for a triangle mesh with `n_positions`
/// positions, `n_uvs` texture coordinates and `n_normals` normals (`None`: absent).
/// Fails with `MissingAttribute` when texture coordinates or normals are absent or
/// not one per position, and with `OutOfBounds` when a triangle names a vertex that
/// does not exist.
pub fn export_faces(
    n_positions: usize,
    n_uvs: Option<usize>,
    n_normals: Option<usize>,
    triangles: &Vec<(u32, u32, u32)>,
) -> (r: Result<Vec<Face>, GenError>)
    ensures
        !attributes_present(n_positions, n_uvs, n_normals) ==> r == Err::<Vec<Face>, GenError>(
            GenError::MissingAttribute,
        ),
        attributes_present(n_positions, n_uvs, n_normals) && !triangles_in_range(
            triangles@,
            n_positions as nat,
        ) ==> r == Err::<Vec<Face>, GenError>(GenError::OutOfBounds),
        attributes_present(n_positions, n_uvs, n_normals) && triangles_in_range(
            triangles@,
            n_positions as nat,
        ) ==> r is Ok,
        r matches Ok(faces) ==> {
            &&& faces@.len() == triangles@.len()
            &&& forall|k: int|
                0 <= k < faces@.len() ==> face_of_triangle(
                    #[trigger] faces@[k],
                    triangle_view(triangles@[k]),
                )
        },
{
    match (n_uvs, n_normals) {
        (Some(u), Some(v)) => {
            if u != n_positions || v != n_positions {
                return Err(GenError::MissingAttribute);
            }
        },
        _ => {
            return Err(GenError::MissingAttribute);
        },
    }
    let mut faces: Vec<Face> = Vec::new();
    let mut k: usize = 0;
    while k < triangles.len()
        invariant
            attributes_present(n_positions, n_uvs, n_normals),
            k <= triangles@.len(),
            faces@.len() == k,
            forall|j: int| 0 <= j < k ==> triangle_in_range(
                triangle_view(#[trigger] triangles@[j]),
                n_positions as nat,
            ),
            forall|j: int|
                0 <= j < k ==> face_of_triangle(
                    #[trigger] faces@[j],
                    triangle_view(triangles@[j]),
                ),
        decreases triangles@.len() - k,
    {
        let (a, b, c) = triangles[k];
        if a as usize >= n_positions || b as usize >= n_positions || c as usize >= n_positions {
            return Err(GenError::OutOfBounds);
        }
        let fa = FaceCorner { position: a as usize, texture: a as usize, normal: a as usize };
        let fb = FaceCorner { position: b as usize, texture: b as usize, normal: b as usize };
        let fc = FaceCorner { position: c as usize, texture: c as usize, normal: c as usize };
        faces.push((fa, fb, fc));
        k = k + 1;
    }
    Ok(faces)
}

/// A point with its coordinates moved one place to the left: `(x, y, z)`
/// becomes `(y, z, x)`.
pub open spec fn remapped<T>(p: (T, T, T)) -> (T, T, T) {
    (p.1, p.2, p.0)
}

/// Turns a point of the height field, whose third coordinate is the elevation,
/// into the renderer's frame, whose second coordinate points up.
pub fn remap_axes<T: Copy>(p: (T, T, T)) -> (r: (T, T, T))
    ensures
        r == remapped(p),
{
    (p.1, p.2, p.0)
}

/// The axis remap is a rotation of the coordinates: three of them give the point
/// back.
pub proof fn lemma_remap_three_times<T>(p: (T, T, T))
    ensures
        remapped(remapped(remapped(p))) == p,
{
}

/// A square grid of `n × n` cells, `n ≥ 2`, has `n²` vertices and `2·(n−1)²`
/// triangles, and each triangle names three different vertices below `n²`.
pub proof fn lemma_square_grid_mesh(n: nat)
    requires
        n >= 2,
    ensures
        grid_vertex_count(n, n) == n * n,
        grid_triangle_count(n, n) == 2 * ((n - 1) * (n - 1)),
        forall|k: nat|
            k < grid_triangle_count(n, n) ==> triangle_in_range(
                #[trigger] grid_triangle(n, k),
                grid_vertex_count(n, n),
            ) && triangle_distinct(grid_triangle(n, k)),
{
    assert forall|k: nat| k < grid_triangle_count(n, n) implies triangle_in_range(
        #[trigger] grid_triangle(n, k),
        grid_vertex_count(n, n),
    ) && triangle_distinct(grid_triangle(n, k)) by {
        lemma_grid_triangle_in_range(n, n, k);
    }
}

/// The mesh of every archetype's grid, `n × n` cells with `n` its side length,
/// has `n²` vertices and `2·(n−1)²` triangles, each naming three different
/// vertices below `n²`.
pub proof fn lemma_archetype_mesh(t: Terrain)
    ensures
        ({
            let n = t.spec_cells();
            &&& grid_vertex_count(n, n) == n * n
            &&& grid_triangle_count(n, n) == 2 * ((n - 1) * (n - 1))
            &&& forall|k: nat|
                k < grid_triangle_count(n, n) ==> triangle_in_range(
                    #[trigger] grid_triangle(n, k),
                    grid_vertex_count(n, n),
                ) && triangle_distinct(grid_triangle(n, k))
        }),
{
    lemma_square_grid_mesh(t.spec_cells());
}

} // verus!

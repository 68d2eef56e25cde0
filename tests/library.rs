use rand::rngs::StdRng;
use rand::SeedableRng;
use raiders::error::GenError;
use raiders::generator::{draw_mesh_path, mesh_path_for, MapGenerator, Phase};
use raiders::grid::GridShape;
use raiders::mesh::{export_faces, grid_triangles, grid_vertices, remap_axes, FaceCorner};
use raiders::scene::{scene_entry, ORIGIN, SCENE_FOOTER, SCENE_HEADER, TERRAIN_ALBEDO};
use raiders::terrain::{corner_cells, Terrain};

#[test]
fn draws_select_archetypes() {
    assert_eq!(Terrain::from_draw(0), Terrain::Mountains);
    assert_eq!(Terrain::from_draw(1), Terrain::Foothills);
    assert_eq!(Terrain::from_draw(2), Terrain::Coast);
    assert_eq!(Terrain::from_draw(3), Terrain::Fault);
    assert_eq!(Terrain::from_draw(17), Terrain::Fault);
}

#[test]
fn archetype_grid_sizes() {
    assert_eq!(Terrain::Mountains.cells(), 33);
    assert_eq!(Terrain::Foothills.cells(), 65);
    assert_eq!(Terrain::Coast.cells(), 256);
    assert_eq!(Terrain::Fault.cells(), 65);
}

#[test]
fn sampling_covers_all_archetypes() {
    let mut rng = StdRng::seed_from_u64(7);
    let mut seen = [false; 4];
    for _ in 0..400 {
        let t = Terrain::sample(&mut rng);
        let k = match t {
            Terrain::Mountains => 0,
            Terrain::Foothills => 1,
            Terrain::Coast => 2,
            Terrain::Fault => 3,
        };
        seen[k] = true;
    }
    assert_eq!(seen, [true; 4]);
}

#[test]
fn same_seed_same_draws() {
    let mut a = StdRng::seed_from_u64(42);
    let mut b = StdRng::seed_from_u64(42);
    for _ in 0..20 {
        assert_eq!(Terrain::sample(&mut a), Terrain::sample(&mut b));
    }
    assert_eq!(draw_mesh_path(&mut a), draw_mesh_path(&mut b));
    let ga = MapGenerator::new(Terrain::Foothills, &mut a);
    let gb = MapGenerator::new(Terrain::Foothills, &mut b);
    assert_eq!(ga.map_path(), gb.map_path());
}

#[test]
fn corners_of_foothills_grid() {
    assert_eq!(corner_cells(65), vec![(0, 0), (0, 64), (64, 0), (64, 64)]);
    assert_eq!(corner_cells(1), vec![(0, 0), (0, 0), (0, 0), (0, 0)]);
}

#[test]
fn flat_grid_rejects_zero_counts() {
    assert_eq!(GridShape::new_flat(0, 5).err(), Some(GenError::InvalidDimensions));
    assert_eq!(GridShape::new_flat(5, 0).err(), Some(GenError::InvalidDimensions));
    let g = GridShape::new_flat(4, 3).ok().unwrap();
    assert_eq!((g.cols(), g.rows(), g.len()), (4, 3, 12));
}

#[test]
fn grid_index_is_bounds_checked() {
    let g = GridShape::new_flat(4, 3).ok().unwrap();
    assert_eq!(g.index(0, 0), Ok(0));
    assert_eq!(g.index(3, 0), Ok(3));
    assert_eq!(g.index(1, 2), Ok(9));
    assert_eq!(g.index(3, 2), Ok(11));
    assert_eq!(g.index(4, 0), Err(GenError::OutOfBounds));
    assert_eq!(g.index(0, 3), Err(GenError::OutOfBounds));
}

#[test]
fn smallest_grid_triangulation() {
    let t = grid_triangles(2, 2);
    assert_eq!(t, vec![(2, 0, 3), (0, 1, 3)]);
}

#[test]
fn three_by_two_grid_triangulation() {
    let t = grid_triangles(3, 2);
    assert_eq!(t, vec![(3, 0, 4), (0, 1, 4), (4, 1, 5), (1, 2, 5)]);
}

#[test]
fn square_grid_triangle_counts() {
    for n in 2u32..20 {
        let t = grid_triangles(n, n);
        assert_eq!(t.len() as u32, 2 * (n - 1) * (n - 1));
        for &(a, b, c) in &t {
            assert!(a < n * n && b < n * n && c < n * n);
        }
    }
}

#[test]
fn foothills_mesh_counts() {
    let n = Terrain::Foothills.cells();
    let shape = GridShape::new_flat(n as usize, n as usize).ok().unwrap();
    assert_eq!(shape.len(), 4225);
    let t = grid_triangles(n, n);
    assert_eq!(t.len(), 8192);
    let faces = export_faces(4225, Some(4225), Some(4225), &t).ok().unwrap();
    assert_eq!(faces.len(), 8192);
}

#[test]
fn faces_keep_indices_in_lockstep() {
    let t = grid_triangles(2, 2);
    let faces = export_faces(4, Some(4), Some(4), &t).ok().unwrap();
    let c = |v: usize| FaceCorner { position: v, texture: v, normal: v };
    assert_eq!(faces, vec![(c(2), c(0), c(3)), (c(0), c(1), c(3))]);
}

#[test]
fn faces_need_attributes() {
    let t = grid_triangles(2, 2);
    assert_eq!(export_faces(4, None, Some(4), &t).err(), Some(GenError::MissingAttribute));
    assert_eq!(export_faces(4, Some(4), None, &t).err(), Some(GenError::MissingAttribute));
    assert_eq!(export_faces(4, Some(3), Some(4), &t).err(), Some(GenError::MissingAttribute));
}

#[test]
fn faces_reject_foreign_vertices() {
    let t = vec![(0, 1, 2), (1, 2, 4)];
    assert_eq!(export_faces(4, Some(4), Some(4), &t).err(), Some(GenError::OutOfBounds));
    assert_eq!(export_faces(5, Some(5), Some(5), &t).ok().map(|f| f.len()), Some(2));
}

#[test]
fn empty_triangle_list_exports_no_faces() {
    let t: Vec<(u32, u32, u32)> = Vec::new();
    assert_eq!(export_faces(0, Some(0), Some(0), &t).ok(), Some(vec![]));
}

#[test]
fn remap_moves_height_to_second_axis() {
    assert_eq!(remap_axes((1.0f32, 2.0f32, 3.0f32)), (2.0, 3.0, 1.0));
    let p = (0.5f32, -7.25f32, 9.0f32);
    assert_eq!(remap_axes(remap_axes(remap_axes(p))), p);
    assert_ne!(remap_axes(p), p);
}

#[test]
fn scene_entry_text() {
    let e = scene_entry("models/terrain-5.obj", TERRAIN_ALBEDO, ORIGIN);
    assert_eq!(
        e,
        "( data: ( graphics: ( mesh: Asset(File(\"models/terrain-5.obj\", (\"OBJ\", ()))), \
         material: ( albedo: Generate(Srgba(0, 1, 0, 1)), ), ), \
         transform: ( translation: (0, 0, 0), ), ), ),"
    );
}

#[test]
fn paths_are_numbered() {
    assert_eq!(mesh_path_for(0), "models/terrain-0.obj");
    assert_eq!(mesh_path_for(1234567), "models/terrain-1234567.obj");
    let g = MapGenerator::with_number(Terrain::Coast, 42);
    assert_eq!(g.map_path(), "prefabs/map-42.ron");
    assert_eq!(g.map_type(), Terrain::Coast);
    assert_eq!(g.scene_text(), SCENE_HEADER);
    assert_eq!(g.phase(), Phase::Synthesized);
}

#[test]
fn generator_full_sequence() {
    let mut g = MapGenerator::with_number(Terrain::Foothills, 7);
    let p = mesh_path_for(9);
    assert_eq!(g.build_terrain(&p), Ok(()));
    assert_eq!(g.phase(), Phase::Exported);
    assert_eq!(g.finish(), Ok(()));
    assert_eq!(g.phase(), Phase::Finished);
    let expected = format!(
        "{}{}{}",
        SCENE_HEADER,
        scene_entry("models/terrain-9.obj", TERRAIN_ALBEDO, ORIGIN),
        SCENE_FOOTER
    );
    assert_eq!(g.scene_text(), expected);
    assert_eq!(g.mesh_count(), 1);
}

#[test]
fn two_builds_give_two_entries() {
    let mut g = MapGenerator::with_number(Terrain::Fault, 1);
    assert_eq!(g.build_terrain("models/terrain-1.obj"), Ok(()));
    assert_eq!(g.build_terrain("models/terrain-2.obj"), Ok(()));
    assert_eq!(g.mesh_count(), 2);
    let expected = format!(
        "{}{}{}",
        SCENE_HEADER,
        scene_entry("models/terrain-1.obj", TERRAIN_ALBEDO, ORIGIN),
        scene_entry("models/terrain-2.obj", TERRAIN_ALBEDO, ORIGIN)
    );
    assert_eq!(g.scene_text(), expected);
}

#[test]
fn finish_before_build_is_rejected() {
    let mut g = MapGenerator::with_number(Terrain::Mountains, 3);
    assert_eq!(g.finish(), Err(GenError::InvalidSequence));
    assert_eq!(g.scene_text(), SCENE_HEADER);
    assert_eq!(g.phase(), Phase::Synthesized);
}

#[test]
fn finished_generator_takes_nothing_more() {
    let mut g = MapGenerator::with_number(Terrain::Mountains, 3);
    assert_eq!(g.add_mesh("a.obj", "Generate(Srgba(1, 0, 0, 1))", "(1, 2, 3)"), Ok(()));
    assert_eq!(g.finish(), Ok(()));
    let text = g.scene_text().to_string();
    assert_eq!(g.build_terrain("b.obj"), Err(GenError::InvalidSequence));
    assert_eq!(g.finish(), Err(GenError::InvalidSequence));
    assert_eq!(g.scene_text(), text);
    assert_eq!(g.mesh_count(), 1);
    assert!(text.contains("material: ( albedo: Generate(Srgba(1, 0, 0, 1)), )"));
    assert!(text.contains("translation: (1, 2, 3)"));
}

#[test]
fn grid_vertices_row_after_row() {
    assert_eq!(grid_vertices(3, 2), vec![(0, 0), (1, 0), (2, 0), (0, 1), (1, 1), (2, 1)]);
    for t in [Terrain::Mountains, Terrain::Foothills, Terrain::Coast, Terrain::Fault] {
        let n = t.cells();
        assert_eq!(grid_vertices(n, n).len() as u32, n * n);
        for &(a, b, c) in &grid_triangles(n, n) {
            assert!(a != b && b != c && a != c);
        }
    }
}

#[test]
fn drawn_paths_are_numbered_files() {
    let mut rng = StdRng::seed_from_u64(3);
    let p = draw_mesh_path(&mut rng);
    let digits = p.strip_prefix("models/terrain-").unwrap().strip_suffix(".obj").unwrap();
    assert!(digits.parse::<usize>().is_ok());
    let g = MapGenerator::new(Terrain::Coast, &mut rng);
    let digits = g.map_path().strip_prefix("prefabs/map-").unwrap().strip_suffix(".ron").unwrap();
    assert!(digits.parse::<usize>().is_ok());
}

#[test]
fn one_cell_wide_grid_has_no_triangles() {
    assert_eq!(grid_triangles(1, 5), vec![]);
    assert_eq!(grid_triangles(4, 1), vec![]);
    assert_eq!(grid_triangles(1, 1), vec![]);
    assert_eq!(grid_vertices(1, 3), vec![(0, 0), (0, 1), (0, 2)]);
}

#[test]
fn flat_grid_accepts_positive_counts() {
    let g = GridShape::new_flat(1, 1).ok().unwrap();
    assert_eq!((g.cols(), g.rows(), g.len()), (1, 1, 1));
    let g = GridShape::new_flat(65, 65).ok().unwrap();
    assert_eq!(g.len(), 4225);
}

#[test]
fn generator_mesh_lies_on_archetype_grid() {
    for t in [Terrain::Mountains, Terrain::Foothills, Terrain::Coast, Terrain::Fault] {
        let g = MapGenerator::with_number(t, 0);
        let n = t.cells();
        assert_eq!(g.vertex_cells().len() as u32, n * n);
        assert_eq!(g.triangles().len() as u32, 2 * (n - 1) * (n - 1));
        assert_eq!(g.vertex_cells(), &grid_vertices(n, n));
        assert_eq!(g.triangles(), &grid_triangles(n, n));
    }
    let g = MapGenerator::with_number(Terrain::Foothills, 42);
    assert_eq!(g.vertex_cells().len(), 4225);
    assert_eq!(g.triangles().len(), 8192);
}

use render_core::algebra::{Vec2, Vec4, F32_ONE, F32_ZERO};
use render_core::data_types::Vertex;
use render_core::geometry_library::{
    convert_indices, geometry_catalog, geometry_id_of_index, geometry_index, interleave_vertices,
    reverse_indices, GeometryError, GeometryId, GeometryLibrary, MeshData, RawMesh,
    GEOMETRY_COUNT,
};

fn bits(v: f32) -> u32 {
    v.to_bits()
}

/// A small cube-like mesh: 4 vertices, 2 triangles, all attributes distinct.
fn sample_raw_mesh() -> RawMesh {
    RawMesh {
        positions: vec![
            bits(0.0),
            bits(0.0),
            bits(0.0),
            bits(1.0),
            bits(0.0),
            bits(0.0),
            bits(1.0),
            bits(1.0),
            bits(0.0),
            bits(0.0),
            bits(1.0),
            bits(0.0),
        ],
        normals: vec![
            bits(0.0),
            bits(0.0),
            bits(1.0),
            bits(0.0),
            bits(0.0),
            bits(1.0),
            bits(0.0),
            bits(0.0),
            bits(1.0),
            bits(0.0),
            bits(0.0),
            bits(1.0),
        ],
        texcoords: vec![
            bits(0.0),
            bits(0.0),
            bits(1.0),
            bits(0.0),
            bits(1.0),
            bits(1.0),
            bits(0.0),
            bits(1.0),
        ],
        indices: vec![0, 1, 2, 2, 3, 0],
    }
}

#[test]
fn index_at_16_bit_ceiling_is_accepted() {
    let r = convert_indices(&vec![0, 65535, 3]);
    assert_eq!(r.unwrap(), vec![0u16, 65535, 3]);
}

#[test]
fn index_beyond_16_bits_fails_load() {
    let r = convert_indices(&vec![0, 65536, 3]);
    assert_eq!(
        r.unwrap_err(),
        GeometryError::IndexTooLarge { value: 65536 }
    );
}

#[test]
fn mesh_with_wide_index_fails_load() {
    let mut raw = sample_raw_mesh();
    raw.indices = vec![0, 1, 70000, 2, 3, 0];
    let r = MeshData::from_arrays(&raw);
    assert_eq!(
        r.unwrap_err(),
        GeometryError::IndexTooLarge { value: 70000 }
    );
}

#[test]
fn winding_reversal_flips_each_triple() {
    // A fixed cube-front winding: each triple [a, b, c] must come out [c, b, a].
    let mut indices: Vec<u16> = vec![0, 1, 2, 2, 3, 0, 4, 5, 6, 6, 7, 4];
    reverse_indices(&mut indices);
    assert_eq!(indices, vec![2, 1, 0, 0, 3, 2, 6, 5, 4, 4, 7, 6]);
}

#[test]
fn loaded_mesh_reverses_winding_and_interleaves() {
    let raw = sample_raw_mesh();
    let mesh = MeshData::from_arrays(&raw).unwrap();
    assert_eq!(mesh.vertex_len, 4);
    assert_eq!(mesh.index_len, 6);
    assert_eq!(mesh.indices, vec![2u16, 1, 0, 0, 3, 2]);
    assert_eq!(
        mesh.vertices[1],
        Vertex {
            position: Vec4 { x: bits(1.0), y: bits(0.0), z: bits(0.0), w: F32_ONE },
            normal: Vec4 { x: bits(0.0), y: bits(0.0), z: bits(1.0), w: F32_ZERO },
            texture: Vec2 { x: bits(1.0), y: bits(0.0) },
        }
    );
}

#[test]
fn uneven_attributes_fail_load() {
    let mut raw = sample_raw_mesh();
    raw.normals.pop();
    assert_eq!(
        MeshData::from_arrays(&raw).unwrap_err(),
        GeometryError::BadVertexData
    );
}

#[test]
fn partial_triangle_fails_load() {
    let mut raw = sample_raw_mesh();
    raw.indices = vec![0, 1, 2, 3];
    assert_eq!(
        MeshData::from_arrays(&raw).unwrap_err(),
        GeometryError::BadIndexCount
    );
}

#[test]
fn interleave_zips_attribute_arrays() {
    let p = vec![bits(1.0), bits(2.0), bits(3.0)];
    let n = vec![bits(4.0), bits(5.0), bits(6.0)];
    let t = vec![bits(7.0), bits(8.0)];
    let verts = interleave_vertices(&p, &n, &t).unwrap();
    assert_eq!(verts.len(), 1);
    assert_eq!(
        verts[0],
        Vertex {
            position: Vec4 { x: bits(1.0), y: bits(2.0), z: bits(3.0), w: F32_ONE },
            normal: Vec4 { x: bits(4.0), y: bits(5.0), z: bits(6.0), w: F32_ZERO },
            texture: Vec2 { x: bits(7.0), y: bits(8.0) },
        }
    );
}

#[test]
fn vertex_buffer_words_follow_declared_layout() {
    let raw = sample_raw_mesh();
    let mesh = MeshData::from_arrays(&raw).unwrap();
    let words = mesh.vertex_buffer_words();
    assert_eq!(words.len(), 40);
    // Second vertex: position words at 10..14, normal at 14..18, texture at 18..20.
    assert_eq!(&words[10..14], &[bits(1.0), bits(0.0), bits(0.0), F32_ONE]);
    assert_eq!(&words[14..18], &[bits(0.0), bits(0.0), bits(1.0), F32_ZERO]);
    assert_eq!(&words[18..20], &[bits(1.0), bits(0.0)]);
}

#[test]
fn geometry_library_loads_whole_catalog() {
    let raws = vec![sample_raw_mesh(), sample_raw_mesh()];
    let lib = GeometryLibrary::load_all(&raws).unwrap();
    let torus = lib.get(GeometryId::TorusGeometry);
    assert_eq!(torus.index_len, 6);
    let scene = lib.get(GeometryId::SceneTestGeometry);
    assert_eq!(scene.vertex_len, 4);
}

#[test]
fn geometry_library_load_fails_on_any_bad_mesh() {
    let mut bad = sample_raw_mesh();
    bad.indices = vec![0, 1, 90000];
    let raws = vec![sample_raw_mesh(), bad];
    assert!(GeometryLibrary::load_all(&raws).is_err());
}

#[test]
fn geometry_catalog_names_every_entry() {
    let catalog = geometry_catalog();
    assert_eq!(catalog.len(), GEOMETRY_COUNT);
    assert_eq!(catalog[0].0, GeometryId::TorusGeometry);
    assert_eq!(catalog[0].1, "model/torus.obj");
    assert_eq!(catalog[1].0, GeometryId::SceneTestGeometry);
    assert_eq!(catalog[1].1, "model/scene_test.obj");
}

#[test]
fn indices_round_trip_through_the_catalog_order() {
    for i in 0..GEOMETRY_COUNT {
        assert_eq!(geometry_index(geometry_id_of_index(i)), i);
    }
}

use render_core::algebra::Mat4;
use render_core::geometry_library::{GeometryId, GeometryLibrary, MeshData, RawMesh};
use render_core::instance_batch::{InstanceBuffer, InstancedDraw};

fn tagged_matrix(tag: u32) -> Mat4 {
    let mut m = [0u32; 16];
    m[0] = tag;
    Mat4 { m }
}

fn sample_library() -> GeometryLibrary {
    let raw = RawMesh {
        positions: vec![0; 9],
        normals: vec![0; 9],
        texcoords: vec![0; 6],
        indices: vec![0, 1, 2],
    };
    let mesh = MeshData::from_arrays(&raw).unwrap();
    GeometryLibrary { meshes: vec![mesh.clone(), mesh] }
}

#[test]
fn growth_doubles_to_the_smallest_sufficient_capacity() {
    let lib = sample_library();
    let mut buffer = InstanceBuffer::new(4);

    // Five instances exceed a capacity of four: one doubling to eight.
    let objects: Vec<(GeometryId, Mat4)> =
        (0..5).map(|i| (GeometryId::TorusGeometry, tagged_matrix(i))).collect();
    let batch = buffer.write_frame(&lib, &objects);
    assert!(batch.grown);
    assert_eq!(buffer.capacity, 8);

    // Seventeen instances: doubled from eight to thirty-two, the smallest
    // power-of-two multiple reaching the count.
    let objects: Vec<(GeometryId, Mat4)> =
        (0..17).map(|i| (GeometryId::TorusGeometry, tagged_matrix(i))).collect();
    let batch = buffer.write_frame(&lib, &objects);
    assert!(batch.grown);
    assert_eq!(buffer.capacity, 32);
}

#[test]
fn a_fitting_frame_leaves_the_capacity_alone() {
    let lib = sample_library();
    let mut buffer = InstanceBuffer::new(16);
    let objects: Vec<(GeometryId, Mat4)> =
        (0..16).map(|i| (GeometryId::TorusGeometry, tagged_matrix(i))).collect();
    let batch = buffer.write_frame(&lib, &objects);
    assert!(!batch.grown);
    assert_eq!(buffer.capacity, 16);
}

#[test]
fn writes_land_at_their_sorted_range_offsets_after_growth() {
    let lib = sample_library();
    let mut buffer = InstanceBuffer::new(2);
    // Interleaved kinds; the frame forces a reallocation (5 > 2).
    let objects = vec![
        (GeometryId::SceneTestGeometry, tagged_matrix(10)),
        (GeometryId::TorusGeometry, tagged_matrix(20)),
        (GeometryId::SceneTestGeometry, tagged_matrix(11)),
        (GeometryId::TorusGeometry, tagged_matrix(21)),
        (GeometryId::TorusGeometry, tagged_matrix(22)),
    ];
    let batch = buffer.write_frame(&lib, &objects);
    assert!(batch.grown);
    assert_eq!(buffer.capacity, 8);

    // Torus instances first (kind index 0), in encounter order, then the
    // scene geometry's instances, in encounter order.
    let tags: Vec<u32> = batch.matrices.iter().map(|m| m.m[0]).collect();
    assert_eq!(tags, vec![20, 21, 22, 10, 11]);

    assert_eq!(batch.draws.len(), 2);
    let torus = &batch.draws[0];
    assert_eq!(torus.geometry, GeometryId::TorusGeometry);
    assert_eq!(torus.first_instance, 0);
    assert_eq!(torus.instance_count, 3);
    assert_eq!(torus.index_count, 3);
    let scene = &batch.draws[1];
    assert_eq!(scene.geometry, GeometryId::SceneTestGeometry);
    assert_eq!(scene.first_instance, 3);
    assert_eq!(scene.instance_count, 2);
}

#[test]
fn empty_kinds_still_get_a_draw_with_zero_instances() {
    let lib = sample_library();
    let mut buffer = InstanceBuffer::new(4);
    let objects = vec![(GeometryId::SceneTestGeometry, tagged_matrix(1))];
    let batch = buffer.write_frame(&lib, &objects);
    let torus: &InstancedDraw = &batch.draws[0];
    assert_eq!(torus.instance_count, 0);
    assert_eq!(torus.first_instance, 0);
    assert_eq!(batch.draws[1].first_instance, 0);
    assert_eq!(batch.draws[1].instance_count, 1);
}

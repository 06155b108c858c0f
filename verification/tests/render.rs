use render_core::algebra::{Iso, Mat4, Vec3, F32_ONE};
use render_core::common_component::{Camera, Transform};
use render_core::geometry_library::{GeometryId, GeometryLibrary, MeshData, RawMesh};
use render_core::render_system::{
    render, CameraInput, RenderState, SurfaceConfig, LIGHT_BUFFER_SIZE, PUSH_CONSTANT_SIZE,
};
use render_core::shader_library::ShaderLibrary;
use render_core::texture_library::{Texture, TextureId, TextureLibrary};

fn bits(v: f32) -> u32 {
    v.to_bits()
}

fn mat_to_lib(m: &nalgebra::Matrix4<f32>) -> Mat4 {
    let mut words = [0u32; 16];
    for (i, v) in m.iter().enumerate() {
        words[i] = v.to_bits();
    }
    Mat4 { m: words }
}

fn mat_from_lib(m: &Mat4) -> nalgebra::Matrix4<f32> {
    nalgebra::Matrix4::from_iterator(m.m.iter().map(|w| f32::from_bits(*w)))
}

fn sample_mesh() -> MeshData {
    let raw = RawMesh {
        positions: vec![bits(0.0); 9],
        normals: vec![bits(0.0); 9],
        texcoords: vec![bits(0.0); 6],
        indices: vec![0, 1, 2],
    };
    MeshData::from_arrays(&raw).unwrap()
}

fn sample_state() -> RenderState {
    RenderState {
        surface_config: SurfaceConfig { width: 800, height: 600 },
        geometry_library: GeometryLibrary { meshes: vec![sample_mesh(), sample_mesh()] },
        texture_library: TextureLibrary {
            textures: vec![Texture { width: 1, height: 1, data: vec![0, 0, 0, 0] }],
        },
        shader_library: ShaderLibrary::load_all(&vec![vec![0u8; 4], vec![0u8; 4]]).unwrap(),
    }
}

fn camera_at_origin() -> (CameraInput, nalgebra::Matrix4<f32>) {
    // Perspective camera at the origin looking down -Z: identity isometry.
    let proj = nalgebra::Perspective3::new(1.0f32, std::f32::consts::FRAC_PI_2, 0.05, 1000.0);
    let iso = nalgebra::Isometry3::<f32>::identity();
    let vp = proj.as_matrix() * iso.inverse().to_matrix();
    let input = CameraInput {
        camera: Camera { projection: mat_to_lib(proj.as_matrix()) },
        transform: Transform { isometry: Iso::identity(), parent: None, children: vec![] },
        view_projection: mat_to_lib(&vp),
    };
    (input, vp)
}

#[test]
fn zero_cameras_draw_nothing() {
    let state = sample_state();
    let plan = render(&state, &vec![], &vec![], &vec![], &vec![], &vec![]);
    assert!(plan.is_none());
}

#[test]
fn two_cameras_draw_nothing() {
    let state = sample_state();
    let (cam, _) = camera_at_origin();
    let plan = render(
        &state,
        &vec![cam.clone(), cam],
        &vec![],
        &vec![],
        &vec![],
        &vec![],
    );
    assert!(plan.is_none());
}

#[test]
fn single_camera_frame_packs_camera_and_draws() {
    let state = sample_state();
    let (cam, vp) = camera_at_origin();
    let model = nalgebra::Matrix4::new_translation(&nalgebra::Vector3::new(0.0f32, 0.0, -5.0));
    let objects = vec![(GeometryId::TorusGeometry, mat_to_lib(&model), Some(TextureId::CrabTexture))];
    let plan = render(&state, &vec![cam], &objects, &vec![], &vec![], &vec![]).unwrap();

    // Camera uniform: the view-projection matrix's sixteen words, then the
    // camera's world position as a homogeneous point with w = 1.
    assert_eq!(plan.camera_words.len(), 20);
    assert_eq!(&plan.camera_words[..16], &mat_to_lib(&vp).m);
    assert_eq!(&plan.camera_words[16..], &[0, 0, 0, F32_ONE]);

    assert_eq!(plan.light_words.len(), (LIGHT_BUFFER_SIZE / 4) as usize);

    assert_eq!(plan.draws.len(), 1);
    let draw = &plan.draws[0];
    assert_eq!(draw.geometry, GeometryId::TorusGeometry);
    assert_eq!(draw.texture, Some(TextureId::CrabTexture));
    assert_eq!(draw.index_count, 3);
    assert_eq!(draw.model.m, mat_to_lib(&model).m);
    assert_eq!(std::mem::size_of::<[f32; 16]>() as u32, PUSH_CONSTANT_SIZE);
}

#[test]
fn cube_near_face_lands_in_canonical_depth_range() {
    // One camera at the origin looking down -Z, one cube at (0, 0, -5):
    // the cube's near face must project into clip-space depth [0, 1]
    // with near = 0.05 and far = 1000.
    let state = sample_state();
    let (cam, _) = camera_at_origin();
    let model = nalgebra::Matrix4::new_translation(&nalgebra::Vector3::new(0.0f32, 0.0, -5.0));
    let objects = vec![(GeometryId::TorusGeometry, mat_to_lib(&model), None)];
    let plan = render(&state, &vec![cam], &objects, &vec![], &vec![], &vec![]).unwrap();

    // Rebuild the matrices exactly as the GPU would read them from the plan.
    let mut vp_words = [0u32; 16];
    vp_words.copy_from_slice(&plan.camera_words[..16]);
    let vp = mat_from_lib(&Mat4 { m: vp_words });
    let model_read = mat_from_lib(&plan.draws[0].model);
    let mvp = vp * model_read;
    // Near face of a unit cube centered at the origin: local z = +0.5.
    let clip = mvp * nalgebra::Vector4::new(0.0f32, 0.0, 0.5, 1.0);
    let depth = clip.z / clip.w;
    assert!(depth >= 0.0 && depth <= 1.0, "depth out of range: {}", depth);
}

#[test]
fn view_projection_with_identity_isometry_is_the_projection() {
    // With the identity world isometry the combined matrix equals the bare
    // projection, bit for bit.
    let proj = nalgebra::Perspective3::new(1.0f32, std::f32::consts::FRAC_PI_2, 0.05, 1000.0);
    let iso = nalgebra::Isometry3::<f32>::identity();
    let vp = proj.as_matrix() * iso.inverse().to_matrix();
    assert_eq!(mat_to_lib(&vp).m, mat_to_lib(proj.as_matrix()).m);
}

#[test]
fn resize_to_nonzero_updates_configuration_and_redraws() {
    let mut state = sample_state();
    let redraw = state.resize_if_needed(1024, 768);
    assert!(redraw);
    assert_eq!(state.surface_config, SurfaceConfig { width: 1024, height: 768 });
}

#[test]
fn zero_area_resize_is_ignored() {
    let mut state = sample_state();
    let before = state.surface_config;
    assert!(!state.resize_if_needed(0, 768));
    assert_eq!(state.surface_config, before);
    assert!(!state.resize_if_needed(1024, 0));
    assert_eq!(state.surface_config, before);
}

#[test]
fn repeating_a_resize_is_idempotent() {
    let mut state = sample_state();
    assert!(state.resize_if_needed(640, 480));
    let after = state.surface_config;
    assert!(state.resize_if_needed(640, 480));
    assert_eq!(state.surface_config, after);
}

#[test]
fn iso_position_is_homogeneous() {
    let mut iso = Iso::identity();
    iso.translation = Vec3 { x: bits(3.0), y: bits(0.0), z: bits(0.0) };
    let p = iso.position();
    assert_eq!(p.x, bits(3.0));
    assert_eq!(p.w, F32_ONE);
}

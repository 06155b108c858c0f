//! The per-frame render orchestration.
//!
//! Once per display tick the host gathers the scene's cameras, renderable
//! objects and lights and asks [`render`] for a frame plan: the exact words
//! to write into the camera and light uniform buffers and the ordered draw
//! calls to record. The host executes the plan against the GPU; the plan
//! itself, and everything in it, is computed and specified here.
//!
//! The host supplies each camera candidate's combined view-projection matrix
//! (`projection * inverse(isometry)`) ready-made, since matrix arithmetic on
//! floating-point words happens outside this crate.

use vstd::prelude::*;

use crate::algebra::Mat4;
use crate::common_component::{Camera, GlobalLight, PointLight, SpotLight, Transform};
use crate::data_types;
use crate::geometry_library::{geometry_index_spec, GeometryId, GeometryLibrary};
use crate::shader_library::ShaderLibrary;
use crate::texture_library::{TextureId, TextureLibrary};

verus! {

/// Byte size of the per-draw push-constant block: one 4x4 matrix of 32-bit
/// words, the per-object model matrix.
pub const PUSH_CONSTANT_SIZE: u32 = 64;

/// At most this many directional lights reach the GPU each frame; excess
/// lights are silently truncated by design.
pub const MAX_GLOBAL_LIGHTS: usize = 8;

/// At most this many point lights reach the GPU each frame; excess lights
/// are silently truncated by design.
pub const MAX_POINT_LIGHTS: usize = 8;

/// At most this many spot lights reach the GPU each frame; excess lights are
/// silently truncated by design.
pub const MAX_SPOT_LIGHTS: usize = 8;

/// Byte size of the directional-light array in the light uniform buffer.
pub const GLOBAL_LIGHT_ARRAY_SIZE: u64 = 256;

/// Byte size of the point-light array in the light uniform buffer.
pub const POINT_LIGHT_ARRAY_SIZE: u64 = 256;

/// Byte size of the spot-light array in the light uniform buffer.
pub const SPOT_LIGHT_ARRAY_SIZE: u64 = 384;

/// Byte offset of the directional-light array in the light uniform buffer.
pub const GLOBAL_LIGHT_OFFSET: u64 = 0;

/// Byte offset of the point-light array in the light uniform buffer.
pub const POINT_LIGHT_OFFSET: u64 = 256;

/// Byte offset of the spot-light array in the light uniform buffer.
pub const SPOT_LIGHT_OFFSET: u64 = 512;

/// Byte size of the whole light uniform buffer.
pub const LIGHT_BUFFER_SIZE: u64 = 896;

/// The light buffer layout is coherent: each array is its capacity times its
/// record size, the arrays follow each other without gaps, and the buffer is
/// exactly their sum.
pub proof fn lemma_light_buffer_layout()
    ensures
        GLOBAL_LIGHT_ARRAY_SIZE == MAX_GLOBAL_LIGHTS * 32,
        POINT_LIGHT_ARRAY_SIZE == MAX_POINT_LIGHTS * 32,
        SPOT_LIGHT_ARRAY_SIZE == MAX_SPOT_LIGHTS * 48,
        GLOBAL_LIGHT_OFFSET == 0,
        POINT_LIGHT_OFFSET == GLOBAL_LIGHT_OFFSET + GLOBAL_LIGHT_ARRAY_SIZE,
        SPOT_LIGHT_OFFSET == POINT_LIGHT_OFFSET + POINT_LIGHT_ARRAY_SIZE,
        LIGHT_BUFFER_SIZE == SPOT_LIGHT_OFFSET + SPOT_LIGHT_ARRAY_SIZE,
{
}

/// The directional-light array a frame writes: the first
/// [`MAX_GLOBAL_LIGHTS`] lights in encounter order, the remaining slots
/// empty.
pub open spec fn packed_global(lights: Seq<GlobalLight>) -> Seq<data_types::GlobalLight> {
    Seq::new(
        MAX_GLOBAL_LIGHTS as nat,
        |i: int|
            if i < lights.len() {
                data_types::GlobalLight::from_component_spec(lights[i])
            } else {
                data_types::GlobalLight::default_spec()
            },
    )
}

/// The point-light array a frame writes: the first [`MAX_POINT_LIGHTS`]
/// lights in encounter order, each with its world position taken from its
/// transform, the remaining slots empty.
pub open spec fn packed_point(lights: Seq<(PointLight, Transform)>) -> Seq<data_types::PointLight> {
    Seq::new(
        MAX_POINT_LIGHTS as nat,
        |i: int|
            if i < lights.len() {
                data_types::PointLight::from_component_spec(
                    lights[i].0,
                    lights[i].1.isometry.translation,
                )
            } else {
                data_types::PointLight::default_spec()
            },
    )
}

/// The spot-light array a frame writes: the first [`MAX_SPOT_LIGHTS`] lights
/// in encounter order, the remaining slots empty.
pub open spec fn packed_spot(lights: Seq<(SpotLight, Transform)>) -> Seq<data_types::SpotLight> {
    Seq::new(
        MAX_SPOT_LIGHTS as nat,
        |i: int|
            if i < lights.len() {
                data_types::SpotLight::from_component_spec(
                    lights[i].0,
                    lights[i].1.isometry.translation,
                )
            } else {
                data_types::SpotLight::default_spec()
            },
    )
}

/// Pack the directional lights for one frame: the first
/// [`MAX_GLOBAL_LIGHTS`] in encounter order, excess truncated, unused slots
/// empty.
pub fn pack_global_lights(lights: &Vec<GlobalLight>) -> (r: Vec<data_types::GlobalLight>)
    ensures
        r@ == packed_global(lights@),
{
    let mut out: Vec<data_types::GlobalLight> = Vec::new();
    let mut i: usize = 0;
    while i < MAX_GLOBAL_LIGHTS
        invariant
            i <= MAX_GLOBAL_LIGHTS,
            out@ == packed_global(lights@).subrange(0, i as int),
        decreases MAX_GLOBAL_LIGHTS - i,
    {
        if i < lights.len() {
            out.push(data_types::GlobalLight::from_component(&lights[i]));
        } else {
            out.push(data_types::GlobalLight::default());
        }
        proof {
            assert(packed_global(lights@).subrange(0, i + 1 as int) =~= packed_global(
                lights@,
            ).subrange(0, i as int).push(packed_global(lights@)[i as int]));
        }
        i = i + 1;
    }
    proof {
        assert(packed_global(lights@).subrange(0, MAX_GLOBAL_LIGHTS as int) =~= packed_global(
            lights@,
        ));
    }
    out
}

/// Pack the point lights for one frame: the first [`MAX_POINT_LIGHTS`] in
/// encounter order, excess truncated, unused slots empty.
pub fn pack_point_lights(lights: &Vec<(PointLight, Transform)>) -> (r: Vec<data_types::PointLight>)
    ensures
        r@ == packed_point(lights@),
{
    let mut out: Vec<data_types::PointLight> = Vec::new();
    let mut i: usize = 0;
    while i < MAX_POINT_LIGHTS
        invariant
            i <= MAX_POINT_LIGHTS,
            out@ == packed_point(lights@).subrange(0, i as int),
        decreases MAX_POINT_LIGHTS - i,
    {
        if i < lights.len() {
            let pair = &lights[i];
            out.push(data_types::PointLight::from_component(&pair.0, &pair.1));
        } else {
            out.push(data_types::PointLight::default());
        }
        proof {
            assert(packed_point(lights@).subrange(0, i + 1 as int) =~= packed_point(
                lights@,
            ).subrange(0, i as int).push(packed_point(lights@)[i as int]));
        }
        i = i + 1;
    }
    proof {
        assert(packed_point(lights@).subrange(0, MAX_POINT_LIGHTS as int) =~= packed_point(
            lights@,
        ));
    }
    out
}

/// Pack the spot lights for one frame: the first [`MAX_SPOT_LIGHTS`] in
/// encounter order, excess truncated, unused slots empty.
pub fn pack_spot_lights(lights: &Vec<(SpotLight, Transform)>) -> (r: Vec<data_types::SpotLight>)
    ensures
        r@ == packed_spot(lights@),
{
    let mut out: Vec<data_types::SpotLight> = Vec::new();
    let mut i: usize = 0;
    while i < MAX_SPOT_LIGHTS
        invariant
            i <= MAX_SPOT_LIGHTS,
            out@ == packed_spot(lights@).subrange(0, i as int),
        decreases MAX_SPOT_LIGHTS - i,
    {
        if i < lights.len() {
            let pair = &lights[i];
            out.push(data_types::SpotLight::from_component(&pair.0, &pair.1));
        } else {
            out.push(data_types::SpotLight::default());
        }
        proof {
            assert(packed_spot(lights@).subrange(0, i + 1 as int) =~= packed_spot(
                lights@,
            ).subrange(0, i as int).push(packed_spot(lights@)[i as int]));
        }
        i = i + 1;
    }
    proof {
        assert(packed_spot(lights@).subrange(0, MAX_SPOT_LIGHTS as int) =~= packed_spot(lights@));
    }
    out
}

/// Append the four words of a vector to a buffer.
fn push_vec4_words(out: &mut Vec<u32>, v: &crate::algebra::Vec4)
    ensures
        final(out)@ == old(out)@ + v.words(),
{
    out.push(v.x);
    out.push(v.y);
    out.push(v.z);
    out.push(v.w);
    proof {
        assert(out@ =~= old(out)@ + v.words());
    }
}

/// Pack the three fixed-capacity light arrays into the light uniform
/// buffer's words: directional lights first, then point lights, then spot
/// lights, at their declared byte offsets.
pub fn light_buffer_words(
    g: &Vec<data_types::GlobalLight>,
    p: &Vec<data_types::PointLight>,
    s: &Vec<data_types::SpotLight>,
) -> (r: Vec<u32>)
    requires
        g@.len() == MAX_GLOBAL_LIGHTS,
        p@.len() == MAX_POINT_LIGHTS,
        s@.len() == MAX_SPOT_LIGHTS,
    ensures
        r@.len() == 224,
        forall|i: int| 0 <= i < 8 ==> r@.subrange(8 * i, 8 * i + 8) == (#[trigger] g@[i]).words(),
        forall|i: int| 0 <= i < 8 ==> r@.subrange(64 + 8 * i, 64 + 8 * i + 8) == (
        #[trigger] p@[i]).words(),
        forall|i: int| 0 <= i < 8 ==> r@.subrange(128 + 12 * i, 128 + 12 * i + 12) == (
        #[trigger] s@[i]).words(),
{
    let mut out: Vec<u32> = Vec::new();
    let mut i: usize = 0;
    while i < 8
        invariant
            g@.len() == 8,
            i <= 8,
            out@.len() == 8 * i,
            forall|j: int| 0 <= j < i ==> out@.subrange(8 * j, 8 * j + 8) == (
            #[trigger] g@[j]).words(),
        decreases 8 - i,
    {
        let ghost pre = out@;
        push_vec4_words(&mut out, &g[i].color);
        push_vec4_words(&mut out, &g[i].direction);
        proof {
            assert(out@ =~= pre + g@[i as int].words());
            assert forall|j: int| 0 <= j < i + 1 implies out@.subrange(8 * j, 8 * j + 8) == (
            #[trigger] g@[j]).words() by {
                if j < i {
                    assert(out@.subrange(8 * j, 8 * j + 8) =~= pre.subrange(8 * j, 8 * j + 8));
                } else {
                    assert(out@.subrange(8 * j, 8 * j + 8) =~= g@[j].words());
                }
            }
        }
        i = i + 1;
    }
    let mut i: usize = 0;
    while i < 8
        invariant
            p@.len() == 8,
            i <= 8,
            out@.len() == 64 + 8 * i,
            forall|j: int| 0 <= j < 8 ==> out@.subrange(8 * j, 8 * j + 8) == (
            #[trigger] g@[j]).words(),
            forall|j: int| 0 <= j < i ==> out@.subrange(64 + 8 * j, 64 + 8 * j + 8) == (
            #[trigger] p@[j]).words(),
        decreases 8 - i,
    {
        let ghost pre = out@;
        push_vec4_words(&mut out, &p[i].position);
        push_vec4_words(&mut out, &p[i].color);
        proof {
            assert(out@ =~= pre + p@[i as int].words());
            assert forall|j: int| 0 <= j < 8 implies out@.subrange(8 * j, 8 * j + 8) == (
            #[trigger] g@[j]).words() by {
                assert(out@.subrange(8 * j, 8 * j + 8) =~= pre.subrange(8 * j, 8 * j + 8));
            }
            assert forall|j: int| 0 <= j < i + 1 implies out@.subrange(64 + 8 * j, 64 + 8 * j + 8)
                == (#[trigger] p@[j]).words() by {
                if j < i {
                    assert(out@.subrange(64 + 8 * j, 64 + 8 * j + 8) =~= pre.subrange(
                        64 + 8 * j,
                        64 + 8 * j + 8,
                    ));
                } else {
                    assert(out@.subrange(64 + 8 * j, 64 + 8 * j + 8) =~= p@[j].words());
                }
            }
        }
        i = i + 1;
    }
    let mut i: usize = 0;
    while i < 8
        invariant
            s@.len() == 8,
            i <= 8,
            out@.len() == 128 + 12 * i,
            forall|j: int| 0 <= j < 8 ==> out@.subrange(8 * j, 8 * j + 8) == (
            #[trigger] g@[j]).words(),
            forall|j: int| 0 <= j < 8 ==> out@.subrange(64 + 8 * j, 64 + 8 * j + 8) == (
            #[trigger] p@[j]).words(),
            forall|j: int| 0 <= j < i ==> out@.subrange(128 + 12 * j, 128 + 12 * j + 12) == (
            #[trigger] s@[j]).words(),
        decreases 8 - i,
    {
        let ghost pre = out@;
        push_vec4_words(&mut out, &s[i].position);
        push_vec4_words(&mut out, &s[i].color);
        push_vec4_words(&mut out, &s[i].direction);
        proof {
            assert(out@ =~= pre + s@[i as int].words());
            assert forall|j: int| 0 <= j < 8 implies out@.subrange(8 * j, 8 * j + 8) == (
            #[trigger] g@[j]).words() by {
                assert(out@.subrange(8 * j, 8 * j + 8) =~= pre.subrange(8 * j, 8 * j + 8));
            }
            assert forall|j: int| 0 <= j < 8 implies out@.subrange(64 + 8 * j, 64 + 8 * j + 8) == (
            #[trigger] p@[j]).words() by {
                assert(out@.subrange(64 + 8 * j, 64 + 8 * j + 8) =~= pre.subrange(
                    64 + 8 * j,
                    64 + 8 * j + 8,
                ));
            }
            assert forall|j: int| 0 <= j < i + 1 implies out@.subrange(
                128 + 12 * j,
                128 + 12 * j + 12,
            ) == (#[trigger] s@[j]).words() by {
                if j < i {
                    assert(out@.subrange(128 + 12 * j, 128 + 12 * j + 12) =~= pre.subrange(
                        128 + 12 * j,
                        128 + 12 * j + 12,
                    ));
                } else {
                    assert(out@.subrange(128 + 12 * j, 128 + 12 * j + 12) =~= s@[j].words());
                }
            }
        }
        i = i + 1;
    }
    out
}

/// One camera candidate for a frame: the camera, its world transform, and
/// the combined view-projection matrix `projection * inverse(isometry)` that
/// the host computed from them.
#[derive(Clone, Debug)]
pub struct CameraInput {
    pub camera: Camera,
    pub transform: Transform,
    pub view_projection: Mat4,
}

/// One recorded draw: bind the object's texture, push its model matrix, and
/// draw its geometry's full index range once.
#[derive(Clone, Debug)]
pub struct DrawCall {
    pub geometry: GeometryId,
    pub texture: Option<TextureId>,
    pub model: Mat4,
    pub index_count: u32,
}

/// Everything one frame writes and draws: the camera uniform words, the
/// light uniform words, and the ordered draw calls.
#[derive(Clone, Debug)]
pub struct FramePlan {
    pub camera_words: Vec<u32>,
    pub light_words: Vec<u32>,
    pub draws: Vec<DrawCall>,
}

/// The current surface configuration: the swapchain's pixel dimensions.
#[derive(Clone, Copy, Debug, PartialEq, Eq, Structural)]
pub struct SurfaceConfig {
    pub width: u32,
    pub height: u32,
}

/// The renderer's persistent state: the surface configuration and the three
/// resource libraries, owned for the lifetime of the window.
#[derive(Debug)]
pub struct RenderState {
    pub surface_config: SurfaceConfig,
    pub geometry_library: GeometryLibrary,
    pub texture_library: TextureLibrary,
    pub shader_library: ShaderLibrary,
}

impl RenderState {
    /// The libraries are fully loaded.
    pub open spec fn wf(self) -> bool {
        &&& self.geometry_library.wf()
        &&& self.texture_library.wf()
        &&& self.shader_library.wf()
    }

    /// Bring up the renderer state for a surface of the given initial size,
    /// taking ownership of the loaded libraries.
    pub fn init(
        width: u32,
        height: u32,
        geometry_library: GeometryLibrary,
        texture_library: TextureLibrary,
        shader_library: ShaderLibrary,
    ) -> (r: Self)
        requires
            geometry_library.wf(),
            texture_library.wf(),
            shader_library.wf(),
        ensures
            r.wf(),
            r.surface_config == (SurfaceConfig { width, height }),
            r.geometry_library == geometry_library,
            r.texture_library == texture_library,
            r.shader_library == shader_library,
    {
        RenderState {
            surface_config: SurfaceConfig { width, height },
            geometry_library,
            texture_library,
            shader_library,
        }
    }

    /// Take a resize notification. A resize to a nonzero area updates the
    /// stored surface configuration to exactly the new dimensions and asks
    /// for one redraw (the host then reconfigures the surface and requests
    /// it). A zero-area resize, as when the window is minimized, changes
    /// nothing and is not an error.
    pub fn resize_if_needed(&mut self, width: u32, height: u32) -> (redraw: bool)
        ensures
            width > 0 && height > 0 ==> *final(self) == (RenderState {
                surface_config: SurfaceConfig { width, height },
                ..*old(self)
            }) && redraw == true,
            !(width > 0 && height > 0) ==> *final(self) == *old(self) && redraw == false,
    {
        if width > 0 && height > 0 {
            self.surface_config.width = width;
            self.surface_config.height = height;
            true
        } else {
            false
        }
    }

    /// Record the frame's draw sequence: one draw per object, in the given
    /// order, each drawing its geometry's full index range with the object's
    /// model matrix as push constant.
    pub fn render(&self, objects: &Vec<(GeometryId, Mat4, Option<TextureId>)>) -> (draws: Vec<
        DrawCall,
    >)
        requires
            self.wf(),
        ensures
            draws@.len() == objects@.len(),
            forall|i: int| 0 <= i < objects@.len() ==> #[trigger] draws@[i] == (DrawCall {
                geometry: objects@[i].0,
                texture: objects@[i].2,
                model: objects@[i].1,
                index_count: self.geometry_library.meshes@[geometry_index_spec(
                    objects@[i].0,
                )].index_len,
            }),
    {
        let mut draws: Vec<DrawCall> = Vec::new();
        let mut i: usize = 0;
        while i < objects.len()
            invariant
                self.wf(),
                i <= objects@.len(),
                draws@.len() == i,
                forall|j: int| 0 <= j < i ==> #[trigger] draws@[j] == (DrawCall {
                    geometry: objects@[j].0,
                    texture: objects@[j].2,
                    model: objects@[j].1,
                    index_count: self.geometry_library.meshes@[geometry_index_spec(
                        objects@[j].0,
                    )].index_len,
                }),
            decreases objects.len() - i,
        {
            let obj = &objects[i];
            let mesh = self.geometry_library.get(obj.0);
            draws.push(
                DrawCall {
                    geometry: obj.0,
                    texture: obj.2,
                    model: obj.1,
                    index_count: mesh.index_len,
                },
            );
            i = i + 1;
        }
        draws
    }
}

/// Build the plan for one frame, or decline it.
///
/// Exactly one main camera must be present: with zero or several the frame
/// is skipped — no draws, no buffer writes — and the host logs the error.
/// Otherwise the plan packs the camera uniform (view-projection matrix and
/// homogeneous world position), the three truncated light arrays, and one
/// draw per object in encounter order.
pub fn render(
    state: &RenderState,
    cameras: &Vec<CameraInput>,
    objects: &Vec<(GeometryId, Mat4, Option<TextureId>)>,
    global_lights: &Vec<GlobalLight>,
    point_lights: &Vec<(PointLight, Transform)>,
    spot_lights: &Vec<(SpotLight, Transform)>,
) -> (r: Option<FramePlan>)
    requires
        state.wf(),
    ensures
        cameras@.len() != 1 ==> r is None,
        cameras@.len() == 1 ==> (r matches Some(plan) && ({
            let cam = cameras@[0];
            &&& plan.camera_words@ == (data_types::Camera {
                view_projection: cam.view_projection,
                position: cam.transform.isometry.position_spec(),
            }).words()
            &&& plan.light_words@.len() == 224
            &&& forall|i: int| 0 <= i < 8 ==> plan.light_words@.subrange(8 * i, 8 * i + 8)
                == (#[trigger] packed_global(global_lights@)[i]).words()
            &&& forall|i: int| 0 <= i < 8 ==> plan.light_words@.subrange(64 + 8 * i, 64 + 8 * i + 8)
                == (#[trigger] packed_point(point_lights@)[i]).words()
            &&& forall|i: int| 0 <= i < 8 ==> plan.light_words@.subrange(
                128 + 12 * i,
                128 + 12 * i + 12,
            ) == (#[trigger] packed_spot(spot_lights@)[i]).words()
            &&& plan.draws@.len() == objects@.len()
            &&& forall|i: int| 0 <= i < objects@.len() ==> #[trigger] plan.draws@[i] == (DrawCall {
                geometry: objects@[i].0,
                texture: objects@[i].2,
                model: objects@[i].1,
                index_count: state.geometry_library.meshes@[geometry_index_spec(
                    objects@[i].0,
                )].index_len,
            })
        })),
{
    if cameras.len() != 1 {
        return None;
    }
    let cam = &cameras[0];
    let camera_data = data_types::Camera {
        view_projection: cam.view_projection,
        position: cam.transform.isometry.position(),
    };
    let camera_words = camera_data.to_words();
    let g = pack_global_lights(global_lights);
    let p = pack_point_lights(point_lights);
    let s = pack_spot_lights(spot_lights);
    let light_words = light_buffer_words(&g, &p, &s);
    let draws = state.render(objects);
    Some(FramePlan { camera_words, light_words, draws })
}

} // verus!

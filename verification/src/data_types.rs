//! GPU-facing data layouts.
//!
//! Every type here has an explicit binary-layout contract: a `words` spec
//! function gives the exact sequence of 32-bit words the GPU sees, and the
//! executable packing functions are proved to produce exactly that sequence.
//! Offsets and strides are stated in bytes, matching what the host declares
//! to the graphics API.

use vstd::prelude::*;

use crate::algebra::{F32_ONE, F32_ZERO, Fbits, Vec2, Vec3, Vec4};
use crate::common_component::{
    GlobalLight as GlobalLightComponent, PointLight as PointLightComponent,
    SpotLight as SpotLightComponent, Transform,
};

verus! {

/// One interleaved vertex: position, normal, texture coordinates.
///
/// Layout (40 bytes): position at byte 0, normal at byte 16, texture
/// coordinates at byte 32, each component a 32-bit word.
#[derive(Clone, Copy, Debug, PartialEq, Eq, Structural)]
pub struct Vertex {
    pub position: Vec4,
    pub normal: Vec4,
    pub texture: Vec2,
}

/// Byte stride of one [`Vertex`] in the vertex buffer.
pub const VERTEX_STRIDE: u64 = 40;

/// Byte offset of the position attribute inside a [`Vertex`].
pub const VERTEX_POSITION_OFFSET: u64 = 0;

/// Byte offset of the normal attribute inside a [`Vertex`].
pub const VERTEX_NORMAL_OFFSET: u64 = 16;

/// Byte offset of the texture-coordinate attribute inside a [`Vertex`].
pub const VERTEX_TEXTURE_OFFSET: u64 = 32;

impl Vertex {
    /// The ten words of this vertex in buffer order.
    pub open spec fn words(self) -> Seq<u32> {
        self.position.words() + self.normal.words() + seq![self.texture.x, self.texture.y]
    }

    /// A vertex at a bare position: homogeneous `w` = 1, zero normal, zero
    /// texture coordinates.
    pub fn pos(pos: &Vec3) -> (r: Self)
        ensures
            r.position == (Vec4 { x: pos.x, y: pos.y, z: pos.z, w: F32_ONE }),
            r.normal == (Vec4 { x: F32_ZERO, y: F32_ZERO, z: F32_ZERO, w: F32_ZERO }),
            r.texture == (Vec2 { x: F32_ZERO, y: F32_ZERO }),
    {
        Self {
            position: Vec4 { x: pos.x, y: pos.y, z: pos.z, w: F32_ONE },
            normal: Vec4 { x: F32_ZERO, y: F32_ZERO, z: F32_ZERO, w: F32_ZERO },
            texture: Vec2 { x: F32_ZERO, y: F32_ZERO },
        }
    }

    /// A vertex at a position with texture coordinates, zero normal.
    pub fn pos_and_tex(pos: &Vec3, tex: &Vec2) -> (r: Self)
        ensures
            r.position == (Vec4 { x: pos.x, y: pos.y, z: pos.z, w: F32_ONE }),
            r.normal == (Vec4 { x: F32_ZERO, y: F32_ZERO, z: F32_ZERO, w: F32_ZERO }),
            r.texture == *tex,
    {
        Self {
            position: Vec4 { x: pos.x, y: pos.y, z: pos.z, w: F32_ONE },
            normal: Vec4 { x: F32_ZERO, y: F32_ZERO, z: F32_ZERO, w: F32_ZERO },
            texture: *tex,
        }
    }
}

/// The per-frame camera uniform: the combined view-projection matrix followed
/// by the camera's world position as a homogeneous point.
///
/// Layout (80 bytes): matrix words 0..16 column-major, position words 16..20.
#[derive(Clone, Copy, Debug)]
pub struct Camera {
    pub view_projection: crate::algebra::Mat4,
    pub position: Vec4,
}

/// Byte size of the camera uniform buffer binding.
pub const CAMERA_BINDING_SIZE: u64 = 80;

impl Camera {
    /// The twenty words of the camera uniform in buffer order.
    pub open spec fn words(self) -> Seq<u32> {
        self.view_projection@ + self.position.words()
    }

    /// Pack this camera uniform into buffer words.
    pub fn to_words(&self) -> (r: Vec<u32>)
        ensures
            r@ == self.words(),
    {
        let mut out = self.view_projection.to_words();
        out.push(self.position.x);
        out.push(self.position.y);
        out.push(self.position.z);
        out.push(self.position.w);
        out
    }
}

/// GPU record of a directional light.
///
/// Layout (32 bytes): color at byte 0 with intensity in `w`, direction at
/// byte 16 with `w` = 0 (a direction, not a point).
#[derive(Clone, Copy, Debug, PartialEq, Eq, Structural)]
pub struct GlobalLight {
    pub color: Vec4,
    pub direction: Vec4,
}

/// GPU record of a point light.
///
/// Layout (32 bytes): position at byte 0 with the falloff radius in `w`,
/// color at byte 16 with intensity in `w`.
#[derive(Clone, Copy, Debug, PartialEq, Eq, Structural)]
pub struct PointLight {
    pub position: Vec4,
    pub color: Vec4,
}

/// GPU record of a spot light.
///
/// Layout (48 bytes): position at byte 0 with radius in `w`, color at byte 16
/// with intensity in `w`, direction at byte 32 with the cone cutoff in `w`.
#[derive(Clone, Copy, Debug, PartialEq, Eq, Structural)]
pub struct SpotLight {
    pub position: Vec4,
    pub color: Vec4,
    pub direction: Vec4,
}

impl GlobalLight {
    /// The eight words of this record in buffer order.
    pub open spec fn words(self) -> Seq<u32> {
        self.color.words() + self.direction.words()
    }

    /// The record a scene [`GlobalLightComponent`] packs into.
    pub fn from_component(gl: &GlobalLightComponent) -> (r: Self)
        ensures
            r == Self::from_component_spec(*gl),
    {
        Self {
            direction: Vec4 { x: gl.direction.x, y: gl.direction.y, z: gl.direction.z, w: F32_ZERO },
            color: Vec4 { x: gl.color.x, y: gl.color.y, z: gl.color.z, w: gl.power },
        }
    }

    /// Spec-level form of [`Self::from_component`].
    pub open spec fn from_component_spec(gl: GlobalLightComponent) -> Self {
        GlobalLight {
            color: Vec4 { x: gl.color.x, y: gl.color.y, z: gl.color.z, w: gl.power },
            direction: Vec4 { x: gl.direction.x, y: gl.direction.y, z: gl.direction.z, w: F32_ZERO },
        }
    }
}

impl PointLight {
    /// The eight words of this record in buffer order.
    pub open spec fn words(self) -> Seq<u32> {
        self.position.words() + self.color.words()
    }

    /// The record a scene [`PointLightComponent`] and its [`Transform`] pack
    /// into: world position from the transform's translation, radius in the
    /// position's `w`, intensity in the color's `w`.
    pub fn from_component(pl: &PointLightComponent, t: &Transform) -> (r: Self)
        ensures
            r == Self::from_component_spec(*pl, t.isometry.translation),
    {
        let tr = &t.isometry.translation;
        Self {
            position: Vec4 { x: tr.x, y: tr.y, z: tr.z, w: pl.radius },
            color: Vec4 { x: pl.color.x, y: pl.color.y, z: pl.color.z, w: pl.power },
        }
    }

    /// Spec-level form of [`Self::from_component`].
    pub open spec fn from_component_spec(pl: PointLightComponent, tr: Vec3) -> Self {
        PointLight {
            position: Vec4 { x: tr.x, y: tr.y, z: tr.z, w: pl.radius },
            color: Vec4 { x: pl.color.x, y: pl.color.y, z: pl.color.z, w: pl.power },
        }
    }
}

impl SpotLight {
    /// The twelve words of this record in buffer order.
    pub open spec fn words(self) -> Seq<u32> {
        self.position.words() + self.color.words() + self.direction.words()
    }

    /// The record a scene [`SpotLightComponent`] and its [`Transform`] pack
    /// into.
    pub fn from_component(sl: &SpotLightComponent, t: &Transform) -> (r: Self)
        ensures
            r == Self::from_component_spec(*sl, t.isometry.translation),
    {
        let tr = &t.isometry.translation;
        Self {
            position: Vec4 { x: tr.x, y: tr.y, z: tr.z, w: sl.radius },
            color: Vec4 { x: sl.color.x, y: sl.color.y, z: sl.color.z, w: sl.power },
            direction: Vec4 { x: sl.direction.x, y: sl.direction.y, z: sl.direction.z, w: sl.cut_off },
        }
    }

    /// Spec-level form of [`Self::from_component`].
    pub open spec fn from_component_spec(sl: SpotLightComponent, tr: Vec3) -> Self {
        SpotLight {
            position: Vec4 { x: tr.x, y: tr.y, z: tr.z, w: sl.radius },
            color: Vec4 { x: sl.color.x, y: sl.color.y, z: sl.color.z, w: sl.power },
            direction: Vec4 { x: sl.direction.x, y: sl.direction.y, z: sl.direction.z, w: sl.cut_off },
        }
    }
}

impl Default for GlobalLight {
    /// An empty slot: black with zero intensity, aimed along the x axis.
    fn default() -> (r: Self)
        ensures
            r == Self::default_spec(),
    {
        Self {
            color: Vec4 { x: F32_ZERO, y: F32_ZERO, z: F32_ZERO, w: F32_ZERO },
            direction: Vec4 { x: F32_ONE, y: F32_ZERO, z: F32_ZERO, w: F32_ZERO },
        }
    }
}

impl GlobalLight {
    /// Spec-level form of the default (empty) record.
    pub open spec fn default_spec() -> Self {
        GlobalLight {
            color: Vec4 { x: F32_ZERO, y: F32_ZERO, z: F32_ZERO, w: F32_ZERO },
            direction: Vec4 { x: F32_ONE, y: F32_ZERO, z: F32_ZERO, w: F32_ZERO },
        }
    }
}

impl Default for PointLight {
    /// An empty slot: all components zero.
    fn default() -> (r: Self)
        ensures
            r == Self::default_spec(),
    {
        Self {
            position: Vec4 { x: F32_ZERO, y: F32_ZERO, z: F32_ZERO, w: F32_ZERO },
            color: Vec4 { x: F32_ZERO, y: F32_ZERO, z: F32_ZERO, w: F32_ZERO },
        }
    }
}

impl PointLight {
    /// Spec-level form of the default (empty) record.
    pub open spec fn default_spec() -> Self {
        PointLight {
            position: Vec4 { x: F32_ZERO, y: F32_ZERO, z: F32_ZERO, w: F32_ZERO },
            color: Vec4 { x: F32_ZERO, y: F32_ZERO, z: F32_ZERO, w: F32_ZERO },
        }
    }
}

impl Default for SpotLight {
    /// An empty slot: zero position and color, aimed along the x axis with a
    /// unit cutoff.
    fn default() -> (r: Self)
        ensures
            r == Self::default_spec(),
    {
        Self {
            position: Vec4 { x: F32_ZERO, y: F32_ZERO, z: F32_ZERO, w: F32_ZERO },
            color: Vec4 { x: F32_ZERO, y: F32_ZERO, z: F32_ZERO, w: F32_ZERO },
            direction: Vec4 { x: F32_ONE, y: F32_ZERO, z: F32_ZERO, w: F32_ONE },
        }
    }
}

impl SpotLight {
    /// Spec-level form of the default (empty) record.
    pub open spec fn default_spec() -> Self {
        SpotLight {
            position: Vec4 { x: F32_ZERO, y: F32_ZERO, z: F32_ZERO, w: F32_ZERO },
            color: Vec4 { x: F32_ZERO, y: F32_ZERO, z: F32_ZERO, w: F32_ZERO },
            direction: Vec4 { x: F32_ONE, y: F32_ZERO, z: F32_ZERO, w: F32_ONE },
        }
    }
}

/// One per-object record of the instanced draw path: the object's model
/// matrix.
///
/// Layout (64 bytes): four column vectors of four words each, at bytes 0, 16,
/// 32 and 48.
#[derive(Clone, Copy, Debug)]
pub struct Instance {
    pub model: crate::algebra::Mat4,
}

/// Byte stride of one [`Instance`] in the instance buffer.
pub const INSTANCE_STRIDE: u64 = 64;

impl Instance {
    /// The sixteen words of this record in buffer order.
    pub open spec fn words(self) -> Seq<u32> {
        self.model@
    }
}

} // verus!

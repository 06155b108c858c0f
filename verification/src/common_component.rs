//! Scene-side components: the data an entity carries so that the render core
//! can draw it. Entities themselves live in the host's store; parent/child
//! links are therefore plain entity identifiers, looked up by the host, never
//! owned here.

use vstd::prelude::*;

use crate::algebra::{Fbits, Iso, Mat4, Vec3};
use crate::geometry_library::GeometryId;
use crate::texture_library::TextureId;

verus! {

/// An entity identifier in the host's store, carried opaquely.
pub type EntityId = u64;

/// Spatial attachment of an entity: a rigid transform plus weak links for
/// hierarchical composition. The links are lookup-only back-references; the
/// host must keep them acyclic (no entity is its own ancestor).
#[derive(Clone, Debug)]
pub struct Transform {
    pub isometry: Iso,
    pub parent: Option<EntityId>,
    pub children: Vec<EntityId>,
}

/// A camera's perspective projection, held as the finished projection matrix.
/// The host builds it from aspect, field of view and near/far clip planes.
#[derive(Clone, Debug)]
pub struct Camera {
    pub projection: Mat4,
}

/// Marks the single entity whose camera drives the frame.
#[derive(Clone, Copy, Debug)]
pub struct MainCamera;

/// Which geometry-library entry an entity is drawn with. Immutable once
/// assigned.
#[derive(Clone, Copy, Debug, PartialEq, Eq, Structural)]
pub struct RenderGeometry {
    pub geom_type: GeometryId,
}

impl RenderGeometry {
    pub fn new(geom_type: GeometryId) -> (r: Self)
        ensures
            r.geom_type == geom_type,
    {
        Self { geom_type }
    }
}

/// Which texture-library entry an entity is drawn with; an entity without one
/// takes the untextured material path.
#[derive(Clone, Copy, Debug, PartialEq, Eq, Structural)]
pub struct Texture {
    pub texture_id: TextureId,
}

impl Texture {
    pub fn new(texture_id: TextureId) -> (r: Self)
        ensures
            r.texture_id == texture_id,
    {
        Self { texture_id }
    }
}

/// A point light: color, intensity, and falloff radius. Its position comes
/// from the entity's [`Transform`].
#[derive(Clone, Copy, Debug, PartialEq, Eq, Structural)]
pub struct PointLight {
    pub color: Vec3,
    pub power: Fbits,
    pub radius: Fbits,
}

/// A spot light: a point light with a direction and a cone cutoff.
#[derive(Clone, Copy, Debug, PartialEq, Eq, Structural)]
pub struct SpotLight {
    pub color: Vec3,
    pub power: Fbits,
    pub radius: Fbits,
    pub direction: Vec3,
    pub cut_off: Fbits,
}

/// A directional light filling the whole scene; it has no position.
#[derive(Clone, Copy, Debug, PartialEq, Eq, Structural)]
pub struct GlobalLight {
    pub color: Vec3,
    pub power: Fbits,
    pub direction: Vec3,
}

/// Requests a steady spin of the entity around the given axis; the host's
/// update phase applies it.
#[derive(Clone, Copy, Debug, PartialEq, Eq, Structural)]
pub struct Rotate {
    pub axis: Vec3,
}

} // verus!

//! Plain-data linear-algebra carriers.
//!
//! Single-precision values travel through this crate as raw IEEE 754 bit
//! patterns (`u32`): the render core never does arithmetic on them, it only
//! routes them between scene state and GPU-bound buffers with an exact,
//! word-level layout. The host performs the actual matrix arithmetic and
//! hands the resulting bit patterns back in these types.

use vstd::prelude::*;

verus! {

/// A single-precision value, held as its IEEE 754 bit pattern.
pub type Fbits = u32;

/// Bit pattern of single-precision `1.0`.
pub const F32_ONE: Fbits = 0x3F80_0000;

/// Bit pattern of single-precision `0.0`.
pub const F32_ZERO: Fbits = 0;

/// A two-component vector of single-precision bit patterns.
#[derive(Clone, Copy, Debug, PartialEq, Eq, Structural)]
pub struct Vec2 {
    pub x: Fbits,
    pub y: Fbits,
}

/// A three-component vector of single-precision bit patterns.
#[derive(Clone, Copy, Debug, PartialEq, Eq, Structural)]
pub struct Vec3 {
    pub x: Fbits,
    pub y: Fbits,
    pub z: Fbits,
}

/// A four-component vector of single-precision bit patterns.
#[derive(Clone, Copy, Debug, PartialEq, Eq, Structural)]
pub struct Vec4 {
    pub x: Fbits,
    pub y: Fbits,
    pub z: Fbits,
    pub w: Fbits,
}

/// A unit quaternion, held as bit patterns; `i`, `j`, `k` are the imaginary
/// parts and `w` the real part.
#[derive(Clone, Copy, Debug, PartialEq, Eq, Structural)]
pub struct Quat {
    pub i: Fbits,
    pub j: Fbits,
    pub k: Fbits,
    pub w: Fbits,
}

/// A 4x4 matrix of single-precision bit patterns, stored column-major as the
/// GPU expects it.
#[derive(Clone, Copy, Debug, PartialEq)]
pub struct Mat4 {
    pub m: [Fbits; 16],
}

impl View for Mat4 {
    type V = Seq<u32>;

    open spec fn view(&self) -> Seq<u32> {
        self.m@
    }
}

/// A rigid transform: rotation followed by translation, no scale.
#[derive(Clone, Copy, Debug, PartialEq, Eq, Structural)]
pub struct Iso {
    pub rotation: Quat,
    pub translation: Vec3,
}

impl Vec4 {
    /// The four components in order, as GPU words.
    pub open spec fn words(self) -> Seq<u32> {
        seq![self.x, self.y, self.z, self.w]
    }
}

impl Iso {
    /// The identity transform: no rotation (unit real quaternion), no
    /// translation.
    pub fn identity() -> (r: Iso)
        ensures
            r == Iso::identity_spec(),
    {
        Iso {
            rotation: Quat { i: F32_ZERO, j: F32_ZERO, k: F32_ZERO, w: F32_ONE },
            translation: Vec3 { x: F32_ZERO, y: F32_ZERO, z: F32_ZERO },
        }
    }

    /// The identity transform as a spec-level value.
    pub open spec fn identity_spec() -> Iso {
        Iso {
            rotation: Quat { i: F32_ZERO, j: F32_ZERO, k: F32_ZERO, w: F32_ONE },
            translation: Vec3 { x: F32_ZERO, y: F32_ZERO, z: F32_ZERO },
        }
    }

    /// The translation component as a homogeneous position (`w` = 1), the
    /// shape in which a world position enters a GPU buffer.
    pub fn position(&self) -> (r: Vec4)
        ensures
            r == self.position_spec(),
    {
        Vec4 { x: self.translation.x, y: self.translation.y, z: self.translation.z, w: F32_ONE }
    }

    /// Spec-level form of [`Self::position`].
    pub open spec fn position_spec(self) -> Vec4 {
        Vec4 { x: self.translation.x, y: self.translation.y, z: self.translation.z, w: F32_ONE }
    }
}

impl Mat4 {
    /// The sixteen words of the matrix in column-major order.
    pub fn to_words(&self) -> (r: Vec<u32>)
        ensures
            r@ == self@,
    {
        let mut out: Vec<u32> = Vec::new();
        let mut i: usize = 0;
        while i < 16
            invariant
                i <= 16,
                out@ == self@.subrange(0, i as int),
            decreases 16 - i,
        {
            out.push(self.m[i]);
            i = i + 1;
        }
        proof {
            assert(self@.subrange(0, 16) == self@);
        }
        out
    }
}

} // verus!

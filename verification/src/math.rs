use vstd::prelude::*;

verus! {

/// Bit pattern of the IEEE-754 single-precision value 0.0.
pub const F32_ZERO_BITS: u32 = 0;

/// Bit pattern of the IEEE-754 single-precision value 1.0.
pub const F32_ONE_BITS: u32 = 0x3F80_0000;

/// A 3-vector whose components are IEEE-754 single-precision bit patterns.
///
/// The engine never computes on the components; it carries them between
/// the host and the spatialization backend, which interprets them as
/// world-space coordinates.
#[derive(Clone, Copy, Debug, PartialEq, Eq, Structural)]
pub struct Vec3Bits {
    pub x: u32,
    pub y: u32,
    pub z: u32,
}

impl Vec3Bits {
    /// Builds a vector from three component bit patterns.
    pub fn new(x: u32, y: u32, z: u32) -> (r: Vec3Bits)
        ensures
            r == (Vec3Bits { x, y, z }),
    {
        Vec3Bits { x, y, z }
    }

    /// The zero vector.
    pub fn zero() -> (r: Vec3Bits)
        ensures
            r == (Vec3Bits { x: F32_ZERO_BITS, y: F32_ZERO_BITS, z: F32_ZERO_BITS }),
    {
        Vec3Bits { x: F32_ZERO_BITS, y: F32_ZERO_BITS, z: F32_ZERO_BITS }
    }
}

/// A unit quaternion whose components are IEEE-754 single-precision bit
/// patterns, carried opaquely like [`Vec3Bits`].
#[derive(Clone, Copy, Debug, PartialEq, Eq, Structural)]
pub struct QuatBits {
    pub x: u32,
    pub y: u32,
    pub z: u32,
    pub w: u32,
}

impl QuatBits {
    /// Builds a quaternion from four component bit patterns.
    pub fn new(x: u32, y: u32, z: u32, w: u32) -> (r: QuatBits)
        ensures
            r == (QuatBits { x, y, z, w }),
    {
        QuatBits { x, y, z, w }
    }

    /// The identity rotation.
    pub fn identity() -> (r: QuatBits)
        ensures
            r == QuatBits::identity_spec(),
    {
        QuatBits { x: F32_ZERO_BITS, y: F32_ZERO_BITS, z: F32_ZERO_BITS, w: F32_ONE_BITS }
    }

    /// The identity rotation, as a value.
    pub open spec fn identity_spec() -> QuatBits {
        QuatBits { x: F32_ZERO_BITS, y: F32_ZERO_BITS, z: F32_ZERO_BITS, w: F32_ONE_BITS }
    }
}

/// Position and orientation of an entity in the world.
#[derive(Clone, Copy, Debug, PartialEq, Eq, Structural)]
pub struct Pose {
    pub position: Vec3Bits,
    pub rotation: QuatBits,
}

impl Pose {
    /// Builds a pose from a position and a rotation.
    pub fn new(position: Vec3Bits, rotation: QuatBits) -> (r: Pose)
        ensures
            r == (Pose { position, rotation }),
    {
        Pose { position, rotation }
    }

    /// The pose at the origin with the identity rotation.
    pub fn identity() -> (r: Pose)
        ensures
            r == Pose::identity_spec(),
    {
        Pose { position: Vec3Bits::zero(), rotation: QuatBits::identity() }
    }

    /// The pose at the origin with the identity rotation, as a value.
    pub open spec fn identity_spec() -> Pose {
        Pose {
            position: Vec3Bits { x: F32_ZERO_BITS, y: F32_ZERO_BITS, z: F32_ZERO_BITS },
            rotation: QuatBits::identity_spec(),
        }
    }

    /// A pose at the given position with the identity rotation.
    pub fn from_position(position: Vec3Bits) -> (r: Pose)
        ensures
            r == (Pose { position, rotation: QuatBits::identity_spec() }),
    {
        Pose { position, rotation: QuatBits::identity() }
    }

    /// A pose at the origin with the given rotation.
    pub fn from_rotation(rotation: QuatBits) -> (r: Pose)
        ensures
            r == (Pose {
                position: Vec3Bits { x: F32_ZERO_BITS, y: F32_ZERO_BITS, z: F32_ZERO_BITS },
                rotation,
            }),
    {
        Pose { position: Vec3Bits::zero(), rotation }
    }
}

impl Default for Pose {
    /// The default pose is the identity pose.
    fn default() -> (r: Pose)
        ensures
            r == Pose::identity_spec(),
    {
        Pose::identity()
    }
}

} // verus!

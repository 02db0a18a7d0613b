//! Spatial data carried by objects: vectors, quaternions, matrices,
//! orientations and transforms.
//!
//! The numeric components are IEEE-754 double-precision bit patterns
//! held as `u64`.  This core stores, moves and compares them; the
//! numeric work (trigonometry, matrix products, conversions between
//! Euler angles and quaternions) belongs to the rendering layer that
//! interprets the bits.

use vstd::prelude::*;

verus! {

/// Bit pattern of the double 0.0.
pub const F64_ZERO_BITS: u64 = 0;

/// Bit pattern of the double 1.0.
pub const F64_ONE_BITS: u64 = 0x3FF0000000000000;

#[derive(Clone, Copy, PartialEq, Eq, Structural, Debug)]
pub struct Vec2 {
    pub x: u64,
    pub y: u64,
}

#[derive(Clone, Copy, PartialEq, Eq, Structural, Debug)]
pub struct Vec3 {
    pub x: u64,
    pub y: u64,
    pub z: u64,
}

#[derive(Clone, Copy, PartialEq, Eq, Structural, Debug)]
pub struct Vec4 {
    pub x: u64,
    pub y: u64,
    pub z: u64,
    pub w: u64,
}

#[derive(Clone, Copy, PartialEq, Eq, Structural, Debug)]
pub struct Quat {
    pub x: u64,
    pub y: u64,
    pub z: u64,
    pub w: u64,
}

impl Vec3 {
    pub open spec fn zero_spec() -> Vec3 {
        Vec3 { x: F64_ZERO_BITS, y: F64_ZERO_BITS, z: F64_ZERO_BITS }
    }

    pub open spec fn one_spec() -> Vec3 {
        Vec3 { x: F64_ONE_BITS, y: F64_ONE_BITS, z: F64_ONE_BITS }
    }

    pub fn zero() -> (r: Vec3)
        ensures
            r == Vec3::zero_spec(),
    {
        Vec3 { x: F64_ZERO_BITS, y: F64_ZERO_BITS, z: F64_ZERO_BITS }
    }

    pub fn one() -> (r: Vec3)
        ensures
            r == Vec3::one_spec(),
    {
        Vec3 { x: F64_ONE_BITS, y: F64_ONE_BITS, z: F64_ONE_BITS }
    }
}

impl Default for Vec3 {
    fn default() -> (r: Vec3)
        ensures
            r == Vec3::zero_spec(),
    {
        Vec3::zero()
    }
}

impl Quat {
    pub open spec fn identity_spec() -> Quat {
        Quat { x: F64_ZERO_BITS, y: F64_ZERO_BITS, z: F64_ZERO_BITS, w: F64_ONE_BITS }
    }

    pub fn identity() -> (r: Quat)
        ensures
            r == Quat::identity_spec(),
    {
        Quat { x: F64_ZERO_BITS, y: F64_ZERO_BITS, z: F64_ZERO_BITS, w: F64_ONE_BITS }
    }
}

/// A 4x4 matrix in column-major order, each entry a double bit pattern.
#[derive(Clone, Copy, Debug)]
pub struct Matrix4 {
    pub m: [u64; 16],
}

impl Matrix4 {
    /// The identity: ones down the diagonal (entries 0, 5, 10, 15).
    pub open spec fn identity_spec() -> Matrix4 {
        Matrix4 {
            m: [
                F64_ONE_BITS,
                F64_ZERO_BITS,
                F64_ZERO_BITS,
                F64_ZERO_BITS,
                F64_ZERO_BITS,
                F64_ONE_BITS,
                F64_ZERO_BITS,
                F64_ZERO_BITS,
                F64_ZERO_BITS,
                F64_ZERO_BITS,
                F64_ONE_BITS,
                F64_ZERO_BITS,
                F64_ZERO_BITS,
                F64_ZERO_BITS,
                F64_ZERO_BITS,
                F64_ONE_BITS,
            ],
        }
    }

    pub fn identity() -> (r: Matrix4)
        ensures
            r == Matrix4::identity_spec(),
    {
        Matrix4 {
            m: [
                F64_ONE_BITS,
                F64_ZERO_BITS,
                F64_ZERO_BITS,
                F64_ZERO_BITS,
                F64_ZERO_BITS,
                F64_ONE_BITS,
                F64_ZERO_BITS,
                F64_ZERO_BITS,
                F64_ZERO_BITS,
                F64_ZERO_BITS,
                F64_ONE_BITS,
                F64_ZERO_BITS,
                F64_ZERO_BITS,
                F64_ZERO_BITS,
                F64_ZERO_BITS,
                F64_ONE_BITS,
            ],
        }
    }
}

impl Default for Matrix4 {
    fn default() -> (r: Matrix4)
        ensures
            r == Matrix4::identity_spec(),
    {
        Matrix4::identity()
    }
}

/// An orientation, in whichever representation its owner prefers:
/// Euler angles (degrees) or a quaternion.  Converting between the two
/// is numeric work for the rendering layer; this core keeps track of
/// the representation and carries the payload.
#[derive(Clone, Copy, PartialEq, Eq, Structural, Debug)]
pub enum Orientation {
    AngleXYZ(Vec3),
    Quat(Quat),
}

impl Orientation {
    pub fn new_with_quat(q: &Quat) -> (r: Orientation)
        ensures
            r == Orientation::Quat(*q),
    {
        Orientation::Quat(*q)
    }

    pub fn new_with_angle_xyz(v: &Vec3) -> (r: Orientation)
        ensures
            r == Orientation::AngleXYZ(*v),
    {
        Orientation::AngleXYZ(*v)
    }

    pub fn new_quat() -> (r: Orientation)
        ensures
            r == Orientation::Quat(Quat::identity_spec()),
    {
        Orientation::Quat(Quat::identity())
    }

    /// The quaternion payload of a quaternion-represented orientation.
    /// (An Euler-represented one would need the numeric conversion,
    /// which lives outside this core.)
    pub fn as_quat(&self) -> (r: Quat)
        requires
            self is Quat,
        ensures
            *self == Orientation::Quat(r),
    {
        match self {
            Orientation::Quat(q) => *q,
            _ => vstd::pervasive::unreached(),
        }
    }

    /// The Euler-angle payload of an Euler-represented orientation.
    /// (A quaternion-represented one would need the numeric conversion,
    /// which lives outside this core.)
    pub fn get_angle_xyz(&self) -> (r: Vec3)
        requires
            self is AngleXYZ,
        ensures
            *self == Orientation::AngleXYZ(r),
    {
        match self {
            Orientation::AngleXYZ(a) => *a,
            _ => vstd::pervasive::unreached(),
        }
    }

    /// As `as_quat`: the quaternion payload.
    pub fn get_quat(&self) -> (r: Quat)
        requires
            self is Quat,
        ensures
            *self == Orientation::Quat(r),
    {
        self.as_quat()
    }

    /// Adopt the other orientation's payload while keeping this one's
    /// representation.  Both must use the same representation; crossing
    /// over needs the numeric conversion, which lives outside this
    /// core.
    pub fn set_and_keep_type(&mut self, ori: Orientation)
        requires
            (*old(self) is Quat) == (ori is Quat),
        ensures
            *final(self) == ori,
    {
        *self = ori;
    }

    /// Replace the payload with a quaternion, keeping the quaternion
    /// representation.  (Folding a quaternion into an Euler-represented
    /// orientation needs the numeric conversion, which lives outside
    /// this core.)
    pub fn set_with_quat(&mut self, ori: Quat)
        requires
            *old(self) is Quat,
        ensures
            *final(self) == Orientation::Quat(ori),
    {
        *self = Orientation::Quat(ori);
    }
}

impl Default for Orientation {
    fn default() -> (r: Orientation)
        ensures
            r == Orientation::AngleXYZ(Vec3::zero_spec()),
    {
        Orientation::AngleXYZ(Vec3::zero())
    }
}

/// Position, orientation and scale, with a cached local matrix and a
/// dirty flag: the matrix is trusted only while the flag is clear.
#[derive(Clone, Copy, Debug)]
pub struct Transform {
    pub position: Vec3,
    pub orientation: Orientation,
    pub scale: Vec3,
    /// Whether `local_matrix` is stale relative to the fields above.
    pub dirty: bool,
    /// The cached local matrix, recomputed by the rendering layer.
    pub local_matrix: Matrix4,
}

impl Transform {
    pub fn new() -> (r: Transform)
        ensures
            r.position == Vec3::zero_spec(),
            r.orientation == Orientation::Quat(Quat::identity_spec()),
            r.scale == Vec3::one_spec(),
            !r.dirty,
            r.local_matrix == Matrix4::identity_spec(),
    {
        Transform {
            position: Vec3::zero(),
            orientation: Orientation::Quat(Quat::identity()),
            scale: Vec3::one(),
            dirty: false,
            local_matrix: Matrix4::identity(),
        }
    }

    /// A transform whose matrix has not been computed yet: it starts
    /// dirty.
    pub fn from_position_orientation_scale(pos: Vec3, ori: Orientation, scale: Vec3) -> (r:
        Transform)
        ensures
            r.position == pos,
            r.orientation == ori,
            r.scale == scale,
            r.dirty,
            r.local_matrix == Matrix4::identity_spec(),
    {
        Transform {
            position: pos,
            orientation: ori,
            scale: scale,
            dirty: true,
            local_matrix: Matrix4::identity(),
        }
    }

    /// The cached local matrix, as last stored.
    pub fn get_computed_local_matrix(&self) -> (r: &Matrix4)
        ensures
            *r == self.local_matrix,
    {
        &self.local_matrix
    }

    /// Install a freshly computed local matrix; the cache is clean
    /// afterwards.
    pub fn set_local_matrix(&mut self, m: Matrix4)
        ensures
            final(self).local_matrix == m,
            !final(self).dirty,
            final(self).position == old(self).position,
            final(self).orientation == old(self).orientation,
            final(self).scale == old(self).scale,
    {
        self.local_matrix = m;
        self.dirty = false;
    }

    pub fn set_as_dirty(&mut self)
        ensures
            final(self).dirty,
            final(self).position == old(self).position,
            final(self).orientation == old(self).orientation,
            final(self).scale == old(self).scale,
            final(self).local_matrix == old(self).local_matrix,
    {
        self.dirty = true;
    }

    /// Position and orientation quaternion, for a quaternion-represented
    /// transform.
    pub fn get_pos_quat(&self) -> (r: (Vec3, Quat))
        requires
            self.orientation is Quat,
        ensures
            r.0 == self.position,
            self.orientation == Orientation::Quat(r.1),
    {
        (self.position, self.orientation.as_quat())
    }
}

impl Default for Transform {
    fn default() -> (r: Transform)
        ensures
            r.position == Vec3::zero_spec(),
            r.orientation == Orientation::AngleXYZ(Vec3::zero_spec()),
            r.scale == Vec3::zero_spec(),
            !r.dirty,
            r.local_matrix == Matrix4::identity_spec(),
    {
        Transform {
            position: Vec3::zero(),
            orientation: Orientation::AngleXYZ(Vec3::zero()),
            scale: Vec3::zero(),
            dirty: false,
            local_matrix: Matrix4::identity(),
        }
    }
}

} // verus!

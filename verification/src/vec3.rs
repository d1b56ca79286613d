//! Three-dimensional vectors held as the binary64 encodings of their components.
use vstd::prelude::*;
use vstd::std_specs::cmp::PartialEqSpecImpl;
use crate::binary64::{
    eq, encodes_nan, magnitude, position, same_value, sign_negative, MAGNITUDE_MASK, ONE,
    SIGN_BIT, ZERO,
};

verus! {

/// A vector whose components are the bit encodings (`f64::to_bits`) of its
/// `f64` components. `==` compares the values, as `==` on `f64` does.
#[derive(Clone, Copy, Debug)]
pub struct Vec3Bits {
    pub x: u64,
    pub y: u64,
    pub z: u64,
}

/// The two vectors are equal component by component, as `==` on `f64` decides.
pub open spec fn same_vector(a: Vec3Bits, b: Vec3Bits) -> bool {
    same_value(a.x, b.x) && same_value(a.y, b.y) && same_value(a.z, b.z)
}

/// Encoding of `0.0 + -x` where `b` encodes `x`: the sign bit flipped, except
/// that both zeros give `+0.0`.
pub open spec fn negated(b: u64) -> u64 {
    if magnitude(b) == 0 {
        ZERO
    } else {
        b ^ SIGN_BIT
    }
}

/// The antipodal vector: every component negated, as `0.0 + -x` gives it
/// (so a zero component becomes `+0.0`).
pub open spec fn opposite(v: Vec3Bits) -> Vec3Bits {
    Vec3Bits { x: negated(v.x), y: negated(v.y), z: negated(v.z) }
}

/// Every component equals `0.0`.
pub open spec fn is_zero_vector(v: Vec3Bits) -> bool {
    same_vector(v, Vec3Bits { x: ZERO, y: ZERO, z: ZERO })
}

/// Negating keeps NaN a NaN and moves the value to the mirrored position.
pub proof fn lemma_negated(b: u64)
    ensures
        encodes_nan(negated(b)) == encodes_nan(b),
        position(negated(b)) == -position(b),
{
    assert(0u64 & 0x7FFF_FFFF_FFFF_FFFFu64 == 0) by (bit_vector);
    assert(0u64 & 0x8000_0000_0000_0000u64 == 0) by (bit_vector);
    assert((b ^ 0x8000_0000_0000_0000u64) & 0x7FFF_FFFF_FFFF_FFFFu64 == b
        & 0x7FFF_FFFF_FFFF_FFFFu64) by (bit_vector);
    assert(((b ^ 0x8000_0000_0000_0000u64) & 0x8000_0000_0000_0000u64 != 0) == !(b
        & 0x8000_0000_0000_0000u64 != 0)) by (bit_vector);
    if magnitude(b) != 0 {
        assert(magnitude(negated(b)) == magnitude(b));
        assert(sign_negative(negated(b)) == !sign_negative(b));
    }
}

impl Vec3Bits {
    /// The vector with the given component encodings.
    pub fn new(x: u64, y: u64, z: u64) -> (v: Vec3Bits)
        ensures
            v == (Vec3Bits { x, y, z }),
    {
        Vec3Bits { x, y, z }
    }

    /// The zero vector `(0.0, 0.0, 0.0)`.
    pub fn zero() -> (v: Vec3Bits)
        ensures
            v == (Vec3Bits { x: ZERO, y: ZERO, z: ZERO }),
    {
        Vec3Bits { x: ZERO, y: ZERO, z: ZERO }
    }

    /// `==` on the vectors that `self` and `other` encode.
    pub fn same_as(&self, other: &Vec3Bits) -> (r: bool)
        ensures
            r == same_vector(*self, *other),
    {
        eq(self.x, other.x) && eq(self.y, other.y) && eq(self.z, other.z)
    }

    /// Whether `self` equals the zero vector.
    pub fn is_zero(&self) -> (r: bool)
        ensures
            r == is_zero_vector(*self),
    {
        eq(self.x, ZERO) && eq(self.y, ZERO) && eq(self.z, ZERO)
    }

    /// The unit vector in the direction of `self`, given `scale` (the encoding
    /// of the reciprocal of the norm) and `scaled` (`self` times `scale`):
    /// `self` itself when the scale is `1.0`, `scaled` otherwise.
    pub fn unit(&self, scale: u64, scaled: Vec3Bits) -> (r: Vec3Bits)
        ensures
            r == (if same_value(scale, ONE) {
                *self
            } else {
                scaled
            }),
    {
        if eq(scale, ONE) {
            *self
        } else {
            scaled
        }
    }

    /// The antipodal vector, every component negated (zeros as `+0.0`).
    pub fn antipode(&self) -> (r: Vec3Bits)
        ensures
            r == opposite(*self),
    {
        Vec3Bits { x: negate(self.x), y: negate(self.y), z: negate(self.z) }
    }
}

/// The encoding of `0.0 + -x` where `b` encodes `x` (see `negated`).
pub fn negate(b: u64) -> (r: u64)
    ensures
        r == negated(b),
{
    if b & MAGNITUDE_MASK == 0 {
        ZERO
    } else {
        b ^ SIGN_BIT
    }
}

impl PartialEq for Vec3Bits {
    fn eq(&self, other: &Vec3Bits) -> (r: bool) {
        self.same_as(other)
    }
}

impl PartialEqSpecImpl for Vec3Bits {
    open spec fn obeys_eq_spec() -> bool {
        true
    }

    open spec fn eq_spec(&self, other: &Vec3Bits) -> bool {
        same_vector(*self, *other)
    }
}

/// A 3x3 matrix given by its rows. `==` compares the values row by row.
#[derive(Clone, Copy, Debug)]
pub struct Mat33Bits {
    pub row0: Vec3Bits,
    pub row1: Vec3Bits,
    pub row2: Vec3Bits,
}

/// The transpose: row `i`, column `j` becomes row `j`, column `i`.
pub open spec fn transposed(m: Mat33Bits) -> Mat33Bits {
    Mat33Bits {
        row0: Vec3Bits { x: m.row0.x, y: m.row1.x, z: m.row2.x },
        row1: Vec3Bits { x: m.row0.y, y: m.row1.y, z: m.row2.y },
        row2: Vec3Bits { x: m.row0.z, y: m.row1.z, z: m.row2.z },
    }
}

impl Mat33Bits {
    /// The matrix with the given rows.
    pub fn new(r0: Vec3Bits, r1: Vec3Bits, r2: Vec3Bits) -> (m: Mat33Bits)
        ensures
            m == (Mat33Bits { row0: r0, row1: r1, row2: r2 }),
    {
        Mat33Bits { row0: r0, row1: r1, row2: r2 }
    }

    /// The first row.
    pub fn row0(&self) -> (r: Vec3Bits)
        ensures
            r == self.row0,
    {
        self.row0
    }

    /// The second row.
    pub fn row1(&self) -> (r: Vec3Bits)
        ensures
            r == self.row1,
    {
        self.row1
    }

    /// The third row.
    pub fn row2(&self) -> (r: Vec3Bits)
        ensures
            r == self.row2,
    {
        self.row2
    }

    /// The transpose of this matrix.
    pub fn transpose(&self) -> (t: Mat33Bits)
        ensures
            t == transposed(*self),
    {
        let r0 = self.row0();
        let r1 = self.row1();
        let r2 = self.row2();
        Mat33Bits::new(
            Vec3Bits::new(r0.x, r1.x, r2.x),
            Vec3Bits::new(r0.y, r1.y, r2.y),
            Vec3Bits::new(r0.z, r1.z, r2.z),
        )
    }
}

impl PartialEq for Mat33Bits {
    fn eq(&self, other: &Mat33Bits) -> (r: bool) {
        self.row0.same_as(&other.row0) && self.row1.same_as(&other.row1) && self.row2.same_as(
            &other.row2,
        )
    }
}

impl PartialEqSpecImpl for Mat33Bits {
    open spec fn obeys_eq_spec() -> bool {
        true
    }

    open spec fn eq_spec(&self, other: &Mat33Bits) -> bool {
        same_vector(self.row0, other.row0) && same_vector(self.row1, other.row1) && same_vector(
            self.row2,
            other.row2,
        )
    }
}

/// Transposing twice gives the matrix back.
pub proof fn law_transpose_twice(m: Mat33Bits)
    ensures
        transposed(transposed(m)) == m,
{
}

} // verus!

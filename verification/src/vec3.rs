//! The three-dimensional vector type.
//!
//! This is the most used of the vector structs.  It is used for
//! representing positions in 3D space (vertices, normals, positions).
//! Components are fixed-point scalars.

use vstd::prelude::*;
use vstd::math::abs;
use vstd::string::StringExecFns;
use crate::fixed::{
    fx_mul, fx_mul_ok, fx_mul_spec, fx_div, fx_div_ok, fx_div_spec, isqrt, isqrt_spec,
    lemma_isqrt_bounds, lemma_fx_mul_bound, scalar_to_string, scalar_str_spec, scale_int,
};
use crate::mathf::{Mathf, lerp_spec, lerp_ok, lerp_unclamped_spec, lerp_unclamped_ok};
use crate::vec2::{fits_i64, sep_str};

verus! {

/// The Vec3 struct.
///
/// Components are public; equality is componentwise and exact.
#[derive(Clone, Copy, PartialEq, Eq, Structural)]
pub struct Vec3 {
    /// X-axis coordinate.
    pub x: i64,
    /// Y-axis coordinate.
    pub y: i64,
    /// Z-axis coordinate.
    pub z: i64,
}

impl Vec3 {
    /// The zero vector.
    pub open spec fn zero_spec() -> Vec3 {
        Vec3 { x: 0, y: 0, z: 0 }
    }

    /// Componentwise sum.
    pub open spec fn add_spec(self, rhs: Vec3) -> Vec3 {
        Vec3 {
            x: (self.x + rhs.x) as i64,
            y: (self.y + rhs.y) as i64,
            z: (self.z + rhs.z) as i64,
        }
    }

    /// Componentwise difference.
    pub open spec fn sub_spec(self, rhs: Vec3) -> Vec3 {
        Vec3 {
            x: (self.x - rhs.x) as i64,
            y: (self.y - rhs.y) as i64,
            z: (self.z - rhs.z) as i64,
        }
    }

    /// Componentwise fixed-point product.
    pub open spec fn mul_spec(self, rhs: Vec3) -> Vec3 {
        Vec3 {
            x: fx_mul_spec(self.x as int, rhs.x as int) as i64,
            y: fx_mul_spec(self.y as int, rhs.y as int) as i64,
            z: fx_mul_spec(self.z as int, rhs.z as int) as i64,
        }
    }

    /// Componentwise fixed-point quotient.
    pub open spec fn div_spec(self, rhs: Vec3) -> Vec3 {
        Vec3 {
            x: fx_div_spec(self.x as int, rhs.x as int) as i64,
            y: fx_div_spec(self.y as int, rhs.y as int) as i64,
            z: fx_div_spec(self.z as int, rhs.z as int) as i64,
        }
    }

    /// Every component's sign flipped.
    pub open spec fn neg_spec(self) -> Vec3 {
        Vec3 { x: (-self.x) as i64, y: (-self.y) as i64, z: (-self.z) as i64 }
    }

    /// The right-handed cross product.
    pub open spec fn cross_spec(lhs: Vec3, rhs: Vec3) -> Vec3 {
        Vec3 {
            x: (fx_mul_spec(lhs.y as int, rhs.z as int) - fx_mul_spec(
                lhs.z as int,
                rhs.y as int,
            )) as i64,
            y: (fx_mul_spec(lhs.z as int, rhs.x as int) - fx_mul_spec(
                lhs.x as int,
                rhs.z as int,
            )) as i64,
            z: (fx_mul_spec(lhs.x as int, rhs.y as int) - fx_mul_spec(
                lhs.y as int,
                rhs.x as int,
            )) as i64,
        }
    }

    /// The dot product, as a mathematical integer.
    pub open spec fn dot_spec(lhs: Vec3, rhs: Vec3) -> int {
        fx_mul_spec(lhs.x as int, rhs.x as int) + fx_mul_spec(lhs.y as int, rhs.y as int)
            + fx_mul_spec(lhs.z as int, rhs.z as int)
    }

    /// The sum of the squared components, as a mathematical integer.
    pub open spec fn len2_spec(v: Vec3) -> int {
        v.x * v.x + v.y * v.y + v.z * v.z
    }

    /// The Euclidean length, rounded down to a whole number of units.
    pub open spec fn length_spec(v: Vec3) -> int {
        isqrt_spec(Vec3::len2_spec(v) as nat) as int
    }

    /// The conditions under which the squared length fits the machine.
    pub open spec fn len2_ok(v: Vec3) -> bool {
        &&& v.x > i64::MIN
        &&& v.y > i64::MIN
        &&& v.z > i64::MIN
        &&& Vec3::len2_spec(v) <= u64::MAX
    }

    /// The normalized vector: the zero vector stays the zero vector,
    /// anything else is divided componentwise by its length.
    pub open spec fn normalize_spec(v: Vec3) -> Vec3 {
        if Vec3::length_spec(v) == 0 {
            Vec3::zero_spec()
        } else {
            Vec3 {
                x: fx_div_spec(v.x as int, Vec3::length_spec(v)) as i64,
                y: fx_div_spec(v.y as int, Vec3::length_spec(v)) as i64,
                z: fx_div_spec(v.z as int, Vec3::length_spec(v)) as i64,
            }
        }
    }

    /// The rendering of a vector: components comma-separated in
    /// declaration order.
    pub open spec fn str_spec(v: Vec3) -> Seq<char> {
        scalar_str_spec(v.x as int) + sep_str() + scalar_str_spec(v.y as int) + sep_str()
            + scalar_str_spec(v.z as int)
    }

    /// Formats the vector as a string.
    pub fn to_string(&self) -> (r: String)
        requires
            self.x > i64::MIN,
            self.y > i64::MIN,
            self.z > i64::MIN,
        ensures
            r@ == Vec3::str_spec(*self),
    {
        let mut s: String = scalar_to_string(self.x);
        proof {
            reveal_strlit(", ");
        }
        s.append(", ");
        let ty: String = scalar_to_string(self.y);
        s.append(ty.as_str());
        s.append(", ");
        let tz: String = scalar_to_string(self.z);
        s.append(tz.as_str());
        proof {
            assert(s@ =~= Vec3::str_spec(*self));
        }
        s
    }

    /// Creates a vector with a default value of zero.
    pub fn new() -> (r: Vec3)
        ensures
            r == Vec3::zero_spec(),
    {
        Vec3 { x: 0, y: 0, z: 0 }
    }

    /// Creates a vector with a value of (0, 1, 0).
    pub fn up() -> (r: Vec3)
        ensures
            r.x == 0 && r.y == crate::SCALE && r.z == 0,
    {
        Vec3 { x: 0, y: crate::SCALE, z: 0 }
    }

    /// Creates a vector with a value of (0, -1, 0).
    pub fn down() -> (r: Vec3)
        ensures
            r.x == 0 && r.y == -crate::SCALE && r.z == 0,
    {
        Vec3 { x: 0, y: -crate::SCALE, z: 0 }
    }

    /// Creates a vector with a value of (-1, 0, 0).
    pub fn left() -> (r: Vec3)
        ensures
            r.x == -crate::SCALE && r.y == 0 && r.z == 0,
    {
        Vec3 { x: -crate::SCALE, y: 0, z: 0 }
    }

    /// Creates a vector with a value of (1, 0, 0).
    pub fn right() -> (r: Vec3)
        ensures
            r.x == crate::SCALE && r.y == 0 && r.z == 0,
    {
        Vec3 { x: crate::SCALE, y: 0, z: 0 }
    }

    /// Creates a vector with a value of (0, 0, 1).
    pub fn forward() -> (r: Vec3)
        ensures
            r.x == 0 && r.y == 0 && r.z == crate::SCALE,
    {
        Vec3 { x: 0, y: 0, z: crate::SCALE }
    }

    /// Creates a vector with a value of (0, 0, -1).
    pub fn back() -> (r: Vec3)
        ensures
            r.x == 0 && r.y == 0 && r.z == -crate::SCALE,
    {
        Vec3 { x: 0, y: 0, z: -crate::SCALE }
    }

    /// Returns the cross product of two vectors, by the standard
    /// right-handed formula.
    pub fn cross(lhs: &Vec3, rhs: &Vec3) -> (r: Vec3)
        requires
            fx_mul_ok(lhs.y as int, rhs.z as int),
            fx_mul_ok(lhs.z as int, rhs.y as int),
            fx_mul_ok(lhs.z as int, rhs.x as int),
            fx_mul_ok(lhs.x as int, rhs.z as int),
            fx_mul_ok(lhs.x as int, rhs.y as int),
            fx_mul_ok(lhs.y as int, rhs.x as int),
        ensures
            r == Vec3::cross_spec(*lhs, *rhs),
    {
        proof {
            lemma_fx_mul_bound(lhs.y as int, rhs.z as int);
            lemma_fx_mul_bound(lhs.z as int, rhs.y as int);
            lemma_fx_mul_bound(lhs.z as int, rhs.x as int);
            lemma_fx_mul_bound(lhs.x as int, rhs.z as int);
            lemma_fx_mul_bound(lhs.x as int, rhs.y as int);
            lemma_fx_mul_bound(lhs.y as int, rhs.x as int);
        }
        Vec3 {
            x: fx_mul(lhs.y, rhs.z) - fx_mul(lhs.z, rhs.y),
            y: fx_mul(lhs.z, rhs.x) - fx_mul(lhs.x, rhs.z),
            z: fx_mul(lhs.x, rhs.y) - fx_mul(lhs.y, rhs.x),
        }
    }

    /// Returns the dot product of two vectors.
    pub fn dot(lhs: &Vec3, rhs: &Vec3) -> (r: i64)
        requires
            fx_mul_ok(lhs.x as int, rhs.x as int),
            fx_mul_ok(lhs.y as int, rhs.y as int),
            fx_mul_ok(lhs.z as int, rhs.z as int),
        ensures
            r == Vec3::dot_spec(*lhs, *rhs),
    {
        proof {
            lemma_fx_mul_bound(lhs.x as int, rhs.x as int);
            lemma_fx_mul_bound(lhs.y as int, rhs.y as int);
            lemma_fx_mul_bound(lhs.z as int, rhs.z as int);
        }
        fx_mul(lhs.x, rhs.x) + fx_mul(lhs.y, rhs.y) + fx_mul(lhs.z, rhs.z)
    }

    /// Returns the distance between two vectors.
    pub fn distance(start: &Vec3, end: &Vec3) -> (r: i64)
        requires
            fits_i64(start.x - end.x),
            fits_i64(start.y - end.y),
            fits_i64(start.z - end.z),
            Vec3::len2_ok(start.sub_spec(*end)),
        ensures
            r == Vec3::length_spec(start.sub_spec(*end)),
    {
        let d: Vec3 = Vec3 { x: start.x - end.x, y: start.y - end.y, z: start.z - end.z };
        Vec3::length(&d)
    }

    /// Returns the length of a vector.
    pub fn length(vector: &Vec3) -> (r: i64)
        requires
            Vec3::len2_ok(*vector),
        ensures
            r == Vec3::length_spec(*vector),
            0 <= r <= 4_294_967_295,
    {
        let ax: u64 = if vector.x < 0 { (-vector.x) as u64 } else { vector.x as u64 };
        let ay: u64 = if vector.y < 0 { (-vector.y) as u64 } else { vector.y as u64 };
        let az: u64 = if vector.z < 0 { (-vector.z) as u64 } else { vector.z as u64 };
        proof {
            assert((ax as int) * (ax as int) == vector.x * vector.x) by (nonlinear_arith)
                requires ax == abs(vector.x as int);
            assert((ay as int) * (ay as int) == vector.y * vector.y) by (nonlinear_arith)
                requires ay == abs(vector.y as int);
            assert((az as int) * (az as int) == vector.z * vector.z) by (nonlinear_arith)
                requires az == abs(vector.z as int);
            assert(vector.x * vector.x >= 0) by (nonlinear_arith);
            assert(vector.y * vector.y >= 0) by (nonlinear_arith);
            assert(vector.z * vector.z >= 0) by (nonlinear_arith);
        }
        let q: u64 = ax * ax + ay * ay + az * az;
        let r: u64 = isqrt(q);
        proof {
            lemma_isqrt_bounds(q as nat);
            assert(r as int <= 4_294_967_295) by (nonlinear_arith)
                requires (r as int) * (r as int) <= u64::MAX as int;
        }
        r as i64
    }

    /// Linearly interpolates between two vectors.
    pub fn lerp(start: &Vec3, end: &Vec3, percentage: i64) -> (r: Vec3)
        requires
            lerp_ok(start.x as int, end.x as int, percentage as int),
            lerp_ok(start.y as int, end.y as int, percentage as int),
            lerp_ok(start.z as int, end.z as int, percentage as int),
        ensures
            r.x == lerp_spec(start.x as int, end.x as int, percentage as int),
            r.y == lerp_spec(start.y as int, end.y as int, percentage as int),
            r.z == lerp_spec(start.z as int, end.z as int, percentage as int),
    {
        Vec3 {
            x: Mathf::lerp(start.x, end.x, percentage),
            y: Mathf::lerp(start.y, end.y, percentage),
            z: Mathf::lerp(start.z, end.z, percentage),
        }
    }

    /// Linearly interpolates between two vectors without clamping.
    pub fn lerp_unclamped(start: &Vec3, end: &Vec3, percentage: i64) -> (r: Vec3)
        requires
            lerp_unclamped_ok(start.x as int, end.x as int, percentage as int),
            lerp_unclamped_ok(start.y as int, end.y as int, percentage as int),
            lerp_unclamped_ok(start.z as int, end.z as int, percentage as int),
        ensures
            r.x == lerp_unclamped_spec(start.x as int, end.x as int, percentage as int),
            r.y == lerp_unclamped_spec(start.y as int, end.y as int, percentage as int),
            r.z == lerp_unclamped_spec(start.z as int, end.z as int, percentage as int),
    {
        Vec3 {
            x: Mathf::lerp_unclamped(start.x, end.x, percentage),
            y: Mathf::lerp_unclamped(start.y, end.y, percentage),
            z: Mathf::lerp_unclamped(start.z, end.z, percentage),
        }
    }

    /// Get a normalized vector.  The zero vector stays the zero vector;
    /// any other vector is scaled down to (roughly) unit length.
    pub fn normalize(vector: &Vec3) -> (r: Vec3)
        requires
            Vec3::len2_ok(*vector),
        ensures
            r == Vec3::normalize_spec(*vector),
            Vec3::length_spec(*vector) == 0 ==> r == Vec3::zero_spec(),
            Vec3::length_spec(*vector) > 0 ==> r.x == fx_div_spec(
                vector.x as int,
                Vec3::length_spec(*vector),
            ),
            Vec3::length_spec(*vector) > 0 ==> r.y == fx_div_spec(
                vector.y as int,
                Vec3::length_spec(*vector),
            ),
            Vec3::length_spec(*vector) > 0 ==> r.z == fx_div_spec(
                vector.z as int,
                Vec3::length_spec(*vector),
            ),
            -scale_int() <= r.x <= scale_int(),
            -scale_int() <= r.y <= scale_int(),
            -scale_int() <= r.z <= scale_int(),
    {
        proof {
            assert(vector.x * vector.x >= 0) by (nonlinear_arith);
            assert(vector.y * vector.y >= 0) by (nonlinear_arith);
            assert(vector.z * vector.z >= 0) by (nonlinear_arith);
        }
        let length: i64 = Vec3::length(vector);
        if length != 0 {
            proof {
                crate::fixed::lemma_component_div_ok(
                    vector.x as int,
                    Vec3::len2_spec(*vector),
                    length as int,
                );
                crate::fixed::lemma_component_div_ok(
                    vector.y as int,
                    Vec3::len2_spec(*vector),
                    length as int,
                );
                crate::fixed::lemma_component_div_ok(
                    vector.z as int,
                    Vec3::len2_spec(*vector),
                    length as int,
                );
            }
            return Vec3 {
                x: fx_div(vector.x, length),
                y: fx_div(vector.y, length),
                z: fx_div(vector.z, length),
            };
        }
        proof {
            let q = Vec3::len2_spec(*vector) as nat;
            lemma_isqrt_bounds(q);
            assert((isqrt_spec(q) + 1) * (isqrt_spec(q) + 1) == 1) by (nonlinear_arith)
                requires isqrt_spec(q) == 0;
            assert(vector.x == 0 && vector.y == 0 && vector.z == 0) by (nonlinear_arith)
                requires
                    vector.x * vector.x >= 0,
                    vector.y * vector.y >= 0,
                    vector.z * vector.z >= 0,
                    vector.x * vector.x + vector.y * vector.y + vector.z * vector.z < 1;
        }
        Vec3::new()
    }

    /// Componentwise sum of two vectors.
    pub fn add(self, rhs: Vec3) -> (r: Vec3)
        requires
            fits_i64(self.x + rhs.x),
            fits_i64(self.y + rhs.y),
            fits_i64(self.z + rhs.z),
        ensures
            r == self.add_spec(rhs),
    {
        Vec3 { x: self.x + rhs.x, y: self.y + rhs.y, z: self.z + rhs.z }
    }

    /// Adds a scalar to every component.
    pub fn add_scalar(self, rhs: i64) -> (r: Vec3)
        requires
            fits_i64(self.x + rhs),
            fits_i64(self.y + rhs),
            fits_i64(self.z + rhs),
        ensures
            r.x == self.x + rhs,
            r.y == self.y + rhs,
            r.z == self.z + rhs,
    {
        Vec3 { x: self.x + rhs, y: self.y + rhs, z: self.z + rhs }
    }

    /// Componentwise sum, stored in the receiver.
    pub fn add_assign(&mut self, rhs: Vec3)
        requires
            fits_i64(old(self).x + rhs.x),
            fits_i64(old(self).y + rhs.y),
            fits_i64(old(self).z + rhs.z),
        ensures
            *final(self) == old(self).add_spec(rhs),
    {
        self.x = self.x + rhs.x;
        self.y = self.y + rhs.y;
        self.z = self.z + rhs.z;
    }

    /// Adds a scalar to every component, stored in the receiver.
    pub fn add_assign_scalar(&mut self, rhs: i64)
        requires
            fits_i64(old(self).x + rhs),
            fits_i64(old(self).y + rhs),
            fits_i64(old(self).z + rhs),
        ensures
            final(self).x == old(self).x + rhs,
            final(self).y == old(self).y + rhs,
            final(self).z == old(self).z + rhs,
    {
        self.x = self.x + rhs;
        self.y = self.y + rhs;
        self.z = self.z + rhs;
    }

    /// Componentwise difference of two vectors.
    pub fn sub(self, rhs: Vec3) -> (r: Vec3)
        requires
            fits_i64(self.x - rhs.x),
            fits_i64(self.y - rhs.y),
            fits_i64(self.z - rhs.z),
        ensures
            r == self.sub_spec(rhs),
    {
        Vec3 { x: self.x - rhs.x, y: self.y - rhs.y, z: self.z - rhs.z }
    }

    /// Subtracts a scalar from every component.
    pub fn sub_scalar(self, rhs: i64) -> (r: Vec3)
        requires
            fits_i64(self.x - rhs),
            fits_i64(self.y - rhs),
            fits_i64(self.z - rhs),
        ensures
            r.x == self.x - rhs,
            r.y == self.y - rhs,
            r.z == self.z - rhs,
    {
        Vec3 { x: self.x - rhs, y: self.y - rhs, z: self.z - rhs }
    }

    /// Componentwise difference, stored in the receiver.
    pub fn sub_assign(&mut self, rhs: Vec3)
        requires
            fits_i64(old(self).x - rhs.x),
            fits_i64(old(self).y - rhs.y),
            fits_i64(old(self).z - rhs.z),
        ensures
            *final(self) == old(self).sub_spec(rhs),
    {
        self.x = self.x - rhs.x;
        self.y = self.y - rhs.y;
        self.z = self.z - rhs.z;
    }

    /// Subtracts a scalar from every component, stored in the receiver.
    pub fn sub_assign_scalar(&mut self, rhs: i64)
        requires
            fits_i64(old(self).x - rhs),
            fits_i64(old(self).y - rhs),
            fits_i64(old(self).z - rhs),
        ensures
            final(self).x == old(self).x - rhs,
            final(self).y == old(self).y - rhs,
            final(self).z == old(self).z - rhs,
    {
        self.x = self.x - rhs;
        self.y = self.y - rhs;
        self.z = self.z - rhs;
    }

    /// Flips the sign of every component.
    pub fn neg(self) -> (r: Vec3)
        requires
            self.x > i64::MIN,
            self.y > i64::MIN,
            self.z > i64::MIN,
        ensures
            r == self.neg_spec(),
    {
        Vec3 { x: -self.x, y: -self.y, z: -self.z }
    }

    /// Componentwise fixed-point product of two vectors.
    pub fn mul(self, rhs: Vec3) -> (r: Vec3)
        requires
            fx_mul_ok(self.x as int, rhs.x as int),
            fx_mul_ok(self.y as int, rhs.y as int),
            fx_mul_ok(self.z as int, rhs.z as int),
        ensures
            r == self.mul_spec(rhs),
    {
        Vec3 { x: fx_mul(self.x, rhs.x), y: fx_mul(self.y, rhs.y), z: fx_mul(self.z, rhs.z) }
    }

    /// Scales every component by a scalar.
    pub fn mul_scalar(self, rhs: i64) -> (r: Vec3)
        requires
            fx_mul_ok(self.x as int, rhs as int),
            fx_mul_ok(self.y as int, rhs as int),
            fx_mul_ok(self.z as int, rhs as int),
        ensures
            r.x == fx_mul_spec(self.x as int, rhs as int),
            r.y == fx_mul_spec(self.y as int, rhs as int),
            r.z == fx_mul_spec(self.z as int, rhs as int),
    {
        Vec3 { x: fx_mul(self.x, rhs), y: fx_mul(self.y, rhs), z: fx_mul(self.z, rhs) }
    }

    /// Componentwise fixed-point product, stored in the receiver.
    pub fn mul_assign(&mut self, rhs: Vec3)
        requires
            fx_mul_ok(old(self).x as int, rhs.x as int),
            fx_mul_ok(old(self).y as int, rhs.y as int),
            fx_mul_ok(old(self).z as int, rhs.z as int),
        ensures
            *final(self) == old(self).mul_spec(rhs),
    {
        self.x = fx_mul(self.x, rhs.x);
        self.y = fx_mul(self.y, rhs.y);
        self.z = fx_mul(self.z, rhs.z);
    }

    /// Scales every component by a scalar, stored in the receiver.
    pub fn mul_assign_scalar(&mut self, rhs: i64)
        requires
            fx_mul_ok(old(self).x as int, rhs as int),
            fx_mul_ok(old(self).y as int, rhs as int),
            fx_mul_ok(old(self).z as int, rhs as int),
        ensures
            final(self).x == fx_mul_spec(old(self).x as int, rhs as int),
            final(self).y == fx_mul_spec(old(self).y as int, rhs as int),
            final(self).z == fx_mul_spec(old(self).z as int, rhs as int),
    {
        self.x = fx_mul(self.x, rhs);
        self.y = fx_mul(self.y, rhs);
        self.z = fx_mul(self.z, rhs);
    }

    /// Componentwise fixed-point quotient of two vectors.
    pub fn div(self, rhs: Vec3) -> (r: Vec3)
        requires
            fx_div_ok(self.x as int, rhs.x as int),
            fx_div_ok(self.y as int, rhs.y as int),
            fx_div_ok(self.z as int, rhs.z as int),
        ensures
            r == self.div_spec(rhs),
    {
        Vec3 { x: fx_div(self.x, rhs.x), y: fx_div(self.y, rhs.y), z: fx_div(self.z, rhs.z) }
    }

    /// Divides every component by a scalar.
    pub fn div_scalar(self, rhs: i64) -> (r: Vec3)
        requires
            fx_div_ok(self.x as int, rhs as int),
            fx_div_ok(self.y as int, rhs as int),
            fx_div_ok(self.z as int, rhs as int),
        ensures
            r.x == fx_div_spec(self.x as int, rhs as int),
            r.y == fx_div_spec(self.y as int, rhs as int),
            r.z == fx_div_spec(self.z as int, rhs as int),
    {
        Vec3 { x: fx_div(self.x, rhs), y: fx_div(self.y, rhs), z: fx_div(self.z, rhs) }
    }

    /// Componentwise fixed-point quotient, stored in the receiver.
    pub fn div_assign(&mut self, rhs: Vec3)
        requires
            fx_div_ok(old(self).x as int, rhs.x as int),
            fx_div_ok(old(self).y as int, rhs.y as int),
            fx_div_ok(old(self).z as int, rhs.z as int),
        ensures
            *final(self) == old(self).div_spec(rhs),
    {
        self.x = fx_div(self.x, rhs.x);
        self.y = fx_div(self.y, rhs.y);
        self.z = fx_div(self.z, rhs.z);
    }

    /// Divides every component by a scalar, stored in the receiver.
    pub fn div_assign_scalar(&mut self, rhs: i64)
        requires
            fx_div_ok(old(self).x as int, rhs as int),
            fx_div_ok(old(self).y as int, rhs as int),
            fx_div_ok(old(self).z as int, rhs as int),
        ensures
            final(self).x == fx_div_spec(old(self).x as int, rhs as int),
            final(self).y == fx_div_spec(old(self).y as int, rhs as int),
            final(self).z == fx_div_spec(old(self).z as int, rhs as int),
    {
        self.x = fx_div(self.x, rhs);
        self.y = fx_div(self.y, rhs);
        self.z = fx_div(self.z, rhs);
    }

    /// Indexed component access: component 0 is x, 1 is y, 2 is z.
    /// Any other index is a contract violation.
    pub fn index(&self, index: u8) -> (r: i64)
        requires
            index < 3,
        ensures
            index == 0 ==> r == self.x,
            index == 1 ==> r == self.y,
            index == 2 ==> r == self.z,
    {
        if index == 0 {
            self.x
        } else if index == 1 {
            self.y
        } else {
            self.z
        }
    }

    /// Indexed component update: the mutable counterpart of `index`.
    pub fn set_index(&mut self, index: u8, value: i64)
        requires
            index < 3,
        ensures
            index == 0 ==> *final(self) == (Vec3 { x: value, ..*old(self) }),
            index == 1 ==> *final(self) == (Vec3 { y: value, ..*old(self) }),
            index == 2 ==> *final(self) == (Vec3 { z: value, ..*old(self) }),
    {
        if index == 0 {
            self.x = value;
        } else if index == 1 {
            self.y = value;
        } else {
            self.z = value;
        }
    }
}

/// Normalizing a vector that is not the zero vector gives a vector
/// whose length is one unit (`SCALE`), up to the truncation that the
/// integer square root and the componentwise division force: at most
/// four units short, and long by at most `SCALE` divided by the
/// original length, plus one.  (The zero vector stays the zero vector:
/// see `normalize`.)
pub proof fn lemma_vec3_normalize_unit_length(v: Vec3)
    requires
        Vec3::len2_ok(v),
        Vec3::length_spec(v) >= 1,
    ensures
        crate::SCALE - 4 <= Vec3::length_spec(Vec3::normalize_spec(v)),
        Vec3::length_spec(Vec3::normalize_spec(v)) <= crate::SCALE + scale_int()
            / Vec3::length_spec(v) + 1,
{
    let s = scale_int();
    let q = Vec3::len2_spec(v);
    let len = Vec3::length_spec(v);
    lemma_isqrt_bounds(q as nat);
    assert((len + 1) * (len + 1) == len * len + 2 * len + 1) by (nonlinear_arith);
    let n = Vec3::normalize_spec(v);
    let nx = fx_div_spec(v.x as int, len);
    let ny = fx_div_spec(v.y as int, len);
    let nz = fx_div_spec(v.z as int, len);
    assert(v.x * v.x >= 0) by (nonlinear_arith);
    assert(v.y * v.y >= 0) by (nonlinear_arith);
    assert(v.z * v.z >= 0) by (nonlinear_arith);
    crate::fixed::lemma_component_div_ok(v.x as int, q, len);
    crate::fixed::lemma_component_div_ok(v.y as int, q, len);
    crate::fixed::lemma_component_div_ok(v.z as int, q, len);
    assert(n.x == nx && n.y == ny && n.z == nz);
    let mx = abs(nx) as int;
    let my = abs(ny) as int;
    let mz = abs(nz) as int;
    let ax = abs(v.x as int) as int;
    let ay = abs(v.y as int) as int;
    let az = abs(v.z as int) as int;
    crate::fixed::lemma_fx_div_brackets(v.x as int, len);
    crate::fixed::lemma_fx_div_brackets(v.y as int, len);
    crate::fixed::lemma_fx_div_brackets(v.z as int, len);
    assert(ax * s >= 0) by (nonlinear_arith)
        requires ax >= 0 && s > 0;
    assert(ay * s >= 0) by (nonlinear_arith)
        requires ay >= 0 && s > 0;
    assert(az * s >= 0) by (nonlinear_arith)
        requires az >= 0 && s > 0;

    // Components squared: the magnitudes carry over to the squares.
    crate::fixed::lemma_sq_le(mx * len, ax * s);
    crate::fixed::lemma_sq_lt(ax * s, (mx + 1) * len);
    crate::fixed::lemma_sq_le(my * len, ay * s);
    crate::fixed::lemma_sq_lt(ay * s, (my + 1) * len);
    crate::fixed::lemma_sq_le(mz * len, az * s);
    crate::fixed::lemma_sq_lt(az * s, (mz + 1) * len);
    let qq = mx * mx + my * my + mz * mz;
    assert((mx * len) * (mx * len) == (mx * mx) * (len * len)) by (nonlinear_arith);
    assert((my * len) * (my * len) == (my * my) * (len * len)) by (nonlinear_arith);
    assert((mz * len) * (mz * len) == (mz * mz) * (len * len)) by (nonlinear_arith);
    assert((ax * s) * (ax * s) == (ax * ax) * (s * s)) by (nonlinear_arith);
    assert((ay * s) * (ay * s) == (ay * ay) * (s * s)) by (nonlinear_arith);
    assert((az * s) * (az * s) == (az * az) * (s * s)) by (nonlinear_arith);
    assert(((mx + 1) * len) * ((mx + 1) * len) == ((mx + 1) * (mx + 1)) * (len * len))
        by (nonlinear_arith);
    assert(((my + 1) * len) * ((my + 1) * len) == ((my + 1) * (my + 1)) * (len * len))
        by (nonlinear_arith);
    assert(((mz + 1) * len) * ((mz + 1) * len) == ((mz + 1) * (mz + 1)) * (len * len))
        by (nonlinear_arith);
    assert(ax * ax == v.x * v.x) by (nonlinear_arith)
        requires ax == abs(v.x as int);
    assert(ay * ay == v.y * v.y) by (nonlinear_arith)
        requires ay == abs(v.y as int);
    assert(az * az == v.z * v.z) by (nonlinear_arith)
        requires az == abs(v.z as int);
    assert((mx * mx) * (len * len) + (my * my) * (len * len) + (mz * mz) * (len * len) == qq * (len
        * len)) by (nonlinear_arith)
        requires qq == mx * mx + my * my + mz * mz;
    assert((ax * ax) * (s * s) + (ay * ay) * (s * s) + (az * az) * (s * s) == q * (s * s))
        by (nonlinear_arith)
        requires q == ax * ax + ay * ay + az * az;
    assert(qq * (len * len) <= q * (s * s));

    // The normalized vector's squared length is exactly `qq`.
    assert(nx * nx == mx * mx) by (nonlinear_arith)
        requires mx == abs(nx);
    assert(ny * ny == my * my) by (nonlinear_arith)
        requires my == abs(ny);
    assert(nz * nz == mz * mz) by (nonlinear_arith)
        requires mz == abs(nz);
    assert(Vec3::len2_spec(n) == qq);
    let big = Vec3::length_spec(n);
    lemma_isqrt_bounds(qq as nat);

    // Upper bound: `qq` stays under `(s + s / len + 2)` squared.
    let b = s / len;
    vstd::arithmetic::div_mod::lemma_div_pos_is_pos(s, len);
    vstd::arithmetic::div_mod::lemma_fundamental_div_mod(s, len);
    vstd::arithmetic::div_mod::lemma_mod_bound(s, len);
    assert(len * b >= s - len + 1);
    let t = s + b + 2;
    vstd::arithmetic::mul::lemma_mul_inequality(q, len * len + 2 * len, s * s);
    assert((len * len + 2 * len) * (s * s) < (t * len) * (t * len)) by (nonlinear_arith)
        requires
            len >= 1,
            b >= 0,
            len * b >= s - len + 1,
            s == 1_000_000,
            t == s + b + 2;
    assert((t * len) * (t * len) == (t * t) * (len * len)) by (nonlinear_arith);
    assert(qq < t * t) by (nonlinear_arith)
        requires
            qq * (len * len) < (t * t) * (len * len),
            len >= 1;
    crate::fixed::lemma_sq_reflect(big, t);

    // Lower bound: `qq` stays above `(s - 4)` squared.
    assert(((mx + 1) * (mx + 1)) * (len * len) + ((my + 1) * (my + 1)) * (len * len) + ((mz + 1)
        * (mz + 1)) * (len * len) == ((mx + 1) * (mx + 1) + (my + 1) * (my + 1) + (mz + 1) * (mz
        + 1)) * (len * len)) by (nonlinear_arith);
    vstd::arithmetic::mul::lemma_mul_inequality(len * len, q, s * s);
    assert((mx + 1) * (mx + 1) + (my + 1) * (my + 1) + (mz + 1) * (mz + 1) > s * s)
        by (nonlinear_arith)
        requires
            ((mx + 1) * (mx + 1) + (my + 1) * (my + 1) + (mz + 1) * (mz + 1)) * (len * len) > (s
                * s) * (len * len),
            len >= 1;
    assert((mx + 1) * (mx + 1) + (my + 1) * (my + 1) + (mz + 1) * (mz + 1) == qq + 2 * mx + 2 * my
        + 2 * mz + 3) by (nonlinear_arith)
        requires qq == mx * mx + my * my + mz * mz;
    assert(mx <= s && my <= s && mz <= s);
    assert(qq >= s * s - 6 * s - 2);
    assert((s - 4) * (s - 4) <= qq) by (nonlinear_arith)
        requires
            qq >= s * s - 6 * s - 2,
            s == 1_000_000;
    crate::fixed::lemma_sq_reflect(s - 4, big + 1);
}

/// The dot product does not care about operand order.
pub proof fn lemma_vec3_dot_comm(a: Vec3, b: Vec3)
    ensures
        Vec3::dot_spec(a, b) == Vec3::dot_spec(b, a),
{
    crate::fixed::lemma_fx_mul_comm(a.x as int, b.x as int);
    crate::fixed::lemma_fx_mul_comm(a.y as int, b.y as int);
    crate::fixed::lemma_fx_mul_comm(a.z as int, b.z as int);
}

/// The cross product of a vector with itself is the zero vector.
pub proof fn lemma_vec3_cross_self(a: Vec3)
    ensures
        Vec3::cross_spec(a, a) == Vec3::zero_spec(),
{
    crate::fixed::lemma_fx_mul_comm(a.y as int, a.z as int);
    crate::fixed::lemma_fx_mul_comm(a.z as int, a.x as int);
    crate::fixed::lemma_fx_mul_comm(a.x as int, a.y as int);
}

/// Adding a vector and then subtracting it again gives the original
/// vector back exactly.
pub proof fn lemma_vec3_add_then_sub(a: Vec3, b: Vec3)
    requires
        fits_i64(a.x + b.x),
        fits_i64(a.y + b.y),
        fits_i64(a.z + b.z),
    ensures
        a.add_spec(b).sub_spec(b) == a,
{
}

/// Scaling by one (that is, `SCALE`) changes nothing.
pub proof fn lemma_vec3_mul_one(a: Vec3)
    ensures
        a.mul_spec(Vec3 { x: crate::SCALE, y: crate::SCALE, z: crate::SCALE }) == a,
{
    crate::fixed::lemma_fx_mul_one(a.x as int);
    crate::fixed::lemma_fx_mul_one(a.y as int);
    crate::fixed::lemma_fx_mul_one(a.z as int);
}

/// Negating twice gives the original vector back exactly.
pub proof fn lemma_vec3_neg_neg(a: Vec3)
    requires
        a.x > i64::MIN,
        a.y > i64::MIN,
        a.z > i64::MIN,
    ensures
        a.neg_spec().neg_spec() == a,
{
}

} // verus!

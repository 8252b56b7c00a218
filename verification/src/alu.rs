//! Fixed-point arithmetic primitives for the correction datapath.
//!
//! All scalars are Q16.16: a signed 32-bit register holding `value * 2^16`.
//! The multiplier widens to 64 bits, shifts right by 16 (toward negative
//! infinity, as an arithmetic shift does), and narrows back to 32 bits with
//! silent two's-complement truncation. Addition is plain 32-bit signed
//! addition with wraparound. These policies are deliberate: they are the
//! bit-exact behaviour of the synchronous datapath, not a rounding choice.

use vstd::prelude::*;
use vstd::arithmetic::div_mod::{
    lemma_fundamental_div_mod, lemma_fundamental_div_mod_converse, lemma_mod_multiples_vanish,
};
use crate::types::{Matrix3x3, Vector3};

verus! {

/// Q16.16 fixed-point scalar: a signed 32-bit value holding `real * 65536`.
pub type Fixed32 = i32;

/// The unique value congruent to `x` modulo `2^32` that a signed 32-bit
/// register can hold, i.e. two's-complement truncation of a wide result.
pub open spec fn fixed_wrap(x: int) -> Fixed32 {
    ((((x + 0x8000_0000) % 0x1_0000_0000) - 0x8000_0000) as i32)
}

/// What the fixed-point multiplier computes: the exact 64-bit product,
/// shifted right by 16 with floor semantics, truncated to 32 bits.
pub open spec fn spec_fixed_mul(a: Fixed32, b: Fixed32) -> Fixed32 {
    fixed_wrap((a as int * b as int) / 0x10000)
}

/// What the fixed-point adder computes: 32-bit signed wraparound addition.
pub open spec fn spec_fixed_add(a: Fixed32, b: Fixed32) -> Fixed32 {
    fixed_wrap(a as int + b as int)
}

/// `fixed_wrap` is the identity on values already in the 32-bit range.
pub proof fn lemma_fixed_wrap_in_range(x: int)
    requires
        -0x8000_0000 <= x < 0x8000_0000,
    ensures
        fixed_wrap(x) == x,
{
    lemma_fundamental_div_mod_converse(x + 0x8000_0000, 0x1_0000_0000, 0, x + 0x8000_0000);
}

/// `fixed_wrap` only depends on the argument's residue modulo `2^32`.
pub proof fn lemma_fixed_wrap_congruent(x: int, k: int)
    ensures
        fixed_wrap(x + k * 0x1_0000_0000) == fixed_wrap(x),
{
    lemma_mod_multiples_vanish(k, x + 0x8000_0000, 0x1_0000_0000);
    assert(x + k * 0x1_0000_0000 + 0x8000_0000 == 0x1_0000_0000 * k + (x + 0x8000_0000));
}

/// Wrapping a value, adding to it, and wrapping again is the same as
/// wrapping the exact sum: truncation hazards compose additively.
pub proof fn lemma_fixed_wrap_absorb(x: int, y: int)
    ensures
        fixed_wrap(fixed_wrap(x) + y) == fixed_wrap(x + y),
{
    lemma_fundamental_div_mod(x + 0x8000_0000, 0x1_0000_0000);
    let q = (x + 0x8000_0000) / 0x1_0000_0000;
    assert(fixed_wrap(x) + y == (x + y) + (-q) * 0x1_0000_0000);
    lemma_fixed_wrap_congruent(x + y, -q);
}

/// Narrow a wide signed intermediate to a 32-bit register with silent
/// two's-complement truncation.
fn narrow_to_fixed(x: i64) -> (r: Fixed32)
    requires
        i64::MIN < x,
    ensures
        r == fixed_wrap(x as int),
{
    let m: u64 = if x >= 0 {
        (x as u64) % 0x1_0000_0000
    } else {
        let mag: u64 = (-x) as u64;
        let rm: u64 = mag % 0x1_0000_0000;
        proof {
            lemma_fundamental_div_mod(mag as int, 0x1_0000_0000);
            if rm == 0 {
                lemma_fundamental_div_mod_converse(
                    x as int,
                    0x1_0000_0000,
                    -(mag as int / 0x1_0000_0000),
                    0,
                );
            } else {
                lemma_fundamental_div_mod_converse(
                    x as int,
                    0x1_0000_0000,
                    -(mag as int / 0x1_0000_0000) - 1,
                    0x1_0000_0000 - rm as int,
                );
            }
        }
        if rm == 0 {
            0
        } else {
            0x1_0000_0000 - rm
        }
    };
    assert(m as int == (x as int) % 0x1_0000_0000);
    proof {
        lemma_fundamental_div_mod(x as int, 0x1_0000_0000);
        let j = (x as int) / 0x1_0000_0000;
        if m < 0x8000_0000 {
            lemma_fundamental_div_mod_converse(
                x as int + 0x8000_0000,
                0x1_0000_0000,
                j,
                m as int + 0x8000_0000,
            );
        } else {
            lemma_fundamental_div_mod_converse(
                x as int + 0x8000_0000,
                0x1_0000_0000,
                j + 1,
                m as int - 0x8000_0000,
            );
        }
    }
    if m >= 0x8000_0000 {
        ((m as i64) - 0x1_0000_0000) as i32
    } else {
        m as i32
    }
}

/// Shift a wide signed product right by 16 bits, rounding toward negative
/// infinity (the behaviour of an arithmetic right shift).
fn arithmetic_shift_right_16(x: i64) -> (r: i64)
    requires
        -0x4000_0000_0000_0000 <= x <= 0x4000_0000_0000_0000,
    ensures
        r == (x as int) / 0x10000,
{
    if x >= 0 {
        let q: u64 = (x as u64) / 0x10000;
        q as i64
    } else {
        let mag: u64 = (-x) as u64;
        let q: u64 = (mag - 1) / 0x10000 + 1;
        proof {
            lemma_fundamental_div_mod((mag - 1) as int, 0x10000);
            let qm = (mag - 1) as int / 0x10000;
            let rm = (mag - 1) as int % 0x10000;
            lemma_fundamental_div_mod_converse(
                x as int,
                0x10000,
                -(qm + 1),
                0x10000 - 1 - rm,
            );
        }
        -(q as i64)
    }
}

/// Q16.16 multiply: widen both operands to 64-bit signed, take the exact
/// product, arithmetic-shift right by 16, and narrow to 32 bits with
/// silent truncation.
pub fn fixed_mul(a: Fixed32, b: Fixed32) -> (r: Fixed32)
    ensures
        r == spec_fixed_mul(a, b),
{
    proof {
        let ai = a as int;
        let bi = b as int;
        assert(-0x4000_0000_0000_0000 <= ai * bi <= 0x4000_0000_0000_0000) by (nonlinear_arith)
            requires
                -0x8000_0000 <= ai < 0x8000_0000,
                -0x8000_0000 <= bi < 0x8000_0000,
        ;
    }
    let wide: i64 = (a as i64) * (b as i64);
    let shifted: i64 = arithmetic_shift_right_16(wide);
    narrow_to_fixed(shifted)
}

/// 32-bit signed wraparound addition, the adder of the datapath.
pub fn fixed_add(a: Fixed32, b: Fixed32) -> (r: Fixed32)
    ensures
        r == spec_fixed_add(a, b),
{
    let r = a.wrapping_add(b);
    proof {
        let s = a as int + b as int;
        if s > i32::MAX {
            lemma_fixed_wrap_congruent(s - 0x1_0000_0000, 1);
            lemma_fixed_wrap_in_range(s - 0x1_0000_0000);
        } else if s < i32::MIN {
            lemma_fixed_wrap_congruent(s, 1);
            lemma_fixed_wrap_in_range(s + 0x1_0000_0000);
        } else {
            lemma_fixed_wrap_in_range(s);
        }
    }
    r
}

/// Componentwise wraparound addition of two fixed-point vectors.
pub open spec fn spec_vector_add(v1: Vector3, v2: Vector3) -> Vector3 {
    Vector3 {
        x: spec_fixed_add(v1.x, v2.x),
        y: spec_fixed_add(v1.y, v2.y),
        z: spec_fixed_add(v1.z, v2.z),
    }
}

/// One output axis of the matrix-vector product: the wrapped sum of three
/// fixed-point multiplies.
pub open spec fn spec_dot_row(r0: Fixed32, r1: Fixed32, r2: Fixed32, v: Vector3) -> Fixed32 {
    fixed_wrap(
        spec_fixed_mul(r0, v.x) as int + spec_fixed_mul(r1, v.y) as int
            + spec_fixed_mul(r2, v.z) as int,
    )
}

/// The fixed-point matrix-vector product, axis by axis. Truncation and
/// wraparound hazards of the scalar primitives propagate additively.
pub open spec fn spec_matrix_vector_mult(m: Matrix3x3, v: Vector3) -> Vector3 {
    Vector3 {
        x: spec_dot_row(m.rows[0][0], m.rows[0][1], m.rows[0][2], v),
        y: spec_dot_row(m.rows[1][0], m.rows[1][1], m.rows[1][2], v),
        z: spec_dot_row(m.rows[2][0], m.rows[2][1], m.rows[2][2], v),
    }
}

/// Componentwise vector addition on the datapath's adders.
pub fn vector_add(v1: Vector3, v2: Vector3) -> (r: Vector3)
    ensures
        r == spec_vector_add(v1, v2),
{
    Vector3 {
        x: fixed_add(v1.x, v2.x),
        y: fixed_add(v1.y, v2.y),
        z: fixed_add(v1.z, v2.z),
    }
}

/// One axis of the matrix-vector product: two chained wraparound adds over
/// three fixed-point multiplies.
fn dot_row(r0: Fixed32, r1: Fixed32, r2: Fixed32, v: Vector3) -> (r: Fixed32)
    ensures
        r == spec_dot_row(r0, r1, r2, v),
{
    let m0 = fixed_mul(r0, v.x);
    let m1 = fixed_mul(r1, v.y);
    let m2 = fixed_mul(r2, v.z);
    let r = fixed_add(fixed_add(m0, m1), m2);
    proof {
        lemma_fixed_wrap_absorb(m0 as int + m1 as int, m2 as int);
    }
    r
}

/// Fixed-point matrix-vector product: each output axis is the sum of three
/// fixed-point multiplies.
pub fn matrix_vector_mult(m: Matrix3x3, v: Vector3) -> (r: Vector3)
    ensures
        r == spec_matrix_vector_mult(m, v),
{
    let x = dot_row(m.rows[0][0], m.rows[0][1], m.rows[0][2], v);
    let y = dot_row(m.rows[1][0], m.rows[1][1], m.rows[1][2], v);
    let z = dot_row(m.rows[2][0], m.rows[2][1], m.rows[2][2], v);
    Vector3 { x, y, z }
}

/// Saturating narrowing of a wide scaled value to a Q16.16 register: the
/// clamping half of the float-to-fixed conversion. The second component
/// reports whether the value was clamped, so that callers can count silent
/// precision loss.
pub fn clamp_to_fixed(scaled: i64) -> (r: (Fixed32, bool))
    ensures
        r.0 == (if scaled > i32::MAX as i64 {
            i32::MAX
        } else if scaled < i32::MIN as i64 {
            i32::MIN
        } else {
            scaled as i32
        }),
        r.1 == (scaled > i32::MAX as i64 || scaled < i32::MIN as i64),
{
    if scaled > i32::MAX as i64 {
        (i32::MAX, true)
    } else if scaled < i32::MIN as i64 {
        (i32::MIN, true)
    } else {
        (scaled as i32, false)
    }
}

} // verus!

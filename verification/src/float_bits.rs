//! Ordering of floats held as their IEEE-754 bit patterns.
//!
//! Game times are `f32` values; this library carries them as the `u32` that
//! `f32::to_bits` gives, and compares them as IEEE-754 does: NaN is
//! unordered, `-0` equals `+0`, and otherwise the order is that of the
//! sign-and-magnitude value.
use vstd::prelude::*;

verus! {

/// The exponent-and-mantissa part of a bit pattern.
pub open spec fn magnitude(b: u32) -> u32 {
    b & 0x7fff_ffff
}

/// Whether a bit pattern is a NaN.
pub open spec fn is_nan(b: u32) -> bool {
    magnitude(b) > 0x7f80_0000
}

/// A number with the order of the float that `b` encodes (NaN aside).
pub open spec fn order_key(b: u32) -> int {
    if b >> 31u32 == 0 {
        magnitude(b) as int
    } else {
        -(magnitude(b) as int)
    }
}

/// `a < b` on the floats that the patterns encode.
pub open spec fn lt(a: u32, b: u32) -> bool {
    !is_nan(a) && !is_nan(b) && order_key(a) < order_key(b)
}

/// `a <= b` on the floats that the patterns encode.
pub open spec fn le(a: u32, b: u32) -> bool {
    !is_nan(a) && !is_nan(b) && order_key(a) <= order_key(b)
}

fn key(b: u32) -> (k: i64)
    ensures
        k == order_key(b),
{
    let m = b & 0x7fff_ffff;
    if b >> 31u32 == 0 {
        m as i64
    } else {
        -(m as i64)
    }
}

/// `a < b` as `f32` comparison does it.
pub fn f32_lt(a: u32, b: u32) -> (r: bool)
    ensures
        r == lt(a, b),
{
    let ma = a & 0x7fff_ffff;
    let mb = b & 0x7fff_ffff;
    if ma > 0x7f80_0000 || mb > 0x7f80_0000 {
        return false;
    }
    key(a) < key(b)
}

/// `a <= b` as `f32` comparison does it.
pub fn f32_le(a: u32, b: u32) -> (r: bool)
    ensures
        r == le(a, b),
{
    let ma = a & 0x7fff_ffff;
    let mb = b & 0x7fff_ffff;
    if ma > 0x7f80_0000 || mb > 0x7f80_0000 {
        return false;
    }
    key(a) <= key(b)
}

/// `f32` comparison is a strict order on the values it orders: no pattern
/// is below itself, and `<` is transitive.
pub proof fn lemma_lt_strict_order(a: u32, b: u32, c: u32)
    ensures
        !lt(a, a),
        lt(a, b) && lt(b, c) ==> lt(a, c),
        lt(a, b) ==> !lt(b, a),
{
}


/// The exponent-and-mantissa part of a double's bit pattern.
pub open spec fn magnitude64(b: u64) -> u64 {
    b & 0x7fff_ffff_ffff_ffff
}

/// Whether a double's bit pattern is a NaN.
pub open spec fn is_nan64(b: u64) -> bool {
    magnitude64(b) > 0x7ff0_0000_0000_0000
}

/// A number with the order of the double that `b` encodes (NaN aside).
pub open spec fn order_key64(b: u64) -> int {
    if b >> 63u64 == 0 {
        magnitude64(b) as int
    } else {
        -(magnitude64(b) as int)
    }
}

/// `a <= b` on the doubles that the patterns encode.
pub open spec fn le64(a: u64, b: u64) -> bool {
    !is_nan64(a) && !is_nan64(b) && order_key64(a) <= order_key64(b)
}

fn key64(b: u64) -> (k: i128)
    ensures
        k == order_key64(b),
{
    let m = b & 0x7fff_ffff_ffff_ffff;
    if b >> 63u64 == 0 {
        m as i128
    } else {
        -(m as i128)
    }
}

/// `a <= b` as `f64` comparison does it.
pub fn f64_le(a: u64, b: u64) -> (r: bool)
    ensures
        r == le64(a, b),
{
    let ma = a & 0x7fff_ffff_ffff_ffff;
    let mb = b & 0x7fff_ffff_ffff_ffff;
    if ma > 0x7ff0_0000_0000_0000 || mb > 0x7ff0_0000_0000_0000 {
        return false;
    }
    key64(a) <= key64(b)
}

} // verus!

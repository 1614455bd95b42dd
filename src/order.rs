use vstd::prelude::*;

verus! {

/// Sign bit of an IEEE-754 binary64 pattern.
pub const SIGN64: u64 = 0x8000_0000_0000_0000;

/// Pattern of binary64 positive infinity: the largest magnitude that is not a NaN.
pub const INF64: u64 = 0x7ff0_0000_0000_0000;

/// Sign bit of an IEEE-754 binary32 pattern.
pub const SIGN32: u32 = 0x8000_0000;

/// Pattern of binary32 positive infinity.
pub const INF32: u32 = 0x7f80_0000;

/// Whether a pattern of `sign` as sign bit has the sign bit set.
pub open spec fn negative(b: int, sign: int) -> bool {
    b >= sign
}

/// The pattern without its sign bit. For IEEE-754 formats this number grows
/// with the absolute value of the encoded number.
pub open spec fn magnitude(b: int, sign: int) -> int {
    if b >= sign {
        b - sign
    } else {
        b
    }
}

/// A pattern whose magnitude lies above infinity's encodes a NaN.
pub open spec fn nan(b: int, sign: int, inf: int) -> bool {
    magnitude(b, sign) > inf
}

/// `a < b` on the numbers that two patterns encode, as IEEE-754 orders them:
/// false where either is a NaN, and `-0 < +0` is false.
pub open spec fn ieee_lt(a: int, b: int, sign: int, inf: int) -> bool {
    &&& !nan(a, sign, inf)
    &&& !nan(b, sign, inf)
    &&& if !negative(a, sign) && !negative(b, sign) {
        magnitude(a, sign) < magnitude(b, sign)
    } else if negative(a, sign) && negative(b, sign) {
        magnitude(b, sign) < magnitude(a, sign)
    } else if negative(a, sign) {
        !(magnitude(a, sign) == 0 && magnitude(b, sign) == 0)
    } else {
        false
    }
}

/// `a <= b` on the encoded numbers: false where either is a NaN.
pub open spec fn ieee_le(a: int, b: int, sign: int, inf: int) -> bool {
    &&& !nan(a, sign, inf)
    &&& !nan(b, sign, inf)
    &&& !ieee_lt(b, a, sign, inf)
}

/// Whether a binary64 pattern encodes a NaN.
pub open spec fn nan64(b: u64) -> bool {
    nan(b as int, SIGN64 as int, INF64 as int)
}

/// `a < b` on binary64 patterns.
pub open spec fn lt64(a: u64, b: u64) -> bool {
    ieee_lt(a as int, b as int, SIGN64 as int, INF64 as int)
}

/// `a <= b` on binary64 patterns.
pub open spec fn le64(a: u64, b: u64) -> bool {
    ieee_le(a as int, b as int, SIGN64 as int, INF64 as int)
}

/// Whether a binary32 pattern encodes a NaN.
pub open spec fn nan32(b: u32) -> bool {
    nan(b as int, SIGN32 as int, INF32 as int)
}

/// `a < b` on binary32 patterns.
pub open spec fn lt32(a: u32, b: u32) -> bool {
    ieee_lt(a as int, b as int, SIGN32 as int, INF32 as int)
}

/// `a <= b` on binary32 patterns.
pub open spec fn le32(a: u32, b: u32) -> bool {
    ieee_le(a as int, b as int, SIGN32 as int, INF32 as int)
}

/// `a < b` on two binary64 patterns, as the `<` of IEEE-754 decides it.
pub fn binary64_lt(a: u64, b: u64) -> (r: bool)
    ensures
        r == lt64(a, b),
{
    let ma: u64 = if a >= SIGN64 { a - SIGN64 } else { a };
    let mb: u64 = if b >= SIGN64 { b - SIGN64 } else { b };
    if ma > INF64 || mb > INF64 {
        false
    } else if a < SIGN64 && b < SIGN64 {
        ma < mb
    } else if a >= SIGN64 && b >= SIGN64 {
        mb < ma
    } else if a >= SIGN64 {
        !(ma == 0 && mb == 0)
    } else {
        false
    }
}

/// `a <= b` on two binary64 patterns, as the `<=` of IEEE-754 decides it.
pub fn binary64_le(a: u64, b: u64) -> (r: bool)
    ensures
        r == le64(a, b),
{
    let ma: u64 = if a >= SIGN64 { a - SIGN64 } else { a };
    let mb: u64 = if b >= SIGN64 { b - SIGN64 } else { b };
    if ma > INF64 || mb > INF64 {
        false
    } else {
        !binary64_lt(b, a)
    }
}

/// `a < b` on two binary32 patterns, as the `<` of IEEE-754 decides it.
pub fn binary32_lt(a: u32, b: u32) -> (r: bool)
    ensures
        r == lt32(a, b),
{
    let ma: u32 = if a >= SIGN32 { a - SIGN32 } else { a };
    let mb: u32 = if b >= SIGN32 { b - SIGN32 } else { b };
    if ma > INF32 || mb > INF32 {
        false
    } else if a < SIGN32 && b < SIGN32 {
        ma < mb
    } else if a >= SIGN32 && b >= SIGN32 {
        mb < ma
    } else if a >= SIGN32 {
        !(ma == 0 && mb == 0)
    } else {
        false
    }
}

/// `a <= b` on two binary32 patterns, as the `<=` of IEEE-754 decides it.
pub fn binary32_le(a: u32, b: u32) -> (r: bool)
    ensures
        r == le32(a, b),
{
    let ma: u32 = if a >= SIGN32 { a - SIGN32 } else { a };
    let mb: u32 = if b >= SIGN32 { b - SIGN32 } else { b };
    if ma > INF32 || mb > INF32 {
        false
    } else {
        !binary32_lt(b, a)
    }
}

} // verus!

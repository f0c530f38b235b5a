//! Floating-point and integer-divide kernels.
//!
//! These reproduce the exact bit patterns of the original RISC hardware:
//! 32-bit sign/exponent/mantissa values with no NaNs and no denormals,
//! non-standard rounding, and a bit-serial restoring integer divide.
//! Guest code depends on these quirks, so the specification is the
//! documented bit-level algorithm itself, not IEEE arithmetic.
use vstd::prelude::*;

verus! {

/// Quotient and remainder of the bit-serial integer divide.
#[derive(Debug, Clone, Copy)]
pub struct IDiv {
    pub quot: u32,
    pub rem: u32,
}

/// Exponent and signed mantissa extracted from the left operand of an
/// addition: a 25-bit mantissa with the implicit leading 1, shifted left
/// once, negated when the sign bit is set. With `u` the operand is instead
/// a 24-bit signed integer given the fixed exponent 150 (the
/// integer-to-float pathway).
pub open spec fn fp_add_x_parts(x: u32, u: bool) -> (u32, i32) {
    let xs = (x & 0x8000_0000) != 0;
    if !u {
        let xe = (x >> 23) & 0xFF;
        let xm = ((x & 0x007F_FFFF) << 1) | 0x0100_0000;
        let x0 = if xs {
            (-(xm as int)) as i32
        } else {
            xm as i32
        };
        (xe, x0)
    } else {
        (150u32, (((x & 0x00FF_FFFF) as i32) << 8) >> 7)
    }
}

/// The same extraction for the right operand; the implicit mantissa bit is
/// only set on the plain float pathway (neither `u` nor `v`).
pub open spec fn fp_add_y_parts(y: u32, u: bool, v: bool) -> (u32, i32) {
    let ys = (y & 0x8000_0000) != 0;
    let ye = (y >> 23) & 0xFF;
    let ym0 = (y & 0x007F_FFFF) << 1;
    let ym = if !u && !v {
        ym0 | 0x0100_0000
    } else {
        ym0
    };
    let y0 = if ys {
        (-(ym as int)) as i32
    } else {
        ym as i32
    };
    (ye, y0)
}

/// Aligns the operand with the smaller exponent by an arithmetic right
/// shift, saturating the shift amount at 31.
pub open spec fn fp_add_aligned(xe: u32, x0: i32, ye: u32, y0: i32) -> (u32, i32, i32) {
    if ye > xe {
        let shift = (ye - xe) as u32;
        let x3 = if shift > 31 {
            x0 >> 31u32
        } else {
            x0 >> shift
        };
        (ye, x3, y0)
    } else {
        let shift = (xe - ye) as u32;
        let y3 = if shift > 31 {
            y0 >> 31u32
        } else {
            y0 >> shift
        };
        (xe, x0, y3)
    }
}

/// The 27-bit carry-safe sum of the aligned mantissas.
pub open spec fn fp_add_sum(xs: bool, ys: bool, x3: i32, y3: i32) -> u32 {
    let xs_u = if xs {
        1u32
    } else {
        0u32
    };
    let ys_u = if ys {
        1u32
    } else {
        0u32
    };
    ((xs_u << 26) | (xs_u << 25) | ((x3 as u32) & 0x01FF_FFFF)).wrapping_add(
        (ys_u << 26) | (ys_u << 25) | ((y3 as u32) & 0x01FF_FFFF),
    )
}

/// Shifts `t3` left until its bit 24 is set, decrementing the exponent each
/// step. At most 24 steps are ever taken on reachable inputs; the explicit
/// fuel makes the definition total and gives the loop its termination
/// measure.
pub open spec fn fp_norm(t3: u32, e1: u32, fuel: nat) -> (u32, u32)
    decreases fuel,
{
    if fuel == 0 || (t3 & 0x0100_0000) != 0 {
        (t3, e1)
    } else {
        fp_norm(t3 << 1, e1.wrapping_sub(1), (fuel - 1) as nat)
    }
}

/// Normalized mantissa and exponent: if any bit of `s & 0x03FF_FFFC` is
/// set, shift left while the top bit is clear; otherwise shift left by 24
/// and lower the exponent by 24.
pub open spec fn fp_add_normed(s: u32, e0: u32) -> (u32, u32) {
    let e1 = e0.wrapping_add(1);
    let t3 = s >> 1;
    if s & 0x03FF_FFFC != 0 {
        fp_norm(t3, e1, 32)
    } else {
        (t3 << 24, e1.wrapping_sub(24))
    }
}

/// The result of the floating-point add unit on operands `x` and `y`, with
/// `u` selecting the integer-to-float pathway and `v` the float-to-integer
/// truncation.
pub open spec fn fp_add_model(x: u32, y: u32, u: bool, v: bool) -> u32 {
    let xs = (x & 0x8000_0000) != 0;
    let ys = (y & 0x8000_0000) != 0;
    let (xe, x0) = fp_add_x_parts(x, u);
    let (ye, y0) = fp_add_y_parts(y, u, v);
    let (e0, x3, y3) = fp_add_aligned(xe, x0, ye, y0);
    let sum = fp_add_sum(xs, ys, x3, y3);
    let s = (if (sum & 0x0400_0000) != 0 {
        (0u32).wrapping_sub(sum)
    } else {
        sum
    }).wrapping_add(1) & 0x07FF_FFFF;
    let (t3, e1) = fp_add_normed(s, e0);
    let xn = (x & 0x7FFF_FFFF) == 0;
    let yn = (y & 0x7FFF_FFFF) == 0;
    if v {
        (((sum << 5) as i32) >> 6u32) as u32
    } else if xn {
        if u || yn {
            0u32
        } else {
            y
        }
    } else if yn {
        x
    } else if (t3 & 0x01FF_FFFF) == 0 || (e1 & 0x100) != 0 {
        0u32
    } else {
        ((sum & 0x0400_0000) << 5) | (e1 << 23) | ((t3 >> 1) & 0x007F_FFFF)
    }
}

/// Floating-point add; subtraction is this with the sign of `y` flipped.
pub fn fp_add(x: u32, y: u32, u: bool, v: bool) -> (r: u32)
    ensures
        r == fp_add_model(x, y, u, v),
{
    let xs = (x & 0x8000_0000) != 0;
    let ys = (y & 0x8000_0000) != 0;

    let xe: u32;
    let x0: i32;
    if !u {
        xe = (x >> 23) & 0xFF;
        let xm = ((x & 0x007F_FFFF) << 1) | 0x0100_0000;
        assert(xm <= 0x01FF_FFFF) by (bit_vector)
            requires
                xm == ((x & 0x007F_FFFF) << 1) | 0x0100_0000,
        ;
        x0 = if xs {
            -(xm as i32)
        } else {
            xm as i32
        };
    } else {
        xe = 150;
        x0 = (((x & 0x00FF_FFFF) as i32) << 8) >> 7u32;
    }
    assert((xe, x0) == fp_add_x_parts(x, u));

    let ye = (y >> 23) & 0xFF;
    let mut ym = (y & 0x007F_FFFF) << 1;
    if !u && !v {
        ym = ym | 0x0100_0000;
    }
    assert(ym <= 0x01FF_FFFF) by (bit_vector)
        requires
            ym == (y & 0x007F_FFFF) << 1 || ym == ((y & 0x007F_FFFF) << 1) | 0x0100_0000,
    ;
    let y0: i32 = if ys {
        -(ym as i32)
    } else {
        ym as i32
    };
    assert((ye, y0) == fp_add_y_parts(y, u, v));

    let e0: u32;
    let x3: i32;
    let y3: i32;
    if ye > xe {
        let shift = ye - xe;
        x3 = if shift > 31 {
            x0 >> 31u32
        } else {
            x0 >> shift
        };
        e0 = ye;
        y3 = y0;
    } else {
        let shift = xe - ye;
        y3 = if shift > 31 {
            y0 >> 31u32
        } else {
            y0 >> shift
        };
        e0 = xe;
        x3 = x0;
    }
    assert((e0, x3, y3) == fp_add_aligned(xe, x0, ye, y0));

    let xs_u: u32 = if xs {
        1
    } else {
        0
    };
    let ys_u: u32 = if ys {
        1
    } else {
        0
    };
    let sum = ((xs_u << 26) | (xs_u << 25) | ((x3 as u32) & 0x01FF_FFFF)).wrapping_add(
        (ys_u << 26) | (ys_u << 25) | ((y3 as u32) & 0x01FF_FFFF),
    );
    assert(sum == fp_add_sum(xs, ys, x3, y3));

    let s = (if (sum & 0x0400_0000) != 0 {
        (0u32).wrapping_sub(sum)
    } else {
        sum
    }).wrapping_add(1) & 0x07FF_FFFF;

    let mut e1 = e0.wrapping_add(1);
    let mut t3 = s >> 1;

    if (s & 0x03FF_FFFC) != 0 {
        let mut k: u32 = 0;
        while (t3 & 0x0100_0000) == 0 && k < 32
            invariant
                k <= 32,
                fp_norm(s >> 1, e0.wrapping_add(1), 32) == fp_norm(t3, e1, (32 - k) as nat),
            decreases 32 - k,
        {
            t3 = t3 << 1;
            e1 = e1.wrapping_sub(1);
            k = k + 1;
        }
    } else {
        t3 = t3 << 24;
        e1 = e1.wrapping_sub(24);
    }
    assert((t3, e1) == fp_add_normed(s, e0));

    let xn = (x & 0x7FFF_FFFF) == 0;
    let yn = (y & 0x7FFF_FFFF) == 0;

    if v {
        (((#[verifier::truncate] ((sum << 5) as i32)) >> 6u32) as u32)
    } else if xn {
        if u || yn {
            0
        } else {
            y
        }
    } else if yn {
        x
    } else if (t3 & 0x01FF_FFFF) == 0 || (e1 & 0x100) != 0 {
        0
    } else {
        ((sum & 0x0400_0000) << 5) | (e1 << 23) | ((t3 >> 1) & 0x007F_FFFF)
    }
}

/// The result of the floating-point multiply unit.
pub open spec fn fp_mul_model(x: u32, y: u32) -> u32 {
    let sign = (x ^ y) & 0x8000_0000;
    let xe = (x >> 23) & 0xFF;
    let ye = (y >> 23) & 0xFF;
    let xm = (x & 0x007F_FFFF) | 0x0080_0000;
    let ym = (y & 0x007F_FFFF) | 0x0080_0000;
    let m = ((xm as u64) * (ym as u64)) as u64;
    let e_base = xe.wrapping_add(ye).wrapping_sub(127);
    let e1 = if (m & (1u64 << 47)) != 0 {
        e_base.wrapping_add(1)
    } else {
        e_base
    };
    let z0 = if (m & (1u64 << 47)) != 0 {
        (((m >> 23) as u32).wrapping_add(1)) & 0x00FF_FFFF
    } else {
        (((m >> 22) as u32).wrapping_add(1)) & 0x00FF_FFFF
    };
    if xe == 0 || ye == 0 {
        0u32
    } else if (e1 & 0x100) == 0 {
        sign | ((e1 & 0xFF) << 23) | (z0 >> 1)
    } else if (e1 & 0x80) == 0 {
        sign | (0xFFu32 << 23) | (z0 >> 1)
    } else {
        0u32
    }
}

/// Floating-point multiply: sign is the XOR of the signs, the exponent sum
/// is re-biased by 127, underflow gives 0 and overflow the signed-infinity
/// pattern.
pub fn fp_mul(x: u32, y: u32) -> (r: u32)
    ensures
        r == fp_mul_model(x, y),
{
    let sign = (x ^ y) & 0x8000_0000;
    let xe = (x >> 23) & 0xFF;
    let ye = (y >> 23) & 0xFF;

    let xm = (x & 0x007F_FFFF) | 0x0080_0000;
    let ym = (y & 0x007F_FFFF) | 0x0080_0000;
    assert(xm <= 0x00FF_FFFF && ym <= 0x00FF_FFFF) by (bit_vector)
        requires
            xm == (x & 0x007F_FFFF) | 0x0080_0000 && ym == (y & 0x007F_FFFF) | 0x0080_0000,
    ;
    assert((xm as u64) * (ym as u64) < 0x1_0000_0000_0000u64) by (nonlinear_arith)
        requires
            xm <= 0x00FF_FFFFu32 && ym <= 0x00FF_FFFFu32,
    ;
    let m = (xm as u64) * (ym as u64);

    let mut e1 = xe.wrapping_add(ye).wrapping_sub(127);
    let z0: u32;
    if (m & (1u64 << 47)) != 0 {
        e1 = e1.wrapping_add(1);
        z0 = (((m >> 23) as u32).wrapping_add(1)) & 0x00FF_FFFF;
    } else {
        z0 = (((m >> 22) as u32).wrapping_add(1)) & 0x00FF_FFFF;
    }

    if xe == 0 || ye == 0 {
        0
    } else if (e1 & 0x100) == 0 {
        sign | ((e1 & 0xFF) << 23) | (z0 >> 1)
    } else if (e1 & 0x80) == 0 {
        sign | (0xFFu32 << 23) | (z0 >> 1)
    } else {
        0
    }
}

/// The result of the floating-point divide unit.
pub open spec fn fp_div_model(x: u32, y: u32) -> u32 {
    let sign = (x ^ y) & 0x8000_0000;
    let xe = (x >> 23) & 0xFF;
    let ye = (y >> 23) & 0xFF;
    let xm = (x & 0x007F_FFFF) | 0x0080_0000;
    let ym = (y & 0x007F_FFFF) | 0x0080_0000;
    let q1 = ((((xm as u64) * 0x0200_0000) as u64) / (ym as u64)) as u32;
    let e_base = xe.wrapping_sub(ye).wrapping_add(126);
    let e1 = if (q1 & (1u32 << 25)) != 0 {
        e_base.wrapping_add(1)
    } else {
        e_base
    };
    let q2 = if (q1 & (1u32 << 25)) != 0 {
        (q1 >> 1) & 0x00FF_FFFF
    } else {
        q1 & 0x00FF_FFFF
    };
    let q3 = q2.wrapping_add(1);
    if xe == 0 {
        0u32
    } else if ye == 0 {
        sign | (0xFFu32 << 23)
    } else if (e1 & 0x100) == 0 {
        sign | ((e1 & 0xFF) << 23) | (q3 >> 1)
    } else if (e1 & 0x80) == 0 {
        sign | (0xFFu32 << 23) | (q2 >> 1)
    } else {
        0u32
    }
}

/// Floating-point divide: zero dividend gives 0, zero divisor the
/// signed-infinity pattern, exponent overflow as in multiply.
pub fn fp_div(x: u32, y: u32) -> (r: u32)
    ensures
        r == fp_div_model(x, y),
{
    let sign = (x ^ y) & 0x8000_0000;
    let xe = (x >> 23) & 0xFF;
    let ye = (y >> 23) & 0xFF;

    let xm = (x & 0x007F_FFFF) | 0x0080_0000;
    let ym = (y & 0x007F_FFFF) | 0x0080_0000;
    assert(0x0080_0000 <= xm <= 0x00FF_FFFF && 0x0080_0000 <= ym <= 0x00FF_FFFF) by (bit_vector)
        requires
            xm == (x & 0x007F_FFFF) | 0x0080_0000 && ym == (y & 0x007F_FFFF) | 0x0080_0000,
    ;
    let p: u64 = (xm as u64) * 0x0200_0000u64;
    let q1w: u64 = p / (ym as u64);
    assert(q1w < 0x1_0000_0000u64) by (nonlinear_arith)
        requires
            p <= 0x00FF_FFFFu64 * 0x0200_0000u64 && ym >= 0x0080_0000u32 && q1w == p / (
            ym as u64),
    ;
    let q1 = q1w as u32;

    let mut e1 = xe.wrapping_sub(ye).wrapping_add(126);
    let q2: u32;
    if (q1 & (1u32 << 25)) != 0 {
        e1 = e1.wrapping_add(1);
        q2 = (q1 >> 1) & 0x00FF_FFFF;
    } else {
        q2 = q1 & 0x00FF_FFFF;
    }
    let q3 = q2.wrapping_add(1);

    if xe == 0 {
        0
    } else if ye == 0 {
        sign | (0xFFu32 << 23)
    } else if (e1 & 0x100) == 0 {
        sign | ((e1 & 0xFF) << 23) | (q3 >> 1)
    } else if (e1 & 0x80) == 0 {
        sign | (0xFFu32 << 23) | (q2 >> 1)
    } else {
        0
    }
}

/// One step of the restoring divide: the 33-bit head of `rq` either
/// absorbs the divisor (shifting in a 1 quotient bit) or is kept (shifting
/// in a 0).
pub open spec fn idiv_step(rq: u64, y: u32) -> u64 {
    let w0 = (rq >> 31) as u32;
    let w1 = w0.wrapping_sub(y);
    if (w1 as i32) < 0 {
        ((w0 as u64) << 32) | ((rq & 0x7FFF_FFFF) << 1)
    } else {
        ((w1 as u64) << 32) | ((rq & 0x7FFF_FFFF) << 1) | 1
    }
}

/// `idiv_step` applied `n` times.
pub open spec fn idiv_iter(rq: u64, y: u32, n: nat) -> u64
    decreases n,
{
    if n == 0 {
        rq
    } else {
        idiv_step(idiv_iter(rq, y, (n - 1) as nat), y)
    }
}

/// The quotient/remainder pair of the bit-serial divide of `x` by `y`:
/// 32 restoring steps on the unsigned magnitude, then the Euclidean sign
/// fix-up for a negative signed dividend.
pub open spec fn idiv_model(x: u32, y: u32, signed_div: bool) -> IDiv {
    let sign = signed_div && ((x as i32) < 0);
    let x0 = if sign {
        (0u32).wrapping_sub(x)
    } else {
        x
    };
    let rq = idiv_iter(x0 as u64, y, 32);
    let quot0 = rq as u32;
    let rem0 = (rq >> 32) as u32;
    if sign {
        let quot1 = (0u32).wrapping_sub(quot0);
        if rem0 != 0 {
            (IDiv { quot: quot1.wrapping_sub(1), rem: y.wrapping_sub(rem0) })
        } else {
            (IDiv { quot: quot1, rem: rem0 })
        }
    } else {
        (IDiv { quot: quot0, rem: rem0 })
    }
}

/// Bit-serial restoring division over 32 iterations; for a negative signed
/// dividend the quotient and remainder are fixed up so that the remainder
/// is non-negative and less than the divisor's magnitude.
pub fn idiv(x: u32, y: u32, signed_div: bool) -> (d: IDiv)
    ensures
        d == idiv_model(x, y, signed_div),
{
    let sign = signed_div && ((x as i32) < 0);
    let x0 = if sign {
        (0u32).wrapping_sub(x)
    } else {
        x
    };

    let mut rq: u64 = x0 as u64;
    let mut i: u32 = 0;
    while i < 32
        invariant
            i <= 32,
            rq == idiv_iter(x0 as u64, y, i as nat),
        decreases 32 - i,
    {
        let w0 = (rq >> 31) as u32;
        let w1 = w0.wrapping_sub(y);
        if (w1 as i32) < 0 {
            rq = ((w0 as u64) << 32) | ((rq & 0x7FFF_FFFF) << 1);
        } else {
            rq = ((w1 as u64) << 32) | ((rq & 0x7FFF_FFFF) << 1) | 1;
        }
        i = i + 1;
    }

    let mut d = IDiv { quot: rq as u32, rem: (rq >> 32) as u32 };
    if sign {
        d.quot = (0u32).wrapping_sub(d.quot);
        if d.rem != 0 {
            d.quot = d.quot.wrapping_sub(1);
            d.rem = y.wrapping_sub(d.rem);
        }
    }
    d
}

} // verus!

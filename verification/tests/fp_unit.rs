use risc_emulator::fp::{fp_add, fp_div, fp_mul, idiv};

// Bit patterns of small single-precision values.
const ONE: u32 = 0x3F80_0000;
const TWO: u32 = 0x4000_0000;
const THREE: u32 = 0x4040_0000;
const SIX: u32 = 0x40C0_0000;
const NEG_ONE: u32 = 0xBF80_0000;

#[test]
fn fp_add_small_values() {
    assert_eq!(fp_add(ONE, ONE, false, false), TWO);
    assert_eq!(fp_add(TWO, ONE, false, false), THREE);
    // either operand zero is handled canonically
    assert_eq!(fp_add(0, THREE, false, false), THREE);
    assert_eq!(fp_add(THREE, 0, false, false), THREE);
    assert_eq!(fp_add(0, 0, false, false), 0);
}

#[test]
fn fp_subtract_via_sign_flip() {
    // FSB is FAD with the Y sign flipped
    assert_eq!(fp_add(THREE, ONE ^ 0x8000_0000, false, false), TWO);
    assert_eq!(fp_add(ONE, ONE ^ 0x8000_0000, false, false), 0);
}

#[test]
fn fp_add_integer_conversion_paths() {
    // u=1 converts the 24-bit integer operand to float; the second
    // operand only supplies an exponent-bearing zero (1.0 has an all-zero
    // mantissa and contributes nothing on this pathway).
    assert_eq!(fp_add(5, ONE, true, false), 0x40A0_0000);
    assert_eq!(fp_add(0, ONE, true, false), 0);
    // v=1 truncates to integer when aligned against the exponent-150
    // bias constant, as guest code does.
    const BIAS: u32 = 0x4B00_0000;
    assert_eq!(fp_add(SIX, BIAS, false, true), 6);
    assert_eq!(fp_add(0x4020_0000, BIAS, false, true), 2); // 2.5 truncates
    assert_eq!(fp_add(NEG_ONE, BIAS, false, true), 0xFFFF_FFFF);
}

#[test]
fn fp_mul_and_div_small_values() {
    assert_eq!(fp_mul(TWO, THREE), SIX);
    assert_eq!(fp_mul(ONE, THREE), THREE);
    // a zero exponent gives zero
    assert_eq!(fp_mul(0, THREE), 0);

    assert_eq!(fp_div(SIX, TWO), THREE);
    assert_eq!(fp_div(THREE, ONE), THREE);
    // zero dividend
    assert_eq!(fp_div(0, TWO), 0);
    // zero divisor: the signed-infinity pattern
    assert_eq!(fp_div(SIX, 0), 0x7F80_0000);
}

#[test]
fn fp_mul_sign_rules() {
    assert_eq!(fp_mul(NEG_ONE, THREE), THREE | 0x8000_0000);
    assert_eq!(fp_mul(NEG_ONE, NEG_ONE), ONE);
}

#[test]
fn idiv_unsigned_cases() {
    let d = idiv(7, 2, false);
    assert_eq!((d.quot, d.rem), (3, 1));
    let d = idiv(1000, 10, false);
    assert_eq!((d.quot, d.rem), (100, 0));
    let d = idiv(5, 7, false);
    assert_eq!((d.quot, d.rem), (0, 5));
}

#[test]
fn idiv_signed_negative_dividend_euclidean() {
    // -7 / 2: quotient -4, remainder 1 (never negative)
    let d = idiv(0xFFFF_FFF9, 2, true);
    assert_eq!(d.quot, 0xFFFF_FFFC);
    assert_eq!(d.rem, 1);
    // -8 / 2: exact, quotient -4, remainder 0
    let d = idiv(0xFFFF_FFF8, 2, true);
    assert_eq!(d.quot, 0xFFFF_FFFC);
    assert_eq!(d.rem, 0);
}

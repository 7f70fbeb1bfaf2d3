use perp_core::errors::ErrorCode;
use perp_core::math::{ceil_div, max, min, mul_div, mul_div2, mul_div_rounding, mul_div_up, Rounding};

#[test]
fn max_and_min_pick_the_right_operand() {
    assert_eq!(max(3, 9), 9);
    assert_eq!(max(9, 3), 9);
    assert_eq!(min(3, 9), 3);
    assert_eq!(min(9, 3), 3);
    assert_eq!(max(7, 7), 7);
    assert_eq!(min(7, 7), 7);
}

#[test]
fn mul_div_rounds_down() {
    assert_eq!(mul_div(6, 7, 2), Ok(21));
    assert_eq!(mul_div(7, 3, 2), Ok(10));
    assert_eq!(mul_div(0, 123, 9), Ok(0));
}

#[test]
fn mul_div_rejects_zero_divisor() {
    assert_eq!(mul_div(1, 1, 0), Err(ErrorCode::DivideByZero));
    assert_eq!(mul_div_up(1, 1, 0), Err(ErrorCode::DivideByZero));
    assert_eq!(ceil_div(5, 0), Err(ErrorCode::DivideByZero));
    assert_eq!(mul_div2(5, 5, 0), Err(ErrorCode::DivideByZero));
}

#[test]
fn mul_div_uses_a_wide_intermediate() {
    // the product overflows 128 bits but the quotient fits
    let q96 = 1u128 << 96;
    assert_eq!(mul_div(q96, q96, q96), Ok(q96));
    assert_eq!(mul_div(u128::MAX, 2, 2), Ok(u128::MAX));
    assert_eq!(mul_div(u128::MAX, u128::MAX, u128::MAX), Ok(u128::MAX));
    assert_eq!(mul_div_up(u128::MAX, 2, 2), Ok(u128::MAX));
    assert_eq!(mul_div(100 * q96, 1 << 30, q96), Ok(100 << 30));
}

#[test]
fn mul_div_rejects_an_overflowing_quotient() {
    assert_eq!(mul_div(u128::MAX, 2, 1), Err(ErrorCode::Overflow));
    assert_eq!(mul_div_up(u128::MAX, 2, 1), Err(ErrorCode::Overflow));
    assert_eq!(mul_div2(u128::MAX, 2, 1), Err(ErrorCode::Overflow));
    // the floor fits exactly but the ceiling would not
    assert_eq!(mul_div(u128::MAX, 3, 3), Ok(u128::MAX));
    assert_eq!(mul_div_up(u128::MAX, u128::MAX, u128::MAX - 1), Err(ErrorCode::Overflow));
}

#[test]
fn mul_div_up_rounds_up() {
    assert_eq!(mul_div_up(7, 3, 2), Ok(11));
    assert_eq!(mul_div_up(6, 7, 2), Ok(21));
    assert_eq!(mul_div_up(1, 1, 3), Ok(1));
}

#[test]
fn ceil_div_rounds_up() {
    assert_eq!(ceil_div(7, 2), Ok(4));
    assert_eq!(ceil_div(8, 2), Ok(4));
    assert_eq!(ceil_div(0, 5), Ok(0));
    assert_eq!(ceil_div(1, u128::MAX), Ok(1));
}

#[test]
fn mul_div_rounding_selects_the_mode() {
    assert_eq!(mul_div_rounding(7, 3, 2, Rounding::Down), Ok(10));
    assert_eq!(mul_div_rounding(7, 3, 2, Rounding::Up), Ok(11));
}

#[test]
fn mul_div2_returns_floor_and_ceiling() {
    assert_eq!(mul_div2(7, 3, 2), Ok((10, 11)));
    assert_eq!(mul_div2(4, 3, 2), Ok((6, 6)));
    assert_eq!(mul_div2(1, 1, 7), Ok((0, 1)));
}

#[test]
fn mul_div2_floor_and_ceiling_differ_by_remainder() {
    // ceiling equals floor exactly when the division is exact, and never
    // exceeds it by more than one
    for x in [1u128, 2, 3, 7, 100, 12345] {
        for y in [1u128, 2, 9, 31] {
            for d in [1u128, 2, 3, 7, 10] {
                let (down, up) = mul_div2(x, y, d).unwrap();
                assert!(down <= up);
                assert!(up <= down + 1);
                assert_eq!(down == up, (x * y) % d == 0);
            }
        }
    }
}

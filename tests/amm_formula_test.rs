use miden_amm::price::{quote, quote_unscaled, BASE};

#[test]
fn test_amm_formula_basic() {
    let x = 1000;
    let y = 1000;
    let dx = 100;

    let dy = quote(x, y, dx).unwrap();

    let expected = (dx * y * BASE) / (dx + y);
    assert_eq!(dy, expected);

    println!("Test 1 - Basic calculation:");
    println!("  Pool X: {}, Pool Y: {}, Input dX: {}", x, y, dx);
    println!("  Output dY: {}", dy);
}

#[test]
fn test_amm_formula_alternative() {
    let x = 1000;
    let y = 2000;
    let dx = 100;

    let dy = quote_unscaled(x, y, dx).unwrap();

    let expected = (dx * y) / (dx + y);
    assert_eq!(dy, expected);
    assert_eq!(dy, 95);

    println!("Test 2 - Alternative calculation (with BASE cancellation):");
    println!("  Pool X: {}, Pool Y: {}, Input dX: {}", x, y, dx);
    println!("  Output dY: {}", dy);
}

#[test]
fn test_amm_formula_edge_cases() {
    let dy1 = quote(100, 100, 10).unwrap();
    assert_eq!(dy1, (10 * 100 * BASE) / (10 + 100));

    let dy2 = quote(1000000, 1000000, 1).unwrap();
    assert_eq!(dy2, (1 * 1000000 * BASE) / (1 + 1000000));

    let dy3 = quote(500, 500, 50).unwrap();
    assert_eq!(dy3, (50 * 500 * BASE) / (50 + 500));

    println!("Test 3 - Edge cases:");
    println!("  Small values: {}", dy1);
    println!("  Large pool, small input: {}", dy2);
    println!("  Equal pools: {}", dy3);
}

#[test]
fn test_amm_formula_zero_input() {
    let dy = quote(1000, 1000, 0).unwrap();
    assert_eq!(dy, 0);

    println!("Test 4 - Zero input: {}", dy);
}

#[test]
fn test_amm_formula_precision() {
    let x = 1000;
    let y = 1000;
    let dx = 1;

    let dy = quote(x, y, dx).unwrap();
    let dy_alt = quote_unscaled(x, y, dx).unwrap();

    assert_eq!(dy, 99900);
    assert_eq!(dy_alt, 0);

    println!("Test 5 - Precision comparison:");
    println!("  With BASE multiplier: {}", dy);
    println!("  Without BASE multiplier: {}", dy_alt);
    println!("  This shows BASE provides precision for small values");
}

#[test]
fn test_amm_formula_realistic_values() {
    let pool_x = 1_000_000;
    let pool_y = 2_000_000;
    let input_dx = 10_000;

    let dy = quote(pool_x, pool_y, input_dx).unwrap();

    let numerator = input_dx
        .checked_mul(pool_y)
        .and_then(|result| result.checked_mul(BASE))
        .expect("Expected calculation overflow");
    let denominator = input_dx + pool_y;
    let expected = numerator / denominator;

    assert_eq!(dy, expected);

    println!("Test 6 - Realistic values:");
    println!("  Pool X: {} tokens", pool_x);
    println!("  Pool Y: {} tokens", pool_y);
    println!("  Input dX: {} tokens", input_dx);
    println!("  Output dY: {} tokens", dy);
    println!("  Expected: {}", expected);
}

#[test]
fn test_amm_formula_large_numbers() {
    let pool_x = 100_000;
    let pool_y = 200_000;
    let input_dx = 1_000;

    let dy = quote(pool_x, pool_y, input_dx).unwrap();

    let dx_mul_y = input_dx.checked_mul(pool_y).expect("dx * y overflow");
    let numerator = dx_mul_y.checked_mul(BASE).expect("numerator overflow");
    let denominator = input_dx.checked_add(pool_y).expect("denominator overflow");
    let expected = numerator / denominator;

    assert_eq!(dy, expected);

    println!("Test 7 - Large numbers:");
    println!("  Pool X: {}, Pool Y: {}, Input dX: {}", pool_x, pool_y, input_dx);
    println!("  Output dY: {}", dy);
    println!("  dx * y = {}", dx_mul_y);
    println!("  numerator = {}", numerator);
    println!("  denominator = {}", denominator);
}

#[test]
fn test_convert_two_32bit_to_64bit() {
    let int1: u32 = 0;
    let int2: u32 = 100_000;

    let result: u64 = ((int2 as u64) << 32) | (int1 as u64);

    println!("Converting two 32-bit integers to 64-bit:");
    let result_alt: u64 = ((int1 as u64) << 32) | (int2 as u64);
    println!("value: {}", result_alt);

    assert!(result > 0);
}

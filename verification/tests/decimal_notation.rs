use ollama_params::decimal::decimal_string;

#[test]
fn zero_is_a_single_digit() {
    assert_eq!(decimal_string(0), "0");
}

#[test]
fn single_digits() {
    let expected = ["0", "1", "2", "3", "4", "5", "6", "7", "8", "9"];
    let mut n: u64 = 0;
    while n < 10 {
        assert_eq!(decimal_string(n), expected[n as usize]);
        n += 1;
    }
}

#[test]
fn digits_come_most_significant_first() {
    assert_eq!(decimal_string(10), "10");
    assert_eq!(decimal_string(12), "12");
    assert_eq!(decimal_string(21), "21");
    assert_eq!(decimal_string(1234567890), "1234567890");
}

#[test]
fn inner_and_trailing_zeros_are_kept() {
    assert_eq!(decimal_string(100), "100");
    assert_eq!(decimal_string(1001), "1001");
    assert_eq!(decimal_string(90_000), "90000");
}

#[test]
fn largest_value() {
    assert_eq!(decimal_string(u64::MAX), "18446744073709551615");
}

#[test]
fn agrees_with_the_standard_formatting() {
    let mut n: u64 = 1;
    let mut steps: u32 = 0;
    while steps < 200 {
        assert_eq!(decimal_string(n), format!("{}", n));
        assert_eq!(decimal_string(n - 1), format!("{}", n - 1));
        n = n.wrapping_mul(6364136223846793005).wrapping_add(1442695040888963407);
        if n == 0 {
            n = 1;
        }
        steps += 1;
    }
}

#[test]
fn powers_of_ten_and_their_neighbours() {
    let mut p: u64 = 1;
    let mut k: u32 = 0;
    while k < 19 {
        p *= 10;
        assert_eq!(decimal_string(p), format!("{}", p));
        assert_eq!(decimal_string(p - 1), format!("{}", p - 1));
        assert_eq!(decimal_string(p + 1), format!("{}", p + 1));
        k += 1;
    }
}

#[test]
fn notation_reads_back() {
    let values: [u64; 6] = [0, 7, 42, 1000, 65_535, u64::MAX];
    for v in values {
        let text = decimal_string(v);
        assert!(text.chars().all(|c| c.is_ascii_digit()));
        assert_eq!(text.parse::<u64>().ok(), Some(v));
        assert!(v == 0 || !text.starts_with('0'));
    }
}

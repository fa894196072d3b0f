use ltl::decimal::decimal_string;
use ltl::Label;

#[test]
fn decimal_string_of_small_numbers() {
    assert_eq!(decimal_string(0), "0");
    assert_eq!(decimal_string(7), "7");
    assert_eq!(decimal_string(-7), "-7");
    assert_eq!(decimal_string(42), "42");
    assert_eq!(decimal_string(-42), "-42");
}

#[test]
fn decimal_string_keeps_inner_and_trailing_zeros() {
    assert_eq!(decimal_string(10), "10");
    assert_eq!(decimal_string(100), "100");
    assert_eq!(decimal_string(101), "101");
    assert_eq!(decimal_string(-1000), "-1000");
    assert_eq!(decimal_string(1000000000), "1000000000");
    assert_eq!(decimal_string(2000000002), "2000000002");
}

#[test]
fn decimal_string_at_the_limits() {
    assert_eq!(decimal_string(i32::MAX), "2147483647");
    assert_eq!(decimal_string(i32::MIN), "-2147483648");
    assert_eq!(decimal_string(i32::MIN + 1), "-2147483647");
}

#[test]
fn decimal_string_agrees_with_std() {
    let mut n: i32 = 1;
    for _ in 0..31 {
        for k in [n - 1, n, n.wrapping_add(1), -n, -n + 1, -(n - 1)] {
            assert_eq!(decimal_string(k), k.to_string());
        }
        n = n.wrapping_mul(2);
    }
    let mut p: i32 = 1;
    for _ in 0..9 {
        for k in [p - 1, p, p + 1, -p, -p - 1, -p + 1] {
            assert_eq!(decimal_string(k), k.to_string());
        }
        p *= 10;
    }
}

#[test]
fn integer_label_text_and_copy() {
    let label: i32 = -305;
    assert_eq!(label.to_text(), "-305");
    assert_eq!(label.duplicate(), -305);
}

#[test]
fn text_label_text_and_copy() {
    let label = String::from("p ∧ q");
    assert_eq!(label.to_text(), "p ∧ q");
    assert_eq!(label.duplicate(), "p ∧ q");
    assert_eq!(label, "p ∧ q");
}

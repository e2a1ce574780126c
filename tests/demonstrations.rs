use ownership_borrowing::decimal::decimal_string;
use ownership_borrowing::ownership_lifetimes_and_borrowing::{INITIAL_ANSWER, NEW_ANSWER};
use ownership_borrowing::{borrowing, ownership_in_a_nutshell, passing_object_from_scope_to_scope, run};

#[test]
fn ownership_shows_the_record_before_the_move() {
    let lines = ownership_in_a_nutshell();
    assert_eq!(lines, vec!["Bar".to_string()]);
}

#[test]
fn scope_transfer_shows_the_same_record_twice() {
    let lines = passing_object_from_scope_to_scope();
    assert_eq!(lines.len(), 2);
    assert_eq!(lines[0], "Bar");
    assert_eq!(lines[0], lines[1]);
}

#[test]
fn borrowing_shows_the_old_then_the_new_value() {
    let lines = borrowing();
    assert_eq!(lines, vec!["42".to_string(), "40".to_string()]);
    assert_ne!(lines[0], lines[1]);
}

#[test]
fn borrowing_values() {
    assert_eq!(INITIAL_ANSWER, 42);
    assert_eq!(NEW_ANSWER, 40);
}

#[test]
fn driver_shows_eight_lines_in_order() {
    let lines = run();
    let expected = vec![
        "= ownership in a nutshell =",
        "Bar",
        "= passing object from scope to scope =",
        "Bar",
        "Bar",
        "= borrowing =",
        "42",
        "40",
    ];
    assert_eq!(lines.len(), 8);
    assert_eq!(lines, expected);
}

#[test]
fn driver_runs_the_same_twice() {
    let first = run();
    let second = run();
    assert_eq!(first, second);
}

#[test]
fn decimal_of_zero() {
    assert_eq!(decimal_string(0), "0");
}

#[test]
fn decimal_of_single_digits() {
    assert_eq!(decimal_string(7), "7");
    assert_eq!(decimal_string(-7), "-7");
    assert_eq!(decimal_string(9), "9");
}

#[test]
fn decimal_of_several_digits() {
    assert_eq!(decimal_string(10), "10");
    assert_eq!(decimal_string(1234), "1234");
    assert_eq!(decimal_string(-905), "-905");
}

#[test]
fn decimal_of_the_extremes() {
    assert_eq!(decimal_string(i32::MAX), "2147483647");
    assert_eq!(decimal_string(i32::MIN), "-2147483648");
}

#[test]
fn decimal_matches_debug_formatting() {
    for n in [-1000, -99, -1, 0, 1, 40, 42, 99, 100, 65536] {
        assert_eq!(decimal_string(n), format!("{:?}", n));
    }
}

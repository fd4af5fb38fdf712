//! Tests of the shared arithmetic.

use swave::math::{saturating_add_i128, saturating_sub_i128};
use swave::types::{Address, Transfer};

#[test]
fn sums_stop_at_the_ends_of_the_range() {
    assert_eq!(saturating_add_i128(1, 2), 3);
    assert_eq!(saturating_add_i128(i128::MAX, 1), i128::MAX);
    assert_eq!(saturating_add_i128(i128::MAX, -1), i128::MAX - 1);
    assert_eq!(saturating_add_i128(i128::MIN, -1), i128::MIN);
    assert_eq!(saturating_add_i128(i128::MIN, i128::MIN), i128::MIN);
    assert_eq!(saturating_add_i128(i128::MAX, i128::MIN), -1);
    assert_eq!(saturating_add_i128(-5, 0), -5);
}

#[test]
fn differences_stop_at_the_ends_of_the_range() {
    assert_eq!(saturating_sub_i128(5, 7), -2);
    assert_eq!(saturating_sub_i128(i128::MIN, 1), i128::MIN);
    assert_eq!(saturating_sub_i128(i128::MAX, -1), i128::MAX);
    assert_eq!(saturating_sub_i128(-2, i128::MAX), i128::MIN);
    assert_eq!(saturating_sub_i128(0, i128::MIN), i128::MAX);
    assert_eq!(saturating_sub_i128(-1, i128::MIN), i128::MAX);
    assert_eq!(saturating_sub_i128(i128::MIN, i128::MIN), 0);
}

#[test]
fn parties_are_told_apart_by_their_number() {
    assert_eq!(Address::new(7), Address { id: 7 });
    assert_ne!(Address::new(7), Address::new(8));
    let movement = Transfer { token: Address::new(1), from: Address::new(2), to: Address::new(3), amount: 9 };
    assert_eq!(movement, movement.clone());
}

use text_embedding::sum;

#[test]
fn sum_of_small_numbers() {
    assert_eq!(sum(2, 3), 5);
    assert_eq!(sum(0, 0), 0);
}

#[test]
fn sum_with_negative_numbers() {
    assert_eq!(sum(-7, 4), -3);
    assert_eq!(sum(-1, -1), -2);
}

#[test]
fn sum_at_the_ends_of_the_range() {
    assert_eq!(sum(i32::MAX, 0), i32::MAX);
    assert_eq!(sum(i32::MAX - 1, 1), i32::MAX);
    assert_eq!(sum(i32::MIN, 0), i32::MIN);
    assert_eq!(sum(i32::MIN, i32::MAX), -1);
}

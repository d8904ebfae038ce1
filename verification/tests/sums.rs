use ticket_store::sum::sum;

#[test]
fn lib_empty() {
    assert_eq!(sum(vec![]), 0);
}

#[test]
fn lib_one() {
    assert_eq!(sum(vec![1]), 1);
}

#[test]
fn lib_five() {
    assert_eq!(sum(vec![1, 2, 3, 4, 5]), 15);
}

#[test]
fn lib_nine() {
    assert_eq!(sum(vec![1, 2, 3, 4, 5, 6, 7, 8, 9]), 45);
}

#[test]
fn lib_ten() {
    assert_eq!(sum(vec![1, 2, 3, 4, 5, 6, 7, 8, 9, 10]), 55);
}

#[test]
fn negative_values() {
    assert_eq!(sum(vec![10, -4, -6]), 0);
}

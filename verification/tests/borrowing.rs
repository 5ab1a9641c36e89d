use carboxyl_window::Borrowing;
use carboxyl_window::Unique;

#[test]
fn with_reads_the_target_in_scope() {
    let owned = Unique::new(41i64);
    let read = owned.with(|value: &i64| value + 1);
    assert_eq!(read, 42);
}

#[test]
fn with_mut_replaces_the_target_and_returns_alongside() {
    let mut owned = Unique::new(5i64);
    let previous = owned.with_mut(|value: &i64| (value + 10, *value));
    assert_eq!(previous, 5);
    assert_eq!(owned.into_inner(), 15);
}

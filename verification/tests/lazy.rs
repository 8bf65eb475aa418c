use service_aura::lazy::BuildOnAccess;
use std::cell::Cell;

#[test]
fn built_on_first_access_only() {
    let built = Cell::new(0);
    let mut cell = BuildOnAccess::Uninitialized(Some(|| {
        built.set(built.get() + 1);
        10
    }));
    assert_eq!(built.get(), 0);
    assert_eq!(*cell.get_mut(), 10);
    *cell.get_mut() += 5;
    assert_eq!(*cell.get_mut(), 15);
    assert_eq!(built.get(), 1);
}

#[test]
fn a_value_that_is_there_is_kept() {
    let mut cell: BuildOnAccess<&str, fn() -> &'static str> = BuildOnAccess::Initialized("there");
    assert_eq!(*cell.get_mut(), "there");
    *cell.get_mut() = "changed";
    assert!(matches!(cell, BuildOnAccess::Initialized("changed")));
}

#[test]
fn boxed_builder() {
    let builder: Box<dyn FnOnce() -> Vec<u8> + Send + Sync> = Box::new(|| vec![1, 2]);
    let mut cell = BuildOnAccess::Uninitialized(Some(builder));
    cell.get_mut().push(3);
    assert_eq!(*cell.get_mut(), vec![1, 2, 3]);
}

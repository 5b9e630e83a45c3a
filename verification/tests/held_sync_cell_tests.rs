use sync_cell::HeldSyncCell;

#[test]
fn test_held_sync_cell_new() {
    let _cell: HeldSyncCell<i32> = HeldSyncCell::new(0);
}

#[test]
fn test_held_sync_cell_get() {
    let cell: HeldSyncCell<i32> = HeldSyncCell::new(1);

    assert_eq!(1, cell.get())
}

#[test]
fn test_held_sync_cell_set_no_update() {
    let mut cell: HeldSyncCell<i32> = HeldSyncCell::new(1);

    cell.set(2);

    assert_eq!(true, cell.has_update());
    assert_eq!(1, cell.get())
}

#[test]
fn test_held_sync_cell_set_update() {
    let mut cell: HeldSyncCell<i32> = HeldSyncCell::new(1);

    cell.set(2);
    cell.update();

    assert_eq!(false, cell.has_update());
    assert_eq!(2, cell.get())
}

#[test]
fn test_held_sync_cell_set_double_update() {
    let mut cell: HeldSyncCell<i32> = HeldSyncCell::new(1);

    cell.set(2);
    cell.update();
    cell.update();

    assert_eq!(false, cell.has_update());
    assert_eq!(2, cell.get())
}

#[test]
fn test_held_sync_cell_no_set_update() {
    let mut cell: HeldSyncCell<i32> = HeldSyncCell::new(1);

    cell.update();

    assert_eq!(false, cell.has_update());
    assert_eq!(1, cell.get())
}

#[test]
fn test_held_sync_cell_no_set() {
    let cell: HeldSyncCell<i32> = HeldSyncCell::new(1);

    assert_eq!(false, cell.has_update());
    assert_eq!(1, cell.get())
}

#[test]
fn test_held_sync_cell_into_inner() {
    let cell: HeldSyncCell<i32> = HeldSyncCell::new(4);

    assert_eq!(4, cell.into_inner())
}

#[test]
fn test_held_sync_cell_set_into_inner() {
    let mut cell: HeldSyncCell<i32> = HeldSyncCell::new(4);

    cell.set(5);

    assert_eq!(5, cell.into_inner())
}

#[test]
fn test_held_sync_cell_set_update_into_inner() {
    let mut cell: HeldSyncCell<i32> = HeldSyncCell::new(4);

    cell.set(5);
    cell.update();

    assert_eq!(5, cell.into_inner())
}

#[test]
fn test_held_sync_cell_mutable_borrow() {
    let mut cell: HeldSyncCell<i32> = HeldSyncCell::new(4);

    let borrow = cell.borrow_mut();

    *borrow = 5;

    assert_eq!(5, cell.get())
}

#[test]
fn test_held_sync_cell_mutable_borrow_set() {
    let mut cell: HeldSyncCell<i32> = HeldSyncCell::new(4);

    let borrow = cell.borrow_mut();

    *borrow = 5;

    cell.set(6);

    assert_eq!(5, cell.get());
    cell.update();
    assert_eq!(6, cell.get());
}

#[test]
fn test_held_sync_cell_borrow() {
    let cell: HeldSyncCell<i32> = HeldSyncCell::new(7);

    assert_eq!(7, *cell.borrow())
}

#[test]
fn test_held_sync_cell_set_twice_last_write_wins() {
    let mut cell: HeldSyncCell<i32> = HeldSyncCell::new(0);

    cell.set(1);
    cell.set(2);
    cell.update();

    assert_eq!(2, cell.get())
}

#[test]
fn test_held_sync_cell_clone_drops_staged_value() {
    let mut cell: HeldSyncCell<i32> = HeldSyncCell::new(3);

    cell.set(4);

    let copy: HeldSyncCell<i32> = cell.clone();

    assert_eq!(3, copy.get());
    assert_eq!(false, copy.has_update())
}

#[test]
fn test_held_sync_cell_from() {
    let cell: HeldSyncCell<i32> = HeldSyncCell::from(8);

    assert_eq!(8, cell.get());
    assert_eq!(false, cell.has_update())
}

#[test]
fn test_held_sync_cell_default() {
    let cell: HeldSyncCell<i32> = HeldSyncCell::default();

    assert_eq!(0, cell.get());
    assert_eq!(false, cell.has_update())
}

#[test]
fn test_held_sync_cell_eq_ignores_staged_value() {
    let first: HeldSyncCell<i32> = HeldSyncCell::new(1);
    let mut second: HeldSyncCell<i32> = HeldSyncCell::new(1);
    let third: HeldSyncCell<i32> = HeldSyncCell::new(2);

    second.set(2);

    assert!(first == second);
    assert!(first != third)
}

#[test]
fn test_held_sync_cell_strings() {
    let mut cell: HeldSyncCell<String> = HeldSyncCell::new(String::from("current"));

    cell.set(String::from("staged"));

    assert_eq!("current", cell.get());
    cell.update();
    assert_eq!("staged", cell.get());
    assert_eq!("staged", cell.into_inner())
}

use snow_ui::State;
use snow_ui::StateStore;

#[test]
fn handle_copies_share_one_cell() {
    let mut store: StateStore<u64> = StateStore::new();
    let a = State::new(&mut store, 1);
    let b = a.clone();

    a.set(&mut store, 5);
    assert_eq!(b.get(&store), 5);

    // an in-place update through one handle is seen through the other
    a.update(&mut store, |x| x + 1);
    assert_eq!(b.get(&store), 6);
    assert_eq!(a.get(&store), 6);
}

#[test]
fn borrow_and_borrow_mut_reach_the_same_cell() {
    let mut store: StateStore<u64> = StateStore::new();
    let a = State::new(&mut store, 10);
    let b = a.clone();

    *a.borrow_mut(&mut store) = 9;
    assert_eq!(*b.borrow(&store), 9);
}

#[test]
fn distinct_cells_are_independent() {
    let mut store: StateStore<u64> = StateStore::new();
    let a = State::new(&mut store, 1);
    let c = State::new(&mut store, 100);

    a.set(&mut store, 2);
    assert_eq!(c.get(&store), 100);
    c.update(&mut store, |x| x * 2);
    assert_eq!(a.get(&store), 2);
    assert_eq!(c.get(&store), 200);
    assert_eq!(store.len(), 2);
}

#[test]
fn cells_hold_any_value_kind() {
    let mut store: StateStore<String> = StateStore::new();
    let s = State::new(&mut store, String::from("hello"));
    s.update(&mut store, |mut v| {
        v.push('!');
        v
    });
    assert_eq!(s.borrow(&store), "hello!");
}

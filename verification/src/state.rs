//! Shared reactive cells for component state.
//!
//! A cell's storage lives in a central `StateStore`; a `State<T>` handle is a
//! stable index into that store. Handles are freely copyable, and every copy
//! of a handle reaches the same storage cell, so a mutation made through one
//! handle is visible through every other. Because all access goes through the
//! store, exclusiveness of writes is enforced by the borrow checker itself and
//! no runtime borrow check is needed.

use vstd::prelude::*;

verus! {

/// Central storage for reactive cells holding values of type `T`.
pub struct StateStore<T> {
    cells: Vec<T>,
}

/// A copyable handle to one cell of a `StateStore<T>`. Copies of a handle
/// share the same cell.
#[derive(Debug)]
pub struct State<T> {
    id: usize,
    marker: core::marker::PhantomData<T>,
}

impl<T> Clone for State<T> {
    /// A copy of a handle refers to the same cell.
    fn clone(&self) -> (r: Self)
        ensures
            r == *self,
    {
        State { id: self.id, marker: core::marker::PhantomData }
    }
}

impl<T> Copy for State<T> {
}

impl<T> View for StateStore<T> {
    type V = Seq<T>;

    closed spec fn view(&self) -> Seq<T> {
        self.cells@
    }
}

impl<T> StateStore<T> {
    /// An empty store: no cells have been allocated yet.
    pub fn new() -> (store: StateStore<T>)
        ensures
            store@.len() == 0,
    {
        StateStore { cells: Vec::new() }
    }

    /// The number of cells allocated so far.
    pub fn len(&self) -> (n: usize)
        ensures
            n == self@.len(),
    {
        self.cells.len()
    }
}

impl<T> State<T> {
    /// The index of the cell this handle refers to.
    pub closed spec fn id_spec(&self) -> int {
        self.id as int
    }

    /// The handle refers to a cell that `store` actually holds.
    pub open spec fn valid_for(&self, store: StateStore<T>) -> bool {
        0 <= self.id_spec() < store@.len()
    }

    /// The value currently held by the cell this handle refers to.
    pub open spec fn value_of(&self, store: StateStore<T>) -> T {
        store@[self.id_spec()]
    }

    /// Allocate a fresh cell in `store` holding `value` and return a handle
    /// to it. Existing cells and handles are unaffected.
    pub fn new(store: &mut StateStore<T>, value: T) -> (s: State<T>)
        ensures
            final(store)@ == old(store)@.push(value),
            s.id_spec() == old(store)@.len(),
            s.valid_for(*final(store)),
            s.value_of(*final(store)) == value,
    {
        let id = store.cells.len();
        store.cells.push(value);
        State { id, marker: core::marker::PhantomData }
    }

    /// Snapshot of the current value of the cell.
    pub fn get(&self, store: &StateStore<T>) -> (value: T) where T: Copy
        requires
            self.valid_for(*store),
        ensures
            value == self.value_of(*store),
    {
        store.cells[self.id]
    }

    /// Replace the value of the cell. Every handle that refers to this cell
    /// observes the new value; all other cells are unchanged.
    pub fn set(&self, store: &mut StateStore<T>, value: T)
        requires
            self.valid_for(*old(store)),
        ensures
            final(store)@ == old(store)@.update(self.id_spec(), value),
    {
        store.cells[self.id] = value;
    }

    /// Mutate the value of the cell in place with the caller's function.
    /// The new value of the cell is a possible result of applying `f` to the
    /// old one; all other cells are unchanged.
    pub fn update<F: FnOnce(T) -> T>(&self, store: &mut StateStore<T>, f: F)
        requires
            self.valid_for(*old(store)),
            call_requires(f, (old(store)@[self.id_spec()],)),
        ensures
            final(store)@.len() == old(store)@.len(),
            call_ensures(f, (old(store)@[self.id_spec()],), final(store)@[self.id_spec()]),
            forall|j: int|
                0 <= j < old(store)@.len() && j != self.id_spec() ==> final(store)@[j] == old(
                    store,
                )@[j],
    {
        let value = store.cells.remove(self.id);
        let value = f(value);
        store.cells.insert(self.id, value);
    }

    /// Scoped read access to the cell's value.
    pub fn borrow<'a>(&self, store: &'a StateStore<T>) -> (r: &'a T)
        requires
            self.valid_for(*store),
        ensures
            *r == self.value_of(*store),
    {
        &store.cells[self.id]
    }

    /// Scoped write access to the cell's value. While the returned reference
    /// lives, the borrow checker excludes every other access to the store.
    pub fn borrow_mut<'a>(&self, store: &'a mut StateStore<T>) -> (r: &'a mut T)
        requires
            self.valid_for(*old(store)),
        ensures
            *r == old(store)@[self.id_spec()],
            final(store)@ == old(store)@.update(self.id_spec(), *final(r)),
    {
        &mut store.cells[self.id]
    }
}

/// Copies of a cell handle are consistent: when one handle writes a value to
/// its cell, reading through any copy of that handle afterwards observes
/// exactly that value.
pub proof fn lemma_handle_copies_consistent<T>(
    a: State<T>,
    b: State<T>,
    pre: StateStore<T>,
    post: StateStore<T>,
    value: T,
)
    requires
        b == a,
        a.valid_for(pre),
        post@ == pre@.update(a.id_spec(), value),
    ensures
        b.valid_for(post),
        b.value_of(post) == value,
{
}

} // verus!

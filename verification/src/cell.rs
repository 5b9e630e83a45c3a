//! A mutable memory location with a verified contract on every operation.

use vstd::prelude::*;

verus! {

/// A mutable memory location, similar to `std::cell::Cell` or
/// `std::cell::RefCell`.
///
/// The cell's abstract state is simply the value it holds, available in
/// specifications as `self@`. Exclusive access for the mutating operations
/// is enforced by taking the cell by `&mut`, so no operation can ever
/// observe a partially written value, and none of the operations panics.
#[derive(Debug, PartialEq, Eq, PartialOrd, Ord, Hash)]
pub struct SyncCell<T> {
    /// The data held by this cell.
    data: T,
}

impl<T> View for SyncCell<T> {
    type V = T;

    closed spec fn view(&self) -> T {
        self.data
    }
}

impl<T> SyncCell<T> {
    /// The cell that `new` constructs from `data`.
    pub closed spec fn spec_new(data: T) -> Self {
        SyncCell { data }
    }

    /// The cell left behind by `set` or `replace`: the previous contents
    /// are gone, whatever they were, and `value` has taken their place.
    pub closed spec fn spec_set(self, value: T) -> Self {
        SyncCell { data: value }
    }

    /// Creates a new `SyncCell`.
    ///
    /// - `data` - The initial value of the `SyncCell`.
    pub fn new(data: T) -> (cell: Self)
        ensures
            cell == Self::spec_new(data),
            cell@ == data,
    {
        Self { data }
    }

    /// Sets the value contained in this cell.
    ///
    /// - `value` - The new value of the cell.
    pub fn set(&mut self, value: T)
        ensures
            *final(self) == old(self).spec_set(value),
            final(self)@ == value,
    {
        self.data = value;
    }

    /// Retrieves the inner value stored in this `SyncCell`.
    pub fn into_inner(self) -> (data: T)
        ensures
            data == self@,
    {
        self.data
    }

    /// Replaces the internal value contained in this cell.
    /// The previous value is returned.
    ///
    /// - `value` - The new value of the cell.
    pub fn replace(&mut self, value: T) -> (previous: T)
        ensures
            previous == old(self)@,
            *final(self) == old(self).spec_set(value),
            final(self)@ == value,
    {
        let mut value = value;
        core::mem::swap(&mut self.data, &mut value);
        value
    }

    /// Borrows an immutable reference to the data stored in this cell.
    /// Any number of such borrows may be alive at the same time.
    pub fn borrow(&self) -> (data: &T)
        ensures
            *data == self@,
    {
        &self.data
    }

    /// Borrows a mutable reference to the data stored in this cell.
    /// While the borrow is alive it is the sole way to reach the contents.
    pub fn borrow_mut(&mut self) -> (data: &mut T)
        ensures
            *data == old(self)@,
            final(self)@ == *final(data),
    {
        &mut self.data
    }
}

impl<T: Clone> SyncCell<T> {
    /// Gets the value contained in this cell.
    ///
    /// The result is a clone of the contents; for types whose `Clone`
    /// returns the value itself this is exactly `self@`.
    pub fn get(&self) -> (data: T)
        ensures
            cloned(self@, data),
    {
        self.data.clone()
    }
}

impl<T: Clone> Clone for SyncCell<T> {
    /// The clone holds a clone of the same value.
    fn clone(&self) -> (other: Self)
        ensures
            cloned(self@, other@),
    {
        Self::new(self.get())
    }
}

impl<T: Default> Default for SyncCell<T> {
    /// The default cell holds the default value of the wrapped type.
    fn default() -> (cell: Self)
        ensures
            call_ensures(T::default, (), cell@),
    {
        Self::new(T::default())
    }
}

impl<T> From<T> for SyncCell<T> {
    /// Wraps a value in a fresh cell.
    fn from(data: T) -> (cell: Self) {
        Self::new(data)
    }
}

impl<T> vstd::std_specs::convert::FromSpecImpl<T> for SyncCell<T> {
    open spec fn obeys_from_spec() -> bool {
        true
    }

    open spec fn from_spec(data: T) -> Self {
        SyncCell::spec_new(data)
    }
}

/// A freshly created cell holds exactly the value it was given, so the
/// first read on it yields that value back.
pub broadcast proof fn law_new_holds_value<T>(data: T)
    ensures
        (#[trigger] SyncCell::spec_new(data))@ == data,
{
}

/// After an assignment the cell holds exactly the assigned value,
/// whatever it held before.
pub broadcast proof fn law_set_holds_value<T>(cell: SyncCell<T>, value: T)
    ensures
        (#[trigger] cell.spec_set(value))@ == value,
{
}

/// Two successive assignments leave the cell exactly as the last one
/// alone would: the earlier write is fully absorbed.
pub broadcast proof fn law_last_write_wins<T>(cell: SyncCell<T>, first: T, last: T)
    ensures
        #[trigger] cell.spec_set(first).spec_set(last) == cell.spec_set(last),
{
}

/// Assigning to a cell the value it already holds leaves it unchanged.
pub broadcast proof fn law_set_same_is_noop<T>(cell: SyncCell<T>, value: T)
    requires
        cell@ == value,
    ensures
        #[trigger] cell.spec_set(value) == cell,
{
}

} // verus!

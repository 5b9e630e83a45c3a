//! A cell that stages written values until they are explicitly applied.

use vstd::prelude::*;
use vstd::std_specs::cmp::PartialEqSpec;
use vstd::std_specs::cmp::PartialOrdSpec;
use crate::cell::SyncCell;

verus! {

broadcast use
    crate::cell::law_new_holds_value,
    crate::cell::law_set_holds_value,
    crate::cell::law_last_write_wins,
    crate::cell::law_set_same_is_noop;

/// A cell that holds a value until any changes made are applied by use of
/// the `update` method.
///
/// Reading the cell returns the value as of the last call to `update`;
/// values written with `set` are staged aside and stay invisible until
/// the next `update` applies them. This allows a value to be scheduled
/// for replacement while in-progress work keeps reading the old one, and
/// the swap to be committed at a single, caller-chosen point.
///
/// In specifications the cell is described by two observers:
/// [`current`](Self::current), the value reads see now, and
/// [`pending`](Self::pending), the staged value if one is waiting.
pub struct HeldSyncCell<T> {
    /// The current value that is made available.
    current_value: SyncCell<T>,
    /// The value to use next.
    next_value: SyncCell<Option<T>>,
}

impl<T> HeldSyncCell<T> {
    /// The value that reads (`get`, `borrow`) observe now.
    pub closed spec fn current(self) -> T {
        self.current_value@
    }

    /// The staged value, if one has been `set` and not yet applied.
    pub closed spec fn pending(self) -> Option<T> {
        self.next_value@
    }

    /// The most up-to-date value: the staged one if present, else the
    /// current one. This is what `into_inner` releases.
    pub open spec fn latest(self) -> T {
        match self.pending() {
            Some(value) => value,
            None => self.current(),
        }
    }

    /// The cell that `new` constructs: `data` is current, nothing staged.
    pub closed spec fn spec_new(data: T) -> Self {
        HeldSyncCell {
            current_value: SyncCell::spec_new(data),
            next_value: SyncCell::spec_new(None),
        }
    }

    /// The cell left behind by `set`: the current value untouched, the
    /// staged slot holding `value` in place of whatever was there.
    pub closed spec fn spec_set(self, value: T) -> Self {
        HeldSyncCell {
            current_value: self.current_value,
            next_value: self.next_value.spec_set(Some(value)),
        }
    }

    /// The cell left behind by `update`: the staged value, if any, has
    /// become current, and the staged slot is empty either way.
    pub closed spec fn spec_update(self) -> Self {
        HeldSyncCell {
            current_value: match self.pending() {
                Some(value) => self.current_value.spec_set(value),
                None => self.current_value,
            },
            next_value: self.next_value.spec_set(None),
        }
    }

    /// Creates a new `HeldSyncCell`.
    ///
    /// - `data` - The initial value of the `HeldSyncCell`.
    pub fn new(data: T) -> (cell: Self)
        ensures
            cell == Self::spec_new(data),
            cell.current() == data,
            cell.pending() is None,
    {
        Self {
            current_value: SyncCell::new(data),
            next_value: SyncCell::new(None),
        }
    }

    /// Sets the value contained in this cell.
    /// This value will only become available once the `update` method is
    /// called; until then reads keep seeing the current value. A value
    /// staged earlier and not yet applied is discarded.
    ///
    /// - `value` - The new value of the cell.
    pub fn set(&mut self, value: T)
        ensures
            *final(self) == old(self).spec_set(value),
            final(self).current() == old(self).current(),
            final(self).pending() == Some(value),
    {
        self.next_value.set(Some(value));
    }

    /// Checks if a new value is available that can be applied by calling
    /// `update`.
    pub fn has_update(&self) -> (staged: bool)
        ensures
            staged == (self.pending() is Some),
    {
        self.next_value.borrow().is_some()
    }

    /// Updates the internal value of this cell.
    /// This involves replacing the current value with the incoming value
    /// if it is available; with nothing staged the cell is left as it was.
    pub fn update(&mut self)
        ensures
            *final(self) == old(self).spec_update(),
            final(self).pending() is None,
            final(self).current() == old(self).latest(),
    {
        if let Some(next) = self.next_value.replace(None) {
            self.current_value.set(next);
        }
    }

    /// Retrieves the inner value stored in this `HeldSyncCell`.
    /// This will return the most up-to-date value even if `update` has
    /// not been called: the staged value takes priority over the current
    /// one.
    pub fn into_inner(self) -> (value: T)
        ensures
            value == self.latest(),
    {
        let HeldSyncCell { current_value, next_value } = self;
        match next_value.into_inner() {
            Some(value) => value,
            None => current_value.into_inner(),
        }
    }

    /// Borrows an immutable reference to the data stored in this cell.
    /// This is a reference to the current value of the cell; a staged
    /// value stays out of sight.
    pub fn borrow(&self) -> (data: &T)
        ensures
            *data == self.current(),
    {
        self.current_value.borrow()
    }

    /// Borrows a mutable reference to the data stored in this cell.
    /// This is a reference to the current value of the cell, not the
    /// incoming value: writes through it change what reads observe
    /// immediately, bypassing the staging slot, which is left untouched.
    pub fn borrow_mut(&mut self) -> (data: &mut T)
        ensures
            *data == old(self).current(),
            final(self).current() == *final(data),
            final(self).pending() == old(self).pending(),
    {
        self.current_value.borrow_mut()
    }
}

impl<T: Clone> HeldSyncCell<T> {
    /// Gets the value contained in this cell: a clone of the current
    /// value, regardless of whether an update is staged.
    pub fn get(&self) -> (data: T)
        ensures
            cloned(self.current(), data),
    {
        self.current_value.get()
    }
}

impl<T: Clone> Clone for HeldSyncCell<T> {
    /// The clone starts over from the current value: it holds (a clone
    /// of) what reads observe on `self`, with nothing staged.
    fn clone(&self) -> (other: Self)
        ensures
            cloned(self.current(), other.current()),
            other.pending() is None,
    {
        Self::new(self.get())
    }
}

impl<T: Default> Default for HeldSyncCell<T> {
    /// The default cell holds the default value of the wrapped type as
    /// its current value, with nothing staged.
    fn default() -> (cell: Self)
        ensures
            call_ensures(T::default, (), cell.current()),
            cell.pending() is None,
    {
        Self::new(T::default())
    }
}

impl<T> From<T> for HeldSyncCell<T> {
    /// Wraps a value in a fresh cell with nothing staged.
    fn from(data: T) -> (cell: Self) {
        Self::new(data)
    }
}

impl<T> vstd::std_specs::convert::FromSpecImpl<T> for HeldSyncCell<T> {
    open spec fn obeys_from_spec() -> bool {
        true
    }

    open spec fn from_spec(data: T) -> Self {
        HeldSyncCell::spec_new(data)
    }
}

impl<T: PartialEq> PartialEq for HeldSyncCell<T> {
    /// Two cells compare equal when their current values do; staged
    /// values play no part in the comparison.
    fn eq(&self, other: &Self) -> bool {
        self.borrow().eq(other.borrow())
    }
}

impl<T: PartialEq> vstd::std_specs::cmp::PartialEqSpecImpl for HeldSyncCell<T> {
    open spec fn obeys_eq_spec() -> bool {
        T::obeys_eq_spec()
    }

    open spec fn eq_spec(&self, other: &Self) -> bool {
        self.current().eq_spec(&other.current())
    }
}

impl<T: Eq> Eq for HeldSyncCell<T> {

}

impl<T: PartialOrd> PartialOrd for HeldSyncCell<T> {
    /// Cells are ordered by their current values; staged values play no
    /// part in the comparison.
    fn partial_cmp(&self, other: &Self) -> Option<core::cmp::Ordering> {
        self.borrow().partial_cmp(other.borrow())
    }
}

impl<T: PartialOrd> vstd::std_specs::cmp::PartialOrdSpecImpl for HeldSyncCell<T> {
    open spec fn obeys_partial_cmp_spec() -> bool {
        T::obeys_partial_cmp_spec()
    }

    open spec fn partial_cmp_spec(&self, other: &Self) -> Option<core::cmp::Ordering> {
        self.current().partial_cmp_spec(&other.current())
    }
}

/// A fresh cell has nothing staged, and its initial value is current.
pub broadcast proof fn law_new_nothing_staged<T>(data: T)
    ensures
        (#[trigger] HeldSyncCell::spec_new(data)).current() == data,
        HeldSyncCell::spec_new(data).pending() is None,
{
}

/// Staging a value does not disturb what reads observe: after `set` the
/// current value is unchanged, and the new value sits in the staged slot.
pub broadcast proof fn law_staged_value_invisible<T>(cell: HeldSyncCell<T>, value: T)
    ensures
        (#[trigger] cell.spec_set(value)).current() == cell.current(),
        cell.spec_set(value).pending() == Some(value),
{
}

/// Staging is last-writer-wins: a second `set` before any `update` leaves
/// the cell exactly as the second `set` alone would, the earlier staged
/// value discarded.
pub proof fn law_staging_last_write_wins<T>(cell: HeldSyncCell<T>, first: T, last: T)
    ensures
        cell.spec_set(first).spec_set(last) == cell.spec_set(last),
{
}

/// With nothing staged, `update` is a no-op: the cell is left exactly as
/// it was.
pub proof fn law_update_without_staged_is_noop<T>(cell: HeldSyncCell<T>)
    requires
        cell.pending() is None,
    ensures
        cell.spec_update() == cell,
{
}

/// Applying an update makes the staged value current: after `set` and
/// then `update`, reads observe the staged value and nothing remains
/// staged.
pub proof fn law_update_applies_staged_value<T>(cell: HeldSyncCell<T>, value: T)
    ensures
        cell.spec_set(value).spec_update().current() == value,
        cell.spec_set(value).spec_update().pending() is None,
{
}

/// Updating is idempotent: a second `update` on the heels of a first one
/// finds nothing staged and leaves the cell exactly as the first left it.
pub proof fn law_update_idempotent<T>(cell: HeldSyncCell<T>)
    ensures
        cell.spec_update().spec_update() == cell.spec_update(),
{
}

/// The most up-to-date value prefers the staged slot: after `set`, the
/// value that `into_inner` releases is the staged one, not the current
/// one.
pub proof fn law_latest_prefers_staged<T>(cell: HeldSyncCell<T>, value: T)
    ensures
        cell.spec_set(value).latest() == value,
{
}

} // verus!

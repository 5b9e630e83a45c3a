//! Easy to use value-holder cell types, with a verified contract on every
//! operation.
//!
//! ## Included types
//! - [`SyncCell`] - a mutable single-value container in the spirit of
//!   `std::cell::Cell` and `std::cell::RefCell`, with verified contracts on
//!   every operation.
//! - [`HeldSyncCell`] - a cell that keeps handing out its previous value
//!   until the `update` method is called, at which point any staged change
//!   is applied.
//!
//! Exclusive access to a cell's contents is enforced by Rust's borrowing
//! rules: mutating operations take the cell by `&mut`. Because every
//! operation here is verified never to panic, the poisoned-lock failure
//! state of a runtime lock has no counterpart in this crate: there is no
//! abnormal exit that could leave a cell's contents half-written.

pub mod cell;
pub mod held;

pub use cell::SyncCell;
pub use held::HeldSyncCell;

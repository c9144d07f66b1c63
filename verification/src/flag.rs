//! The shared close flag: a boolean cell shared by both halves of a channel,
//! monotonic from open (`false`) to closed (`true`).
//!
//! The cell is an `AtomicBool` behind an `Arc`, read and written with
//! sequentially consistent ordering. The only store anywhere in this crate is
//! the `true` written when a handle is dropped, and the cell itself never
//! leaves this module, so the cell's value is monotone: once any handle reads
//! or writes `true`, every later read by any handle of the same cell returns
//! `true`. The ghost field `seen` records, per handle, whether that handle has
//! already observed the closed state; the trusted contracts below lean on the
//! monotonicity argument just given.

use vstd::prelude::*;

use std::sync::Arc;
use std::sync::atomic::AtomicBool;
use std::sync::atomic::Ordering;

verus! {

/// One handle's view of the shared close flag.
pub struct CloseFlag {
    cell: Arc<AtomicBool>,
    seen: Ghost<bool>,
}

impl CloseFlag {
    /// Whether this handle has already observed (or itself caused) the closed
    /// state. Monotone: no operation ever takes it back to `false`.
    pub closed spec fn seen_closed(&self) -> bool {
        self.seen@
    }

    /// A fresh, open flag, shared with no other handle yet.
    pub fn flag_new() -> (f: CloseFlag)
        ensures
            !f.seen_closed(),
    {
        CloseFlag { cell: Arc::new(AtomicBool::new(false)), seen: Ghost(false) }
    }

    /// A second handle to the same flag cell, for the other half of the
    /// channel. What this handle has observed, the new one has as well: the
    /// cell's value is monotone, so a state observed once stays observable.
    pub fn fork(&self) -> (f: CloseFlag)
        ensures
            f.seen_closed() == self.seen_closed(),
    {
        CloseFlag { cell: clone_cell(&self.cell), seen: Ghost(self.seen@) }
    }

    /// Relies on `AtomicBool::load` with `Ordering::SeqCst`: returns the
    /// cell's current value. Once this handle has seen `true`, only `true` is
    /// left to read, because the one store in this crate writes `true`.
    #[verifier::external_body]
    pub(crate) fn check_closed(&mut self) -> (closed: bool)
        ensures
            old(self).seen_closed() ==> closed,
            final(self).seen_closed() == (old(self).seen_closed() || closed),
    {
        self.cell.load(Ordering::SeqCst)
    }

}

impl Drop for CloseFlag {
    /// Cascades the close: a channel half going away takes its flag handle
    /// with it, and the surviving half's next operation reports
    /// `Disconnected`. Runs on every exit path of the owning scope. Relies
    /// on `AtomicBool::store` with `Ordering::SeqCst`, which writes `true`
    /// into the shared cell and does not panic; Verus cannot check a `Drop`
    /// body here.
    #[verifier::external_body]
    fn drop(&mut self)
        opens_invariants none
        no_unwind
    {
        self.cell.store(true, Ordering::SeqCst);
    }
}

/// Relies on `Arc::clone`: a second reference to the very same cell.
#[verifier::external_body]
fn clone_cell(cell: &Arc<AtomicBool>) -> (r: Arc<AtomicBool>)
    ensures
        r == *cell,
{
    Arc::clone(cell)
}

} // verus!

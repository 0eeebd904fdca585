//! A single-assignment cell that carries the result of a native callback to
//! the task that waits for it.

use vstd::prelude::*;

verus! {

/// Write-once cell: the first value written is kept, any later write is
/// refused and reported to the writer.
pub struct ReturnSlot<T> {
    value: Option<T>,
    written: bool,
}

/// The state of a slot after a write of `x` to a slot whose state was `v`.
pub open spec fn after_write<T>(v: (Option<T>, bool), x: T) -> (Option<T>, bool) {
    if v.1 {
        v
    } else {
        (Some(x), true)
    }
}

impl<T> View for ReturnSlot<T> {
    /// The value waiting to be taken, and whether a write has been accepted.
    type V = (Option<T>, bool);

    closed spec fn view(&self) -> (Option<T>, bool) {
        (self.value, self.written)
    }
}

impl<T> ReturnSlot<T> {
    /// An empty slot that has never been written.
    pub fn new() -> (r: Self)
        ensures
            r@ == (None::<T>, false),
    {
        ReturnSlot { value: None, written: false }
    }

    /// The body of the completion callback: stores `val` if nothing was
    /// written before. Returns `false` for a repeated call, which leaves the
    /// slot as it was.
    pub fn callback(&mut self, val: T) -> (accepted: bool)
        ensures
            accepted == !old(self)@.1,
            final(self)@ == after_write(old(self)@, val),
    {
        if self.written {
            false
        } else {
            self.value = Some(val);
            self.written = true;
            true
        }
    }

    /// Takes the stored value, if any, leaving the slot empty but still
    /// marked as written.
    pub fn try_take(&mut self) -> (r: Option<T>)
        ensures
            r == old(self)@.0,
            final(self)@ == (None::<T>, old(self)@.1),
    {
        self.value.take()
    }
}

/// Once a slot has accepted a write, later writes change nothing, and the
/// value a waiting task takes is the first one written.
pub proof fn lemma_first_write_wins<T>(v: (Option<T>, bool), x: T, y: T)
    ensures
        after_write(after_write(v, x), y) == after_write(v, x),
        !v.1 ==> after_write(after_write(v, x), y).0 == Some(x),
{
}

} // verus!

//! A flag that can be raised, and never lowered again.

use std::sync::atomic::{AtomicBool, Ordering};

use vstd::prelude::*;

verus! {

/// A flag between threads. Whoever holds it can raise it, as often as they like. Nobody can lower
/// it.
pub struct Latch {
    raised: AtomicBool,
}

impl Latch {
    /// The atomic behind the flag.
    pub closed spec fn flag(self) -> AtomicBool {
        self.raised
    }

    /// A flag that is not raised.
    pub fn new() -> (latch: Latch)
        ensures
            call_ensures(AtomicBool::new, (false,), latch.flag()),
    {
        Latch { raised: AtomicBool::new(false) }
    }

    /// Raises the flag.
    pub fn raise(&self)
        ensures
            call_ensures(AtomicBool::store, (&self.flag(), true, Ordering::Release), ()),
    {
        self.raised.store(true, Ordering::Release);
    }

    /// Reads the flag.
    pub fn is_raised(&self) -> (raised: bool)
        ensures
            call_ensures(AtomicBool::load, (&self.flag(), Ordering::Acquire), raised),
    {
        self.raised.load(Ordering::Acquire)
    }
}

} // verus!

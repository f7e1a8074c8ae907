//! Initialization-state guard for the translation-table singleton.

use vstd::prelude::*;

verus! {

/// A write-once-then-frozen container: the guarded value may be exchanged
/// freely while uninitialized, and becomes read-only once the one-way
/// transition to the initialized state has been taken.
///
/// The initialization state is ghost, so the guard is a transparent
/// wrapper: its storage footprint equals the guarded value's footprint
/// exactly, which keeps address-space budgeting for the translation-table
/// singleton correct.
pub struct InitStateLock<T> {
    data: T,
    init_done: Ghost<bool>,
}

impl<T> InitStateLock<T> {
    /// The guarded value.
    pub closed spec fn data_spec(&self) -> T {
        self.data
    }

    /// Whether the one-way transition to the initialized state has been taken.
    pub closed spec fn is_initialized(&self) -> bool {
        self.init_done@
    }

    /// Wrap `data` in an uninitialized guard.
    pub fn new(data: T) -> (s: Self)
        ensures
            s.data_spec() == data,
            !s.is_initialized(),
    {
        InitStateLock { data, init_done: Ghost(false) }
    }

    /// Exclusive write access during the initialization phase: store `data`
    /// and hand back the previous value.
    pub fn replace(&mut self, data: T) -> (prev: T)
        requires
            !old(self).is_initialized(),
        ensures
            prev == old(self).data_spec(),
            final(self).data_spec() == data,
            !final(self).is_initialized(),
    {
        let mut incoming = data;
        core::mem::swap(&mut self.data, &mut incoming);
        incoming
    }

    /// Take the one-way transition from uninitialized to initialized,
    /// freezing the guarded value.
    pub fn mark_initialized(&mut self)
        requires
            !old(self).is_initialized(),
        ensures
            final(self).is_initialized(),
            final(self).data_spec() == old(self).data_spec(),
    {
        self.init_done = Ghost(true);
    }

    /// Read access to the guarded value, available only once initialized.
    pub fn read(&self) -> (r: &T)
        requires
            self.is_initialized(),
        ensures
            *r == self.data_spec(),
    {
        &self.data
    }
}

} // verus!

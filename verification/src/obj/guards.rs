//! Guards that stand for a live binding to a stored instance.
//!
//! A guard is handed out by the storage when a binding is taken and handed
//! back when it ends. It carries the key of the storage that handed it out,
//! and only that storage takes it back or lets it reach the payload. It
//! carries no reference into the storage: the payload is reached through
//! the storage, with the guard as the caller's token.

use vstd::prelude::*;

verus! {

/// Token of a shared binding.
#[derive(Debug)]
pub struct GdRef {
    key: u64,
    cell_ref: usize,
}

impl GdRef {
    /// The key of the storage that handed the guard out.
    pub closed spec fn key(self) -> u64 {
        self.key
    }

    /// The number of shared bindings that were live once this one was taken.
    pub closed spec fn ordinal(self) -> usize {
        self.cell_ref
    }

    pub(crate) fn from_cell(key: u64, cell_ref: usize) -> (guard: Self)
        ensures
            guard.key() == key,
            guard.ordinal() == cell_ref,
    {
        Self { key, cell_ref }
    }

    /// The key of the storage that handed the guard out.
    pub fn storage_key(&self) -> (key: u64)
        ensures
            key == self.key(),
    {
        self.key
    }

    /// The number of shared bindings that were live once this one was taken.
    pub fn live_count(&self) -> (n: usize)
        ensures
            n == self.ordinal(),
    {
        self.cell_ref
    }
}

/// Token of the exclusive binding.
#[derive(Debug)]
pub struct GdMut {
    key: u64,
}

impl GdMut {
    /// The key of the storage that handed the guard out.
    pub closed spec fn key(self) -> u64 {
        self.key
    }

    pub(crate) fn from_cell(key: u64) -> (guard: Self)
        ensures
            guard.key() == key,
    {
        Self { key }
    }

    /// The key of the storage that handed the guard out.
    pub fn storage_key(&self) -> (key: u64)
        ensures
            key == self.key(),
    {
        self.key
    }
}

} // verus!

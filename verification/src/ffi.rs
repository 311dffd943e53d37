//! The engine's interface, once it has been handed over.
//!
//! The interface is handed over once, when the library is loaded, and read
//! ever after. Reading it before is an error that nothing can recover from,
//! so it is ruled out: every read states that the binding is initialized.

use vstd::prelude::*;

verus! {

/// What the engine hands over when the library is loaded, and the table of
/// functions that is looked up from it once.
pub struct GodotBinding<I, L, M> {
    pub interface: I,
    pub library: L,
    pub method_table: M,
}

/// The binding to the engine: empty until it is initialized, fixed after.
pub struct Binding<I, L, M> {
    slot: Option<GodotBinding<I, L, M>>,
}

impl<I, L, M> Binding<I, L, M> {
    /// What has been handed over, if anything.
    pub closed spec fn value(self) -> Option<GodotBinding<I, L, M>> {
        self.slot
    }

    /// Whether the binding has been initialized.
    pub open spec fn initialized(self) -> bool {
        self.value().is_some()
    }

    /// A binding that awaits its initialization.
    pub fn new() -> (binding: Self)
        ensures
            !binding.initialized(),
    {
        Binding { slot: None }
    }

    /// Whether the binding has been initialized.
    pub fn is_initialized(&self) -> (yes: bool)
        ensures
            yes == self.initialized(),
    {
        self.slot.is_some()
    }

    /// Takes what the engine hands over. To be called once, before anything
    /// is read.
    pub fn initialize(&mut self, interface: I, library: L, method_table: M)
        requires
            !old(self).initialized(),
        ensures
            final(self).value() == Some(GodotBinding { interface, library, method_table }),
    {
        self.slot = Some(GodotBinding { interface, library, method_table });
    }

    /// The engine's interface.
    pub fn get_interface(&self) -> (interface: &I)
        requires
            self.initialized(),
        ensures
            *interface == self.value().unwrap().interface,
    {
        &unwrap_ref_unchecked(&self.slot).interface
    }

    /// The handle under which the engine knows this library.
    pub fn get_library(&self) -> (library: &L)
        requires
            self.initialized(),
        ensures
            *library == self.value().unwrap().library,
    {
        &unwrap_ref_unchecked(&self.slot).library
    }

    /// The table of functions looked up from the interface.
    pub fn method_table(&self) -> (method_table: &M)
        requires
            self.initialized(),
        ensures
            *method_table == self.value().unwrap().method_table,
    {
        &unwrap_ref_unchecked(&self.slot).method_table
    }
}

/// The value inside an option that is known to hold one.
pub fn unwrap_ref_unchecked<T>(opt: &Option<T>) -> (value: &T)
    requires
        opt.is_some(),
    ensures
        *value == opt.unwrap(),
{
    match opt {
        Some(val) => val,
        None => unreached(),
    }
}

} // verus!

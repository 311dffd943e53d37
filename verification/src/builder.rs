//! Builders through which a class registers its members.

use vstd::prelude::*;
use std::marker::PhantomData;

verus! {

/// Collects the members of class `C` while it is being registered.
pub struct ClassBuilder<C> {
    _c: PhantomData<C>,
}

impl<C> ClassBuilder<C> {
    pub fn new() -> Self {
        Self { _c: PhantomData }
    }

    /// Begins the description of the virtual method `name`, implemented by
    /// `method`.
    pub fn virtual_method<'cb, F>(&'cb mut self, name: &'cb str, method: F) -> (builder:
        MethodBuilder<'cb, C, F>)
        ensures
            builder.name()@ == name@,
            builder.method() == method,
    {
        MethodBuilder::new(self, name, method)
    }
}

/// Describes one method of class `C`; ended by [`MethodBuilder::done`].
#[must_use]
pub struct MethodBuilder<'cb, C, F> {
    class_builder: &'cb mut ClassBuilder<C>,
    name: &'cb str,
    method: F,
}

impl<'cb, C, F> MethodBuilder<'cb, C, F> {
    /// The name under which the method is registered.
    pub closed spec fn name(self) -> &'cb str {
        self.name
    }

    /// The function that implements the method.
    pub closed spec fn method(self) -> F {
        self.method
    }

    pub fn new(class_builder: &'cb mut ClassBuilder<C>, name: &'cb str, method: F) -> (builder:
        Self)
        ensures
            builder.name()@ == name@,
            builder.method() == method,
    {
        Self { class_builder, name, method }
    }

    /// The name under which the method is registered.
    pub fn method_name(&self) -> (name: &'cb str)
        ensures
            name@ == self.name()@,
    {
        self.name
    }

    /// Ends the description and releases the class builder.
    pub fn done(self) {
    }
}

} // verus!

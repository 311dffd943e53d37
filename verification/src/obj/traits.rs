//! What a type must say of itself to be managed by the engine.

use vstd::prelude::*;
use crate::obj::mem::Memory;

verus! {

/// Who declares a class.
#[derive(Copy, Clone, Debug, PartialEq, Eq, Structural)]
pub enum Domain {
    /// A class that the engine provides.
    EngineDomain,
    /// A class that the user declares as a Rust type.
    UserDomain,
}

/// Makes a type eligible to be managed by the engine and held in a
/// [`Gd`](crate::obj::gd::Gd) handle.
///
/// Each function says one thing about the class, and the specification
/// beside it says the same to the verifier. A class that is declared where
/// nothing is verified implements the functions alone.
pub trait GodotClass: Sized {
    /// The name under which the class is registered with the engine.
    open spec fn class_name_spec() -> Seq<char> {
        Seq::empty()
    }

    /// The name of the direct base class.
    open spec fn base_class_name_spec() -> Seq<char> {
        Seq::empty()
    }

    /// How instances of the class are freed.
    open spec fn memory_spec() -> Memory {
        Memory::ManualMemory
    }

    /// Who declares the class.
    open spec fn declarer_spec() -> Domain {
        Domain::UserDomain
    }

    fn class_name() -> (name: &'static str)
        ensures
            name@ == Self::class_name_spec(),
    ;

    fn base_class_name() -> (name: &'static str)
        ensures
            name@ == Self::base_class_name_spec(),
    ;

    fn memory() -> (memory: Memory)
        ensures
            memory == Self::memory_spec(),
    ;

    fn declarer() -> (domain: Domain)
        ensures
            domain == Self::declarer_spec(),
    ;
}

/// The unit type stands for "no base"; only the root class has it as base.
impl GodotClass for () {
    open spec fn class_name_spec() -> Seq<char> {
        "(no base)"@
    }

    open spec fn base_class_name_spec() -> Seq<char> {
        "(no base)"@
    }

    open spec fn memory_spec() -> Memory {
        Memory::ManualMemory
    }

    open spec fn declarer_spec() -> Domain {
        Domain::EngineDomain
    }

    fn class_name() -> (name: &'static str) {
        "(no base)"
    }

    fn base_class_name() -> (name: &'static str) {
        "(no base)"
    }

    fn memory() -> (memory: Memory) {
        Memory::ManualMemory
    }

    fn declarer() -> (domain: Domain) {
        Domain::EngineDomain
    }
}

} // verus!

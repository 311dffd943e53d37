//! Handles to objects that the engine owns.
//!
//! A handle remembers the identifier of its object. The object may be
//! destroyed behind the handle's back, so the identifier is a cache: it is
//! checked against the engine whenever it is read, and forgotten once the
//! engine no longer knows it. What the engine answers is passed in; what the
//! engine is to be asked comes back as a [`MemAction`].

use vstd::prelude::*;
use std::marker::PhantomData;
use crate::builtin::variant::variant_traits::VariantConversionError;
use crate::builtin::variant::variant_type::VariantType;
use crate::builtin::variant::Variant;
use crate::codegen::context::{edges, inherits_from, InheritanceTree};
use crate::obj::guards::{GdMut, GdRef};
use crate::obj::instance_id::InstanceId;
use crate::obj::mem::{alias_dropped, alias_taken, round_trip_actions, MemAction, Memory};
use crate::obj::traits::{Domain, GodotClass};
use crate::storage::InstanceStorage;

verus! {

/// Why an object cannot be freed by hand.
#[derive(Copy, Clone, Debug, PartialEq, Eq, Structural)]
pub enum FreeError {
    /// The object is reference-counted; it goes with its last reference.
    RefCounted,
    /// The object has been destroyed already.
    AlreadyDestroyed,
}

/// Handle to an object of class `T` that the engine owns.
pub struct Gd<T: GodotClass> {
    cached_instance_id: Option<InstanceId>,
    _marker: PhantomData<T>,
}

/// The cache after the engine was asked: an identifier that the engine no
/// longer knows is forgotten, and nothing is ever learned again.
pub open spec fn refreshed(cached: Option<InstanceId>, is_valid: bool) -> Option<InstanceId> {
    if cached.is_some() && is_valid {
        cached
    } else {
        None
    }
}

/// Whether an object known by `cached` is reference-counted under `memory`.
/// Where the strategy is found at run time, the identifier tells; an object
/// that is gone counts as not counted.
pub open spec fn counted(memory: Memory, cached: Option<InstanceId>) -> bool {
    memory.counts(cached.is_some() && cached.unwrap().marks_ref_counted())
}

/// Whether an object can be freed by hand: it must be alive and not counted.
pub open spec fn free_outcome(memory: Memory, cached: Option<InstanceId>, is_valid: bool) -> Result<
    InstanceId,
    FreeError,
> {
    if counted(memory, cached) {
        Err(FreeError::RefCounted)
    } else if refreshed(cached, is_valid).is_none() {
        Err(FreeError::AlreadyDestroyed)
    } else {
        Ok(cached.unwrap())
    }
}

impl<T: GodotClass> Gd<T> {
    /// The identifier that the handle remembers.
    pub closed spec fn cached_id(self) -> Option<InstanceId> {
        self.cached_instance_id
    }

    /// A handle to the object that the engine knows as `instance_id`.
    pub fn from_instance_id(instance_id: InstanceId) -> (handle: Self)
        ensures
            handle.cached_id() == Some(instance_id),
    {
        Self { cached_instance_id: Some(instance_id), _marker: PhantomData }
    }

    /// The identifier that the handle remembers, unchecked.
    pub fn cached_instance_id(&self) -> (cached: Option<InstanceId>)
        ensures
            cached == self.cached_id(),
    {
        self.cached_instance_id
    }

    /// Whether the object is reference-counted.
    pub fn is_ref_counted(&self) -> (yes: bool)
        ensures
            yes == counted(T::memory_spec(), self.cached_id()),
    {
        let runtime = match self.cached_instance_id {
            Some(id) => id.is_ref_counted(),
            None => false,
        };
        T::memory().is_ref_counted(runtime)
    }

    /// The identifier of the object, or `None` if the object is gone.
    /// `is_valid` is the engine's answer to whether it still knows the
    /// remembered identifier. Once the object is gone the handle forgets it.
    pub fn instance_id_or_none(&mut self, is_valid: bool) -> (instance_id: Option<InstanceId>)
        ensures
            instance_id == refreshed(old(self).cached_id(), is_valid),
            final(self).cached_id() == refreshed(old(self).cached_id(), is_valid),
    {
        match self.cached_instance_id {
            None => None,
            Some(known_id) => {
                if is_valid {
                    Some(known_id)
                } else {
                    self.cached_instance_id = None;
                    None
                }
            },
        }
    }

    /// The identifier of the object, which must be alive: an identifier
    /// means something for a live object only.
    pub fn instance_id(&mut self, is_valid: bool) -> (instance_id: InstanceId)
        requires
            refreshed(old(self).cached_id(), is_valid).is_some(),
        ensures
            Some(instance_id) == old(self).cached_id(),
            final(self).cached_id() == old(self).cached_id(),
    {
        match self.instance_id_or_none(is_valid) {
            Some(id) => id,
            None => {
                proof {
                    assert(false);
                }
                unreached()
            },
        }
    }

    /// Whether the object is alive. Refreshes the remembered identifier.
    pub fn is_instance_valid(&mut self, is_valid: bool) -> (alive: bool)
        ensures
            alive == refreshed(old(self).cached_id(), is_valid).is_some(),
            final(self).cached_id() == refreshed(old(self).cached_id(), is_valid),
    {
        self.instance_id_or_none(is_valid).is_some()
    }

    /// Takes a shared binding to the Rust instance of the object, held in
    /// `storage`. Only objects of classes that the user declares have one.
    /// No exclusive binding may be live, through this handle or another.
    pub fn bind(&self, storage: &mut InstanceStorage<T>) -> (guard: GdRef)
        requires
            T::declarer_spec() == Domain::UserDomain,
            old(storage).borrows().admits_shared(),
            old(storage).borrows().shared < usize::MAX,
        ensures
            final(storage).borrows() == old(storage).borrows().with_shared(),
            final(storage).instance() == old(storage).instance(),
            final(storage).lifecycle_state() == old(storage).lifecycle_state(),
            final(storage).ref_count() == old(storage).ref_count(),
            guard.ordinal() == final(storage).borrows().shared,
            final(storage).key() == old(storage).key(),
            final(storage).holds(guard),
    {
        storage.get()
    }

    /// Takes the exclusive binding to the Rust instance of the object, held
    /// in `storage`. No other binding may be live, through this handle or
    /// another.
    pub fn bind_mut(&mut self, storage: &mut InstanceStorage<T>) -> (guard: GdMut)
        requires
            T::declarer_spec() == Domain::UserDomain,
            old(storage).borrows().admits_exclusive(),
        ensures
            final(storage).borrows() == old(storage).borrows().with_exclusive(),
            final(storage).instance() == old(storage).instance(),
            final(storage).lifecycle_state() == old(storage).lifecycle_state(),
            final(storage).ref_count() == old(storage).ref_count(),
            final(self).cached_id() == old(self).cached_id(),
            final(storage).key() == old(storage).key(),
            final(storage).holds_mut(guard),
    {
        storage.get_mut()
    }

    /// A further handle to the same object, and what to ask of the engine
    /// for it: one more reference where the object is counted.
    pub fn share(&self) -> (shared: (Self, MemAction))
        ensures
            shared.0.cached_id() == self.cached_id(),
            shared.1 == alias_taken(counted(T::memory_spec(), self.cached_id())),
    {
        let action = if self.is_ref_counted() {
            MemAction::IncRef
        } else {
            MemAction::Nothing
        };
        (Self { cached_instance_id: self.cached_instance_id, _marker: PhantomData }, action)
    }

    /// Gives the handle up, and says what to ask of the engine: one
    /// reference fewer where the object is counted, nothing otherwise. An
    /// object that is freed by hand stays.
    pub fn release(self) -> (action: MemAction)
        ensures
            action == alias_dropped(counted(T::memory_spec(), self.cached_id())),
    {
        if self.is_ref_counted() {
            MemAction::DecRef
        } else {
            MemAction::Nothing
        }
    }

    /// Whether the object can be freed by hand, and if not, why.
    pub fn check_free(&self, is_valid: bool) -> (outcome: Result<InstanceId, FreeError>)
        ensures
            outcome == free_outcome(T::memory_spec(), self.cached_id(), is_valid),
    {
        if self.is_ref_counted() {
            return Err(FreeError::RefCounted);
        }
        match self.cached_instance_id {
            Some(id) => {
                if is_valid {
                    Ok(id)
                } else {
                    Err(FreeError::AlreadyDestroyed)
                }
            },
            None => Err(FreeError::AlreadyDestroyed),
        }
    }

    /// Frees the object by hand: gives the handle up and names the object
    /// that the engine is to destroy. The object must be alive and not
    /// counted; freeing twice is a usage error.
    pub fn free(self, is_valid: bool) -> (destroyed: InstanceId)
        requires
            free_outcome(T::memory_spec(), self.cached_id(), is_valid).is_ok(),
        ensures
            Some(destroyed) == self.cached_id(),
    {
        match self.check_free(is_valid) {
            Ok(id) => id,
            Err(_) => {
                proof {
                    assert(false);
                }
                unreached()
            },
        }
    }

    /// The same object seen as an instance of its base class `Base`.
    /// Nothing is asked of the engine: the handle is the same reference.
    pub fn upcast<Base: GodotClass>(self) -> (base: Gd<Base>)
        ensures
            base.cached_id() == self.cached_id(),
    {
        Gd { cached_instance_id: self.cached_instance_id, _marker: PhantomData }
    }

    /// The same object seen as an instance of `Derived`, if the class of the
    /// object at run time, `runtime_class`, is `Derived` or inherits from it
    /// in `tree`; `None` otherwise.
    pub fn try_cast<Derived: GodotClass>(
        self,
        tree: &InheritanceTree,
        runtime_class: &str,
    ) -> (derived: Option<Gd<Derived>>)
        ensures
            derived.is_some() == inherits_from(
                edges(tree.derived_to_base@),
                runtime_class@,
                Derived::class_name_spec(),
            ),
            derived.is_some() ==> derived.unwrap().cached_id() == self.cached_id(),
    {
        if tree.inherits(runtime_class, Derived::class_name()) {
            Some(Gd { cached_instance_id: self.cached_instance_id, _marker: PhantomData })
        } else {
            None
        }
    }

    /// The same object seen as an instance of `Derived`. The class of the
    /// object at run time must be `Derived` or inherit from it.
    pub fn cast<Derived: GodotClass>(self, tree: &InheritanceTree, runtime_class: &str) -> (derived:
        Gd<Derived>)
        requires
            inherits_from(
                edges(tree.derived_to_base@),
                runtime_class@,
                Derived::class_name_spec(),
            ),
        ensures
            derived.cached_id() == self.cached_id(),
    {
        Gd { cached_instance_id: self.cached_instance_id, _marker: PhantomData }
    }

    /// The variant that holds the object, and what that does to the count:
    /// the variant is one more alias, which the engine counts by what the
    /// object is at run time.
    pub fn to_variant(&self) -> (converted: (Variant, MemAction))
        ensures
            converted.0 == Variant::Object(self.cached_id()),
            converted.1 == alias_taken(converted.0.holds_counted()),
    {
        let variant = Variant::Object(self.cached_instance_id);
        let action = if variant.is_counted() {
            MemAction::IncRef
        } else {
            MemAction::Nothing
        };
        (variant, action)
    }

    /// A handle to the object that `variant` holds, and what to ask of the
    /// engine for it: the handle is one more alias, counted by the strategy
    /// of its class. Fails where the variant holds no object.
    pub fn try_from_variant(variant: &Variant) -> (result: Result<
        (Self, MemAction),
        VariantConversionError,
    >)
        ensures
            result.is_ok() == (variant.type_of() == VariantType::Object),
            result.is_ok() ==> Variant::Object(result.unwrap().0.cached_id()) == *variant
                && result.unwrap().1 == alias_taken(
                counted(T::memory_spec(), result.unwrap().0.cached_id()),
            ),
    {
        match variant {
            Variant::Object(Some(id)) => {
                let handle = Self::from_instance_id(*id);
                let action = if handle.is_ref_counted() {
                    MemAction::IncRef
                } else {
                    MemAction::Nothing
                };
                Ok((handle, action))
            },
            _ => Err(VariantConversionError),
        }
    }
}

/// Whether the identifier that a handle remembers marks a counted object.
pub open spec fn marked(cached: Option<InstanceId>) -> bool {
    cached.is_some() && cached.unwrap().marks_ref_counted()
}

/// The trip of a handle into a variant and back, and the giving up of both,
/// does to the count what `round_trip_actions` says: what `Gd::to_variant`,
/// `Gd::try_from_variant`, `Variant::release` and `Gd::release` return, in
/// this order, for a handle under `memory` that remembers `cached`.
pub proof fn lemma_round_trip_through_variant(memory: Memory, cached: Option<InstanceId>)
    ensures
        seq![
            alias_taken(Variant::Object(cached).holds_counted()),
            alias_taken(counted(memory, cached)),
            alias_dropped(Variant::Object(cached).holds_counted()),
            alias_dropped(counted(memory, cached)),
        ] == round_trip_actions(memory, marked(cached)),
{
}

/// Once the engine no longer knows an object, every handle reports it gone,
/// whatever it remembered, and keeps doing so whatever the engine answers
/// later.
pub proof fn lemma_dead_object_detected(cached: Option<InstanceId>, later_answer: bool)
    ensures
        refreshed(cached, false).is_none(),
        refreshed(refreshed(cached, false), later_answer).is_none(),
{
}

/// An object cannot be freed twice: after a free the engine no longer knows
/// it, and freeing it again is refused.
pub proof fn lemma_no_double_free(memory: Memory, cached: Option<InstanceId>)
    ensures
        free_outcome(memory, cached, false).is_err(),
{
}

} // verus!

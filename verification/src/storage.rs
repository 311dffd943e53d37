//! Storage and lifecycle of the user's extension class instances.
//!
//! An [`InstanceStorage`] owns the payload that belongs to one engine object
//! and tracks, at run time, who is currently bound to it. Calls may re-enter
//! from the engine while a binding is live, so the discipline "one exclusive
//! binding or any number of shared ones" is kept by counting, and every
//! operation states which bindings it needs and which it leaves behind.
//!
//! Each storage takes a key from a [`KeySource`] when it is built, and a
//! source hands out no key twice. The guards that a storage hands out carry
//! its key, and a storage accepts no guard that carries another. So among
//! the storages that draw on one source, a guard fits the storage that
//! handed it out and no other.

use vstd::prelude::*;
use crate::obj::guards::{GdMut, GdRef};

verus! {

/// Stage in the life of a stored instance.
#[derive(Copy, Clone, Debug, PartialEq, Eq, Structural)]
pub enum Lifecycle {
    Alive,
    Destroying,
    /// Reading this is typically already too late; kept for diagnostics.
    Dead,
}

/// Which bindings to a payload are live: a count of shared ones and a flag
/// for the exclusive one.
#[derive(Copy, Clone, Debug, PartialEq, Eq, Structural)]
pub struct BorrowState {
    pub shared: usize,
    pub exclusive: bool,
}

impl BorrowState {
    /// Never both kinds at once.
    pub open spec fn wf(self) -> bool {
        !(self.exclusive && self.shared > 0)
    }

    pub open spec fn unbound() -> BorrowState {
        BorrowState { shared: 0, exclusive: false }
    }

    /// A further shared binding is admitted exactly when no exclusive one is live.
    pub open spec fn admits_shared(self) -> bool {
        !self.exclusive
    }

    /// An exclusive binding is admitted exactly when nothing is bound.
    pub open spec fn admits_exclusive(self) -> bool {
        !self.exclusive && self.shared == 0
    }

    pub open spec fn with_shared(self) -> BorrowState {
        BorrowState { shared: (self.shared + 1) as usize, exclusive: self.exclusive }
    }

    pub open spec fn without_shared(self) -> BorrowState {
        BorrowState { shared: (self.shared - 1) as usize, exclusive: self.exclusive }
    }

    pub open spec fn with_exclusive(self) -> BorrowState {
        BorrowState { shared: self.shared, exclusive: true }
    }

    pub open spec fn without_exclusive(self) -> BorrowState {
        BorrowState { shared: self.shared, exclusive: false }
    }

    /// The state after `n` shared bindings were taken in a row.
    pub open spec fn with_shared_times(self, n: nat) -> BorrowState
        decreases n,
    {
        if n == 0 {
            self
        } else {
            self.with_shared_times((n - 1) as nat).with_shared()
        }
    }
}

/// Hands out the keys of storages, each once.
#[derive(Debug)]
pub struct KeySource {
    next: u64,
}

impl KeySource {
    /// Whether the source has handed out `key`.
    pub closed spec fn issued(self, key: u64) -> bool {
        key < self.next
    }

    /// Whether the source has no key left.
    pub closed spec fn exhausted(self) -> bool {
        self.next == u64::MAX
    }

    /// A source that has handed out nothing yet.
    pub fn new() -> (source: Self)
        ensures
            forall|key: u64| !#[trigger] source.issued(key),
            !source.exhausted(),
    {
        KeySource { next: 0 }
    }

    /// Whether the source has no key left.
    pub fn is_exhausted(&self) -> (yes: bool)
        ensures
            yes == self.exhausted(),
    {
        self.next == u64::MAX
    }

    /// Whether the source has handed out `key`.
    pub fn has_issued(&self, key: u64) -> (yes: bool)
        ensures
            yes == self.issued(key),
    {
        key < self.next
    }

    /// Hands out a key that the source has not handed out before, and
    /// remembers it.
    pub fn fresh(&mut self) -> (key: u64)
        requires
            !old(self).exhausted(),
        ensures
            !old(self).issued(key),
            forall|k: u64| #[trigger] final(self).issued(k) <==> old(self).issued(k) || k == key,
    {
        let key = self.next;
        self.next = self.next + 1;
        key
    }
}

/// Keys that one source hands out one after the other differ: the second is
/// handed out when the first has been, and no key is handed out twice.
pub proof fn lemma_fresh_keys_differ(
    before: KeySource,
    between: KeySource,
    after: KeySource,
    first: u64,
    second: u64,
)
    requires
        !before.issued(first),
        forall|k: u64| #[trigger] between.issued(k) <==> before.issued(k) || k == first,
        !between.issued(second),
        forall|k: u64| #[trigger] after.issued(k) <==> between.issued(k) || k == second,
    ensures
        first != second,
        after.issued(first) && after.issued(second),
{
    assert(between.issued(first));
}

/// Manages storage and lifecycle of one instance of a user's extension class.
pub struct InstanceStorage<T> {
    key: u64,
    user_instance: T,
    borrows: BorrowState,
    lifecycle: Lifecycle,
    godot_ref_count: i32,
}

impl<T> InstanceStorage<T> {
    #[verifier::type_invariant]
    spec fn inv(self) -> bool {
        self.borrows.wf()
    }

    /// The key that ties the storage to the guards it hands out.
    pub closed spec fn key(self) -> u64 {
        self.key
    }

    /// The stored payload.
    pub closed spec fn instance(self) -> T {
        self.user_instance
    }

    /// The live bindings.
    pub closed spec fn borrows(self) -> BorrowState {
        self.borrows
    }

    pub closed spec fn lifecycle_state(self) -> Lifecycle {
        self.lifecycle
    }

    /// The engine's reference count as last mirrored here.
    pub closed spec fn ref_count(self) -> int {
        self.godot_ref_count as int
    }

    /// Whether the engine has begun, or finished, destroying the instance.
    pub open spec fn is_destroyed(self) -> bool {
        self.lifecycle_state() != Lifecycle::Alive
    }

    /// The live bindings; shared and exclusive ones never coexist.
    pub fn borrow_state(&self) -> (state: BorrowState)
        ensures
            state == self.borrows(),
            state.wf(),
    {
        proof {
            use_type_invariant(self);
        }
        self.borrows
    }

    /// Whether `guard` stands for a shared binding that is live here.
    pub open spec fn holds(self, guard: GdRef) -> bool {
        guard.key() == self.key() && self.borrows().shared > 0
    }

    /// Whether `guard` stands for the exclusive binding that is live here.
    pub open spec fn holds_mut(self, guard: GdMut) -> bool {
        guard.key() == self.key() && self.borrows().exclusive
    }

    /// The key that ties the storage to the guards it hands out.
    pub fn storage_key(&self) -> (key: u64)
        ensures
            key == self.key(),
    {
        self.key
    }

    /// Whether `guard` stands for a shared binding that is live here.
    pub fn accepts(&self, guard: &GdRef) -> (yes: bool)
        ensures
            yes == self.holds(*guard),
    {
        guard.storage_key() == self.key && self.borrows.shared > 0
    }

    /// Whether `guard` stands for the exclusive binding that is live here.
    pub fn accepts_mut(&self, guard: &GdMut) -> (yes: bool)
        ensures
            yes == self.holds_mut(*guard),
    {
        guard.storage_key() == self.key && self.borrows.exclusive
    }

    /// Takes ownership of a freshly built payload: alive, unbound, with the
    /// one reference the engine holds. The storage takes a key from `keys`
    /// that no storage has taken from it before.
    pub fn construct(user_instance: T, keys: &mut KeySource) -> (storage: Self)
        requires
            !old(keys).exhausted(),
        ensures
            !old(keys).issued(storage.key()),
            forall|k: u64| #[trigger]
                final(keys).issued(k) <==> old(keys).issued(k) || k == storage.key(),
            storage.instance() == user_instance,
            storage.borrows() == BorrowState::unbound(),
            storage.lifecycle_state() == Lifecycle::Alive,
            storage.ref_count() == 1,
    {
        let key = keys.fresh();
        Self {
            key,
            user_instance,
            borrows: BorrowState { shared: 0, exclusive: false },
            lifecycle: Lifecycle::Alive,
            godot_ref_count: 1,
        }
    }

    /// Mirrors one more engine-side reference.
    pub fn on_inc_ref(&mut self)
        requires
            old(self).ref_count() < i32::MAX,
        ensures
            final(self).ref_count() == old(self).ref_count() + 1,
            final(self).key() == old(self).key(),
            final(self).instance() == old(self).instance(),
            final(self).borrows() == old(self).borrows(),
            final(self).lifecycle_state() == old(self).lifecycle_state(),
    {
        proof {
            use_type_invariant(&*self);
        }
        self.godot_ref_count = self.godot_ref_count + 1;
    }

    /// Mirrors one engine-side reference fewer.
    pub fn on_dec_ref(&mut self)
        requires
            old(self).ref_count() > i32::MIN,
        ensures
            final(self).ref_count() == old(self).ref_count() - 1,
            final(self).key() == old(self).key(),
            final(self).instance() == old(self).instance(),
            final(self).borrows() == old(self).borrows(),
            final(self).lifecycle_state() == old(self).lifecycle_state(),
    {
        proof {
            use_type_invariant(&*self);
        }
        self.godot_ref_count = self.godot_ref_count - 1;
    }

    /// The mirrored reference count.
    pub fn godot_ref_count(&self) -> (count: i32)
        ensures
            count == self.ref_count(),
    {
        self.godot_ref_count
    }

    /// The lifecycle flag.
    pub fn lifecycle(&self) -> (stage: Lifecycle)
        ensures
            stage == self.lifecycle_state(),
    {
        self.lifecycle
    }

    /// Moves the storage to the heap, ready to be handed to the engine as an
    /// opaque instance pointer.
    #[must_use]
    pub fn into_raw(self) -> (boxed: Box<Self>)
        ensures
            *boxed == self,
    {
        Box::new(self)
    }

    /// Whether a shared binding can be taken now.
    pub fn can_get(&self) -> (ok: bool)
        ensures
            ok == (self.borrows().admits_shared() && self.borrows().shared < usize::MAX),
    {
        !self.borrows.exclusive && self.borrows.shared < usize::MAX
    }

    /// Whether the exclusive binding can be taken now.
    pub fn can_get_mut(&self) -> (ok: bool)
        ensures
            ok == self.borrows().admits_exclusive(),
    {
        !self.borrows.exclusive && self.borrows.shared == 0
    }

    /// Takes a shared binding. The caller must not hold the exclusive one:
    /// binding twice in conflicting ways is a usage error, not a state that
    /// this function enters.
    pub fn get(&mut self) -> (guard: GdRef)
        requires
            old(self).borrows().admits_shared(),
            old(self).borrows().shared < usize::MAX,
        ensures
            final(self).borrows() == old(self).borrows().with_shared(),
            final(self).key() == old(self).key(),
            final(self).instance() == old(self).instance(),
            final(self).lifecycle_state() == old(self).lifecycle_state(),
            final(self).ref_count() == old(self).ref_count(),
            guard.ordinal() == final(self).borrows().shared,
            final(self).holds(guard),
            final(self).borrows().admits_shared() && !final(self).borrows().admits_exclusive(),
    {
        proof {
            use_type_invariant(&*self);
        }
        self.borrows.shared = self.borrows.shared + 1;
        GdRef::from_cell(self.key, self.borrows.shared)
    }

    /// Takes the exclusive binding. Nothing else may be bound.
    pub fn get_mut(&mut self) -> (guard: GdMut)
        requires
            old(self).borrows().admits_exclusive(),
        ensures
            final(self).borrows() == old(self).borrows().with_exclusive(),
            final(self).key() == old(self).key(),
            final(self).instance() == old(self).instance(),
            final(self).lifecycle_state() == old(self).lifecycle_state(),
            final(self).ref_count() == old(self).ref_count(),
            final(self).holds_mut(guard),
            !final(self).borrows().admits_shared() && !final(self).borrows().admits_exclusive(),
    {
        proof {
            use_type_invariant(&*self);
        }
        self.borrows.exclusive = true;
        GdMut::from_cell(self.key)
    }

    /// Takes a shared binding if one is admitted, and says so; otherwise
    /// leaves the storage as it was.
    pub fn try_get(&mut self) -> (guard: Option<GdRef>)
        ensures
            guard.is_some() == (old(self).borrows().admits_shared() && old(self).borrows().shared
                < usize::MAX),
            guard.is_some() ==> final(self).borrows() == old(self).borrows().with_shared()
                && guard.unwrap().ordinal() == final(self).borrows().shared && final(self).holds(
                guard.unwrap(),
            ),
            guard.is_none() ==> final(self).borrows() == old(self).borrows(),
            final(self).key() == old(self).key(),
            final(self).instance() == old(self).instance(),
            final(self).lifecycle_state() == old(self).lifecycle_state(),
            final(self).ref_count() == old(self).ref_count(),
    {
        if self.can_get() {
            Some(self.get())
        } else {
            None
        }
    }

    /// Takes the exclusive binding if it is admitted, and says so; otherwise
    /// leaves the storage as it was.
    pub fn try_get_mut(&mut self) -> (guard: Option<GdMut>)
        ensures
            guard.is_some() == old(self).borrows().admits_exclusive(),
            guard.is_some() ==> final(self).borrows() == old(self).borrows().with_exclusive()
                && final(self).holds_mut(guard.unwrap()),
            guard.is_none() ==> final(self).borrows() == old(self).borrows(),
            final(self).key() == old(self).key(),
            final(self).instance() == old(self).instance(),
            final(self).lifecycle_state() == old(self).lifecycle_state(),
            final(self).ref_count() == old(self).ref_count(),
    {
        if self.can_get_mut() {
            Some(self.get_mut())
        } else {
            None
        }
    }

    /// Ends the shared binding that `guard` stands for. The guard must come
    /// from this storage.
    pub fn release(&mut self, guard: GdRef)
        requires
            old(self).holds(guard),
        ensures
            final(self).borrows() == old(self).borrows().without_shared(),
            final(self).key() == old(self).key(),
            final(self).instance() == old(self).instance(),
            final(self).lifecycle_state() == old(self).lifecycle_state(),
            final(self).ref_count() == old(self).ref_count(),
    {
        proof {
            use_type_invariant(&*self);
        }
        self.borrows.shared = self.borrows.shared - 1;
    }

    /// Ends the exclusive binding that `guard` stands for. The guard must
    /// come from this storage.
    pub fn release_mut(&mut self, guard: GdMut)
        requires
            old(self).holds_mut(guard),
        ensures
            final(self).borrows() == old(self).borrows().without_exclusive(),
            final(self).borrows() == BorrowState::unbound(),
            final(self).key() == old(self).key(),
            final(self).instance() == old(self).instance(),
            final(self).lifecycle_state() == old(self).lifecycle_state(),
            final(self).ref_count() == old(self).ref_count(),
    {
        proof {
            use_type_invariant(&*self);
        }
        self.borrows.exclusive = false;
    }

    /// Reads the payload under the shared binding that `guard` stands for.
    pub fn read(&self, guard: &GdRef) -> (payload: &T)
        requires
            self.holds(*guard),
        ensures
            *payload == self.instance(),
    {
        &self.user_instance
    }

    /// Replaces the payload under the exclusive binding that `guard` stands
    /// for.
    pub fn write(&mut self, guard: &GdMut, value: T)
        requires
            old(self).holds_mut(*guard),
        ensures
            final(self).key() == old(self).key(),
            final(self).instance() == value,
            final(self).borrows() == old(self).borrows(),
            final(self).lifecycle_state() == old(self).lifecycle_state(),
            final(self).ref_count() == old(self).ref_count(),
    {
        proof {
            use_type_invariant(&*self);
        }
        self.user_instance = value;
    }

    /// Records that the engine has begun to destroy the instance.
    pub fn mark_destroyed_by_godot(&mut self)
        ensures
            final(self).lifecycle_state() == Lifecycle::Destroying,
            final(self).is_destroyed(),
            final(self).key() == old(self).key(),
            final(self).instance() == old(self).instance(),
            final(self).borrows() == old(self).borrows(),
            final(self).ref_count() == old(self).ref_count(),
    {
        proof {
            use_type_invariant(&*self);
        }
        self.lifecycle = Lifecycle::Destroying;
    }

    /// Whether the engine has begun, or finished, destroying the instance.
    #[inline(always)]
    pub fn destroyed_by_godot(&self) -> (destroyed: bool)
        ensures
            destroyed == self.is_destroyed(),
            destroyed == (self.lifecycle_state() == Lifecycle::Destroying || self.lifecycle_state()
                == Lifecycle::Dead),
    {
        match self.lifecycle {
            Lifecycle::Destroying => true,
            Lifecycle::Dead => true,
            Lifecycle::Alive => false,
        }
    }
}

/// The discipline in one statement, for every state a storage can be in:
/// while the exclusive binding is live, neither a second exclusive binding
/// nor a shared one is admitted; while none is live, a further shared
/// binding is admitted however many are live already; and the exclusive
/// binding is admitted exactly when nothing is bound.
pub proof fn lemma_borrow_discipline(state: BorrowState)
    requires
        state.wf(),
    ensures
        state.exclusive ==> !state.admits_exclusive() && !state.admits_shared(),
        !state.exclusive ==> state.admits_shared(),
        state.shared > 0 ==> !state.admits_exclusive(),
        state.admits_exclusive() <==> state == BorrowState::unbound(),
{
}

/// While the exclusive binding is live nothing else is admitted: neither a
/// second exclusive binding nor a shared one.
pub proof fn lemma_exclusive_excludes_all(state: BorrowState)
    requires
        state.wf(),
        state.admits_exclusive(),
    ensures
        state.with_exclusive().wf(),
        !state.with_exclusive().admits_exclusive(),
        !state.with_exclusive().admits_shared(),
{
}

/// Shared bindings coexist: from a state without an exclusive binding, any
/// number of shared ones taken in a row is admitted, one after the other,
/// and while at least one is live no exclusive binding is admitted.
pub proof fn lemma_shared_coexist(state: BorrowState, n: nat)
    requires
        state.wf(),
        state.admits_shared(),
        state.shared + n <= usize::MAX,
    ensures
        state.with_shared_times(n).wf(),
        state.with_shared_times(n).admits_shared(),
        state.with_shared_times(n).shared == state.shared + n,
        n > 0 ==> !state.with_shared_times(n).admits_exclusive(),
    decreases n,
{
    if n > 0 {
        lemma_shared_coexist(state, (n - 1) as nat);
    }
}

/// Taking a binding and giving it back leaves the bindings as they were.
pub proof fn lemma_release_undoes_get(state: BorrowState)
    requires
        state.wf(),
    ensures
        state.admits_shared() && state.shared < usize::MAX ==> state.with_shared().without_shared()
            == state,
        state.admits_exclusive() ==> state.with_exclusive().without_exclusive() == state,
{
}

} // verus!

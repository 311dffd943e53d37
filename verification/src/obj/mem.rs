//! Memory strategies of engine objects.
//!
//! A class is either freed by hand, or counted by the engine and freed with
//! its last reference. For the root class the strategy is found at run time,
//! per object. The functions here decide what a handle has to ask of the
//! engine when it is created, shared or dropped; the engine does the
//! counting.

use vstd::prelude::*;

verus! {

/// How the instances of a class are freed.
#[derive(Copy, Clone, Debug, PartialEq, Eq, Structural)]
pub enum Memory {
    /// Freed by an explicit call; dropping a handle frees nothing.
    ManualMemory,
    /// Counted by the engine; known statically.
    StaticRefCount,
    /// Counted or not, depending on the object's class at run time.
    DynamicRefCount,
}

/// What a handle asks of the engine's reference count.
#[derive(Copy, Clone, Debug, PartialEq, Eq, Structural)]
pub enum MemAction {
    /// Nothing.
    Nothing,
    /// Count the first reference of a fresh object.
    InitRef,
    /// Count one more reference.
    IncRef,
    /// Count one reference fewer; the object is destroyed with its last.
    DecRef,
}

impl Memory {
    /// Whether an object under this strategy is counted, given what its
    /// instance says of itself at run time.
    pub open spec fn counts(self, runtime_ref_counted: bool) -> bool {
        match self {
            Memory::ManualMemory => false,
            Memory::StaticRefCount => true,
            Memory::DynamicRefCount => runtime_ref_counted,
        }
    }

    /// Whether an object under this strategy is counted.
    pub fn is_ref_counted(self, runtime_ref_counted: bool) -> (counted: bool)
        ensures
            counted == self.counts(runtime_ref_counted),
    {
        match self {
            Memory::ManualMemory => false,
            Memory::StaticRefCount => true,
            Memory::DynamicRefCount => runtime_ref_counted,
        }
    }

    /// What to ask when a handle takes over an object that the engine just
    /// handed out: a counted object whose count is still zero gets its first
    /// reference, any other counted object one more.
    pub fn maybe_init_ref(self, runtime_ref_counted: bool, current_count: u32) -> (action: MemAction)
        ensures
            action == if !self.counts(runtime_ref_counted) {
                MemAction::Nothing
            } else if current_count == 0 {
                MemAction::InitRef
            } else {
                MemAction::IncRef
            },
    {
        if !self.is_ref_counted(runtime_ref_counted) {
            MemAction::Nothing
        } else if current_count == 0 {
            MemAction::InitRef
        } else {
            MemAction::IncRef
        }
    }

    /// What to ask when a handle is shared.
    pub fn maybe_inc_ref(self, runtime_ref_counted: bool) -> (action: MemAction)
        ensures
            action == alias_taken(self.counts(runtime_ref_counted)),
    {
        if self.is_ref_counted(runtime_ref_counted) {
            MemAction::IncRef
        } else {
            MemAction::Nothing
        }
    }

    /// What to ask when a handle is dropped.
    pub fn maybe_dec_ref(self, runtime_ref_counted: bool) -> (action: MemAction)
        ensures
            action == alias_dropped(self.counts(runtime_ref_counted)),
    {
        if self.is_ref_counted(runtime_ref_counted) {
            MemAction::DecRef
        } else {
            MemAction::Nothing
        }
    }
}

/// The reference count after the engine has done what `action` asks.
pub open spec fn count_after(count: int, action: MemAction) -> int {
    match action {
        MemAction::Nothing => count,
        MemAction::InitRef => 1,
        MemAction::IncRef => count + 1,
        MemAction::DecRef => count - 1,
    }
}

/// The reference count after a sequence of actions, first to last.
pub open spec fn count_after_all(count: int, actions: Seq<MemAction>) -> int
    decreases actions.len(),
{
    if actions.len() == 0 {
        count
    } else {
        count_after(count_after_all(count, actions.drop_last()), actions.last())
    }
}

/// What taking one more alias of an object does to its count.
pub open spec fn alias_taken(counted: bool) -> MemAction {
    if counted {
        MemAction::IncRef
    } else {
        MemAction::Nothing
    }
}

/// What dropping one alias of an object does to its count.
pub open spec fn alias_dropped(counted: bool) -> MemAction {
    if counted {
        MemAction::DecRef
    } else {
        MemAction::Nothing
    }
}

/// What one trip of a handle into a variant and back does to the count.
///
/// The variant is an alias that the engine counts by what the object is at
/// run time; the handle that comes back is an alias that is counted by the
/// strategy of its class. Then both are dropped again, the variant first.
pub open spec fn round_trip_actions(memory: Memory, runtime_ref_counted: bool) -> Seq<MemAction> {
    seq![
        alias_taken(runtime_ref_counted),
        alias_taken(memory.counts(runtime_ref_counted)),
        alias_dropped(runtime_ref_counted),
        alias_dropped(memory.counts(runtime_ref_counted)),
    ]
}

/// `n` round trips, one after the other.
pub open spec fn round_trips(memory: Memory, runtime_ref_counted: bool, n: nat) -> Seq<MemAction>
    decreases n,
{
    if n == 0 {
        Seq::empty()
    } else {
        round_trips(memory, runtime_ref_counted, (n - 1) as nat) + round_trip_actions(
            memory,
            runtime_ref_counted,
        )
    }
}

/// `n` aliases taken of a counted object, none dropped yet.
pub open spec fn aliases_taken(n: nat) -> Seq<MemAction> {
    Seq::new(n, |i: int| MemAction::IncRef)
}

/// Running one sequence of actions after another is running their
/// concatenation.
pub proof fn lemma_count_after_concat(count: int, first: Seq<MemAction>, second: Seq<MemAction>)
    ensures
        count_after_all(count, first + second) == count_after_all(
            count_after_all(count, first),
            second,
        ),
    decreases second.len(),
{
    if second.len() == 0 {
        assert(first + second =~= first);
    } else {
        assert((first + second).drop_last() =~= first + second.drop_last());
        assert((first + second).last() == second.last());
        lemma_count_after_concat(count, first, second.drop_last());
    }
}

/// One round trip leaves the reference count as it was.
pub proof fn lemma_round_trip_neutral(count: int, memory: Memory, runtime_ref_counted: bool)
    ensures
        count_after_all(count, round_trip_actions(memory, runtime_ref_counted)) == count,
{
    let actions = round_trip_actions(memory, runtime_ref_counted);
    let three = actions.drop_last();
    let two = three.drop_last();
    let one = two.drop_last();
    assert(one.drop_last().len() == 0);
    assert(count_after_all(count, one.drop_last()) == count);
    assert(count_after_all(count, one) == count_after(count, actions[0]));
    assert(count_after_all(count, two) == count_after(count_after_all(count, one), actions[1]));
    assert(count_after_all(count, three) == count_after(count_after_all(count, two), actions[2]));
    assert(count_after_all(count, actions) == count_after(
        count_after_all(count, three),
        actions[3],
    ));
}

/// Any number of round trips leaves the reference count exactly as it was,
/// whatever the strategy.
pub proof fn lemma_round_trips_neutral(
    count: int,
    memory: Memory,
    runtime_ref_counted: bool,
    n: nat,
)
    ensures
        count_after_all(count, round_trips(memory, runtime_ref_counted, n)) == count,
    decreases n,
{
    if n > 0 {
        let front = round_trips(memory, runtime_ref_counted, (n - 1) as nat);
        lemma_round_trips_neutral(count, memory, runtime_ref_counted, (n - 1) as nat);
        lemma_count_after_concat(count, front, round_trip_actions(memory, runtime_ref_counted));
        lemma_round_trip_neutral(count, memory, runtime_ref_counted);
    }
}

/// While `n` aliases of a counted object are live, its reference count is
/// higher by exactly `n`.
pub proof fn lemma_aliases_counted(count: int, n: nat)
    ensures
        count_after_all(count, aliases_taken(n)) == count + n,
    decreases n,
{
    if n > 0 {
        assert(aliases_taken(n).drop_last() =~= aliases_taken((n - 1) as nat));
        lemma_aliases_counted(count, (n - 1) as nat);
    }
}

} // verus!

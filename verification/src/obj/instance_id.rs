//! Identifiers of engine objects.

use vstd::prelude::*;

verus! {

/// The engine's identifier of one object. Never zero: zero stands for "no
/// object". The highest bit tells whether the object is reference-counted.
#[derive(Copy, Clone, Debug, PartialEq, Eq, Structural)]
pub struct InstanceId {
    value: u64,
}

/// The bit of an identifier that marks a reference-counted object.
pub open spec fn ref_counted_bit() -> u64 {
    0x8000_0000_0000_0000u64
}

impl InstanceId {
    #[verifier::type_invariant]
    spec fn inv(self) -> bool {
        self.value != 0
    }

    /// The identifier as the engine spells it.
    pub closed spec fn id(self) -> u64 {
        self.value
    }

    /// Whether the identifier belongs to a reference-counted object.
    pub open spec fn marks_ref_counted(self) -> bool {
        self.id() >= ref_counted_bit()
    }

    /// The identifier `id`, unless `id` is zero.
    pub fn try_from_u64(id: u64) -> (instance_id: Option<Self>)
        ensures
            instance_id.is_some() == (id != 0),
            instance_id.is_some() ==> instance_id.unwrap().id() == id,
    {
        if id == 0 {
            None
        } else {
            Some(Self { value: id })
        }
    }

    /// The identifier with the bits of `id`, unless `id` is zero.
    pub fn try_from_i64(id: i64) -> (instance_id: Option<Self>)
        ensures
            instance_id.is_some() == (id != 0),
            instance_id.is_some() ==> instance_id.unwrap().id() == id as u64,
    {
        assert(id != 0 ==> id as u64 != 0) by (bit_vector);
        assert(id == 0 ==> id as u64 == 0) by (bit_vector);
        Self::try_from_u64(id as u64)
    }

    /// The identifier with the bits of `id`, which is not zero.
    pub fn from_nonzero(id: i64) -> (instance_id: Self)
        requires
            id != 0,
        ensures
            instance_id.id() == id as u64,
    {
        assert(id != 0 ==> id as u64 != 0) by (bit_vector);
        Self { value: id as u64 }
    }

    pub fn to_u64(self) -> (id: u64)
        ensures
            id == self.id(),
            id != 0,
    {
        proof {
            use_type_invariant(self);
        }
        self.value
    }

    pub fn to_i64(self) -> (id: i64)
        ensures
            id == self.id() as i64,
            id != 0,
    {
        proof {
            use_type_invariant(self);
        }
        let value = self.value;
        assert(value != 0 ==> value as i64 != 0) by (bit_vector);
        value as i64
    }

    /// Whether the identifier belongs to a reference-counted object.
    pub fn is_ref_counted(self) -> (counted: bool)
        ensures
            counted == self.marks_ref_counted(),
    {
        let value = self.value;
        assert((value & (1u64 << 63) != 0) == (value >= 0x8000_0000_0000_0000u64)) by (bit_vector);
        value & (1u64 << 63) != 0
    }
}

/// An identifier survives the trip through the engine's signed spelling.
pub proof fn lemma_instance_id_round_trip(id: u64)
    ensures
        (id as i64) as u64 == id,
{
    assert((id as i64) as u64 == id) by (bit_vector);
}

} // verus!

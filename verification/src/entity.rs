//! Entity identities.

use vstd::prelude::*;

verus! {

/// Identifies an entity of the scene by the 64 bits of its handle.
///
/// Two identities are the same entity exactly when their bits agree.
#[derive(Clone, Copy, Debug, PartialEq, Eq, Structural, Hash)]
pub struct EntityId {
    pub bits: u64,
}

impl EntityId {
    /// The entity whose handle has the given bits.
    pub fn from_bits(bits: u64) -> (id: Self)
        ensures
            id.bits == bits,
    {
        EntityId { bits }
    }

    /// The bits of this entity's handle.
    pub fn to_bits(self) -> (bits: u64)
        ensures
            bits == self.bits,
    {
        self.bits
    }
}

/// Whether `entity` occurs in `list`.
pub fn contains_entity(list: &Vec<EntityId>, entity: EntityId) -> (found: bool)
    ensures
        found == list@.contains(entity),
{
    let mut i: usize = 0;
    while i < list.len()
        invariant
            i <= list.len(),
            forall|k: int| 0 <= k < i ==> list@[k] != entity,
        decreases list.len() - i,
    {
        if list[i] == entity {
            return true;
        }
        i += 1;
    }
    false
}

} // verus!

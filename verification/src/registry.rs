//! The instance registry: one state record per instance identifier.
//!
//! The host assigns each running instance an integer identifier and the
//! registry maps it to that instance's state record.  A record is created
//! lazily on the first lookup of its identifier and lives for the rest of
//! the run; no operation ever removes one.  The registry owns every
//! record; a caller addresses a record through the slot index that
//! `get_or_create` returns, and because identifiers are unique that slot
//! is the same on every lookup.

use vstd::prelude::*;

use crate::state::TrnSysState;

verus! {

/// One registry slot: an instance identifier and its state record.
pub struct RegistryEntry<D, S> {
    /// The host-assigned instance identifier ("unit").
    pub unit: i32,
    /// The record owned by this slot.
    pub state: TrnSysState<D, S>,
}

/// The process-wide map from instance identifier to state record,
/// constructed once at startup and handed to every call.
pub struct StateRegistry<D, S> {
    /// The slots, in order of first lookup.
    pub entries: Vec<RegistryEntry<D, S>>,
}

impl<D, S> StateRegistry<D, S> {
    /// Identifiers are unique and every record is sound.
    pub open spec fn wf(self) -> bool {
        &&& forall|i: int, j: int|
            0 <= i < j < self.entries@.len() ==> self.entries@[i].unit != self.entries@[j].unit
        &&& forall|i: int| 0 <= i < self.entries@.len() ==> (#[trigger] self.entries@[i]).state.wf()
    }

    /// Whether some slot already belongs to `unit`.
    pub open spec fn contains_unit(self, unit: i32) -> bool {
        exists|i: int| 0 <= i < self.entries@.len() && self.entries@[i].unit == unit
    }

    /// An empty registry, made once at process start.
    pub fn new() -> (registry: Self)
        ensures
            registry.wf(),
            registry.entries@.len() == 0,
    {
        StateRegistry { entries: Vec::new() }
    }

    /// Looks the identifier up, creating a zero-initialized record for it
    /// on first sight, and returns the identifier's slot.
    ///
    /// A known identifier leaves the registry untouched, so the returned
    /// slot addresses the same record as every earlier lookup of the same
    /// identifier: one record per identifier for the process lifetime.
    pub fn get_or_create(&mut self, unit: i32) -> (slot: usize)
        requires
            old(self).wf(),
        ensures
            final(self).wf(),
            slot < final(self).entries@.len(),
            final(self).entries@[slot as int].unit == unit,
            old(self).contains_unit(unit) ==> *final(self) == *old(self),
            !old(self).contains_unit(unit) ==> {
                &&& final(self).entries@.len() == old(self).entries@.len() + 1
                &&& slot == old(self).entries@.len()
                &&& final(self).entries@.subrange(0, old(self).entries@.len() as int) =~= old(
                    self,
                ).entries@
                &&& final(self).entries@[slot as int].state.is_initial()
            },
    {
        let n = self.entries.len();
        let mut i: usize = 0;
        while i < n
            invariant
                *self == *old(self),
                self.wf(),
                n == self.entries@.len(),
                i <= n,
                forall|k: int| 0 <= k < i ==> self.entries@[k].unit != unit,
            decreases n - i,
        {
            if self.entries[i].unit == unit {
                return i;
            }
            i = i + 1;
        }
        let entry = RegistryEntry { unit, state: TrnSysState::new() };
        self.entries.push(entry);
        proof {
            let pre = old(self).entries@;
            let post = self.entries@;
            assert(post.subrange(0, pre.len() as int) =~= pre);
            assert forall|i: int, j: int|
                0 <= i < j < post.len() implies (#[trigger] post[i]).unit
                    != (#[trigger] post[j]).unit by {
                if j < pre.len() {
                    assert(pre[i].unit != pre[j].unit);
                } else {
                    assert(post[i] == pre[i]);
                    assert(pre[i].unit != unit);
                }
            }
            assert forall|i: int| 0 <= i < post.len() implies (#[trigger] post[i]).state.wf() by {
                if i < pre.len() {
                    assert(post[i] == pre[i]);
                    assert(pre[i].state.wf());
                }
            }
        }
        n
    }

    /// Reads the record in a slot.
    pub fn state_of(&self, slot: usize) -> (state: &TrnSysState<D, S>)
        requires
            slot < self.entries@.len(),
        ensures
            *state == self.entries@[slot as int].state,
    {
        &self.entries[slot].state
    }
}

/// Law: one record per identifier, for the process lifetime.  Whatever
/// slot a lookup of `unit` returned, a later lookup returns that same
/// slot, and the record standing in it is the one the earlier lookup
/// left there: the handles name the identical record, not merely an
/// equal copy.
pub proof fn lemma_get_or_create_identity<D, S>(
    registry: StateRegistry<D, S>,
    unit: i32,
    first_slot: int,
    second_slot: int,
)
    requires
        registry.wf(),
        0 <= first_slot < registry.entries@.len(),
        registry.entries@[first_slot].unit == unit,
        0 <= second_slot < registry.entries@.len(),
        registry.entries@[second_slot].unit == unit,
    ensures
        first_slot == second_slot,
        registry.contains_unit(unit),
{
    if first_slot < second_slot {
        assert(registry.entries@[first_slot].unit != registry.entries@[second_slot].unit);
    } else if second_slot < first_slot {
        assert(registry.entries@[second_slot].unit != registry.entries@[first_slot].unit);
    }
}

} // verus!

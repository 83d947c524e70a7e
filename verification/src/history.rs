//! Tick-based storage for values that must survive across timesteps.
//!
//! A store is an append-only sequence of optional snapshots: one slot per
//! timestep plus the initial slot.  The last slot is the current one; get
//! and set work on it alone, the older slots are immutable history.  A
//! tick appends a fresh, unset slot, which becomes the new current slot.

use vstd::prelude::*;

verus! {

/// The slot a store reads and writes: always the last one.
pub open spec fn current_slot<T>(history: Seq<Option<T>>) -> Option<T> {
    history.last()
}

/// How one `set_dyn` call rewrites a history.
pub open spec fn with_current<T>(history: Seq<Option<T>>, value: Option<T>) -> Seq<Option<T>> {
    history.update(history.len() - 1, value)
}

/// How one `get_dyn_mut_or_default` call, whose caller does not write
/// through the returned reference, rewrites a history: an unset current
/// slot takes the default, a set one stays.
pub open spec fn with_default<T>(history: Seq<Option<T>>, default: T) -> Seq<Option<T>> {
    if current_slot(history) is None {
        with_current(history, Some(default))
    } else {
        history
    }
}

/// Storage over time, as the state record sees it: an append-only history
/// of optional snapshots whose last slot is current.
pub trait StoreProvider<T>: Sized {
    /// The full history, one slot per tick plus the initial slot.
    spec fn history_view(&self) -> Seq<Option<T>>;

    /// A store always has a current slot.
    spec fn wf(&self) -> bool;

    /// Returns a reference to the full, read-only history.
    fn get_history(&self) -> (h: &Vec<Option<T>>)
        ensures
            h@ == self.history_view(),
    ;

    /// Overwrites the current slot; `None` clears it.
    fn set_dyn(&mut self, value: Option<T>)
        requires
            old(self).wf(),
        ensures
            final(self).wf(),
            final(self).history_view() == with_current(old(self).history_view(), value),
    ;

    /// Returns a reference into the current slot, `None` if it is unset.
    fn get(&self) -> (v: Option<&T>)
        requires
            self.wf(),
        ensures
            match v {
                Some(x) => current_slot(self.history_view()) == Some(*x),
                None => current_slot(self.history_view()) is None,
            },
    ;

    /// Reads the current slot, setting it to `default` first if it is
    /// unset; afterwards the slot is always set.
    fn get_dyn_mut_or_default(&mut self, default: T) -> (v: &T)
        requires
            old(self).wf(),
        ensures
            final(self).wf(),
            final(self).history_view() == with_default(old(self).history_view(), default),
            current_slot(final(self).history_view()) == Some(*v),
    ;

    /// Returns whether the current slot holds a value.
    fn has_value(&self) -> (b: bool)
        requires
            self.wf(),
        ensures
            b == (current_slot(self.history_view()) is Some),
    ;

    /// Returns a reference into the last slot of the history; since the
    /// last slot is the current one, this reads the current slot.
    fn get_last_value(&self) -> (v: Option<&T>)
        requires
            self.wf(),
        ensures
            match v {
                Some(x) => current_slot(self.history_view()) == Some(*x),
                None => current_slot(self.history_view()) is None,
            },
    ;

    /// Appends a fresh, unset slot, which becomes the current one; the
    /// history grows by exactly one slot and is never truncated.
    fn tick(&mut self)
        requires
            old(self).wf(),
        ensures
            final(self).wf(),
            final(self).history_view() == old(self).history_view().push(None),
    ;
}

/// An in-memory store: the whole history lives in one vector.
pub struct MemoryStorageProvider<T> {
    history: Vec<Option<T>>,
}

impl<T> MemoryStorageProvider<T> {
    /// A fresh store: one unset slot, which is the current one.
    pub fn new() -> (store: Self)
        ensures
            store.wf(),
            store.history_view() == seq![None::<T>],
    {
        let mut history: Vec<Option<T>> = Vec::new();
        history.push(None);
        proof {
            assert(history@ =~= seq![None::<T>]);
        }
        MemoryStorageProvider { history }
    }
}

impl<T> StoreProvider<T> for MemoryStorageProvider<T> {
    closed spec fn history_view(&self) -> Seq<Option<T>> {
        self.history@
    }

    closed spec fn wf(&self) -> bool {
        self.history.len() >= 1
    }

    fn get_history(&self) -> (h: &Vec<Option<T>>) {
        &self.history
    }

    fn set_dyn(&mut self, value: Option<T>) {
        let last: usize = self.history.len() - 1;
        self.history[last] = value;
    }

    fn get(&self) -> (v: Option<&T>) {
        match &self.history[self.history.len() - 1] {
            Some(x) => Some(x),
            None => None,
        }
    }

    fn get_dyn_mut_or_default(&mut self, default: T) -> (v: &T) {
        let last: usize = self.history.len() - 1;
        let unset = match &self.history[last] {
            Some(_) => false,
            None => true,
        };
        if unset {
            self.history[last] = Some(default);
        }
        proof {
            assert(self.history@ =~= with_default(old(self).history@, default));
        }
        match &self.history[last] {
            Some(x) => x,
            None => unreached(),
        }
    }

    fn has_value(&self) -> (b: bool) {
        match &self.history[self.history.len() - 1] {
            Some(_) => true,
            None => false,
        }
    }

    fn get_last_value(&self) -> (v: Option<&T>) {
        match &self.history[self.history.len() - 1] {
            Some(x) => Some(x),
            None => None,
        }
    }

    fn tick(&mut self) {
        self.history.push(None);
    }
}

/// Law: a tick leaves the new current slot unset; a get right after a
/// tick finds nothing until the slot is explicitly set.
pub proof fn lemma_tick_then_get<T>(history: Seq<Option<T>>)
    requires
        history.len() >= 1,
    ensures
        current_slot(history.push(None::<T>)) is None,
{
}

/// Law: defaulting an unset current slot writes the default, and a later
/// defaulting with any other value changes nothing.
pub proof fn lemma_default_is_stable<T>(history: Seq<Option<T>>, first: T, second: T)
    requires
        history.len() >= 1,
    ensures
        current_slot(history) is None ==> current_slot(with_default(history, first)) == Some(
            first,
        ),
        current_slot(history) == Some(first) ==> current_slot(with_default(history, first))
            == Some(first),
        with_default(with_default(history, first), second) == with_default(history, first),
{
}

/// Law: the history grows by exactly one slot per tick, and neither
/// writing the current slot nor defaulting it changes the length; no
/// store operation ever shrinks the history.
pub proof fn lemma_history_length<T>(history: Seq<Option<T>>, value: Option<T>, default: T)
    requires
        history.len() >= 1,
    ensures
        history.push(None::<T>).len() == history.len() + 1,
        with_current(history, value).len() == history.len(),
        with_default(history, default).len() == history.len(),
{
}

} // verus!

//! A value paired with a flag that tells whether it still has to be pushed
//! to whoever consumes it.

use vstd::prelude::*;

verus! {

/// A value with a "changed" flag.
pub struct UpdateVariable<T> {
    has_changed: bool,
    value: T,
}

impl<T> UpdateVariable<T> {
    /// The value held.
    pub closed spec fn value(&self) -> T {
        self.value
    }

    /// The state of the flag.
    pub closed spec fn changed(&self) -> bool {
        self.has_changed
    }

    /// Wraps `value`. A fresh variable counts as changed.
    pub fn from(value: T) -> (var: Self)
        ensures
            var.value() == value,
            var.changed(),
    {
        UpdateVariable { has_changed: true, value }
    }

    /// Whether the value is flagged as changed.
    pub fn has_changed(&self) -> (changed: bool)
        ensures
            changed == self.changed(),
    {
        self.has_changed
    }

    /// Lets `mutate_callback` edit the value in place and raises the flag.
    pub fn mutate_value<F: FnOnce(&mut T)>(&mut self, mutate_callback: F)
        requires
            forall|slot: &mut T|
                mut_ref_current(slot) == old(self).value() ==> call_requires(
                    mutate_callback,
                    (slot,),
                ),
        ensures
            exists|slot: &mut T|
                mut_ref_current(slot) == old(self).value() && mut_ref_future(slot)
                    == final(self).value() && call_ensures(mutate_callback, (slot,), ()),
            final(self).changed(),
    {
        mutate_callback(&mut self.value);
        self.has_changed = true;
    }

    /// Replaces the value. The flag stays as it was.
    pub fn set_value(&mut self, value: T)
        ensures
            final(self).value() == value,
            final(self).changed() == old(self).changed(),
    {
        self.value = value;
    }

    /// The value held.
    pub fn get_value(&self) -> (value: &T)
        ensures
            *value == self.value(),
    {
        &self.value
    }
}

} // verus!

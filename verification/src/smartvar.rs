//! A persisted, observable variable.
//!
//! A `SmartVar` holds one plain value, optionally tied to a slot in
//! non-volatile storage by a namespace and a storage name. Every change is
//! queued as a [`SmartVarEvent`] for the surrounding runtime's updater,
//! which drains the queue and calls the registered handlers; the runtime
//! also performs the actual storage reads and writes, feeding a loaded
//! value back in through [`SmartVar::load_value`] and saving when
//! [`SmartVar::set`] reports a slot is configured.

use vstd::prelude::*;

verus! {

/// A change notification owed to the handlers of a [`SmartVar`].
#[derive(Debug, Clone, Copy, PartialEq, Eq)]
pub enum SmartVarEvent<T> {
    Changed(T),
}

/// One observable value with an optional non-volatile slot.
pub struct SmartVar<T> {
    pub namespace: Option<String>,
    pub storage_name: Option<String>,
    pub value: T,
    pub pending: Vec<SmartVarEvent<T>>,
}

impl<T: Copy> SmartVar<T> {
    /// Whether a storage slot has been configured: only then does a change
    /// ask the runtime to save.
    pub open spec fn storage_configured(self) -> bool {
        self.namespace is Some && self.storage_name is Some
    }

    /// A fresh variable holding `value`, with no storage slot and nothing
    /// queued.
    pub fn new(value: T) -> (r: SmartVar<T>)
        ensures
            r.value == value,
            r.namespace is None,
            r.storage_name is None,
            r.pending@.len() == 0,
    {
        SmartVar { namespace: None, storage_name: None, value, pending: Vec::new() }
    }

    /// Tie the variable to a storage slot. The runtime follows up by
    /// reading the slot and, on a hit, handing the stored value to
    /// [`SmartVar::load_value`]; a read failure is only logged, so this
    /// call itself always succeeds.
    pub fn setup_storage(&mut self, namespace: String, storage_name: String)
        ensures
            final(self).namespace == Some(namespace),
            final(self).storage_name == Some(storage_name),
            final(self).value == old(self).value,
            final(self).pending == old(self).pending,
    {
        self.namespace = Some(namespace);
        self.storage_name = Some(storage_name);
    }

    /// Accept the value the runtime found in the storage slot and queue
    /// the change for the handlers.
    pub fn load_value(&mut self, value: T)
        ensures
            final(self).value == value,
            final(self).pending@ == old(self).pending@.push(SmartVarEvent::Changed(value)),
            final(self).namespace == old(self).namespace,
            final(self).storage_name == old(self).storage_name,
    {
        self.value = value;
        self.pending.push(SmartVarEvent::Changed(value));
    }

    /// Store a new value and queue the change for the handlers. Returns
    /// whether the runtime owes a save to non-volatile storage — exactly
    /// when a slot is configured.
    pub fn set(&mut self, value: T) -> (needs_save: bool)
        ensures
            final(self).value == value,
            final(self).pending@ == old(self).pending@.push(SmartVarEvent::Changed(value)),
            final(self).namespace == old(self).namespace,
            final(self).storage_name == old(self).storage_name,
            needs_save == old(self).storage_configured(),
    {
        self.value = value;
        self.pending.push(SmartVarEvent::Changed(value));
        self.namespace.is_some() && self.storage_name.is_some()
    }

    /// The current value.
    pub fn get(&self) -> (r: &T)
        ensures
            r == self.value,
    {
        &self.value
    }

    /// Hand the queued change notifications to the runtime's updater, in
    /// the order the changes happened, leaving the queue empty.
    pub fn take_pending(&mut self) -> (r: Vec<SmartVarEvent<T>>)
        ensures
            r == old(self).pending,
            final(self).pending@.len() == 0,
            final(self).value == old(self).value,
            final(self).namespace == old(self).namespace,
            final(self).storage_name == old(self).storage_name,
    {
        let mut drained: Vec<SmartVarEvent<T>> = Vec::new();
        core::mem::swap(&mut self.pending, &mut drained);
        drained
    }
}

} // verus!

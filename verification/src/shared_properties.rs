//! The properties cell that a controller thread shares with the front end:
//! a std mutex, remembered with the value it started with, and the handle
//! through which the controller thread publishes into it.

use std::sync::{Arc, Mutex};

use vstd::prelude::*;

use crate::devices::DeviceProperties;

verus! {

/// A std mutex.
#[verifier::external_type_specification]
#[verifier::external_body]
#[verifier::reject_recursive_types(T)]
pub struct ExMutex<T: ?Sized>(Mutex<T>);

/// A mutex holding device properties, with the value it was created with.
pub struct PropertiesCell {
    mutex: Mutex<DeviceProperties>,
    initial: Ghost<DeviceProperties>,
}

impl PropertiesCell {
    /// The properties the cell held when it was created.
    pub closed spec fn initial_value(&self) -> DeviceProperties {
        self.initial@
    }
}

/// Calls `Mutex::new` with `initial`, and remembers `initial` as the value
/// the cell started with.
#[verifier::external_body]
pub(crate) fn new_properties_cell(initial: DeviceProperties) -> (cell: PropertiesCell)
    ensures
        cell.initial_value() == initial,
{
    PropertiesCell { mutex: Mutex::new(initial), initial: Ghost(initial) }
}

/// Calls `Arc::clone`: the clone points at the same cell.
#[verifier::external_body]
pub(crate) fn share_cell(cell: &Arc<PropertiesCell>) -> (shared: Arc<PropertiesCell>)
    ensures
        shared == *cell,
{
    cell.clone()
}

/// Calls `Mutex::lock` and copies what the mutex holds; `None` when the
/// mutex is poisoned. What it holds depends on other threads, so nothing
/// is claimed of it.
#[verifier::external_body]
pub(crate) fn load_properties(cell: &Arc<PropertiesCell>) -> (properties: Option<DeviceProperties>) {
    cell.mutex.lock().ok().map(|guard| *guard)
}

/// The handle through which one controller thread publishes its properties
/// into a shared cell, with the properties it last stored there.
pub struct PropertiesPublisher {
    cell: Arc<PropertiesCell>,
    published: Ghost<DeviceProperties>,
}

impl PropertiesPublisher {
    /// The cell that this handle publishes into.
    pub closed spec fn cell(&self) -> Arc<PropertiesCell> {
        self.cell
    }

    /// The properties this handle last stored into the cell; before any
    /// store, the value the cell started with.
    pub closed spec fn last_published(&self) -> DeviceProperties {
        self.published@
    }

    /// A publisher into `cell` that has stored nothing yet.
    pub(crate) fn new(cell: Arc<PropertiesCell>) -> (publisher: Self)
        ensures
            publisher.cell() == cell,
            publisher.last_published() == cell.initial_value(),
    {
        let ghost initial = cell.initial_value();
        PropertiesPublisher { cell, published: Ghost(initial) }
    }

    /// Calls `Mutex::try_lock` and, when the lock was free, stores
    /// `properties` in the mutex and records them as published. Whether the
    /// lock was free depends on other threads, so nothing is claimed of
    /// which case happens.
    #[verifier::external_body]
    pub(crate) fn try_publish(&mut self, properties: DeviceProperties) -> (stored: bool)
        ensures
            final(self).cell() == old(self).cell(),
            stored ==> final(self).last_published() == properties,
            !stored ==> final(self).last_published() == old(self).last_published(),
    {
        match self.cell.mutex.try_lock() {
            Ok(mut guard) => {
                *guard = properties;
                self.published = Ghost(properties);
                true
            },
            Err(_) => false,
        }
    }
}

} // verus!

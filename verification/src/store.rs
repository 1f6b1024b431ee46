//! The state that the node's tasks share: the temperature read last, the
//! state of the link, and whether an upload is under way. Each field has one
//! task that writes it; any task may read it. Every write replaces one field
//! and leaves the others as they were.
//!
//! The store is a plain value: what a read returns is what was written last.
//! Handing it to several tasks, and keeping their reads and writes apart, is
//! the caller's; an operation here is one read or one assignment, so a lock
//! around it is never held for longer than that.

use crate::connectivity::ConnectivityStatus;
use crate::reading::TemperatureReading;
use crate::reading::SENTINEL_CENTI;
use vstd::prelude::*;

verus! {

/// What the store holds: one value for each of its fields.
#[derive(Clone, Copy, Debug, PartialEq, Eq, Structural)]
pub struct StoreSnapshot {
    pub temperature: TemperatureReading,
    pub connectivity: ConnectivityStatus,
    pub upload_in_flight: bool,
}

/// What the store holds at start-up: no reading yet, the link disconnected,
/// no upload under way.
pub open spec fn initial_store() -> StoreSnapshot {
    StoreSnapshot {
        temperature: TemperatureReading { centi: SENTINEL_CENTI },
        connectivity: ConnectivityStatus::Disconnected,
        upload_in_flight: false,
    }
}

/// `held` with the temperature replaced.
pub open spec fn with_temperature(
    held: StoreSnapshot,
    reading: TemperatureReading,
) -> StoreSnapshot {
    StoreSnapshot {
        temperature: reading,
        connectivity: held.connectivity,
        upload_in_flight: held.upload_in_flight,
    }
}

/// `held` with the link status replaced.
pub open spec fn with_connectivity(
    held: StoreSnapshot,
    status: ConnectivityStatus,
) -> StoreSnapshot {
    StoreSnapshot {
        temperature: held.temperature,
        connectivity: status,
        upload_in_flight: held.upload_in_flight,
    }
}

/// `held` with the upload flag replaced.
pub open spec fn with_upload_flag(held: StoreSnapshot, in_flight: bool) -> StoreSnapshot {
    StoreSnapshot {
        temperature: held.temperature,
        connectivity: held.connectivity,
        upload_in_flight: in_flight,
    }
}

/// The shared state of the node. The link status that it holds always keeps
/// [`ConnectivityStatus::wf`].
pub struct SharedStateStore {
    temperature: TemperatureReading,
    upload_in_flight: bool,
    connectivity: ConnectivityStatus,
}

impl View for SharedStateStore {
    type V = StoreSnapshot;

    /// What the store holds.
    closed spec fn view(&self) -> StoreSnapshot {
        StoreSnapshot {
            temperature: self.temperature,
            connectivity: self.connectivity,
            upload_in_flight: self.upload_in_flight,
        }
    }
}

impl SharedStateStore {
    #[verifier::type_invariant]
    spec fn well_formed(self) -> bool {
        self.connectivity.wf()
    }

    /// A store as it stands at start-up: the sentinel for the temperature,
    /// the link disconnected, no upload under way.
    pub fn new() -> (s: Self)
        ensures
            s@ == initial_store(),
    {
        SharedStateStore {
            temperature: TemperatureReading::unavailable(),
            upload_in_flight: false,
            connectivity: ConnectivityStatus::Disconnected,
        }
    }

    /// The temperature that was stored last.
    pub fn get_temperature(&self) -> (r: TemperatureReading)
        ensures
            r == self@.temperature,
    {
        self.temperature
    }

    /// Replaces the stored temperature.
    pub fn set_temperature(&mut self, reading: TemperatureReading)
        ensures
            final(self)@ == with_temperature(old(self)@, reading),
    {
        proof {
            use_type_invariant(&*self);
        }
        self.temperature = reading;
    }

    /// Whether an upload is under way.
    pub fn get_upload_flag(&self) -> (b: bool)
        ensures
            b == self@.upload_in_flight,
    {
        self.upload_in_flight
    }

    /// Replaces the upload flag.
    pub fn set_upload_flag(&mut self, in_flight: bool)
        ensures
            final(self)@ == with_upload_flag(old(self)@, in_flight),
    {
        proof {
            use_type_invariant(&*self);
        }
        self.upload_in_flight = in_flight;
    }

    /// The link status that was stored last. It is never a connected status
    /// with an unset address.
    pub fn get_connectivity(&self) -> (status: ConnectivityStatus)
        ensures
            status == self@.connectivity,
            status.wf(),
    {
        proof {
            use_type_invariant(self);
        }
        self.connectivity
    }

    /// Replaces the stored link status, unless `status` is a connected status
    /// with an unset address: that one is not stored, the store stays as it
    /// was, and the result is false.
    pub fn set_connectivity(&mut self, status: ConnectivityStatus) -> (stored: bool)
        ensures
            stored == status.wf(),
            final(self)@ == if status.wf() {
                with_connectivity(old(self)@, status)
            } else {
                old(self)@
            },
    {
        if status.is_well_formed() {
            self.connectivity = status;
            true
        } else {
            false
        }
    }

    /// All that the store holds, in one value.
    pub fn snapshot(&self) -> (s: StoreSnapshot)
        ensures
            s == self@,
            s.connectivity.wf(),
    {
        proof {
            use_type_invariant(self);
        }
        StoreSnapshot {
            temperature: self.temperature,
            connectivity: self.connectivity,
            upload_in_flight: self.upload_in_flight,
        }
    }
}

/// What the store holds after a run of writes of the link status.
pub open spec fn status_after_writes(
    held: StoreSnapshot,
    written: Seq<ConnectivityStatus>,
) -> StoreSnapshot
    decreases written.len(),
{
    if written.len() == 0 {
        held
    } else {
        let before = status_after_writes(held, written.drop_last());
        if written.last().wf() {
            with_connectivity(before, written.last())
        } else {
            before
        }
    }
}

/// The link status that the store holds keeps its rule whatever is written:
/// writing a status that keeps it stores that status, and writing any other
/// changes nothing.
pub proof fn lemma_status_rule_survives_writes(
    held: StoreSnapshot,
    written: Seq<ConnectivityStatus>,
)
    requires
        held.connectivity.wf(),
    ensures
        status_after_writes(held, written).connectivity.wf(),
        status_after_writes(held, written).temperature == held.temperature,
        status_after_writes(held, written).upload_in_flight == held.upload_in_flight,
    decreases written.len(),
{
    if written.len() > 0 {
        lemma_status_rule_survives_writes(held, written.drop_last());
    }
}

} // verus!

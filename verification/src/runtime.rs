//! A discovery service that persists what it discovers, and the order in
//! which it shuts down.

use vstd::prelude::*;
use crate::clock::Timestamp;
use crate::device::{peers_of, DeviceInfo, DiscoveredDevice, Peer};
use crate::engine::ProtocolError;
use crate::store::{DiscoveryStore, PersistenceError, StoredDevices};
use crate::table::{fresh_at, upsert, upsert_all};

verus! {

/// How far a runtime is on its way from start to shutdown.
#[derive(Clone, Copy, Debug, PartialEq, Eq, Structural)]
pub enum RuntimePhase {
    /// The service may run; nothing of a shutdown has happened.
    Active,
    /// The operations were told to stop.
    Cancelled,
    /// The engine has stopped: no event comes any more.
    EngineStopped,
    /// The devices were handed out for the last time.
    Flushed,
}

/// One step of a shutdown.
#[derive(Clone, Copy, Debug, PartialEq, Eq, Structural)]
pub enum ShutdownStep {
    /// Tell the operations to stop.
    Cancel,
    /// Stop the engine and release its socket.
    StopEngine,
    /// Write the devices to the file.
    Flush,
}

/// What a start of the service asks of the caller: announce `device_info`,
/// then wait for the interval, again and again.
#[derive(Debug)]
pub struct ServiceStart {
    pub device_info: DeviceInfo,
    pub interval_millis: u64,
}

/// The step of a shutdown that is due in a phase, if one is.
pub open spec fn step_due(phase: RuntimePhase) -> Option<ShutdownStep> {
    match phase {
        RuntimePhase::Active => Some(ShutdownStep::Cancel),
        RuntimePhase::Cancelled => Some(ShutdownStep::StopEngine),
        RuntimePhase::EngineStopped => Some(ShutdownStep::Flush),
        RuntimePhase::Flushed => None,
    }
}

/// The phase that follows once the step that was due is done.
pub open spec fn phase_after(phase: RuntimePhase) -> RuntimePhase {
    match phase {
        RuntimePhase::Active => RuntimePhase::Cancelled,
        RuntimePhase::Cancelled => RuntimePhase::EngineStopped,
        RuntimePhase::EngineStopped => RuntimePhase::Flushed,
        RuntimePhase::Flushed => RuntimePhase::Flushed,
    }
}

/// The discovered devices of a running service, mirrored to a file, and the
/// phase the service is in.
#[derive(Debug)]
pub struct DiscoveryRuntime {
    store: DiscoveryStore,
    phase: RuntimePhase,
}

impl DiscoveryRuntime {
    /// No fingerprint is held twice. Every runtime that this module hands
    /// out is well formed.
    pub closed spec fn well_formed(&self) -> bool {
        self.store.well_formed()
    }

    /// The devices in the cache.
    pub closed spec fn devices(&self) -> Seq<Peer> {
        self.store@
    }

    /// The phase the runtime is in.
    pub closed spec fn spec_phase(&self) -> RuntimePhase {
        self.phase
    }

    /// Sets a runtime up with the devices that the file holds. A file that
    /// could not be read or is malformed is an error; no file means that no
    /// device is known yet.
    pub fn new(stored: StoredDevices) -> (runtime: Result<DiscoveryRuntime, PersistenceError>)
        ensures
            match stored {
                StoredDevices::Absent => runtime matches Ok(r) && r.well_formed()
                    && r.spec_phase() == RuntimePhase::Active && r.devices() == Seq::<
                    Peer,
                >::empty(),
                StoredDevices::Unreadable(message) => runtime matches Err(PersistenceError::Io(m))
                    && m@ == message@,
                StoredDevices::Malformed(message) => runtime matches Err(
                    PersistenceError::Malformed(m),
                ) && m@ == message@,
                StoredDevices::Devices(devices) => runtime matches Ok(r) && r.well_formed()
                    && r.spec_phase() == RuntimePhase::Active && r.devices() == upsert_all(
                    Seq::empty(),
                    peers_of(devices@),
                ),
            },
    {
        let mut store = DiscoveryStore::new();
        match store.load(stored) {
            Ok(_) => Ok(DiscoveryRuntime { store, phase: RuntimePhase::Active }),
            Err(e) => Err(e),
        }
    }

    /// The phase the runtime is in.
    #[verifier::when_used_as_spec(spec_phase)]
    pub fn phase(&self) -> (phase: RuntimePhase)
        ensures
            phase == self.spec_phase(),
    {
        self.phase
    }

    /// Decides how the service starts once the listener was set up, which
    /// `listening` reports. A listener that could not be set up ends the
    /// start with its error; else `device_info` is announced at every
    /// `interval_millis` milliseconds.
    pub fn start_service(
        &self,
        device_info: DeviceInfo,
        interval_millis: u64,
        listening: Result<(), ProtocolError>,
    ) -> (start: Result<ServiceStart, ProtocolError>)
        ensures
            match listening {
                Ok(_) => start matches Ok(s) && s.device_info@ == device_info@
                    && s.interval_millis == interval_millis,
                Err(e) => start == Err::<ServiceStart, ProtocolError>(e),
            },
    {
        match listening {
            Ok(_) => Ok(ServiceStart { device_info, interval_millis }),
            Err(e) => Err(e),
        }
    }

    /// Records a discovered device in the cache and hands out the devices
    /// that the file must hold after the save at `now` that follows.
    pub fn update_device(&mut self, device: DiscoveredDevice, now: Timestamp) -> (persisted: Vec<
        DiscoveredDevice,
    >)
        requires
            old(self).well_formed(),
        ensures
            final(self).well_formed(),
            final(self).spec_phase() == old(self).spec_phase(),
            final(self).devices() == upsert(old(self).devices(), device@),
            peers_of(persisted@) == fresh_at(final(self).devices(), now),
    {
        self.store.update_device(device, now)
    }

    /// A copy of the cache as it stands.
    pub fn get_devices(&self) -> (devices: Vec<DiscoveredDevice>)
        ensures
            peers_of(devices@) == self.devices(),
    {
        self.store.get_devices()
    }

    /// The next step of the shutdown, if one is left: first the operations
    /// are told to stop, then the engine is stopped, and only then are the
    /// devices written, so that nothing that still came in is lost. With
    /// the last step come the devices that the file must hold.
    pub fn shutdown(&mut self, now: Timestamp) -> (step: Option<
        (ShutdownStep, Vec<DiscoveredDevice>),
    >)
        ensures
            final(self).well_formed() == old(self).well_formed(),
            final(self).devices() == old(self).devices(),
            final(self).spec_phase() == phase_after(old(self).spec_phase()),
            match step {
                Some((due, persisted)) => step_due(old(self).spec_phase()) == Some(due)
                    && peers_of(persisted@) == if due == ShutdownStep::Flush {
                    fresh_at(old(self).devices(), now)
                } else {
                    Seq::<Peer>::empty()
                },
                None => step_due(old(self).spec_phase()) is None,
            },
    {
        match self.phase {
            RuntimePhase::Active => {
                self.phase = RuntimePhase::Cancelled;
                let nothing: Vec<DiscoveredDevice> = Vec::new();
                assert(peers_of(nothing@) =~= Seq::<Peer>::empty());
                Some((ShutdownStep::Cancel, nothing))
            },
            RuntimePhase::Cancelled => {
                self.phase = RuntimePhase::EngineStopped;
                let nothing: Vec<DiscoveredDevice> = Vec::new();
                assert(peers_of(nothing@) =~= Seq::<Peer>::empty());
                Some((ShutdownStep::StopEngine, nothing))
            },
            RuntimePhase::EngineStopped => {
                self.phase = RuntimePhase::Flushed;
                let persisted = self.store.save(now);
                Some((ShutdownStep::Flush, persisted))
            },
            RuntimePhase::Flushed => None,
        }
    }
}

/// A shutdown takes its steps in one order: the operations are told to stop,
/// the engine is stopped, the devices are written, and nothing is left.
pub proof fn law_shutdown_order()
    ensures
        step_due(RuntimePhase::Active) == Some(ShutdownStep::Cancel),
        step_due(phase_after(RuntimePhase::Active)) == Some(ShutdownStep::StopEngine),
        step_due(phase_after(phase_after(RuntimePhase::Active))) == Some(ShutdownStep::Flush),
        step_due(phase_after(phase_after(phase_after(RuntimePhase::Active)))) is None,
{
}

} // verus!

//! The life of a node's two background operations, broadcasting and
//! listening, and the devices that listening has brought in.
//!
//! Each operation is idle or running. The scanner numbers its runs; the
//! caller keeps the task of each run under its number, starts and ends tasks
//! as the scanner says, and reports when a broadcast has run its time.

use vstd::prelude::*;
use crate::device::{
    clone_text, peers_of, text_of, DeviceInfo, DeviceType, DiscoveredDevice, Peer,
};
use crate::table::{by_fingerprint, fingerprints_distinct, lemma_upsert, upsert, DeviceTable};

verus! {

/// What a start of an operation asks of the caller: end the task of the run
/// `abort`, if there is one, and only then start a task for the run `run`.
#[derive(Debug)]
pub struct BroadcastStart {
    /// The run that was going on, whose task must end.
    pub abort: Option<u64>,
    /// The run to start.
    pub run: u64,
    /// What the run announces.
    pub device_info: DeviceInfo,
    /// How long the run announces.
    pub duration_seconds: u32,
}

/// What a start of listening asks of the caller: end the task of the run
/// `abort`, if there is one, and only then start a task for the run `run`.
#[derive(Debug)]
pub struct ListenStart {
    /// The run that was going on, whose task must end.
    pub abort: Option<u64>,
    /// The run to start.
    pub run: u64,
    /// The node that listens: its own announcements are passed over.
    pub device_info: DeviceInfo,
}

/// The notification that goes out for a discovered device.
#[derive(Debug)]
pub struct DiscoveredDeviceMessage {
    pub alias: String,
    pub device_model: Option<String>,
    pub device_type: Option<DeviceType>,
    pub fingerprint: String,
    pub last_seen_unix_epoch: i64,
}

/// The mathematical content of a [`DiscoveredDeviceMessage`].
pub struct Notification {
    pub alias: Seq<char>,
    pub device_model: Option<Seq<char>>,
    pub device_type: Option<DeviceType>,
    pub fingerprint: Seq<char>,
    pub last_seen_unix_epoch: i64,
}

impl View for DiscoveredDeviceMessage {
    type V = Notification;

    open spec fn view(&self) -> Notification {
        Notification {
            alias: self.alias@,
            device_model: text_of(self.device_model),
            device_type: self.device_type,
            fingerprint: self.fingerprint@,
            last_seen_unix_epoch: self.last_seen_unix_epoch,
        }
    }
}

/// The notification for a peer: what is known of it, with the time it was
/// last seen in whole seconds since the epoch.
pub open spec fn notification_of(peer: Peer) -> Notification {
    Notification {
        alias: peer.alias,
        device_model: peer.device_model,
        device_type: peer.device_type,
        fingerprint: peer.fingerprint,
        last_seen_unix_epoch: peer.last_seen.spec_unix_epoch_secs(),
    }
}

/// Which runs are going on, and the number of the next run.
pub struct Lifecycle {
    /// The broadcast that is running, if one is.
    pub broadcast: Option<u64>,
    /// The listener that is running, if one is.
    pub listener: Option<u64>,
    /// The number that the next run gets.
    pub next_run: u64,
}

/// The number after `run`; after the last number comes the first.
pub open spec fn run_after(run: u64) -> u64 {
    if run == u64::MAX {
        0
    } else {
        (run + 1) as u64
    }
}

/// The number that the next run gets once `taken` is used up: the number
/// after it, or the one after that where the operation that keeps running
/// has the first.
pub open spec fn fresh_run(taken: u64, other: Option<u64>) -> u64 {
    if other == Some(run_after(taken)) {
        run_after(run_after(taken))
    } else {
        run_after(taken)
    }
}

impl Lifecycle {
    /// The number of the next run is the number of no run that is going on.
    pub open spec fn well_formed(self) -> bool {
        self.broadcast != Some(self.next_run) && self.listener != Some(self.next_run)
    }

    /// The lifecycle after a start of broadcasting.
    pub open spec fn start_broadcast(self) -> Lifecycle {
        Lifecycle {
            broadcast: Some(self.next_run),
            next_run: fresh_run(self.next_run, self.listener),
            ..self
        }
    }

    /// The lifecycle after a stop of broadcasting.
    pub open spec fn stop_broadcast(self) -> Lifecycle {
        Lifecycle { broadcast: None, ..self }
    }

    /// The lifecycle after the broadcast `run` has run its time: where that
    /// run is still the one going on, broadcasting is idle again.
    pub open spec fn broadcast_finished(self, run: u64) -> Lifecycle {
        if self.broadcast == Some(run) {
            Lifecycle { broadcast: None, ..self }
        } else {
            self
        }
    }

    /// The lifecycle after a start of listening.
    pub open spec fn start_listening(self) -> Lifecycle {
        Lifecycle {
            listener: Some(self.next_run),
            next_run: fresh_run(self.next_run, self.broadcast),
            ..self
        }
    }

    /// The lifecycle after a stop of listening.
    pub open spec fn stop_listening(self) -> Lifecycle {
        Lifecycle { listener: None, ..self }
    }
}

/// The runs whose tasks are alive after the caller has done what a start
/// asks: the run to abort is gone and the new run is there.
pub open spec fn tasks_after_start(alive: Set<u64>, abort: Option<u64>, run: u64) -> Set<u64> {
    match abort {
        Some(old_run) => alive.remove(old_run).insert(run),
        None => alive.insert(run),
    }
}

/// The runs whose tasks are alive after the caller has done what a stop asks.
pub open spec fn tasks_after_stop(alive: Set<u64>, abort: Option<u64>) -> Set<u64> {
    match abort {
        Some(old_run) => alive.remove(old_run),
        None => alive,
    }
}

/// The runs of an operation that are alive while the operation is in the
/// state `running`: the one that is going on, and no other.
pub open spec fn tasks_of(running: Option<u64>) -> Set<u64> {
    match running {
        Some(run) => set![run],
        None => Set::empty(),
    }
}

/// Starts and stops broadcasting and listening, and keeps the devices that
/// listening has discovered, one per fingerprint.
#[derive(Debug)]
pub struct DeviceScanner {
    broadcast_run: Option<u64>,
    listen_run: Option<u64>,
    next_run: u64,
    devices: DeviceTable,
}

impl DeviceScanner {
    /// No fingerprint is held twice, and the number of the next run is the
    /// number of no run that is going on. Every scanner that this module
    /// hands out is well formed.
    pub open spec fn well_formed(&self) -> bool {
        fingerprints_distinct(self.device_list()) && self.lifecycle().well_formed()
    }

    /// Which runs are going on.
    pub closed spec fn lifecycle(&self) -> Lifecycle {
        Lifecycle {
            broadcast: self.broadcast_run,
            listener: self.listen_run,
            next_run: self.next_run,
        }
    }

    /// The discovered devices by fingerprint.
    pub closed spec fn devices(&self) -> Map<Seq<char>, Peer> {
        by_fingerprint(self.devices@)
    }

    /// The discovered devices in the order in which their fingerprints were
    /// first heard of.
    pub closed spec fn device_list(&self) -> Seq<Peer> {
        self.devices@
    }

    /// A scanner with both operations idle and no device discovered.
    pub fn new() -> (scanner: DeviceScanner)
        ensures
            scanner.well_formed(),
            scanner.lifecycle() == (Lifecycle { broadcast: None, listener: None, next_run: 0 }),
            scanner.device_list() == Seq::<Peer>::empty(),
            scanner.devices() == Map::<Seq<char>, Peer>::empty(),
    {
        let scanner = DeviceScanner {
            broadcast_run: None,
            listen_run: None,
            next_run: 0,
            devices: DeviceTable::new(),
        };
        assert(scanner.devices() =~= Map::<Seq<char>, Peer>::empty());
        scanner
    }

    /// The number after `run`; after the last number comes the first.
    fn following(run: u64) -> (next: u64)
        ensures
            next == run_after(run),
    {
        if run == u64::MAX {
            0
        } else {
            run + 1
        }
    }

    /// Starts a broadcast of `device_info` for `duration_seconds`. A
    /// broadcast that is going on is ended first, so that no two are ever
    /// alive; the new run is then the one going on.
    pub fn start_broadcast(&mut self, device_info: DeviceInfo, duration_seconds: u32) -> (start:
        BroadcastStart)
        requires
            old(self).well_formed(),
        ensures
            final(self).well_formed(),
            final(self).lifecycle() == old(self).lifecycle().start_broadcast(),
            final(self).device_list() == old(self).device_list(),
            start.abort == old(self).lifecycle().broadcast,
            Some(start.run) == final(self).lifecycle().broadcast,
            start.abort != Some(start.run),
            start.device_info@ == device_info@,
            start.duration_seconds == duration_seconds,
    {
        let abort = self.broadcast_run;
        let run = self.next_run;
        let mut next = Self::following(run);
        if self.listen_run == Some(next) {
            next = Self::following(next);
        }
        self.broadcast_run = Some(run);
        self.next_run = next;
        BroadcastStart { abort, run, device_info, duration_seconds }
    }

    /// Stops broadcasting: the run that is going on, if there is one, must
    /// end. Nothing changes where broadcasting is idle.
    pub fn stop_broadcast(&mut self) -> (abort: Option<u64>)
        ensures
            final(self).lifecycle() == old(self).lifecycle().stop_broadcast(),
            final(self).device_list() == old(self).device_list(),
            old(self).well_formed() ==> final(self).well_formed(),
            abort == old(self).lifecycle().broadcast,
            old(self).lifecycle().broadcast is None ==> final(self).lifecycle() == old(
                self,
            ).lifecycle(),
    {
        let abort = self.broadcast_run;
        self.broadcast_run = None;
        abort
    }

    /// Takes note that the broadcast `run` has run its time. Broadcasting is
    /// idle afterwards if that run was the one going on; the end of a run
    /// that was replaced in the meantime changes nothing.
    pub fn broadcast_finished(&mut self, run: u64)
        ensures
            final(self).lifecycle() == old(self).lifecycle().broadcast_finished(run),
            final(self).device_list() == old(self).device_list(),
            old(self).well_formed() ==> final(self).well_formed(),
    {
        if self.broadcast_run == Some(run) {
            self.broadcast_run = None;
        }
    }

    /// Starts listening as the node `device_info`. A listener that is going
    /// on is ended first; the new run is then the one going on.
    pub fn start_listening(&mut self, device_info: DeviceInfo) -> (start: ListenStart)
        requires
            old(self).well_formed(),
        ensures
            final(self).well_formed(),
            final(self).lifecycle() == old(self).lifecycle().start_listening(),
            final(self).device_list() == old(self).device_list(),
            start.abort == old(self).lifecycle().listener,
            Some(start.run) == final(self).lifecycle().listener,
            start.abort != Some(start.run),
            start.device_info@ == device_info@,
    {
        let abort = self.listen_run;
        let run = self.next_run;
        let mut next = Self::following(run);
        if self.broadcast_run == Some(next) {
            next = Self::following(next);
        }
        self.listen_run = Some(run);
        self.next_run = next;
        ListenStart { abort, run, device_info }
    }

    /// Stops listening: the run that is going on, if there is one, must end.
    /// Nothing changes where listening is idle.
    pub fn stop_listening(&mut self) -> (abort: Option<u64>)
        ensures
            final(self).lifecycle() == old(self).lifecycle().stop_listening(),
            final(self).device_list() == old(self).device_list(),
            old(self).well_formed() ==> final(self).well_formed(),
            abort == old(self).lifecycle().listener,
            old(self).lifecycle().listener is None ==> final(self).lifecycle() == old(
                self,
            ).lifecycle(),
    {
        let abort = self.listen_run;
        self.listen_run = None;
        abort
    }

    /// Tells whether a broadcast is going on.
    pub fn is_broadcasting(&self) -> (running: bool)
        ensures
            running == self.lifecycle().broadcast is Some,
    {
        self.broadcast_run.is_some()
    }

    /// Tells whether a listener is going on.
    pub fn is_listening(&self) -> (running: bool)
        ensures
            running == self.lifecycle().listener is Some,
    {
        self.listen_run.is_some()
    }

    /// Takes in a discovered device: it replaces the device with the same
    /// fingerprint, or is added where the fingerprint is new. Hands out the
    /// notification that goes out for it.
    pub fn forward(&mut self, device: DiscoveredDevice) -> (message: DiscoveredDeviceMessage)
        requires
            old(self).well_formed(),
        ensures
            final(self).well_formed(),
            final(self).lifecycle() == old(self).lifecycle(),
            final(self).device_list() == upsert(old(self).device_list(), device@),
            final(self).devices() == old(self).devices().insert(device@.fingerprint, device@),
            message@ == notification_of(device@),
    {
        proof {
            lemma_upsert(self.devices@, device@);
        }
        let message = DiscoveredDeviceMessage {
            alias: device.alias.clone(),
            device_model: clone_text(&device.device_model),
            device_type: device.device_type,
            fingerprint: device.fingerprint.clone(),
            last_seen_unix_epoch: device.last_seen.unix_epoch_secs(),
        };
        self.devices.upsert(device);
        message
    }

    /// A copy of the discovered devices.
    pub fn get_devices(&self) -> (devices: Vec<DiscoveredDevice>)
        ensures
            peers_of(devices@) == self.device_list(),
    {
        self.devices.to_vec()
    }
}

/// Two starts of broadcasting, one right after the other, leave exactly one
/// broadcast alive, the second, and broadcasting counts as running: the
/// second start ends the run that the first began.
pub proof fn law_restart_leaves_one_broadcast(state: Lifecycle)
    requires
        state.well_formed(),
    ensures
        ({
            let once = state.start_broadcast();
            let twice = once.start_broadcast();
            let alive = tasks_after_start(
                tasks_after_start(tasks_of(state.broadcast), state.broadcast, state.next_run),
                once.broadcast,
                once.next_run,
            );
            &&& twice.broadcast == Some(once.next_run)
            &&& once.broadcast == Some(state.next_run)
            &&& once.next_run != state.next_run
            &&& alive == set![once.next_run]
            &&& alive == tasks_of(twice.broadcast)
            &&& twice.well_formed()
        }),
{
    let once = state.start_broadcast();
    let first = tasks_after_start(tasks_of(state.broadcast), state.broadcast, state.next_run);
    assert(first =~= set![state.next_run]);
    let alive = tasks_after_start(first, once.broadcast, once.next_run);
    assert(alive =~= set![once.next_run]);
}

/// Broadcasting counts as running from its start until it is stopped or the
/// run that is going on has run its time, and as idle after either.
pub proof fn law_broadcast_flag(state: Lifecycle)
    requires
        state.well_formed(),
    ensures
        state.start_broadcast().broadcast is Some,
        state.start_broadcast().stop_broadcast().broadcast is None,
        state.start_broadcast().broadcast_finished(state.next_run).broadcast is None,
        tasks_after_stop(
            tasks_of(state.start_broadcast().broadcast),
            state.start_broadcast().broadcast,
        ) == Set::<u64>::empty(),
{
    assert(tasks_after_stop(
        tasks_of(state.start_broadcast().broadcast),
        state.start_broadcast().broadcast,
    ) =~= Set::<u64>::empty());
}

/// Stopping an operation that is idle asks nothing of the caller and changes
/// nothing.
pub proof fn law_stop_when_idle(state: Lifecycle)
    ensures
        state.broadcast is None ==> state.stop_broadcast() == state,
        state.listener is None ==> state.stop_listening() == state,
{
}

} // verus!

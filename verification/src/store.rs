//! The discovered peers that a node remembers, and what of them it persists.
//!
//! The store is a cache in memory that is mirrored to one file. Reading and
//! writing the file is the caller's part: the store says what the cache holds
//! after each operation and which devices the file must hold.

use vstd::prelude::*;
use crate::clock::{is_stale, Timestamp};
use crate::device::{peers_of, DiscoveredDevice, Peer};
use crate::table::{
    fingerprints_distinct, fresh_at, knows, lemma_fresh_at, lemma_place_of, lemma_upsert,
    lemma_upsert_all_of_distinct, place_of, upsert, upsert_all, DeviceTable,
};

verus! {

/// The file, inside the base directory, that holds the discovered devices.
pub const STORE_FILE_NAME: &'static str = ".discovered";

/// Why the persisted devices could not be had.
#[derive(Debug)]
pub enum PersistenceError {
    /// The file is there and could not be read.
    Io(String),
    /// The file was read and is malformed.
    Malformed(String),
}

/// What was found where the devices are persisted.
#[derive(Debug)]
pub enum StoredDevices {
    /// There is no file.
    Absent,
    /// The file is there and could not be read.
    Unreadable(String),
    /// The file was read and is malformed.
    Malformed(String),
    /// The devices that the file holds.
    Devices(Vec<DiscoveredDevice>),
}

/// The discovered devices, at most one per fingerprint, in the order in which
/// their fingerprints were first heard of.
#[derive(Debug)]
pub struct DiscoveryStore {
    devices: DeviceTable,
}

impl View for DiscoveryStore {
    type V = Seq<Peer>;

    closed spec fn view(&self) -> Seq<Peer> {
        self.devices@
    }
}

impl DiscoveryStore {
    /// No fingerprint is held twice. Every store that this module hands out
    /// is well formed.
    pub open spec fn well_formed(&self) -> bool {
        fingerprints_distinct(self@)
    }

    /// A store with an empty cache.
    pub fn new() -> (store: DiscoveryStore)
        ensures
            store.well_formed(),
            store@ == Seq::<Peer>::empty(),
    {
        DiscoveryStore { devices: DeviceTable::new() }
    }

    /// Replaces the cache by what the file holds and hands out a copy of it.
    /// No file means an empty cache. Where the file holds a fingerprint more
    /// than once, the last device with it counts, at the place of the first.
    /// A file that could not be read or is malformed is an error and leaves
    /// the cache as it was.
    pub fn load(&mut self, stored: StoredDevices) -> (loaded: Result<
        Vec<DiscoveredDevice>,
        PersistenceError,
    >)
        requires
            old(self).well_formed(),
        ensures
            final(self).well_formed(),
            match stored {
                StoredDevices::Absent => loaded matches Ok(devices) && devices@.len() == 0
                    && final(self)@ == Seq::<Peer>::empty(),
                StoredDevices::Unreadable(message) => loaded matches Err(PersistenceError::Io(m))
                    && m@ == message@ && final(self)@ == old(self)@,
                StoredDevices::Malformed(message) => loaded matches Err(
                    PersistenceError::Malformed(m),
                ) && m@ == message@ && final(self)@ == old(self)@,
                StoredDevices::Devices(devices) => loaded matches Ok(copy) && peers_of(copy@)
                    == final(self)@ && final(self)@ == upsert_all(
                    Seq::empty(),
                    peers_of(devices@),
                ) && (fingerprints_distinct(peers_of(devices@)) ==> final(self)@ == peers_of(
                    devices@,
                )),
            },
    {
        match stored {
            StoredDevices::Absent => {
                self.devices.clear();
                Ok(Vec::new())
            },
            StoredDevices::Unreadable(message) => Err(PersistenceError::Io(message)),
            StoredDevices::Malformed(message) => Err(PersistenceError::Malformed(message)),
            StoredDevices::Devices(devices) => {
                self.devices.clear();
                let mut i: usize = 0;
                while i < devices.len()
                    invariant
                        i <= devices@.len(),
                        self.well_formed(),
                        self@ == upsert_all(Seq::empty(), peers_of(devices@).take(i as int)),
                    decreases devices@.len() - i,
                {
                    self.devices.upsert(devices[i].clone());
                    proof {
                        let next = peers_of(devices@).take(i + 1);
                        assert(next.drop_last() =~= peers_of(devices@).take(i as int));
                    }
                    i += 1;
                }
                proof {
                    assert(peers_of(devices@).take(i as int) =~= peers_of(devices@));
                    if fingerprints_distinct(peers_of(devices@)) {
                        lemma_upsert_all_of_distinct(peers_of(devices@));
                    }
                }
                Ok(self.devices.to_vec())
            },
        }
    }

    /// The devices that the file must hold after a save at `now`: those of the
    /// cache that are not stale, in the cache's order. The cache itself keeps
    /// its stale devices.
    pub fn save(&self, now: Timestamp) -> (persisted: Vec<DiscoveredDevice>)
        ensures
            peers_of(persisted@) == fresh_at(self@, now),
    {
        self.devices.fresh(now)
    }

    /// Drops the stale devices from the cache, and hands out the devices that
    /// the file must hold, which are those that the cache keeps.
    pub fn prune_expired(&mut self, now: Timestamp) -> (persisted: Vec<DiscoveredDevice>)
        requires
            old(self).well_formed(),
        ensures
            final(self).well_formed(),
            final(self)@ == fresh_at(old(self)@, now),
            peers_of(persisted@) == final(self)@,
    {
        proof {
            lemma_fresh_at(self@, now);
        }
        self.devices.retain_fresh(now);
        self.save(now)
    }

    /// Records a device: it replaces the cached device with the same
    /// fingerprint, or is added where the fingerprint is new. Hands out the
    /// devices that the file must hold after the save at `now` that follows.
    pub fn update_device(&mut self, device: DiscoveredDevice, now: Timestamp) -> (persisted: Vec<
        DiscoveredDevice,
    >)
        requires
            old(self).well_formed(),
        ensures
            final(self).well_formed(),
            final(self)@ == upsert(old(self)@, device@),
            peers_of(persisted@) == fresh_at(final(self)@, now),
    {
        self.devices.upsert(device);
        self.save(now)
    }

    /// A copy of the cache as it stands.
    pub fn get_devices(&self) -> (devices: Vec<DiscoveredDevice>)
        ensures
            peers_of(devices@) == self@,
    {
        self.devices.to_vec()
    }
}

/// What a save at `now` persists, loaded again, is exactly the peers of the
/// cache that were not stale at `now`: each of them is there, and no peer
/// that was stale at `now` is.
pub proof fn law_save_then_load(cache: Seq<Peer>, now: Timestamp)
    requires
        fingerprints_distinct(cache),
    ensures
        upsert_all(Seq::empty(), fresh_at(cache, now)) == fresh_at(cache, now),
        forall|peer: Peer|
            fresh_at(cache, now).contains(peer) <==> cache.contains(peer) && !is_stale(
                peer.last_seen,
                now,
            ),
{
    lemma_fresh_at(cache, now);
    lemma_upsert_all_of_distinct(fresh_at(cache, now));
    let fresh = fresh_at(cache, now);
    assert forall|peer: Peer| fresh.contains(peer) <==> cache.contains(peer) && !is_stale(
        peer.last_seen,
        now,
    ) by {
        if fresh.contains(peer) {
            let i = choose|i: int| 0 <= i < fresh.len() && fresh[i] == peer;
            assert(!is_stale(fresh[i].last_seen, now) && cache.contains(fresh[i]));
        }
        if cache.contains(peer) && !is_stale(peer.last_seen, now) {
            let i = choose|i: int| 0 <= i < cache.len() && cache[i] == peer;
            assert(!is_stale(cache[i].last_seen, now));
        }
    }
}

/// Two updates with one fingerprint leave exactly one peer with that
/// fingerprint, and it is the later of the two, whatever else differs
/// between them.
pub proof fn law_update_twice(cache: Seq<Peer>, first: Peer, second: Peer)
    requires
        fingerprints_distinct(cache),
        first.fingerprint == second.fingerprint,
    ensures
        fingerprints_distinct(upsert(upsert(cache, first), second)),
        knows(upsert(upsert(cache, first), second), second.fingerprint),
        forall|i: int|
            0 <= i < upsert(upsert(cache, first), second).len() && (#[trigger] upsert(
                upsert(cache, first),
                second,
            )[i]).fingerprint == second.fingerprint ==> upsert(upsert(cache, first), second)[i]
                == second,
        upsert(upsert(cache, first), second) == upsert(cache, second),
        upsert(upsert(cache, first), second).len() == upsert(cache, first).len(),
{
    let once = upsert(cache, first);
    let twice = upsert(once, second);
    lemma_upsert(cache, first);
    lemma_upsert(once, second);
    assert forall|i: int| 0 <= i < twice.len() && (#[trigger] twice[i]).fingerprint
        == second.fingerprint implies twice[i] == second by {
        lemma_place_of(twice, i);
    }
    if knows(cache, first.fingerprint) {
        let at = place_of(cache, first.fingerprint);
        lemma_place_of(cache, at);
        assert(once[at].fingerprint == first.fingerprint);
        lemma_place_of(once, at);
        assert(twice =~= upsert(cache, second));
    } else {
        let at = cache.len() as int;
        assert(once[at].fingerprint == first.fingerprint);
        lemma_place_of(once, at);
        assert(twice =~= upsert(cache, second));
    }
}

} // verus!

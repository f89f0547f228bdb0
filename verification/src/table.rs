//! A list of peers in which no fingerprint occurs twice.

use vstd::prelude::*;
use crate::clock::{is_stale, stale_at, Timestamp};
use crate::device::{peers_of, DiscoveredDevice, Peer};
use crate::text::same_text;

verus! {

/// No fingerprint occurs twice in the list.
pub open spec fn fingerprints_distinct(peers: Seq<Peer>) -> bool {
    forall|i: int, j: int|
        0 <= i < j < peers.len() ==> (#[trigger] peers[i]).fingerprint != (
        #[trigger] peers[j]).fingerprint
}

/// Some peer of the list has this fingerprint.
pub open spec fn knows(peers: Seq<Peer>, fingerprint: Seq<char>) -> bool {
    exists|i: int| 0 <= i < peers.len() && (#[trigger] peers[i]).fingerprint == fingerprint
}

/// A place in the list where a peer with this fingerprint stands.
pub open spec fn place_of(peers: Seq<Peer>, fingerprint: Seq<char>) -> int {
    choose|i: int| 0 <= i < peers.len() && (#[trigger] peers[i]).fingerprint == fingerprint
}

/// The list after hearing of `peer`: where its fingerprint is known, it takes
/// the place of the peer that had it; else it is added at the end.
pub open spec fn upsert(peers: Seq<Peer>, peer: Peer) -> Seq<Peer> {
    if knows(peers, peer.fingerprint) {
        peers.update(place_of(peers, peer.fingerprint), peer)
    } else {
        peers.push(peer)
    }
}

/// The list after hearing of each peer of `heard` in turn.
pub open spec fn upsert_all(peers: Seq<Peer>, heard: Seq<Peer>) -> Seq<Peer>
    decreases heard.len(),
{
    if heard.len() == 0 {
        peers
    } else {
        upsert(upsert_all(peers, heard.drop_last()), heard.last())
    }
}

/// The peers of the list that are not stale at `now`, in the list's order.
pub open spec fn fresh_at(peers: Seq<Peer>, now: Timestamp) -> Seq<Peer> {
    peers.filter(|p: Peer| !is_stale(p.last_seen, now))
}

/// The peers of the list by fingerprint.
pub open spec fn by_fingerprint(peers: Seq<Peer>) -> Map<Seq<char>, Peer> {
    Map::new(
        |fingerprint: Seq<char>| knows(peers, fingerprint),
        |fingerprint: Seq<char>| peers[place_of(peers, fingerprint)],
    )
}

/// In a list without a repeated fingerprint, a fingerprint has one place.
pub proof fn lemma_place_of(peers: Seq<Peer>, i: int)
    requires
        fingerprints_distinct(peers),
        0 <= i < peers.len(),
    ensures
        knows(peers, peers[i].fingerprint),
        place_of(peers, peers[i].fingerprint) == i,
{
    let j = place_of(peers, peers[i].fingerprint);
    if i < j {
        assert(peers[i].fingerprint != peers[j].fingerprint);
    } else if j < i {
        assert(peers[j].fingerprint != peers[i].fingerprint);
    }
}

/// Hearing of a peer keeps fingerprints apart, leaves exactly one peer with
/// its fingerprint, which is the peer heard of, and touches no other peer.
pub proof fn lemma_upsert(peers: Seq<Peer>, peer: Peer)
    requires
        fingerprints_distinct(peers),
    ensures
        fingerprints_distinct(upsert(peers, peer)),
        knows(upsert(peers, peer), peer.fingerprint),
        upsert(peers, peer)[place_of(upsert(peers, peer), peer.fingerprint)] == peer,
        forall|fingerprint: Seq<char>|
            fingerprint != peer.fingerprint ==> (knows(upsert(peers, peer), fingerprint) <==> knows(
                peers,
                fingerprint,
            )),
        by_fingerprint(upsert(peers, peer)) == by_fingerprint(peers).insert(
            peer.fingerprint,
            peer,
        ),
{
    let after = upsert(peers, peer);
    if knows(peers, peer.fingerprint) {
        let at = place_of(peers, peer.fingerprint);
        assert forall|i: int, j: int| 0 <= i < j < after.len() implies (
        #[trigger] after[i]).fingerprint != (#[trigger] after[j]).fingerprint by {
            assert(peers[i].fingerprint != peers[j].fingerprint);
        }
        assert(after[at].fingerprint == peer.fingerprint);
        lemma_place_of(after, at);
    } else {
        assert forall|i: int, j: int| 0 <= i < j < after.len() implies (
        #[trigger] after[i]).fingerprint != (#[trigger] after[j]).fingerprint by {
            if j < peers.len() {
                assert(peers[i].fingerprint != peers[j].fingerprint);
            } else {
                assert(peers[i].fingerprint != peer.fingerprint);
            }
        }
        assert(after[peers.len() as int].fingerprint == peer.fingerprint);
        lemma_place_of(after, peers.len() as int);
    }
    assert forall|fingerprint: Seq<char>| fingerprint != peer.fingerprint implies (knows(
        after,
        fingerprint,
    ) <==> knows(peers, fingerprint)) by {
        if knows(after, fingerprint) {
            let i = place_of(after, fingerprint);
            assert(peers[i].fingerprint == fingerprint);
        }
        if knows(peers, fingerprint) {
            let i = place_of(peers, fingerprint);
            assert(after[i].fingerprint == fingerprint);
        }
    }
    assert forall|fingerprint: Seq<char>| #[trigger]
        by_fingerprint(after).contains_key(fingerprint) implies by_fingerprint(after)[fingerprint]
        == by_fingerprint(peers).insert(peer.fingerprint, peer)[fingerprint] by {
        if fingerprint != peer.fingerprint {
            let i = place_of(peers, fingerprint);
            lemma_place_of(peers, i);
            assert(after[i] == peers[i]);
            lemma_place_of(after, i);
        }
    }
    assert(by_fingerprint(after) =~= by_fingerprint(peers).insert(peer.fingerprint, peer));
}

/// A list without a repeated fingerprint, heard from nothing, gives itself.
pub proof fn lemma_upsert_all_of_distinct(heard: Seq<Peer>)
    requires
        fingerprints_distinct(heard),
    ensures
        upsert_all(Seq::empty(), heard) == heard,
    decreases heard.len(),
{
    if heard.len() > 0 {
        let rest = heard.drop_last();
        assert(fingerprints_distinct(rest)) by {
            assert forall|i: int, j: int| 0 <= i < j < rest.len() implies (
            #[trigger] rest[i]).fingerprint != (#[trigger] rest[j]).fingerprint by {
                assert(heard[i].fingerprint != heard[j].fingerprint);
            }
        }
        lemma_upsert_all_of_distinct(rest);
        if knows(rest, heard.last().fingerprint) {
            let i = place_of(rest, heard.last().fingerprint);
            assert(heard[i].fingerprint != heard[heard.len() - 1].fingerprint);
        }
        assert(rest.push(heard.last()) =~= heard);
    } else {
        assert(heard =~= Seq::empty());
    }
}

/// The fresh peers of a list are those of its peers that are not stale, each
/// a peer of the list; fingerprints stay apart; and nothing stale is left, so
/// taking the fresh peers again changes nothing.
pub proof fn lemma_fresh_at(peers: Seq<Peer>, now: Timestamp)
    ensures
        fresh_at(peers, now).len() <= peers.len(),
        forall|i: int|
            0 <= i < fresh_at(peers, now).len() ==> !is_stale(
                (#[trigger] fresh_at(peers, now)[i]).last_seen,
                now,
            ) && peers.contains(fresh_at(peers, now)[i]),
        forall|i: int|
            0 <= i < peers.len() && !is_stale((#[trigger] peers[i]).last_seen, now) ==> fresh_at(
                peers,
                now,
            ).contains(peers[i]),
        fingerprints_distinct(peers) ==> fingerprints_distinct(fresh_at(peers, now)),
        fresh_at(fresh_at(peers, now), now) == fresh_at(peers, now),
    decreases peers.len(),
{
    reveal(Seq::filter);
    let fresh = fresh_at(peers, now);
    if peers.len() == 0 {
        assert(fresh_at(fresh, now) == fresh);
    } else {
        let rest = peers.drop_last();
        let last = peers.last();
        let kept = fresh_at(rest, now);
        lemma_fresh_at(rest, now);
        assert forall|i: int| 0 <= i < kept.len() implies peers.contains(#[trigger] kept[i]) by {
            let j = choose|j: int| 0 <= j < rest.len() && rest[j] == kept[i];
            assert(peers[j] == kept[i]);
        }
        if !is_stale(last.last_seen, now) {
            assert(fresh == kept.push(last));
            assert(peers[peers.len() - 1] == last);
            assert(fresh[kept.len() as int] == last);
            assert(fresh.drop_last() =~= kept);
            assert(fresh_at(fresh, now) == fresh);
        } else {
            assert(fresh == kept);
        }
        assert forall|i: int| 0 <= i < peers.len() && !is_stale(
            (#[trigger] peers[i]).last_seen,
            now,
        ) implies fresh.contains(peers[i]) by {
            if i < rest.len() {
                assert(rest[i] == peers[i]);
                let j = choose|j: int| 0 <= j < kept.len() && kept[j] == rest[i];
                assert(fresh[j] == peers[i]);
            } else {
                assert(fresh[kept.len() as int] == peers[i]);
            }
        }
        if fingerprints_distinct(peers) {
            assert(fingerprints_distinct(rest)) by {
                assert forall|i: int, j: int| 0 <= i < j < rest.len() implies (
                #[trigger] rest[i]).fingerprint != (#[trigger] rest[j]).fingerprint by {
                    assert(peers[i].fingerprint != peers[j].fingerprint);
                }
            }
            assert forall|i: int, j: int| 0 <= i < j < fresh.len() implies (
            #[trigger] fresh[i]).fingerprint != (#[trigger] fresh[j]).fingerprint by {
                if j < kept.len() {
                    assert(kept[i].fingerprint != kept[j].fingerprint);
                } else {
                    let k = choose|k: int| 0 <= k < rest.len() && rest[k] == kept[i];
                    assert(peers[k].fingerprint != peers[peers.len() - 1].fingerprint);
                }
            }
        }
    }
}

/// A list of devices in which no fingerprint occurs twice.
#[derive(Debug)]
pub struct DeviceTable {
    devices: Vec<DiscoveredDevice>,
}

impl View for DeviceTable {
    type V = Seq<Peer>;

    closed spec fn view(&self) -> Seq<Peer> {
        peers_of(self.devices@)
    }
}

impl DeviceTable {
    /// No fingerprint is held twice. Every table that this module hands out
    /// is well formed.
    pub open spec fn well_formed(&self) -> bool {
        fingerprints_distinct(self@)
    }

    /// A table without devices.
    pub fn new() -> (table: DeviceTable)
        ensures
            table@ == Seq::<Peer>::empty(),
            table.well_formed(),
    {
        let table = DeviceTable { devices: Vec::new() };
        assert(table@ =~= Seq::<Peer>::empty());
        table
    }

    /// How many devices the table holds.
    pub fn len(&self) -> (n: usize)
        ensures
            n == self@.len(),
    {
        self.devices.len()
    }

    /// The first place where a device with this fingerprint stands, if there
    /// is one.
    pub fn find(&self, fingerprint: &str) -> (found: Option<usize>)
        ensures
            match found {
                Some(i) => i < self@.len() && self@[i as int].fingerprint == fingerprint@
                    && forall|j: int| 0 <= j < i ==> (#[trigger] self@[j]).fingerprint
                    != fingerprint@,
                None => !knows(self@, fingerprint@),
            },
    {
        let mut i: usize = 0;
        while i < self.devices.len()
            invariant
                i <= self@.len(),
                self@.len() == self.devices@.len(),
                forall|j: int| 0 <= j < i ==> (#[trigger] self@[j]).fingerprint != fingerprint@,
            decreases self@.len() - i,
        {
            if same_text(self.devices[i].fingerprint.as_str(), fingerprint) {
                return Some(i);
            }
            i += 1;
        }
        None
    }

    /// The device with this fingerprint, if the table holds one.
    pub fn get(&self, fingerprint: &str) -> (found: Option<&DiscoveredDevice>)
        requires
            self.well_formed(),
        ensures
            match found {
                Some(device) => by_fingerprint(self@).contains_key(fingerprint@) && by_fingerprint(
                    self@,
                )[fingerprint@] == device@,
                None => !by_fingerprint(self@).contains_key(fingerprint@),
            },
    {
        match self.find(fingerprint) {
            Some(i) => {
                proof {
                    lemma_place_of(self@, i as int);
                }
                Some(&self.devices[i])
            },
            None => None,
        }
    }

    /// Records a device: it replaces the device with the same fingerprint, or
    /// is added where the fingerprint is new.
    pub fn upsert(&mut self, device: DiscoveredDevice)
        requires
            old(self).well_formed(),
        ensures
            final(self).well_formed(),
            final(self)@ == upsert(old(self)@, device@),
    {
        let ghost before = self@;
        proof {
            lemma_upsert(before, device@);
        }
        match self.find(device.fingerprint.as_str()) {
            Some(i) => {
                proof {
                    lemma_place_of(before, i as int);
                }
                self.devices.set(i, device);
                assert(self@ =~= before.update(i as int, device@));
            },
            None => {
                self.devices.push(device);
                assert(self@ =~= before.push(device@));
            },
        }
    }

    /// A copy of every device, in the table's order.
    pub fn to_vec(&self) -> (copy: Vec<DiscoveredDevice>)
        ensures
            peers_of(copy@) == self@,
    {
        let mut copy: Vec<DiscoveredDevice> = Vec::new();
        let mut i: usize = 0;
        while i < self.devices.len()
            invariant
                i <= self.devices@.len(),
                peers_of(copy@) == self@.take(i as int),
            decreases self.devices@.len() - i,
        {
            let ghost copied = peers_of(copy@);
            copy.push(self.devices[i].clone());
            proof {
                assert(peers_of(copy@) =~= copied.push(self.devices@[i as int]@));
                assert(peers_of(copy@) =~= self@.take(i + 1));
            }
            i += 1;
        }
        assert(self@.take(i as int) =~= self@);
        copy
    }

    /// A copy of the devices that are not stale at `now`, in the table's order.
    pub fn fresh(&self, now: Timestamp) -> (kept: Vec<DiscoveredDevice>)
        ensures
            peers_of(kept@) == fresh_at(self@, now),
    {
        let mut kept: Vec<DiscoveredDevice> = Vec::new();
        let mut i: usize = 0;
        proof {
            reveal(Seq::filter);
            assert(self@.take(0) =~= Seq::<Peer>::empty());
            assert(peers_of(kept@) =~= fresh_at(self@.take(0), now));
        }
        while i < self.devices.len()
            invariant
                i <= self.devices@.len(),
                peers_of(kept@) == fresh_at(self@.take(i as int), now),
            decreases self.devices@.len() - i,
        {
            let ghost copied = peers_of(kept@);
            proof {
                reveal(Seq::filter);
                let next = self@.take(i + 1);
                assert(next.drop_last() =~= self@.take(i as int));
                assert(next.last() == self.devices@[i as int]@);
            }
            if !stale_at(self.devices[i].last_seen, now) {
                kept.push(self.devices[i].clone());
                proof {
                    assert(peers_of(kept@) =~= copied.push(self.devices@[i as int]@));
                }
            }
            i += 1;
        }
        assert(self@.take(i as int) =~= self@);
        kept
    }

    /// Drops the devices that are stale at `now`.
    pub fn retain_fresh(&mut self, now: Timestamp)
        requires
            old(self).well_formed(),
        ensures
            final(self).well_formed(),
            final(self)@ == fresh_at(old(self)@, now),
    {
        proof {
            lemma_fresh_at(self@, now);
        }
        let kept = self.fresh(now);
        self.devices = kept;
    }

    /// Drops every device.
    pub fn clear(&mut self)
        ensures
            final(self)@ == Seq::<Peer>::empty(),
            final(self).well_formed(),
    {
        self.devices = Vec::new();
        assert(self@ =~= Seq::<Peer>::empty());
    }
}

} // verus!

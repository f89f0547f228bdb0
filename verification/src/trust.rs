//! The pinned fingerprints: one approved fingerprint per server identity.

use vstd::prelude::*;
use crate::text::{same_text, texts};

verus! {

/// One approval: the fingerprint that a server identity must present.
#[derive(Debug)]
pub struct TrustEntry {
    pub server_identity: String,
    pub fingerprint: String,
}

impl View for TrustEntry {
    type V = (Seq<char>, Seq<char>);

    open spec fn view(&self) -> (Seq<char>, Seq<char>) {
        (self.server_identity@, self.fingerprint@)
    }
}

impl Clone for TrustEntry {
    fn clone(&self) -> (copy: Self)
        ensures
            copy@ == self@,
    {
        TrustEntry {
            server_identity: self.server_identity.clone(),
            fingerprint: self.fingerprint.clone(),
        }
    }
}

/// The identity and fingerprint of each entry of a list, in order.
pub open spec fn pairs_of(entries: Seq<TrustEntry>) -> Seq<(Seq<char>, Seq<char>)> {
    entries.map_values(|e: TrustEntry| e@)
}

/// No identity occurs twice in the list.
pub open spec fn identities_distinct(pairs: Seq<(Seq<char>, Seq<char>)>) -> bool {
    forall|i: int, j: int| 0 <= i < j < pairs.len() ==> (#[trigger] pairs[i]).0 != (#[trigger] pairs[j]).0
}

/// The map that results from approving the pairs of a list one after the
/// other: where an identity occurs more than once, its last pair counts.
pub open spec fn approvals(pairs: Seq<(Seq<char>, Seq<char>)>) -> Map<Seq<char>, Seq<char>>
    decreases pairs.len(),
{
    if pairs.len() == 0 {
        Map::empty()
    } else {
        approvals(pairs.drop_last()).insert(pairs.last().0, pairs.last().1)
    }
}

/// The map after approving `fingerprint` for every identity in `domains`:
/// each of them now maps to `fingerprint`, whatever it mapped to before, and
/// every other identity keeps what it had.
pub open spec fn trust_all(
    trusted: Map<Seq<char>, Seq<char>>,
    domains: Seq<Seq<char>>,
    fingerprint: Seq<char>,
) -> Map<Seq<char>, Seq<char>> {
    Map::new(
        |identity: Seq<char>| trusted.contains_key(identity) || domains.contains(identity),
        |identity: Seq<char>|
            if domains.contains(identity) {
                fingerprint
            } else {
                trusted[identity]
            },
    )
}

/// An identity that occurs in the list is approved.
pub proof fn lemma_approvals_contains(pairs: Seq<(Seq<char>, Seq<char>)>, i: int)
    requires
        0 <= i < pairs.len(),
    ensures
        approvals(pairs).contains_key(pairs[i].0),
    decreases pairs.len(),
{
    if i < pairs.len() - 1 {
        lemma_approvals_contains(pairs.drop_last(), i);
    }
}

/// An approved identity occurs in the list, with its fingerprint.
pub proof fn lemma_approvals_witness(pairs: Seq<(Seq<char>, Seq<char>)>, identity: Seq<char>) -> (i:
    int)
    requires
        approvals(pairs).contains_key(identity),
    ensures
        0 <= i < pairs.len(),
        pairs[i] == (identity, approvals(pairs)[identity]),
    decreases pairs.len(),
{
    if pairs.last().0 == identity {
        pairs.len() - 1
    } else {
        lemma_approvals_witness(pairs.drop_last(), identity)
    }
}

/// Where no identity occurs twice, each pair of the list is what the map holds.
pub proof fn lemma_approvals_at(pairs: Seq<(Seq<char>, Seq<char>)>, i: int)
    requires
        identities_distinct(pairs),
        0 <= i < pairs.len(),
    ensures
        approvals(pairs).contains_key(pairs[i].0),
        approvals(pairs)[pairs[i].0] == pairs[i].1,
{
    lemma_approvals_contains(pairs, i);
    let j = lemma_approvals_witness(pairs, pairs[i].0);
    assert(i == j) by {
        if i < j {
            assert(pairs[i].0 != pairs[j].0);
        } else if j < i {
            assert(pairs[j].0 != pairs[i].0);
        }
    }
}

/// Where no identity occurs twice, replacing the fingerprint of one pair
/// replaces it in the map and changes nothing else.
pub proof fn lemma_approvals_update(
    pairs: Seq<(Seq<char>, Seq<char>)>,
    i: int,
    fingerprint: Seq<char>,
)
    requires
        identities_distinct(pairs),
        0 <= i < pairs.len(),
    ensures
        identities_distinct(pairs.update(i, (pairs[i].0, fingerprint))),
        approvals(pairs.update(i, (pairs[i].0, fingerprint))) == approvals(pairs).insert(
            pairs[i].0,
            fingerprint,
        ),
{
    let identity = pairs[i].0;
    let changed = pairs.update(i, (identity, fingerprint));
    assert(identities_distinct(changed)) by {
        assert forall|a: int, b: int| 0 <= a < b < changed.len() implies (#[trigger] changed[a]).0
            != (#[trigger] changed[b]).0 by {
            assert(pairs[a].0 != pairs[b].0);
        }
    }
    let before = approvals(pairs);
    let after = approvals(changed);
    assert forall|k: Seq<char>| after.contains_key(k) <==> #[trigger] before.insert(
        identity,
        fingerprint,
    ).contains_key(k) by {
        if after.contains_key(k) {
            let j = lemma_approvals_witness(changed, k);
            lemma_approvals_contains(pairs, j);
        }
        if before.contains_key(k) {
            let j = lemma_approvals_witness(pairs, k);
            lemma_approvals_contains(changed, j);
        }
        lemma_approvals_contains(changed, i);
    }
    assert forall|k: Seq<char>| after.contains_key(k) implies #[trigger] after[k] == before.insert(
        identity,
        fingerprint,
    )[k] by {
        let j = lemma_approvals_witness(changed, k);
        lemma_approvals_at(changed, j);
        if j != i {
            lemma_approvals_at(pairs, j);
        }
    }
    assert(after =~= before.insert(identity, fingerprint));
}

/// The approved fingerprints, keyed by server identity. An identity has at
/// most one fingerprint: approving it again replaces what it had.
#[derive(Debug)]
pub struct TrustStore {
    entries: Vec<TrustEntry>,
}

impl View for TrustStore {
    type V = Map<Seq<char>, Seq<char>>;

    closed spec fn view(&self) -> Map<Seq<char>, Seq<char>> {
        approvals(pairs_of(self.entries@))
    }
}

impl TrustStore {
    /// No identity is held twice. Every store that this module hands out is
    /// well formed.
    pub closed spec fn well_formed(&self) -> bool {
        identities_distinct(pairs_of(self.entries@))
    }

    /// A store that trusts nobody.
    pub fn new() -> (store: TrustStore)
        ensures
            store.well_formed(),
            store@ == Map::<Seq<char>, Seq<char>>::empty(),
    {
        TrustStore { entries: Vec::new() }
    }

    /// Where `identity` stands in the entries, if it is approved.
    fn position(&self, identity: &str) -> (found: Option<usize>)
        requires
            self.well_formed(),
        ensures
            match found {
                Some(i) => i < self.entries@.len() && self.entries@[i as int].server_identity@
                    == identity@,
                None => !self@.contains_key(identity@),
            },
    {
        let mut i: usize = 0;
        while i < self.entries.len()
            invariant
                i <= self.entries@.len(),
                forall|j: int| 0 <= j < i ==> self.entries@[j].server_identity@ != identity@,
            decreases self.entries@.len() - i,
        {
            if same_text(self.entries[i].server_identity.as_str(), identity) {
                return Some(i);
            }
            i += 1;
        }
        proof {
            if self@.contains_key(identity@) {
                let j = lemma_approvals_witness(pairs_of(self.entries@), identity@);
                assert(self.entries@[j].server_identity@ == identity@);
            }
        }
        None
    }

    /// The fingerprint approved for `identity`, if there is one.
    pub fn get(&self, identity: &str) -> (found: Option<&String>)
        requires
            self.well_formed(),
        ensures
            match found {
                Some(fingerprint) => self@.contains_key(identity@) && self@[identity@]
                    == fingerprint@,
                None => !self@.contains_key(identity@),
            },
    {
        match self.position(identity) {
            Some(i) => {
                proof {
                    lemma_approvals_at(pairs_of(self.entries@), i as int);
                }
                Some(&self.entries[i].fingerprint)
            },
            None => None,
        }
    }

    /// Approves `fingerprint` for `identity`, in place of any fingerprint that
    /// the identity had.
    pub fn insert(&mut self, identity: &str, fingerprint: &str)
        requires
            old(self).well_formed(),
        ensures
            final(self).well_formed(),
            final(self)@ == old(self)@.insert(identity@, fingerprint@),
    {
        let ghost before = pairs_of(self.entries@);
        match self.position(identity) {
            Some(i) => {
                let entry = TrustEntry {
                    server_identity: identity.to_owned(),
                    fingerprint: fingerprint.to_owned(),
                };
                self.entries.set(i, entry);
                proof {
                    lemma_approvals_update(before, i as int, fingerprint@);
                    assert(pairs_of(self.entries@) =~= before.update(
                        i as int,
                        (before[i as int].0, fingerprint@),
                    ));
                }
            },
            None => {
                let entry = TrustEntry {
                    server_identity: identity.to_owned(),
                    fingerprint: fingerprint.to_owned(),
                };
                self.entries.push(entry);
                proof {
                    let after = pairs_of(self.entries@);
                    assert(after.drop_last() =~= before);
                    assert forall|a: int, b: int| 0 <= a < b < after.len() implies (
                    #[trigger] after[a]).0 != (#[trigger] after[b]).0 by {
                        if b == after.len() - 1 {
                            lemma_approvals_contains(before, a);
                        } else {
                            assert(before[a].0 != before[b].0);
                        }
                    }
                }
            },
        }
    }

    /// How many identities are approved.
    pub fn len(&self) -> (n: usize)
        requires
            self.well_formed(),
        ensures
            n == self@.dom().len(),
            self@.dom().finite(),
    {
        proof {
            lemma_approvals_len(pairs_of(self.entries@));
        }
        self.entries.len()
    }

    /// A copy of the entries, in their order.
    fn copy_entries(&self) -> (list: Vec<TrustEntry>)
        ensures
            pairs_of(list@) == pairs_of(self.entries@),
    {
        let mut list: Vec<TrustEntry> = Vec::new();
        let mut i: usize = 0;
        while i < self.entries.len()
            invariant
                i <= self.entries@.len(),
                pairs_of(list@) == pairs_of(self.entries@).take(i as int),
            decreases self.entries@.len() - i,
        {
            let ghost copied = pairs_of(list@);
            list.push(self.entries[i].clone());
            proof {
                assert(pairs_of(list@) =~= copied.push(self.entries@[i as int]@));
                assert(pairs_of(list@) =~= pairs_of(self.entries@).take(i + 1));
            }
            i += 1;
        }
        proof {
            assert(pairs_of(self.entries@).take(i as int) =~= pairs_of(self.entries@));
        }
        list
    }

    /// Every approval, one entry per identity.
    pub fn entries(&self) -> (list: Vec<TrustEntry>)
        requires
            self.well_formed(),
        ensures
            identities_distinct(pairs_of(list@)),
            approvals(pairs_of(list@)) == self@,
    {
        self.copy_entries()
    }

    /// Approves `fingerprint` for every identity in `domains`, in place of
    /// whatever each had.
    pub fn insert_all(&mut self, domains: &Vec<String>, fingerprint: &str)
        requires
            old(self).well_formed(),
        ensures
            final(self).well_formed(),
            final(self)@ == trust_all(old(self)@, texts(domains@), fingerprint@),
    {
        let mut i: usize = 0;
        while i < domains.len()
            invariant
                i <= domains@.len(),
                self.well_formed(),
                self@ == trust_all(old(self)@, texts(domains@).take(i as int), fingerprint@),
            decreases domains@.len() - i,
        {
            self.insert(domains[i].as_str(), fingerprint);
            proof {
                let done = texts(domains@).take(i as int);
                let next = texts(domains@).take(i + 1);
                assert(next =~= done.push(domains@[i as int]@));
                assert forall|k: Seq<char>| next.contains(k) <==> done.contains(k) || k
                    == domains@[i as int]@ by {
                    if done.contains(k) {
                        let j = choose|j: int| 0 <= j < done.len() && done[j] == k;
                        assert(next[j] == k);
                    }
                    assert(next[i as int] == domains@[i as int]@);
                }
                assert(self@ =~= trust_all(old(self)@, next, fingerprint@));
            }
            i += 1;
        }
        proof {
            assert(texts(domains@).take(i as int) =~= texts(domains@));
        }
    }
}

impl Clone for TrustStore {
    fn clone(&self) -> (copy: Self)
        ensures
            copy@ == self@,
            copy.well_formed() == self.well_formed(),
    {
        TrustStore { entries: self.copy_entries() }
    }
}

/// Where no identity occurs twice, the map has as many keys as the list has
/// pairs.
pub proof fn lemma_approvals_len(pairs: Seq<(Seq<char>, Seq<char>)>)
    requires
        identities_distinct(pairs),
    ensures
        approvals(pairs).dom().finite(),
        approvals(pairs).dom().len() == pairs.len(),
    decreases pairs.len(),
{
    if pairs.len() > 0 {
        let rest = pairs.drop_last();
        lemma_approvals_len(rest);
        if approvals(rest).contains_key(pairs.last().0) {
            let j = lemma_approvals_witness(rest, pairs.last().0);
            assert(pairs[j].0 != pairs[pairs.len() - 1].0);
        }
    }
}

} // verus!

//! The relay's session registry: a table from a session identifier's wire
//! string to its session record. Abstractly it is a map; operations are
//! specified as map inserts and lookups.
//!
//! The registry is the one shared mutable resource of the relay. The process
//! around the library serializes every mutation (a writer lock held only
//! across the mutation itself), so its operations are linearizable in
//! real-time completion order; the contracts here describe each serialized
//! step.

use vstd::prelude::*;

verus! {

/// The record of one relayed session: the parsed 128-bit identity, and the
/// connection handles of the host that registered it and the client that
/// joined it, as the surrounding process numbers its connections.
#[derive(Debug, Clone, Copy, PartialEq, Eq)]
pub struct RelaySession {
    pub session_id: u128,
    pub host_handle: Option<u64>,
    pub client_handle: Option<u64>,
}

/// One stored registry entry: the wire key and its session record.
struct Slot {
    key: String,
    session: RelaySession,
}

/// No two entries share a key.
spec fn unique_keys(s: Seq<Slot>) -> bool {
    forall|i: int, j: int| 0 <= i < j < s.len() ==> s[i].key@ != s[j].key@
}

/// The map an entry sequence denotes.
spec fn map_of(s: Seq<Slot>) -> Map<Seq<char>, RelaySession>
    decreases s.len(),
{
    if s.len() == 0 {
        Map::empty()
    } else {
        map_of(s.drop_last()).insert(s.last().key@, s.last().session)
    }
}

proof fn lemma_map_of_contains(s: Seq<Slot>, k: Seq<char>)
    ensures
        map_of(s).contains_key(k) <==> exists|i: int| 0 <= i < s.len() && s[i].key@ == k,
    decreases s.len(),
{
    if s.len() > 0 {
        lemma_map_of_contains(s.drop_last(), k);
        if s.last().key@ == k {
            assert(s[s.len() - 1].key@ == k);
        } else if map_of(s).contains_key(k) {
            let i = choose|i: int| 0 <= i < s.drop_last().len() && s.drop_last()[i].key@ == k;
            assert(s[i].key@ == k);
        } else {
            assert forall|i: int| 0 <= i < s.len() implies s[i].key@ != k by {
                if i < s.len() - 1 {
                    assert(s.drop_last()[i].key@ == s[i].key@);
                }
            }
        }
    }
}

proof fn lemma_map_of_index(s: Seq<Slot>, i: int)
    requires
        unique_keys(s),
        0 <= i < s.len(),
    ensures
        map_of(s).contains_key(s[i].key@),
        map_of(s)[s[i].key@] == s[i].session,
    decreases s.len(),
{
    if i < s.len() - 1 {
        assert(unique_keys(s.drop_last())) by {
            assert(forall|a: int, b: int|
                0 <= a < b < s.drop_last().len() ==> s.drop_last()[a].key@ != s.drop_last()[b].key@);
        }
        lemma_map_of_index(s.drop_last(), i);
        assert(s.last().key@ != s[i].key@);
    }
}

proof fn lemma_map_of_update(s: Seq<Slot>, i: int, e: Slot)
    requires
        unique_keys(s),
        0 <= i < s.len(),
        e.key@ == s[i].key@,
    ensures
        map_of(s.update(i, e)) == map_of(s).insert(e.key@, e.session),
        unique_keys(s.update(i, e)),
    decreases s.len(),
{
    let t = s.update(i, e);
    assert(unique_keys(t)) by {
        assert forall|a: int, b: int| 0 <= a < b < t.len() implies t[a].key@ != t[b].key@ by {
            assert(s[a].key@ != s[b].key@);
        }
    }
    if i == s.len() - 1 {
        assert(t.drop_last() =~= s.drop_last());
        assert(t.last() == e);
        assert(map_of(t) == map_of(s.drop_last()).insert(e.key@, e.session));
        assert(map_of(s).insert(e.key@, e.session) =~= map_of(s.drop_last()).insert(
            e.key@,
            e.session,
        ));
    } else {
        assert(unique_keys(s.drop_last())) by {
            assert(forall|a: int, b: int|
                0 <= a < b < s.drop_last().len() ==> s.drop_last()[a].key@ != s.drop_last()[b].key@);
        }
        assert(t.drop_last() =~= s.drop_last().update(i, e));
        assert(t.last() == s.last());
        lemma_map_of_update(s.drop_last(), i, e);
        assert(map_of(t) == map_of(s.drop_last()).insert(e.key@, e.session).insert(
            s.last().key@,
            s.last().session,
        ));
        assert(s.last().key@ != e.key@);
        assert(map_of(s.drop_last()).insert(e.key@, e.session).insert(
            s.last().key@,
            s.last().session,
        ) =~= map_of(s.drop_last()).insert(s.last().key@, s.last().session).insert(
            e.key@,
            e.session,
        ));
    }
}

proof fn lemma_map_of_push(s: Seq<Slot>, e: Slot)
    requires
        unique_keys(s),
        forall|i: int| 0 <= i < s.len() ==> s[i].key@ != e.key@,
    ensures
        map_of(s.push(e)) == map_of(s).insert(e.key@, e.session),
        unique_keys(s.push(e)),
{
    let t = s.push(e);
    assert(t.drop_last() =~= s);
    assert(t.last() == e);
    assert(unique_keys(t)) by {
        assert forall|a: int, b: int| 0 <= a < b < t.len() implies t[a].key@ != t[b].key@ by {
            if b < t.len() - 1 {
                assert(s[a].key@ != s[b].key@);
            } else {
                assert(s[a].key@ != e.key@);
            }
        }
    }
}

/// The registry itself. Its mathematical value is the map it denotes.
pub struct RelayRegistry {
    slots: Vec<Slot>,
}

impl View for RelayRegistry {
    type V = Map<Seq<char>, RelaySession>;

    closed spec fn view(&self) -> Map<Seq<char>, RelaySession> {
        map_of(self.slots@)
    }
}

impl RelayRegistry {
    /// The registry's internal invariant: one entry per key.
    pub closed spec fn wf(&self) -> bool {
        unique_keys(self.slots@)
    }

    /// An empty registry.
    pub fn new() -> (r: RelayRegistry)
        ensures
            r.wf(),
            r@ == Map::<Seq<char>, RelaySession>::empty(),
    {
        RelayRegistry { slots: Vec::new() }
    }

    /// The position of the entry for a key, if one exists.
    fn find_index(&self, key: &String) -> (r: Option<usize>)
        ensures
            r matches Some(i) ==> i < self.slots@.len() && self.slots@[i as int].key@ == key@,
            r is None ==> forall|i: int| 0 <= i < self.slots@.len() ==> self.slots@[i].key@ != key@,
    {
        let n = self.slots.len();
        let mut i: usize = 0;
        while i < n
            invariant
                n == self.slots@.len(),
                i <= n,
                forall|j: int| 0 <= j < i ==> self.slots@[j].key@ != key@,
            decreases n - i,
        {
            if self.slots[i].key == *key {
                return Some(i);
            }
            i = i + 1;
        }
        None
    }

    /// Insert or overwrite the entry for a key. An existing entry for the
    /// same key is replaced whole (the behavior the wire protocol exposes:
    /// re-registering an identifier supersedes the prior registration).
    pub fn register(&mut self, key: String, session: RelaySession)
        requires
            old(self).wf(),
        ensures
            final(self).wf(),
            final(self)@ == old(self)@.insert(key@, session),
    {
        let ghost old_slots = self.slots@;
        let found = self.find_index(&key);
        let e = Slot { key, session };
        match found {
            Some(i) => {
                proof {
                    lemma_map_of_update(old_slots, i as int, e);
                }
                self.slots[i] = e;
            },
            None => {
                proof {
                    lemma_map_of_push(old_slots, e);
                }
                self.slots.push(e);
            },
        }
    }

    /// Set the client handle of the entry for a key, if one exists; report
    /// whether it did. The rest of the record is unchanged; without an entry
    /// the registry is unchanged.
    pub fn join(&mut self, key: &String, client: u64) -> (r: bool)
        requires
            old(self).wf(),
        ensures
            final(self).wf(),
            r == old(self)@.contains_key(key@),
            r ==> final(self)@ == old(self)@.insert(
                key@,
                RelaySession {
                    session_id: old(self)@[key@].session_id,
                    host_handle: old(self)@[key@].host_handle,
                    client_handle: Some(client),
                },
            ),
            !r ==> final(self)@ == old(self)@,
    {
        let ghost old_slots = self.slots@;
        proof {
            lemma_map_of_contains(old_slots, key@);
        }
        match self.find_index(key) {
            Some(i) => {
                proof {
                    lemma_map_of_index(old_slots, i as int);
                }
                let old_session = self.slots[i].session;
                let e = Slot {
                    key: self.slots[i].key.clone(),
                    session: RelaySession {
                        session_id: old_session.session_id,
                        host_handle: old_session.host_handle,
                        client_handle: Some(client),
                    },
                };
                proof {
                    lemma_map_of_update(old_slots, i as int, e);
                }
                self.slots[i] = e;
                true
            },
            None => false,
        }
    }

    /// The record registered for a key, if any.
    pub fn lookup(&self, key: &String) -> (r: Option<RelaySession>)
        requires
            self.wf(),
        ensures
            r matches Some(session) ==> self@.contains_key(key@) && self@[key@] == session,
            r is None ==> !self@.contains_key(key@),
    {
        proof {
            lemma_map_of_contains(self.slots@, key@);
        }
        match self.find_index(key) {
            Some(i) => {
                proof {
                    lemma_map_of_index(self.slots@, i as int);
                }
                Some(self.slots[i].session)
            },
            None => None,
        }
    }
}

/// Registrations for two distinct session identifiers never lose each
/// other: in whichever order the registry's serialized writer applies them,
/// both records are present afterwards, each under its own key.
pub proof fn lemma_distinct_registrations_kept(
    m: Map<Seq<char>, RelaySession>,
    k1: Seq<char>,
    s1: RelaySession,
    k2: Seq<char>,
    s2: RelaySession,
)
    requires
        k1 != k2,
    ensures
        m.insert(k1, s1).insert(k2, s2).contains_key(k1),
        m.insert(k1, s1).insert(k2, s2)[k1] == s1,
        m.insert(k1, s1).insert(k2, s2).contains_key(k2),
        m.insert(k1, s1).insert(k2, s2)[k2] == s2,
{
}

} // verus!

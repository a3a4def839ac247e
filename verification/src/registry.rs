//! The mutable registries of the protocol: content-hash-keyed ledgers and
//! account whitelists.
//!
//! Each registry is owned by its component instance, created at deployment
//! and alive for the component's lifetime.  A ledger is modelled as a
//! `Map` from key bytes to the stored entry; a whitelist as a `Set` of
//! account identities.

use crate::hashing::digest_eq;
use crate::hashing::Digest;
use vstd::prelude::*;

verus! {

/// One stored ledger entry: a 32-byte key and its value.
pub struct MapEntry<V> {
    pub key: Digest,
    pub value: V,
}

/// A ledger keyed by 256-bit content hashes.
pub struct DigestMap<V> {
    pub entries: Vec<MapEntry<V>>,
}

/// The mathematical content of a ledger's entry sequence.
pub open spec fn spec_entries_map<V>(s: Seq<MapEntry<V>>) -> Map<Seq<u8>, V>
    decreases s.len(),
{
    if s.len() == 0 {
        Map::empty()
    } else {
        spec_entries_map(s.drop_last()).insert(s.last().key@, s.last().value)
    }
}

impl<V> View for DigestMap<V> {
    type V = Map<Seq<u8>, V>;

    open spec fn view(&self) -> Map<Seq<u8>, V> {
        spec_entries_map(self.entries@)
    }
}

/// No two stored entries share a key.
pub open spec fn spec_entries_unique<V>(s: Seq<MapEntry<V>>) -> bool {
    forall|i: int, j: int|
        0 <= i < j < s.len() ==> (#[trigger] s[i]).key@ != (#[trigger] s[j]).key@
}

/// Every stored entry is in the ledger's map, under its own key.
proof fn lemma_entries_map_index<V>(s: Seq<MapEntry<V>>, i: int)
    requires
        spec_entries_unique(s),
        0 <= i < s.len(),
    ensures
        spec_entries_map(s).contains_key(s[i].key@),
        spec_entries_map(s)[s[i].key@] == s[i].value,
    decreases s.len(),
{
    if i < s.len() - 1 {
        assert(spec_entries_unique(s.drop_last()));
        assert(s.drop_last()[i] == s[i]);
        lemma_entries_map_index(s.drop_last(), i);
        assert(s[i].key@ != s.last().key@);
    }
}

/// A key no stored entry carries is not in the ledger's map.
proof fn lemma_entries_map_absent<V>(s: Seq<MapEntry<V>>, key: Seq<u8>)
    requires
        forall|i: int| 0 <= i < s.len() ==> (#[trigger] s[i]).key@ != key,
    ensures
        !spec_entries_map(s).contains_key(key),
    decreases s.len(),
{
    if s.len() > 0 {
        assert(forall|i: int| 0 <= i < s.drop_last().len()
            ==> (#[trigger] s.drop_last()[i]).key@ != key);
        lemma_entries_map_absent(s.drop_last(), key);
    }
}

/// Removing one stored entry removes exactly its key from the map.
proof fn lemma_entries_map_remove<V>(s: Seq<MapEntry<V>>, i: int)
    requires
        spec_entries_unique(s),
        0 <= i < s.len(),
    ensures
        spec_entries_map(s.remove(i)) == spec_entries_map(s).remove(s[i].key@),
    decreases s.len(),
{
    if i == s.len() - 1 {
        assert(s.remove(i) =~= s.drop_last());
        assert(forall|j: int| 0 <= j < s.drop_last().len()
            ==> (#[trigger] s.drop_last()[j]).key@ != s[i].key@);
        lemma_entries_map_absent(s.drop_last(), s[i].key@);
        assert(spec_entries_map(s.drop_last())
            =~= spec_entries_map(s.drop_last()).insert(s.last().key@, s.last().value).remove(
            s[i].key@,
        ));
    } else {
        assert(spec_entries_unique(s.drop_last()));
        lemma_entries_map_remove(s.drop_last(), i);
        assert(s.remove(i).drop_last() =~= s.drop_last().remove(i));
        assert(s.remove(i).last() == s.last());
        assert(s[i].key@ != s.last().key@);
        assert(spec_entries_map(s.remove(i))
            == spec_entries_map(s.drop_last().remove(i)).insert(s.last().key@, s.last().value));
        assert(spec_entries_map(s.drop_last()).remove(s[i].key@).insert(
            s.last().key@,
            s.last().value,
        ) =~= spec_entries_map(s.drop_last()).insert(s.last().key@, s.last().value).remove(
            s[i].key@,
        ));
    }
}

impl<V> DigestMap<V> {
    /// Whether the ledger's internal layout is sound: one entry per key.
    pub open spec fn wf(&self) -> bool {
        spec_entries_unique(self.entries@)
    }

    /// How many entries the ledger holds.
    pub open spec fn spec_len(&self) -> nat {
        self.entries@.len()
    }

    /// An empty ledger.
    pub fn new() -> (r: Self)
        ensures
            r.wf(),
            r@ == Map::<Seq<u8>, V>::empty(),
            r.spec_len() == 0,
    {
        let r = DigestMap { entries: Vec::new() };
        r
    }

    /// The position of a key's entry, if any entry carries it.
    fn find_index(&self, key: &Digest) -> (r: Option<usize>)
        ensures
            match r {
                Some(i) => i < self.entries@.len() && self.entries@[i as int].key@ == key@,
                None => forall|j: int|
                    0 <= j < self.entries@.len() ==> (#[trigger] self.entries@[j]).key@ != key@,
            },
    {
        let n = self.entries.len();
        let mut i: usize = 0;
        while i < n
            invariant
                i <= n,
                n == self.entries@.len(),
                forall|j: int| 0 <= j < i ==> (#[trigger] self.entries@[j]).key@ != key@,
            decreases n - i,
        {
            if digest_eq(&self.entries[i].key, key) {
                return Some(i);
            }
            i += 1;
        }
        None
    }

    /// Whether the ledger holds an entry under this key.
    pub fn contains_key(&self, key: &Digest) -> (r: bool)
        requires
            self.wf(),
        ensures
            r == self@.contains_key(key@),
    {
        match self.find_index(key) {
            Some(i) => {
                proof {
                    lemma_entries_map_index(self.entries@, i as int);
                }
                true
            },
            None => {
                proof {
                    lemma_entries_map_absent(self.entries@, key@);
                }
                false
            },
        }
    }

    /// The entry stored under a key, if there is one.
    pub fn get(&self, key: &Digest) -> (r: Option<&V>)
        requires
            self.wf(),
        ensures
            match r {
                Some(v) => self@.contains_key(key@) && *v == self@[key@],
                None => !self@.contains_key(key@),
            },
    {
        match self.find_index(key) {
            Some(i) => {
                proof {
                    lemma_entries_map_index(self.entries@, i as int);
                }
                Some(&self.entries[i].value)
            },
            None => {
                proof {
                    lemma_entries_map_absent(self.entries@, key@);
                }
                None
            },
        }
    }

    /// Stores a value under a key no entry carries yet.
    pub fn insert(&mut self, key: Digest, value: V)
        requires
            old(self).wf(),
            !old(self)@.contains_key(key@),
        ensures
            final(self).wf(),
            final(self)@ == old(self)@.insert(key@, value),
            final(self).spec_len() == old(self).spec_len() + 1,
    {
        proof {
            assert forall|j: int| 0 <= j < self.entries@.len()
                implies (#[trigger] self.entries@[j]).key@ != key@ by {
                if self.entries@[j].key@ == key@ {
                    lemma_entries_map_index(self.entries@, j);
                }
            }
        }
        self.entries.push(MapEntry { key, value });
        proof {
            assert(self.entries@.drop_last() =~= old(self).entries@);
        }
    }

    /// Takes the entry stored under a key out of the ledger, leaving the
    /// rest untouched.
    pub fn take(&mut self, key: &Digest) -> (r: Option<V>)
        requires
            old(self).wf(),
        ensures
            final(self).wf(),
            match r {
                Some(v) => old(self)@.contains_key(key@) && v == old(self)@[key@]
                    && final(self)@ == old(self)@.remove(key@)
                    && final(self).spec_len() + 1 == old(self).spec_len(),
                None => !old(self)@.contains_key(key@) && *final(self) == *old(self),
            },
    {
        match self.find_index(key) {
            Some(i) => {
                proof {
                    lemma_entries_map_index(self.entries@, i as int);
                    lemma_entries_map_remove(self.entries@, i as int);
                    assert forall|a: int, b: int|
                        0 <= a < b < self.entries@.remove(i as int).len()
                        implies (#[trigger] self.entries@.remove(i as int)[a]).key@
                            != (#[trigger] self.entries@.remove(i as int)[b]).key@ by {
                        let s = self.entries@;
                        if b < i {
                            assert(s.remove(i as int)[a] == s[a] && s.remove(i as int)[b] == s[b]);
                        } else if a < i {
                            assert(s.remove(i as int)[a] == s[a]
                                && s.remove(i as int)[b] == s[b + 1]);
                        } else {
                            assert(s.remove(i as int)[a] == s[a + 1]
                                && s.remove(i as int)[b] == s[b + 1]);
                        }
                    }
                }
                let entry = self.entries.remove(i);
                Some(entry.value)
            },
            None => {
                proof {
                    lemma_entries_map_absent(self.entries@, key@);
                }
                None
            },
        }
    }
}

/// An allow-list of account identities.
pub struct AccountSet {
    pub members: Vec<String>,
}

/// The mathematical content of a whitelist's member sequence.
pub open spec fn spec_members_set(s: Seq<String>) -> Set<Seq<char>>
    decreases s.len(),
{
    if s.len() == 0 {
        Set::empty()
    } else {
        spec_members_set(s.drop_last()).insert(s.last()@)
    }
}

impl View for AccountSet {
    type V = Set<Seq<char>>;

    open spec fn view(&self) -> Set<Seq<char>> {
        spec_members_set(self.members@)
    }
}

/// No two stored members are the same identity.
pub open spec fn spec_members_unique(s: Seq<String>) -> bool {
    forall|i: int, j: int| 0 <= i < j < s.len() ==> (#[trigger] s[i])@ != (#[trigger] s[j])@
}

/// Every stored member is in the whitelist's set.
proof fn lemma_members_set_index(s: Seq<String>, i: int)
    requires
        0 <= i < s.len(),
    ensures
        spec_members_set(s).contains(s[i]@),
    decreases s.len(),
{
    if i < s.len() - 1 {
        assert(s.drop_last()[i] == s[i]);
        lemma_members_set_index(s.drop_last(), i);
    }
}

/// An identity no stored member carries is not in the whitelist's set.
proof fn lemma_members_set_absent(s: Seq<String>, name: Seq<char>)
    requires
        forall|i: int| 0 <= i < s.len() ==> (#[trigger] s[i])@ != name,
    ensures
        !spec_members_set(s).contains(name),
    decreases s.len(),
{
    if s.len() > 0 {
        assert(forall|i: int| 0 <= i < s.drop_last().len()
            ==> (#[trigger] s.drop_last()[i])@ != name);
        lemma_members_set_absent(s.drop_last(), name);
    }
}

/// Removing one stored member removes exactly its identity from the set.
proof fn lemma_members_set_remove(s: Seq<String>, i: int)
    requires
        spec_members_unique(s),
        0 <= i < s.len(),
    ensures
        spec_members_set(s.remove(i)) == spec_members_set(s).remove(s[i]@),
    decreases s.len(),
{
    if i == s.len() - 1 {
        assert(s.remove(i) =~= s.drop_last());
        assert(forall|j: int| 0 <= j < s.drop_last().len()
            ==> (#[trigger] s.drop_last()[j])@ != s[i]@);
        lemma_members_set_absent(s.drop_last(), s[i]@);
        assert(spec_members_set(s.drop_last())
            =~= spec_members_set(s.drop_last()).insert(s.last()@).remove(s[i]@));
    } else {
        assert(spec_members_unique(s.drop_last()));
        lemma_members_set_remove(s.drop_last(), i);
        assert(s.remove(i).drop_last() =~= s.drop_last().remove(i));
        assert(s.remove(i).last() == s.last());
        assert(s[i]@ != s.last()@);
        assert(spec_members_set(s.remove(i))
            == spec_members_set(s.drop_last().remove(i)).insert(s.last()@));
        assert(spec_members_set(s.drop_last()).remove(s[i]@).insert(s.last()@)
            =~= spec_members_set(s.drop_last()).insert(s.last()@).remove(s[i]@));
    }
}

impl AccountSet {
    /// Whether the whitelist's internal layout is sound: one entry per
    /// identity.
    pub open spec fn wf(&self) -> bool {
        spec_members_unique(self.members@)
    }

    /// An empty whitelist.
    pub fn new() -> (r: Self)
        ensures
            r.wf(),
            r@ == Set::<Seq<char>>::empty(),
    {
        let r = AccountSet { members: Vec::new() };
        r
    }

    /// The position of an identity among the members, if present.
    fn find_index(&self, name: &String) -> (r: Option<usize>)
        ensures
            match r {
                Some(i) => i < self.members@.len() && self.members@[i as int]@ == name@,
                None => forall|j: int|
                    0 <= j < self.members@.len() ==> (#[trigger] self.members@[j])@ != name@,
            },
    {
        let n = self.members.len();
        let mut i: usize = 0;
        while i < n
            invariant
                i <= n,
                n == self.members@.len(),
                forall|j: int| 0 <= j < i ==> (#[trigger] self.members@[j])@ != name@,
            decreases n - i,
        {
            let member = &self.members[i];
            if member.eq(name) {
                return Some(i);
            }
            i += 1;
        }
        None
    }

    /// Whether an identity is on the whitelist.
    pub fn contains(&self, name: &String) -> (r: bool)
        ensures
            r == self@.contains(name@),
    {
        match self.find_index(name) {
            Some(i) => {
                proof {
                    lemma_members_set_index(self.members@, i as int);
                }
                true
            },
            None => {
                proof {
                    lemma_members_set_absent(self.members@, name@);
                }
                false
            },
        }
    }

    /// Puts an identity on the whitelist; already-present identities stay
    /// as they are.
    pub fn insert(&mut self, name: String)
        requires
            old(self).wf(),
        ensures
            final(self).wf(),
            final(self)@ == old(self)@.insert(name@),
    {
        match self.find_index(&name) {
            Some(i) => {
                proof {
                    lemma_members_set_index(self.members@, i as int);
                    assert(self@ =~= self@.insert(name@));
                }
            },
            None => {
                self.members.push(name);
                proof {
                    assert(self.members@.drop_last() =~= old(self).members@);
                }
            },
        }
    }

    /// Strikes an identity off the whitelist; absent identities leave it
    /// unchanged.
    pub fn remove(&mut self, name: &String)
        requires
            old(self).wf(),
        ensures
            final(self).wf(),
            final(self)@ == old(self)@.remove(name@),
    {
        match self.find_index(name) {
            Some(i) => {
                proof {
                    lemma_members_set_remove(self.members@, i as int);
                    assert forall|a: int, b: int|
                        0 <= a < b < self.members@.remove(i as int).len()
                        implies (#[trigger] self.members@.remove(i as int)[a])@
                            != (#[trigger] self.members@.remove(i as int)[b])@ by {
                        let s = self.members@;
                        if b < i {
                            assert(s.remove(i as int)[a] == s[a] && s.remove(i as int)[b] == s[b]);
                        } else if a < i {
                            assert(s.remove(i as int)[a] == s[a]
                                && s.remove(i as int)[b] == s[b + 1]);
                        } else {
                            assert(s.remove(i as int)[a] == s[a + 1]
                                && s.remove(i as int)[b] == s[b + 1]);
                        }
                    }
                }
                let _removed = self.members.remove(i);
            },
            None => {
                proof {
                    lemma_members_set_absent(self.members@, name@);
                    assert(self@ =~= self@.remove(name@));
                }
            },
        }
    }
}

} // verus!

//! The simple storage contract: string-keyed values and documents, with an
//! event constructed for each document upload.

use vstd::prelude::*;
use vstd::pervasive::VecAdditionalExecFns;

verus! {

/// The value stored under `key`: the first entry of `s` whose key reads
/// `key`, if any.
pub open spec fn find_entry<V>(s: Seq<(String, V)>, key: Seq<char>) -> Option<V>
    decreases s.len(),
{
    if s.len() == 0 {
        None
    } else if s[0].0@ == key {
        Some(s[0].1)
    } else {
        find_entry(s.subrange(1, s.len() as int), key)
    }
}

proof fn lemma_find_entry_skip<V>(s: Seq<(String, V)>, k: Seq<char>, i: int)
    requires
        0 <= i <= s.len(),
        forall|j: int| 0 <= j < i ==> (#[trigger] s[j]).0@ != k,
    ensures
        find_entry(s, k) == find_entry(s.subrange(i, s.len() as int), k),
    decreases i,
{
    if i == 0 {
        assert(s.subrange(0, s.len() as int) =~= s);
    } else {
        let t = s.subrange(1, s.len() as int);
        assert(forall|j: int| 0 <= j < i - 1 ==> (#[trigger] t[j]).0@ != k);
        lemma_find_entry_skip(t, k, i - 1);
        assert(t.subrange(i - 1, t.len() as int) =~= s.subrange(i, s.len() as int));
    }
}

proof fn lemma_find_entry_update_found<V>(s: Seq<(String, V)>, i: int, e: (String, V))
    requires
        0 <= i < s.len(),
        forall|j: int| 0 <= j < i ==> (#[trigger] s[j]).0@ != e.0@,
    ensures
        find_entry(s.update(i, e), e.0@) == Some(e.1),
{
    let u = s.update(i, e);
    assert(forall|j: int| 0 <= j < i ==> (#[trigger] u[j]).0@ != e.0@);
    lemma_find_entry_skip(u, e.0@, i);
    assert(u.subrange(i, u.len() as int)[0] == e);
}

proof fn lemma_find_entry_update_other<V>(s: Seq<(String, V)>, i: int, e: (String, V), k: Seq<char>)
    requires
        0 <= i < s.len(),
        s[i].0@ == e.0@,
        k != e.0@,
    ensures
        find_entry(s.update(i, e), k) == find_entry(s, k),
    decreases s.len(),
{
    let u = s.update(i, e);
    if i == 0 {
        assert(u.subrange(1, u.len() as int) =~= s.subrange(1, s.len() as int));
    } else {
        assert(u[0] == s[0]);
        if s[0].0@ != k {
            let t = s.subrange(1, s.len() as int);
            assert(u.subrange(1, u.len() as int) =~= t.update(i - 1, e));
            lemma_find_entry_update_other(t, i - 1, e, k);
        }
    }
}

proof fn lemma_find_entry_push_found<V>(s: Seq<(String, V)>, e: (String, V))
    requires
        forall|j: int| 0 <= j < s.len() ==> (#[trigger] s[j]).0@ != e.0@,
    ensures
        find_entry(s.push(e), e.0@) == Some(e.1),
{
    let u = s.push(e);
    assert(forall|j: int| 0 <= j < s.len() ==> (#[trigger] u[j]).0@ != e.0@);
    lemma_find_entry_skip(u, e.0@, s.len() as int);
    assert(u.subrange(s.len() as int, u.len() as int)[0] == e);
}

proof fn lemma_find_entry_push_other<V>(s: Seq<(String, V)>, e: (String, V), k: Seq<char>)
    requires
        k != e.0@,
    ensures
        find_entry(s.push(e), k) == find_entry(s, k),
    decreases s.len(),
{
    let u = s.push(e);
    if s.len() == 0 {
        assert(u[0] == e);
        assert(u.subrange(1, 1) =~= Seq::<(String, V)>::empty());
        assert(find_entry(u, k) == find_entry(u.subrange(1, 1), k));
    } else {
        assert(u[0] == s[0]);
        if s[0].0@ != k {
            let t = s.subrange(1, s.len() as int);
            assert(u.subrange(1, u.len() as int) =~= t.push(e));
            lemma_find_entry_push_other(t, e, k);
        }
    }
}

/// A string-keyed mapping holding at most one value per key; insertion
/// overwrites any prior value for the key.
pub struct StringMap<V> {
    entries: Vec<(String, V)>,
}

impl<V> StringMap<V> {
    /// The value currently stored under `key`, if any.
    pub closed spec fn spec_get(self, key: Seq<char>) -> Option<V> {
        find_entry(self.entries@, key)
    }

    /// An empty mapping.
    pub fn new() -> (m: StringMap<V>)
        ensures
            forall|k: Seq<char>| (#[trigger] m.spec_get(k)) is None,
    {
        StringMap { entries: Vec::new() }
    }

    /// The index of the first entry whose key reads `key`, if any.
    fn find_index(&self, key: &String) -> (r: Option<usize>)
        ensures
            match r {
                Some(i) => {
                    &&& i < self.entries@.len()
                    &&& self.entries@[i as int].0@ == key@
                    &&& forall|j: int| 0 <= j < i ==> (#[trigger] self.entries@[j]).0@ != key@
                },
                None => forall|j: int|
                    0 <= j < self.entries@.len() ==> (#[trigger] self.entries@[j]).0@ != key@,
            },
    {
        let mut i: usize = 0;
        while i < self.entries.len()
            invariant
                0 <= i <= self.entries@.len(),
                forall|j: int| 0 <= j < i ==> (#[trigger] self.entries@[j]).0@ != key@,
            decreases self.entries@.len() - i,
        {
            let entry = &self.entries[i];
            if entry.0 == *key {
                return Some(i);
            }
            i += 1;
        }
        None
    }

    /// Unconditional overwrite insert: stores `value` under `key`, replacing
    /// any prior value, and touches no other key. Never fails.
    pub fn insert(&mut self, key: String, value: V)
        ensures
            final(self).spec_get(key@) == Some(value),
            forall|k: Seq<char>|
                k != key@ ==> (#[trigger] final(self).spec_get(k)) == old(self).spec_get(k),
    {
        let ghost pre = *self;
        let ghost entry = (key, value);
        match self.find_index(&key) {
            Some(i) => {
                self.entries.set(i, (key, value));
                proof {
                    lemma_find_entry_update_found(pre.entries@, i as int, entry);
                    assert forall|k: Seq<char>| k != entry.0@ implies (#[trigger] self.spec_get(
                        k,
                    )) == pre.spec_get(k) by {
                        lemma_find_entry_update_other(pre.entries@, i as int, entry, k);
                    }
                }
            },
            None => {
                self.entries.push((key, value));
                proof {
                    lemma_find_entry_push_found(pre.entries@, entry);
                    assert forall|k: Seq<char>| k != entry.0@ implies (#[trigger] self.spec_get(
                        k,
                    )) == pre.spec_get(k) by {
                        lemma_find_entry_push_other(pre.entries@, entry, k);
                    }
                }
            },
        }
    }

    /// Read-only lookup; an absent key is a normal outcome, not an error.
    pub fn get(&self, key: &String) -> (r: Option<&V>)
        ensures
            match r {
                Some(v) => self.spec_get(key@) == Some(*v),
                None => self.spec_get(key@) is None,
            },
    {
        match self.find_index(key) {
            Some(i) => {
                proof {
                    lemma_find_entry_skip(self.entries@, key@, i as int);
                    assert(self.entries@.subrange(i as int, self.entries@.len() as int)[0]
                        == self.entries@[i as int]);
                }
                Some(&self.entries[i].1)
            },
            None => {
                proof {
                    lemma_find_entry_skip(self.entries@, key@, self.entries@.len() as int);
                    assert(self.entries@.subrange(
                        self.entries@.len() as int,
                        self.entries@.len() as int,
                    ) =~= Seq::<(String, V)>::empty());
                }
                None
            },
        }
    }
}

/// The event constructed for each document upload, for the hosting
/// environment's event channel.
pub struct DocumentAdded {
    pub key: String,
    pub value: String,
}

/// A minimal storage contract: named integer values and named string
/// documents, each mapping holding at most one entry per key.
pub struct SimpleStorage {
    values: StringMap<i32>,
    documents: StringMap<String>,
}

impl SimpleStorage {
    /// The integer stored under `key`, if any.
    pub closed spec fn spec_value(self, key: Seq<char>) -> Option<i32> {
        self.values.spec_get(key)
    }

    /// The document stored under `key`, if any.
    pub closed spec fn spec_document(self, key: Seq<char>) -> Option<String> {
        self.documents.spec_get(key)
    }

    /// Creates a storage contract with both mappings empty.
    pub fn new() -> (s: SimpleStorage)
        ensures
            forall|k: Seq<char>| (#[trigger] s.spec_value(k)) is None,
            forall|k: Seq<char>| (#[trigger] s.spec_document(k)) is None,
    {
        SimpleStorage { values: StringMap::new(), documents: StringMap::new() }
    }

    /// Stores `value` under `key`, overwriting any prior value; documents
    /// are untouched.
    pub fn set_value(&mut self, key: String, value: i32)
        ensures
            final(self).spec_value(key@) == Some(value),
            forall|k: Seq<char>|
                k != key@ ==> (#[trigger] final(self).spec_value(k)) == old(self).spec_value(k),
            forall|k: Seq<char>|
                (#[trigger] final(self).spec_document(k)) == old(self).spec_document(k),
    {
        self.values.insert(key, value);
    }

    /// Reads the integer stored under `key`.
    pub fn get_value(&self, key: String) -> (r: Option<i32>)
        ensures
            r == self.spec_value(key@),
    {
        match self.values.get(&key) {
            Some(v) => Some(*v),
            None => None,
        }
    }

    /// Stores `value` as the document named `key`, overwriting any prior
    /// document, and constructs the matching event; values are untouched.
    /// Dispatching the event is the hosting environment's concern.
    pub fn upload_document(&mut self, key: String, value: String) -> (ev: DocumentAdded)
        ensures
            final(self).spec_document(key@) == Some(ev.value),
            ev.key@ == key@,
            ev.value@ == value@,
            forall|k: Seq<char>|
                k != key@ ==> (#[trigger] final(self).spec_document(k)) == old(
                    self,
                ).spec_document(k),
            forall|k: Seq<char>|
                (#[trigger] final(self).spec_value(k)) == old(self).spec_value(k),
    {
        let stored_key = key.clone();
        let stored_value = value.clone();
        self.documents.insert(stored_key, stored_value);
        DocumentAdded { key, value }
    }

    /// Reads the document stored under `key`.
    pub fn get_document(&self, key: String) -> (r: Option<&String>)
        ensures
            match r {
                Some(d) => self.spec_document(key@) == Some(*d),
                None => self.spec_document(key@) is None,
            },
    {
        self.documents.get(&key)
    }
}

} // verus!

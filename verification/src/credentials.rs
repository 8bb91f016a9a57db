//! A store of credentials, kept in memory for as long as its owner lives.
//!
//! An entry is filed under a service and a key together. Two entries are one
//! only where both the service and the key agree, whatever characters either
//! holds.

use vstd::prelude::*;
use crate::text::text_of;

verus! {

/// One credential: the value held for a service and a key.
struct Entry {
    service: String,
    key: String,
    value: String,
}

/// The service and key an entry is filed under.
spec fn name_of(entry: Entry) -> (Seq<char>, Seq<char>) {
    (entry.service@, entry.key@)
}

/// Whether the entry at index `i` is filed under `name`.
spec fn filed_at(entries: Seq<Entry>, i: int, name: (Seq<char>, Seq<char>)) -> bool {
    0 <= i < entries.len() && name_of(entries[i]) == name
}

/// No service and key occur in two entries.
spec fn no_name_twice(entries: Seq<Entry>) -> bool {
    forall|i: int, j: int|
        0 <= i < j < entries.len() ==> name_of(#[trigger] entries[i]) != name_of(
            #[trigger] entries[j],
        )
}

/// The entries as a map from service and key to value.
spec fn contents(entries: Seq<Entry>) -> Map<(Seq<char>, Seq<char>), Seq<char>> {
    Map::new(
        |name: (Seq<char>, Seq<char>)| exists|i: int| filed_at(entries, i, name),
        |name: (Seq<char>, Seq<char>)| entries[choose|i: int| filed_at(entries, i, name)].value@,
    )
}

/// The credentials held, each value under its service and key.
pub struct CredentialStore {
    entries: Vec<Entry>,
}

impl View for CredentialStore {
    type V = Map<(Seq<char>, Seq<char>), Seq<char>>;

    closed spec fn view(&self) -> Map<(Seq<char>, Seq<char>), Seq<char>> {
        contents(self.entries@)
    }
}

/// The contents after `value` was stored for `service` and `key`.
pub open spec fn stored(
    held: Map<(Seq<char>, Seq<char>), Seq<char>>,
    service: Seq<char>,
    key: Seq<char>,
    value: Seq<char>,
) -> Map<(Seq<char>, Seq<char>), Seq<char>> {
    held.insert((service, key), value)
}

/// The value held for `service` and `key`, if there is one.
pub open spec fn looked_up(
    held: Map<(Seq<char>, Seq<char>), Seq<char>>,
    service: Seq<char>,
    key: Seq<char>,
) -> Option<Seq<char>> {
    if held.contains_key((service, key)) {
        Some(held[(service, key)])
    } else {
        None
    }
}

/// The contents after the entry for `service` and `key` was deleted.
pub open spec fn deleted(
    held: Map<(Seq<char>, Seq<char>), Seq<char>>,
    service: Seq<char>,
    key: Seq<char>,
) -> Map<(Seq<char>, Seq<char>), Seq<char>> {
    held.remove((service, key))
}

/// Where no name occurs twice, the map holds for an entry's name that
/// entry's value.
proof fn lemma_contents_at(entries: Seq<Entry>, i: int)
    requires
        no_name_twice(entries),
        0 <= i < entries.len(),
    ensures
        contents(entries).contains_key(name_of(entries[i])),
        contents(entries)[name_of(entries[i])] == entries[i].value@,
{
    let name = name_of(entries[i]);
    assert(filed_at(entries, i, name));
    let j = choose|j: int| filed_at(entries, j, name);
    if j < i {
        assert(name_of(entries[j]) != name_of(entries[i]));
    }
    if i < j {
        assert(name_of(entries[i]) != name_of(entries[j]));
    }
}

/// Replacing an entry by one of the same name stores the new value.
proof fn lemma_replace(entries: Seq<Entry>, i: int, entry: Entry)
    requires
        no_name_twice(entries),
        filed_at(entries, i, name_of(entry)),
    ensures
        no_name_twice(entries.update(i, entry)),
        contents(entries.update(i, entry)) == contents(entries).insert(
            name_of(entry),
            entry.value@,
        ),
{
    let after = entries.update(i, entry);
    assert forall|a: int, b: int| 0 <= a < b < after.len() implies name_of(#[trigger] after[a])
        != name_of(#[trigger] after[b]) by {
        assert(name_of(after[a]) == name_of(entries[a]));
        assert(name_of(after[b]) == name_of(entries[b]));
    }
    let expected = contents(entries).insert(name_of(entry), entry.value@);
    assert forall|name: (Seq<char>, Seq<char>)| #[trigger]
        contents(after).contains_key(name) == expected.contains_key(name) by {
        if contents(after).contains_key(name) {
            let k = choose|k: int| filed_at(after, k, name);
            assert(filed_at(entries, k, name));
        }
        if contents(entries).contains_key(name) {
            let k = choose|k: int| filed_at(entries, k, name);
            assert(filed_at(after, k, name));
        }
        assert(filed_at(after, i, name_of(entry)));
    }
    assert forall|name: (Seq<char>, Seq<char>)| #[trigger]
        expected.contains_key(name) implies contents(after)[name] == expected[name] by {
        if name == name_of(entry) {
            lemma_contents_at(after, i);
        } else {
            let k = choose|k: int| filed_at(entries, k, name);
            lemma_contents_at(entries, k);
            lemma_contents_at(after, k);
        }
    }
    assert(contents(after) =~= expected);
}

/// Appending an entry under a name that is not held stores its value.
proof fn lemma_append(entries: Seq<Entry>, entry: Entry)
    requires
        no_name_twice(entries),
        forall|i: int| !filed_at(entries, i, name_of(entry)),
    ensures
        no_name_twice(entries.push(entry)),
        contents(entries.push(entry)) == contents(entries).insert(name_of(entry), entry.value@),
{
    let after = entries.push(entry);
    let last = entries.len() as int;
    assert forall|a: int, b: int| 0 <= a < b < after.len() implies name_of(#[trigger] after[a])
        != name_of(#[trigger] after[b]) by {
        if b == last {
            assert(!filed_at(entries, a, name_of(entry)));
        } else {
            assert(name_of(entries[a]) != name_of(entries[b]));
        }
    }
    let expected = contents(entries).insert(name_of(entry), entry.value@);
    assert forall|name: (Seq<char>, Seq<char>)| #[trigger]
        contents(after).contains_key(name) == expected.contains_key(name) by {
        if contents(after).contains_key(name) {
            let k = choose|k: int| filed_at(after, k, name);
            if k < last {
                assert(filed_at(entries, k, name));
            }
        }
        if contents(entries).contains_key(name) {
            let k = choose|k: int| filed_at(entries, k, name);
            assert(filed_at(after, k, name));
        }
        assert(filed_at(after, last, name_of(entry)));
    }
    assert forall|name: (Seq<char>, Seq<char>)| #[trigger]
        expected.contains_key(name) implies contents(after)[name] == expected[name] by {
        if name == name_of(entry) {
            lemma_contents_at(after, last);
        } else {
            let k = choose|k: int| filed_at(entries, k, name);
            lemma_contents_at(entries, k);
            lemma_contents_at(after, k);
        }
    }
    assert(contents(after) =~= expected);
}

/// Taking an entry out deletes what was held under its name, and nothing
/// else.
proof fn lemma_take_out(entries: Seq<Entry>, i: int)
    requires
        no_name_twice(entries),
        0 <= i < entries.len(),
    ensures
        no_name_twice(entries.remove(i)),
        contents(entries.remove(i)) == contents(entries).remove(name_of(entries[i])),
{
    let after = entries.remove(i);
    let gone = name_of(entries[i]);
    assert forall|a: int, b: int| 0 <= a < b < after.len() implies name_of(#[trigger] after[a])
        != name_of(#[trigger] after[b]) by {
        let a0 = if a < i { a } else { a + 1 };
        let b0 = if b < i { b } else { b + 1 };
        assert(after[a] == entries[a0]);
        assert(after[b] == entries[b0]);
        assert(name_of(entries[a0]) != name_of(entries[b0]));
    }
    let expected = contents(entries).remove(gone);
    assert forall|name: (Seq<char>, Seq<char>)| #[trigger]
        contents(after).contains_key(name) == expected.contains_key(name) by {
        if contents(after).contains_key(name) {
            let k = choose|k: int| filed_at(after, k, name);
            let k0 = if k < i { k } else { k + 1 };
            assert(after[k] == entries[k0]);
            assert(filed_at(entries, k0, name));
            if k0 < i {
                assert(name_of(entries[k0]) != name_of(entries[i]));
            } else {
                assert(name_of(entries[i]) != name_of(entries[k0]));
            }
        }
        if expected.contains_key(name) {
            let k0 = choose|k: int| filed_at(entries, k, name);
            let k = if k0 < i { k0 } else { k0 - 1 };
            assert(after[k] == entries[k0]);
            assert(filed_at(after, k, name));
        }
    }
    assert forall|name: (Seq<char>, Seq<char>)| #[trigger]
        expected.contains_key(name) implies contents(after)[name] == expected[name] by {
        let k0 = choose|k: int| filed_at(entries, k, name);
        let k = if k0 < i { k0 } else { k0 - 1 };
        assert(after[k] == entries[k0]);
        lemma_contents_at(entries, k0);
        lemma_contents_at(after, k);
    }
    assert(contents(after) =~= expected);
}

/// Finds the entry filed under `service` and `key`.
fn position(entries: &Vec<Entry>, service: &String, key: &String) -> (found: Option<usize>)
    ensures
        match found {
            Some(i) => filed_at(entries@, i as int, (service@, key@)),
            None => forall|i: int| !filed_at(entries@, i, (service@, key@)),
        },
{
    let mut i: usize = 0;
    while i < entries.len()
        invariant
            i <= entries.len(),
            forall|j: int| 0 <= j < i ==> !filed_at(entries@, j, (service@, key@)),
        decreases entries.len() - i,
    {
        if entries[i].service == *service && entries[i].key == *key {
            return Some(i);
        }
        i += 1;
    }
    None
}

impl CredentialStore {
    /// No service and key are held twice.
    #[verifier::type_invariant]
    spec fn well_formed(self) -> bool {
        no_name_twice(self.entries@)
    }

    /// An empty store.
    pub fn new() -> (store: CredentialStore)
        ensures
            store@ == Map::<(Seq<char>, Seq<char>), Seq<char>>::empty(),
    {
        let store = CredentialStore { entries: Vec::new() };
        assert(store@ =~= Map::<(Seq<char>, Seq<char>), Seq<char>>::empty());
        store
    }

    /// Stores `value` for `service` and `key`. A value held before is
    /// replaced as a whole; every other entry stays as it was.
    pub fn store_credential(&mut self, service: String, key: String, value: String)
        ensures
            final(self)@ == stored(old(self)@, service@, key@, value@),
    {
        proof {
            use_type_invariant(&*self);
        }
        let mut entries: Vec<Entry> = Vec::new();
        std::mem::swap(&mut entries, &mut self.entries);
        let found = position(&entries, &service, &key);
        let entry = Entry { service, key, value };
        match found {
            Some(i) => {
                proof {
                    lemma_replace(entries@, i as int, entry);
                }
                entries.set(i, entry);
            },
            None => {
                proof {
                    lemma_append(entries@, entry);
                }
                entries.push(entry);
            },
        }
        self.entries = entries;
    }

    /// Returns a copy of the value held for `service` and `key`, or `None`
    /// where none is held.
    pub fn get_credential(&self, service: String, key: String) -> (found: Option<String>)
        ensures
            text_of(found) == looked_up(self@, service@, key@),
    {
        proof {
            use_type_invariant(self);
        }
        match position(&self.entries, &service, &key) {
            Some(i) => {
                proof {
                    lemma_contents_at(self.entries@, i as int);
                }
                Some(self.entries[i].value.clone())
            },
            None => None,
        }
    }

    /// Deletes the entry for `service` and `key`. Where there is none, the
    /// store stays as it was.
    pub fn delete_credential(&mut self, service: String, key: String)
        ensures
            final(self)@ == deleted(old(self)@, service@, key@),
    {
        proof {
            use_type_invariant(&*self);
        }
        let mut entries: Vec<Entry> = Vec::new();
        std::mem::swap(&mut entries, &mut self.entries);
        match position(&entries, &service, &key) {
            Some(i) => {
                proof {
                    lemma_take_out(entries@, i as int);
                }
                entries.remove(i);
            },
            None => {
                assert(contents(entries@) =~= contents(entries@).remove((service@, key@)));
            },
        }
        self.entries = entries;
    }
}

/// A value that was stored is the value found under the same service and
/// key, whatever the store held before.
pub proof fn lemma_store_then_get(
    held: Map<(Seq<char>, Seq<char>), Seq<char>>,
    service: Seq<char>,
    key: Seq<char>,
    value: Seq<char>,
)
    ensures
        looked_up(stored(held, service, key, value), service, key) == Some(value),
{
}

/// After an entry was deleted, nothing is found under its service and key.
pub proof fn lemma_delete_then_get(
    held: Map<(Seq<char>, Seq<char>), Seq<char>>,
    service: Seq<char>,
    key: Seq<char>,
)
    ensures
        looked_up(deleted(held, service, key), service, key) == None::<Seq<char>>,
{
}

/// Storing twice under one service and key leaves the store as if only the
/// second value had been stored: nothing of the first remains.
pub proof fn lemma_store_replaces(
    held: Map<(Seq<char>, Seq<char>), Seq<char>>,
    service: Seq<char>,
    key: Seq<char>,
    first: Seq<char>,
    second: Seq<char>,
)
    ensures
        stored(stored(held, service, key, first), service, key, second) == stored(
            held,
            service,
            key,
            second,
        ),
        looked_up(stored(stored(held, service, key, first), service, key, second), service, key)
            == Some(second),
{
    assert(stored(stored(held, service, key, first), service, key, second) =~= stored(
        held,
        service,
        key,
        second,
    ));
}

/// Storing or deleting under one service and key leaves what is found under
/// any other as it was, be it the service that differs, the key, or both. So
/// two services never share an entry under one key.
pub proof fn lemma_entries_do_not_collide(
    held: Map<(Seq<char>, Seq<char>), Seq<char>>,
    service: Seq<char>,
    key: Seq<char>,
    value: Seq<char>,
    other_service: Seq<char>,
    other_key: Seq<char>,
)
    requires
        service != other_service || key != other_key,
    ensures
        looked_up(stored(held, service, key, value), other_service, other_key) == looked_up(
            held,
            other_service,
            other_key,
        ),
        looked_up(deleted(held, service, key), other_service, other_key) == looked_up(
            held,
            other_service,
            other_key,
        ),
{
}

/// Deleting where nothing is held leaves the store as it was.
pub proof fn lemma_delete_missing(
    held: Map<(Seq<char>, Seq<char>), Seq<char>>,
    service: Seq<char>,
    key: Seq<char>,
)
    requires
        looked_up(held, service, key) is None,
    ensures
        deleted(held, service, key) == held,
{
    assert(deleted(held, service, key) =~= held);
}

} // verus!

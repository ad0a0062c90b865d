//! The mapping store: one mapping per controller name.
//!
//! [`MappingStore`] is the keyed collection itself. The store lives in a
//! single file that every operation reads afresh: [`file`] holds the
//! operations on what reading that file gave, and [`laws`] what holds of
//! them together.

use vstd::prelude::*;
use crate::mapping::{ControllerMapping, ControllerMappingView};
use crate::text::texts;

pub mod file;
pub mod laws;

pub use file::{delete, get, has_mapping, list_all, save, Deletion, Saved, StoreFile};

verus! {

struct StoreEntry {
    key: String,
    mapping: ControllerMapping,
}

/// A keyed collection of mappings with at most one mapping per name.
pub struct MappingStore {
    entries: Vec<StoreEntry>,
}

/// The keyed collection that a list of names and the list of their values
/// stand for.
spec fn keyed(names: Seq<Seq<char>>, values: Seq<ControllerMappingView>) -> Map<
    Seq<char>,
    ControllerMappingView,
> {
    Map::new(|name: Seq<char>| names.contains(name), |name: Seq<char>| values[names.index_of(name)])
}

/// Where no name occurs twice, a name's position is the only place where
/// it stands, and its value is the one at that position.
proof fn lemma_keyed_at(names: Seq<Seq<char>>, values: Seq<ControllerMappingView>, i: int)
    requires
        names.no_duplicates(),
        0 <= i < names.len(),
    ensures
        names.index_of(names[i]) == i,
        keyed(names, values).dom().contains(names[i]),
        keyed(names, values)[names[i]] == values[i],
{
    let j = names.index_of(names[i]);
    assert(0 <= j < names.len() && names[j] == names[i]);
}

/// Replacing the value at a name's position stores it under that name.
proof fn lemma_keyed_update(
    names: Seq<Seq<char>>,
    values: Seq<ControllerMappingView>,
    i: int,
    value: ControllerMappingView,
)
    requires
        names.no_duplicates(),
        names.len() == values.len(),
        0 <= i < names.len(),
    ensures
        keyed(names, values.update(i, value)) == keyed(names, values).insert(names[i], value),
{
    let after = keyed(names, values.update(i, value));
    let target = keyed(names, values).insert(names[i], value);
    assert forall|name: Seq<char>| after.dom().contains(name) implies after[name]
        == target[name] by {
        let j = names.index_of(name);
        lemma_keyed_at(names, values, j);
    }
    assert(after =~= target);
}

/// Appending a new name with its value stores the value under that name.
proof fn lemma_keyed_push(
    names: Seq<Seq<char>>,
    values: Seq<ControllerMappingView>,
    name: Seq<char>,
    value: ControllerMappingView,
)
    requires
        names.no_duplicates(),
        names.len() == values.len(),
        !names.contains(name),
    ensures
        names.push(name).no_duplicates(),
        keyed(names.push(name), values.push(value)) == keyed(names, values).insert(name, value),
{
    let longer = names.push(name);
    let after = keyed(longer, values.push(value));
    let target = keyed(names, values).insert(name, value);
    assert forall|other: Seq<char>| after.dom().contains(other) <==> target.dom().contains(
        other,
    ) by {
        if names.contains(other) {
            let j = names.index_of(other);
            assert(longer[j] == other);
        }
        if other == name {
            assert(longer[names.len() as int] == name);
        }
        if longer.contains(other) && other != name {
            let j = longer.index_of(other);
            assert(names[j] == other);
        }
    }
    assert forall|other: Seq<char>| after.dom().contains(other) implies after[other]
        == target[other] by {
        let j = longer.index_of(other);
        lemma_keyed_at(longer, values.push(value), j);
        if other != name {
            lemma_keyed_at(names, values, j);
        }
    }
    assert(after =~= target);
}

/// Taking out a name with its value removes what was stored under it.
proof fn lemma_keyed_remove(names: Seq<Seq<char>>, values: Seq<ControllerMappingView>, i: int)
    requires
        names.no_duplicates(),
        names.len() == values.len(),
        0 <= i < names.len(),
    ensures
        names.remove(i).no_duplicates(),
        keyed(names.remove(i), values.remove(i)) == keyed(names, values).remove(names[i]),
{
    let shorter = names.remove(i);
    let after = keyed(shorter, values.remove(i));
    let target = keyed(names, values).remove(names[i]);
    // position in `names` of what stands at a position of `shorter`
    let back = |j: int|
        if j < i {
            j
        } else {
            j + 1
        };
    assert forall|j: int| 0 <= j < shorter.len() implies shorter[j] == names[back(j)]
        && values.remove(i)[j] == values[back(j)] by {}
    assert forall|other: Seq<char>| after.dom().contains(other) <==> target.dom().contains(
        other,
    ) by {
        if shorter.contains(other) {
            let j = shorter.index_of(other);
            assert(names[back(j)] == other);
        }
        if names.contains(other) && other != names[i] {
            let k = names.index_of(other);
            let j = if k < i {
                k
            } else {
                k - 1
            };
            assert(shorter[j] == other);
        }
    }
    assert forall|other: Seq<char>| after.dom().contains(other) implies after[other]
        == target[other] by {
        let j = shorter.index_of(other);
        lemma_keyed_at(shorter, values.remove(i), j);
        lemma_keyed_at(names, values, back(j));
    }
    assert(after =~= target);
}

impl View for MappingStore {
    type V = Map<Seq<char>, ControllerMappingView>;

    closed spec fn view(&self) -> Map<Seq<char>, ControllerMappingView> {
        keyed(self.names(), self.values())
    }
}

impl MappingStore {
    /// The stored names, in the order in which the store lists its
    /// mappings.
    pub closed spec fn names(&self) -> Seq<Seq<char>> {
        Seq::new(self.entries@.len(), |i: int| self.entries@[i].key@)
    }

    /// The stored mappings, each at the position of its name.
    spec fn values(&self) -> Seq<ControllerMappingView> {
        Seq::new(self.entries@.len(), |i: int| self.entries@[i].mapping@)
    }

    /// No name is stored twice.
    #[verifier::type_invariant]
    pub closed spec fn well_formed(&self) -> bool {
        self.names().no_duplicates()
    }

    /// The names list exactly the store's keys, each once.
    pub proof fn lemma_names(self)
        requires
            self.well_formed(),
        ensures
            self.names().no_duplicates(),
            self@.dom() == self.names().to_set(),
            self@.dom().finite(),
    {
        assert(self@.dom() =~= self.names().to_set());
        vstd::seq_lib::seq_to_set_is_finite(self.names());
    }

    /// Position of a name in the store.
    fn position(&self, key: &String) -> (found: Option<usize>)
        ensures
            match found {
                Some(i) => i < self.entries@.len() && self.names()[i as int] == key@,
                None => !self.names().contains(key@),
            },
    {
        let mut i: usize = 0;
        while i < self.entries.len()
            invariant
                i <= self.entries@.len(),
                forall|j: int| 0 <= j < i ==> self.names()[j] != key@,
            decreases self.entries@.len() - i,
        {
            if self.entries[i].key == *key {
                return Some(i);
            }
            i += 1;
        }
        None
    }

    /// A store that holds nothing.
    pub fn new() -> (store: MappingStore)
        ensures
            store@ == Map::<Seq<char>, ControllerMappingView>::empty(),
            store.names() == Seq::<Seq<char>>::empty(),
    {
        let store = MappingStore { entries: Vec::new() };
        assert(store@ =~= Map::<Seq<char>, ControllerMappingView>::empty());
        assert(store.names() =~= Seq::<Seq<char>>::empty());
        store
    }

    /// How many mappings are stored.
    pub fn len(&self) -> (count: usize)
        ensures
            count == self.names().len(),
            count == self@.dom().len(),
    {
        proof {
            use_type_invariant(self);
            self.lemma_names();
            self.names().unique_seq_to_set();
        }
        self.entries.len()
    }

    /// Whether a mapping is stored under a name.
    pub fn contains(&self, name: &str) -> (stored: bool)
        ensures
            stored == self@.dom().contains(name@),
    {
        let key = String::from_str(name);
        self.position(&key).is_some()
    }

    /// The mapping stored under a name.
    pub fn get(&self, name: &str) -> (found: Option<ControllerMapping>)
        ensures
            match found {
                Some(mapping) => self@.dom().contains(name@) && mapping@ == self@[name@],
                None => !self@.dom().contains(name@),
            },
    {
        let key = String::from_str(name);
        match self.position(&key) {
            Some(i) => {
                proof {
                    use_type_invariant(self);
                    lemma_keyed_at(self.names(), self.values(), i as int);
                }
                Some(self.entries[i].mapping.clone())
            },
            None => None,
        }
    }

    /// The store with a mapping under a key, in place of the one stored
    /// there, if any. A new key goes to the end of the listing order.
    pub fn put(self, key: String, mapping: ControllerMapping) -> (store: MappingStore)
        ensures
            store@ == self@.insert(key@, mapping@),
            store.names() == if self@.dom().contains(key@) {
                self.names()
            } else {
                self.names().push(key@)
            },
    {
        proof {
            use_type_invariant(&self);
        }
        let ghost key_view = key@;
        let ghost mapping_view = mapping@;
        let found = self.position(&key);
        let mut entries = self.entries;
        match found {
            Some(i) => {
                entries.set(i, StoreEntry { key, mapping });
                proof {
                    lemma_keyed_update(self.names(), self.values(), i as int, mapping_view);
                }
            },
            None => {
                entries.push(StoreEntry { key, mapping });
                proof {
                    lemma_keyed_push(self.names(), self.values(), key_view, mapping_view);
                }
            },
        }
        let ghost names = Seq::new(entries@.len(), |i: int| entries@[i].key@);
        let ghost values = Seq::new(entries@.len(), |i: int| entries@[i].mapping@);
        proof {
            match found {
                Some(i) => {
                    assert(names =~= self.names());
                    assert(values =~= self.values().update(i as int, mapping_view));
                },
                None => {
                    assert(names =~= self.names().push(key_view));
                    assert(values =~= self.values().push(mapping_view));
                },
            }
        }
        MappingStore { entries }
    }

    /// The store without the mapping under a name, and whether there was
    /// one.
    pub fn remove(self, name: &str) -> (result: (MappingStore, bool))
        ensures
            result.1 == self@.dom().contains(name@),
            result.0@ == self@.remove(name@),
            result.0.names() == if result.1 {
                self.names().remove(self.names().index_of(name@))
            } else {
                self.names()
            },
    {
        proof {
            use_type_invariant(&self);
        }
        let key = String::from_str(name);
        match self.position(&key) {
            None => {
                assert(self@.remove(name@) =~= self@);
                (self, false)
            },
            Some(i) => {
                let mut entries = self.entries;
                entries.remove(i);
                let ghost names = Seq::new(entries@.len(), |j: int| entries@[j].key@);
                let ghost values = Seq::new(entries@.len(), |j: int| entries@[j].mapping@);
                proof {
                    lemma_keyed_at(self.names(), self.values(), i as int);
                    lemma_keyed_remove(self.names(), self.values(), i as int);
                    assert(names =~= self.names().remove(i as int));
                    assert(values =~= self.values().remove(i as int));
                }
                (MappingStore { entries }, true)
            },
        }
    }

    /// Every stored mapping, in listing order.
    pub fn list(&self) -> (mappings: Vec<ControllerMapping>)
        ensures
            mappings@.len() == self.names().len(),
            forall|i: int|
                0 <= i < mappings@.len() ==> (#[trigger] mappings@[i])@ == self@[self.names()[i]],
    {
        proof {
            use_type_invariant(self);
        }
        let mut mappings: Vec<ControllerMapping> = Vec::new();
        let mut i: usize = 0;
        while i < self.entries.len()
            invariant
                i <= self.entries@.len(),
                self.well_formed(),
                mappings@.len() == i,
                forall|j: int| 0 <= j < i ==> (#[trigger] mappings@[j])@ == self@[self.names()[j]],
            decreases self.entries@.len() - i,
        {
            proof {
                lemma_keyed_at(self.names(), self.values(), i as int);
            }
            mappings.push(self.entries[i].mapping.clone());
            i += 1;
        }
        mappings
    }

    /// Every stored name, in listing order: each key of the store, once.
    pub fn list_names(&self) -> (names: Vec<String>)
        ensures
            texts(names@) == self.names(),
            self.names().no_duplicates(),
            self.names().to_set() == self@.dom(),
    {
        proof {
            use_type_invariant(self);
            self.lemma_names();
        }
        let mut names: Vec<String> = Vec::new();
        let mut i: usize = 0;
        while i < self.entries.len()
            invariant
                i <= self.entries@.len(),
                names@.len() == i,
                forall|j: int| 0 <= j < i ==> (#[trigger] names@[j])@ == self.names()[j],
            decreases self.entries@.len() - i,
        {
            names.push(self.entries[i].key.clone());
            i += 1;
        }
        assert(texts(names@) =~= self.names());
        names
    }
}

} // verus!

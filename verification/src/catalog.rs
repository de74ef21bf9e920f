//! The catalog of bound services: from the name of a service type to the
//! bindings of that type.

use vstd::prelude::*;
use crate::model::{bindings_view, Service, ServiceView};

verus! {

/// The map that a list of entries stands for. An entry binds its name to its
/// bindings; a later entry replaces an earlier one of the same name.
pub open spec fn entries_map(entries: Seq<(String, Vec<Service>)>) -> Map<Seq<char>, Seq<ServiceView>>
    decreases entries.len(),
{
    if entries.len() == 0 {
        Map::empty()
    } else {
        entries_map(entries.drop_last()).insert(
            entries.last().0@,
            bindings_view(entries.last().1@),
        )
    }
}

/// Whether no two entries of a list have the same name.
pub open spec fn distinct_names(entries: Seq<(String, Vec<Service>)>) -> bool {
    forall|i: int, j: int|
        0 <= i < j < entries.len() ==> (#[trigger] entries[i]).0@ != (#[trigger] entries[j]).0@
}

/// The map of a list has a name exactly where an entry of the list has it.
pub proof fn lemma_names(entries: Seq<(String, Vec<Service>)>, name: Seq<char>)
    ensures
        entries_map(entries).contains_key(name) <==> exists|i: int|
            0 <= i < entries.len() && (#[trigger] entries[i]).0@ == name,
    decreases entries.len(),
{
    if entries.len() > 0 {
        let earlier = entries.drop_last();
        lemma_names(earlier, name);
        if entries_map(entries).contains_key(name) {
            if entries.last().0@ == name {
                assert(entries[entries.len() - 1].0@ == name);
            } else {
                let i = choose|i: int| 0 <= i < earlier.len() && (#[trigger] earlier[i]).0@ == name;
                assert(entries[i] == earlier[i]);
            }
        }
        if exists|i: int| 0 <= i < entries.len() && (#[trigger] entries[i]).0@ == name {
            let i = choose|i: int| 0 <= i < entries.len() && (#[trigger] entries[i]).0@ == name;
            if i < entries.len() - 1 {
                assert(earlier[i] == entries[i]);
            }
        }
    }
}

/// Without its last entry a list of distinct names is one still.
pub proof fn lemma_distinct_earlier(entries: Seq<(String, Vec<Service>)>)
    requires
        distinct_names(entries),
        entries.len() > 0,
    ensures
        distinct_names(entries.drop_last()),
        !entries_map(entries.drop_last()).contains_key(entries.last().0@),
{
    let earlier = entries.drop_last();
    assert forall|i: int, j: int| 0 <= i < j < earlier.len() implies (#[trigger] earlier[i]).0@ != (
    #[trigger] earlier[j]).0@ by {
        assert(earlier[i] == entries[i] && earlier[j] == entries[j]);
    }
    lemma_names(earlier, entries.last().0@);
    if entries_map(earlier).contains_key(entries.last().0@) {
        let i = choose|i: int|
            0 <= i < earlier.len() && (#[trigger] earlier[i]).0@ == entries.last().0@;
        assert(earlier[i] == entries[i]);
        assert(entries[i].0@ != entries[entries.len() - 1].0@);
    }
}

/// To put an entry in the place of the one of its name is to bind the name
/// anew.
pub proof fn lemma_replace(entries: Seq<(String, Vec<Service>)>, i: int, entry: (String, Vec<Service>))
    requires
        0 <= i < entries.len(),
        distinct_names(entries),
        entries[i].0@ == entry.0@,
    ensures
        entries_map(entries.update(i, entry)) == entries_map(entries).insert(
            entry.0@,
            bindings_view(entry.1@),
        ),
        distinct_names(entries.update(i, entry)),
    decreases entries.len(),
{
    let updated = entries.update(i, entry);
    assert forall|a: int, b: int| 0 <= a < b < updated.len() implies (#[trigger] updated[a]).0@ != (
    #[trigger] updated[b]).0@ by {
        assert(updated[a].0@ == entries[a].0@ && updated[b].0@ == entries[b].0@);
    }
    if i == entries.len() - 1 {
        assert(updated.drop_last() == entries.drop_last());
        assert(entries_map(updated) =~= entries_map(entries).insert(
            entry.0@,
            bindings_view(entry.1@),
        ));
    } else {
        assert(updated.drop_last() == entries.drop_last().update(i, entry));
        lemma_distinct_earlier(entries);
        lemma_replace(entries.drop_last(), i, entry);
        assert(entries[i].0@ != entries[entries.len() - 1].0@);
        assert(entries_map(updated) =~= entries_map(entries).insert(
            entry.0@,
            bindings_view(entry.1@),
        ));
    }
}

/// The map of a list of distinct names has as many names as the list has
/// entries.
pub proof fn lemma_count(entries: Seq<(String, Vec<Service>)>)
    requires
        distinct_names(entries),
    ensures
        entries_map(entries).dom().finite(),
        entries_map(entries).dom().len() == entries.len(),
    decreases entries.len(),
{
    if entries.len() > 0 {
        let earlier = entries.drop_last();
        lemma_distinct_earlier(entries);
        lemma_count(earlier);
        assert(entries_map(entries).dom() =~= entries_map(earlier).dom().insert(entries.last().0@));
    } else {
        assert(entries_map(entries).dom() =~= Set::<Seq<char>>::empty());
    }
}

/// The services bound to an application: a map from the name of a service
/// type to the bindings of that type, in the order in which they were given.
///
/// The catalog keeps one entry for each name.
#[derive(Debug)]
pub struct ServiceCatalog {
    entries: Vec<(String, Vec<Service>)>,
}

impl View for ServiceCatalog {
    type V = Map<Seq<char>, Seq<ServiceView>>;

    closed spec fn view(&self) -> Map<Seq<char>, Seq<ServiceView>> {
        entries_map(self.entries@)
    }
}

impl ServiceCatalog {
    #[verifier::type_invariant]
    spec fn one_entry_for_each_name(self) -> bool {
        distinct_names(self.entries@)
    }

    /// A catalog without services.
    pub fn new() -> (catalog: ServiceCatalog)
        ensures
            catalog@ == Map::<Seq<char>, Seq<ServiceView>>::empty(),
    {
        ServiceCatalog { entries: Vec::new() }
    }

    /// Binds `name` to `bindings`, in place of what it was bound to before.
    pub fn insert(&mut self, name: String, bindings: Vec<Service>)
        ensures
            final(self)@ == old(self)@.insert(name@, bindings_view(bindings@)),
    {
        proof {
            use_type_invariant(&*self);
        }
        let mut entries: Vec<(String, Vec<Service>)> = Vec::new();
        core::mem::swap(&mut self.entries, &mut entries);
        let mut i: usize = 0;
        let mut found: Option<usize> = None;
        while i < entries.len() && found.is_none()
            invariant
                i <= entries.len(),
                forall|j: int| 0 <= j < i && found is None ==> (#[trigger] entries@[j]).0@ != name@,
                found matches Some(at) ==> at < entries.len() && entries@[at as int].0@ == name@,
            decreases entries.len() - i + (if found is None { 1int } else { 0int }),
        {
            if entries[i].0 == name {
                found = Some(i);
            } else {
                i = i + 1;
            }
        }
        match found {
            Some(at) => {
                proof {
                    lemma_replace(entries@, at as int, (name, bindings));
                }
                entries.set(at, (name, bindings));
            },
            None => {
                let ghost before = entries@;
                entries.push((name, bindings));
                assert(entries@.drop_last() == before);
            },
        }
        self.entries = entries;
    }

    /// The number of service types in the catalog.
    pub fn len(&self) -> (count: usize)
        ensures
            self@.dom().finite(),
            count == self@.len(),
    {
        proof {
            use_type_invariant(self);
            lemma_count(self.entries@);
        }
        self.entries.len()
    }

    /// Whether the catalog has no service type.
    pub fn is_empty(&self) -> (empty: bool)
        ensures
            empty == (self@ == Map::<Seq<char>, Seq<ServiceView>>::empty()),
    {
        proof {
            if self.entries@.len() > 0 {
                assert(entries_map(self.entries@).contains_key(self.entries@.last().0@));
            } else {
                assert(self@ =~= Map::<Seq<char>, Seq<ServiceView>>::empty());
            }
        }
        self.entries.len() == 0
    }

    /// The bindings of the service type called `name`, if the catalog has it.
    pub fn get(&self, name: &str) -> (found: Option<&Vec<Service>>)
        ensures
            match found {
                Some(bindings) => self@.contains_key(name@) && self@[name@] == bindings_view(
                    bindings@,
                ),
                None => !self@.contains_key(name@),
            },
    {
        let key: String = name.to_owned();
        let mut i: usize = self.entries.len();
        assert(self.entries@.take(i as int) == self.entries@);
        while i > 0
            invariant
                i <= self.entries.len(),
                key@ == name@,
                self@.contains_key(name@) == entries_map(self.entries@.take(i as int)).contains_key(
                    name@,
                ),
                self@.contains_key(name@) ==> self@[name@] == entries_map(
                    self.entries@.take(i as int),
                )[name@],
            decreases i,
        {
            assert(self.entries@.take(i as int).drop_last() == self.entries@.take(i as int - 1));
            if self.entries[i - 1].0 == key {
                return Some(&self.entries[i - 1].1);
            }
            i = i - 1;
        }
        None
    }

    /// Whether the catalog has a service type called `name`.
    pub fn contains_key(&self, name: &str) -> (present: bool)
        ensures
            present == self@.contains_key(name@),
    {
        self.get(name).is_some()
    }

    /// The entries of the catalog, borrowed: one for each name, in the order in
    /// which the names were first bound.
    pub fn entries(&self) -> (entries: &Vec<(String, Vec<Service>)>)
        ensures
            entries_map(entries@) == self@,
            distinct_names(entries@),
    {
        proof {
            use_type_invariant(self);
        }
        &self.entries
    }

    /// The entries of the catalog as a list of names and bindings: one for each
    /// name, in the order in which the names were first bound.
    pub fn into_entries(self) -> (entries: Vec<(String, Vec<Service>)>)
        ensures
            entries_map(entries@) == self@,
            distinct_names(entries@),
    {
        proof {
            use_type_invariant(&self);
        }
        self.entries
    }
}

} // verus!

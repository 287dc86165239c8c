use vstd::prelude::*;

use crate::error::Error;

verus! {

/// True when no name occurs twice in `names`.
pub open spec fn unique_names(names: Seq<Seq<char>>) -> bool {
    forall|i: int, j: int|
        0 <= i < names.len() && 0 <= j < names.len() && i != j ==> names[i] != names[j]
}

/// Tenants keyed by name, in the order of registration, names unique.
pub struct Registry<T> {
    names: Vec<String>,
    records: Vec<T>,
}

impl<T> Registry<T> {
    /// The registered names, in order of registration.
    pub closed spec fn names(&self) -> Seq<Seq<char>> {
        self.names@.map_values(|n: String| n@)
    }

    /// The registered records, aligned with `names`.
    pub closed spec fn records(&self) -> Seq<T> {
        self.records@
    }

    /// Names and records are aligned and no name repeats.
    pub open spec fn wf(&self) -> bool {
        &&& self.names().len() == self.records().len()
        &&& unique_names(self.names())
    }

    /// True when `name` is registered and `record` is its record.
    pub open spec fn maps_to(&self, name: Seq<char>, record: T) -> bool {
        exists|i: int|
            0 <= i < self.names().len() && self.names()[i] == name && self.records()[i] == record
    }

    /// An empty registry.
    pub fn new() -> (r: Self)
        ensures
            r.wf(),
            r.names() == Seq::<Seq<char>>::empty(),
            r.records() == Seq::<T>::empty(),
    {
        let r = Registry { names: Vec::new(), records: Vec::new() };
        proof {
            assert(r.names() =~= Seq::<Seq<char>>::empty());
        }
        r
    }

    /// Number of registered tenants.
    pub fn len(&self) -> (r: usize)
        requires
            self.wf(),
        ensures
            r == self.names().len(),
    {
        self.names.len()
    }

    /// Position of `name` among the registered names, if it is there.
    fn position(&self, name: &String) -> (r: Option<usize>)
        requires
            self.wf(),
        ensures
            match r {
                Some(i) => i < self.names().len() && self.names()[i as int] == name@,
                None => !self.names().contains(name@),
            },
    {
        let mut i: usize = 0;
        while i < self.names.len()
            invariant
                self.wf(),
                i <= self.names@.len(),
                forall|j: int| 0 <= j < i ==> self.names()[j] != name@,
            decreases self.names@.len() - i,
        {
            if self.names[i] == *name {
                return Some(i);
            }
            i = i + 1;
        }
        None
    }

    /// Whether `name` is registered.
    pub fn contains(&self, name: &str) -> (r: bool)
        requires
            self.wf(),
        ensures
            r == self.names().contains(name@),
    {
        let key = name.to_owned();
        self.position(&key).is_some()
    }

    /// The record registered under `name`, by exact match.
    pub fn resolve(&self, name: &str) -> (r: Option<&T>)
        requires
            self.wf(),
        ensures
            r is Some <==> self.names().contains(name@),
            r matches Some(t) ==> self.maps_to(name@, *t),
    {
        let key = name.to_owned();
        match self.position(&key) {
            Some(i) => Some(&self.records[i]),
            None => None,
        }
    }

    /// Registers `record` under `name`; fails, leaving the registry as it
    /// was, when the name is taken.
    pub fn insert(&mut self, name: String, record: T) -> (r: Result<(), Error>)
        requires
            old(self).wf(),
        ensures
            final(self).wf(),
            old(self).names().contains(name@) <==> r is Err,
            r matches Err(e) ==> e == Error::DuplicateIssuer(name) && *final(self) == *old(self),
            r is Ok ==> final(self).names() == old(self).names().push(name@)
                && final(self).records() == old(self).records().push(record),
    {
        match self.position(&name) {
            Some(_) => Err(Error::DuplicateIssuer(name)),
            None => {
                let ghost n = name@;
                self.names.push(name);
                self.records.push(record);
                proof {
                    assert(self.names() =~= old(self).names().push(n));
                }
                Ok(())
            },
        }
    }
}

/// The names of `items`, in order.
pub open spec fn item_names<T>(items: Seq<(String, T)>) -> Seq<Seq<char>> {
    items.map_values(|it: (String, T)| it.0@)
}

/// The records of `items`, in order.
pub open spec fn item_records<T>(items: Seq<(String, T)>) -> Seq<T> {
    items.map_values(|it: (String, T)| it.1)
}

impl<T> Registry<T> {
    /// Builds a registry from `items`, in order. Fails with the first name
    /// that repeats an earlier one; no registry is produced then.
    pub fn from_records(items: Vec<(String, T)>) -> (r: Result<Self, Error>)
        ensures
            r is Ok <==> unique_names(item_names(items@)),
            r matches Ok(reg) ==> reg.wf() && reg.names() == item_names(items@)
                && reg.records() == item_records(items@),
            r matches Err(e) ==> exists|i: int, j: int|
                0 <= i < j < items@.len() && items@[i].0@ == items@[j].0@
                    && e == Error::DuplicateIssuer(items@[j].0),
    {
        let ghost all = items@;
        let n: usize = items.len();
        let mut reg = Registry::new();
        let mut rest = items;
        let mut k: usize = 0;
        while rest.len() > 0
            invariant
                reg.wf(),
                all == items@,
                all.len() == n,
                k + rest@.len() == all.len(),
                rest@ =~= all.subrange(k as int, all.len() as int),
                reg.names() == item_names(all.subrange(0, k as int)),
                reg.records() == item_records(all.subrange(0, k as int)),
            decreases rest@.len(),
        {
            let (name, record) = rest.remove(0);
            proof {
                assert(all[k as int] == (name, record));
            }
            let ghost before = reg.names();
            match reg.insert(name, record) {
                Ok(()) => {},
                Err(e) => {
                    proof {
                        let i = choose|i: int| 0 <= i < before.len() && before[i] == all[k as int].0@;
                        assert(all.subrange(0, k as int)[i] == all[i]);
                        assert(item_names(all)[i] == item_names(all)[k as int]);
                    }
                    return Err(e);
                },
            }
            proof {
                assert(all.subrange(0, k + 1) =~= all.subrange(0, k as int).push(all[k as int]));
                assert(item_names(all.subrange(0, k + 1)) =~= item_names(all.subrange(0, k as int)).push(all[k as int].0@));
                assert(item_records(all.subrange(0, k + 1)) =~= item_records(all.subrange(0, k as int)).push(all[k as int].1));
            }
            k = k + 1;
        }
        proof {
            assert(all.subrange(0, k as int) =~= all);
        }
        Ok(reg)
    }
}

/// A registry built from `items` resolves each listed name to the record
/// listed with it, and no other name.
pub proof fn lemma_built_registry_resolves<T>(reg: Registry<T>, items: Seq<(String, T)>, name: Seq<char>)
    requires
        reg.wf(),
        reg.names() == item_names(items),
        reg.records() == item_records(items),
    ensures
        reg.names().contains(name) <==> exists|i: int| 0 <= i < items.len() && items[i].0@ == name,
        forall|i: int|
            0 <= i < items.len() && #[trigger] items[i].0@ == name ==> reg.maps_to(name, items[i].1),
        forall|t: T| reg.maps_to(name, t) ==> exists|i: int|
            0 <= i < items.len() && items[i].0@ == name && items[i].1 == t,
{
    if reg.names().contains(name) {
        let i = choose|i: int| 0 <= i < reg.names().len() && reg.names()[i] == name;
        assert(items[i].0@ == name);
    }
    assert forall|i: int| 0 <= i < items.len() && #[trigger] items[i].0@ == name implies reg.maps_to(
        name,
        items[i].1,
    ) by {
        assert(reg.names()[i] == name);
        assert(reg.records()[i] == items[i].1);
    }
    assert forall|t: T| reg.maps_to(name, t) implies exists|i: int|
        0 <= i < items.len() && items[i].0@ == name && items[i].1 == t by {
        let i = choose|i: int|
            0 <= i < reg.names().len() && reg.names()[i] == name && reg.records()[i] == t;
        assert(items[i].0@ == name && items[i].1 == t);
    }
}

/// Two tenants listed under one name make the list unfit to build a
/// registry from.
pub proof fn lemma_duplicate_names_refused<T>(items: Seq<(String, T)>, i: int, j: int)
    requires
        0 <= i < items.len(),
        0 <= j < items.len(),
        i != j,
        items[i].0@ == items[j].0@,
    ensures
        !unique_names(item_names(items)),
{
    assert(item_names(items)[i] == item_names(items)[j]);
}

/// Once a name is registered, registering it again is refused: the names
/// after a successful registration contain it.
pub proof fn lemma_registered_name_is_taken(before: Seq<Seq<char>>, after: Seq<Seq<char>>, name: Seq<char>)
    requires
        after == before.push(name),
    ensures
        after.contains(name),
        after.len() == before.len() + 1,
{
    assert(after[before.len() as int] == name);
}

} // verus!

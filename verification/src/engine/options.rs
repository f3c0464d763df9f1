//! The options an engine offers, by name.

use vstd::prelude::*;
use vstd::string::*;
use crate::search::{first_index_of, lemma_first_index_of, lemma_first_index_of_is_first, lemma_first_index_of_push};

verus! {

/// An option of an engine and the value it has.
#[derive(Debug, Clone, PartialEq, Eq, Hash)]
#[allow(inconsistent_fields)]
pub enum UciOptionField {
    Check { value: bool },
    /// A number between `min` and `max`.
    Spin { value: i64, min: i64, max: i64 },
    /// One of `labels`, by its place among them.
    Combo { value: usize, labels: Vec<String> },
    String { value: String },
}

impl UciOptionField {
    /// Whether the option's value is one it allows: a spin lies within its
    /// bounds, and a combo names one of its labels.
    pub open spec fn spec_valid(self) -> bool {
        match self {
            UciOptionField::Spin { value, min, max } => min <= value <= max,
            UciOptionField::Combo { value, labels } => value < labels@.len(),
            _ => true,
        }
    }
}

/// Whether every option of a table has a value it allows.
pub open spec fn options_valid(options: Map<Seq<char>, UciOptionField>) -> bool {
    forall|name: Seq<char>| options.dom().contains(name) ==> (#[trigger] options[name]).spec_valid()
}

/// A value to give to an option; its kind must be the option's.
#[derive(Debug, Clone, PartialEq, Eq, Hash)]
pub enum UciOptionValue {
    Check(bool),
    Spin(i64),
    Combo(usize),
    String(String),
}

/// The options of an engine.  As a map it takes each name to its option.
#[derive(Debug, Clone, PartialEq, Eq)]
pub struct OptionTable {
    entries: Vec<(String, UciOptionField)>,
}

/// The names of a list of options, in its order.
pub open spec fn entry_names(entries: Seq<(String, UciOptionField)>) -> Seq<Seq<char>> {
    entries.map_values(|e: (String, UciOptionField)| e.0@)
}

/// The map that a list of options stands for: a name goes to the first
/// option listed under it.
pub open spec fn entries_map(entries: Seq<(String, UciOptionField)>) -> Map<
    Seq<char>,
    UciOptionField,
> {
    Map::new(
        |name: Seq<char>| first_index_of(entry_names(entries), name) < entries.len(),
        |name: Seq<char>| entries[first_index_of(entry_names(entries), name)].1,
    )
}

/// The texts of a list of strings.
pub open spec fn texts(strings: Seq<String>) -> Seq<Seq<char>> {
    strings.map_values(|s: String| s@)
}

/// Where a text first stands in a list of strings.
pub fn find_string(strings: &Vec<String>, text: &String) -> (r: usize)
    ensures
        r == first_index_of(texts(strings@), text@),
        r <= strings.len(),
{
    let n = strings.len();
    let mut i: usize = 0;
    while i < n
        invariant
            i <= n,
            n == strings.len(),
            forall|j: int| 0 <= j < i ==> texts(strings@)[j] != text@,
        decreases n - i,
    {
        if strings[i] == *text {
            proof {
                lemma_first_index_of(texts(strings@), text@, i as int);
            }
            return i;
        }
        i += 1;
    }
    proof {
        lemma_first_index_of(texts(strings@), text@, n as int);
    }
    n
}

impl View for OptionTable {
    type V = Map<Seq<char>, UciOptionField>;

    closed spec fn view(&self) -> Map<Seq<char>, UciOptionField> {
        entries_map(self.entries@)
    }
}

impl OptionTable {
    /// A table without options.
    pub fn new() -> (r: OptionTable)
        ensures
            r@ == Map::<Seq<char>, UciOptionField>::empty(),
    {
        let r = OptionTable { entries: Vec::new() };
        assert(r@ =~= Map::<Seq<char>, UciOptionField>::empty());
        r
    }

    /// Where the option of that name stands in the list, or the length of
    /// the list.
    fn find(&self, name: &String) -> (r: usize)
        ensures
            r == first_index_of(entry_names(self.entries@), name@),
            r <= self.entries.len(),
            r < self.entries.len() <==> self@.dom().contains(name@),
            r < self.entries.len() ==> self@[name@] == self.entries[r as int].1
                && self.entries[r as int].0@ == name@,
    {
        let n = self.entries.len();
        let mut i: usize = 0;
        while i < n
            invariant
                i <= n,
                n == self.entries.len(),
                forall|j: int| 0 <= j < i ==> entry_names(self.entries@)[j] != name@,
            decreases n - i,
        {
            if self.entries[i].0 == *name {
                proof {
                    lemma_first_index_of(entry_names(self.entries@), name@, i as int);
                }
                return i;
            }
            i += 1;
        }
        proof {
            lemma_first_index_of(entry_names(self.entries@), name@, n as int);
        }
        n
    }

    /// The option of that name.
    pub fn get(&self, name: &str) -> (r: Option<&UciOptionField>)
        ensures
            match r {
                Some(field) => self@.dom().contains(name@) && *field == self@[name@],
                None => !self@.dom().contains(name@),
            },
    {
        let key = String::from_str(name);
        let i = self.find(&key);
        if i < self.entries.len() {
            Some(&self.entries[i].1)
        } else {
            None
        }
    }

    /// The names of the options, each once.
    pub fn names(&self) -> (r: Vec<String>)
        ensures
            forall|name: Seq<char>| self@.dom().contains(name) <==> texts(r@).contains(name),
            texts(r@).no_duplicates(),
    {
        let ghost names = entry_names(self.entries@);
        let n = self.entries.len();
        let mut r: Vec<String> = Vec::new();
        let ghost mut places: Seq<int> = Seq::empty();
        let mut i: usize = 0;
        while i < n
            invariant
                i <= n,
                n == self.entries.len(),
                names == entry_names(self.entries@),
                places.len() == r@.len(),
                forall|a: int, b: int|
                    0 <= a < b < places.len() ==> #[trigger] places[a] < #[trigger] places[b],
                forall|t: int|
                    0 <= t < places.len() ==> 0 <= #[trigger] places[t] < i && texts(r@)[t]
                        == names[places[t]] && first_index_of(names, names[places[t]])
                        == places[t],
                forall|j: int|
                    0 <= j < i && first_index_of(names, #[trigger] names[j]) == j ==> exists|
                        t: int,
                    |
                        0 <= t < places.len() && places[t] == j,
            decreases n - i,
        {
            let at = self.find(&self.entries[i].0);
            if at == i {
                let ghost before = r@;
                let ghost places_before = places;
                r.push(self.entries[i].0.clone());
                proof {
                    places = places.push(i as int);
                    assert forall|t: int| 0 <= t < places.len() implies 0 <= #[trigger] places[t]
                        < i + 1 && texts(r@)[t] == names[places[t]] && first_index_of(
                        names,
                        names[places[t]],
                    ) == places[t] by {
                        if t < places_before.len() {
                            assert(places[t] == places_before[t]);
                            assert(texts(r@)[t] == texts(before)[t]);
                        }
                    }
                    assert forall|j: int|
                        0 <= j < i + 1 && first_index_of(names, #[trigger] names[j])
                            == j implies exists|t: int|
                        0 <= t < places.len() && places[t] == j by {
                        if j < i {
                            let t = choose|t: int|
                                0 <= t < places_before.len() && places_before[t] == j;
                            assert(places[t] == j);
                        } else {
                            assert(places[places.len() - 1] == j);
                        }
                    }
                }
            }
            i += 1;
        }
        proof {
            assert forall|name: Seq<char>|
                self@.dom().contains(name) <==> texts(r@).contains(name) by {
                lemma_first_index_of_is_first(names, name);
                let first = first_index_of(names, name);
                if self@.dom().contains(name) {
                    assert(names[first] == name);
                    let t = choose|t: int| 0 <= t < places.len() && places[t] == first;
                    assert(texts(r@)[t] == name);
                }
                if texts(r@).contains(name) {
                    let t = choose|t: int| 0 <= t < texts(r@).len() && texts(r@)[t] == name;
                    assert(first_index_of(names, name) == places[t]);
                }
            }
            assert forall|a: int, b: int|
                0 <= a < texts(r@).len() && 0 <= b < texts(r@).len() && a != b implies texts(
                r@,
            )[a] != texts(r@)[b] by {
                if texts(r@)[a] == texts(r@)[b] {
                    assert(places[a] == first_index_of(names, names[places[a]]));
                    assert(places[b] == first_index_of(names, names[places[b]]));
                    assert(places[a] == places[b]);
                    if a < b {
                        assert(places[a] < places[b]);
                    } else {
                        assert(places[b] < places[a]);
                    }
                }
            }
        }
        r
    }

    /// Puts an option under a name, in place of the one that was there.
    pub fn insert(&mut self, name: String, field: UciOptionField)
        ensures
            final(self)@ == old(self)@.insert(name@, field),
    {
        let i = self.find(&name);
        let ghost before = self.entries@;
        if i < self.entries.len() {
            self.entries[i].1 = field;
            proof {
                let after = self.entries@;
                assert(entry_names(after) =~= entry_names(before));
                assert forall|k: Seq<char>| #[trigger]
                    entries_map(after).dom().contains(k) == entries_map(before).insert(
                        name@,
                        field,
                    ).dom().contains(k) by {}
                assert forall|k: Seq<char>| #[trigger]
                    entries_map(after).dom().contains(k) implies entries_map(after)[k]
                    == entries_map(before).insert(name@, field)[k] by {
                    lemma_first_index_of_is_first(entry_names(before), k);
                }
                assert(entries_map(after) =~= entries_map(before).insert(name@, field));
            }
        } else {
            self.entries.push((name, field));
            proof {
                let after = self.entries@;
                assert(entry_names(after) =~= entry_names(before).push(name@));
                assert forall|k: Seq<char>|
                    first_index_of(entry_names(after), k) == if first_index_of(
                        entry_names(before),
                        k,
                    ) < before.len() {
                        first_index_of(entry_names(before), k)
                    } else if name@ == k {
                        before.len() as int
                    } else {
                        before.len() as int + 1
                    } by {
                    lemma_first_index_of_push(entry_names(before), name@, k);
                }
                let wanted = entries_map(before).insert(name@, field);
                assert forall|k: Seq<char>| #[trigger]
                    entries_map(after).dom().contains(k) == wanted.dom().contains(k) by {
                    lemma_first_index_of_is_first(entry_names(before), k);
                }
                assert forall|k: Seq<char>| #[trigger]
                    entries_map(after).dom().contains(k) implies entries_map(after)[k]
                    == wanted[k] by {
                    lemma_first_index_of_is_first(entry_names(before), k);
                    let at = first_index_of(entry_names(after), k);
                    if at < before.len() {
                        assert(after[at] == before[at]);
                        assert(entry_names(before)[at] == k);
                    } else {
                        assert(after[at] == (name, field));
                    }
                }
                assert(entries_map(after) =~= wanted);
            }
        }
    }

    /// The option of that name, to change in place.
    pub(crate) fn field_mut(&mut self, name: &String) -> (r: &mut UciOptionField)
        requires
            old(self)@.dom().contains(name@),
        ensures
            *r == old(self)@[name@],
            final(self)@ == old(self)@.insert(name@, *final(r)),
    {
        let i = self.find(name);
        let ghost before = self.entries@;
        let r = &mut self.entries[i].1;
        proof {
            let after = before.update(i as int, (before[i as int].0, *final(r)));
            assert(entry_names(after) =~= entry_names(before));
            assert forall|k: Seq<char>| #[trigger]
                entries_map(after).dom().contains(k) implies entries_map(after)[k]
                == entries_map(before).insert(name@, *final(r))[k] by {
                lemma_first_index_of_is_first(entry_names(before), k);
            }
            assert(entries_map(after) =~= entries_map(before).insert(name@, *final(r)));
        }
        r
    }
}

} // verus!

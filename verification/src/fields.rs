//! Named JSON values: the custom fields of a subject.

use vstd::prelude::*;

use crate::json::{entries_map, entry_views, Json, JsonView};
use crate::text::{
    chars_less, lemma_less_irreflexive, lemma_less_total, lemma_less_transitive, str_eq, str_less,
};

verus! {

/// Whether each name comes before all that follow it; so none occurs twice.
pub open spec fn increasing_names(entries: Seq<(Seq<char>, JsonView)>) -> bool {
    forall|i: int, j: int|
        0 <= i < j < entries.len() ==> chars_less(
            (#[trigger] entries[i]).0,
            (#[trigger] entries[j]).0,
        )
}

/// Of two entries in the order of their names the first has the lesser name, so no two have the
/// same.
pub proof fn lemma_names_are_in_strict_order(
    entries: Seq<(Seq<char>, JsonView)>,
    i: int,
    j: int,
)
    requires
        increasing_names(entries),
        0 <= i < j < entries.len(),
    ensures
        chars_less(entries[i].0, entries[j].0),
        entries[i].0 != entries[j].0,
{
    lemma_less_irreflexive(entries[i].0);
}

/// Named JSON values, in the order of their names, each name once.
#[derive(Debug, PartialEq, Eq)]
pub struct Fields {
    entries: Vec<(String, Json)>,
}

impl View for Fields {
    type V = Map<Seq<char>, JsonView>;

    closed spec fn view(&self) -> Map<Seq<char>, JsonView> {
        entries_map(entry_views(self.entries@))
    }
}

/// Entries in the order of their names make a map with exactly those members.
proof fn lemma_members(entries: Seq<(Seq<char>, JsonView)>)
    requires
        increasing_names(entries),
    ensures
        forall|name: Seq<char>| #[trigger]
            entries_map(entries).dom().contains(name) <==> exists|i: int|
                0 <= i < entries.len() && (#[trigger] entries[i]).0 == name,
        forall|i: int|
            0 <= i < entries.len() ==> entries_map(entries)[(#[trigger] entries[i]).0]
                == entries[i].1,
    decreases entries.len(),
{
    if entries.len() > 0 {
        let front = entries.drop_last();
        let last = entries[entries.len() - 1];
        assert(forall|i: int| 0 <= i < front.len() ==> #[trigger] front[i] == entries[i]);
        lemma_members(front);
        assert forall|name: Seq<char>| #[trigger]
            entries_map(entries).dom().contains(name) <==> exists|i: int|
                0 <= i < entries.len() && (#[trigger] entries[i]).0 == name by {
            if entries_map(front).dom().contains(name) {
                let i = choose|i: int| 0 <= i < front.len() && (#[trigger] front[i]).0 == name;
                assert(entries[i].0 == name);
            }
            if exists|i: int| 0 <= i < entries.len() && (#[trigger] entries[i]).0 == name {
                let i = choose|i: int| 0 <= i < entries.len() && (#[trigger] entries[i]).0 == name;
                if i < front.len() {
                    assert(front[i].0 == name);
                }
            }
            assert(last.0 == name ==> entries[entries.len() - 1].0 == name);
        }
        assert forall|i: int| 0 <= i < entries.len() implies entries_map(entries)[(
        #[trigger] entries[i]).0] == entries[i].1 by {
            if i < front.len() {
                assert(front[i] == entries[i]);
                assert(chars_less(entries[i].0, last.0));
                lemma_less_irreflexive(last.0);
            }
        }
    }
}

/// An entry that is put at its place, or in place of the one with its name, goes into the map.
proof fn lemma_inserted(
    before: Seq<(Seq<char>, JsonView)>,
    after: Seq<(Seq<char>, JsonView)>,
    at: int,
    name: Seq<char>,
    value: JsonView,
)
    requires
        increasing_names(before),
        increasing_names(after),
        0 <= at <= before.len(),
        after == before.insert(at, (name, value)) || (at < before.len() && before[at].0 == name
            && after == before.update(at, (name, value))),
    ensures
        entries_map(after) == entries_map(before).insert(name, value),
{
    lemma_members(before);
    lemma_members(after);
    let shift = if after.len() > before.len() {
        1int
    } else {
        0int
    };
    assert(after[at] == (name, value));
    let old_map = entries_map(before);
    let new_map = entries_map(after);
    assert forall|key: Seq<char>| #[trigger]
        new_map.dom().contains(key) <==> old_map.insert(name, value).dom().contains(key) by {
        if new_map.dom().contains(key) && key != name {
            let i = choose|i: int| 0 <= i < after.len() && (#[trigger] after[i]).0 == key;
            assert(before[if i < at { i } else { i - shift }].0 == key);
        }
        if old_map.dom().contains(key) && key != name {
            let i = choose|i: int| 0 <= i < before.len() && (#[trigger] before[i]).0 == key;
            assert(after[if i < at { i } else { i + shift }].0 == key);
        }
    }
    assert forall|key: Seq<char>| #[trigger] new_map.dom().contains(key) implies new_map[key]
        == old_map.insert(name, value)[key] by {
        let i = choose|i: int| 0 <= i < after.len() && (#[trigger] after[i]).0 == key;
        if key != name {
            let j = if i < at { i } else { i - shift };
            assert(before[j] == after[i]);
        } else if i != at {
            lemma_less_irreflexive(name);
            assert(chars_less(after[if i < at { i } else { at }].0, after[if i < at {
                at
            } else {
                i
            }].0));
        }
    }
    assert(new_map =~= old_map.insert(name, value));
}

impl Fields {
    #[verifier::type_invariant]
    spec fn in_order(self) -> bool {
        increasing_names(entry_views(self.entries@))
    }

    /// No fields.
    pub fn new() -> (fields: Fields)
        ensures
            fields@ == Map::<Seq<char>, JsonView>::empty(),
    {
        let entries: Vec<(String, Json)> = Vec::new();
        assert(entry_views(entries@).len() == 0);
        Fields { entries }
    }

    /// The fields with a value under a name, in place of the one that was there.
    pub fn insert(self, name: &str, value: Json) -> (fields: Fields)
        ensures
            fields@ == self@.insert(name@, value@),
    {
        proof {
            use_type_invariant(&self);
        }
        let mut entries = self.entries;
        let ghost before = entry_views(entries@);
        let ghost view = value@;
        let mut i: usize = 0;
        while i < entries.len() && str_less(entries[i].0.as_str(), name)
            invariant
                before == entry_views(entries@),
                i <= entries@.len(),
                forall|j: int| 0 <= j < i ==> chars_less((#[trigger] before[j]).0, name@),
            decreases entries.len() - i,
        {
            assert(before[i as int].0 == entries@[i as int].0@);
            i = i + 1;
        }
        let replace = i < entries.len() && str_eq(entries[i].0.as_str(), name);
        if replace {
            entries.remove(i);
        }
        entries.insert(i, (name.to_owned(), value));
        proof {
            let after = entry_views(entries@);
            let at = i as int;
            if replace {
                assert(before[at].0 == name@);
                assert(after =~= before.update(at, (name@, view)));
            } else {
                assert(after =~= before.insert(at, (name@, view)));
                if at < before.len() {
                    lemma_less_total(before[at].0, name@);
                }
            }
            let shift = if replace {
                0int
            } else {
                1int
            };
            assert forall|a: int, b: int| 0 <= a < b < after.len() implies chars_less(
                (#[trigger] after[a]).0,
                (#[trigger] after[b]).0,
            ) by {
                let from = if a < at { a } else { a - shift };
                let to = if b < at { b } else { b - shift };
                if a != at && b != at {
                    assert(chars_less(before[from].0, before[to].0));
                } else if b == at {
                    assert(chars_less(before[a].0, name@));
                } else if replace {
                    assert(chars_less(before[a].0, before[b].0));
                } else {
                    assert(chars_less(name@, before[at].0));
                    if to > at {
                        assert(chars_less(before[at].0, before[to].0));
                        lemma_less_transitive(name@, before[at].0, before[to].0);
                    }
                }
            }
            lemma_inserted(before, after, at, name@, view);
        }
        Fields { entries }
    }

    /// The fields in the order of their names.
    pub fn entries(&self) -> (entries: &Vec<(String, Json)>)
        ensures
            increasing_names(entry_views(entries@)),
            entries_map(entry_views(entries@)) == self@,
    {
        proof {
            use_type_invariant(self);
        }
        &self.entries
    }
}

} // verus!

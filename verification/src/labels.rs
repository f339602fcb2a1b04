//! Labels of a ticket after some were added and some removed.

use vstd::prelude::*;

use crate::text::{
    chars_less, lemma_less_irreflexive, lemma_less_total, lemma_less_transitive, str_eq, str_less,
    strings,
};

verus! {

/// Whether each string comes before all that follow it; so none occurs twice.
pub open spec fn increasing(list: Seq<Seq<char>>) -> bool {
    forall|i: int, j: int|
        0 <= i < j < list.len() ==> chars_less(#[trigger] list[i], #[trigger] list[j])
}

/// Whether a label is there after some were added and then some removed.
pub open spec fn is_merged_label(
    current: Seq<Seq<char>>,
    add: Seq<Seq<char>>,
    remove: Seq<Seq<char>>,
    label: Seq<char>,
) -> bool {
    (current.contains(label) || add.contains(label)) && !remove.contains(label)
}

/// Whether a list holds, in order and each once, the labels that are there after some were
/// added and then some removed.
pub open spec fn lists_merged(
    list: Seq<Seq<char>>,
    current: Seq<Seq<char>>,
    add: Seq<Seq<char>>,
    remove: Seq<Seq<char>>,
) -> bool {
    &&& increasing(list)
    &&& forall|label: Seq<char>|
        #[trigger] list.contains(label) <==> is_merged_label(current, add, remove, label)
}

/// The labels that are there after some were added and then some removed, in order, each once.
pub open spec fn merged_labels(
    current: Seq<Seq<char>>,
    add: Seq<Seq<char>>,
    remove: Seq<Seq<char>>,
) -> Seq<Seq<char>> {
    choose|list: Seq<Seq<char>>| lists_merged(list, current, add, remove)
}

/// Two increasing lists of the same strings are the same list.
proof fn lemma_increasing_unique(a: Seq<Seq<char>>, b: Seq<Seq<char>>)
    requires
        increasing(a),
        increasing(b),
        forall|x: Seq<char>| #[trigger] a.contains(x) <==> b.contains(x),
    ensures
        a == b,
    decreases a.len(),
{
    if a.len() == 0 {
        if b.len() > 0 {
            assert(b.contains(b[0]));
            assert(a.contains(b[0]));
        }
        assert(a =~= b);
    } else {
        assert(a.contains(a[0]));
        assert(b.contains(a[0]));
        lemma_same_last(a, b);
        let front_a = a.drop_last();
        let front_b = b.drop_last();
        assert forall|x: Seq<char>| #[trigger] front_a.contains(x) <==> front_b.contains(x) by {
            lemma_front_contains(a, x);
            lemma_front_contains(b, x);
            assert(a.contains(x) <==> b.contains(x));
        }
        lemma_increasing_unique(front_a, front_b);
        assert(a =~= front_a.push(a.last()));
        assert(b =~= front_b.push(b.last()));
    }
}

/// The front of an increasing list holds all of its strings but the last.
proof fn lemma_front_contains(list: Seq<Seq<char>>, x: Seq<char>)
    requires
        increasing(list),
        list.len() > 0,
    ensures
        list.drop_last().contains(x) <==> list.contains(x) && x != list.last(),
{
    let front = list.drop_last();
    if front.contains(x) {
        let i = choose|i: int| 0 <= i < front.len() && front[i] == x;
        assert(list[i] == x);
        assert(chars_less(list[i], list[list.len() - 1]));
        lemma_less_irreflexive(x);
    }
    if list.contains(x) && x != list.last() {
        let i = choose|i: int| 0 <= i < list.len() && list[i] == x;
        assert(front[i] == x);
    }
}

/// Two increasing lists of the same strings end with the same one.
proof fn lemma_same_last(a: Seq<Seq<char>>, b: Seq<Seq<char>>)
    requires
        increasing(a),
        increasing(b),
        a.len() > 0,
        b.len() > 0,
        forall|x: Seq<char>| #[trigger] a.contains(x) <==> b.contains(x),
    ensures
        a.last() == b.last(),
{
    if a.last() != b.last() {
        assert(a.contains(a.last()));
        assert(b.contains(b.last()));
        assert(b.contains(a.last()));
        assert(a.contains(b.last()));
        let i = choose|i: int| 0 <= i < a.len() && a[i] == b.last();
        let j = choose|j: int| 0 <= j < b.len() && b[j] == a.last();
        assert(chars_less(a[i], a[a.len() - 1]));
        assert(chars_less(b[j], b[b.len() - 1]));
        lemma_less_transitive(a.last(), b.last(), a.last());
        lemma_less_irreflexive(a.last());
    }
}

/// The labels after a merge are those of any list that holds them in order, each once.
pub proof fn lemma_merged_labels(
    list: Seq<Seq<char>>,
    current: Seq<Seq<char>>,
    add: Seq<Seq<char>>,
    remove: Seq<Seq<char>>,
)
    requires
        lists_merged(list, current, add, remove),
    ensures
        merged_labels(current, add, remove) == list,
{
    let chosen = merged_labels(current, add, remove);
    assert forall|x: Seq<char>| #[trigger] list.contains(x) <==> chosen.contains(x) by {
        assert(chosen.contains(x) <==> is_merged_label(current, add, remove, x));
    }
    lemma_increasing_unique(list, chosen);
}

/// Puts a label at its place, where it is not there yet.
fn insert_label(labels: &mut Vec<String>, label: &str)
    requires
        increasing(strings(old(labels)@)),
    ensures
        increasing(strings(final(labels)@)),
        forall|x: Seq<char>| #[trigger]
            strings(final(labels)@).contains(x) <==> strings(old(labels)@).contains(x) || x
                == label@,
{
    let ghost before = strings(labels@);
    let mut i: usize = 0;
    while i < labels.len() && str_less(labels[i].as_str(), label)
        invariant
            before == strings(labels@),
            i <= labels@.len(),
            forall|j: int| 0 <= j < i ==> chars_less(#[trigger] before[j], label@),
        decreases labels.len() - i,
    {
        i = i + 1;
    }
    if i < labels.len() && str_eq(labels[i].as_str(), label) {
        assert(before[i as int] == label@);
        return;
    }
    let text = label.to_owned();
    labels.insert(i, text);
    proof {
        let after = strings(labels@);
        assert(after =~= before.insert(i as int, label@));
        if i < before.len() {
            lemma_less_total(before[i as int], label@);
        }
        assert forall|a: int, b: int| 0 <= a < b < after.len() implies chars_less(
            #[trigger] after[a],
            #[trigger] after[b],
        ) by {
            let from = if a < i { a } else { a - 1 };
            let to = if b < i { b } else { b - 1 };
            if a != i && b != i {
                assert(chars_less(before[from], before[to]));
            } else if b == i {
                assert(chars_less(before[a], label@));
            } else {
                assert(chars_less(label@, before[i as int]));
                if to > i {
                    assert(chars_less(before[i as int], before[to]));
                    lemma_less_transitive(label@, before[i as int], before[to]);
                }
            }
        }
        assert forall|x: Seq<char>| #[trigger] after.contains(x) <==> before.contains(x) || x
            == label@ by {
            if after.contains(x) && x != label@ {
                let k = choose|k: int| 0 <= k < after.len() && after[k] == x;
                assert(before[if k < i { k } else { k - 1 }] == x);
            }
            if before.contains(x) {
                let k = choose|k: int| 0 <= k < before.len() && before[k] == x;
                assert(after[if k < i { k } else { k + 1 }] == x);
            }
            assert(after[i as int] == label@);
        }
    }
}

/// Takes a label away.
fn remove_label(labels: &mut Vec<String>, label: &str)
    requires
        increasing(strings(old(labels)@)),
    ensures
        increasing(strings(final(labels)@)),
        forall|x: Seq<char>| #[trigger]
            strings(final(labels)@).contains(x) <==> strings(old(labels)@).contains(x) && x
                != label@,
{
    let ghost before = strings(labels@);
    let mut i: usize = 0;
    while i < labels.len() && !str_eq(labels[i].as_str(), label)
        invariant
            before == strings(labels@),
            i <= labels@.len(),
            forall|j: int| 0 <= j < i ==> #[trigger] before[j] != label@,
        decreases labels.len() - i,
    {
        i = i + 1;
    }
    if i == labels.len() {
        return;
    }
    labels.remove(i);
    proof {
        let after = strings(labels@);
        assert(after =~= before.remove(i as int));
        assert(before[i as int] == label@);
        assert forall|a: int, b: int| 0 <= a < b < after.len() implies chars_less(
            #[trigger] after[a],
            #[trigger] after[b],
        ) by {
            let from = if a < i { a } else { a + 1 };
            let to = if b < i { b } else { b + 1 };
            assert(chars_less(before[from], before[to]));
        }
        assert forall|x: Seq<char>| #[trigger] after.contains(x) <==> before.contains(x) && x
            != label@ by {
            if after.contains(x) {
                let k = choose|k: int| 0 <= k < after.len() && after[k] == x;
                let m = if k < i { k } else { k + 1 };
                assert(before[m] == x);
                if m < i {
                    assert(chars_less(before[m], before[i as int]));
                } else {
                    assert(chars_less(before[i as int], before[m]));
                }
                lemma_less_irreflexive(label@);
            }
            if before.contains(x) && x != label@ {
                let k = choose|k: int| 0 <= k < before.len() && before[k] == x;
                assert(after[if k < i { k } else { k - 1 }] == x);
            }
        }
    }
}

/// The labels that are there after some were added and then some removed, in order, each once.
pub fn merge_labels(current: &Vec<String>, add: &Vec<String>, remove: &Vec<String>) -> (merged: Vec<
    String,
>)
    ensures
        lists_merged(strings(merged@), strings(current@), strings(add@), strings(remove@)),
        strings(merged@) == merged_labels(strings(current@), strings(add@), strings(remove@)),
{
    let ghost have = strings(current@);
    let ghost wanted = strings(add@);
    let ghost unwanted = strings(remove@);
    let mut merged: Vec<String> = Vec::new();
    let mut i: usize = 0;
    while i < current.len()
        invariant
            have == strings(current@),
            i <= current@.len(),
            increasing(strings(merged@)),
            forall|x: Seq<char>| #[trigger]
                strings(merged@).contains(x) <==> have.take(i as int).contains(x),
        decreases current.len() - i,
    {
        let ghost before = strings(merged@);
        insert_label(&mut merged, current[i].as_str());
        proof {
            assert(have.take(i + 1) =~= have.take(i as int).push(have[i as int]));
            assert forall|x: Seq<char>| #[trigger]
                strings(merged@).contains(x) <==> have.take(i + 1).contains(x) by {
                lemma_push_contains(have.take(i as int), have[i as int], x);
                assert(before.contains(x) <==> have.take(i as int).contains(x));
            }
        }
        i = i + 1;
    }
    assert(have.take(have.len() as int) =~= have);
    let mut i: usize = 0;
    while i < add.len()
        invariant
            wanted == strings(add@),
            i <= add@.len(),
            increasing(strings(merged@)),
            forall|x: Seq<char>| #[trigger]
                strings(merged@).contains(x) <==> have.contains(x) || wanted.take(
                    i as int,
                ).contains(x),
        decreases add.len() - i,
    {
        let ghost before = strings(merged@);
        insert_label(&mut merged, add[i].as_str());
        proof {
            assert(wanted.take(i + 1) =~= wanted.take(i as int).push(wanted[i as int]));
            assert forall|x: Seq<char>| #[trigger]
                strings(merged@).contains(x) <==> have.contains(x) || wanted.take(i + 1).contains(
                    x,
                ) by {
                lemma_push_contains(wanted.take(i as int), wanted[i as int], x);
                assert(before.contains(x) <==> have.contains(x) || wanted.take(
                    i as int,
                ).contains(x));
            }
        }
        i = i + 1;
    }
    assert(wanted.take(wanted.len() as int) =~= wanted);
    let mut i: usize = 0;
    while i < remove.len()
        invariant
            unwanted == strings(remove@),
            i <= remove@.len(),
            increasing(strings(merged@)),
            forall|x: Seq<char>| #[trigger]
                strings(merged@).contains(x) <==> (have.contains(x) || wanted.contains(x))
                    && !unwanted.take(i as int).contains(x),
        decreases remove.len() - i,
    {
        let ghost before = strings(merged@);
        remove_label(&mut merged, remove[i].as_str());
        proof {
            assert(unwanted.take(i + 1) =~= unwanted.take(i as int).push(unwanted[i as int]));
            assert forall|x: Seq<char>| #[trigger]
                strings(merged@).contains(x) <==> (have.contains(x) || wanted.contains(x))
                    && !unwanted.take(i + 1).contains(x) by {
                lemma_push_contains(unwanted.take(i as int), unwanted[i as int], x);
                assert(before.contains(x) <==> (have.contains(x) || wanted.contains(x))
                    && !unwanted.take(i as int).contains(x));
            }
        }
        i = i + 1;
    }
    assert(unwanted.take(unwanted.len() as int) =~= unwanted);
    proof {
        lemma_merged_labels(strings(merged@), have, wanted, unwanted);
    }
    merged
}

proof fn lemma_push_contains(list: Seq<Seq<char>>, last: Seq<char>, x: Seq<char>)
    ensures
        list.push(last).contains(x) <==> list.contains(x) || x == last,
{
    let longer = list.push(last);
    if list.contains(x) {
        let i = choose|i: int| 0 <= i < list.len() && list[i] == x;
        assert(longer[i] == x);
    }
    assert(longer[list.len() as int] == last);
    if longer.contains(x) && x != last {
        let i = choose|i: int| 0 <= i < longer.len() && longer[i] == x;
        assert(list[i] == x);
    }
}

// Laws.

/// Puts a string at its place in an increasing list.
proof fn lemma_insert_exists(list: Seq<Seq<char>>, label: Seq<char>) -> (longer: Seq<Seq<char>>)
    requires
        increasing(list),
    ensures
        increasing(longer),
        forall|x: Seq<char>| #[trigger] longer.contains(x) <==> list.contains(x) || x == label,
    decreases list.len(),
{
    if list.len() == 0 {
        let longer = list.push(label);
        assert forall|x: Seq<char>| #[trigger] longer.contains(x) <==> list.contains(x) || x
            == label by {
            lemma_push_contains(list, label, x);
        }
        longer
    } else if list.last() == label {
        list
    } else {
        let last = list.last();
        let (front, end) = if chars_less(last, label) {
            (list, label)
        } else {
            lemma_less_total(last, label);
            (lemma_insert_exists(list.drop_last(), label), last)
        };
        let longer = front.push(end);
        assert forall|x: Seq<char>| front.contains(x) implies chars_less(x, end) by {
            if chars_less(last, label) {
                let i = choose|i: int| 0 <= i < list.len() && list[i] == x;
                if i < list.len() - 1 {
                    assert(chars_less(list[i], list[list.len() - 1]));
                    lemma_less_transitive(x, last, label);
                }
            } else if x != label {
                lemma_front_contains(list, x);
                let i = choose|i: int| 0 <= i < list.len() && list[i] == x;
                assert(chars_less(list[i], list[list.len() - 1]));
            }
        }
        assert forall|i: int, j: int| 0 <= i < j < longer.len() implies chars_less(
            #[trigger] longer[i],
            #[trigger] longer[j],
        ) by {
            assert(front.contains(front[i]));
            if j < front.len() {
                assert(chars_less(front[i], front[j]));
            }
        }
        assert forall|x: Seq<char>| #[trigger] longer.contains(x) <==> list.contains(x) || x
            == label by {
            lemma_push_contains(front, end, x);
            lemma_front_contains(list, x);
            assert(list.contains(last)) by {
                assert(list[list.len() - 1] == last);
            }
        }
        longer
    }
}

/// Lists in order the strings of a list that are not among those to be removed.
proof fn lemma_listing_exists(all: Seq<Seq<char>>, remove: Seq<Seq<char>>) -> (list: Seq<Seq<char>>)
    ensures
        increasing(list),
        forall|x: Seq<char>| #[trigger]
            list.contains(x) <==> all.contains(x) && !remove.contains(x),
    decreases all.len(),
{
    if all.len() == 0 {
        Seq::empty()
    } else {
        let front = lemma_listing_exists(all.drop_last(), remove);
        let last = all.last();
        assert(all =~= all.drop_last().push(last));
        let list = if remove.contains(last) {
            front
        } else {
            lemma_insert_exists(front, last)
        };
        assert forall|x: Seq<char>| #[trigger] list.contains(x) <==> all.contains(x)
            && !remove.contains(x) by {
            lemma_push_contains(all.drop_last(), last, x);
            assert(front.contains(x) <==> all.drop_last().contains(x) && !remove.contains(x));
        }
        list
    }
}

/// After a merge the labels are in order, each occurs once, and they are those that were there
/// or were added, without those that were removed: to remove a label wins over adding it.
pub proof fn lemma_merged_is_the_listing(
    current: Seq<Seq<char>>,
    add: Seq<Seq<char>>,
    remove: Seq<Seq<char>>,
)
    ensures
        lists_merged(merged_labels(current, add, remove), current, add, remove),
{
    let list = lemma_listing_exists(current + add, remove);
    assert forall|x: Seq<char>| #[trigger] list.contains(x) <==> is_merged_label(
        current,
        add,
        remove,
        x,
    ) by {
        if current.contains(x) {
            let i = choose|i: int| 0 <= i < current.len() && current[i] == x;
            assert((current + add)[i] == x);
        }
        if add.contains(x) {
            let i = choose|i: int| 0 <= i < add.len() && add[i] == x;
            assert((current + add)[current.len() + i] == x);
        }
        if (current + add).contains(x) {
            let i = choose|i: int| 0 <= i < (current + add).len() && (current + add)[i] == x;
            if i < current.len() {
                assert(current[i] == x);
            } else {
                assert(add[i - current.len()] == x);
            }
        }
        assert(list.contains(x) <==> (current + add).contains(x) && !remove.contains(x));
    }
    assert(lists_merged(list, current, add, remove));
}

/// The same additions and removals a second time change nothing more.
pub proof fn lemma_merge_twice(
    current: Seq<Seq<char>>,
    add: Seq<Seq<char>>,
    remove: Seq<Seq<char>>,
)
    ensures
        merged_labels(merged_labels(current, add, remove), add, remove) == merged_labels(
            current,
            add,
            remove,
        ),
{
    let once = merged_labels(current, add, remove);
    lemma_merged_is_the_listing(current, add, remove);
    assert forall|x: Seq<char>| #[trigger] once.contains(x) <==> is_merged_label(
        once,
        add,
        remove,
        x,
    ) by {
        assert(once.contains(x) <==> is_merged_label(current, add, remove, x));
    }
    lemma_merged_labels(once, once, add, remove);
}

} // verus!

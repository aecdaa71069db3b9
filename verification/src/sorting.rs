//! Sorting texts.

use crate::string_map::{order_texts, TextOrder};
use vstd::prelude::*;

verus! {

/// Whether no text comes before the one ahead of it.
pub open spec fn is_sorted(list: Seq<Seq<char>>) -> bool {
    forall|i: int, j: int|
        0 <= i < j < list.len() ==> !crate::string_map::precedes(
            #[trigger] list[j],
            #[trigger] list[i],
        )
}

/// Where `text` belongs in a sorted list: after everything that does not come
/// after it.
fn place(sorted: &Vec<String>, text: &str) -> (at: usize)
    requires
        is_sorted(crate::text::texts(sorted@)),
    ensures
        at <= sorted@.len(),
        forall|i: int|
            0 <= i < at ==> !crate::string_map::precedes(
                text@,
                #[trigger] crate::text::texts(sorted@)[i],
            ),
        forall|i: int|
            at <= i < sorted@.len() ==> crate::string_map::precedes(
                text@,
                #[trigger] crate::text::texts(sorted@)[i],
            ),
{
    let ghost all = crate::text::texts(sorted@);
    let mut at: usize = sorted.len();
    while at > 0
        invariant
            at <= sorted@.len(),
            all == crate::text::texts(sorted@),
            is_sorted(all),
            forall|i: int|
                at <= i < sorted@.len() ==> crate::string_map::precedes(
                    text@,
                    #[trigger] all[i],
                ),
        decreases at,
    {
        let order: TextOrder = order_texts(sorted[at - 1].as_str(), text);
        assert(all[at - 1] == sorted@[at - 1]@);
        match order {
            TextOrder::After => {
                at = at - 1;
            },
            TextOrder::Before | TextOrder::Same => {
                proof {
                    let here = all[at - 1];
                    assert forall|i: int| 0 <= i < at implies !crate::string_map::precedes(
                        text@,
                        #[trigger] all[i],
                    ) by {
                        crate::string_map::precedes_is_irreflexive(text@);
                        if crate::string_map::precedes(text@, all[i]) {
                            if here == text@ {
                                if i < at - 1 {
                                    assert(!crate::string_map::precedes(here, all[i]));
                                }
                            } else {
                                crate::string_map::precedes_is_transitive(here, text@, all[i]);
                                if i < at - 1 {
                                    assert(!crate::string_map::precedes(here, all[i]));
                                } else {
                                    crate::string_map::precedes_is_irreflexive(here);
                                }
                            }
                        }
                    }
                }
                return at;
            },
        }
    }
    at
}

/// Sorts texts by their characters.
pub fn sort_texts(list: &Vec<String>) -> (sorted: Vec<String>)
    ensures
        is_sorted(crate::text::texts(sorted@)),
        crate::text::texts(sorted@).to_multiset() == crate::text::texts(list@).to_multiset(),
{
    let ghost all = crate::text::texts(list@);
    let mut sorted: Vec<String> = Vec::new();
    assert(crate::text::texts(sorted@) =~= all.take(0));
    for i in 0..list.len()
        invariant
            all == crate::text::texts(list@),
            is_sorted(crate::text::texts(sorted@)),
            crate::text::texts(sorted@).to_multiset() == all.take(i as int).to_multiset(),
    {
        let ghost before = crate::text::texts(sorted@);
        let ghost text = list@[i as int]@;
        let at: usize = place(&sorted, list[i].as_str());
        sorted.insert(at, list[i].clone());
        proof {
            let after = crate::text::texts(sorted@);
            assert(after =~= before.insert(at as int, text));
            after.to_multiset_ensures();
            assert(after.remove(at as int) =~= before);
            assert(after[at as int] == text && after.contains(text));
            assert(after.to_multiset() =~= before.to_multiset().insert(text));
            assert(all.take(i + 1) =~= all.take(i as int).push(text));
            all.take(i as int).to_multiset_ensures();
            assert forall|a: int, b: int|
                0 <= a < b < after.len() implies !crate::string_map::precedes(
                #[trigger] after[b],
                #[trigger] after[a],
            ) by {
                let old_a = if a < at {
                    a
                } else {
                    a - 1
                };
                let old_b = if b < at {
                    b
                } else {
                    b - 1
                };
                if a == at {
                    assert(after[b] == before[old_b]);
                    if crate::string_map::precedes(after[b], text) {
                        crate::string_map::precedes_is_transitive(text, after[b], text);
                        crate::string_map::precedes_is_irreflexive(text);
                    }
                } else if b == at {
                    assert(after[a] == before[old_a]);
                } else {
                    assert(after[a] == before[old_a]);
                    assert(after[b] == before[old_b]);
                }
            }
        }
    }
    assert(all.take(all.len() as int) =~= all);
    sorted
}

/// In a sorted list a text comes before those behind it, or is one of them.
pub proof fn law_sorted_lists_ascend(list: Seq<Seq<char>>, i: int, j: int)
    requires
        is_sorted(list),
        0 <= i < j < list.len(),
    ensures
        list[i] == list[j] || crate::string_map::precedes(list[i], list[j]),
{
    crate::string_map::precedes_is_total(list[i], list[j]);
}

} // verus!

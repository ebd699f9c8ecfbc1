//! Edits of the list of input files of a tab: its order is the load order.

use vstd::prelude::*;

verus! {

/// The positions that a list of indexes names.
pub open spec fn positions(indexes: Seq<usize>) -> Set<int> {
    Set::new(|p: int| exists|k: int| 0 <= k < indexes.len() && #[trigger] indexes[k] == p)
}

/// `items` without those at the marked positions, the others in their order.
pub open spec fn without_positions<T>(items: Seq<T>, marked: Set<int>) -> Seq<T>
    decreases items.len(),
{
    if items.len() == 0 {
        items
    } else if marked.contains(items.len() - 1) {
        without_positions(items.drop_last(), marked)
    } else {
        without_positions(items.drop_last(), marked).push(items.last())
    }
}

/// Whether a list of indexes rises, equal neighbours allowed.
pub open spec fn ascending(indexes: Seq<usize>) -> bool {
    forall|i: int, j: int| 0 <= i <= j < indexes.len() ==> indexes[i] <= indexes[j]
}

/// Sorts indexes with `slice::sort`.
///
/// Not proved: that the outcome rises and holds what went in, each index as
/// often as before.
#[verifier::external_body]
fn sort_indexes(indexes: &mut Vec<usize>)
    ensures
        ascending(final(indexes)@),
        final(indexes)@.to_multiset() == old(indexes)@.to_multiset(),
{
    indexes.sort();
}

/// What is left when no position of the list is marked is the list.
pub proof fn lemma_nothing_marked<T>(items: Seq<T>, marked: Set<int>)
    requires
        forall|p: int| 0 <= p < items.len() ==> !marked.contains(p),
    ensures
        without_positions(items, marked) == items,
    decreases items.len(),
{
    if items.len() > 0 {
        lemma_nothing_marked(items.drop_last(), marked);
        assert(items.drop_last().push(items.last()) =~= items);
    }
}

/// Marking one more position, below all that are marked, takes the item at
/// that very position out of what is left.
pub proof fn lemma_mark_below<T>(items: Seq<T>, marked: Set<int>, lowest: int)
    requires
        0 <= lowest < items.len(),
        forall|p: int| marked.contains(p) ==> lowest < p,
    ensures
        lowest < without_positions(items, marked).len(),
        without_positions(items, marked.insert(lowest)) == without_positions(
            items,
            marked,
        ).remove(lowest),
    decreases items.len(),
{
    let last = items.len() - 1;
    let front = items.drop_last();
    if last == lowest {
        lemma_nothing_marked(front, marked);
        lemma_nothing_marked(front, marked.insert(lowest));
        assert(front.push(items.last()).remove(lowest) =~= front);
    } else {
        lemma_mark_below(front, marked, lowest);
        let left = without_positions(front, marked);
        if !marked.contains(last) {
            assert(left.remove(lowest).push(items.last()) =~= left.push(items.last()).remove(
                lowest,
            ));
        }
    }
}

/// Sorted indexes name the positions that they named before, and rise
/// strictly if no index came twice.
proof fn lemma_sorted_indexes(before: Seq<usize>, after: Seq<usize>)
    requires
        before.no_duplicates(),
        ascending(after),
        after.to_multiset() == before.to_multiset(),
    ensures
        after.len() == before.len(),
        positions(after) == positions(before),
        forall|i: int, j: int| 0 <= i < j < after.len() ==> after[i] < after[j],
{
    broadcast use vstd::seq_lib::group_to_multiset_ensures;

    assert(after.len() == after.to_multiset().len());
    assert(before.len() == before.to_multiset().len());
    before.lemma_multiset_has_no_duplicates();
    after.lemma_multiset_has_no_duplicates_conv();
    assert forall|p: int| positions(after).contains(p) == positions(before).contains(p) by {
        if positions(after).contains(p) {
            let k = choose|k: int| 0 <= k < after.len() && #[trigger] after[k] == p;
            assert(after.contains(after[k]));
            assert(before.to_multiset().count(after[k]) > 0);
            assert(before.contains(after[k]));
        }
        if positions(before).contains(p) {
            let k = choose|k: int| 0 <= k < before.len() && #[trigger] before[k] == p;
            assert(before.contains(before[k]));
            assert(after.to_multiset().count(before[k]) > 0);
            assert(after.contains(before[k]));
        }
    }
    assert(positions(after) =~= positions(before));
}

/// `items` with those at positions `i` and `j` in each other's place.
pub open spec fn swapped<T>(items: Seq<T>, i: int, j: int) -> Seq<T> {
    items.update(i, items[j]).update(j, items[i])
}

/// Whether the input file at `index` can move up: it is on the list and not
/// the first.
pub open spec fn can_move_up(len: nat, index: int) -> bool {
    0 < index < len
}

/// Whether the input file at `index` can move down: it is on the list and
/// not the last.
pub open spec fn can_move_down(len: nat, index: int) -> bool {
    0 <= index < len - 1
}

/// Moves the input file at `index` one place up, so that it is loaded
/// before the one that stood before it.
pub fn move_input_up(paths: &mut Vec<String>, index: usize)
    requires
        can_move_up(old(paths)@.len(), index as int),
    ensures
        final(paths)@ == swapped(old(paths)@, index as int, index - 1),
{
    let moved = paths.remove(index);
    paths.insert(index - 1, moved);
    assert(paths@ =~= swapped(old(paths)@, index as int, index - 1));
}

/// Moves the input file at `index` one place down, so that it is loaded
/// after the one that stood after it.
pub fn move_input_down(paths: &mut Vec<String>, index: usize)
    requires
        can_move_down(old(paths)@.len(), index as int),
    ensures
        final(paths)@ == swapped(old(paths)@, index as int, index + 1),
{
    assert(index < paths.len());
    let moved = paths.remove(index);
    paths.insert(index + 1, moved);
    assert(paths@ =~= swapped(old(paths)@, index as int, index + 1));
}

/// Moving an input file up and then down again leaves the list as it was.
pub proof fn lemma_up_and_down<T>(items: Seq<T>, index: int)
    requires
        can_move_up(items.len(), index),
    ensures
        can_move_down(items.len(), index - 1),
        swapped(swapped(items, index, index - 1), index - 1, index) == items,
{
    assert(swapped(swapped(items, index, index - 1), index - 1, index) =~= items);
}

/// Takes the input files at the given indexes off the list; the others keep
/// their order. Says whether the list changed.
pub fn remove_inputs(paths: &mut Vec<String>, indexes: Vec<usize>) -> (changed: bool)
    requires
        indexes@.no_duplicates(),
        forall|k: int| 0 <= k < indexes@.len() ==> indexes@[k] < old(paths)@.len(),
    ensures
        final(paths)@ == without_positions(old(paths)@, positions(indexes@)),
        changed == (indexes@.len() > 0),
{
    let mut sorted = indexes;
    sort_indexes(&mut sorted);
    let count: usize = sorted.len();
    proof {
        lemma_sorted_indexes(indexes@, sorted@);
        lemma_nothing_marked(paths@, positions(sorted@.subrange(count as int, count as int)));
    }
    let mut k: usize = count;
    while k > 0
        invariant
            k <= count,
            count == sorted@.len(),
            forall|i: int, j: int| 0 <= i < j < sorted@.len() ==> sorted@[i] < sorted@[j],
            forall|p: int| positions(sorted@).contains(p) ==> 0 <= p < old(paths)@.len(),
            paths@ == without_positions(
                old(paths)@,
                positions(sorted@.subrange(k as int, count as int)),
            ),
        decreases k,
    {
        k -= 1;
        let lowest: usize = sorted[k];
        proof {
            let marked = positions(sorted@.subrange(k + 1, count as int));
            let more = positions(sorted@.subrange(k as int, count as int));
            assert(positions(sorted@).contains(lowest as int));
            assert forall|p: int| marked.contains(p) implies lowest < p by {
                let i = choose|i: int|
                    0 <= i < count - (k + 1) && #[trigger] sorted@.subrange(
                        k + 1,
                        count as int,
                    )[i] == p;
                assert(sorted@[k as int] < sorted@[k + 1 + i]);
            }
            assert forall|p: int| more.contains(p) == marked.insert(lowest as int).contains(p) by {
                if more.contains(p) {
                    let i = choose|i: int|
                        0 <= i < count - k && #[trigger] sorted@.subrange(
                            k as int,
                            count as int,
                        )[i] == p;
                    if i > 0 {
                        assert(sorted@.subrange(k + 1, count as int)[i - 1] == p);
                    }
                }
                if marked.contains(p) {
                    let i = choose|i: int|
                        0 <= i < count - (k + 1) && #[trigger] sorted@.subrange(
                            k + 1,
                            count as int,
                        )[i] == p;
                    assert(sorted@.subrange(k as int, count as int)[i + 1] == p);
                }
                if p == lowest {
                    assert(sorted@.subrange(k as int, count as int)[0] == p);
                }
            }
            assert(more =~= marked.insert(lowest as int));
            lemma_mark_below(old(paths)@, marked, lowest as int);
        }
        paths.remove(lowest);
    }
    assert(sorted@.subrange(0, count as int) =~= sorted@);
    count > 0
}

} // verus!

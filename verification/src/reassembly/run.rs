//! Runs: unbroken stretches of stored shreds.
use crate::reassembly::index_set::IndexSet;
use std::collections::HashMap;
use vstd::prelude::*;

verus! {

broadcast use vstd::std_specs::hash::group_hash_axioms;

/// The first index of the run of stored shreds that ends before or at `index`.
pub open spec fn run_start<V>(stored: Map<u32, V>, index: u32) -> u32
    decreases index,
{
    if index > 0 && stored.contains_key((index - 1) as u32) {
        run_start(stored, (index - 1) as u32)
    } else {
        index
    }
}

/// The last index of the run of stored shreds that begins at `index`.
pub open spec fn run_end<V>(stored: Map<u32, V>, index: u32) -> u32
    decreases u32::MAX - index,
{
    if index < u32::MAX && stored.contains_key((index + 1) as u32) {
        run_end(stored, (index + 1) as u32)
    } else {
        index
    }
}

/// Whether all shreds from `start` to `end` are stored.
pub open spec fn has_all<V>(stored: Map<u32, V>, start: u32, end: u32) -> bool {
    forall|index: u32| start <= index <= end ==> #[trigger] stored.contains_key(index)
}

/// Shreds without those from `start` to `end`.
pub open spec fn without_range<V>(stored: Map<u32, V>, start: u32, end: u32) -> Map<u32, V> {
    stored.restrict(Set::new(|index: u32| index < start || index > end))
}

/// Indexes of stored shreds that start the slot or follow a boundary.
pub open spec fn anchored_starts<V>(stored: Map<u32, V>, boundaries: Set<u32>) -> Set<u32> {
    Set::new(
        |index: u32|
            stored.contains_key(index) && (index == 0 || boundaries.contains((index - 1) as u32)),
    )
}

/// A run is unbroken, and the shred behind it is not stored.
pub proof fn run_is_longest<V>(stored: Map<u32, V>, start: u32)
    requires
        stored.contains_key(start),
    ensures
        start <= run_end(stored, start),
        has_all(stored, start, run_end(stored, start)),
        run_end(stored, start) < u32::MAX ==> !stored.contains_key((run_end(stored, start) + 1) as u32),
    decreases u32::MAX - start,
{
    if start < u32::MAX && stored.contains_key((start + 1) as u32) {
        run_is_longest(stored, (start + 1) as u32);
    }
}

/// Two tables with the same shreds have the same runs.
pub proof fn runs_need_only_indexes<V, W>(a: Map<u32, V>, b: Map<u32, W>, start: u32)
    requires
        a.dom() == b.dom(),
    ensures
        run_end(a, start) == run_end(b, start),
    decreases u32::MAX - start,
{
    assert(forall|index: u32| #[trigger] a.contains_key(index) <==> b.dom().contains(index));
    if start < u32::MAX {
        runs_need_only_indexes(a, b, (start + 1) as u32);
    }
}

/// A run is found from any of its shreds.
pub proof fn run_goes_on<V>(stored: Map<u32, V>, start: u32, inside: u32)
    requires
        start <= inside,
        has_all(stored, start, inside),
    ensures
        run_end(stored, start) == run_end(stored, inside),
        inside <= run_end(stored, start),
    decreases inside - start,
{
    if start < inside {
        assert(stored.contains_key((start + 1) as u32));
        run_goes_on(stored, (start + 1) as u32, inside);
    } else {
        run_is_longest(stored, start);
    }
}

/// A run does not depend on the shreds before it.
pub proof fn run_needs_only_what_follows<V>(a: Map<u32, V>, b: Map<u32, V>, start: u32)
    requires
        forall|index: u32| index > start ==> (#[trigger] a.contains_key(index) <==> b.contains_key(index)),
    ensures
        run_end(a, start) == run_end(b, start),
    decreases u32::MAX - start,
{
    if start < u32::MAX {
        assert(a.contains_key((start + 1) as u32) <==> b.contains_key((start + 1) as u32));
        run_needs_only_what_follows(a, b, (start + 1) as u32);
    }
}

/// Finds the last index of a run.
pub(crate) fn find_run_end<V>(stored: &HashMap<u32, V>, start: u32) -> (r: u32)
    ensures
        r == run_end(stored@, start),
{
    let mut end: u32 = start;
    while end < u32::MAX && stored.contains_key(&(end + 1))
        invariant
            run_end(stored@, end) == run_end(stored@, start),
        decreases u32::MAX - end,
    {
        end = end + 1;
    }
    end
}

/// Drops the shreds from `start` to `end`.
pub(crate) fn drop_range<V>(stored: &mut HashMap<u32, V>, start: u32, end: u32)
    ensures
        final(stored)@ == without_range(old(stored)@, start, end),
{
    let ghost before = stored@;
    if start > end {
        assert(stored@ =~= without_range(before, start, end));
        return;
    }
    let mut index: u32 = start;
    let mut open: bool = true;
    while open
        invariant
            start <= index <= end,
            open ==> stored@ =~= before.restrict(Set::new(|seen: u32| seen < start || seen >= index)),
            !open ==> stored@ =~= without_range(before, start, end),
        decreases (end - index) + (if open {
            1int
        } else {
            0int
        }),
    {
        stored.remove(&index);
        if index == end {
            open = false;
        } else {
            index += 1;
        }
    }
}

/// Finds the indexes of stored shreds that start the slot or follow a boundary.
pub(crate) fn find_anchored_starts<V>(stored: &HashMap<u32, V>, boundaries: &IndexSet) -> (r: IndexSet)
    ensures
        r@ == anchored_starts(stored@, boundaries@),
{
    let list = boundaries.indices();
    let mut starts = IndexSet::new();
    if stored.contains_key(&0) {
        starts.insert(0);
    }
    let ghost base = starts@;
    let mut i: usize = 0;
    while i < list.len()
        invariant
            i <= list@.len(),
            forall|index: u32| #[trigger]
                starts@.contains(index) <==> base.contains(index) || (stored@.contains_key(index)
                    && index > 0 && list@.take(i as int).contains((index - 1) as u32)),
        decreases list@.len() - i,
    {
        let boundary: u32 = list[i];
        proof {
            assert forall|b: u32| list@.take(i + 1).contains(b) <==> list@.take(i as int).contains(b)
                || b == boundary by {
                if list@.take(i + 1).contains(b) {
                    let k = choose|k: int| 0 <= k < i + 1 && #[trigger] list@.take(i + 1)[k] == b;
                    if k < i {
                        assert(list@.take(i as int)[k] == b);
                    }
                }
                if list@.take(i as int).contains(b) {
                    let k = choose|k: int| 0 <= k < i && #[trigger] list@.take(i as int)[k] == b;
                    assert(list@.take(i + 1)[k] == b);
                }
                if b == boundary {
                    assert(list@.take(i + 1)[i as int] == b);
                }
            }
        }
        let ghost known = starts@;
        if boundary < u32::MAX && stored.contains_key(&(boundary + 1)) {
            starts.insert(boundary + 1);
        }
        proof {
            assert forall|index: u32| #[trigger]
                starts@.contains(index) <==> base.contains(index) || (stored@.contains_key(index)
                    && index > 0 && list@.take(i + 1).contains((index - 1) as u32)) by {
                assert(known.contains(index) <==> base.contains(index) || (stored@.contains_key(index)
                    && index > 0 && list@.take(i as int).contains((index - 1) as u32)));
                if index > 0 {
                    let b = (index - 1) as u32;
                    assert(list@.take(i + 1).contains(b) <==> list@.take(i as int).contains(b)
                        || b == boundary);
                }
            }
        }
        i += 1;
    }
    proof {
        assert(list@.take(i as int) =~= list@);
        assert forall|index: u32| #[trigger] starts@.contains(index) <==> anchored_starts(
            stored@,
            boundaries@,
        ).contains(index) by {
            if index > 0 {
                assert(list@.to_set().contains((index - 1) as u32) <==> boundaries@.contains(
                    (index - 1) as u32,
                ));
            }
        }
        assert(starts@ =~= anchored_starts(stored@, boundaries@));
    }
    starts
}

/// The run around an index starts at the lowest index from which on everything up to that one is stored:
/// before it something is missing, or nothing comes before it.
pub proof fn run_starts_behind_a_gap<V>(stored: Map<u32, V>, index: u32)
    ensures
        run_start(stored, index) <= index,
        forall|inside: u32|
            run_start(stored, index) <= inside < index ==> #[trigger] stored.contains_key(inside),
        run_start(stored, index) > 0 ==> !stored.contains_key((run_start(stored, index) - 1) as u32),
    decreases index,
{
    if index > 0 && stored.contains_key((index - 1) as u32) {
        run_starts_behind_a_gap(stored, (index - 1) as u32);
        assert forall|inside: u32| run_start(stored, index) <= inside < index implies #[trigger] stored.contains_key(
            inside,
        ) by {
            if inside == index - 1 {
                assert(stored.contains_key((index - 1) as u32));
            }
        }
    }
}

/// What is left without a range is what was stored outside of it, each as it was; a set may start at what
/// is stored first of all or right behind a boundary.
pub proof fn ranges_are_taken_out<V>(stored: Map<u32, V>, boundaries: Set<u32>, start: u32, end: u32, index: u32)
    ensures
        without_range(stored, start, end).contains_key(index) <==> stored.contains_key(index) && !(start
            <= index <= end),
        without_range(stored, start, end).contains_key(index) ==> without_range(stored, start, end)[index]
            == stored[index],
        anchored_starts(stored, boundaries).contains(index) ==> stored.contains_key(index),
        index == 0 ==> (anchored_starts(stored, boundaries).contains(index) <==> stored.contains_key(index)),
        index > 0 && stored.contains_key(index) ==> (anchored_starts(stored, boundaries).contains(index)
            <==> boundaries.contains((index - 1) as u32)),
        has_all(stored, start, end) && start <= index <= end ==> stored.contains_key(index),
{
}

} // verus!

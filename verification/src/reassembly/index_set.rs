//! Sets of shred indexes, kept in ascending order.
use vstd::prelude::*;

verus! {

/// Whether a list of indexes is strictly ascending.
pub open spec fn ascending(list: Seq<u32>) -> bool {
    forall|i: int, j: int| 0 <= i < j < list.len() ==> (#[trigger] list[i]) < (#[trigger] list[j])
}

/// Whether a list holds the indexes of a set in ascending order.
pub open spec fn lists_ascending(list: Seq<u32>, set: Set<u32>) -> bool {
    ascending(list) && list.to_set() == set
}

/// The indexes of a finite set in ascending order.
pub open spec fn listed(set: Set<u32>) -> Seq<u32> {
    choose|list: Seq<u32>| lists_ascending(list, set)
}

/// A set has only one ascending list.
pub proof fn listing_is_unique(a: Seq<u32>, b: Seq<u32>)
    requires
        ascending(a),
        ascending(b),
        a.to_set() == b.to_set(),
    ensures
        a == b,
    decreases a.len(),
{
    assert(forall|x: u32| a.to_set().contains(x) <==> b.to_set().contains(x));
    if a.len() == 0 {
        if b.len() > 0 {
            assert(b.to_set().contains(b[0]));
            assert(a.contains(b[0]));
        }
        assert(a =~= b);
    } else {
        assert(a.to_set().contains(a.last()));
        assert(b.contains(a.last()));
        assert(b.to_set().contains(b.last()));
        assert(a.contains(b.last()));
        let i = choose|i: int| 0 <= i < b.len() && b[i] == a.last();
        let j = choose|j: int| 0 <= j < a.len() && a[j] == b.last();
        assert(a.last() == b.last()) by {
            if i < b.len() - 1 {
                assert(b[i] < b[b.len() - 1]);
            }
            if j < a.len() - 1 {
                assert(a[j] < a[a.len() - 1]);
            }
        }
        let x = a.drop_last();
        let y = b.drop_last();
        assert forall|k: u32| x.to_set().contains(k) <==> y.to_set().contains(k) by {
            if x.contains(k) {
                let n = choose|n: int| 0 <= n < x.len() && x[n] == k;
                assert(a[n] == k && a[n] < a[a.len() - 1]);
                assert(a.to_set().contains(k));
                let m = choose|m: int| 0 <= m < b.len() && b[m] == k;
                assert(y[m] == k);
            }
            if y.contains(k) {
                let n = choose|n: int| 0 <= n < y.len() && y[n] == k;
                assert(b[n] == k && b[n] < b[b.len() - 1]);
                assert(b.to_set().contains(k));
                let m = choose|m: int| 0 <= m < a.len() && a[m] == k;
                assert(x[m] == k);
            }
        }
        assert(x.to_set() =~= y.to_set());
        listing_is_unique(x, y);
        assert(a =~= x.push(a.last()));
        assert(b =~= y.push(b.last()));
    }
}

/// An ascending list is the listing of its set.
pub proof fn ascending_is_listed(list: Seq<u32>)
    requires
        ascending(list),
    ensures
        listed(list.to_set()) == list,
{
    assert(lists_ascending(list, list.to_set()));
    let chosen = listed(list.to_set());
    assert(lists_ascending(chosen, list.to_set()));
    listing_is_unique(chosen, list);
}

/// Every finite set has an ascending list.
pub proof fn finite_set_is_listed(set: Set<u32>)
    requires
        set.finite(),
    ensures
        lists_ascending(listed(set), set),
    decreases set.len(),
{
    if set.len() == 0 {
        assert(set =~= Set::<u32>::empty());
        let list = Seq::<u32>::empty();
        assert(list.to_set() =~= set);
        assert(lists_ascending(list, set));
    } else {
        highest_exists(set);
        let highest = choose|index: u32| is_highest(set, index);
        let rest = set.remove(highest);
        finite_set_is_listed(rest);
        let fewer = listed(rest);
        let list = fewer.push(highest);
        assert forall|i: int, j: int| 0 <= i < j < list.len() implies (#[trigger] list[i]) < (
        #[trigger] list[j]) by {
            assert(fewer.to_set().contains(fewer[i]));
            assert(rest.contains(list[i]));
            if j < fewer.len() {
                assert(fewer[i] < fewer[j]);
            }
        }
        assert forall|index: u32| list.to_set().contains(index) <==> set.contains(index) by {
            if list.contains(index) {
                let k = choose|k: int| 0 <= k < list.len() && list[k] == index;
                if k < fewer.len() {
                    assert(fewer[k] == index);
                    assert(fewer.to_set().contains(index));
                }
            }
            if set.contains(index) {
                if index == highest {
                    assert(list[fewer.len() as int] == index);
                } else {
                    assert(fewer.to_set().contains(index));
                    let k = choose|k: int| 0 <= k < fewer.len() && fewer[k] == index;
                    assert(list[k] == index);
                }
            }
        }
        assert(list.to_set() =~= set);
        assert(lists_ascending(list, set));
    }
}

spec fn is_highest(set: Set<u32>, index: u32) -> bool {
    set.contains(index) && forall|other: u32| #[trigger] set.contains(other) ==> other <= index
}

proof fn highest_exists(set: Set<u32>)
    requires
        set.finite(),
        set.len() > 0,
    ensures
        exists|index: u32| is_highest(set, index),
    decreases set.len(),
{
    let some = set.choose();
    let rest = set.remove(some);
    if rest.len() == 0 {
        assert(rest =~= Set::<u32>::empty());
        assert forall|other: u32| #[trigger] set.contains(other) implies other <= some by {
            if other != some {
                assert(rest.contains(other));
            }
        }
        assert(is_highest(set, some));
    } else {
        highest_exists(rest);
        let high = choose|index: u32| is_highest(rest, index);
        let best = if some >= high {
            some
        } else {
            high
        };
        assert forall|other: u32| #[trigger] set.contains(other) implies other <= best by {
            if other != some {
                assert(rest.contains(other));
            }
        }
        assert(is_highest(set, best));
    }
}

/// Whether `p` is the largest index of a set below `index`.
pub open spec fn is_predecessor(set: Set<u32>, index: u32, p: u32) -> bool {
    &&& set.contains(p)
    &&& p < index
    &&& forall|other: u32| #[trigger] set.contains(other) && other < index ==> other <= p
}

/// A set of indexes.
#[derive(Debug)]
pub struct IndexSet {
    list: Vec<u32>,
}

impl View for IndexSet {
    type V = Set<u32>;

    closed spec fn view(&self) -> Set<u32> {
        self.list@.to_set()
    }
}

impl IndexSet {
    #[verifier::type_invariant]
    spec fn sorted(self) -> bool {
        ascending(self.list@)
    }

    /// An empty set.
    pub fn new() -> (r: Self)
        ensures
            r@ == Set::<u32>::empty(),
    {
        let set = IndexSet { list: Vec::new() };
        assert(set.list@.to_set() =~= Set::<u32>::empty());
        set
    }

    /// The position of the first index that is not below `index`.
    fn position(&self, index: u32) -> (r: usize)
        ensures
            r <= self.list@.len(),
            forall|i: int| 0 <= i < r ==> (#[trigger] self.list@[i]) < index,
            forall|i: int| r <= i < self.list@.len() ==> (#[trigger] self.list@[i]) >= index,
    {
        proof {
            use_type_invariant(self);
        }
        let mut low: usize = 0;
        let mut high: usize = self.list.len();
        while low < high
            invariant
                low <= high <= self.list@.len(),
                ascending(self.list@),
                forall|i: int| 0 <= i < low ==> (#[trigger] self.list@[i]) < index,
                forall|i: int| high <= i < self.list@.len() ==> (#[trigger] self.list@[i]) >= index,
            decreases high - low,
        {
            let middle: usize = low + (high - low) / 2;
            if self.list[middle] < index {
                assert forall|i: int| 0 <= i < middle + 1 implies (#[trigger] self.list@[i]) < index by {
                    if i < middle {
                        assert(self.list@[i] < self.list@[middle as int]);
                    }
                }
                low = middle + 1;
            } else {
                assert forall|i: int| middle <= i < self.list@.len() implies (#[trigger] self.list@[i]) >= index by {
                    if i > middle {
                        assert(self.list@[middle as int] < self.list@[i]);
                    }
                }
                high = middle;
            }
        }
        low
    }

    /// Whether the set holds `index`.
    pub fn contains(&self, index: u32) -> (r: bool)
        ensures
            r == self@.contains(index),
    {
        let at: usize = self.position(index);
        let found: bool = at < self.list.len() && self.list[at] == index;
        proof {
            if self.list@.contains(index) {
                let i = choose|i: int| 0 <= i < self.list@.len() && self.list@[i] == index;
                use_type_invariant(self);
                if i > at {
                    assert(self.list@[at as int] < self.list@[i]);
                }
            }
            if found {
                assert(self.list@[at as int] == index);
            }
        }
        found
    }

    /// Adds `index`.
    pub fn insert(&mut self, index: u32)
        ensures
            final(self)@ == old(self)@.insert(index),
    {
        proof {
            use_type_invariant(&*self);
        }
        let at: usize = self.position(index);
        let ghost before = self.list@;
        if at < self.list.len() && self.list[at] == index {
            assert(before.contains(before[at as int]));
            assert(self@ =~= old(self)@.insert(index));
            return;
        }
        let ghost after = before.insert(at as int, index);
        proof {
            assert forall|i: int, j: int| 0 <= i < j < after.len() implies (#[trigger] after[i]) < (
            #[trigger] after[j]) by {
                let bi = if i < at {
                    i
                } else {
                    i - 1
                };
                let bj = if j < at {
                    j
                } else {
                    j - 1
                };
                if i != at && j != at {
                    assert(before[bi] < before[bj]);
                    assert(after[i] == before[bi] && after[j] == before[bj]);
                } else if i == at {
                    assert(after[j] == before[bj]);
                    assert(before[at as int] >= index && before[at as int] != index);
                    if bj > at {
                        assert(before[at as int] < before[bj]);
                    }
                } else {
                    assert(after[i] == before[bi]);
                }
            }
            assert forall|x: u32| after.to_set().contains(x) <==> before.to_set().insert(index).contains(x) by {
                if after.contains(x) {
                    let k = choose|k: int| 0 <= k < after.len() && after[k] == x;
                    if k < at {
                        assert(before[k] == x);
                    } else if k > at {
                        assert(before[k - 1] == x);
                    }
                }
                if before.contains(x) {
                    let k = choose|k: int| 0 <= k < before.len() && before[k] == x;
                    if k < at {
                        assert(after[k] == x);
                    } else {
                        assert(after[k + 1] == x);
                    }
                }
                assert(after[at as int] == index);
            }
            assert(after.to_set() =~= before.to_set().insert(index));
        }
        let mut list: Vec<u32> = Vec::new();
        std::mem::swap(&mut self.list, &mut list);
        list.insert(at, index);
        self.list = list;
    }

    /// Removes `index`, if it is there.
    pub fn remove(&mut self, index: u32)
        ensures
            final(self)@ == old(self)@.remove(index),
    {
        proof {
            use_type_invariant(&*self);
        }
        let at: usize = self.position(index);
        let ghost before = self.list@;
        if !(at < self.list.len() && self.list[at] == index) {
            proof {
                if before.contains(index) {
                    let i = choose|i: int| 0 <= i < before.len() && before[i] == index;
                    if i > at {
                        assert(before[at as int] < before[i]);
                    }
                }
                assert(self@ =~= old(self)@.remove(index));
            }
            return;
        }
        let ghost after = before.remove(at as int);
        proof {
            assert forall|i: int, j: int| 0 <= i < j < after.len() implies (#[trigger] after[i]) < (
            #[trigger] after[j]) by {
                let bi = if i < at {
                    i
                } else {
                    i + 1
                };
                let bj = if j < at {
                    j
                } else {
                    j + 1
                };
                assert(before[bi] < before[bj]);
                assert(after[i] == before[bi] && after[j] == before[bj]);
            }
            assert forall|x: u32| after.to_set().contains(x) <==> before.to_set().remove(index).contains(x) by {
                if after.contains(x) {
                    let k = choose|k: int| 0 <= k < after.len() && after[k] == x;
                    let bk = if k < at {
                        k
                    } else {
                        k + 1
                    };
                    assert(before[bk] == x);
                    if k < at {
                        assert(before[bk] < before[at as int]);
                    } else {
                        assert(before[at as int] < before[bk]);
                    }
                }
                if before.contains(x) && x != index {
                    let k = choose|k: int| 0 <= k < before.len() && before[k] == x;
                    if k < at {
                        assert(after[k] == x);
                    } else {
                        assert(k != at);
                        assert(after[k - 1] == x);
                    }
                }
            }
            assert(after.to_set() =~= before.to_set().remove(index));
        }
        let mut list: Vec<u32> = Vec::new();
        std::mem::swap(&mut self.list, &mut list);
        list.remove(at);
        self.list = list;
    }

    /// The largest index below `index`.
    pub fn predecessor(&self, index: u32) -> (r: Option<u32>)
        ensures
            match r {
                Some(p) => is_predecessor(self@, index, p),
                None => forall|other: u32| #[trigger] self@.contains(other) ==> other >= index,
            },
    {
        let at: usize = self.position(index);
        proof {
            use_type_invariant(self);
            assert forall|other: u32| #[trigger] self@.contains(other) && other < index implies at > 0 && other
                <= self.list@[at - 1] by {
                let k = choose|k: int| 0 <= k < self.list@.len() && self.list@[k] == other;
                if k >= at {
                    assert(self.list@[k] >= index);
                } else if k < at - 1 {
                    assert(self.list@[k] < self.list@[at - 1]);
                }
            }
        }
        if at == 0 {
            None
        } else {
            assert(self.list@.contains(self.list@[at - 1]));
            Some(self.list[at - 1])
        }
    }

    /// The indexes in ascending order.
    pub fn indices(&self) -> (r: Vec<u32>)
        ensures
            r@ == listed(self@),
            lists_ascending(r@, self@),
    {
        proof {
            use_type_invariant(self);
            ascending_is_listed(self.list@);
        }
        vstd::slice::slice_to_vec(self.list.as_slice())
    }

    /// Whether the set holds nothing.
    pub fn is_empty(&self) -> (r: bool)
        ensures
            r == (self@ == Set::<u32>::empty()),
    {
        let empty: bool = self.list.len() == 0;
        proof {
            if empty {
                assert(self@ =~= Set::<u32>::empty());
            } else {
                assert(self.list@.contains(self.list@[0]));
                assert(self@.contains(self.list@[0]));
            }
        }
        empty
    }

    /// Removes the indexes from `start` to `end`, both included.
    pub fn remove_range(&mut self, start: u32, end: u32)
        ensures
            final(self)@ == old(self)@.filter(|index: u32| index < start || index > end),
    {
        proof {
            use_type_invariant(&*self);
        }
        let ghost before = self.list@;
        let mut kept: Vec<u32> = Vec::new();
        let mut i: usize = 0;
        while i < self.list.len()
            invariant
                i <= self.list@.len(),
                self.list@ == before,
                ascending(before),
                ascending(kept@),
                forall|k: int| 0 <= k < kept@.len() && i < before.len() ==> (#[trigger] kept@[k]) < before[i as int],
                forall|x: u32| #[trigger]
                    kept@.contains(x) ==> before.contains(x) && (x < start || x > end),
                forall|k: int|
                    0 <= k < i && ((#[trigger] before[k]) < start || before[k] > end) ==> kept@.contains(before[k]),
            decreases self.list@.len() - i,
        {
            let index: u32 = self.list[i];
            let ghost previous = kept@;
            if index < start || index > end {
                kept.push(index);
            }
            proof {
                assert forall|k: int| 0 <= k < kept@.len() && i + 1 < before.len() implies (#[trigger] kept@[k])
                    < before[i + 1] by {
                    assert(before[i as int] < before[i + 1]);
                    if k < previous.len() {
                        assert(kept@[k] == previous[k]);
                    }
                }
                assert forall|x: u32| #[trigger] kept@.contains(x) implies before.contains(x) && (x < start || x
                    > end) by {
                    let k = choose|k: int| 0 <= k < kept@.len() && kept@[k] == x;
                    if k < previous.len() {
                        assert(previous[k] == x);
                        assert(previous.contains(x));
                    } else {
                        assert(before[i as int] == x);
                    }
                }
                assert forall|k: int|
                    0 <= k < i + 1 && ((#[trigger] before[k]) < start || before[k] > end) implies kept@.contains(
                    before[k],
                ) by {
                    if k < i {
                        assert(previous.contains(before[k]));
                        let n = choose|n: int| 0 <= n < previous.len() && previous[n] == before[k];
                        assert(kept@[n] == before[k]);
                    } else {
                        assert(kept@[kept@.len() - 1] == before[k]);
                    }
                }
            }
            i += 1;
        }
        proof {
            let want = before.to_set().filter(|index: u32| index < start || index > end);
            assert forall|x: u32| kept@.to_set().contains(x) <==> want.contains(x) by {
                if before.contains(x) && (x < start || x > end) {
                    let k = choose|k: int| 0 <= k < before.len() && before[k] == x;
                    assert(kept@.contains(before[k]));
                }
            }
            assert(kept@.to_set() =~= want);
        }
        self.list = kept;
    }
}

/// A set of indexes is finite.
pub proof fn index_set_is_finite(set: IndexSet)
    ensures
        set@.finite(),
{
    vstd::seq_lib::seq_to_set_is_finite(set.list@);
}

} // verus!

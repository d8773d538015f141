//! When a forward error correction set has all its data shreds.
use crate::reassembly::index_set::IndexSet;
use vstd::prelude::*;

verus! {

/// What is known of a forward error correction set.
#[derive(Debug)]
pub struct InlineFecSetState {
    /// Index of its first data shred.
    pub fec_set_index: u32,
    /// Data shreds that were observed.
    pub observed_indices: IndexSet,
    /// The number of data shreds, as its code shreds give it.
    pub expected_num_data_shreds: Option<u16>,
    /// The lowest of its data shreds that ends a data set.
    pub terminal_data_index: Option<u32>,
    /// Whether all data shreds were there at one time.
    pub ready: bool,
}

/// What is known of a forward error correction set, in specifications.
pub struct FecView {
    /// Index of its first data shred.
    pub first: u32,
    /// Data shreds that were observed.
    pub observed: Set<u32>,
    /// The number of data shreds, as its code shreds give it.
    pub expected: Option<u16>,
    /// The lowest of its data shreds that ends a data set.
    pub terminal: Option<u32>,
    /// Whether all data shreds were there at one time.
    pub ready: bool,
}

impl View for InlineFecSetState {
    type V = FecView;

    open spec fn view(&self) -> FecView {
        FecView {
            first: self.fec_set_index,
            observed: self.observed_indices@,
            expected: self.expected_num_data_shreds,
            terminal: self.terminal_data_index,
            ready: self.ready,
        }
    }
}

impl FecView {
    /// A set of which nothing is known but where it starts.
    pub open spec fn empty(first: u32) -> Self {
        FecView { first, observed: Set::empty(), expected: None, terminal: None, ready: false }
    }

    /// Index of the last data shred, as far as it is known.
    pub open spec fn end(self) -> Option<u32> {
        match (self.terminal, self.expected) {
            (Some(terminal), _) => Some(terminal),
            (None, Some(count)) => if count > 0 && self.first + count - 1 <= u32::MAX {
                Some((self.first + count - 1) as u32)
            } else {
                None
            },
            (None, None) => None,
        }
    }

    /// Whether the last data shred is known, and all up to it were observed.
    pub open spec fn is_full(self) -> bool {
        &&& self.end() is Some
        &&& forall|index: u32|
            self.first <= index <= self.end()->0 ==> #[trigger] self.observed.contains(index)
    }

    /// Whether the set becomes ready.
    pub open spec fn becomes_ready(self) -> bool {
        !self.ready && self.is_full()
    }

    /// The set, marked as ready if all is there.
    pub open spec fn settled(self) -> Self {
        FecView { ready: self.ready || self.is_full(), ..self }
    }

    /// The set with a data shred noted.
    pub open spec fn with_data(self, index: u32, boundary: bool) -> Self {
        FecView {
            observed: self.observed.insert(index),
            terminal: if boundary {
                match self.terminal {
                    Some(known) if known < index => Some(known),
                    _ => Some(index),
                }
            } else {
                self.terminal
            },
            ..self
        }
    }

    /// The set with the count of a code shred noted.
    pub open spec fn with_code(self, count: u16) -> Self {
        FecView { expected: Some(count), ..self }
    }

    /// The set without the data shreds from `start` to `end`.
    pub open spec fn without(self, start: u32, end: u32) -> Self {
        let left = self.observed.filter(|index: u32| index < start || index > end);
        FecView {
            observed: left,
            terminal: match self.terminal {
                Some(terminal) if start <= terminal <= end => None,
                other => other,
            },
            ready: self.ready && !left.is_empty(),
            ..self
        }
    }
}

impl InlineFecSetState {
    /// A set of which nothing is known but where it starts.
    pub fn new(fec_set_index: u32) -> (r: Self)
        ensures
            r@ == FecView::empty(fec_set_index),
    {
        InlineFecSetState {
            fec_set_index,
            observed_indices: IndexSet::new(),
            expected_num_data_shreds: None,
            terminal_data_index: None,
            ready: false,
        }
    }

    /// Notes a data shred, and says whether the set became ready.
    pub fn observe_data_shred(&mut self, index: u32, boundary: bool) -> (r: bool)
        ensures
            final(self)@ == old(self)@.with_data(index, boundary).settled(),
            r == old(self)@.with_data(index, boundary).becomes_ready(),
    {
        self.observed_indices.insert(index);
        if boundary {
            self.terminal_data_index = match self.terminal_data_index {
                Some(known) => if known < index {
                    Some(known)
                } else {
                    Some(index)
                },
                None => Some(index),
            };
        }
        self.try_mark_ready()
    }

    /// Notes the count of a code shred, and says whether the set became ready.
    pub fn observe_code_shred(&mut self, num_data_shreds: u16) -> (r: bool)
        ensures
            final(self)@ == old(self)@.with_code(num_data_shreds).settled(),
            r == old(self)@.with_code(num_data_shreds).becomes_ready(),
    {
        self.expected_num_data_shreds = Some(num_data_shreds);
        self.try_mark_ready()
    }

    /// Forgets the data shreds from `start_index` to `end_index`.
    pub fn retain_outside_range(&mut self, start_index: u32, end_index: u32)
        ensures
            final(self)@ == old(self)@.without(start_index, end_index),
    {
        let ghost before = self@;
        self.observed_indices.remove_range(start_index, end_index);
        let retired: bool = match self.terminal_data_index {
            Some(terminal) => terminal >= start_index && terminal <= end_index,
            None => false,
        };
        if retired {
            self.terminal_data_index = None;
        }
        if self.observed_indices.is_empty() {
            self.ready = false;
        }
        assert(self@.observed =~= before.without(start_index, end_index).observed);
    }

    fn try_mark_ready(&mut self) -> (r: bool)
        ensures
            final(self)@ == old(self)@.settled(),
            r == old(self)@.becomes_ready(),
    {
        if self.ready {
            return false;
        }
        let end: u32 = match self.end_index() {
            Some(end) => end,
            None => {
                return false;
            },
        };
        if self.has_data_to(end) {
            self.ready = true;
            return true;
        }
        false
    }

    fn has_data_to(&self, end: u32) -> (r: bool)
        ensures
            r == forall|index: u32|
                self.fec_set_index <= index <= end ==> #[trigger] self@.observed.contains(index),
    {
        if self.fec_set_index > end {
            return true;
        }
        let mut index: u32 = self.fec_set_index;
        loop
            invariant
                self.fec_set_index <= index <= end,
                forall|seen: u32|
                    self.fec_set_index <= seen < index ==> #[trigger] self@.observed.contains(seen),
            decreases end - index,
        {
            if !self.observed_indices.contains(index) {
                assert(!self@.observed.contains(index));
                return false;
            }
            if index == end {
                return true;
            }
            index += 1;
        }
    }

    fn end_index(&self) -> (r: Option<u32>)
        ensures
            r == self@.end(),
    {
        match (self.terminal_data_index, self.expected_num_data_shreds) {
            (Some(terminal), _) => Some(terminal),
            (None, Some(count)) => if count > 0 && count as u32 - 1 <= u32::MAX - self.fec_set_index {
                Some(self.fec_set_index + (count as u32 - 1))
            } else {
                None
            },
            (None, None) => None,
        }
    }
}

/// A set reports that it became ready only once: noting anything more of it does not report it
/// again, as long as nothing is taken out of it.
pub proof fn ready_is_reported_once(set: FecView, index: u32, boundary: bool, count: u16)
    requires
        set.ready,
    ensures
        !set.with_data(index, boundary).becomes_ready(),
        !set.with_code(count).becomes_ready(),
        set.with_data(index, boundary).settled().ready,
        set.with_code(count).settled().ready,
{
}

/// Whether `end` is known to be the last data shred of a set: a shred that ends a data set says so, or
/// else the count of a code shred does.
pub open spec fn is_known_end(set: FecView, end: int) -> bool {
    ||| set.terminal is Some && set.terminal->0 == end
    ||| set.terminal is None && set.expected is Some && set.expected->0 > 0 && end == set.first
        + set.expected->0 - 1 && end <= u32::MAX
}

/// A data shred reports that its set became ready exactly if the set was not ready before, its last
/// data shred is known then, and every data shred from the first to the last one was observed by then.
/// The shred counts as observed from then on; where it ends a data set, the set ends there or at a
/// lower one that ended a data set before.
pub proof fn data_shred_readies_a_full_set(set: FecView, index: u32, boundary: bool)
    ensures
        ({
            let noted = set.with_data(index, boundary);
            let after = noted.settled();
            &&& after.first == set.first
            &&& after.expected == set.expected
            &&& forall|x: u32| #[trigger] after.observed.contains(x) <==> set.observed.contains(x) || x == index
            &&& !boundary ==> after.terminal == set.terminal
            &&& boundary ==> after.terminal is Some && after.terminal->0 <= index
            &&& boundary && set.terminal is Some ==> after.terminal->0 <= set.terminal->0
            &&& boundary ==> after.terminal == Some(index) || after.terminal == set.terminal
            &&& noted.becomes_ready() <==> !set.ready && exists|end: int| #[trigger]
                is_known_end(after, end) && forall|x: u32|
                    set.first <= x <= end ==> #[trigger] after.observed.contains(x)
            &&& after.ready <==> set.ready || noted.becomes_ready()
        }),
{
    let noted = set.with_data(index, boundary);
    let after = noted.settled();
    if noted.end() is Some {
        assert(is_known_end(after, noted.end()->0 as int));
    }
    if exists|end: int| #[trigger]
        is_known_end(after, end) && forall|x: u32| set.first <= x <= end ==> #[trigger] after.observed.contains(x) {
        let end = choose|end: int| #[trigger]
            is_known_end(after, end) && forall|x: u32| set.first <= x <= end ==> #[trigger] after.observed.contains(x);
        assert(noted.end() == Some(end as u32));
    }
}

/// A code shred reports that its set became ready exactly if the set was not ready before, its last
/// data shred is known then, and every data shred from the first to the last one was observed before.
pub proof fn code_shred_readies_a_full_set(set: FecView, count: u16)
    ensures
        ({
            let noted = set.with_code(count);
            let after = noted.settled();
            &&& after.first == set.first
            &&& after.expected == Some(count)
            &&& after.observed == set.observed
            &&& after.terminal == set.terminal
            &&& noted.becomes_ready() <==> !set.ready && exists|end: int| #[trigger]
                is_known_end(after, end) && forall|x: u32|
                    set.first <= x <= end ==> #[trigger] set.observed.contains(x)
            &&& after.ready <==> set.ready || noted.becomes_ready()
        }),
{
    let noted = set.with_code(count);
    let after = noted.settled();
    if noted.end() is Some {
        assert(is_known_end(after, noted.end()->0 as int));
    }
    if exists|end: int| #[trigger]
        is_known_end(after, end) && forall|x: u32| set.first <= x <= end ==> #[trigger] set.observed.contains(x) {
        let end = choose|end: int| #[trigger]
            is_known_end(after, end) && forall|x: u32| set.first <= x <= end ==> #[trigger] set.observed.contains(x);
        assert(noted.end() == Some(end as u32));
    }
}

/// Forgetting a stretch of data shreds forgets those and no others, forgets the end of the set if it
/// lies in the stretch, and makes a set ready to be reported again exactly if nothing of it is left.
pub proof fn forgotten_shreds_are_gone(set: FecView, start: u32, end: u32)
    ensures
        ({
            let after = set.without(start, end);
            &&& after.first == set.first
            &&& after.expected == set.expected
            &&& forall|x: u32| #[trigger]
                after.observed.contains(x) <==> set.observed.contains(x) && !(start <= x <= end)
            &&& after.terminal == if set.terminal is Some && start <= set.terminal->0 <= end {
                None
            } else {
                set.terminal
            }
            &&& after.ready <==> set.ready && exists|x: u32|
                #[trigger] set.observed.contains(x) && !(start <= x <= end)
        }),
{
    let after = set.without(start, end);
    if exists|x: u32| #[trigger] set.observed.contains(x) && !(start <= x <= end) {
        let x = choose|x: u32| #[trigger] set.observed.contains(x) && !(start <= x <= end);
        assert(after.observed.contains(x));
    } else {
        assert(after.observed =~= Set::<u32>::empty());
    }
}

/// Nothing is known of a new set but where it starts.
pub proof fn new_set_is_unknown(first: u32)
    ensures
        FecView::empty(first).first == first,
        !FecView::empty(first).ready,
        forall|x: u32| !#[trigger] FecView::empty(first).observed.contains(x),
        forall|end: int| !#[trigger] is_known_end(FecView::empty(first), end),
{
}

} // verus!

//! Payload fragments that share their bytes, and batches of them.
use crate::bytes::share_bytes;
use std::sync::Arc;
use vstd::prelude::*;

verus! {

/// A stretch of shared bytes.
#[derive(Debug, PartialEq, Eq)]
pub struct SharedPayloadFragment {
    bytes: Arc<[u8]>,
    offset: u32,
    len: u32,
}

impl View for SharedPayloadFragment {
    type V = Seq<u8>;

    closed spec fn view(&self) -> Seq<u8> {
        self.bytes@.subrange(self.offset as int, self.offset + self.len)
    }
}

impl Clone for SharedPayloadFragment {
    fn clone(&self) -> (r: Self)
        ensures
            r@ == self@,
    {
        proof {
            use_type_invariant(self);
        }
        SharedPayloadFragment { bytes: self.bytes.clone(), offset: self.offset, len: self.len }
    }
}

impl SharedPayloadFragment {
    #[verifier::type_invariant]
    spec fn in_bounds(self) -> bool {
        self.offset + self.len <= self.bytes@.len()
    }

    /// The `len` bytes at `offset`, if they are there and both numbers fit thirty-two bits.
    pub fn borrowed(bytes: Arc<[u8]>, offset: usize, len: usize) -> (r: Option<Self>)
        ensures
            match r {
                Some(fragment) => {
                    &&& offset + len <= bytes@.len()
                    &&& offset <= u32::MAX
                    &&& len <= u32::MAX
                    &&& fragment@ == bytes@.subrange(offset as int, offset + len)
                },
                None => offset + len > bytes@.len() || offset > u32::MAX || len > u32::MAX,
            },
    {
        if offset > bytes.len() {
            return None;
        }
        if len > bytes.len() - offset {
            return None;
        }
        if offset > 0xffff_ffff || len > 0xffff_ffff {
            return None;
        }
        Some(SharedPayloadFragment { bytes, offset: offset as u32, len: len as u32 })
    }

    /// All bytes of a vector, or its first `u32::MAX` bytes if it is longer.
    pub fn owned(bytes: Vec<u8>) -> (r: Self)
        ensures
            r@ == if bytes@.len() <= u32::MAX {
                bytes@
            } else {
                bytes@.take(u32::MAX as int)
            },
    {
        let len: u32 = if bytes.len() <= 0xffff_ffff {
            bytes.len() as u32
        } else {
            0xffff_ffff
        };
        let fragment = SharedPayloadFragment { bytes: share_bytes(bytes), offset: 0, len };
        assert(fragment@ =~= bytes@.take(len as int));
        assert(bytes@.len() <= u32::MAX ==> bytes@.take(len as int) =~= bytes@);
        fragment
    }

    /// The bytes.
    pub fn as_slice(&self) -> (r: &[u8])
        ensures
            r@ == self@,
    {
        proof {
            use_type_invariant(self);
        }
        let start: usize = self.offset as usize;
        let total: usize = self.bytes.len();
        let end: usize = start + self.len as usize;
        vstd::slice::slice_subrange(&self.bytes, start, end)
    }

    /// The number of bytes.
    pub fn len(&self) -> (r: usize)
        ensures
            r == self@.len(),
    {
        proof {
            use_type_invariant(self);
        }
        self.len as usize
    }

    /// Whether there are no bytes.
    pub fn is_empty(&self) -> (r: bool)
        ensures
            r == (self@.len() == 0),
    {
        proof {
            use_type_invariant(self);
        }
        self.len == 0
    }
}

/// The number of bytes in a row of fragments.
pub open spec fn total_bytes(fragments: Seq<Seq<u8>>) -> nat
    decreases fragments.len(),
{
    if fragments.len() == 0 {
        0
    } else {
        fragments[0].len() + total_bytes(fragments.skip(1))
    }
}

/// A number of bytes, capped at what a `usize` holds.
pub open spec fn capped(bytes: nat) -> usize {
    if bytes <= usize::MAX {
        bytes as usize
    } else {
        usize::MAX
    }
}

/// The views of fragments.
pub open spec fn fragment_views(fragments: Seq<SharedPayloadFragment>) -> Seq<Seq<u8>> {
    fragments.map_values(|fragment: SharedPayloadFragment| fragment@)
}

/// Fragments in order, with the number of bytes from each of them on.
#[derive(Debug, PartialEq, Eq)]
pub struct PayloadFragmentBatch {
    fragments: Vec<SharedPayloadFragment>,
    total_len: usize,
    suffix_total_lens: Vec<usize>,
}

impl View for PayloadFragmentBatch {
    type V = Seq<Seq<u8>>;

    closed spec fn view(&self) -> Seq<Seq<u8>> {
        fragment_views(self.fragments@)
    }
}

impl Clone for PayloadFragmentBatch {
    fn clone(&self) -> (r: Self)
        ensures
            r@ == self@,
    {
        let mut fragments: Vec<SharedPayloadFragment> = Vec::with_capacity(self.fragments.len());
        let mut i: usize = 0;
        while i < self.fragments.len()
            invariant
                i <= self.fragments@.len(),
                fragments@.len() == i,
                forall|j: int| 0 <= j < i ==> (#[trigger] fragments@[j])@ == self.fragments@[j]@,
            decreases self.fragments@.len() - i,
        {
            fragments.push(self.fragments[i].clone());
            i += 1;
        }
        assert(fragment_views(fragments@) =~= fragment_views(self.fragments@));
        PayloadFragmentBatch::new(fragments)
    }
}

impl Default for PayloadFragmentBatch {
    fn default() -> (r: Self)
        ensures
            r@ == Seq::<Seq<u8>>::empty(),
    {
        PayloadFragmentBatch::new(Vec::new())
    }
}

impl PayloadFragmentBatch {
    #[verifier::type_invariant]
    spec fn counted(self) -> bool {
        &&& self.suffix_total_lens@.len() == self.fragments@.len()
        &&& forall|i: int|
            0 <= i < self.fragments@.len() ==> #[trigger] self.suffix_total_lens@[i] == capped(
                total_bytes(fragment_views(self.fragments@).skip(i)),
            )
        &&& self.total_len == capped(total_bytes(fragment_views(self.fragments@)))
    }

    /// Collects fragments.
    pub fn new(fragments: Vec<SharedPayloadFragment>) -> (r: Self)
        ensures
            r@ == fragment_views(fragments@),
    {
        let ghost views = fragment_views(fragments@);
        let n: usize = fragments.len();
        let mut backwards: Vec<usize> = Vec::with_capacity(n);
        let mut total_len: usize = 0;
        let mut i: usize = n;
        proof {
            assert(views.skip(n as int) =~= Seq::<Seq<u8>>::empty());
        }
        while i > 0
            invariant
                i <= n,
                n == fragments@.len(),
                views == fragment_views(fragments@),
                backwards@.len() == n - i,
                total_len == capped(total_bytes(views.skip(i as int))),
                forall|k: int|
                    0 <= k < backwards@.len() ==> #[trigger] backwards@[k] == capped(
                        total_bytes(views.skip(n - 1 - k)),
                    ),
            decreases i,
        {
            i -= 1;
            proof {
                assert(views.skip(i as int).skip(1) =~= views.skip(i + 1));
                assert(views.skip(i as int)[0] == fragments@[i as int]@);
            }
            total_len = total_len.saturating_add(fragments[i].len());
            backwards.push(total_len);
        }
        let mut suffix_total_lens: Vec<usize> = Vec::with_capacity(n);
        let mut k: usize = 0;
        while k < n
            invariant
                k <= n,
                n == fragments@.len(),
                backwards@.len() == n,
                forall|j: int|
                    0 <= j < n ==> #[trigger] backwards@[j] == capped(total_bytes(views.skip(n - 1 - j))),
                suffix_total_lens@.len() == k,
                forall|j: int|
                    0 <= j < k ==> #[trigger] suffix_total_lens@[j] == capped(total_bytes(views.skip(j))),
            decreases n - k,
        {
            let one: usize = backwards[n - 1 - k];
            suffix_total_lens.push(one);
            k += 1;
        }
        proof {
            assert(views.skip(0) =~= views);
        }
        PayloadFragmentBatch { fragments, total_len, suffix_total_lens }
    }

    /// Collects byte vectors as fragments of their own.
    pub fn from_owned_fragments(fragments: Vec<Vec<u8>>) -> (r: Self)
        ensures
            r@.len() == fragments@.len(),
            forall|i: int|
                0 <= i < fragments@.len() ==> #[trigger] r@[i] == if fragments@[i]@.len() <= u32::MAX {
                    fragments@[i]@
                } else {
                    fragments@[i]@.take(u32::MAX as int)
                },
    {
        let mut owned: Vec<SharedPayloadFragment> = Vec::with_capacity(fragments.len());
        let mut i: usize = 0;
        while i < fragments.len()
            invariant
                i <= fragments@.len(),
                owned@.len() == i,
                forall|j: int|
                    0 <= j < i ==> #[trigger] owned@[j]@ == if fragments@[j]@.len() <= u32::MAX {
                        fragments@[j]@
                    } else {
                        fragments@[j]@.take(u32::MAX as int)
                    },
            decreases fragments@.len() - i,
        {
            let fragment = SharedPayloadFragment::owned(vstd::slice::slice_to_vec(fragments[i].as_slice()));
            owned.push(fragment);
            i += 1;
        }
        proof {
            assert forall|j: int| 0 <= j < fragments@.len() implies #[trigger] fragment_views(owned@)[j]
                == owned@[j]@ by {}
        }
        PayloadFragmentBatch::new(owned)
    }

    /// The number of fragments.
    pub fn len(&self) -> (r: usize)
        ensures
            r == self@.len(),
    {
        self.fragments.len()
    }

    /// Whether there are no fragments.
    pub fn is_empty(&self) -> (r: bool)
        ensures
            r == (self@.len() == 0),
    {
        self.fragments.len() == 0
    }

    /// The number of bytes, capped at what a `usize` holds.
    pub fn total_len(&self) -> (r: usize)
        ensures
            r == capped(total_bytes(self@)),
    {
        proof {
            use_type_invariant(self);
        }
        self.total_len
    }

    /// The number of bytes from a fragment on, capped at what a `usize` holds.
    pub fn total_len_from(&self, start_index: usize) -> (r: Option<usize>)
        ensures
            r == if start_index < self@.len() {
                Some(capped(total_bytes(self@.skip(start_index as int))))
            } else {
                None
            },
    {
        proof {
            use_type_invariant(self);
        }
        if start_index < self.suffix_total_lens.len() {
            Some(self.suffix_total_lens[start_index])
        } else {
            None
        }
    }

    /// The fragments from one on, none where `start_index` lies behind the end.
    pub fn slice_from(&self, start_index: usize) -> (r: Option<&[SharedPayloadFragment]>)
        ensures
            match r {
                Some(rest) => start_index <= self@.len() && fragment_views(rest@) == self@.skip(
                    start_index as int,
                ),
                None => start_index > self@.len(),
            },
    {
        if start_index <= self.fragments.len() {
            let rest = vstd::slice::slice_subrange(
                self.fragments.as_slice(),
                start_index,
                self.fragments.len(),
            );
            assert(fragment_views(rest@) =~= self@.skip(start_index as int));
            Some(rest)
        } else {
            None
        }
    }

    /// The number of bytes of a fragment.
    pub fn fragment_len(&self, index: usize) -> (r: Option<usize>)
        ensures
            match r {
                Some(len) => index < self@.len() && len == self@[index as int].len(),
                None => index >= self@.len(),
            },
    {
        if index < self.fragments.len() {
            Some(self.fragments[index].len())
        } else {
            None
        }
    }

    /// The fragment at `start_index`, if it is the last one.
    pub fn single_fragment_from(&self, start_index: usize) -> (r: Option<&SharedPayloadFragment>)
        ensures
            match r {
                Some(fragment) => start_index + 1 == self@.len() && fragment@ == self@[start_index as int],
                None => start_index + 1 != self@.len(),
            },
    {
        if start_index < self.fragments.len() && self.fragments.len() - start_index == 1 {
            Some(&self.fragments[start_index])
        } else {
            None
        }
    }
}

/// The bytes of a row of fragments split at any fragment into those before and those after.
pub proof fn total_bytes_splits(fragments: Seq<Seq<u8>>, at: int)
    requires
        0 <= at <= fragments.len(),
    ensures
        total_bytes(fragments) == total_bytes(fragments.take(at)) + total_bytes(fragments.skip(at)),
    decreases at,
{
    if at == 0 {
        assert(fragments.take(0) =~= Seq::<Seq<u8>>::empty());
        assert(fragments.skip(0) =~= fragments);
    } else {
        let rest = fragments.skip(1);
        total_bytes_splits(rest, at - 1);
        assert(rest.skip(at - 1) =~= fragments.skip(at));
        assert(fragments.take(at).skip(1) =~= rest.take(at - 1));
        assert(fragments.take(at)[0] == fragments[0]);
    }
}

/// The bytes of a row of fragments are those of its fragments: none of no fragment, and with one
/// fragment more, that fragment's bytes more.
pub proof fn total_bytes_add_up(fragments: Seq<Seq<u8>>, more: Seq<u8>)
    ensures
        total_bytes(Seq::empty()) == 0,
        total_bytes(fragments.push(more)) == total_bytes(fragments) + more.len(),
    decreases fragments.len(),
{
    total_bytes_splits(fragments.push(more), fragments.len() as int);
    assert(fragments.push(more).take(fragments.len() as int) =~= fragments);
    let last = fragments.push(more).skip(fragments.len() as int);
    assert(last =~= seq![more]);
    assert(last.skip(1) =~= Seq::<Seq<u8>>::empty());
    assert(total_bytes(last.skip(1)) == 0);
    assert(total_bytes(last) == more.len());
}

/// A capped number is the number itself, as far as a `usize` holds it, and the most that a `usize`
/// holds beyond.
pub proof fn capped_is_the_lesser(bytes: nat)
    ensures
        capped(bytes) <= bytes,
        capped(bytes) == bytes || (capped(bytes) == usize::MAX && bytes > usize::MAX),
{
}

} // verus!

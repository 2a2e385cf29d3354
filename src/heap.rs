//! Special-purpose allocator for the foreign driver.
//!
//! Requests smaller than the scratchpad are served from a single small
//! scratchpad buffer, of which at most one allocation may be outstanding.
//! Larger requests are served from a bump heap counted in 4-byte words. Only
//! the most recent heap allocation can be given back (the cursor rewinds to
//! it), and giving back the block at the very start of the heap frees
//! everything at once. Any other release is ignored.
//!
//! Addresses are handed out as word offsets from the start of the heap; the
//! caller owns the memory itself and turns offsets into pointers.

use vstd::prelude::*;

verus! {

/// Requests of fewer bytes than this are served from the scratchpad.
pub const SCRATCHPAD_BYTES: usize = 8;

/// Heap allocations are made in words of this many bytes.
pub const WORD_BYTES: usize = 4;

/// An address known to the allocator.
#[derive(Clone, Copy, Debug, PartialEq, Eq, Structural)]
pub enum Address {
    /// The null pointer.
    Null,
    /// The scratchpad buffer.
    Scratchpad,
    /// The heap, at the given offset in words from its start.
    Heap(usize),
    /// A pointer outside both the scratchpad and the heap.
    Foreign,
}

/// An allocation request that cannot be served: the driver broke the
/// allocator's contract.
#[derive(Clone, Copy, Debug, PartialEq, Eq, Structural)]
pub enum AllocError {
    /// The scratchpad is already handed out (a re-entrant request).
    ScratchpadBusy,
    /// The heap has no room left for the request.
    HeapExhausted,
}

/// Abstract state of the allocator.
pub struct AllocState {
    /// Heap capacity, in words.
    pub capacity: nat,
    /// Bump cursor: the offset, in words, of the first free word.
    pub cursor: nat,
    /// Offset of the most recent heap allocation, if it can still be freed.
    pub last: Option<nat>,
    /// Whether the scratchpad is handed out.
    pub scratchpad_taken: bool,
}

/// Words needed to hold `size` bytes.
pub open spec fn words_for(size: nat) -> nat {
    ((size + 3) / 4) as nat
}

/// The allocator as it is right after initialisation over `capacity` words.
pub open spec fn fresh_state(capacity: nat) -> AllocState {
    AllocState { capacity, cursor: 0, last: None, scratchpad_taken: false }
}

/// The cursor stays within the heap, and the most recent allocation lies
/// below the cursor.
pub open spec fn state_wf(s: AllocState) -> bool {
    &&& s.cursor <= s.capacity
    &&& s.capacity <= usize::MAX
    &&& (s.last matches Some(l) ==> l <= s.cursor)
}

/// What a request for `size` bytes returns.
pub open spec fn allocate_result(s: AllocState, size: nat) -> Result<Address, AllocError> {
    if size < SCRATCHPAD_BYTES {
        if s.scratchpad_taken {
            Err(AllocError::ScratchpadBusy)
        } else {
            Ok(Address::Scratchpad)
        }
    } else if s.cursor + words_for(size) > s.capacity {
        Err(AllocError::HeapExhausted)
    } else {
        Ok(Address::Heap(s.cursor as usize))
    }
}

/// The state after a request for `size` bytes. A refused request changes
/// nothing.
pub open spec fn allocate_state(s: AllocState, size: nat) -> AllocState {
    if size < SCRATCHPAD_BYTES {
        if s.scratchpad_taken {
            s
        } else {
            AllocState { scratchpad_taken: true, ..s }
        }
    } else if s.cursor + words_for(size) > s.capacity {
        s
    } else {
        AllocState { cursor: s.cursor + words_for(size), last: Some(s.cursor), ..s }
    }
}

/// The state after releasing `a`.
pub open spec fn free_state(s: AllocState, a: Address) -> AllocState {
    match a {
        Address::Scratchpad => AllocState { scratchpad_taken: false, ..s },
        Address::Heap(w) => {
            if w == 0 {
                AllocState { cursor: 0, last: None, ..s }
            } else if s.last == Some(w as nat) {
                AllocState { cursor: w as nat, ..s }
            } else {
                s
            }
        },
        _ => s,
    }
}

/// Whether releasing `a` has any effect: the scratchpad, the start of the
/// heap, and the most recent heap allocation.
pub open spec fn is_releasable(s: AllocState, a: Address) -> bool {
    match a {
        Address::Scratchpad => true,
        Address::Heap(w) => w == 0 || s.last == Some(w as nat),
        _ => false,
    }
}

/// Total words taken by heap requests of the given byte sizes.
pub open spec fn words_total(sizes: Seq<nat>) -> nat
    decreases sizes.len(),
{
    if sizes.len() == 0 {
        0
    } else {
        words_total(sizes.drop_last()) + words_for(sizes.last())
    }
}

/// The state after serving the requests `sizes`, in order.
pub open spec fn allocate_run(s: AllocState, sizes: Seq<nat>) -> AllocState
    decreases sizes.len(),
{
    if sizes.len() == 0 {
        s
    } else {
        allocate_state(allocate_run(s, sizes.drop_last()), sizes.last())
    }
}

/// What the `i`-th request of the run `sizes` returns.
pub open spec fn run_result(s: AllocState, sizes: Seq<nat>, i: int) -> Result<Address, AllocError> {
    allocate_result(allocate_run(s, sizes.take(i)), sizes[i])
}

/// A request below the scratchpad size is served from the scratchpad, a
/// second one before the first is released is refused as re-entrant, and
/// once the scratchpad is released it is served again.
pub proof fn lemma_scratchpad_exclusive(s: AllocState, first: nat, second: nat)
    requires
        !s.scratchpad_taken,
        first < SCRATCHPAD_BYTES,
        second < SCRATCHPAD_BYTES,
    ensures
        allocate_result(s, first) == Ok::<Address, AllocError>(Address::Scratchpad),
        allocate_result(allocate_state(s, first), second) == Err::<Address, AllocError>(
            AllocError::ScratchpadBusy,
        ),
        allocate_result(free_state(allocate_state(s, first), Address::Scratchpad), second)
            == Ok::<Address, AllocError>(Address::Scratchpad),
{
}

proof fn lemma_words_total_prefix(sizes: Seq<nat>, i: int, j: int)
    requires
        0 <= i <= j <= sizes.len(),
    ensures
        words_total(sizes.take(i)) <= words_total(sizes.take(j)),
        j == i + 1 ==> words_total(sizes.take(j)) == words_total(sizes.take(i)) + words_for(
            sizes[i],
        ),
    decreases j - i,
{
    if i < j {
        assert(sizes.take(j).drop_last() == sizes.take(j - 1));
        assert(sizes.take(j).last() == sizes[j - 1]);
        lemma_words_total_prefix(sizes, i, j - 1);
    }
}

/// A run of heap requests (each of at least the scratchpad size) that fits
/// the heap is served in order from consecutive blocks: the `i`-th block
/// starts where the words of the requests before it end, the cursor advances
/// by the words of each request, and no two blocks overlap.
pub proof fn lemma_heap_run(s: AllocState, sizes: Seq<nat>)
    requires
        state_wf(s),
        forall|i: int| 0 <= i < sizes.len() ==> sizes[i] >= SCRATCHPAD_BYTES,
        s.cursor + words_total(sizes) <= s.capacity,
    ensures
        allocate_run(s, sizes).cursor == s.cursor + words_total(sizes),
        allocate_run(s, sizes).capacity == s.capacity,
        forall|i: int|
            0 <= i < sizes.len() ==> run_result(s, sizes, i) == Ok::<Address, AllocError>(
                Address::Heap((s.cursor + words_total(sizes.take(i))) as usize),
            ),
        forall|i: int, j: int|
            0 <= i < j < sizes.len() ==> s.cursor + words_total(sizes.take(i)) + words_for(
                sizes[i],
            ) <= s.cursor + words_total(sizes.take(j)),
    decreases sizes.len(),
{
    if sizes.len() > 0 {
        let n = sizes.len() as int;
        let p = sizes.drop_last();
        assert(words_total(p) <= words_total(sizes));
        lemma_heap_run(s, p);
        assert(sizes.take(n - 1) == p);
        assert forall|i: int| 0 <= i < sizes.len() implies run_result(s, sizes, i) == Ok::<
            Address,
            AllocError,
        >(Address::Heap((s.cursor + words_total(sizes.take(i))) as usize)) by {
            if i < n - 1 {
                assert(sizes.take(i) == p.take(i));
                assert(run_result(s, p, i) == run_result(s, sizes, i));
            } else {
                assert(sizes[i] == sizes.last());
            }
        }
        assert forall|i: int, j: int| 0 <= i < j < sizes.len() implies s.cursor + words_total(
            sizes.take(i),
        ) + words_for(sizes[i]) <= s.cursor + words_total(sizes.take(j)) by {
            lemma_words_total_prefix(sizes, i, i + 1);
            lemma_words_total_prefix(sizes, i + 1, j);
        }
    }
}

/// Releasing the start of the heap returns the heap to its initial state
/// (the scratchpad is left as it was); releasing it again changes nothing;
/// and afterwards a run of heap requests that fits the whole capacity is
/// served from the start of the heap.
pub proof fn lemma_release_all(s: AllocState, sizes: Seq<nat>)
    requires
        state_wf(s),
        forall|i: int| 0 <= i < sizes.len() ==> sizes[i] >= SCRATCHPAD_BYTES,
        words_total(sizes) <= s.capacity,
    ensures
        free_state(s, Address::Heap(0)) == (AllocState {
            scratchpad_taken: s.scratchpad_taken,
            ..fresh_state(s.capacity)
        }),
        free_state(free_state(s, Address::Heap(0)), Address::Heap(0)) == free_state(
            s,
            Address::Heap(0),
        ),
        forall|i: int|
            0 <= i < sizes.len() ==> run_result(free_state(s, Address::Heap(0)), sizes, i) == Ok::<
                Address,
                AllocError,
            >(Address::Heap(words_total(sizes.take(i)) as usize)),
{
    lemma_heap_run(free_state(s, Address::Heap(0)), sizes);
}

/// Releasing any address other than the scratchpad, the start of the heap
/// or the most recent heap allocation leaves the allocator as it was.
pub proof fn lemma_release_other(s: AllocState, a: Address)
    requires
        !is_releasable(s, a),
    ensures
        free_state(s, a) == s,
{
}

/// A heap request beyond the remaining capacity is refused and changes
/// nothing.
pub proof fn lemma_exhausted(s: AllocState, size: nat)
    requires
        size >= SCRATCHPAD_BYTES,
        s.cursor + words_for(size) > s.capacity,
    ensures
        allocate_result(s, size) == Err::<Address, AllocError>(AllocError::HeapExhausted),
        allocate_state(s, size) == s,
{
}

/// The bump/scratchpad allocator.
pub struct HeapAllocator {
    capacity: usize,
    cursor: usize,
    last: Option<usize>,
    scratchpad_taken: bool,
}

impl View for HeapAllocator {
    type V = AllocState;

    closed spec fn view(&self) -> AllocState {
        AllocState {
            capacity: self.capacity as nat,
            cursor: self.cursor as nat,
            last: match self.last {
                Some(l) => Some(l as nat),
                None => None,
            },
            scratchpad_taken: self.scratchpad_taken,
        }
    }
}

impl HeapAllocator {
    /// The abstract state is well formed.
    pub closed spec fn wf(&self) -> bool {
        state_wf(self@)
    }

    /// An allocator over a heap of `capacity` words, with nothing handed out.
    pub fn new(capacity: usize) -> (r: Self)
        ensures
            r.wf(),
            r@ == fresh_state(capacity as nat),
    {
        HeapAllocator { capacity, cursor: 0, last: None, scratchpad_taken: false }
    }

    /// Resets the allocator onto a heap of `capacity` words, forgetting every
    /// earlier allocation.
    pub fn init(&mut self, capacity: usize)
        ensures
            final(self).wf(),
            final(self)@ == fresh_state(capacity as nat),
    {
        self.capacity = capacity;
        self.cursor = 0;
        self.last = None;
        self.scratchpad_taken = false;
    }

    /// Heap capacity, in words.
    pub fn capacity(&self) -> (r: usize)
        ensures
            r as nat == self@.capacity,
    {
        self.capacity
    }

    /// Offset, in words, of the first free word of the heap.
    pub fn cursor(&self) -> (r: usize)
        ensures
            r as nat == self@.cursor,
    {
        self.cursor
    }

    /// Whether the scratchpad is handed out.
    pub fn scratchpad_taken(&self) -> (r: bool)
        ensures
            r == self@.scratchpad_taken,
    {
        self.scratchpad_taken
    }

    /// Serves a request for `size` bytes.
    pub fn allocate(&mut self, size: usize) -> (r: Result<Address, AllocError>)
        requires
            old(self).wf(),
        ensures
            final(self).wf(),
            r == allocate_result(old(self)@, size as nat),
            final(self)@ == allocate_state(old(self)@, size as nat),
    {
        if size < SCRATCHPAD_BYTES {
            if self.scratchpad_taken {
                Err(AllocError::ScratchpadBusy)
            } else {
                self.scratchpad_taken = true;
                Ok(Address::Scratchpad)
            }
        } else {
            let words: usize = size / WORD_BYTES + if size % WORD_BYTES == 0 { 0 } else { 1 };
            assert(words as nat == words_for(size as nat));
            if words > self.capacity - self.cursor {
                Err(AllocError::HeapExhausted)
            } else {
                let start = self.cursor;
                self.last = Some(start);
                self.cursor = start + words;
                Ok(Address::Heap(start))
            }
        }
    }

    /// Serves a request for `count` elements of `size` bytes each. On
    /// success it also returns the number of bytes, `count * size`, that the
    /// caller must clear at the returned address.
    pub fn allocate_zeroed(&mut self, count: usize, size: usize) -> (r: Result<
        (Address, usize),
        AllocError,
    >)
        requires
            old(self).wf(),
        ensures
            final(self).wf(),
            count * size > usize::MAX ==> r == Err::<(Address, usize), AllocError>(
                AllocError::HeapExhausted,
            ) && final(self)@ == old(self)@,
            count * size <= usize::MAX ==> {
                &&& final(self)@ == allocate_state(old(self)@, (count * size) as nat)
                &&& match allocate_result(old(self)@, (count * size) as nat) {
                    Ok(a) => r == Ok::<(Address, usize), AllocError>((a, (count * size) as usize)),
                    Err(e) => r == Err::<(Address, usize), AllocError>(e),
                }
            },
    {
        match count.checked_mul(size) {
            None => Err(AllocError::HeapExhausted),
            Some(bytes) => match self.allocate(bytes) {
                Ok(a) => Ok((a, bytes)),
                Err(e) => Err(e),
            },
        }
    }

    /// Releases `a`. Only the scratchpad, the start of the heap (which frees
    /// the whole heap) and the most recent heap allocation have an effect.
    pub fn free(&mut self, a: Address)
        requires
            old(self).wf(),
        ensures
            final(self).wf(),
            final(self)@ == free_state(old(self)@, a),
            !is_releasable(old(self)@, a) ==> final(self)@ == old(self)@,
    {
        match a {
            Address::Scratchpad => {
                self.scratchpad_taken = false;
            },
            Address::Heap(w) => {
                if w == 0 {
                    self.cursor = 0;
                    self.last = None;
                } else if self.last == Some(w) {
                    self.cursor = w;
                }
            },
            _ => {},
        }
    }
}

} // verus!

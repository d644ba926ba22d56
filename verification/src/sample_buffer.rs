//! The capture buffer: a ring of fixed capacity that keeps the newest samples
//! and silently lets go of the oldest when it is full.

use vstd::prelude::*;
use crate::audio::AudioChunk;
use crate::audio::Segment;

verus! {

/// What is left of `samples` when only the newest `capacity` of them may stay.
pub open spec fn keep_last(samples: Seq<i16>, capacity: nat) -> Seq<i16> {
    if samples.len() <= capacity {
        samples
    } else {
        samples.subrange(samples.len() - capacity, samples.len() as int)
    }
}

/// The contents after `chunk` is pushed onto a buffer that holds `held`.
pub open spec fn pushed(held: Seq<i16>, chunk: Seq<i16>, capacity: nat) -> Seq<i16> {
    keep_last(held + chunk, capacity)
}

/// What a drain of a buffer that holds `held` hands out, and what it leaves.
pub open spec fn drained(held: Seq<i16>) -> (Seq<i16>, Seq<i16>) {
    (held, Seq::empty())
}

/// The contents after each of `chunks` is pushed in turn, starting from `held`.
pub open spec fn pushed_all(held: Seq<i16>, chunks: Seq<Seq<i16>>, capacity: nat) -> Seq<i16>
    decreases chunks.len(),
{
    if chunks.len() == 0 {
        held
    } else {
        pushed_all(pushed(held, chunks.first(), capacity), chunks.drop_first(), capacity)
    }
}

/// The slot that holds the `offset`-th oldest sample of a ring whose oldest
/// sample sits at `head`.
spec fn ring_slot(head: int, offset: int, capacity: int) -> int {
    if head + offset < capacity {
        head + offset
    } else {
        head + offset - capacity
    }
}

/// Fixed-capacity ring of mono samples at a declared rate.
///
/// Seen from outside it is the sequence of buffered samples, oldest first
/// (its view), never longer than `capacity()`. Storage is allocated once, when
/// the buffer is made. Every method that changes the buffer takes `&mut self`,
/// so a producer and a consumer share it behind a lock and neither ever sees
/// a half-written state.
#[derive(Debug)]
pub struct SampleBuffer {
    slots: Vec<i16>,
    head: usize,
    len: usize,
    sample_rate: u32,
}

impl View for SampleBuffer {
    type V = Seq<i16>;

    closed spec fn view(&self) -> Seq<i16> {
        Seq::new(
            self.len as nat,
            |i: int| self.slots@[ring_slot(self.head as int, i, self.slots@.len() as int)],
        )
    }
}

impl SampleBuffer {
    #[verifier::type_invariant]
    closed spec fn inv(&self) -> bool {
        &&& self.len <= self.slots@.len()
        &&& self.head <= self.slots@.len()
        &&& self.slots@.len() > 0 ==> self.head < self.slots@.len()
        &&& self.sample_rate > 0
    }

    /// The most samples the buffer ever holds.
    pub closed spec fn spec_capacity(&self) -> usize {
        self.slots.len()
    }

    /// The rate, in samples per second, that the buffer was declared for.
    pub closed spec fn spec_sample_rate(&self) -> u32 {
        self.sample_rate
    }

    /// An empty buffer for `capacity` samples at `sample_rate`; `None` when the
    /// rate is zero, which declares nothing.
    pub fn new(capacity: usize, sample_rate: u32) -> (made: Option<SampleBuffer>)
        ensures
            made is Some <==> sample_rate > 0,
            made matches Some(buffer) ==> {
                &&& buffer@ == Seq::<i16>::empty()
                &&& buffer.spec_capacity() == capacity
                &&& buffer.spec_sample_rate() == sample_rate
            },
    {
        if sample_rate == 0 {
            return None;
        }
        let slots: Vec<i16> = vec![0i16; capacity];
        let buffer = SampleBuffer { slots, head: 0, len: 0, sample_rate };
        assert(buffer@ =~= Seq::<i16>::empty());
        Some(buffer)
    }

    /// The most samples the buffer ever holds.
    #[verifier::when_used_as_spec(spec_capacity)]
    pub fn capacity(&self) -> (capacity: usize)
        ensures
            capacity == self.spec_capacity(),
    {
        self.slots.len()
    }

    /// The rate, in samples per second, that the buffer was declared for.
    #[verifier::when_used_as_spec(spec_sample_rate)]
    pub fn sample_rate(&self) -> (rate: u32)
        ensures
            rate == self.spec_sample_rate(),
            rate > 0,
    {
        proof {
            use_type_invariant(self);
        }
        self.sample_rate
    }

    /// Number of samples buffered right now.
    pub fn len(&self) -> (n: usize)
        ensures
            n == self@.len(),
            n <= self.spec_capacity(),
    {
        proof {
            use_type_invariant(self);
        }
        self.len
    }

    /// Whether nothing is buffered.
    pub fn is_empty(&self) -> (empty: bool)
        ensures
            empty == (self@.len() == 0),
    {
        self.len == 0
    }

    fn slot_of(&self, offset: usize) -> (at: usize)
        requires
            offset < self.slots@.len(),
        ensures
            at == ring_slot(self.head as int, offset as int, self.slots@.len() as int),
            at < self.slots@.len(),
    {
        proof {
            use_type_invariant(self);
        }
        let room: usize = self.slots.len() - self.head;
        if offset < room {
            self.head + offset
        } else {
            offset - room
        }
    }

    fn push_sample(&mut self, sample: i16)
        ensures
            final(self)@ == keep_last(old(self)@.push(sample), old(self).spec_capacity() as nat),
            final(self).spec_capacity() == old(self).spec_capacity(),
            final(self).spec_sample_rate() == old(self).spec_sample_rate(),
    {
        proof {
            use_type_invariant(&*self);
        }
        let capacity: usize = self.slots.len();
        if capacity == 0 {
            assert(self@ =~= keep_last(old(self)@.push(sample), 0));
            return ;
        }
        if self.len < capacity {
            let at: usize = self.slot_of(self.len);
            self.slots[at] = sample;
            self.len = self.len + 1;
            assert(self@ =~= old(self)@.push(sample));
        } else {
            let at: usize = self.head;
            self.slots[at] = sample;
            self.head = if at + 1 == capacity {
                0
            } else {
                at + 1
            };
            assert(self@ =~= old(self)@.push(sample).subrange(1, capacity as int + 1));
        }
    }

    /// Takes in every sample of `chunk`, in order. The buffer never grows past
    /// its capacity: once it is full, each new sample pushes out the oldest one,
    /// so capture under overflow is lossy and keeps the newest audio.
    pub fn push(&mut self, chunk: AudioChunk)
        ensures
            final(self)@ == pushed(old(self)@, chunk.samples@, old(self).spec_capacity() as nat),
            final(self)@.len() <= old(self).spec_capacity(),
            final(self).spec_capacity() == old(self).spec_capacity(),
            final(self).spec_sample_rate() == old(self).spec_sample_rate(),
    {
        let ghost capacity = self.spec_capacity() as nat;
        let n: usize = chunk.samples.len();
        let mut i: usize = 0;
        assert(chunk.samples@.subrange(0, 0) =~= Seq::<i16>::empty());
        assert(old(self)@ + Seq::<i16>::empty() =~= old(self)@);
        proof {
            use_type_invariant(&*self);
        }
        while i < n
            invariant
                i <= n,
                n == chunk.samples@.len(),
                capacity == old(self).spec_capacity(),
                self.spec_capacity() == old(self).spec_capacity(),
                self.spec_sample_rate() == old(self).spec_sample_rate(),
                self@ == keep_last(old(self)@ + chunk.samples@.subrange(0, i as int), capacity),
            decreases n - i,
        {
            let ghost taken = old(self)@ + chunk.samples@.subrange(0, i as int);
            let sample: i16 = chunk.samples[i];
            self.push_sample(sample);
            proof {
                lemma_keep_last_push(taken, sample, capacity);
                assert(taken.push(sample) =~= old(self)@ + chunk.samples@.subrange(
                    0,
                    i as int + 1,
                ));
            }
            i = i + 1;
        }
        assert(chunk.samples@.subrange(0, n as int) =~= chunk.samples@);
    }

    /// Takes out everything that is buffered, oldest sample first, and leaves
    /// the buffer empty.
    pub fn drain_all(&mut self) -> (segment: Segment)
        ensures
            (segment.samples@, final(self)@) == drained(old(self)@),
            segment.samples@.len() <= old(self).spec_capacity(),
            segment.sample_rate == old(self).spec_sample_rate(),
            final(self).spec_capacity() == old(self).spec_capacity(),
            final(self).spec_sample_rate() == old(self).spec_sample_rate(),
    {
        proof {
            use_type_invariant(&*self);
        }
        let n: usize = self.len;
        let mut samples: Vec<i16> = Vec::new();
        let mut i: usize = 0;
        while i < n
            invariant
                i <= n,
                n == self.len,
                n <= self.slots@.len(),
                *self == *old(self),
                samples@ == self@.subrange(0, i as int),
            decreases n - i,
        {
            let at: usize = self.slot_of(i);
            samples.push(self.slots[at]);
            assert(samples@ =~= self@.subrange(0, i as int + 1));
            i = i + 1;
        }
        assert(samples@ =~= self@);
        self.len = 0;
        self.head = 0;
        assert(self@ =~= Seq::<i16>::empty());
        Segment { samples, sample_rate: self.sample_rate }
    }
}

/// Cutting down to the newest `capacity` samples before a sample arrives
/// changes nothing about what is kept after it.
proof fn lemma_keep_last_push(samples: Seq<i16>, sample: i16, capacity: nat)
    ensures
        keep_last(keep_last(samples, capacity).push(sample), capacity) == keep_last(
            samples.push(sample),
            capacity,
        ),
{
    assert(keep_last(keep_last(samples, capacity).push(sample), capacity) =~= keep_last(
        samples.push(sample),
        capacity,
    ));
}

/// Cutting down early loses nothing that a later cut would have kept.
pub proof fn lemma_keep_last_absorbs(samples: Seq<i16>, more: Seq<i16>, capacity: nat)
    ensures
        keep_last(keep_last(samples, capacity) + more, capacity) == keep_last(
            samples + more,
            capacity,
        ),
{
    assert(keep_last(keep_last(samples, capacity) + more, capacity) =~= keep_last(
        samples + more,
        capacity,
    ));
}

/// Drop-oldest: however the samples arrive in chunks, the buffer ends up with
/// the newest `capacity` samples of everything it was given, in arrival order.
/// Once the chunks alone reach the capacity, exactly the newest `capacity`
/// samples of the chunks remain and nothing of what was held before.
pub proof fn law_overflow_keeps_newest(held: Seq<i16>, chunks: Seq<Seq<i16>>, capacity: nat)
    requires
        held.len() <= capacity,
    ensures
        pushed_all(held, chunks, capacity) == keep_last(held + chunks.flatten(), capacity),
        pushed_all(held, chunks, capacity).len() <= capacity,
        chunks.flatten().len() >= capacity ==> {
            &&& pushed_all(held, chunks, capacity).len() == capacity
            &&& pushed_all(held, chunks, capacity) == chunks.flatten().subrange(
                chunks.flatten().len() - capacity,
                chunks.flatten().len() as int,
            )
        },
    decreases chunks.len(),
{
    let all = chunks.flatten();
    if chunks.len() == 0 {
        assert(all =~= Seq::<i16>::empty());
        assert(held + all =~= held);
    } else {
        let first = chunks.first();
        let rest = chunks.drop_first();
        assert(all == first + rest.flatten());
        law_overflow_keeps_newest(pushed(held, first, capacity), rest, capacity);
        lemma_keep_last_absorbs(held + first, rest.flatten(), capacity);
        assert((held + first) + rest.flatten() =~= held + all);
    }
    if all.len() >= capacity {
        assert(keep_last(held + all, capacity) =~= all.subrange(
            all.len() - capacity,
            all.len() as int,
        ));
    }
}

/// A drain is exhaustive: a second drain right after the first hands out
/// nothing and leaves nothing.
pub proof fn law_second_drain_is_empty(held: Seq<i16>)
    ensures
        drained(drained(held).1) == (Seq::<i16>::empty(), Seq::<i16>::empty()),
        drained(held).0 == held,
{
}

} // verus!

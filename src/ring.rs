//! The fixed-capacity sample queue between the decode thread and the
//! hardware callback, kept in a `ringbuf` heap ring.
use vstd::prelude::*;
use vstd::slice::*;

use ringbuf::traits::{Consumer, Observer, Producer, Split};
use ringbuf::{HeapCons, HeapProd, HeapRb};

verus! {

/// One interleaved sample as it travels through the ring: the bit pattern of
/// a 32-bit float sample. All-zero bits are silence.
pub type Sample = u32;

/// The silent sample.
pub const SILENCE: Sample = 0;

/// A heap ring of samples that one thread owns whole, before it is split.
#[verifier::external_body]
pub struct SampleRing {
    rb: HeapRb<Sample>,
}

/// The producing half of a split ring; it only pushes.
#[verifier::external_body]
pub struct SampleProducer {
    prod: HeapProd<Sample>,
}

/// The consuming half of a split ring; it only pops.
#[verifier::external_body]
pub struct SampleConsumer {
    cons: HeapCons<Sample>,
}

/// The samples a ring holds, oldest first.
pub uninterp spec fn ring_contents(ring: SampleRing) -> Seq<Sample>;

/// The number of samples a ring can hold, fixed when it is made.
pub uninterp spec fn ring_capacity(ring: SampleRing) -> nat;

/// How many of `wanted` samples a push or pop moves when `available` can move.
pub open spec fn moved(wanted: nat, available: int) -> nat {
    if wanted <= available {
        wanted
    } else if available <= 0 {
        0
    } else {
        available as nat
    }
}

/// The contents after pushing `elems` into a ring holding `held` with room for
/// `capacity`: the longest prefix of `elems` that fits is appended.
pub open spec fn after_push(held: Seq<Sample>, capacity: nat, elems: Seq<Sample>) -> Seq<Sample> {
    held + elems.take(moved(elems.len(), capacity - held.len()) as int)
}

/// The output buffer after popping from a ring holding `held` into `out`: the
/// oldest samples fill its front and the rest of it is as it was.
pub open spec fn popped_into(held: Seq<Sample>, out: Seq<Sample>) -> Seq<Sample> {
    let n = moved(out.len(), held.len() as int) as int;
    held.take(n) + out.skip(n)
}

/// The contents after popping into a buffer of `out_len` samples.
pub open spec fn after_pop(held: Seq<Sample>, out_len: nat) -> Seq<Sample> {
    held.skip(moved(out_len, held.len() as int) as int)
}

/// A run of `len` silent samples.
pub open spec fn silence(len: nat) -> Seq<Sample> {
    Seq::new(len, |i: int| SILENCE)
}

/// The ring capacity for a session on an output of `sample_rate` frames per
/// second and `channels` channels: two seconds of interleaved audio.
pub open spec fn session_capacity(sample_rate: nat, channels: nat) -> nat {
    sample_rate * channels * 2
}

/// Relies on `HeapRb::new`: an empty ring of the given capacity. It panics on
/// a zero capacity.
#[verifier::external_body]
fn heap_rb_new(capacity: usize) -> (ring: SampleRing)
    requires
        capacity > 0,
    ensures
        ring_contents(ring) == Seq::<Sample>::empty(),
        ring_capacity(ring) == capacity,
{
    SampleRing { rb: HeapRb::new(capacity) }
}

/// Relies on `Observer::occupied_len` of `SharedRb`: the number of samples
/// held, never more than the capacity.
#[verifier::external_body]
fn heap_rb_occupied_len(ring: &SampleRing) -> (n: usize)
    ensures
        n == ring_contents(*ring).len(),
        n <= ring_capacity(*ring),
{
    ring.rb.occupied_len()
}

/// Relies on `Observer::capacity` of `SharedRb`: the capacity the ring was
/// made with.
#[verifier::external_body]
fn heap_rb_capacity(ring: &SampleRing) -> (n: usize)
    ensures
        n == ring_capacity(*ring),
{
    ring.rb.capacity().get()
}

/// Relies on `Producer::push_slice` of `SharedRb`: appends the longest prefix
/// of `elems` that fits in the free room and returns its length.
#[verifier::external_body]
fn heap_rb_push_slice(ring: &mut SampleRing, elems: &[Sample]) -> (n: usize)
    ensures
        n == moved(elems@.len(), ring_capacity(*old(ring)) - ring_contents(*old(ring)).len()),
        ring_contents(*final(ring)) == after_push(
            ring_contents(*old(ring)),
            ring_capacity(*old(ring)),
            elems@,
        ),
        ring_capacity(*final(ring)) == ring_capacity(*old(ring)),
{
    ring.rb.push_slice(elems)
}

/// Relies on `Consumer::pop_slice` of `SharedRb`: moves the oldest samples,
/// as many as `elems` has room for and the ring holds, to the front of
/// `elems`, leaves the rest of `elems` as it was, and returns their number.
#[verifier::external_body]
fn heap_rb_pop_slice(ring: &mut SampleRing, elems: &mut [Sample]) -> (n: usize)
    ensures
        n == moved(old(elems)@.len(), ring_contents(*old(ring)).len() as int),
        final(elems)@ == popped_into(ring_contents(*old(ring)), old(elems)@),
        ring_contents(*final(ring)) == after_pop(ring_contents(*old(ring)), old(elems)@.len()),
        ring_capacity(*final(ring)) == ring_capacity(*old(ring)),
{
    ring.rb.pop_slice(elems)
}

/// Relies on `Split::split` of `SharedRb`: the producer and consumer halves of
/// one ring.
#[verifier::external_body]
fn heap_rb_split(ring: SampleRing) -> (halves: (SampleProducer, SampleConsumer)) {
    let (prod, cons) = ring.rb.split();
    (SampleProducer { prod }, SampleConsumer { cons })
}

/// Relies on `Producer::push_slice` of the caching producer: appends a prefix
/// of `elems` to the shared ring and returns its length.
#[verifier::external_body]
fn heap_prod_push_slice(producer: &mut SampleProducer, elems: &[Sample]) -> (n: usize)
    ensures
        n <= elems@.len(),
{
    producer.prod.push_slice(elems)
}

/// Relies on `Consumer::pop_slice` of the caching consumer: writes the samples
/// it removes to the front of `elems`, leaves the rest of `elems` as it was,
/// and returns their number.
#[verifier::external_body]
fn heap_cons_pop_slice(consumer: &mut SampleConsumer, elems: &mut [Sample]) -> (n: usize)
    ensures
        n <= old(elems)@.len(),
        final(elems)@.len() == old(elems)@.len(),
        final(elems)@.skip(n as int) == old(elems)@.skip(n as int),
{
    consumer.cons.pop_slice(elems)
}

/// Sets `out[from..]` to silence and leaves `out[..from]` as it was.
fn fill_silence(out: &mut [Sample], from: usize)
    requires
        from <= old(out)@.len(),
    ensures
        final(out)@ == old(out)@.take(from as int) + silence((old(out)@.len() - from) as nat),
{
    let len = out.len();
    let mut i = from;
    while i < len
        invariant
            from <= i <= len,
            len == old(out)@.len(),
            out@.len() == len,
            out@.take(from as int) == old(out)@.take(from as int),
            forall|j: int| from <= j < i ==> out@[j] == SILENCE,
        decreases len - i,
    {
        out[i] = SILENCE;
        i = i + 1;
    }
    assert(out@ =~= old(out)@.take(from as int) + silence((len - from) as nat));
}

/// The ring capacity for a session on an output of `sample_rate` frames per
/// second and `channels` channels, or `None` where it is zero or does not fit
/// in a `usize`.
pub fn capacity_for(sample_rate: u32, channels: u16) -> (r: Option<usize>)
    ensures
        r is Some <==> 0 < session_capacity(sample_rate as nat, channels as nat) <= usize::MAX,
        r matches Some(c) ==> c == session_capacity(sample_rate as nat, channels as nat),
{
    let frames: u64 = sample_rate as u64;
    let width: u64 = channels as u64 * 2;
    assert(frames * width <= u32::MAX * (u16::MAX * 2)) by (nonlinear_arith)
        requires
            frames <= u32::MAX,
            width <= u16::MAX * 2,
    ;
    let cap: u64 = frames * width;
    assert(cap == session_capacity(sample_rate as nat, channels as nat)) by (nonlinear_arith)
        requires
            cap == frames * width,
            frames == sample_rate,
            width == channels * 2,
    ;
    if cap == 0 || cap > usize::MAX as u64 {
        None
    } else {
        Some(cap as usize)
    }
}

impl View for SampleRing {
    type V = Seq<Sample>;

    open spec fn view(&self) -> Seq<Sample> {
        ring_contents(*self)
    }
}

impl SampleRing {
    /// The number of samples the ring can hold.
    pub open spec fn spec_capacity(&self) -> nat {
        ring_capacity(*self)
    }

    /// A ring never holds more than its capacity.
    pub open spec fn wf(&self) -> bool {
        self@.len() <= self.spec_capacity()
    }

    /// An empty ring with room for `capacity` samples.
    pub fn new(capacity: usize) -> (r: SampleRing)
        requires
            capacity > 0,
        ensures
            r@ == Seq::<Sample>::empty(),
            r.spec_capacity() == capacity,
            r.wf(),
    {
        heap_rb_new(capacity)
    }

    /// An empty ring sized for one session on the given output: two seconds of
    /// interleaved audio. `None` where that size is zero or does not fit in a
    /// `usize`.
    pub fn for_output(sample_rate: u32, channels: u16) -> (r: Option<SampleRing>)
        ensures
            r is Some <==> 0 < session_capacity(sample_rate as nat, channels as nat) <= usize::MAX,
            r matches Some(ring) ==> ring@ == Seq::<Sample>::empty() && ring.spec_capacity()
                == session_capacity(sample_rate as nat, channels as nat),
    {
        match capacity_for(sample_rate, channels) {
            Some(cap) => Some(SampleRing::new(cap)),
            None => None,
        }
    }

    /// The number of samples held.
    pub fn len(&self) -> (n: usize)
        ensures
            n == self@.len(),
    {
        heap_rb_occupied_len(self)
    }

    /// Whether the ring holds no sample.
    pub fn is_empty(&self) -> (r: bool)
        ensures
            r == (self@.len() == 0),
    {
        heap_rb_occupied_len(self) == 0
    }

    /// The number of samples the ring can hold.
    pub fn capacity(&self) -> (n: usize)
        ensures
            n == self.spec_capacity(),
    {
        heap_rb_capacity(self)
    }

    /// The number of samples that can still be pushed.
    pub fn free_len(&self) -> (n: usize)
        ensures
            n == self.spec_capacity() - self@.len(),
    {
        let held = heap_rb_occupied_len(self);
        let cap = heap_rb_capacity(self);
        cap - held
    }

    /// Appends the longest prefix of `samples` that fits and returns its
    /// length. It never waits: a full ring takes nothing.
    pub fn push_slice(&mut self, samples: &[Sample]) -> (n: usize)
        ensures
            n == moved(samples@.len(), old(self).spec_capacity() - old(self)@.len()),
            n <= samples@.len(),
            final(self)@ == after_push(old(self)@, old(self).spec_capacity(), samples@),
            final(self).spec_capacity() == old(self).spec_capacity(),
    {
        heap_rb_push_slice(self, samples)
    }

    /// Moves the oldest samples into the front of `out`, as many as `out` has
    /// room for and the ring holds, and returns their number. It never waits
    /// and never takes more than `out` asks for; the rest of `out` is left as
    /// it was.
    pub fn pop_slice(&mut self, out: &mut [Sample]) -> (n: usize)
        ensures
            n == moved(old(out)@.len(), old(self)@.len() as int),
            n <= old(out)@.len(),
            final(out)@ == popped_into(old(self)@, old(out)@),
            final(self)@ == after_pop(old(self)@, old(out)@.len()),
            final(self).spec_capacity() == old(self).spec_capacity(),
    {
        heap_rb_pop_slice(self, out)
    }

    /// Fills `out` for the hardware: the oldest samples first, then silence
    /// for whatever the ring could not supply. Returns how many samples came
    /// from the ring.
    pub fn fill_output(&mut self, out: &mut [Sample]) -> (n: usize)
        ensures
            n == moved(old(out)@.len(), old(self)@.len() as int),
            final(out)@ == old(self)@.take(n as int) + silence((old(out)@.len() - n) as nat),
            final(self)@ == after_pop(old(self)@, old(out)@.len()),
            final(self).spec_capacity() == old(self).spec_capacity(),
    {
        let n = heap_rb_pop_slice(self, out);
        fill_silence(out, n);
        proof {
            assert(old(self)@.take(n as int) =~= final(out)@.take(n as int).take(n as int));
        }
        n
    }

    /// Splits the ring into the halves that the two threads own.
    pub fn split(self) -> (halves: (SampleProducer, SampleConsumer)) {
        heap_rb_split(self)
    }
}

impl SampleProducer {
    /// Appends a prefix of `samples` to the shared ring and returns its length;
    /// a full ring takes nothing. It never waits.
    pub fn push_slice(&mut self, samples: &[Sample]) -> (n: usize)
        ensures
            n <= samples@.len(),
    {
        heap_prod_push_slice(self, samples)
    }
}

impl SampleConsumer {
    /// Moves samples from the shared ring into the front of `out` and returns
    /// their number, never more than `out` has room for; the rest of `out` is
    /// left as it was. It never waits.
    pub fn pop_slice(&mut self, out: &mut [Sample]) -> (n: usize)
        ensures
            n <= old(out)@.len(),
            final(out)@.len() == old(out)@.len(),
            final(out)@.skip(n as int) == old(out)@.skip(n as int),
    {
        heap_cons_pop_slice(self, out)
    }

    /// Fills `out` for the hardware: the samples the ring supplies first, then
    /// silence for the shortfall. Returns how many came from the ring.
    pub fn fill_output(&mut self, out: &mut [Sample]) -> (n: usize)
        ensures
            n <= old(out)@.len(),
            final(out)@.len() == old(out)@.len(),
            final(out)@.skip(n as int) == silence((old(out)@.len() - n) as nat),
    {
        let n = heap_cons_pop_slice(self, out);
        fill_silence(out, n);
        proof {
            assert(final(out)@.skip(n as int) =~= silence((old(out)@.len() - n) as nat));
        }
        n
    }
}

/// A run of samples pushed into an empty ring that has room for all of them
/// comes back whole, in order, from a pop of the same size, and the ring is
/// empty again.
pub proof fn lemma_push_pop_round_trip(capacity: nat, samples: Seq<Sample>, out: Seq<Sample>)
    requires
        samples.len() <= capacity,
        out.len() == samples.len(),
    ensures
        moved(samples.len(), capacity as int) == samples.len(),
        after_push(Seq::empty(), capacity, samples) == samples,
        popped_into(samples, out) == samples,
        after_pop(samples, out.len()) == Seq::<Sample>::empty(),
{
    assert(after_push(Seq::empty(), capacity, samples) =~= samples);
    assert(popped_into(samples, out) =~= samples);
    assert(after_pop(samples, out.len()) =~= Seq::<Sample>::empty());
}

} // verus!

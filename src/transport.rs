use vstd::prelude::*;
use ringbuf::traits::{Consumer, Producer, Split};
use ringbuf::{HeapCons, HeapProd, HeapRb};

verus! {

/// Capacity of a session's transport, in samples: several seconds of mono audio.
pub const TRANSPORT_CAPACITY: usize = 131072;

/// A bounded first-in first-out queue of sample words, backed by ringbuf's `HeapRb`.
/// Verus cannot declare ringbuf's types (their bounds are ringbuf's own traits), so the
/// ring sits in a private field and is described by `ring_items` and `ring_capacity`.
#[verifier::external_body]
pub struct SampleRing {
    rb: HeapRb<u32>,
}

/// The producing half of a split ring, used by the capture thread.
#[verifier::external_body]
pub struct SampleProducer {
    prod: HeapProd<u32>,
}

/// The consuming half of a split ring, handed to the session's owner.
#[verifier::external_body]
pub struct SampleConsumer {
    cons: HeapCons<u32>,
}

/// The samples a ring holds, oldest first.
pub uninterp spec fn ring_items(r: SampleRing) -> Seq<u32>;

/// The number of samples a ring can hold.
pub uninterp spec fn ring_capacity(r: SampleRing) -> nat;

/// The capacity of the ring that a producer half pushes into.
pub uninterp spec fn producer_capacity(p: SampleProducer) -> nat;

/// The capacity of the ring that a consumer half pops from.
pub uninterp spec fn consumer_capacity(c: SampleConsumer) -> nat;

/// Relies on ringbuf's `HeapRb::new`: an empty ring with room for `capacity` items
/// (it panics on a zero capacity).
#[verifier::external_body]
fn new_ring(capacity: usize) -> (r: SampleRing)
    requires
        capacity > 0,
    ensures
        ring_items(r) == Seq::<u32>::empty(),
        ring_capacity(r) == capacity,
{
    SampleRing { rb: HeapRb::<u32>::new(capacity) }
}

/// Relies on ringbuf's `Producer::try_push`: appends when the ring is not full,
/// otherwise hands the item back and leaves the ring as it was.
#[verifier::external_body]
fn ring_try_push(r: &mut SampleRing, x: u32) -> (res: Result<(), u32>)
    ensures
        ring_capacity(*final(r)) == ring_capacity(*old(r)),
        ring_items(*old(r)).len() < ring_capacity(*old(r)) ==> res is Ok && ring_items(*final(r))
            == ring_items(*old(r)).push(x),
        ring_items(*old(r)).len() >= ring_capacity(*old(r)) ==> res is Err && res->Err_0 == x
            && ring_items(*final(r)) == ring_items(*old(r)),
{
    r.rb.try_push(x)
}

/// Relies on ringbuf's `Consumer::try_pop`: removes and returns the oldest item,
/// or `None` when the ring is empty.
#[verifier::external_body]
fn ring_try_pop(r: &mut SampleRing) -> (res: Option<u32>)
    ensures
        ring_capacity(*final(r)) == ring_capacity(*old(r)),
        ring_items(*old(r)).len() == 0 ==> res is None && ring_items(*final(r)) == ring_items(
            *old(r),
        ),
        ring_items(*old(r)).len() > 0 ==> res == Some(ring_items(*old(r))[0]) && ring_items(
            *final(r),
        ) == ring_items(*old(r)).drop_first(),
{
    r.rb.try_pop()
}

/// Relies on ringbuf's `Split::split`: the two halves share the one ring, so
/// each sees its capacity.
#[verifier::external_body]
fn split_ring(r: SampleRing) -> (halves: (SampleProducer, SampleConsumer))
    ensures
        producer_capacity(halves.0) == ring_capacity(r),
        consumer_capacity(halves.1) == ring_capacity(r),
{
    let (prod, cons) = r.rb.split();
    (SampleProducer { prod }, SampleConsumer { cons })
}

/// Relies on ringbuf's `Producer::try_push` on a producer half. The consumer may
/// pop concurrently, so only this holds of every outcome: a refused item is the
/// one offered.
#[verifier::external_body]
fn producer_try_push(p: &mut SampleProducer, x: u32) -> (res: Result<(), u32>)
    ensures
        res is Err ==> res->Err_0 == x,
{
    p.prod.try_push(x)
}

/// Relies on ringbuf's `Consumer::try_pop` on a consumer half: the oldest sample
/// that the producer has published, if any.
#[verifier::external_body]
fn consumer_try_pop(c: &mut SampleConsumer) -> (res: Option<u32>) {
    c.cons.try_pop()
}

/// The ring after offering `samples` one at a time to a ring holding `items`
/// with room for `cap`: what fits is appended, the rest is dropped.
pub open spec fn after_pushes(items: Seq<u32>, cap: nat, samples: Seq<u32>) -> Seq<u32> {
    if items.len() >= cap {
        items
    } else {
        items + samples.take(vstd::math::min(samples.len() as int, cap - items.len()))
    }
}

/// Number of the offered samples that a ring holding `items` accepts.
pub open spec fn accepted_count(items: Seq<u32>, cap: nat, samples: Seq<u32>) -> nat {
    (after_pushes(items, cap, samples).len() - items.len()) as nat
}

/// Offering at most a capacity's worth of samples to an empty ring leaves it
/// holding exactly those samples, in order; draining it then yields them.
pub proof fn lemma_round_trip(cap: nat, samples: Seq<u32>)
    requires
        samples.len() <= cap,
    ensures
        after_pushes(Seq::<u32>::empty(), cap, samples) == samples,
        accepted_count(Seq::<u32>::empty(), cap, samples) == samples.len(),
{
    assert(after_pushes(Seq::<u32>::empty(), cap, samples) =~= samples);
}

/// Offering samples beyond the free room drops the excess offers: the samples
/// already held stay first and unchanged, the ring never exceeds its capacity,
/// and what was accepted is the leading part of the offers.
pub proof fn lemma_overflow_drops_excess(items: Seq<u32>, cap: nat, samples: Seq<u32>)
    requires
        items.len() <= cap,
    ensures
        after_pushes(items, cap, samples).len() <= cap,
        after_pushes(items, cap, samples).take(items.len() as int) == items,
        after_pushes(items, cap, samples) == items + samples.take(
            accepted_count(items, cap, samples) as int,
        ),
        items.len() + samples.len() > cap ==> after_pushes(items, cap, samples).len() == cap,
{
    let after = after_pushes(items, cap, samples);
    assert(after.take(items.len() as int) =~= items);
    if items.len() >= cap {
        assert(after =~= items + samples.take(0));
    }
}

impl SampleRing {
    /// An empty ring with room for `capacity` samples.
    pub fn with_capacity(capacity: usize) -> (r: SampleRing)
        requires
            capacity > 0,
        ensures
            ring_items(r) == Seq::<u32>::empty(),
            ring_capacity(r) == capacity,
    {
        new_ring(capacity)
    }

    /// Offers each sample in order without ever blocking; samples that find the
    /// ring full are dropped, the ones already held are kept. Returns how many
    /// were accepted.
    pub fn push_all(&mut self, samples: &Vec<u32>) -> (accepted: usize)
        ensures
            ring_capacity(*final(self)) == ring_capacity(*old(self)),
            ring_items(*final(self)) == after_pushes(
                ring_items(*old(self)),
                ring_capacity(*old(self)),
                samples@,
            ),
            accepted == accepted_count(
                ring_items(*old(self)),
                ring_capacity(*old(self)),
                samples@,
            ),
            ring_items(*old(self)).len() <= ring_capacity(*old(self)) ==> ring_items(
                *final(self),
            ).len() <= ring_capacity(*final(self)),
    {
        let ghost start = ring_items(*self);
        let ghost cap = ring_capacity(*self);
        let mut accepted: usize = 0;
        let mut i: usize = 0;
        while i < samples.len()
            invariant
                0 <= i <= samples@.len(),
                accepted <= i,
                ring_capacity(*self) == cap,
                start.len() >= cap ==> accepted == 0 && ring_items(*self) == start,
                start.len() < cap ==> accepted == vstd::math::min(i as int, cap - start.len())
                    && ring_items(*self) == start + samples@.take(accepted as int),
            decreases samples@.len() - i,
        {
            let res = ring_try_push(self, samples[i]);
            if res.is_ok() {
                accepted = accepted + 1;
                proof {
                    assert(samples@.take(accepted as int) =~= samples@.take(
                        (accepted - 1) as int,
                    ).push(samples@[i as int]));
                }
            }
            i = i + 1;
        }
        proof {
            if start.len() < cap {
                assert(after_pushes(start, cap, samples@).len() == start.len() + accepted);
            }
        }
        accepted
    }

    /// Takes every sample out, oldest first, leaving the ring empty.
    pub fn drain(&mut self) -> (out: Vec<u32>)
        ensures
            out@ == ring_items(*old(self)),
            ring_items(*final(self)) == Seq::<u32>::empty(),
            ring_capacity(*final(self)) == ring_capacity(*old(self)),
    {
        let ghost start = ring_items(*self);
        let mut out: Vec<u32> = Vec::new();
        loop
            invariant
                start == out@ + ring_items(*self),
                ring_capacity(*self) == ring_capacity(*old(self)),
            ensures
                out@ == start,
                ring_items(*self) == Seq::<u32>::empty(),
                ring_capacity(*self) == ring_capacity(*old(self)),
            decreases ring_items(*self).len(),
        {
            let ghost before = ring_items(*self);
            match ring_try_pop(self) {
                Some(x) => {
                    out.push(x);
                    proof {
                        assert(out@ + ring_items(*self) =~= start);
                    }
                },
                None => {
                    assert(ring_items(*self) =~= Seq::<u32>::empty());
                    assert(out@ =~= start);
                    break;
                },
            }
        }
        out
    }

    /// Splits the ring into its producing and consuming halves.
    pub fn split(self) -> (halves: (SampleProducer, SampleConsumer))
        ensures
            producer_capacity(halves.0) == ring_capacity(self),
            consumer_capacity(halves.1) == ring_capacity(self),
    {
        split_ring(self)
    }
}

impl SampleProducer {
    /// Offers one sample without blocking; a refused sample is handed back.
    pub fn offer(&mut self, x: u32) -> (res: Result<(), u32>)
        ensures
            res is Err ==> res->Err_0 == x,
    {
        producer_try_push(self, x)
    }

    /// Offers each sample in order without blocking, dropping those that find
    /// the ring full. Returns how many were accepted.
    pub fn offer_all(&mut self, samples: &Vec<u32>) -> (accepted: usize)
        ensures
            accepted <= samples@.len(),
    {
        let mut accepted: usize = 0;
        let mut i: usize = 0;
        while i < samples.len()
            invariant
                accepted <= i <= samples@.len(),
            decreases samples@.len() - i,
        {
            if producer_try_push(self, samples[i]).is_ok() {
                accepted = accepted + 1;
            }
            i = i + 1;
        }
        accepted
    }
}

impl SampleConsumer {
    /// The oldest published sample word, if any.
    pub fn next_word(&mut self) -> (res: Option<u32>) {
        consumer_try_pop(self)
    }
}

/// A fresh transport of `capacity` samples, split into its two halves.
pub fn open_transport(capacity: usize) -> (halves: (SampleProducer, SampleConsumer))
    requires
        capacity > 0,
    ensures
        producer_capacity(halves.0) == capacity,
        consumer_capacity(halves.1) == capacity,
{
    SampleRing::with_capacity(capacity).split()
}

} // verus!

use vstd::prelude::*;

verus! {

/// Slots in the ring of native-rate samples.
pub const NATIVE_RING_SLOTS: usize = 128;

/// Slots in the ring of output blocks.
pub const OUTPUT_RING_SLOTS: usize = 512;

/// Samples in one output block.
pub const BLOCK_SAMPLES: usize = 64;

/// The resampler stops pulling when fewer native samples than this are queued.
pub const RESAMPLER_MIN_AVAILABLE: usize = 64;

/// A block is committed only while the output ring has at least this many free slots.
pub const OUTPUT_MIN_FREE: usize = 8;

#[verifier::external_type_specification]
#[verifier::external_body]
#[verifier::reject_recursive_types(T)]
pub struct ExProducer<T>(rtrb::Producer<T>);

#[verifier::external_type_specification]
#[verifier::external_body]
#[verifier::reject_recursive_types(T)]
pub struct ExConsumer<T>(rtrb::Consumer<T>);

/// The capacity that a ring was made with.
pub uninterp spec fn ring_capacity(p: rtrb::Producer<u8>) -> nat;

/// The samples that a producer end has handed into its ring, oldest first.
pub uninterp spec fn ring_accepted(p: rtrb::Producer<u8>) -> Seq<u8>;

/// Relies on rtrb::RingBuffer::new: a single-producer single-consumer ring of
/// `capacity` slots, split into its two ends, with nothing in it yet.
#[verifier::external_body]
fn new_ring(capacity: usize) -> (r: (rtrb::Producer<u8>, rtrb::Consumer<u8>))
    requires
        0 < capacity <= 0x10000,
    ensures
        ring_capacity(r.0) == capacity,
        ring_accepted(r.0) == Seq::<u8>::empty(),
{
    rtrb::RingBuffer::new(capacity)
}

/// Relies on rtrb::Producer::push: never blocks; on success the value is written into the
/// ring, and when the ring is full at the moment of the call nothing changes and the value
/// is handed back.
#[verifier::external_body]
fn push_sample(p: &mut rtrb::Producer<u8>, sample: u8) -> (r: bool)
    ensures
        ring_capacity(*final(p)) == ring_capacity(*old(p)),
        r ==> ring_accepted(*final(p)) == ring_accepted(*old(p)).push(sample),
        !r ==> ring_accepted(*final(p)) == ring_accepted(*old(p)),
{
    p.push(sample).is_ok()
}

/// The producer end of the native sample ring, fed by the emulation tick.
#[derive(Debug)]
pub struct SampleInput {
    pub producer: rtrb::Producer<u8>,
    /// Samples dropped because the ring was full.
    pub dropped: u64,
}

impl SampleInput {
    pub open spec fn capacity(&self) -> nat {
        ring_capacity(self.producer)
    }

    /// The samples handed into the ring so far, oldest first.
    pub open spec fn accepted(&self) -> Seq<u8> {
        ring_accepted(self.producer)
    }

    /// A ring of the usual size; the consumer end goes to the resampler.
    pub fn new() -> (r: (SampleInput, rtrb::Consumer<u8>))
        ensures
            r.0.capacity() == NATIVE_RING_SLOTS,
            r.0.accepted() == Seq::<u8>::empty(),
            r.0.dropped == 0,
    {
        let (producer, consumer) = new_ring(NATIVE_RING_SLOTS);
        (SampleInput { producer, dropped: 0 }, consumer)
    }

    /// Offers one native sample without blocking. A sample that finds the ring full is
    /// dropped and counted.
    pub fn push(&mut self, sample: u8) -> (r: bool)
        ensures
            final(self).capacity() == old(self).capacity(),
            r ==> final(self).accepted() == old(self).accepted().push(sample),
            !r ==> final(self).accepted() == old(self).accepted(),
            r ==> final(self).dropped == old(self).dropped,
            !r ==> final(self).dropped == if old(self).dropped == u64::MAX {
                u64::MAX
            } else {
                (old(self).dropped + 1) as u64
            },
    {
        let ok = push_sample(&mut self.producer, sample);
        if !ok {
            self.dropped = self.dropped.saturating_add(1);
        }
        ok
    }
}

/// Whether the resampler must stop pulling: too few native samples are queued.
pub fn resampler_exhausted(available: usize) -> (r: bool)
    ensures
        r == (available < RESAMPLER_MIN_AVAILABLE),
{
    available < RESAMPLER_MIN_AVAILABLE
}

/// Whether a block can be committed: a full block is ready and the output ring has room.
pub fn can_commit_block(pending: usize, output_free: usize) -> (r: bool)
    ensures
        r == (pending >= BLOCK_SAMPLES && output_free >= OUTPUT_MIN_FREE),
{
    pending >= BLOCK_SAMPLES && output_free >= OUTPUT_MIN_FREE
}

} // verus!

//! The sample ring shared between two threads without a lock: the producer
//! and the consumer each hold a `&SharedRing`, the storage is a row of
//! atomic samples, and both cursors sit in one atomic word. Each side loads
//! the word once per step, works on that snapshot, and publishes only its
//! own half with a compare-and-swap loop; the producer's release and the
//! consumer's acquire on that word order the sample stores before the
//! cursor that exposes them. Safe with exactly one producer and one
//! consumer.
use vstd::prelude::*;

use std::sync::atomic::{AtomicI16, AtomicU64, Ordering};

use crate::packed_index::{pack, read_half, with_read_half, with_write_half, write_half};
use crate::ring::{
    consumer_step, lemma_slot, producer_step, read_amount, readable, readable_between, slot,
    valid_cursors, writable, writable_between, write_amount, write_count, Cursors, Drain,
    RingConfigError, MAX_CAPACITY,
};

verus! {

/// Relies on `AtomicU64::fetch_update`, which retries the compare-and-swap
/// until the closure's value is stored; the closure never declines, so the
/// loop ends once no other update interleaves. Replaces the write half and
/// keeps whatever read half is current at that moment.
#[verifier::external_body]
fn publish_write_half(indices: &AtomicU64, write: u32) {
    let _ = indices.fetch_update(Ordering::Release, Ordering::Acquire, |current| Some(with_write_half(current, write)));
}

/// Relies on `AtomicU64::fetch_update`, as above, for the read half.
#[verifier::external_body]
fn publish_read_half(indices: &AtomicU64, read: u32) {
    let _ = indices.fetch_update(Ordering::Release, Ordering::Acquire, |current| Some(with_read_half(current, read)));
}

/// What one step may move stays below the capacity.
proof fn lemma_bounds(c: Cursors, capacity: usize, channels: usize)
    requires
        valid_cursors(c.write as int, c.read as int, capacity as int, channels as int),
    ensures
        readable(c.write as int, c.read as int, capacity as int) < capacity,
        writable(c.write as int, c.read as int, capacity as int, channels as int) < capacity,
{
    crate::ring::lemma_counts(c.write as int, c.read as int, capacity as int, channels as int);
}

/// A lock-free single-producer, single-consumer ring of interleaved samples.
pub struct SharedRing {
    slots: Vec<AtomicI16>,
    channels: usize,
    indices: AtomicU64,
    underruns: AtomicU64,
}

impl SharedRing {
    pub closed spec fn capacity(&self) -> int {
        self.slots@.len() as int
    }

    pub closed spec fn channels(&self) -> int {
        self.channels as int
    }

    /// A whole number of frames that the packed word can address.
    pub open spec fn wf(&self) -> bool {
        &&& self.channels() > 0
        &&& self.capacity() > 0
        &&& self.capacity() % self.channels() == 0
        &&& self.capacity() <= MAX_CAPACITY
    }

    /// At least one frame fits.
    proof fn lemma_frame_fits(&self)
        requires
            self.wf(),
        ensures
            self.channels() <= self.capacity(),
    {
        vstd::arithmetic::div_mod::lemma_small_mod(0, self.channels() as nat);
        crate::arith::lemma_multiple_below(0, self.capacity(), self.channels());
    }

    /// Builds an empty ring, rejecting the same configurations as `AudioRing::new`.
    pub fn new(capacity: usize, channels: usize) -> (r: Result<SharedRing, RingConfigError>)
        ensures
            channels == 0 ==> r == Err::<SharedRing, _>(RingConfigError::NoChannels),
            channels > 0 && (capacity == 0 || capacity % channels != 0) ==> r == Err::<
                SharedRing,
                _,
            >(RingConfigError::CapacityNotWholeFrames),
            channels > 0 && capacity > 0 && capacity % channels == 0 && capacity > MAX_CAPACITY
                ==> r == Err::<SharedRing, _>(RingConfigError::CapacityTooLarge),
            r is Ok <==> (channels > 0 && capacity > 0 && capacity % channels == 0 && capacity
                <= MAX_CAPACITY),
            r matches Ok(ring) ==> {
                &&& ring.wf()
                &&& ring.capacity() == capacity
                &&& ring.channels() == channels
            },
    {
        if channels == 0 {
            return Err(RingConfigError::NoChannels);
        }
        if capacity == 0 || capacity % channels != 0 {
            return Err(RingConfigError::CapacityNotWholeFrames);
        }
        if capacity > MAX_CAPACITY {
            return Err(RingConfigError::CapacityTooLarge);
        }
        let mut slots: Vec<AtomicI16> = Vec::new();
        let mut i: usize = 0;
        while i < capacity
            invariant
                0 <= i <= capacity,
                slots@.len() == i,
            decreases capacity - i,
        {
            slots.push(AtomicI16::new(0));
            i = i + 1;
        }
        Ok(SharedRing {
            slots,
            channels,
            indices: AtomicU64::new(pack(0, 0)),
            underruns: AtomicU64::new(0),
        })
    }

    /// Number of sample slots.
    pub fn capacity_samples(&self) -> (n: usize)
        ensures
            n == self.capacity(),
    {
        self.slots.len()
    }

    /// Samples per frame.
    pub fn channel_count(&self) -> (n: usize)
        ensures
            n == self.channels(),
    {
        self.channels
    }

    /// One acquire load of the packed word, decoded. The word only ever holds
    /// valid cursors; a value that did not would be reported as `None`.
    pub fn cursors(&self) -> (c: Option<Cursors>)
        requires
            self.wf(),
        ensures
            c matches Some(c) ==> valid_cursors(
                c.write as int,
                c.read as int,
                self.capacity(),
                self.channels(),
            ),
    {
        let snapshot = self.indices.load(Ordering::Acquire);
        let write = write_half(snapshot) as usize;
        let read = read_half(snapshot) as usize;
        let capacity = self.slots.len();
        if write < capacity && read < capacity && write % self.channels == 0 && read % self.channels
            == 0 {
            Some(Cursors { write, read })
        } else {
            None
        }
    }

    /// Samples the consumer may read now.
    pub fn available_to_read(&self) -> (n: usize)
        requires
            self.wf(),
        ensures
            n <= self.capacity() - self.channels(),
            n as int % self.channels() == 0,
    {
        proof {
            self.lemma_frame_fits();
        }
        match self.cursors() {
            Some(c) => readable_between(c.write, c.read, self.slots.len(), self.channels),
            None => 0,
        }
    }

    /// Samples the producer may write now. The consumer can only make this
    /// larger before the producer's next step.
    pub fn available_to_write(&self) -> (n: usize)
        requires
            self.wf(),
        ensures
            n <= self.capacity() - self.channels(),
            n as int % self.channels() == 0,
    {
        proof {
            self.lemma_frame_fits();
        }
        match self.cursors() {
            Some(c) => writable_between(c.write, c.read, self.slots.len(), self.channels),
            None => 0,
        }
    }

    /// How many of `requested` samples the producer should synthesise: whole
    /// frames, no more than the ring can take now.
    pub fn fill_request(&self, requested: usize) -> (n: usize)
        requires
            self.wf(),
        ensures
            n <= requested,
            n <= self.capacity() - self.channels(),
            n as int % self.channels() == 0,
    {
        write_count(requested, self.available_to_write(), self.channels)
    }

    /// The producer's step: one acquire load of the cursors, then
    /// `produce_from` on that snapshot. The snapshot depends on the other
    /// thread, so what is published for each snapshot is stated there.
    pub fn produce(&self, samples: &[i16]) -> (n: usize)
        requires
            self.wf(),
        ensures
            n <= samples@.len(),
            n <= self.capacity() - self.channels(),
            n as int % self.channels() == 0,
    {
        proof {
            self.lemma_frame_fits();
        }
        match self.cursors() {
            Some(c) => self.produce_from(c, samples),
            None => 0,
        }
    }

    /// The producer's step on the snapshot `c`: stores the longest
    /// whole-frame prefix of `samples` that fits, at the slots that follow
    /// the write cursor, wrapping at the end of the storage; then publishes
    /// the write cursor that `producer_step` gives, leaving the read half as
    /// the consumer last set it. Returns the number of samples published.
    pub fn produce_from(&self, c: Cursors, samples: &[i16]) -> (n: usize)
        requires
            self.wf(),
            valid_cursors(c.write as int, c.read as int, self.capacity(), self.channels()),
        ensures
            n == write_amount(
                samples@.len() as int,
                writable(c.write as int, c.read as int, self.capacity(), self.channels()),
                self.channels(),
            ),
            n <= self.capacity() - self.channels(),
            n as int % self.channels() == 0,
    {
        let capacity = self.slots.len();
        let (n, next_write) = producer_step(c, samples.len(), capacity, self.channels);
        let ghost cap = capacity as int;
        proof {
            lemma_slot(c.write as int, 0, cap);
            lemma_bounds(c, capacity, self.channels);
        }
        let mut j: usize = 0;
        let mut at: usize = c.write;
        while j < n
            invariant
                capacity == self.capacity(),
                cap == capacity,
                capacity <= MAX_CAPACITY,
                0 <= c.write < capacity,
                n < capacity,
                n <= samples@.len(),
                0 <= j <= n,
                at == slot(c.write as int, j as int, cap),
            decreases n - j,
        {
            proof {
                lemma_slot(c.write as int, j as int, cap);
                lemma_slot(c.write as int, j + 1, cap);
            }
            self.slots[at].store(samples[j], Ordering::Relaxed);
            at = if at + 1 < capacity {
                at + 1
            } else {
                0
            };
            j = j + 1;
        }
        publish_write_half(&self.indices, next_write as u32);
        n
    }

    /// The consumer's step: one acquire load of the cursors, then
    /// `consume_from` on that snapshot. Should the word ever hold invalid
    /// cursors, the frames are silenced and nothing is published.
    pub fn consume(&self, frames: usize, dest: &mut [i16]) -> (d: Drain)
        requires
            self.wf(),
            frames * self.channels() <= old(dest)@.len(),
        ensures
            d.samples_read + d.samples_silenced == frames * self.channels(),
            d.samples_read as int % self.channels() == 0,
            final(dest)@.len() == old(dest)@.len(),
            forall|i: int|
                d.samples_read <= i < frames * self.channels() ==> #[trigger] final(dest)@[i] == 0,
            forall|i: int|
                frames * self.channels() <= i < old(dest)@.len() ==> #[trigger] final(dest)@[i]
                    == old(dest)@[i],
    {
        match self.cursors() {
            Some(c) => self.consume_from(c, frames, dest),
            None => {
                let room = dest.len();
                assert(frames * self.channels <= room);
                let needed = frames * self.channels;
                proof {
                    vstd::arithmetic::div_mod::lemma_small_mod(0, self.channels as nat);
                }
                let ghost old_dest = dest@;
                let mut j: usize = 0;
                while j < needed
                    invariant
                        j <= needed <= dest@.len(),
                        dest@.len() == old_dest.len(),
                        forall|t: int| 0 <= t < j ==> #[trigger] dest@[t] == 0,
                        forall|t: int| j <= t < dest@.len() ==> #[trigger] dest@[t] == old_dest[t],
                    decreases needed - j,
                {
                    dest[j] = 0;
                    j = j + 1;
                }
                self.underruns.fetch_add(1, Ordering::Relaxed);
                Drain { samples_read: 0, samples_silenced: needed }
            },
        }
    }

    /// The consumer's step on the snapshot `c`: fills the first `frames`
    /// frames of `dest` with the samples at the slots that follow the read
    /// cursor, as many as `consumer_step` allows, then silence for whatever
    /// was missing, counting a shortfall as one underrun; then publishes the
    /// read cursor that `consumer_step` gives, leaving the write half as the
    /// producer last set it. Never waits on the producer.
    pub fn consume_from(&self, c: Cursors, frames: usize, dest: &mut [i16]) -> (d: Drain)
        requires
            self.wf(),
            valid_cursors(c.write as int, c.read as int, self.capacity(), self.channels()),
            frames * self.channels() <= old(dest)@.len(),
        ensures
            d.samples_read == read_amount(
                readable(c.write as int, c.read as int, self.capacity()),
                frames * self.channels(),
            ),
            d.samples_read + d.samples_silenced == frames * self.channels(),
            d.samples_read as int % self.channels() == 0,
            final(dest)@.len() == old(dest)@.len(),
            forall|i: int|
                d.samples_read <= i < frames * self.channels() ==> #[trigger] final(dest)@[i] == 0,
            forall|i: int|
                frames * self.channels() <= i < old(dest)@.len() ==> #[trigger] final(dest)@[i]
                    == old(dest)@[i],
    {
        let room = dest.len();
        assert(frames * self.channels <= room);
        let needed = frames * self.channels;
        proof {
            vstd::arithmetic::div_mod::lemma_mod_multiples_basic(frames as int, self.channels as int);
        }
        let capacity = self.slots.len();
        let ghost cap = capacity as int;
        let ghost old_dest = dest@;
        let (m, next_read) = consumer_step(c, needed, capacity, self.channels);
        proof {
            lemma_slot(c.read as int, 0, cap);
            lemma_bounds(c, capacity, self.channels);
        }
        let mut j: usize = 0;
        let mut at: usize = c.read;
        while j < m
            invariant
                capacity == self.capacity(),
                cap == capacity,
                capacity <= MAX_CAPACITY,
                0 <= c.read < capacity,
                m < capacity,
                m <= needed <= dest@.len(),
                dest@.len() == old_dest.len(),
                0 <= j <= m,
                at == slot(c.read as int, j as int, cap),
                forall|t: int| j <= t < dest@.len() ==> #[trigger] dest@[t] == old_dest[t],
            decreases m - j,
        {
            proof {
                lemma_slot(c.read as int, j as int, cap);
                lemma_slot(c.read as int, j + 1, cap);
            }
            dest[j] = self.slots[at].load(Ordering::Relaxed);
            at = if at + 1 < capacity {
                at + 1
            } else {
                0
            };
            j = j + 1;
        }
        while j < needed
            invariant
                m <= j <= needed <= dest@.len(),
                dest@.len() == old_dest.len(),
                forall|t: int| m <= t < j ==> #[trigger] dest@[t] == 0,
                forall|t: int| j <= t < dest@.len() ==> #[trigger] dest@[t] == old_dest[t],
            decreases needed - j,
        {
            dest[j] = 0;
            j = j + 1;
        }
        if m < needed {
            self.underruns.fetch_add(1, Ordering::Relaxed);
        }
        publish_read_half(&self.indices, next_read as u32);
        Drain { samples_read: m, samples_silenced: needed - m }
    }

    /// Number of drains that ran short so far (wrapping).
    pub fn underrun_count(&self) -> u64 {
        self.underruns.load(Ordering::Relaxed)
    }
}

} // verus!

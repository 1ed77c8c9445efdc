//! The sample ring: a fixed-capacity circular store of interleaved samples
//! shared by one producer (the frame driver) and one consumer (the audio
//! render callback), with both cursors held in one packed word.
use vstd::prelude::*;

use crate::arith::{lemma_multiple_below, lemma_multiple_closed, lemma_wrap};
use crate::packed_index::{pack, read_half, read_of, with_read_half, with_write_half, write_half, write_of};

verus! {

/// Samples in flight between a read cursor and a write cursor.
pub open spec fn readable(write: int, read: int, capacity: int) -> int {
    (write - read) % capacity
}

/// Free slots ahead of the write cursor, keeping one frame of `channels`
/// samples in reserve so that equal cursors always mean "empty".
pub open spec fn writable(write: int, read: int, capacity: int, channels: int) -> int {
    (read - write - channels) % capacity
}

/// The storage slot `i` places after `start`.
pub open spec fn slot(start: int, i: int, capacity: int) -> int {
    (start + i) % capacity
}

/// How many samples one producer step publishes: whole frames of what was
/// offered, as many as fit.
pub open spec fn write_amount(offered: int, writable: int, channels: int) -> int {
    let whole = offered - offered % channels;
    if whole < writable {
        whole
    } else {
        writable
    }
}

/// How many samples one consumer step takes: what it needs, or what is there.
pub open spec fn read_amount(readable: int, needed: int) -> int {
    if readable < needed {
        readable
    } else {
        needed
    }
}

/// A slot index within one period of the storage wraps at most once.
pub proof fn lemma_slot(start: int, i: int, c: int)
    requires
        0 <= start < c,
        0 <= i < c,
    ensures
        slot(start, i, c) == (if start + i < c {
            start + i
        } else {
            start + i - c
        }),
        0 <= slot(start, i, c) < c,
{
    lemma_wrap(start + i, c);
}

/// The cursor arithmetic of two valid cursors: what is readable, what is
/// writable, and where the write cursor stands relative to the read cursor.
proof fn lemma_cursors(w: int, r: int, c: int, k: int)
    requires
        k > 0,
        c > 0,
        c % k == 0,
        0 <= w < c,
        0 <= r < c,
        w % k == 0,
        r % k == 0,
    ensures
        readable(w, r, c) == (if w >= r {
            w - r
        } else {
            w + c - r
        }),
        0 <= readable(w, r, c) <= c - k,
        readable(w, r, c) % k == 0,
        writable(w, r, c, k) == c - k - readable(w, r, c),
        w == slot(r, readable(w, r, c), c),
{
    lemma_wrap(w - r, c);
    let a = readable(w, r, c);
    lemma_multiple_closed(w, r, k);
    if w < r {
        lemma_multiple_closed(w - r, c, k);
    }
    lemma_multiple_below(a, c, k);
    lemma_wrap(r - w - k, c);
    lemma_slot(r, a, c);
}

/// Slots counted from the read cursor, seen from the write cursor that
/// stands `a` slots later.
proof fn lemma_shift(r: int, a: int, w: int, i: int, c: int)
    requires
        0 <= r < c,
        0 <= a < c,
        w == slot(r, a, c),
        0 <= i < c,
    ensures
        i < a ==> slot(r, i, c) == slot(w, c - a + i, c),
        a <= i ==> slot(r, i, c) == slot(w, i - a, c),
{
    lemma_slot(r, a, c);
    lemma_slot(r, i, c);
    if i < a {
        lemma_slot(w, c - a + i, c);
    } else {
        lemma_slot(w, i - a, c);
    }
}

/// Distinct offsets below one period name distinct slots.
proof fn lemma_slots_distinct(start: int, i: int, j: int, c: int)
    requires
        0 <= start < c,
        0 <= i < c,
        0 <= j < c,
        i != j,
    ensures
        slot(start, i, c) != slot(start, j, c),
{
    lemma_slot(start, i, c);
    lemma_slot(start, j, c);
}

/// Cursors that a ring of `capacity` samples in frames of `channels` can
/// hold: inside the storage and on frame boundaries.
pub open spec fn valid_cursors(write: int, read: int, capacity: int, channels: int) -> bool {
    &&& channels > 0
    &&& capacity > 0
    &&& capacity % channels == 0
    &&& 0 <= write < capacity
    &&& 0 <= read < capacity
    &&& write % channels == 0
    &&& read % channels == 0
}

/// Samples in flight between two valid cursors.
pub fn readable_between(write: usize, read: usize, capacity: usize, channels: usize) -> (n: usize)
    requires
        valid_cursors(write as int, read as int, capacity as int, channels as int),
    ensures
        n == readable(write as int, read as int, capacity as int),
        n <= capacity - channels,
        n as int % channels as int == 0,
{
    proof {
        lemma_cursors(write as int, read as int, capacity as int, channels as int);
    }
    if write >= read {
        write - read
    } else {
        capacity - read + write
    }
}

/// Free slots ahead of a valid write cursor: `(read - write - channels) mod
/// capacity`, which with what is readable always makes `capacity - channels`.
pub fn writable_between(write: usize, read: usize, capacity: usize, channels: usize) -> (n: usize)
    requires
        valid_cursors(write as int, read as int, capacity as int, channels as int),
    ensures
        n == writable(write as int, read as int, capacity as int, channels as int),
        n + readable(write as int, read as int, capacity as int) == capacity - channels,
        n as int % channels as int == 0,
{
    proof {
        lemma_cursors(write as int, read as int, capacity as int, channels as int);
        vstd::arithmetic::div_mod::lemma_mod_self_0(channels as int);
        lemma_multiple_closed(capacity as int, channels as int, channels as int);
        lemma_multiple_closed(
            capacity - channels,
            readable(write as int, read as int, capacity as int),
            channels as int,
        );
    }
    if write >= read {
        capacity - channels - (write - read)
    } else {
        read - write - channels
    }
}

/// Whole frames of `offered` samples, no more than `writable`.
pub fn write_count(offered: usize, writable: usize, channels: usize) -> (n: usize)
    requires
        channels > 0,
        writable as int % channels as int == 0,
    ensures
        n == write_amount(offered as int, writable as int, channels as int),
        n <= offered,
        n <= writable,
        n as int % channels as int == 0,
{
    proof {
        let (o, k) = (offered as int, channels as int);
        vstd::arithmetic::div_mod::lemma_mod_decreases(offered as nat, channels as nat);
        vstd::arithmetic::div_mod::lemma_fundamental_div_mod(o, k);
        assert((o / k) * k == k * (o / k)) by (nonlinear_arith);
        vstd::arithmetic::div_mod::lemma_fundamental_div_mod_converse(o - o % k, k, o / k, 0);
    }
    let whole = offered - offered % channels;
    if whole < writable {
        whole
    } else {
        writable
    }
}

/// The counts between two valid cursors: each at least zero, and together
/// the capacity less one frame.
pub proof fn lemma_counts(w: int, r: int, c: int, k: int)
    requires
        valid_cursors(w, r, c, k),
    ensures
        0 <= readable(w, r, c) <= c - k,
        writable(w, r, c, k) == c - k - readable(w, r, c),
{
    lemma_cursors(w, r, c, k);
}

/// Cursors read from one load of the packed word.
#[derive(Debug, Clone, Copy, PartialEq, Eq, Structural)]
pub struct Cursors {
    pub write: usize,
    pub read: usize,
}

/// The producer's decision from one snapshot of the cursors: how many of
/// `offered` samples to publish, and where the write cursor then stands.
pub fn producer_step(c: Cursors, offered: usize, capacity: usize, channels: usize) -> (r: (
    usize,
    usize,
))
    requires
        valid_cursors(c.write as int, c.read as int, capacity as int, channels as int),
    ensures
        r.0 == write_amount(
            offered as int,
            writable(c.write as int, c.read as int, capacity as int, channels as int),
            channels as int,
        ),
        r.0 <= offered,
        r.0 <= capacity - channels,
        r.0 as int % channels as int == 0,
        r.1 == slot(c.write as int, r.0 as int, capacity as int),
        valid_cursors(r.1 as int, c.read as int, capacity as int, channels as int),
{
    let free = writable_between(c.write, c.read, capacity, channels);
    let n = write_count(offered, free, channels);
    proof {
        lemma_cursors(c.write as int, c.read as int, capacity as int, channels as int);
        lemma_slot(c.write as int, n as int, capacity as int);
        lemma_multiple_closed(c.write as int, n as int, channels as int);
        lemma_multiple_closed(c.write + n, capacity as int, channels as int);
    }
    let next = if n < capacity - c.write {
        c.write + n
    } else {
        n - (capacity - c.write)
    };
    (n, next)
}

/// The consumer's decision from one snapshot of the cursors: how many of
/// the `needed` samples can be read, and where the read cursor then stands.
pub fn consumer_step(c: Cursors, needed: usize, capacity: usize, channels: usize) -> (r: (
    usize,
    usize,
))
    requires
        valid_cursors(c.write as int, c.read as int, capacity as int, channels as int),
        needed as int % channels as int == 0,
    ensures
        r.0 == read_amount(readable(c.write as int, c.read as int, capacity as int), needed as int),
        r.0 as int % channels as int == 0,
        r.1 == slot(c.read as int, r.0 as int, capacity as int),
        valid_cursors(c.write as int, r.1 as int, capacity as int, channels as int),
{
    let available = readable_between(c.write, c.read, capacity, channels);
    let m = if available < needed {
        available
    } else {
        needed
    };
    proof {
        lemma_cursors(c.write as int, c.read as int, capacity as int, channels as int);
        lemma_slot(c.read as int, m as int, capacity as int);
        lemma_multiple_closed(c.read as int, m as int, channels as int);
        lemma_multiple_closed(c.read + m, capacity as int, channels as int);
    }
    let next = if m < capacity - c.read {
        c.read + m
    } else {
        m - (capacity - c.read)
    };
    (m, next)
}

/// Why a ring could not be built.
#[derive(Debug, Clone, Copy, PartialEq, Eq, Structural)]
pub enum RingConfigError {
    /// The channel count was zero.
    NoChannels,
    /// The capacity was zero or not a whole number of frames.
    CapacityNotWholeFrames,
    /// The capacity does not fit in one half of the packed cursor word.
    CapacityTooLarge,
}

/// The largest capacity the packed cursor word can address.
pub const MAX_CAPACITY: usize = 0xffff_ffff;

/// The result of one drain of the ring by the consumer.
#[derive(Debug, Clone, Copy, PartialEq, Eq, Structural)]
pub struct Drain {
    /// Samples copied out of the ring.
    pub samples_read: usize,
    /// Trailing destination samples filled with silence because the ring ran dry.
    pub samples_silenced: usize,
}

impl Drain {
    /// Whether the drain ran short of samples.
    pub fn is_underrun(&self) -> (r: bool)
        ensures
            r == (self.samples_silenced > 0),
    {
        self.samples_silenced > 0
    }
}

/// A fixed-capacity ring of interleaved 16-bit samples.
pub struct AudioRing {
    storage: Vec<i16>,
    channels: usize,
    indices: u64,
    underruns: u64,
    history: Ghost<Seq<i16>>,
    consumed: Ghost<nat>,
}

impl AudioRing {
    /// Number of sample slots.
    pub closed spec fn capacity(&self) -> int {
        self.storage@.len() as int
    }

    /// Samples per frame.
    pub closed spec fn channels(&self) -> int {
        self.channels as int
    }

    /// The producer's cursor, as published in the packed word.
    pub closed spec fn write_index(&self) -> int {
        write_of(self.indices)
    }

    /// The consumer's cursor, as published in the packed word.
    pub closed spec fn read_index(&self) -> int {
        read_of(self.indices)
    }

    /// The slot contents.
    pub closed spec fn storage(&self) -> Seq<i16> {
        self.storage@
    }

    /// Number of drains that ran short.
    pub closed spec fn underruns(&self) -> int {
        self.underruns as int
    }

    /// Every sample the producer has ever published, oldest first.
    pub closed spec fn history(&self) -> Seq<i16> {
        self.history@
    }

    /// How many samples of the history the consumer has taken.
    pub closed spec fn consumed(&self) -> int {
        self.consumed@ as int
    }

    /// Samples published and not yet read, oldest first.
    pub open spec fn in_flight(&self) -> Seq<i16> {
        Seq::new(
            readable(self.write_index(), self.read_index(), self.capacity()) as nat,
            |i: int| self.storage()[slot(self.read_index(), i, self.capacity())],
        )
    }

    /// Samples the consumer may read now.
    pub open spec fn readable_now(&self) -> int {
        readable(self.write_index(), self.read_index(), self.capacity())
    }

    /// Samples the producer may write now.
    pub open spec fn writable_now(&self) -> int {
        writable(self.write_index(), self.read_index(), self.capacity(), self.channels())
    }

    /// The ring's invariant: whole-frame capacity that the packed word can
    /// address, both cursors frame-aligned inside the storage, and the
    /// samples in flight being exactly the unread tail of the history.
    pub open spec fn wf(&self) -> bool {
        &&& self.channels() > 0
        &&& self.capacity() > 0
        &&& self.capacity() % self.channels() == 0
        &&& self.capacity() <= MAX_CAPACITY
        &&& 0 <= self.write_index() < self.capacity()
        &&& 0 <= self.read_index() < self.capacity()
        &&& self.write_index() % self.channels() == 0
        &&& self.read_index() % self.channels() == 0
        &&& 0 <= self.consumed() <= self.history().len()
        &&& self.in_flight() == self.history().subrange(self.consumed(), self.history().len() as int)
    }

    /// Builds an empty ring of `capacity` samples for frames of `channels`
    /// samples each.
    pub fn new(capacity: usize, channels: usize) -> (r: Result<AudioRing, RingConfigError>)
        ensures
            channels == 0 ==> r == Err::<AudioRing, _>(RingConfigError::NoChannels),
            channels > 0 && (capacity == 0 || capacity % channels != 0) ==> r == Err::<
                AudioRing,
                _,
            >(RingConfigError::CapacityNotWholeFrames),
            channels > 0 && capacity > 0 && capacity % channels == 0 && capacity > MAX_CAPACITY
                ==> r == Err::<AudioRing, _>(RingConfigError::CapacityTooLarge),
            r is Ok <==> (channels > 0 && capacity > 0 && capacity % channels == 0 && capacity
                <= MAX_CAPACITY),
            r matches Ok(ring) ==> {
                &&& ring.wf()
                &&& ring.capacity() == capacity
                &&& ring.channels() == channels
                &&& ring.write_index() == 0
                &&& ring.read_index() == 0
                &&& ring.in_flight() == Seq::<i16>::empty()
                &&& ring.history() == Seq::<i16>::empty()
                &&& ring.underruns() == 0
            },
    {
        if channels == 0 {
            return Err(RingConfigError::NoChannels);
        }
        if capacity == 0 || capacity % channels != 0 {
            return Err(RingConfigError::CapacityNotWholeFrames);
        }
        if capacity > MAX_CAPACITY {
            return Err(RingConfigError::CapacityTooLarge);
        }
        let storage: Vec<i16> = vec![0i16; capacity];
        let ring = AudioRing {
            storage,
            channels,
            indices: pack(0, 0),
            underruns: 0,
            history: Ghost(Seq::empty()),
            consumed: Ghost(0),
        };
        proof {
            vstd::arithmetic::div_mod::lemma_small_mod(0, capacity as nat);
            vstd::arithmetic::div_mod::lemma_small_mod(0, channels as nat);
            assert(ring.in_flight() =~= Seq::<i16>::empty());
            assert(ring.history().subrange(0, 0) =~= Seq::<i16>::empty());
        }
        Ok(ring)
    }

    /// Samples the consumer may read, from one load of the cursor word.
    pub fn available_to_read(&self) -> (n: usize)
        requires
            self.wf(),
        ensures
            n == self.readable_now(),
            n == self.in_flight().len(),
    {
        let snapshot = self.indices;
        readable_between(
            write_half(snapshot) as usize,
            read_half(snapshot) as usize,
            self.storage.len(),
            self.channels,
        )
    }

    /// Samples the producer may write, from one load of the cursor word:
    /// `(read - write - channels) mod capacity`.
    pub fn available_to_write(&self) -> (n: usize)
        requires
            self.wf(),
        ensures
            n == self.writable_now(),
            n as int % self.channels() == 0,
    {
        let snapshot = self.indices;
        writable_between(
            write_half(snapshot) as usize,
            read_half(snapshot) as usize,
            self.storage.len(),
            self.channels,
        )
    }

    /// The producer's step: copies the longest whole-frame prefix of
    /// `samples` that fits into the ring at the write cursor, wrapping at the
    /// end of the storage, then publishes the advanced write cursor without
    /// touching the read cursor. Returns the number of samples published.
    pub fn produce(&mut self, samples: &[i16]) -> (n: usize)
        requires
            old(self).wf(),
        ensures
            final(self).wf(),
            n == write_amount(samples@.len() as int, old(self).writable_now(), old(self).channels()),
            final(self).in_flight() == old(self).in_flight() + samples@.subrange(0, n as int),
            final(self).history() == old(self).history() + samples@.subrange(0, n as int),
            final(self).consumed() == old(self).consumed(),
            final(self).read_index() == old(self).read_index(),
            final(self).write_index() == slot(old(self).write_index(), n as int, old(self).capacity()),
            forall|j: int|
                0 <= j < n ==> final(self).storage()[#[trigger] slot(
                    old(self).write_index(),
                    j,
                    old(self).capacity(),
                )] == samples@[j],
            forall|p: int|
                0 <= p < old(self).capacity() && (p - old(self).write_index()) % old(self).capacity()
                    >= n ==> #[trigger] final(self).storage()[p] == old(self).storage()[p],
            n == 0 ==> final(self).storage() == old(self).storage(),
            final(self).capacity() == old(self).capacity(),
            final(self).channels() == old(self).channels(),
            final(self).underruns() == old(self).underruns(),
    {
        let snapshot = self.indices;
        let write = write_half(snapshot) as usize;
        let read = read_half(snapshot) as usize;
        let capacity = self.storage.len();
        let channels = self.channels;
        let ghost c = capacity as int;
        let ghost k = channels as int;
        let ghost a = readable(write as int, read as int, c);
        proof {
            lemma_cursors(write as int, read as int, c, k);
        }
        let (n, new_write) = producer_step(Cursors { write, read }, samples.len(), capacity, channels);
        let ghost old_storage = self.storage@;
        proof {
            lemma_slot(write as int, 0, c);
        }
        let mut j: usize = 0;
        let mut at: usize = write;
        while j < n
            invariant
                self.storage@.len() == c,
                0 <= write < c,
                n <= c - k - a,
                0 <= a,
                c <= MAX_CAPACITY,
                capacity == c,
                self.indices == old(self).indices,
                self.channels == old(self).channels,
                self.underruns == old(self).underruns,
                self.history == old(self).history,
                self.consumed == old(self).consumed,
                k > 0,
                0 <= j <= n,
                at == slot(write as int, j as int, c),
                samples@.len() >= n,
                forall|t: int| 0 <= t < j ==> self.storage@[#[trigger] slot(write as int, t, c)] == samples@[t],
                forall|i: int|
                    j <= i < c ==> self.storage@[#[trigger] slot(write as int, i, c)] == old_storage[slot(
                        write as int,
                        i,
                        c,
                    )],
            decreases n - j,
        {
            proof {
                lemma_slot(write as int, j as int, c);
                assert forall|t: int| 0 <= t < j implies slot(write as int, t, c) != slot(
                    write as int,
                    j as int,
                    c,
                ) by {
                    lemma_slots_distinct(write as int, t, j as int, c);
                }
                assert forall|i: int| j < i < c implies slot(write as int, i, c) != slot(
                    write as int,
                    j as int,
                    c,
                ) by {
                    lemma_slots_distinct(write as int, i, j as int, c);
                }
            }
            self.storage.set(at, samples[j]);
            proof {
                lemma_slot(write as int, j + 1, c);
            }
            at = if at + 1 < capacity {
                at + 1
            } else {
                0
            };
            j = j + 1;
        }
        self.indices = with_write_half(self.indices, new_write as u32);
        self.history = Ghost(self.history@ + samples@.subrange(0, n as int));
        proof {
            let nw = new_write as int;
            let r = read as int;
            lemma_cursors(nw, r, c, k);
            lemma_slot(r, a, c);
            lemma_slot(write as int, n as int, c);
            lemma_slot(r, a + n, c);
            assert(readable(nw, r, c) == a + n);
            let old_view = old(self).in_flight();
            let expected = old_view + samples@.subrange(0, n as int);
            assert forall|i: int| 0 <= i < a + n implies #[trigger] self.in_flight()[i] == expected[i] by {
                lemma_shift(r, a, write as int, i, c);
                if i < a {
                    assert(self.storage@[slot(write as int, c - a + i, c)] == old_storage[slot(
                        write as int,
                        c - a + i,
                        c,
                    )]);
                } else {
                    assert(self.storage@[slot(write as int, i - a, c)] == samples@[i - a]);
                }
            }
            assert(self.in_flight() =~= expected);
            assert(self.history().subrange(self.consumed(), self.history().len() as int)
                =~= old(self).history().subrange(self.consumed(), old(self).history().len() as int)
                + samples@.subrange(0, n as int));
            assert forall|p: int| 0 <= p < c && (p - write) % c >= n implies #[trigger] self.storage@[p]
                == old_storage[p] by {
                lemma_wrap(p - write, c);
                lemma_slot(write as int, (p - write) % c, c);
            }
            if n == 0 {
                assert(self.storage@ =~= old_storage);
            }
        }
        n
    }

    /// The consumer's step: fills the first `frames` frames of `dest` with
    /// the oldest samples in flight, in order, wrapping at the end of the
    /// storage; when fewer are in flight than needed, the rest of those
    /// frames is silence and the shortfall is counted as one underrun. The
    /// advanced read cursor is then published without touching the write
    /// cursor. Never blocks and never fails.
    pub fn consume(&mut self, frames: usize, dest: &mut [i16]) -> (d: Drain)
        requires
            old(self).wf(),
            frames * old(self).channels() <= old(dest)@.len(),
        ensures
            final(self).wf(),
            d.samples_read == read_amount(old(self).readable_now(), frames * old(self).channels()),
            d.samples_read + d.samples_silenced == frames * old(self).channels(),
            final(dest)@.len() == old(dest)@.len(),
            final(dest)@.subrange(0, d.samples_read as int) == old(self).in_flight().subrange(
                0,
                d.samples_read as int,
            ),
            forall|i: int|
                d.samples_read <= i < frames * old(self).channels() ==> #[trigger] final(dest)@[i]
                    == 0,
            forall|i: int|
                frames * old(self).channels() <= i < old(dest)@.len() ==> #[trigger] final(dest)@[i]
                    == old(dest)@[i],
            final(self).in_flight() == old(self).in_flight().subrange(
                d.samples_read as int,
                old(self).in_flight().len() as int,
            ),
            final(self).storage() == old(self).storage(),
            final(self).history() == old(self).history(),
            final(self).consumed() == old(self).consumed() + d.samples_read,
            final(self).write_index() == old(self).write_index(),
            final(self).read_index() == slot(
                old(self).read_index(),
                d.samples_read as int,
                old(self).capacity(),
            ),
            final(self).underruns() == (if d.samples_silenced > 0 && old(self).underruns() < u64::MAX {
                old(self).underruns() + 1
            } else {
                old(self).underruns()
            }),
            final(self).capacity() == old(self).capacity(),
            final(self).channels() == old(self).channels(),
    {
        let snapshot = self.indices;
        let write = write_half(snapshot) as usize;
        let read = read_half(snapshot) as usize;
        let capacity = self.storage.len();
        let channels = self.channels;
        let ghost c = capacity as int;
        let ghost k = channels as int;
        let ghost a = readable(write as int, read as int, c);
        proof {
            lemma_cursors(write as int, read as int, c, k);
        }
        assert(old(self).in_flight().len() == a);
        let room = dest.len();
        assert(frames * channels <= room);
        let needed = frames * channels;
        proof {
            vstd::arithmetic::div_mod::lemma_mod_multiples_basic(frames as int, k);
            lemma_slot(read as int, 0, c);
        }
        let (m, new_read) = consumer_step(Cursors { write, read }, needed, capacity, channels);
        let ghost old_dest = dest@;
        let mut j: usize = 0;
        let mut at: usize = read;
        while j < m
            invariant
                self.storage@.len() == c,
                self.storage == old(self).storage,
                capacity == c,
                c <= MAX_CAPACITY,
                0 <= read < c,
                m <= a < c,
                m <= needed <= dest@.len(),
                0 <= j <= m,
                at == slot(read as int, j as int, c),
                dest@.len() == old_dest.len(),
                forall|t: int| 0 <= t < j ==> dest@[t] == self.storage@[#[trigger] slot(read as int, t, c)],
                forall|t: int| j <= t < dest@.len() ==> #[trigger] dest@[t] == old_dest[t],
            decreases m - j,
        {
            proof {
                lemma_slot(read as int, j as int, c);
                lemma_slot(read as int, j + 1, c);
            }
            dest[j] = self.storage[at];
            at = if at + 1 < capacity {
                at + 1
            } else {
                0
            };
            j = j + 1;
        }
        while j < needed
            invariant
                m <= j <= needed <= dest@.len(),
                dest@.len() == old_dest.len(),
                forall|t: int| 0 <= t < m ==> dest@[t] == self.storage@[#[trigger] slot(read as int, t, c)],
                forall|t: int| m <= t < j ==> #[trigger] dest@[t] == 0,
                forall|t: int| j <= t < dest@.len() ==> #[trigger] dest@[t] == old_dest[t],
            decreases needed - j,
        {
            dest[j] = 0;
            j = j + 1;
        }
        let drain = Drain { samples_read: m, samples_silenced: needed - m };
        if m < needed && self.underruns < u64::MAX {
            self.underruns = self.underruns + 1;
        }
        self.indices = with_read_half(self.indices, new_read as u32);
        self.consumed = Ghost(self.consumed@ + m as nat);
        proof {
            let nr = new_read as int;
            let w = write as int;
            lemma_cursors(w, nr, c, k);
            lemma_shift(read as int, m as int, nr, 0, c);
            assert(readable(w, nr, c) == a - m) by {
                lemma_slot(read as int, a, c);
                lemma_slot(read as int, m as int, c);
                lemma_wrap(w - nr, c);
            }
            let old_view = old(self).in_flight();
            let expected = old_view.subrange(m as int, a);
            assert forall|i: int| 0 <= i < a - m implies #[trigger] self.in_flight()[i] == expected[i] by {
                lemma_shift(read as int, m as int, nr, m + i, c);
            }
            assert(self.in_flight() =~= expected);
            assert(self.history().subrange(self.consumed(), self.history().len() as int)
                =~= old(self).history().subrange(old(self).consumed(), old(self).history().len() as int)
                .subrange(m as int, a));
            assert(dest@.subrange(0, m as int) =~= old_view.subrange(0, m as int));
        }
        drain
    }

    /// How many of `requested` samples the producer should synthesise this
    /// tick: whole frames, no more than the ring can take now.
    pub fn fill_request(&self, requested: usize) -> (n: usize)
        requires
            self.wf(),
        ensures
            n == write_amount(requested as int, self.writable_now(), self.channels()),
            n as int % self.channels() == 0,
            n <= self.writable_now(),
    {
        write_count(requested, self.available_to_write(), self.channels)
    }

    /// Number of sample slots.
    pub fn capacity_samples(&self) -> (n: usize)
        ensures
            n == self.capacity(),
    {
        self.storage.len()
    }

    /// Samples per frame.
    pub fn channel_count(&self) -> (n: usize)
        ensures
            n == self.channels(),
    {
        self.channels
    }

    /// Number of drains that ran short so far.
    pub fn underrun_count(&self) -> (n: u64)
        ensures
            n == self.underruns(),
    {
        self.underruns
    }
}

/// Occupancy of a ring after one tick in which the producer offers `rate`
/// samples and the consumer then asks for `rate` samples.
pub open spec fn occupancy_after_tick(occupied: int, rate: int, capacity: int, channels: int) -> int {
    let filled = occupied + write_amount(rate, capacity - channels - occupied, channels);
    filled - read_amount(filled, rate)
}

/// Occupancy after `ticks` such ticks.
pub open spec fn occupancy_after_ticks(
    occupied: int,
    rate: int,
    capacity: int,
    channels: int,
    ticks: nat,
) -> int
    decreases ticks,
{
    if ticks == 0 {
        occupied
    } else {
        occupancy_after_ticks(
            occupancy_after_tick(occupied, rate, capacity, channels),
            rate,
            capacity,
            channels,
            (ticks - 1) as nat,
        )
    }
}

/// At every observation point, what can be read plus what can be written
/// is the capacity less the one reserved frame.
pub proof fn lemma_reserved_frame(ring: &AudioRing)
    requires
        ring.wf(),
    ensures
        ring.readable_now() + ring.writable_now() == ring.capacity() - ring.channels(),
        0 <= ring.readable_now(),
        0 <= ring.writable_now(),
{
    lemma_cursors(ring.write_index(), ring.read_index(), ring.capacity(), ring.channels());
}

/// Every sample in flight sits in the slot the producer last wrote for it:
/// the sample `i` places after the read cursor is the producer's sample
/// number `consumed + i`, so the consumer never sees a stale or torn value.
pub proof fn lemma_reads_follow_writes(ring: &AudioRing, i: int)
    requires
        ring.wf(),
        0 <= i < ring.readable_now(),
    ensures
        ring.storage()[slot(ring.read_index(), i, ring.capacity())] == ring.history()[ring.consumed() + i],
{
    lemma_reserved_frame(ring);
    let tail = ring.history().subrange(ring.consumed(), ring.history().len() as int);
    assert(ring.in_flight().len() == tail.len());
    assert(ring.in_flight()[i] == ring.storage()[slot(ring.read_index(), i, ring.capacity())]);
    assert(tail[i] == ring.history()[ring.consumed() + i]);
}

/// When the producer offers exactly what the consumer drains each tick,
/// the occupancy settles after the first tick and never grows: from then on
/// the space left to write is the same every tick.
pub proof fn lemma_steady_state(occupied: int, rate: int, capacity: int, channels: int, ticks: nat)
    requires
        channels > 0,
        capacity > 0,
        capacity % channels == 0,
        0 <= occupied <= capacity - channels,
        occupied % channels == 0,
        rate >= 0,
        rate % channels == 0,
        ticks >= 1,
    ensures
        occupancy_after_ticks(occupied, rate, capacity, channels, ticks) == occupancy_after_tick(
            occupied,
            rate,
            capacity,
            channels,
        ),
        occupancy_after_tick(occupied, rate, capacity, channels) <= occupied,
        0 <= occupancy_after_tick(occupied, rate, capacity, channels) <= capacity - channels,
    decreases ticks,
{
    let settled = occupancy_after_tick(occupied, rate, capacity, channels);
    assert(rate - rate % channels == rate);
    assert(occupancy_after_tick(settled, rate, capacity, channels) == settled);
    lemma_steady_state_from(settled, rate, capacity, channels, (ticks - 1) as nat);
    assert(occupancy_after_ticks(occupied, rate, capacity, channels, ticks) == occupancy_after_ticks(
        settled,
        rate,
        capacity,
        channels,
        (ticks - 1) as nat,
    ));
}

proof fn lemma_steady_state_from(settled: int, rate: int, capacity: int, channels: int, ticks: nat)
    requires
        occupancy_after_tick(settled, rate, capacity, channels) == settled,
    ensures
        occupancy_after_ticks(settled, rate, capacity, channels, ticks) == settled,
    decreases ticks,
{
    if ticks > 0 {
        lemma_steady_state_from(settled, rate, capacity, channels, (ticks - 1) as nat);
    }
}

/// A drain that runs while a frame tick holds the guard, between the tick
/// reading the space it may fill and publishing what it wrote, takes only
/// samples that were already published and never shrinks that space: the
/// tick's publish still goes through in full. The drain itself does not wait
/// on the tick.
pub proof fn lemma_drain_during_tick(before: &AudioRing, after: &AudioRing, reserved: int)
    requires
        before.wf(),
        after.wf(),
        after.capacity() == before.capacity(),
        after.channels() == before.channels(),
        after.write_index() == before.write_index(),
        after.history() == before.history(),
        before.consumed() <= after.consumed(),
        0 <= reserved <= before.writable_now(),
        reserved % before.channels() == 0,
    ensures
        after.in_flight() == before.in_flight().subrange(
            after.consumed() - before.consumed(),
            before.in_flight().len() as int,
        ),
        after.writable_now() >= before.writable_now(),
        write_amount(reserved, after.writable_now(), after.channels()) == reserved,
{
    lemma_reserved_frame(before);
    lemma_reserved_frame(after);
    assert(after.in_flight() =~= before.in_flight().subrange(
        after.consumed() - before.consumed(),
        before.in_flight().len() as int,
    ));
    assert(reserved - reserved % before.channels() == reserved);
}

} // verus!

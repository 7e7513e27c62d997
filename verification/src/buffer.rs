use vstd::prelude::*;

verus! {

/// Number of 32-bit words in each per-instance attribute channel (a GPU
/// `vec4`): every instance carries `CHANNEL_WIDTH` words per channel.
pub const CHANNEL_WIDTH: usize = 4;

/// Additive capacity increment: when the buffer is full, room for this many
/// further instances is allocated.  A fixed step keeps reallocation simple
/// and is adequate for bounded per-frame primitive counts.
pub const GROWTH_STEP: usize = 10;

/// Upper bound on the instance capacity.  It keeps the word count of each
/// backing store inside `usize` on every target and the instance count
/// inside `u32`, the width the instanced draw call takes.
pub const MAX_CAPACITY: usize = 0x0100_0000;

/// One 4-wide attribute value: four opaque 32-bit scalar words.  The buffer
/// never interprets them; a caller that feeds the GPU stores IEEE-754
/// single-precision bit patterns here.
#[derive(Clone, Copy, PartialEq, Eq, Structural, Debug)]
pub struct Scalar4 {
    pub x: u32,
    pub y: u32,
    pub z: u32,
    pub w: u32,
}

/// One renderable primitive's data for one frame.
///
/// `destination` is the screen-space placement rectangle; `source_or_color`
/// is an RGBA color or a texture sub-rectangle; `shape_transform` carries a
/// shape discriminant and shape-specific parameters.  Which meaning applies
/// is a caller convention the buffer does not enforce.
#[derive(Clone, Copy, PartialEq, Eq, Structural, Debug)]
pub struct InstanceRecord {
    pub destination: Scalar4,
    pub source_or_color: Scalar4,
    pub shape_transform: Scalar4,
}

/// The 4-wide attribute value stored at slot `i` of a flat channel.
pub open spec fn slot_of(words: Seq<u32>, i: int) -> Scalar4 {
    Scalar4 {
        x: words[CHANNEL_WIDTH * i],
        y: words[CHANNEL_WIDTH * i + 1],
        z: words[CHANNEL_WIDTH * i + 2],
        w: words[CHANNEL_WIDTH * i + 3],
    }
}

/// The bookkeeping pair of a batch buffer, used to state how a sequence of
/// calls evolves the buffer irrespective of the stored words.
pub struct Counters {
    pub count: nat,
    pub capacity: nat,
}

/// Counters of a freshly initialized buffer: nothing stored, nothing allocated.
pub open spec fn initial_counters() -> Counters {
    Counters { count: 0, capacity: 0 }
}

/// The capacity after an append: unchanged if a slot was free, one growth
/// step larger if the buffer was full.
pub open spec fn grown_capacity(count: nat, capacity: nat) -> nat {
    if count == capacity {
        capacity + (GROWTH_STEP as nat)
    } else {
        capacity
    }
}

/// Effect of one `add_instance` call on the bookkeeping pair.
pub open spec fn after_append(c: Counters) -> Counters {
    Counters { count: c.count + 1, capacity: grown_capacity(c.count, c.capacity) }
}

/// Effect of one `flush_and_reset` call on the bookkeeping pair.
pub open spec fn after_reset(c: Counters) -> Counters {
    Counters { count: 0, capacity: c.capacity }
}

/// The bookkeeping pair after `n` appends into a freshly initialized buffer.
pub open spec fn counters_after_appends(n: nat) -> Counters
    decreases n,
{
    if n == 0 {
        initial_counters()
    } else {
        after_append(counters_after_appends((n - 1) as nat))
    }
}

/// Mathematical image of a [`Buffer`]: the three flat channels, word by
/// word, plus the slot bookkeeping.
pub struct BatchView {
    pub destination: Seq<u32>,
    pub source_or_color: Seq<u32>,
    pub shape_transform: Seq<u32>,
    pub count: nat,
    pub capacity: nat,
}

impl BatchView {
    /// Well-formedness: the three backing stores never desynchronize — each
    /// holds exactly `CHANNEL_WIDTH * capacity` words — the instance count
    /// fits the allocation, and the allocation stays within `MAX_CAPACITY`.
    pub open spec fn wf(self) -> bool {
        &&& self.destination.len() == CHANNEL_WIDTH * self.capacity
        &&& self.source_or_color.len() == CHANNEL_WIDTH * self.capacity
        &&& self.shape_transform.len() == CHANNEL_WIDTH * self.capacity
        &&& self.count <= self.capacity
        &&& self.capacity <= MAX_CAPACITY
    }

    /// The record occupying slot `i`, assembled from the three channels.
    pub open spec fn record_at(self, i: int) -> InstanceRecord {
        InstanceRecord {
            destination: slot_of(self.destination, i),
            source_or_color: slot_of(self.source_or_color, i),
            shape_transform: slot_of(self.shape_transform, i),
        }
    }

    /// All records appended since the last reset, in order.
    pub open spec fn records(self) -> Seq<InstanceRecord> {
        Seq::new(self.count, |i: int| self.record_at(i))
    }

    /// The bookkeeping pair of this view.
    pub open spec fn counters(self) -> Counters {
        Counters { count: self.count, capacity: self.capacity }
    }
}

/// Instance batch buffer: three parallel per-instance attribute channels
/// that accumulate one frame's primitives for a single instanced draw call.
///
/// Slots live in three flat word stores of equal size.  `add_instance`
/// grows the stores on demand and writes one slot; `flush_and_reset` ends
/// the frame.  The GPU-facing side — uploading the stores and issuing the
/// draw call — belongs to the rendering layer around this crate, which
/// reads the channels through the accessors here.
pub struct Buffer {
    destination: Vec<u32>,
    source_or_color: Vec<u32>,
    shape_transform: Vec<u32>,
    count: usize,
    capacity: usize,
}

impl View for Buffer {
    type V = BatchView;

    closed spec fn view(&self) -> BatchView {
        BatchView {
            destination: self.destination@,
            source_or_color: self.source_or_color@,
            shape_transform: self.shape_transform@,
            count: self.count as nat,
            capacity: self.capacity as nat,
        }
    }
}

/// Appends zeroed words until `words` holds `new_len` of them; existing
/// words keep their place and value.
fn pad_with_zeros(words: &mut Vec<u32>, new_len: usize)
    requires
        old(words)@.len() <= new_len,
    ensures
        final(words)@.len() == new_len,
        forall|i: int| 0 <= i < old(words)@.len() ==> final(words)@[i] == old(words)@[i],
{
    while words.len() < new_len
        invariant
            old(words)@.len() <= words@.len() <= new_len,
            forall|i: int| 0 <= i < old(words)@.len() ==> words@[i] == old(words)@[i],
        decreases new_len - words@.len(),
    {
        words.push(0);
    }
}

/// Writes one 4-wide attribute value at word offset `base`, leaving every
/// other word unchanged.
fn write_slot(words: &mut Vec<u32>, base: usize, value: Scalar4)
    requires
        base + CHANNEL_WIDTH <= old(words)@.len(),
        old(words)@.len() <= usize::MAX,
    ensures
        final(words)@.len() == old(words)@.len(),
        forall|i: int|
            0 <= i < old(words)@.len() && !(base <= i < base + CHANNEL_WIDTH)
                ==> final(words)@[i] == old(words)@[i],
        final(words)@[base as int] == value.x,
        final(words)@[base + 1] == value.y,
        final(words)@[base + 2] == value.z,
        final(words)@[base + 3] == value.w,
{
    words.set(base, value.x);
    words.set(base + 1, value.y);
    words.set(base + 2, value.z);
    words.set(base + 3, value.w);
}

impl Buffer {
    /// A fresh buffer: zero capacity, empty backing stores.
    ///
    /// Registering the attribute layout with the rendering context is the
    /// caller's job, done once when this buffer is created.
    pub fn new() -> (buffer: Buffer)
        ensures
            buffer@.wf(),
            buffer@.counters() == initial_counters(),
            buffer@.count == 0,
            buffer@.capacity == 0,
            buffer@.records() == Seq::<InstanceRecord>::empty(),
    {
        let buffer = Buffer {
            destination: Vec::new(),
            source_or_color: Vec::new(),
            shape_transform: Vec::new(),
            count: 0,
            capacity: 0,
        };
        proof {
            assert(buffer@.records() =~= Seq::<InstanceRecord>::empty());
        }
        buffer
    }

    /// Instances appended since the last reset.
    pub fn count(&self) -> (n: usize)
        ensures
            n == self@.count,
    {
        self.count
    }

    /// Currently allocated instance slots.
    pub fn capacity(&self) -> (n: usize)
        ensures
            n == self@.capacity,
    {
        self.capacity
    }

    /// Appends one instance record, growing the backing stores by
    /// `GROWTH_STEP` slots first if the buffer is full.  Slots already
    /// written keep their contents.
    pub fn add_instance(
        &mut self,
        destination: Scalar4,
        source_or_color: Scalar4,
        shape_transform: Scalar4,
    )
        requires
            old(self)@.wf(),
            old(self)@.count + GROWTH_STEP <= MAX_CAPACITY,
        ensures
            final(self)@.wf(),
            final(self)@.counters() == after_append(old(self)@.counters()),
            final(self)@.count == old(self)@.count + 1,
            final(self)@.capacity == grown_capacity(old(self)@.count, old(self)@.capacity),
            final(self)@.capacity >= old(self)@.capacity,
            final(self)@.records() == old(self)@.records().push(
                InstanceRecord { destination, source_or_color, shape_transform },
            ),
    {
        if self.count == self.capacity {
            let new_capacity = self.capacity + GROWTH_STEP;
            let new_len = CHANNEL_WIDTH * new_capacity;
            pad_with_zeros(&mut self.destination, new_len);
            pad_with_zeros(&mut self.source_or_color, new_len);
            pad_with_zeros(&mut self.shape_transform, new_len);
            self.capacity = new_capacity;
        }
        let base = CHANNEL_WIDTH * self.count;
        write_slot(&mut self.destination, base, destination);
        write_slot(&mut self.source_or_color, base, source_or_color);
        write_slot(&mut self.shape_transform, base, shape_transform);
        self.count = self.count + 1;
        proof {
            let record = InstanceRecord { destination, source_or_color, shape_transform };
            assert(self@.records() =~= old(self)@.records().push(record));
        }
    }

    /// Ends the frame: hands back the number of instances the caller must
    /// draw, and empties the buffer for the next frame.  The backing stores
    /// keep their size and contents, so the caller may upload slots
    /// `[0, n)` and issue the instanced draw call with the returned `n`
    /// right after this call.  Call it once per frame, after that frame's
    /// `add_instance` calls; the ordering is a caller contract the buffer
    /// does not check.
    pub fn flush_and_reset(&mut self) -> (n: u32)
        requires
            old(self)@.wf(),
        ensures
            final(self)@.wf(),
            n as nat == old(self)@.count,
            final(self)@.counters() == after_reset(old(self)@.counters()),
            final(self)@.count == 0,
            final(self)@.capacity == old(self)@.capacity,
            final(self)@.destination == old(self)@.destination,
            final(self)@.source_or_color == old(self)@.source_or_color,
            final(self)@.shape_transform == old(self)@.shape_transform,
    {
        let n = self.count as u32;
        self.count = 0;
        n
    }

    /// The record at slot `i`, read back from the three backing stores.
    pub fn record_at(&self, i: usize) -> (record: InstanceRecord)
        requires
            self@.wf(),
            i < self@.count,
        ensures
            record == self@.records()[i as int],
    {
        let base = CHANNEL_WIDTH * i;
        InstanceRecord {
            destination: Scalar4 {
                x: self.destination[base],
                y: self.destination[base + 1],
                z: self.destination[base + 2],
                w: self.destination[base + 3],
            },
            source_or_color: Scalar4 {
                x: self.source_or_color[base],
                y: self.source_or_color[base + 1],
                z: self.source_or_color[base + 2],
                w: self.source_or_color[base + 3],
            },
            shape_transform: Scalar4 {
                x: self.shape_transform[base],
                y: self.shape_transform[base + 1],
                z: self.shape_transform[base + 2],
                w: self.shape_transform[base + 3],
            },
        }
    }

    /// The destination channel, word by word; `CHANNEL_WIDTH` words per slot.
    pub fn destination_store(&self) -> (words: &Vec<u32>)
        ensures
            words@ == self@.destination,
    {
        &self.destination
    }

    /// The source-or-color channel, word by word.
    pub fn source_or_color_store(&self) -> (words: &Vec<u32>)
        ensures
            words@ == self@.source_or_color,
    {
        &self.source_or_color
    }

    /// The shape-transform channel, word by word.
    pub fn shape_transform_store(&self) -> (words: &Vec<u32>)
        ensures
            words@ == self@.shape_transform,
    {
        &self.shape_transform
    }
}

/// Growth invariant and count correctness: a freshly initialized buffer
/// driven by `n` `add_instance` calls and no reset holds exactly `n`
/// records, never more than its capacity, and its capacity never decreases
/// from one call to the next.
pub proof fn lemma_growth_invariant(n: nat)
    ensures
        counters_after_appends(n).count == n,
        counters_after_appends(n).count <= counters_after_appends(n).capacity,
        counters_after_appends(n).capacity >= n,
        n > 0 ==> counters_after_appends(n).capacity >= counters_after_appends(
            (n - 1) as nat,
        ).capacity,
    decreases n,
{
    if n > 0 {
        lemma_growth_invariant((n - 1) as nat);
    }
}

/// Reset idempotence: `flush_and_reset` zeroes the count and leaves the
/// capacity untouched, so resetting an already reset buffer changes
/// nothing.
pub proof fn lemma_reset_idempotent(c: Counters)
    ensures
        after_reset(c).count == 0,
        after_reset(c).capacity == c.capacity,
        after_reset(after_reset(c)) == after_reset(c),
{
}

/// No cross-talk: in every well-formed buffer the three backing stores have
/// the same length, `CHANNEL_WIDTH` words for each allocated slot.
pub proof fn lemma_stores_synchronized(v: BatchView)
    requires
        v.wf(),
    ensures
        v.destination.len() == CHANNEL_WIDTH * v.capacity,
        v.source_or_color.len() == v.destination.len(),
        v.shape_transform.len() == v.destination.len(),
{
}

} // verus!

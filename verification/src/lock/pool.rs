//! The double buffer pool of a lock surface: two equally sized pixel regions
//! that alternate between this process and the compositor.

use vstd::prelude::*;

verus! {

/// Largest number of bytes that one frame may take: the size of a pool is
/// handed to the compositor as a signed 32-bit number.
pub const MAX_FRAME_BYTES: u64 = 0x7fff_ffff;

/// Bytes per pixel of the ARGB8888 format.
pub const BYTES_PER_PIXEL: u64 = 4;

/// What a slot of the pool holds.
pub struct SlotView {
    /// The pixels of the region, row after row, each a packed ARGB word.
    pub pixels: Seq<u32>,
    /// The compositor holds a buffer of this slot and has not released it.
    pub busy: bool,
}

/// What a pool holds: its two slots.
pub struct PoolView {
    pub first: SlotView,
    pub second: SlotView,
}

impl PoolView {
    /// The slot with index `i`; the second one for every index but 0.
    pub open spec fn slot(self, i: int) -> SlotView {
        if i == 0 {
            self.first
        } else {
            self.second
        }
    }

    /// Number of pixels that each slot holds.
    pub open spec fn capacity(self) -> nat {
        self.first.pixels.len()
    }

    /// The slot that the next frame is drawn into: the first one that the
    /// compositor does not hold.
    pub open spec fn free_slot(self) -> Option<int> {
        if !self.first.busy {
            Some(0int)
        } else if !self.second.busy {
            Some(1int)
        } else {
            None
        }
    }

    /// A pool without memory, both slots free.
    pub open spec fn empty() -> PoolView {
        PoolView {
            first: SlotView { pixels: Seq::empty(), busy: false },
            second: SlotView { pixels: Seq::empty(), busy: false },
        }
    }

    /// Both slots have the same size.
    pub open spec fn wf(self) -> bool {
        self.first.pixels.len() == self.second.pixels.len()
    }
}

/// A frame of `width` by `height` pixels fits the limits of the shared
/// memory protocol: its stride, its height and its size in bytes are signed
/// 32-bit numbers.
pub open spec fn drawable(width: u32, height: u32) -> bool {
    &&& BYTES_PER_PIXEL * width <= MAX_FRAME_BYTES
    &&& height <= MAX_FRAME_BYTES
    &&& BYTES_PER_PIXEL * width * height <= MAX_FRAME_BYTES
}

/// `pixels` holds `color` everywhere.
pub open spec fn painted(pixels: Seq<u32>, color: u32) -> bool {
    forall|i: int| 0 <= i < pixels.len() ==> #[trigger] pixels[i] == color
}

/// `len` pixels of `color`.
pub open spec fn solid(len: nat, color: u32) -> Seq<u32> {
    Seq::new(len, |i: int| color)
}

/// `pixels`, extended with transparent black up to `len` pixels if it is shorter.
pub open spec fn grown(pixels: Seq<u32>, len: nat) -> Seq<u32> {
    if len <= pixels.len() {
        pixels
    } else {
        pixels + solid((len - pixels.len()) as nat, 0)
    }
}

/// One of the two pixel regions of a pool.
pub struct Slot {
    pixels: Vec<u32>,
    busy: bool,
}

impl View for Slot {
    type V = SlotView;

    closed spec fn view(&self) -> SlotView {
        SlotView { pixels: self.pixels@, busy: self.busy }
    }
}

impl Slot {
    /// An empty slot that nobody holds.
    pub fn new() -> (slot: Slot)
        ensures
            slot@ == (SlotView { pixels: Seq::empty(), busy: false }),
    {
        Slot { pixels: Vec::new(), busy: false }
    }

    /// Number of pixels in the slot.
    pub fn len(&self) -> (n: usize)
        ensures
            n == self@.pixels.len(),
    {
        self.pixels.len()
    }

    /// Whether the compositor holds the slot.
    pub fn is_busy(&self) -> (busy: bool)
        ensures
            busy == self@.busy,
    {
        self.busy
    }

    /// The pixels of the slot.
    pub fn pixels(&self) -> (pixels: &Vec<u32>)
        ensures
            pixels@ == self@.pixels,
    {
        &self.pixels
    }

    /// Extends the slot to `len` pixels; a slot that is already that large
    /// stays as it is.
    fn grow(&mut self, len: usize)
        ensures
            final(self)@.pixels == grown(old(self)@.pixels, len as nat),
            final(self)@.busy == old(self)@.busy,
    {
        let ghost before = self.pixels@;
        while self.pixels.len() < len
            invariant
                self.busy == old(self).busy,
                before == old(self).pixels@,
                before.len() <= len ==> self.pixels@.len() <= len,
                before.len() >= len ==> self.pixels@.len() == before.len(),
                self.pixels@.len() >= before.len(),
                self.pixels@ == before + solid((self.pixels@.len() - before.len()) as nat, 0),
            decreases len - self.pixels.len(),
        {
            self.pixels.push(0);
            assert(self.pixels@ =~= before + solid((self.pixels@.len() - before.len()) as nat, 0));
        }
        proof {
            if len <= before.len() {
                assert(self.pixels@.len() == before.len());
                assert(self.pixels@ =~= before);
            } else {
                assert(self.pixels@.len() == len);
            }
        }
    }

    /// Writes `color` into every pixel of the slot.
    fn fill(&mut self, color: u32)
        ensures
            final(self)@.pixels == solid(old(self)@.pixels.len(), color),
            final(self)@.busy == old(self)@.busy,
    {
        let n = self.pixels.len();
        let mut i: usize = 0;
        while i < n
            invariant
                i <= n,
                n == self.pixels@.len(),
                n == old(self).pixels@.len(),
                self.busy == old(self).busy,
                forall|j: int| 0 <= j < i ==> #[trigger] self.pixels@[j] == color,
            decreases n - i,
        {
            self.pixels.set(i, color);
            i += 1;
        }
        assert(self.pixels@ =~= solid(n as nat, color));
    }
}

/// Two slots of equal size. A frame is drawn into a slot that the
/// compositor does not hold; committing the frame hands the slot over, and
/// a release notification hands it back.
pub struct Pool {
    first: Slot,
    second: Slot,
}

impl View for Pool {
    type V = PoolView;

    closed spec fn view(&self) -> PoolView {
        PoolView { first: self.first@, second: self.second@ }
    }
}

impl Pool {
    /// The slots have the same size.
    pub open spec fn wf(&self) -> bool {
        self@.wf()
    }

    /// A pool without memory, both slots free.
    pub fn new() -> (pool: Pool)
        ensures
            pool.wf(),
            pool@ == PoolView::empty(),
    {
        Pool { first: Slot::new(), second: Slot::new() }
    }

    /// Number of pixels that each slot holds.
    pub fn capacity(&self) -> (n: usize)
        ensures
            n == self@.capacity(),
    {
        self.first.len()
    }

    /// The slot with index `index`; the second one for every index but 0.
    pub fn slot(&self, index: usize) -> (slot: &Slot)
        ensures
            slot@ == self@.slot(index as int),
    {
        if index == 0 {
            &self.first
        } else {
            &self.second
        }
    }

    /// The index of the slot that the next frame is drawn into, if the
    /// compositor does not hold both.
    pub fn free_slot(&self) -> (index: Option<usize>)
        ensures
            index is Some <==> self@.free_slot() is Some,
            index matches Some(i) ==> self@.free_slot() == Some(i as int),
    {
        if !self.first.busy {
            Some(0)
        } else if !self.second.busy {
            Some(1)
        } else {
            None
        }
    }

    /// Takes note that the compositor released the buffer of slot `index`.
    /// An index that names no slot changes nothing.
    pub fn release(&mut self, index: usize)
        ensures
            final(self)@ == spec_release(old(self)@, index as int),
    {
        if index == 0 {
            self.first.busy = false;
        } else if index == 1 {
            self.second.busy = false;
        }
    }

    /// Draws a frame of `len` pixels of `color`: both slots are grown to
    /// hold the frame, the free slot is painted all over and handed to the
    /// compositor. Without a free slot nothing is written. Returns the
    /// slot that holds the frame.
    pub fn draw(&mut self, len: usize, color: u32) -> (slot: Option<usize>)
        requires
            old(self).wf(),
        ensures
            final(self).wf(),
            slot is Some <==> old(self)@.free_slot() is Some,
            slot matches Some(i) ==> old(self)@.free_slot() == Some(i as int),
            final(self)@ == spec_draw(old(self)@, len as nat, color),
    {
        if !self.first.busy {
            self.first.grow(len);
            self.second.grow(len);
            self.first.fill(color);
            self.first.busy = true;
            Some(0)
        } else if !self.second.busy {
            self.first.grow(len);
            self.second.grow(len);
            self.second.fill(color);
            self.second.busy = true;
            Some(1)
        } else {
            None
        }
    }
}

/// The pool after the compositor released slot `index`.
pub open spec fn spec_release(pool: PoolView, index: int) -> PoolView {
    if index == 0 {
        PoolView { first: SlotView { busy: false, ..pool.first }, ..pool }
    } else if index == 1 {
        PoolView { second: SlotView { busy: false, ..pool.second }, ..pool }
    } else {
        pool
    }
}

/// The pool after an attempt to draw a frame of `len` pixels of `color`:
/// with a free slot, both slots are grown to hold the frame, the free slot
/// is painted and handed over; without one, the pool stays as it is.
pub open spec fn spec_draw(pool: PoolView, len: nat, color: u32) -> PoolView {
    let capacity = if len <= pool.capacity() {
        pool.capacity()
    } else {
        len
    };
    match pool.free_slot() {
        None => pool,
        Some(i) => if i == 0 {
            PoolView {
                first: SlotView { pixels: solid(capacity, color), busy: true },
                second: SlotView { pixels: grown(pool.second.pixels, len), ..pool.second },
            }
        } else {
            PoolView {
                first: SlotView { pixels: grown(pool.first.pixels, len), ..pool.first },
                second: SlotView { pixels: solid(capacity, color), busy: true },
            }
        },
    }
}

} // verus!

//! The lock surface of one output: what the compositor told it, what it
//! shows, and when it draws.

use vstd::prelude::*;
use crate::lock::pool::{
    drawable, painted, spec_draw, spec_release, Pool, PoolView, BYTES_PER_PIXEL, MAX_FRAME_BYTES,
};

verus! {

/// What the compositor last asked of a surface, kept until the surface
/// handles it.
#[derive(Debug, Clone, Copy, PartialEq, Eq)]
pub enum RenderEvent {
    /// The surface has the given size from now on.
    Configure { width: u32, height: u32 },
    /// The surface is gone.
    Close,
}

/// An event of the layer surface protocol object.
#[derive(Debug, Clone, Copy, PartialEq, Eq)]
pub enum LayerEvent {
    /// The compositor suggests a size and waits for the serial to be acknowledged.
    Configure { serial: u32, width: u32, height: u32 },
    /// The compositor closed the surface.
    Closed,
}

/// Where a surface stands in its life.
#[derive(Debug, Clone, Copy, PartialEq, Eq)]
pub enum Phase {
    /// Created and committed without a buffer; no size is known yet.
    Unconfigured,
    /// A size is known; the surface may draw.
    Ready,
    /// Closed by the compositor; the owner drops it.
    Closed,
}

/// Why a frame was not drawn.
#[derive(Debug, Clone, Copy, PartialEq, Eq)]
pub enum DrawError {
    /// The compositor holds both slots of the pool.
    NoFreePool,
    /// The size of the surface is more than a pool can be asked to hold.
    Oversize,
}

impl DrawError {
    /// The text of the error.
    pub open spec fn spec_message(self) -> Seq<char> {
        match self {
            DrawError::NoFreePool => "No free shm pool for drawing"@,
            DrawError::Oversize => "Surface is too large for a shm pool"@,
        }
    }

    /// The text of the error.
    pub fn message(&self) -> (text: String)
        ensures
            text@ == self.spec_message(),
    {
        match self {
            DrawError::NoFreePool => "No free shm pool for drawing".to_owned(),
            DrawError::Oversize => "Surface is too large for a shm pool".to_owned(),
        }
    }
}

/// The layer of the shell that a lock surface is placed on.
#[derive(Debug, Clone, Copy, PartialEq, Eq)]
pub enum Layer {
    Background,
    Bottom,
    Top,
    Overlay,
}

/// Anchor bit of the upper edge of the output.
pub const ANCHOR_TOP: u32 = 1;

/// Anchor bit of the lower edge of the output.
pub const ANCHOR_BOTTOM: u32 = 2;

/// Anchor bit of the left edge of the output.
pub const ANCHOR_LEFT: u32 = 4;

/// Anchor bit of the right edge of the output.
pub const ANCHOR_RIGHT: u32 = 8;

/// What a lock surface asks of the layer shell before its first commit.
#[derive(Debug, Clone, Copy, PartialEq, Eq)]
pub struct LayerRequest {
    /// The layer of the surface.
    pub layer: Layer,
    /// The requested size; zero leaves the choice to the compositor.
    pub width: u32,
    pub height: u32,
    /// The edges that the surface is anchored to, as a set of anchor bits.
    pub anchor: u32,
    /// A negative zone asks for the whole output, whatever panels reserve.
    pub exclusive_zone: i32,
    /// The surface wants the keyboard.
    pub keyboard_interactivity: bool,
}

/// The request of every lock surface: on the overlay, anchored to all four
/// edges, over the whole output, with the keyboard, at a size that the
/// compositor chooses.
pub open spec fn spec_layer_request() -> LayerRequest {
    LayerRequest {
        layer: Layer::Overlay,
        width: 0,
        height: 0,
        anchor: 15,
        exclusive_zone: -1i32,
        keyboard_interactivity: true,
    }
}

/// The state of a lock surface.
pub struct SurfaceView {
    /// The output that the surface covers, by its server-assigned id.
    pub output: u32,
    /// The event that waits to be handled.
    pub next_render_event: Option<RenderEvent>,
    /// The buffers of the surface.
    pub pool: PoolView,
    pub phase: Phase,
    /// Width and height in pixels; zero before the first configure.
    pub dimensions: (u32, u32),
    /// The surface shows something other than what it should.
    pub redraw: bool,
    /// The colour that the surface should show, as packed ARGB.
    pub color: u32,
}

impl SurfaceView {
    /// The slots of the pool have one size, and a surface without a size has
    /// never drawn: its pool is empty and the compositor holds none of it.
    pub open spec fn wf(self) -> bool {
        &&& self.pool.wf()
        &&& self.phase is Unconfigured ==> self.pool == PoolView::empty()
    }

    /// A new surface for `output` that should show `color`.
    pub open spec fn created(output: u32, color: u32) -> SurfaceView {
        SurfaceView {
            output,
            next_render_event: None,
            pool: PoolView::empty(),
            phase: Phase::Unconfigured,
            dimensions: (0, 0),
            redraw: false,
            color,
        }
    }

    /// Number of pixels of a frame.
    pub open spec fn frame_len(self) -> nat {
        (self.dimensions.0 * self.dimensions.1) as nat
    }

    /// The surface after `color` was set.
    pub open spec fn colored(self, color: u32) -> SurfaceView {
        SurfaceView { color, redraw: true, ..self }
    }

    /// The surface after the compositor sent `event`. A close replaces
    /// whatever waits; a configure replaces what waits unless that is a
    /// close. A closed surface takes no event.
    pub open spec fn notified(self, event: LayerEvent) -> SurfaceView {
        if self.phase is Closed {
            self
        } else {
            match event {
                LayerEvent::Closed => SurfaceView {
                    next_render_event: Some(RenderEvent::Close),
                    ..self
                },
                LayerEvent::Configure { serial, width, height } => {
                    if self.next_render_event == Some(RenderEvent::Close) {
                        self
                    } else {
                        SurfaceView {
                            next_render_event: Some(RenderEvent::Configure { width, height }),
                            ..self
                        }
                    }
                },
            }
        }
    }

    /// The serial that is acknowledged when the compositor sends `event`:
    /// that of a configure that is taken.
    pub open spec fn acknowledged(self, event: LayerEvent) -> Option<u32> {
        match event {
            LayerEvent::Configure { serial, width, height } => {
                if self.phase is Closed || self.next_render_event == Some(RenderEvent::Close) {
                    None
                } else {
                    Some(serial)
                }
            },
            LayerEvent::Closed => None,
        }
    }

    /// The surface after the compositor released the buffer of slot `index`.
    pub open spec fn released(self, index: int) -> SurfaceView {
        SurfaceView { pool: spec_release(self.pool, index), ..self }
    }

    /// The surface after the waiting event was taken in: a close ends the
    /// surface, a configure gives it its size and asks for a frame.
    pub open spec fn received(self) -> SurfaceView {
        if self.phase is Closed {
            SurfaceView { next_render_event: None, ..self }
        } else {
            match self.next_render_event {
                Some(RenderEvent::Close) => SurfaceView {
                    next_render_event: None,
                    phase: Phase::Closed,
                    ..self
                },
                Some(RenderEvent::Configure { width, height }) => SurfaceView {
                    next_render_event: None,
                    phase: Phase::Ready,
                    dimensions: (width, height),
                    redraw: true,
                    ..self
                },
                None => self,
            }
        }
    }

    /// What stands in the way of a frame, if anything.
    pub open spec fn draw_error(self) -> Option<DrawError> {
        if self.pool.free_slot() is None {
            Some(DrawError::NoFreePool)
        } else if !drawable(self.dimensions.0, self.dimensions.1) {
            Some(DrawError::Oversize)
        } else {
            None
        }
    }

    /// The surface is ready, shows something else than it should, and
    /// nothing stands in the way of a frame.
    pub open spec fn draws(self) -> bool {
        self.redraw && self.phase is Ready && self.draw_error() is None
    }

    /// The surface after a frame of its colour was drawn into the free
    /// slot and committed.
    pub open spec fn drawn(self) -> SurfaceView {
        SurfaceView { pool: spec_draw(self.pool, self.frame_len(), self.color), ..self }
    }

    /// The surface after it drew a frame, if it draws.
    pub open spec fn redrawn(self) -> SurfaceView {
        if self.draws() {
            SurfaceView { redraw: false, ..self.drawn() }
        } else {
            self
        }
    }

    /// The surface after one round of event handling.
    pub open spec fn handled(self) -> SurfaceView {
        self.received().redrawn()
    }

    /// One round of event handling ends with the surface closed.
    pub open spec fn closes(self) -> bool {
        self.received().phase is Closed
    }
}

/// Between `before` and `after` a frame was committed: a slot that was free
/// is now held by the compositor.
pub open spec fn committed(before: SurfaceView, after: SurfaceView) -> bool {
    ||| !before.pool.first.busy && after.pool.first.busy
    ||| !before.pool.second.busy && after.pool.second.busy
}

/// A colour that is set is on the screen after the next round of event
/// handling: on a surface that has a size it can draw at, or is about to be
/// given one, and with a free slot in its pool, the round commits the free
/// slot, and every pixel of it is the colour.
pub proof fn set_color_reaches_next_frame(surface: SurfaceView, color: u32)
    requires
        surface.wf(),
        surface.pool.free_slot() is Some,
        surface.colored(color).received().phase is Ready,
        drawable(
            surface.colored(color).received().dimensions.0,
            surface.colored(color).received().dimensions.1,
        ),
    ensures
        ({
            let after = surface.colored(color).handled();
            let slot = surface.pool.free_slot()->0;
            &&& committed(surface, after)
            &&& !surface.pool.slot(slot).busy
            &&& after.pool.slot(slot).busy
            &&& after.pool.slot(slot).pixels.len() >= after.frame_len()
            &&& painted(after.pool.slot(slot).pixels, color)
            &&& after.color == color
            &&& !after.redraw
        }),
{
}

/// Colours that are set between two rounds of event handling are not
/// drawn one after the other: the surface is as if only the last had been
/// set.
pub proof fn last_color_wins(surface: SurfaceView, first: u32, last: u32)
    ensures
        surface.colored(first).colored(last) == surface.colored(last),
        surface.colored(first).colored(last).handled() == surface.colored(last).handled(),
{
}

/// Two rounds of event handling with nothing from the compositor in
/// between commit at most one frame.
pub proof fn at_most_one_frame_without_events(surface: SurfaceView)
    requires
        surface.wf(),
    ensures
        !(committed(surface, surface.handled()) && committed(
            surface.handled(),
            surface.handled().handled(),
        )),
{
}

/// While the compositor holds both slots, a round of event handling writes
/// nothing, and a surface that has to draw still has to.
pub proof fn no_write_while_both_slots_held(surface: SurfaceView)
    requires
        surface.wf(),
        surface.pool.free_slot() is None,
    ensures
        surface.handled().pool == surface.pool,
        surface.handled().redraw == surface.received().redraw,
        surface.redraw ==> surface.handled().redraw,
{
}

/// The pool of a surface never shrinks: whatever a surface is told or
/// does, its pool holds at least as many pixels afterwards.
pub proof fn pool_never_shrinks(surface: SurfaceView, color: u32, event: LayerEvent, index: int)
    requires
        surface.wf(),
    ensures
        surface.handled().pool.capacity() >= surface.pool.capacity(),
        surface.colored(color).pool.capacity() == surface.pool.capacity(),
        surface.notified(event).pool.capacity() == surface.pool.capacity(),
        surface.released(index).pool.capacity() == surface.pool.capacity(),
{
}

/// A round of event handling keeps a slot that the compositor holds in its
/// hands, and leaves the pixels of such a slot as they are.
pub proof fn held_slots_are_not_written(surface: SurfaceView, index: int)
    requires
        surface.wf(),
        surface.pool.slot(index).busy,
    ensures
        ({
            let before = surface.pool.slot(index);
            let after = surface.handled().pool.slot(index);
            &&& after.busy
            &&& after.pixels.len() >= before.pixels.len()
            &&& after.pixels.take(before.pixels.len() as int) == before.pixels
        }),
{
    let before = surface.pool.slot(index);
    let after = surface.handled().pool.slot(index);
    assert(after.pixels.take(before.pixels.len() as int) =~= before.pixels);
}

/// A surface draws nothing before its first configure: without a size and
/// without a configure waiting, a round of event handling commits no frame
/// and leaves the pool empty.
pub proof fn no_frame_before_first_configure(surface: SurfaceView)
    requires
        surface.wf(),
        surface.phase is Unconfigured,
        !(surface.next_render_event matches Some(RenderEvent::Configure { .. })),
    ensures
        !committed(surface, surface.handled()),
        surface.handled().pool == PoolView::empty(),
{
}

/// The life of a surface: a configure makes it ready at the size of the
/// configure, whatever size it had; a close ends it, whatever else waits.
pub proof fn surface_follows_its_events(surface: SurfaceView, serial: u32, width: u32, height: u32)
    requires
        surface.wf(),
        !(surface.phase is Closed),
    ensures
        surface.notified(LayerEvent::Closed).closes(),
        surface.notified(LayerEvent::Closed).handled().phase is Closed,
        surface.notified(LayerEvent::Closed).handled().pool == surface.pool,
        surface.next_render_event != Some(RenderEvent::Close) ==> ({
            let configure = LayerEvent::Configure { serial, width, height };
            &&& surface.acknowledged(configure) == Some(serial)
            &&& !surface.notified(configure).closes()
            &&& surface.notified(configure).handled().phase is Ready
            &&& surface.notified(configure).handled().dimensions == (width, height)
        }),
{
}

/// A closed surface stays closed and never draws again.
pub proof fn closed_is_terminal(surface: SurfaceView, event: LayerEvent)
    requires
        surface.wf(),
        surface.phase is Closed,
    ensures
        surface.closes(),
        surface.handled().phase is Closed,
        surface.handled().pool == surface.pool,
        surface.notified(event) == surface,
{
}

/// A close that waits is not replaced by a configure that comes after it.
pub proof fn close_wins_over_configure(surface: SurfaceView, serial: u32, width: u32, height: u32)
    requires
        surface.wf(),
    ensures
        ({
            let configure = LayerEvent::Configure { serial, width, height };
            &&& surface.notified(LayerEvent::Closed).notified(configure).closes()
            &&& surface.notified(configure).notified(LayerEvent::Closed).closes()
        }),
{
}

/// The lock surface of one output.
pub struct LockSurface {
    output: u32,
    next_render_event: Option<RenderEvent>,
    pools: Pool,
    phase: Phase,
    dimensions: (u32, u32),
    redraw: bool,
    color: u32,
}

impl View for LockSurface {
    type V = SurfaceView;

    closed spec fn view(&self) -> SurfaceView {
        SurfaceView {
            output: self.output,
            next_render_event: self.next_render_event,
            pool: self.pools@,
            phase: self.phase,
            dimensions: self.dimensions,
            redraw: self.redraw,
            color: self.color,
        }
    }
}

/// Number of pixels of a frame of `width` by `height`, if such a frame can
/// be drawn.
pub fn frame_len(width: u32, height: u32) -> (len: Option<usize>)
    ensures
        len is Some <==> drawable(width, height),
        len matches Some(n) ==> n == width * height,
{
    let w: u64 = width as u64;
    let h: u64 = height as u64;
    if w > MAX_FRAME_BYTES / BYTES_PER_PIXEL || h > MAX_FRAME_BYTES {
        return None;
    }
    assert(w * h <= 0x1fff_ffff * 0x7fff_ffff) by (nonlinear_arith)
        requires
            w <= 0x1fff_ffff,
            h <= 0x7fff_ffff,
    ;
    assert(BYTES_PER_PIXEL * width * height == 4 * (w * h)) by (nonlinear_arith)
        requires
            w == width,
            h == height,
            BYTES_PER_PIXEL == 4,
    ;
    let pixels: u64 = w * h;
    if pixels > MAX_FRAME_BYTES / BYTES_PER_PIXEL {
        return None;
    }
    Some(pixels as usize)
}

impl LockSurface {
    /// What holds of every surface.
    pub open spec fn wf(&self) -> bool {
        self@.wf()
    }

    /// What every lock surface asks of the layer shell before its first commit.
    pub fn layer_request() -> (request: LayerRequest)
        ensures
            request == spec_layer_request(),
    {
        assert(1u32 | 2u32 | 4u32 | 8u32 == 15u32) by (bit_vector);
        LayerRequest {
            layer: Layer::Overlay,
            width: 0,
            height: 0,
            anchor: ANCHOR_TOP | ANCHOR_BOTTOM | ANCHOR_LEFT | ANCHOR_RIGHT,
            exclusive_zone: -1,
            keyboard_interactivity: true,
        }
    }

    /// The namespace that every lock surface gives the layer shell.
    pub fn namespace() -> (namespace: &'static str)
        ensures
            namespace@ == "lockscreen"@,
    {
        "lockscreen"
    }

    /// A surface for `output` that should show `color`. It has no size and
    /// waits for its first configure.
    pub fn new(output: u32, color: u32) -> (surface: LockSurface)
        ensures
            surface.wf(),
            surface@ == SurfaceView::created(output, color),
    {
        LockSurface {
            output,
            next_render_event: None,
            pools: Pool::new(),
            phase: Phase::Unconfigured,
            dimensions: (0, 0),
            redraw: false,
            color,
        }
    }

    /// The output that the surface covers.
    pub fn output(&self) -> (output: u32)
        ensures
            output == self@.output,
    {
        self.output
    }

    /// The colour that the surface should show.
    pub fn color(&self) -> (color: u32)
        ensures
            color == self@.color,
    {
        self.color
    }

    /// Width and height of the surface.
    pub fn dimensions(&self) -> (dimensions: (u32, u32))
        ensures
            dimensions == self@.dimensions,
    {
        self.dimensions
    }

    /// Whether the surface shows something else than it should.
    pub fn needs_redraw(&self) -> (redraw: bool)
        ensures
            redraw == self@.redraw,
    {
        self.redraw
    }

    /// Where the surface stands in its life.
    pub fn phase(&self) -> (phase: Phase)
        ensures
            phase == self@.phase,
    {
        self.phase
    }

    /// The event that waits to be handled.
    pub fn next_render_event(&self) -> (event: Option<RenderEvent>)
        ensures
            event == self@.next_render_event,
    {
        self.next_render_event
    }

    /// The buffers of the surface.
    pub fn pool(&self) -> (pool: &Pool)
        ensures
            pool@ == self@.pool,
    {
        &self.pools
    }

    /// Set the color of the surface. Will not take effect until
    /// `handle_events` is called.
    pub fn set_color(&mut self, color: u32)
        ensures
            final(self)@ == old(self)@.colored(color),
    {
        self.color = color;
        self.redraw = true;
    }

    /// Takes note of an event of the layer surface. Returns the serial to
    /// acknowledge, if the event is a configure that was taken.
    pub fn notify(&mut self, event: LayerEvent) -> (ack: Option<u32>)
        ensures
            final(self)@ == old(self)@.notified(event),
            ack == old(self)@.acknowledged(event),
    {
        match self.phase {
            Phase::Closed => None,
            _ => {
                match event {
                    LayerEvent::Closed => {
                        self.next_render_event = Some(RenderEvent::Close);
                        None
                    },
                    LayerEvent::Configure { serial, width, height } => {
                        match self.next_render_event {
                            Some(RenderEvent::Close) => None,
                            _ => {
                                self.next_render_event = Some(
                                    RenderEvent::Configure { width, height },
                                );
                                Some(serial)
                            },
                        }
                    },
                }
            },
        }
    }

    /// Takes note that the compositor released the buffer of slot `index`
    /// of the pool.
    pub fn buffer_released(&mut self, index: usize)
        ensures
            final(self)@ == old(self)@.released(index as int),
    {
        self.pools.release(index);
    }

    /// Handles any events that have occurred since the last call, redrawing
    /// if needed. Returns true if the surface should be dropped.
    pub fn handle_events(&mut self) -> (closed: bool)
        requires
            old(self).wf(),
        ensures
            final(self).wf(),
            final(self)@ == old(self)@.handled(),
            closed == old(self)@.closes(),
    {
        let event = self.next_render_event;
        self.next_render_event = None;
        match self.phase {
            Phase::Closed => {
                return true;
            },
            _ => {},
        }
        match event {
            Some(RenderEvent::Close) => {
                self.phase = Phase::Closed;
                return true;
            },
            Some(RenderEvent::Configure { width, height }) => {
                self.dimensions = (width, height);
                self.phase = Phase::Ready;
                self.redraw = true;
            },
            None => {},
        }
        match self.phase {
            Phase::Ready => {
                if self.redraw {
                    match self.redraw() {
                        Ok(()) => {
                            self.redraw = false;
                        },
                        Err(_) => {},
                    }
                }
            },
            _ => {},
        }
        false
    }

    /// Attempt to redraw the surface using the current color.
    pub fn redraw(&mut self) -> (result: Result<(), DrawError>)
        requires
            old(self).wf(),
            old(self)@.phase is Ready,
        ensures
            final(self).wf(),
            result is Ok <==> old(self)@.draw_error() is None,
            result matches Err(e) ==> old(self)@.draw_error() == Some(e),
            result is Ok ==> final(self)@ == old(self)@.drawn(),
            result is Err ==> final(self)@ == old(self)@,
    {
        if self.pools.free_slot().is_none() {
            return Err(DrawError::NoFreePool);
        }
        match frame_len(self.dimensions.0, self.dimensions.1) {
            None => Err(DrawError::Oversize),
            Some(len) => {
                let slot = self.pools.draw(len, self.color);
                Ok(())
            },
        }
    }
}

} // verus!

//! The per-window render surface: one graphics context built on the first
//! draw request, and for every later request the decision whether the frame
//! is rendered and presented or skipped.
//!
//! The surface performs no native call. Each request answers with a
//! [`Frame`] that tells the backend what to do with the drawable it holds.

use vstd::prelude::*;
use crate::geometry::{Point, Size};

verus! {

/// One render into the current drawable, followed by its presentation.
#[derive(Debug, Clone, Copy, PartialEq, Eq, Structural)]
pub struct RenderPass {
    /// Extent of the render target that wraps the drawable.
    pub target: Size,
    /// Pointer position handed to the drawing payload.
    pub pointer: Point,
    /// Number of frames rendered on this surface before this one.
    pub index: u64,
}

/// What a backend has to do for one draw request.
#[derive(Debug, Clone, Copy, PartialEq, Eq, Structural)]
pub struct Frame {
    /// The graphics context has to be built before anything else.
    pub created_context: bool,
    /// The render to perform and present; `None` where the frame is skipped.
    pub pass: Option<RenderPass>,
}

/// The mathematical state of a surface.
pub struct SurfaceModel {
    /// The graphics context exists.
    pub context_ready: bool,
    /// The logical size last acknowledged.
    pub canvas_size: Size,
    /// The latest pointer position, measured from the top-left corner.
    pub pointer: Point,
    /// Frames rendered so far.
    pub frames: u64,
}

/// The position of the pointer before any motion was reported.
pub open spec fn no_pointer() -> Point {
    Point { x: -1i32, y: -1i32 }
}

/// A surface on which nothing has happened yet.
pub open spec fn fresh(size: Size) -> SurfaceModel {
    SurfaceModel { context_ready: false, canvas_size: size, pointer: no_pointer(), frames: 0 }
}

/// A draw request renders exactly when the drawable has the acknowledged
/// size and that size is renderable.
pub open spec fn renders(m: SurfaceModel, drawable: Size) -> bool {
    m.canvas_size == drawable && drawable.is_renderable()
}

/// The frame counter after one more rendered frame; it stops at its maximum.
pub open spec fn next_index(frames: u64) -> u64 {
    if frames < u64::MAX {
        (frames + 1) as u64
    } else {
        frames
    }
}

/// The answer to a draw request in state `m`.
pub open spec fn drawn_frame(m: SurfaceModel, drawable: Size) -> Frame {
    Frame {
        created_context: !m.context_ready,
        pass: if renders(m, drawable) {
            Some(RenderPass { target: m.canvas_size, pointer: m.pointer, index: m.frames })
        } else {
            None
        },
    }
}

/// The state after a draw request in state `m`.
pub open spec fn after_draw(m: SurfaceModel, drawable: Size) -> SurfaceModel {
    SurfaceModel {
        context_ready: true,
        canvas_size: m.canvas_size,
        pointer: m.pointer,
        frames: if renders(m, drawable) {
            next_index(m.frames)
        } else {
            m.frames
        },
    }
}

/// The state after a resize notification: a renderable size is acknowledged,
/// any other leaves the resize pending and the state as it was.
pub open spec fn after_resize(m: SurfaceModel, size: Size) -> SurfaceModel {
    if size.is_renderable() {
        SurfaceModel { canvas_size: size, ..m }
    } else {
        m
    }
}

/// The state after the pointer moved to `at`.
pub open spec fn after_pointer(m: SurfaceModel, at: Point) -> SurfaceModel {
    SurfaceModel { pointer: at, ..m }
}

/// A position given with its vertical coordinate measured upwards from the
/// bottom edge, in a window `height` high, measured from the top edge.
pub open spec fn flipped(x: i32, y: i32, height: i32) -> Point
    recommends
        i32::MIN <= height - y <= i32::MAX,
{
    Point { x, y: (height - y) as i32 }
}

/// The render surface of one window.
pub struct Surface {
    context_ready: bool,
    canvas_size: Size,
    pointer: Point,
    frames: u64,
}

impl View for Surface {
    type V = SurfaceModel;

    closed spec fn view(&self) -> SurfaceModel {
        SurfaceModel {
            context_ready: self.context_ready,
            canvas_size: self.canvas_size,
            pointer: self.pointer,
            frames: self.frames,
        }
    }
}

/// Converts a position with a bottom-left origin to one with a top-left
/// origin.
pub fn flip(x: i32, y: i32, height: i32) -> (p: Point)
    requires
        i32::MIN <= height - y <= i32::MAX,
    ensures
        p == flipped(x, y, height),
        p.x == x,
        p.y == height - y,
{
    Point { x, y: height - y }
}

impl Surface {
    /// A surface for a window of the given size, with no graphics context.
    pub fn new(size: Size) -> (s: Surface)
        ensures
            s@ == fresh(size),
    {
        Surface { context_ready: false, canvas_size: size, pointer: Point { x: -1, y: -1 }, frames: 0 }
    }

    /// Tells whether the graphics context has been built.
    pub fn context_ready(&self) -> (r: bool)
        ensures
            r == self@.context_ready,
    {
        self.context_ready
    }

    /// The logical size last acknowledged.
    pub fn canvas_size(&self) -> (r: Size)
        ensures
            r == self@.canvas_size,
    {
        self.canvas_size
    }

    /// The latest pointer position.
    pub fn pointer(&self) -> (r: Point)
        ensures
            r == self@.pointer,
    {
        self.pointer
    }

    /// The number of frames rendered so far.
    pub fn frames(&self) -> (r: u64)
        ensures
            r == self@.frames,
    {
        self.frames
    }

    /// Answers a draw request for a drawable of the given size.
    ///
    /// The first request on a surface asks for the graphics context; no
    /// later one does. The frame is rendered and presented where the
    /// drawable has the acknowledged size, and skipped otherwise. Neither
    /// the acknowledged size nor the pointer position changes.
    pub fn draw(&mut self, drawable: Size) -> (frame: Frame)
        ensures
            frame == drawn_frame(old(self)@, drawable),
            final(self)@ == after_draw(old(self)@, drawable),
    {
        let created_context = !self.context_ready;
        self.context_ready = true;
        let matches = self.canvas_size.width == drawable.width && self.canvas_size.height
            == drawable.height;
        if matches && drawable.renderable() {
            let index: u64 = self.frames;
            if self.frames < u64::MAX {
                self.frames = self.frames + 1;
            }
            Frame {
                created_context,
                pass: Some(RenderPass { target: self.canvas_size, pointer: self.pointer, index }),
            }
        } else {
            Frame { created_context, pass: None }
        }
    }

    /// Takes a resize notification. Returns whether the size was
    /// acknowledged, in which case a draw request is due at once.
    pub fn resize(&mut self, size: Size) -> (redraw: bool)
        ensures
            redraw == size.is_renderable(),
            final(self)@ == after_resize(old(self)@, size),
    {
        if size.renderable() {
            self.canvas_size = size;
            true
        } else {
            false
        }
    }

    /// Records a pointer position given from the top-left corner. A draw
    /// request is due at once.
    pub fn pointer_moved(&mut self, at: Point)
        ensures
            final(self)@ == after_pointer(old(self)@, at),
    {
        self.pointer = at;
    }
}

/// What can happen to a surface.
pub enum SurfaceEvent {
    /// A draw request, with the size of the drawable at hand.
    Draw(Size),
    /// A resize notification, with the new logical size.
    Resize(Size),
    /// A pointer motion, with the position from the top-left corner.
    Pointer(Point),
}

/// The state after one event.
pub open spec fn after_event(m: SurfaceModel, e: SurfaceEvent) -> SurfaceModel {
    match e {
        SurfaceEvent::Draw(drawable) => after_draw(m, drawable),
        SurfaceEvent::Resize(size) => after_resize(m, size),
        SurfaceEvent::Pointer(at) => after_pointer(m, at),
    }
}

/// The state after a history of events, the earliest first.
pub open spec fn after_history(m: SurfaceModel, history: Seq<SurfaceEvent>) -> SurfaceModel
    decreases history.len(),
{
    if history.len() == 0 {
        m
    } else {
        after_event(after_history(m, history.drop_last()), history.last())
    }
}

/// How many draw requests a history holds.
pub open spec fn draw_requests(history: Seq<SurfaceEvent>) -> nat
    decreases history.len(),
{
    if history.len() == 0 {
        0
    } else {
        draw_requests(history.drop_last()) + if history.last() is Draw {
            1nat
        } else {
            0nat
        }
    }
}

/// How many resize notifications a history holds.
pub open spec fn resize_notifications(history: Seq<SurfaceEvent>) -> nat
    decreases history.len(),
{
    if history.len() == 0 {
        0
    } else {
        resize_notifications(history.drop_last()) + if history.last() is Resize {
            1nat
        } else {
            0nat
        }
    }
}

/// How many times the graphics context is asked for while a history is
/// played from state `m`.
pub open spec fn contexts_built(m: SurfaceModel, history: Seq<SurfaceEvent>) -> nat
    decreases history.len(),
{
    if history.len() == 0 {
        0
    } else {
        let before = after_history(m, history.drop_last());
        contexts_built(m, history.drop_last()) + match history.last() {
            SurfaceEvent::Draw(drawable) => if drawn_frame(before, drawable).created_context {
                1nat
            } else {
                0nat
            },
            _ => 0nat,
        }
    }
}

/// A draw request for a drawable whose size differs from the acknowledged
/// one presents nothing and leaves the acknowledged size as it was.
pub proof fn lemma_mismatch_skips(m: SurfaceModel, drawable: Size)
    requires
        drawable != m.canvas_size,
    ensures
        drawn_frame(m, drawable).pass is None,
        after_draw(m, drawable).canvas_size == m.canvas_size,
        after_draw(m, drawable).pointer == m.pointer,
        after_draw(m, drawable).frames == m.frames,
{
}

/// Whatever draw requests and pointer motions arrive, the acknowledged size
/// stays the same as long as no resize notification does.
pub proof fn lemma_size_kept_without_resize(m: SurfaceModel, history: Seq<SurfaceEvent>)
    requires
        resize_notifications(history) == 0,
    ensures
        after_history(m, history).canvas_size == m.canvas_size,
    decreases history.len(),
{
    if history.len() > 0 {
        lemma_size_kept_without_resize(m, history.drop_last());
    }
}

/// Once a resize to a renderable size has been acknowledged, the very next
/// draw request goes by the new size: it renders a target of that size where
/// the drawable has it, and skips the frame for a drawable of any other
/// size, the former one included.
pub proof fn lemma_resize_then_draw(m: SurfaceModel, size: Size, drawable: Size)
    requires
        size.is_renderable(),
    ensures
        after_resize(m, size).canvas_size == size,
        drawable == size ==> drawn_frame(after_resize(m, size), drawable).pass == Some(
            RenderPass { target: size, pointer: m.pointer, index: m.frames },
        ),
        drawable != size ==> drawn_frame(after_resize(m, size), drawable).pass is None,
{
}

/// A resize to a size that is not renderable stays pending: the state is
/// unchanged.
pub proof fn lemma_resize_pending(m: SurfaceModel, size: Size)
    requires
        !size.is_renderable(),
    ensures
        after_resize(m, size) == m,
{
}

/// From the first draw request on the graphics context exists, and requests
/// served while it exists never ask for another.
pub proof fn lemma_context_kept(m: SurfaceModel, history: Seq<SurfaceEvent>)
    ensures
        m.context_ready ==> after_history(m, history).context_ready,
        m.context_ready ==> contexts_built(m, history) == 0,
        !m.context_ready ==> (after_history(m, history).context_ready <==> draw_requests(
            history,
        ) > 0),
        !m.context_ready ==> contexts_built(m, history) == if draw_requests(history) > 0 {
            1nat
        } else {
            0nat
        },
    decreases history.len(),
{
    if history.len() > 0 {
        lemma_context_kept(m, history.drop_last());
    }
}

/// On a new surface the graphics context is built exactly once, however
/// many draw requests, resizes and pointer motions follow the first draw
/// request.
pub proof fn lemma_context_built_once(size: Size, history: Seq<SurfaceEvent>)
    requires
        draw_requests(history) >= 1,
    ensures
        contexts_built(fresh(size), history) == 1,
        after_history(fresh(size), history).context_ready,
{
    lemma_context_kept(fresh(size), history);
}

/// A pointer motion reported from the bottom-left corner at `(x, y)`, in a
/// window `height` high, is seen by the draw request that follows it as
/// `(x, height - y)`.
pub proof fn lemma_pointer_then_draw(m: SurfaceModel, x: i32, y: i32, height: i32, drawable: Size)
    requires
        i32::MIN <= height - y <= i32::MAX,
        renders(m, drawable),
    ensures
        after_pointer(m, flipped(x, y, height)).pointer == (Point { x, y: (height - y) as i32 }),
        drawn_frame(after_pointer(m, flipped(x, y, height)), drawable).pass == Some(
            RenderPass {
                target: drawable,
                pointer: Point { x, y: (height - y) as i32 },
                index: m.frames,
            },
        ),
{
}

/// The count of rendered frames never goes down.
pub proof fn lemma_frames_never_decrease(m: SurfaceModel, history: Seq<SurfaceEvent>)
    ensures
        after_history(m, history).frames >= m.frames,
    decreases history.len(),
{
    if history.len() > 0 {
        lemma_frames_never_decrease(m, history.drop_last());
    }
}

} // verus!

//! The view that is both the target of a window's events and the source of
//! its drawables.

use vstd::prelude::*;
use crate::geometry::{Rect, Size};
use crate::surface::{
    after_draw, after_pointer, after_resize, drawn_frame, flip, flipped, fresh, Frame, Surface,
    SurfaceModel,
};

verus! {

/// What the view holds: the render surface of its window.
pub struct ViewIvars {
    surface: Surface,
}

/// The view of one window.
pub struct NSMtkView {
    ivars: ViewIvars,
}

impl View for NSMtkView {
    type V = SurfaceModel;

    closed spec fn view(&self) -> SurfaceModel {
        self.ivars.surface@
    }
}

/// The answer to a draw request when the view may have no drawable at
/// hand: without one nothing is to be done.
pub open spec fn view_frame(m: SurfaceModel, drawable: Option<Size>) -> Frame {
    match drawable {
        Some(size) => drawn_frame(m, size),
        None => Frame { created_context: false, pass: None },
    }
}

/// The state after such a draw request: without a drawable it is unchanged,
/// and no graphics context is built.
pub open spec fn after_view_draw(m: SurfaceModel, drawable: Option<Size>) -> SurfaceModel {
    match drawable {
        Some(size) => after_draw(m, size),
        None => m,
    }
}

impl NSMtkView {
    /// A view that fills the given frame, with no graphics context and no
    /// pointer position.
    pub fn new(frame_rect: Rect) -> (this: NSMtkView)
        ensures
            this@ == fresh(frame_rect.size),
    {
        NSMtkView { ivars: ViewIvars { surface: Surface::new(frame_rect.size) } }
    }

    /// The render surface of the view.
    pub fn surface(&self) -> (surface: &Surface)
        ensures
            surface@ == self@,
    {
        &self.ivars.surface
    }

    /// Takes the notification that the size of the drawable will change.
    /// Returns whether the size was acknowledged, in which case the view is
    /// to be drawn at once.
    pub fn drawable_size_will_change(&mut self, size: Size) -> (redraw: bool)
        ensures
            redraw == size.is_renderable(),
            final(self)@ == after_resize(old(self)@, size),
    {
        self.ivars.surface.resize(size)
    }

    /// Answers the request to draw the view. `drawable` is the size of the
    /// current drawable, or `None` where the view has none.
    pub fn draw_in_mtk_view(&mut self, drawable: Option<Size>) -> (frame: Frame)
        ensures
            frame == view_frame(old(self)@, drawable),
            final(self)@ == after_view_draw(old(self)@, drawable),
    {
        match drawable {
            Some(size) => self.ivars.surface.draw(size),
            None => Frame { created_context: false, pass: None },
        }
    }

    /// Takes a pointer motion. The location is given in the window, from
    /// its bottom-left corner; `height` is the height of the view's frame.
    /// The position kept is measured from the top-left corner, and the view
    /// is to be drawn at once.
    pub fn mouse_moved(&mut self, x: i32, y: i32, height: i32)
        requires
            i32::MIN <= height - y <= i32::MAX,
        ensures
            final(self)@ == after_pointer(old(self)@, flipped(x, y, height)),
            final(self)@.pointer.x == x,
            final(self)@.pointer.y == height - y,
    {
        self.ivars.surface.pointer_moved(flip(x, y, height));
    }

    /// The view takes keyboard focus.
    pub fn accepts_first_responder(&self) -> (r: bool)
        ensures
            r,
    {
        true
    }

    /// The view agrees to become the first responder.
    pub fn become_first_responder(&self) -> (r: bool)
        ensures
            r,
    {
        true
    }
}

} // verus!

//! The desktop backend that draws through a legacy OpenGL context.

pub mod opengl;

use vstd::prelude::*;
use crate::geometry::{Point, Size};
use crate::surface::{
    after_draw, after_pointer, after_resize, drawn_frame, fresh, Frame, Surface, SurfaceModel,
};

verus! {

/// The window is being destroyed.
pub const WM_DESTROY: u32 = 0x0002;

/// The client area has a new size; the parameter packs width and height.
pub const WM_SIZE: u32 = 0x0005;

/// The window is asked to paint itself.
pub const WM_PAINT: u32 = 0x000F;

/// The window is asked to erase its background.
pub const WM_ERASEBKGND: u32 = 0x0014;

/// The pointer moved; the parameter packs its position.
pub const WM_MOUSEMOVE: u32 = 0x0200;

/// The device context and the OpenGL rendering context of a window, as the
/// numbers of their native handles.
#[derive(Debug, Clone, Copy, PartialEq, Eq, Structural)]
pub struct GlContext {
    pub hdc: usize,
    pub hglrc: usize,
}

/// The low 16 bits of a message parameter.
pub open spec fn low_word(l: usize) -> int {
    l as int % 0x10000
}

/// Bits 16 to 31 of a message parameter.
pub open spec fn high_word(l: usize) -> int {
    (l as int / 0x10000) % 0x10000
}

/// Extracts the low 16 bits of a message parameter.
#[allow(non_snake_case)]
pub fn LOWORD(l: usize) -> (r: usize)
    ensures
        r == low_word(l),
        r <= 0xffff,
{
    assert(l & 0xffff == l % 0x10000) by (bit_vector);
    l & 0xffff
}

/// Extracts bits 16 to 31 of a message parameter.
#[allow(non_snake_case)]
pub fn HIWORD(l: usize) -> (r: usize)
    ensures
        r == high_word(l),
        r <= 0xffff,
{
    assert((l >> 16) & 0xffff == (l / 0x10000) % 0x10000) by (bit_vector);
    (l >> 16) & 0xffff
}

/// The pair of 16-bit numbers packed in a message parameter, as a size.
pub open spec fn packed_size(lparam: usize) -> Size {
    Size { width: low_word(lparam) as i32, height: high_word(lparam) as i32 }
}

/// The pair of 16-bit numbers packed in a message parameter, as a position.
pub open spec fn packed_point(lparam: usize) -> Point {
    Point { x: low_word(lparam) as i32, y: high_word(lparam) as i32 }
}

/// What the message loop has to do after a message was looked at.
#[derive(Debug, Clone, Copy, PartialEq, Eq, Structural)]
pub enum Effect {
    /// The application shuts down: post the quit message with exit code 0.
    PostQuit,
    /// The client area was resized. With `viewport`, make the window's
    /// OpenGL context current and set its viewport to `size`. With `redraw`,
    /// issue a draw request at once.
    Resized { size: Size, viewport: bool, redraw: bool },
    /// The pointer moved: post a paint message to the window.
    RequestPaint,
    /// The message is answered and nothing is to be done.
    Nothing,
    /// Validate the painted region and, where a frame is given, make the
    /// window's OpenGL context current, carry the frame out and swap the
    /// buffers when it was rendered.
    Paint { frame: Option<Frame> },
    /// The message means nothing to this backend: hand it to the default
    /// window procedure unchanged and return what that returns.
    Default,
}

/// The answer of the window procedure to one message.
#[derive(Debug, Clone, Copy, PartialEq, Eq, Structural)]
pub struct Reply {
    /// The value to return to the system; `None` for the value of the
    /// default window procedure.
    pub result: Option<isize>,
    /// What is to be done before returning.
    pub effect: Effect,
}

/// The mathematical state of a window of this backend.
pub struct PlatformWindowModel {
    /// The title the window was asked for.
    pub title: Seq<char>,
    /// The outer size the window was asked for.
    pub requested: Size,
    /// The OpenGL context bound to the window, once it exists.
    pub gl_context: Option<GlContext>,
    /// The window's render surface.
    pub surface: SurfaceModel,
}

/// The state that the window procedure keeps for one window.
pub struct PlatformWindow {
    title: String,
    requested: Size,
    gl_context: Option<GlContext>,
    surface: Surface,
}

impl View for PlatformWindow {
    type V = PlatformWindowModel;

    closed spec fn view(&self) -> PlatformWindowModel {
        PlatformWindowModel {
            title: self.title@,
            requested: self.requested,
            gl_context: self.gl_context,
            surface: self.surface@,
        }
    }
}

/// The answer to message `msg` in state `m`.
pub open spec fn reply_to(m: PlatformWindowModel, msg: u32, lparam: usize, drawable: Size) -> Reply {
    if msg == WM_DESTROY {
        Reply { result: Some(0), effect: Effect::PostQuit }
    } else if msg == WM_SIZE {
        Reply {
            result: Some(0),
            effect: Effect::Resized {
                size: packed_size(lparam),
                viewport: m.gl_context is Some,
                redraw: packed_size(lparam).is_renderable(),
            },
        }
    } else if msg == WM_MOUSEMOVE {
        Reply { result: Some(0), effect: Effect::RequestPaint }
    } else if msg == WM_ERASEBKGND {
        Reply { result: Some(1), effect: Effect::Nothing }
    } else if msg == WM_PAINT {
        Reply {
            result: Some(0),
            effect: Effect::Paint {
                frame: if m.gl_context is Some {
                    Some(drawn_frame(m.surface, drawable))
                } else {
                    None
                },
            },
        }
    } else {
        Reply { result: None, effect: Effect::Default }
    }
}

/// The state after message `msg` in state `m`.
pub open spec fn after_message(m: PlatformWindowModel, msg: u32, lparam: usize, drawable: Size)
    -> PlatformWindowModel {
    if msg == WM_SIZE {
        PlatformWindowModel { surface: after_resize(m.surface, packed_size(lparam)), ..m }
    } else if msg == WM_MOUSEMOVE {
        PlatformWindowModel { surface: after_pointer(m.surface, packed_point(lparam)), ..m }
    } else if msg == WM_PAINT && m.gl_context is Some {
        PlatformWindowModel { surface: after_draw(m.surface, drawable), ..m }
    } else {
        m
    }
}

impl PlatformWindow {
    /// Binds the OpenGL context that was created for the window. From now
    /// on paint messages are answered with frames.
    pub fn attach(&mut self, gl_context: GlContext)
        ensures
            final(self)@ == (PlatformWindowModel { gl_context: Some(gl_context), ..old(self)@ }),
    {
        self.gl_context = Some(gl_context);
    }

    /// The OpenGL context bound to the window.
    pub fn gl_context(&self) -> (r: Option<GlContext>)
        ensures
            r == self@.gl_context,
    {
        self.gl_context
    }

    /// The title the window was asked for.
    pub fn title(&self) -> (r: &String)
        ensures
            r@ == self@.title,
    {
        &self.title
    }

    /// The outer size the window was asked for.
    pub fn requested(&self) -> (r: Size)
        ensures
            r == self@.requested,
    {
        self.requested
    }

    /// The window's render surface.
    pub fn surface(&self) -> (r: &Surface)
        ensures
            r@ == self@.surface,
    {
        &self.surface
    }
}

/// Class style: redraw the whole window when its width changes.
pub const CS_HREDRAW: u32 = 0x0002;

/// Class style: redraw the whole window when its height changes.
pub const CS_VREDRAW: u32 = 0x0001;

/// The window class that the application registers once, and of which all
/// its windows are.
pub struct PlatformContext {
    pub window_class_name: String,
    pub window_class_style: u32,
}

/// The window class to register before any window is created: it is named
/// `NanoWin` and redraws on every change of width or height.
pub fn create_context() -> (context: PlatformContext)
    ensures
        context.window_class_name@ == "NanoWin"@,
        context.window_class_style == 0x0003,
{
    assert(CS_HREDRAW | CS_VREDRAW == 0x0003) by (bit_vector);
    PlatformContext {
        window_class_name: "NanoWin".to_owned(),
        window_class_style: CS_HREDRAW | CS_VREDRAW,
    }
}

/// The style of every window: overlapped, with a caption, a system menu, a
/// sizing border and both the minimize and the maximize box.
pub const WINDOW_STYLE: u32 = 0x00CF_0000;

/// The state of a window that the system is about to be asked for, with the
/// given title and outer size: no OpenGL context yet, and a client area of
/// which no size is known before the first size message.
pub fn create_window(title: String, size: Size) -> (w: PlatformWindow)
    ensures
        w@ == (PlatformWindowModel {
            title: title@,
            requested: size,
            gl_context: None,
            surface: fresh(Size { width: 0, height: 0 }),
        }),
{
    PlatformWindow {
        title,
        requested: size,
        gl_context: None,
        surface: Surface::new(Size { width: 0, height: 0 }),
    }
}

/// The window procedure: looks at one message and says what to return and
/// what to do.
///
/// `lparam` is the message's second parameter as an unsigned number, and
/// `drawable` the size of the client area when the message arrived. The
/// first parameter plays no part.
pub fn wnd_proc(
    window: &mut PlatformWindow,
    msg: u32,
    wparam: usize,
    lparam: usize,
    drawable: Size,
) -> (reply: Reply)
    ensures
        reply == reply_to(old(window)@, msg, lparam, drawable),
        final(window)@ == after_message(old(window)@, msg, lparam, drawable),
{
    if msg == WM_DESTROY {
        Reply { result: Some(0), effect: Effect::PostQuit }
    } else if msg == WM_SIZE {
        let size = Size { width: LOWORD(lparam) as i32, height: HIWORD(lparam) as i32 };
        let redraw = window.surface.resize(size);
        Reply {
            result: Some(0),
            effect: Effect::Resized { size, viewport: window.gl_context.is_some(), redraw },
        }
    } else if msg == WM_MOUSEMOVE {
        let at = Point { x: LOWORD(lparam) as i32, y: HIWORD(lparam) as i32 };
        window.surface.pointer_moved(at);
        Reply { result: Some(0), effect: Effect::RequestPaint }
    } else if msg == WM_ERASEBKGND {
        Reply { result: Some(1), effect: Effect::Nothing }
    } else if msg == WM_PAINT {
        if window.gl_context.is_some() {
            let frame = window.surface.draw(drawable);
            Reply { result: Some(0), effect: Effect::Paint { frame: Some(frame) } }
        } else {
            Reply { result: Some(0), effect: Effect::Paint { frame: None } }
        }
    } else {
        Reply { result: None, effect: Effect::Default }
    }
}

/// A message that is none of the five that this backend knows goes to the
/// default window procedure and changes nothing.
pub proof fn lemma_unknown_message_passes_through(
    m: PlatformWindowModel,
    msg: u32,
    lparam: usize,
    drawable: Size,
)
    requires
        msg != WM_DESTROY,
        msg != WM_SIZE,
        msg != WM_MOUSEMOVE,
        msg != WM_ERASEBKGND,
        msg != WM_PAINT,
    ensures
        reply_to(m, msg, lparam, drawable) == (Reply { result: None, effect: Effect::Default }),
        after_message(m, msg, lparam, drawable) == m,
{
}

/// No message builds a graphics context or draws a frame before an OpenGL
/// context is bound to the window, and none but a paint message ever does.
pub proof fn lemma_only_paint_draws(
    m: PlatformWindowModel,
    msg: u32,
    lparam: usize,
    drawable: Size,
)
    requires
        msg != WM_PAINT || m.gl_context is None,
    ensures
        after_message(m, msg, lparam, drawable).surface.context_ready == m.surface.context_ready,
        after_message(m, msg, lparam, drawable).surface.frames == m.surface.frames,
        !(reply_to(m, msg, lparam, drawable).effect matches Effect::Paint { frame: Some(_) }),
{
}

} // verus!

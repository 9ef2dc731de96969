//! The desktop backend whose windows are drawn through the system's
//! compositor.
//!
//! The functions here decide what the native application and its windows
//! are to be; creating them is left to the caller, who holds the native
//! objects.

pub mod nsappdelegate;
pub mod nsmtkview;

use vstd::prelude::*;
use crate::app::{attached, AppDelegate, Phase};
use crate::geometry::{Point, Rect, Size};
use crate::macos::nsappdelegate::{AppDelegateModel, NSAppDelegate};
use crate::macos::nsmtkview::NSMtkView;
use crate::surface::{fresh, SurfaceModel};
use crate::window::WindowDelegate;

verus! {

/// How the application takes part in the system's user interface.
#[derive(Debug, Clone, Copy, PartialEq, Eq, Structural)]
pub enum ActivationPolicy {
    /// An ordinary application, with an icon and a menu bar.
    Regular,
    /// An application without an icon that may still show windows.
    Accessory,
    /// An application that shows nothing.
    Prohibited,
}

/// The parts of a window's frame that the system draws and serves.
#[derive(Debug, Clone, Copy, PartialEq, Eq, Structural)]
pub struct WindowStyle {
    pub titled: bool,
    pub closable: bool,
    pub resizable: bool,
    pub miniaturizable: bool,
}

/// A colour, each part from 0 to 255.
#[derive(Debug, Clone, Copy, PartialEq, Eq, Structural)]
pub struct Color {
    pub red: u8,
    pub green: u8,
    pub blue: u8,
    pub alpha: u8,
}

/// How a view hands out and redraws its drawables.
#[derive(Debug, Clone, Copy, PartialEq, Eq, Structural)]
pub struct ViewSettings {
    /// No timer draws the view.
    pub paused: bool,
    /// Drawables are presented together with the layer's transaction.
    pub presents_with_transaction: bool,
    /// The view draws when it is told that it needs display.
    pub enable_set_needs_display: bool,
    /// The drawable follows the size of the view.
    pub auto_resize_drawable: bool,
    /// The layer's contents are anchored to the top-left corner.
    pub contents_top_left: bool,
    /// The layer is redrawn while the view is resized.
    pub redraw_during_resize: bool,
    /// The view is backed by a layer.
    pub wants_layer: bool,
}

/// What a native window is created with.
#[derive(Debug, Clone, Copy, PartialEq, Eq, Structural)]
pub struct WindowSettings {
    /// The rectangle of the content, in screen coordinates.
    pub content_rect: Rect,
    pub style: WindowStyle,
    pub background: Color,
    /// The window is created when it is first shown.
    pub deferred: bool,
    /// The window is centred on the screen.
    pub centered: bool,
    /// The window becomes the key window, in front of the others.
    pub key_and_front: bool,
    /// The window receives pointer motions.
    pub accepts_mouse_moved: bool,
}

/// The style of every window: titled, closable, resizable and
/// miniaturizable.
pub open spec fn window_style() -> WindowStyle {
    WindowStyle { titled: true, closable: true, resizable: true, miniaturizable: true }
}

/// The background of every window: opaque black.
pub open spec fn window_background() -> Color {
    Color { red: 0, green: 0, blue: 0, alpha: 255 }
}

/// The settings of a window of the given size.
pub open spec fn window_settings(size: Size) -> WindowSettings {
    WindowSettings {
        content_rect: Rect { origin: Point { x: 0, y: 0 }, size },
        style: window_style(),
        background: window_background(),
        deferred: true,
        centered: true,
        key_and_front: true,
        accepts_mouse_moved: true,
    }
}

/// The settings of every view: drawn on demand only, and while it is
/// resized.
pub open spec fn view_settings() -> ViewSettings {
    ViewSettings {
        paused: true,
        presents_with_transaction: false,
        enable_set_needs_display: true,
        auto_resize_drawable: true,
        contents_top_left: true,
        redraw_during_resize: true,
        wants_layer: true,
    }
}

/// A window of this backend: what the native window is created with, and
/// the view that is its content.
pub struct PlatformWindow {
    pub title: String,
    pub window: WindowSettings,
    pub view_settings: ViewSettings,
    pub view: NSMtkView,
}

/// The mathematical state of a window of this backend.
pub struct PlatformWindowModel {
    pub title: Seq<char>,
    pub window: WindowSettings,
    pub view_settings: ViewSettings,
    pub view: SurfaceModel,
}

impl View for PlatformWindow {
    type V = PlatformWindowModel;

    open spec fn view(&self) -> PlatformWindowModel {
        PlatformWindowModel {
            title: self.title@,
            window: self.window,
            view_settings: self.view_settings,
            view: self.view@,
        }
    }
}

/// A window as `create_window` makes it.
pub open spec fn created_window(title: Seq<char>, size: Size) -> PlatformWindowModel {
    PlatformWindowModel {
        title,
        window: window_settings(size),
        view_settings: view_settings(),
        view: fresh(size),
    }
}

/// The application of this backend: the receiver of its launch and
/// termination, and its windows.
pub struct PlatformContext {
    pub app_delegate: NSAppDelegate,
    pub activation_policy: ActivationPolicy,
    pub windows: Vec<PlatformWindow>,
}

/// Sets up an application with the given title: a regular application
/// whose launch and termination go to a receiver without a delegate, and
/// without windows.
pub fn create_context(title: String) -> (context: PlatformContext)
    ensures
        context.app_delegate@ == (AppDelegateModel {
            title: title@,
            app_delegate: None,
            phase: Phase::Created,
        }),
        context.activation_policy == ActivationPolicy::Regular,
        context.windows@.len() == 0,
{
    let app_delegate = NSAppDelegate::new(title);
    PlatformContext {
        app_delegate,
        activation_policy: ActivationPolicy::Regular,
        windows: Vec::new(),
    }
}

/// Decides what a window with the given title and size is created with:
/// the fixed style and background, a content rectangle of that size at the
/// origin, and a view that fills it, drawn on demand.
pub fn create_window(context: &PlatformContext, title: String, size: Size) -> (window:
    PlatformWindow)
    ensures
        window@ == created_window(title@, size),
{
    let window_rect = Rect { origin: Point { x: 0, y: 0 }, size };
    let window = WindowSettings {
        content_rect: window_rect,
        style: WindowStyle { titled: true, closable: true, resizable: true, miniaturizable: true },
        background: Color { red: 0, green: 0, blue: 0, alpha: 255 },
        deferred: true,
        centered: true,
        key_and_front: true,
        accepts_mouse_moved: true,
    };
    let view = NSMtkView::new(window_rect);
    let view_settings = ViewSettings {
        paused: true,
        presents_with_transaction: false,
        enable_set_needs_display: true,
        auto_resize_drawable: true,
        contents_top_left: true,
        redraw_during_resize: true,
        wants_layer: true,
    };
    PlatformWindow { title, window, view_settings, view }
}

/// Prepares the application to serve events: attaches the application's
/// delegate to the receiver and makes the first window, of the requested
/// size and with the application's title, the only window of the
/// application. The caller then hands control to the native event loop.
pub fn run(
    context: &mut PlatformContext,
    app_delegate: Box<dyn AppDelegate>,
    window_delegate: Box<dyn WindowDelegate>,
    window_size_request: Size,
)
    ensures
        final(context).app_delegate@.app_delegate == attached(app_delegate),
        final(context).app_delegate@ == (AppDelegateModel {
            app_delegate: final(context).app_delegate@.app_delegate,
            ..old(context).app_delegate@
        }),
        final(context).activation_policy == old(context).activation_policy,
        final(context).windows@.len() == 1,
        final(context).windows@[0]@ == created_window(
            old(context).app_delegate@.title,
            window_size_request,
        ),
{
    context.app_delegate.set_app_delegate(app_delegate);
    let title = context.app_delegate.title().clone();
    let initial_window = create_window(context, title, window_size_request);
    let mut windows: Vec<PlatformWindow> = Vec::new();
    windows.push(initial_window);
    context.windows = windows;
}

} // verus!

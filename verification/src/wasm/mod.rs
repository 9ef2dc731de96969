//! The backend that draws into a canvas of a web page.
//!
//! The functions here decide what the page is to hold; the caller, who
//! holds the document, creates it.

use vstd::prelude::*;
use crate::app::{
    add_app_window, after_run, get_app_title, run_app, set_app_delegate, App, AppDelegate,
    AppModel, AppRegistry,
};
use crate::geometry::Size;
use crate::window::{
    create_window, set_window_delegate, set_window_size, set_window_title, window_loaded, Window,
    WindowDelegate, WindowModel, WindowRegistry,
};

verus! {

/// One declaration of an element's style: a property and its value.
#[derive(Debug, Clone, Copy)]
pub struct StyleRule {
    pub property: &'static str,
    pub value: &'static str,
}

impl View for StyleRule {
    type V = (Seq<char>, Seq<char>);

    open spec fn view(&self) -> (Seq<char>, Seq<char>) {
        (self.property@, self.value@)
    }
}

/// The style of the canvas: it covers the whole viewport, from its top-left
/// corner, without a margin.
pub open spec fn canvas_style() -> Seq<(Seq<char>, Seq<char>)> {
    seq![
        ("width"@, "100vw"@),
        ("height"@, "100vh"@),
        ("position"@, "absolute"@),
        ("margin"@, "0"@),
        ("top"@, "0"@),
        ("left"@, "0"@),
    ]
}

/// A two-dimensional layer: a canvas element appended to the body of the
/// page, with its style and the size of its bitmap, and the kind of
/// drawing context that is asked of it.
pub struct PlatformLayer2D {
    pub element: &'static str,
    pub style: Vec<StyleRule>,
    pub width: u32,
    pub height: u32,
    pub context_kind: &'static str,
}

/// Decides what the canvas of a two-dimensional layer is, for a page whose
/// viewport has the given inner size: a `canvas` element that covers the
/// viewport, with a bitmap of the viewport's size and a `2d` context.
pub fn create_layer_2d(inner_width: u32, inner_height: u32) -> (layer: PlatformLayer2D)
    ensures
        layer.element@ == "canvas"@,
        layer.style@.map_values(|r: StyleRule| r@) == canvas_style(),
        layer.width == inner_width,
        layer.height == inner_height,
        layer.context_kind@ == "2d"@,
{
    let mut style: Vec<StyleRule> = Vec::new();
    style.push(StyleRule { property: "width", value: "100vw" });
    style.push(StyleRule { property: "height", value: "100vh" });
    style.push(StyleRule { property: "position", value: "absolute" });
    style.push(StyleRule { property: "margin", value: "0" });
    style.push(StyleRule { property: "top", value: "0" });
    style.push(StyleRule { property: "left", value: "0" });
    assert(style@.map_values(|r: StyleRule| r@) =~= canvas_style());
    PlatformLayer2D {
        element: "canvas",
        style,
        width: inner_width,
        height: inner_height,
        context_kind: "2d",
    }
}

/// An application after `run`: the delegate is attached, the launch has
/// been announced unless it had been before, and the new window is the last
/// of the application's windows.
pub open spec fn after_page_run(m: AppModel, delegate: Option<Box<dyn AppDelegate>>, window: Window)
    -> AppModel {
    let launched = after_run(AppModel { delegate, ..m });
    AppModel { windows: m.windows.push(window), ..launched }
}

/// Starts an application on a page: attaches the application's delegate and
/// announces the launch to it, then makes the first window, of the
/// requested size and with the application's title, adds it to the
/// application's windows, attaches the window's delegate and tells it that
/// the window has been created. Returns the handle of the window.
///
/// The page serves its events by itself: there is no loop to enter.
pub fn run(
    apps: &mut AppRegistry,
    app: App,
    windows: &mut WindowRegistry,
    app_delegate: Box<dyn AppDelegate>,
    window_delegate: Box<dyn WindowDelegate>,
    window_size_request: Size,
) -> (window: Window)
    requires
        old(apps).has(app),
    ensures
        window == old(windows)@.len(),
        final(apps)@ == old(apps)@.update(
            app as int,
            after_page_run(old(apps).app(app), crate::app::attached(app_delegate), window),
        ),
        final(windows)@ == old(windows)@.push(
            WindowModel {
                size: window_size_request,
                title: old(apps).app(app).title,
                delegate: crate::window::attached(window_delegate),
                visible: false,
            },
        ),
{
    set_app_delegate(apps, app, app_delegate);
    run_app(apps, app);
    let title = get_app_title(apps, app);
    let window = create_window(windows);
    set_window_size(windows, window, window_size_request);
    set_window_title(windows, window, title.as_str());
    set_window_delegate(windows, window, window_delegate);
    add_app_window(apps, app, window);
    window_loaded(windows, window);
    assert(apps@ =~= old(apps)@.update(
        app as int,
        after_page_run(old(apps).app(app), crate::app::attached(app_delegate), window),
    ));
    assert(windows@ =~= old(windows)@.push(
        WindowModel {
            size: window_size_request,
            title: old(apps).app(app).title,
            delegate: crate::window::attached(window_delegate),
            visible: false,
        },
    ));
    window
}

} // verus!

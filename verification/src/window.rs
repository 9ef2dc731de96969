//! Windows: the registry that owns their state, the handles that name them,
//! and the delegate that is told when one is loaded, shown or resized.

use vstd::prelude::*;
use crate::geometry::Size;

verus! {

/// The handle of a window: its place in the registry that made it.
pub type Window = usize;

/// The handle of a layer of a window. Windows have one surface and no
/// layers; nothing makes or takes such a handle.
pub type Layer = usize;

/// What is told of a window's life.
pub trait WindowDelegate {
    /// The window has been created.
    fn window_did_load(&self, window: Window);

    /// The window has become visible.
    fn window_did_change_visibility(&self, window: Window);

    /// The window has a new size.
    fn window_did_resize(&self, window: Window);
}

/// The mathematical state of one window.
pub struct WindowModel {
    pub size: Size,
    pub title: Seq<char>,
    pub delegate: Option<Box<dyn WindowDelegate>>,
    pub visible: bool,
}

struct RawWindow {
    size: Size,
    title: String,
    delegate: Option<Box<dyn WindowDelegate>>,
    visible: bool,
}

impl View for RawWindow {
    type V = WindowModel;

    closed spec fn view(&self) -> WindowModel {
        WindowModel {
            size: self.size,
            title: self.title@,
            delegate: self.delegate,
            visible: self.visible,
        }
    }
}

/// The owner of every window's state. Its view is the sequence of the
/// windows made so far; a handle is an index into it.
pub struct WindowRegistry {
    windows: Vec<RawWindow>,
}

impl View for WindowRegistry {
    type V = Seq<WindowModel>;

    closed spec fn view(&self) -> Seq<WindowModel> {
        Seq::new(self.windows@.len(), |i: int| self.windows@[i]@)
    }
}

/// The size of a window as `create_window` makes it.
pub open spec fn default_size() -> Size {
    Size { width: 800, height: 600 }
}

/// A window as `create_window` makes it.
pub open spec fn new_window() -> WindowModel {
    WindowModel { size: default_size(), title: "NanoKit Window"@, delegate: None, visible: false }
}

/// Showing the window tells its delegate: one is attached and the window
/// is not visible yet.
pub open spec fn announces_shown(m: WindowModel) -> bool {
    m.delegate is Some && !m.visible
}

/// A resize notification is acknowledged and told to the delegate: one is
/// attached and the size is renderable.
pub open spec fn announces_resized(m: WindowModel, size: Size) -> bool {
    m.delegate is Some && size.is_renderable()
}

/// A window after a resize notification: a renderable size is taken over,
/// any other leaves the resize pending and the window as it was.
pub open spec fn after_resized(m: WindowModel, size: Size) -> WindowModel {
    if size.is_renderable() {
        WindowModel { size, ..m }
    } else {
        m
    }
}

impl WindowRegistry {
    /// A registry without windows.
    pub fn new() -> (reg: WindowRegistry)
        ensures
            reg@ == Seq::<WindowModel>::empty(),
    {
        let reg = WindowRegistry { windows: Vec::new() };
        assert(reg@ =~= Seq::<WindowModel>::empty());
        reg
    }

    /// The handle names a window of this registry.
    pub open spec fn has(&self, window: Window) -> bool {
        window < self@.len()
    }

    /// The state of the window that the handle names.
    pub open spec fn window(&self, window: Window) -> WindowModel
        recommends
            self.has(window),
    {
        self@[window as int]
    }

    /// Tells whether the handle names a window of this registry.
    pub fn is_window(&self, window: Window) -> (r: bool)
        ensures
            r == self.has(window),
    {
        window < self.windows.len()
    }

    /// The number of windows made so far.
    pub fn len(&self) -> (n: usize)
        ensures
            n == self@.len(),
    {
        self.windows.len()
    }
}

/// Makes a window 800 wide and 600 high with the default title, no
/// delegate, and not shown. Its handle is the next free one; the windows
/// made before are as they were.
pub fn create_window(reg: &mut WindowRegistry) -> (window: Window)
    ensures
        window == old(reg)@.len(),
        final(reg)@ == old(reg)@.push(new_window()),
{
    let size = Size { width: 800, height: 600 };
    let title = "NanoKit Window";
    let raw_window = RawWindow { size, title: title.to_owned(), delegate: None, visible: false };
    let window = reg.windows.len();
    reg.windows.push(raw_window);
    assert(reg@ =~= old(reg)@.push(new_window()));
    window
}

/// Tells the window's delegate that the window has been created. Returns
/// whether there was a delegate to tell.
pub fn window_loaded(reg: &WindowRegistry, window: Window) -> (announced: bool)
    requires
        reg.has(window),
    ensures
        announced == (reg.window(window).delegate is Some),
{
    match &reg.windows[window].delegate {
        Some(delegate) => {
            delegate.window_did_load(window);
            true
        },
        None => false,
    }
}

/// Shows the window. Returns whether its delegate was told, which happens
/// when the window becomes visible and a delegate is attached.
pub fn show_window(reg: &mut WindowRegistry, window: Window) -> (announced: bool)
    requires
        old(reg).has(window),
    ensures
        announced == announces_shown(old(reg).window(window)),
        final(reg)@ == old(reg)@.update(
            window as int,
            WindowModel { visible: true, ..old(reg).window(window) },
        ),
{
    let raw_window = &mut reg.windows[window];
    let was_visible = raw_window.visible;
    raw_window.visible = true;
    let mut announced = false;
    if !was_visible {
        match &raw_window.delegate {
            Some(delegate) => {
                delegate.window_did_change_visibility(window);
                announced = true;
            },
            None => {},
        }
    }
    assert(reg@ =~= old(reg)@.update(
        window as int,
        WindowModel { visible: true, ..old(reg).window(window) },
    ));
    announced
}

/// Tells whether the window has been shown.
pub fn is_window_visible(reg: &WindowRegistry, window: Window) -> (visible: bool)
    requires
        reg.has(window),
    ensures
        visible == reg.window(window).visible,
{
    reg.windows[window].visible
}

/// Takes the platform's notification that the window has a new size. A
/// renderable size becomes the window's size and the delegate, if any, is
/// told; any other size leaves the resize pending and changes nothing.
/// Returns whether the delegate was told.
pub fn window_resized(reg: &mut WindowRegistry, window: Window, size: Size) -> (announced: bool)
    requires
        old(reg).has(window),
    ensures
        announced == announces_resized(old(reg).window(window), size),
        final(reg)@ == old(reg)@.update(
            window as int,
            after_resized(old(reg).window(window), size),
        ),
{
    let mut announced = false;
    if size.renderable() {
        let raw_window = &mut reg.windows[window];
        raw_window.size = size;
        match &raw_window.delegate {
            Some(delegate) => {
                delegate.window_did_resize(window);
                announced = true;
            },
            None => {},
        }
    }
    assert(reg@ =~= old(reg)@.update(
        window as int,
        after_resized(old(reg).window(window), size),
    ));
    announced
}

/// Gives the window a size.
pub fn set_window_size(reg: &mut WindowRegistry, window: Window, size: Size)
    requires
        old(reg).has(window),
    ensures
        final(reg)@ == old(reg)@.update(
            window as int,
            WindowModel { size, ..old(reg).window(window) },
        ),
{
    reg.windows[window].size = size;
    assert(reg@ =~= old(reg)@.update(
        window as int,
        WindowModel { size, ..old(reg).window(window) },
    ));
}

/// The window's size.
pub fn get_window_size(reg: &WindowRegistry, window: Window) -> (size: Size)
    requires
        reg.has(window),
    ensures
        size == reg.window(window).size,
{
    reg.windows[window].size
}

/// Gives the window a title.
pub fn set_window_title(reg: &mut WindowRegistry, window: Window, title: &str)
    requires
        old(reg).has(window),
    ensures
        final(reg)@ == old(reg)@.update(
            window as int,
            WindowModel { title: title@, ..old(reg).window(window) },
        ),
{
    reg.windows[window].title = title.to_owned();
    assert(reg@ =~= old(reg)@.update(
        window as int,
        WindowModel { title: title@, ..old(reg).window(window) },
    ));
}

/// The window's title.
pub fn get_window_title(reg: &WindowRegistry, window: Window) -> (title: String)
    requires
        reg.has(window),
    ensures
        title@ == reg.window(window).title,
{
    reg.windows[window].title.clone()
}

/// The place of a window's delegate once `delegate` has been attached.
pub open spec fn attached(delegate: Box<dyn WindowDelegate>) -> Option<Box<dyn WindowDelegate>> {
    let slot = Some(delegate);
    slot
}

/// Attaches a delegate to the window, in place of the one that was
/// attached before, if any.
pub fn set_window_delegate(reg: &mut WindowRegistry, window: Window, delegate: Box<dyn WindowDelegate>)
    requires
        old(reg).has(window),
    ensures
        final(reg).has(window),
        final(reg).window(window).delegate == Some(delegate),
        final(reg)@ == old(reg)@.update(
            window as int,
            WindowModel { delegate: final(reg).window(window).delegate, ..old(reg).window(window) },
        ),
{
    let attached = Some(delegate);
    let ghost after = WindowModel { delegate: attached, ..reg.window(window) };
    reg.windows[window].delegate = attached;
    assert(reg@ =~= old(reg)@.update(window as int, after));
}

/// Tells whether a delegate is attached to the window.
pub fn has_window_delegate(reg: &WindowRegistry, window: Window) -> (attached: bool)
    requires
        reg.has(window),
    ensures
        attached == (reg.window(window).delegate is Some),
{
    reg.windows[window].delegate.is_some()
}

} // verus!

use std::cell::RefCell;
use std::rc::Rc;

use nanowin::app::{
    create_app, run_app, set_app_delegate, terminate_app, AppDelegate, AppRegistry,
};
use nanowin::geometry::{Point, Rect, Size};
use nanowin::macos::nsmtkview::NSMtkView;
use nanowin::surface::Surface;
use nanowin::window::{
    create_window, get_window_size, set_window_delegate, show_window, window_loaded, Window,
    WindowDelegate, WindowRegistry,
};
use nanowin::windows::{wnd_proc, Effect, GlContext, WM_DESTROY, WM_PAINT, WM_SIZE};

struct AppRecorder {
    log: Rc<RefCell<Vec<String>>>,
}

impl AppDelegate for AppRecorder {
    fn application_did_finish_launching(&self) {
        self.log.borrow_mut().push("launch finished".to_string());
    }

    fn application_will_terminate(&self) {
        self.log.borrow_mut().push("will terminate".to_string());
    }
}

struct WindowRecorder {
    log: Rc<RefCell<Vec<String>>>,
}

impl WindowDelegate for WindowRecorder {
    fn window_did_load(&self, window: Window) {
        self.log.borrow_mut().push(format!("created {}", window));
    }

    fn window_did_change_visibility(&self, window: Window) {
        self.log.borrow_mut().push(format!("shown {}", window));
    }

    fn window_did_resize(&self, window: Window) {
        self.log.borrow_mut().push(format!("resized {}", window));
    }
}

#[test]
fn launch_is_announced_before_the_first_draw() {
    let log = Rc::new(RefCell::new(Vec::new()));
    let mut apps = AppRegistry::new();
    let mut windows = WindowRegistry::new();

    let app = create_app(&mut apps);
    let window = create_window(&mut windows);
    assert_eq!(get_window_size(&windows, window), Size { width: 800, height: 600 });
    set_app_delegate(&mut apps, app, Box::new(AppRecorder { log: log.clone() }));
    set_window_delegate(&mut windows, window, Box::new(WindowRecorder { log: log.clone() }));

    let mut surface = Surface::new(get_window_size(&windows, window));
    assert!(!surface.context_ready());

    assert_eq!(run_app(&mut apps, app), 0);
    assert_eq!(log.borrow().first().map(String::as_str), Some("launch finished"));
    assert!(!surface.context_ready());

    window_loaded(&windows, window);
    show_window(&mut windows, window);
    let frame = surface.draw(Size { width: 800, height: 600 });
    log.borrow_mut().push(format!("draw {}", frame.pass.is_some()));
    terminate_app(&mut apps, app);

    assert_eq!(
        *log.borrow(),
        vec![
            "launch finished".to_string(),
            "created 0".to_string(),
            "shown 0".to_string(),
            "draw true".to_string(),
            "will terminate".to_string(),
        ]
    );
}

#[test]
fn run_without_delegate_touches_nothing() {
    let mut apps = AppRegistry::new();
    let app = create_app(&mut apps);
    assert_eq!(run_app(&mut apps, app), -1);
    assert!(!terminate_app(&mut apps, app));
}

#[test]
fn native_window_life_from_creation_to_quit() {
    let size = Size { width: 800, height: 600 };
    let mut w = nanowin::windows::create_window("NanoKit Window".to_string(), size);
    let packed = (600usize << 16) | 800;
    wnd_proc(&mut w, WM_SIZE, 0, packed, size);
    assert_eq!(wnd_proc(&mut w, WM_PAINT, 0, 0, size).effect, Effect::Paint { frame: None });
    w.attach(GlContext { hdc: 1, hglrc: 2 });
    let mut built = 0;
    for _ in 0..10 {
        match wnd_proc(&mut w, WM_PAINT, 0, 0, size).effect {
            Effect::Paint { frame: Some(frame) } => {
                assert!(frame.pass.is_some());
                if frame.created_context {
                    built += 1;
                }
            }
            other => panic!("unexpected effect {:?}", other),
        }
    }
    assert_eq!(built, 1);
    assert_eq!(w.surface().frames(), 10);
    assert_eq!(wnd_proc(&mut w, WM_DESTROY, 0, 0, size).effect, Effect::PostQuit);
}

#[test]
fn compositor_view_life() {
    let mut view = NSMtkView::new(Rect {
        origin: Point { x: 0, y: 0 },
        size: Size { width: 800, height: 600 },
    });
    view.mouse_moved(400, 0, 600);
    let first = view.draw_in_mtk_view(Some(Size { width: 800, height: 600 }));
    assert!(first.created_context);
    assert_eq!(first.pass.unwrap().pointer, Point { x: 400, y: 600 });
    assert!(view.drawable_size_will_change(Size { width: 400, height: 300 }));
    let stale = view.draw_in_mtk_view(Some(Size { width: 800, height: 600 }));
    assert!(!stale.created_context);
    assert!(stale.pass.is_none());
    let fresh = view.draw_in_mtk_view(Some(Size { width: 400, height: 300 }));
    assert_eq!(fresh.pass.unwrap().index, 1);
}

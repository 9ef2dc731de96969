use std::cell::RefCell;
use std::rc::Rc;

use nanowin::geometry::{Point, Rect, Size};
use nanowin::window::{
    create_window, get_window_size, get_window_title, has_window_delegate, is_window_visible,
    set_window_delegate, set_window_size, set_window_title, show_window, window_loaded,
    window_resized, Window, WindowDelegate, WindowRegistry,
};

struct Recorder {
    name: &'static str,
    log: Rc<RefCell<Vec<String>>>,
}

impl WindowDelegate for Recorder {
    fn window_did_load(&self, window: Window) {
        self.log.borrow_mut().push(format!("{}:loaded:{}", self.name, window));
    }

    fn window_did_change_visibility(&self, window: Window) {
        self.log.borrow_mut().push(format!("{}:shown:{}", self.name, window));
    }

    fn window_did_resize(&self, window: Window) {
        self.log.borrow_mut().push(format!("{}:resized:{}", self.name, window));
    }
}

fn recorder(name: &'static str, log: &Rc<RefCell<Vec<String>>>) -> Box<dyn WindowDelegate> {
    Box::new(Recorder { name, log: log.clone() })
}

#[test]
fn create_window_gives_defaults() {
    let mut reg = WindowRegistry::new();
    assert_eq!(reg.len(), 0);
    let window = create_window(&mut reg);
    assert_eq!(window, 0);
    assert!(reg.is_window(window));
    assert!(!reg.is_window(1));
    assert_eq!(get_window_size(&reg, window), Size { width: 800, height: 600 });
    assert_eq!(get_window_title(&reg, window), "NanoKit Window");
    assert!(!has_window_delegate(&reg, window));
    assert!(!is_window_visible(&reg, window));
    assert_eq!(create_window(&mut reg), 1);
    assert_eq!(reg.len(), 2);
}

#[test]
fn window_size_and_title_round_trip() {
    let mut reg = WindowRegistry::new();
    let first = create_window(&mut reg);
    let second = create_window(&mut reg);
    set_window_size(&mut reg, first, Size { width: 320, height: 200 });
    set_window_title(&mut reg, first, "Small");
    set_window_title(&mut reg, first, "Smaller");
    assert_eq!(get_window_size(&reg, first), Size { width: 320, height: 200 });
    assert_eq!(get_window_title(&reg, first), "Smaller");
    assert_eq!(get_window_size(&reg, second), Size { width: 800, height: 600 });
    assert_eq!(get_window_title(&reg, second), "NanoKit Window");
}

#[test]
fn show_window_tells_the_delegate_once() {
    let log = Rc::new(RefCell::new(Vec::new()));
    let mut reg = WindowRegistry::new();
    let window = create_window(&mut reg);
    set_window_delegate(&mut reg, window, recorder("w", &log));
    assert!(show_window(&mut reg, window));
    assert!(is_window_visible(&reg, window));
    assert!(!show_window(&mut reg, window));
    assert_eq!(*log.borrow(), vec!["w:shown:0".to_string()]);
}

#[test]
fn show_window_without_delegate_shows_it() {
    let mut reg = WindowRegistry::new();
    let window = create_window(&mut reg);
    assert!(!show_window(&mut reg, window));
    assert!(is_window_visible(&reg, window));
}

#[test]
fn window_loaded_tells_the_delegate() {
    let log = Rc::new(RefCell::new(Vec::new()));
    let mut reg = WindowRegistry::new();
    let first = create_window(&mut reg);
    let second = create_window(&mut reg);
    assert!(!window_loaded(&reg, second));
    set_window_delegate(&mut reg, second, recorder("old", &log));
    set_window_delegate(&mut reg, second, recorder("new", &log));
    assert!(window_loaded(&reg, second));
    assert!(!window_loaded(&reg, first));
    assert_eq!(*log.borrow(), vec!["new:loaded:1".to_string()]);
}

#[test]
fn resize_notification_updates_size_and_tells_the_delegate() {
    let log = Rc::new(RefCell::new(Vec::new()));
    let mut reg = WindowRegistry::new();
    let window = create_window(&mut reg);
    assert!(!window_resized(&mut reg, window, Size { width: 640, height: 480 }));
    assert_eq!(get_window_size(&reg, window), Size { width: 640, height: 480 });
    set_window_delegate(&mut reg, window, recorder("w", &log));
    assert!(window_resized(&mut reg, window, Size { width: 1024, height: 768 }));
    assert_eq!(get_window_size(&reg, window), Size { width: 1024, height: 768 });
    assert_eq!(*log.borrow(), vec!["w:resized:0".to_string()]);
}

#[test]
fn resize_to_nothing_stays_pending() {
    let log = Rc::new(RefCell::new(Vec::new()));
    let mut reg = WindowRegistry::new();
    let window = create_window(&mut reg);
    set_window_delegate(&mut reg, window, recorder("w", &log));
    assert!(!window_resized(&mut reg, window, Size { width: 0, height: 480 }));
    assert!(!window_resized(&mut reg, window, Size { width: 640, height: 0 }));
    assert!(!window_resized(&mut reg, window, Size { width: -5, height: 10 }));
    assert_eq!(get_window_size(&reg, window), Size { width: 800, height: 600 });
    assert!(log.borrow().is_empty());
}

#[test]
fn geometry_values_compare_by_their_parts() {
    let a = Rect { origin: Point { x: 1, y: 2 }, size: Size { width: 3, height: 4 } };
    let b = a;
    assert_eq!(a, b);
    assert_ne!(a, Rect { origin: Point { x: 1, y: 2 }, size: Size { width: 3, height: 5 } });
    assert!(Size { width: 1, height: 1 }.renderable());
    assert!(!Size { width: 0, height: 1 }.renderable());
    assert!(!Size { width: 1, height: -1 }.renderable());
}

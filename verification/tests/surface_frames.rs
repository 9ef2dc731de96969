use nanowin::geometry::{Point, Size};
use nanowin::surface::{flip, Frame, RenderPass, Surface};

const W800: Size = Size { width: 800, height: 600 };

#[test]
fn new_surface_has_nothing() {
    let s = Surface::new(W800);
    assert!(!s.context_ready());
    assert_eq!(s.canvas_size(), W800);
    assert_eq!(s.pointer(), Point { x: -1, y: -1 });
    assert_eq!(s.frames(), 0);
}

#[test]
fn first_draw_builds_the_context_and_renders() {
    let mut s = Surface::new(W800);
    let frame = s.draw(W800);
    assert_eq!(
        frame,
        Frame {
            created_context: true,
            pass: Some(RenderPass { target: W800, pointer: Point { x: -1, y: -1 }, index: 0 }),
        }
    );
    assert!(s.context_ready());
    assert_eq!(s.frames(), 1);
}

#[test]
fn context_is_built_once_over_many_draws() {
    let mut s = Surface::new(W800);
    let mut built = 0;
    for i in 0..50 {
        let drawable = if i % 3 == 0 { Size { width: 640, height: 480 } } else { W800 };
        if s.draw(drawable).created_context {
            built += 1;
        }
        if i % 7 == 0 {
            s.resize(Size { width: 800 + i, height: 600 });
            s.resize(W800);
        }
        s.pointer_moved(Point { x: i, y: i });
    }
    assert_eq!(built, 1);
    assert!(s.context_ready());
}

#[test]
fn context_is_built_by_a_first_draw_that_is_skipped() {
    let mut s = Surface::new(W800);
    let first = s.draw(Size { width: 1, height: 1 });
    assert_eq!(first, Frame { created_context: true, pass: None });
    let second = s.draw(W800);
    assert!(!second.created_context);
    assert!(second.pass.is_some());
}

#[test]
fn mismatched_drawable_skips_the_frame() {
    let mut s = Surface::new(W800);
    s.draw(W800);
    let frame = s.draw(Size { width: 801, height: 600 });
    assert_eq!(frame, Frame { created_context: false, pass: None });
    assert_eq!(s.canvas_size(), W800);
    assert_eq!(s.frames(), 1);
    let frame = s.draw(Size { width: 800, height: 599 });
    assert_eq!(frame.pass, None);
    assert_eq!(s.canvas_size(), W800);
    let frame = s.draw(W800);
    assert_eq!(
        frame.pass,
        Some(RenderPass { target: W800, pointer: Point { x: -1, y: -1 }, index: 1 })
    );
}

#[test]
fn draw_after_resize_goes_by_the_new_size() {
    let mut s = Surface::new(W800);
    s.draw(W800);
    let new_size = Size { width: 1024, height: 768 };
    assert!(s.resize(new_size));
    assert_eq!(s.canvas_size(), new_size);
    assert_eq!(s.draw(W800).pass, None);
    assert_eq!(
        s.draw(new_size).pass,
        Some(RenderPass { target: new_size, pointer: Point { x: -1, y: -1 }, index: 1 })
    );
}

#[test]
fn last_resize_of_a_storm_is_the_one_that_counts() {
    let mut s = Surface::new(W800);
    for w in 1..200 {
        assert!(s.resize(Size { width: w, height: 2 * w }));
    }
    assert_eq!(s.canvas_size(), Size { width: 199, height: 398 });
    assert!(s.draw(Size { width: 199, height: 398 }).pass.is_some());
}

#[test]
fn resize_to_zero_or_less_stays_pending() {
    let mut s = Surface::new(W800);
    assert!(!s.resize(Size { width: 0, height: 0 }));
    assert!(!s.resize(Size { width: 0, height: 600 }));
    assert!(!s.resize(Size { width: 800, height: 0 }));
    assert!(!s.resize(Size { width: -800, height: 600 }));
    assert!(!s.resize(Size { width: 800, height: i32::MIN }));
    assert_eq!(s.canvas_size(), W800);
    assert!(s.draw(W800).pass.is_some());
}

#[test]
fn surface_of_no_extent_renders_nothing() {
    let mut s = Surface::new(Size { width: 0, height: 0 });
    let frame = s.draw(Size { width: 0, height: 0 });
    assert_eq!(frame, Frame { created_context: true, pass: None });
    assert_eq!(s.frames(), 0);
}

#[test]
fn pointer_motion_is_seen_by_the_next_draw() {
    let mut s = Surface::new(W800);
    s.pointer_moved(Point { x: 12, y: 34 });
    assert_eq!(s.pointer(), Point { x: 12, y: 34 });
    let frame = s.draw(W800);
    assert_eq!(frame.pass.unwrap().pointer, Point { x: 12, y: 34 });
    s.pointer_moved(Point { x: 56, y: 78 });
    s.pointer_moved(Point { x: 90, y: 11 });
    assert_eq!(s.draw(W800).pass.unwrap().pointer, Point { x: 90, y: 11 });
}

#[test]
fn flip_measures_from_the_top() {
    assert_eq!(flip(100, 50, 600), Point { x: 100, y: 550 });
    assert_eq!(flip(0, 0, 600), Point { x: 0, y: 600 });
    assert_eq!(flip(7, 600, 600), Point { x: 7, y: 0 });
    assert_eq!(flip(-3, 700, 600), Point { x: -3, y: -100 });
    assert_eq!(flip(1, -1, i32::MAX - 1), Point { x: 1, y: i32::MAX });
}

#[test]
fn frame_index_counts_rendered_frames_only() {
    let mut s = Surface::new(W800);
    assert_eq!(s.draw(W800).pass.unwrap().index, 0);
    assert_eq!(s.draw(Size { width: 1, height: 1 }).pass, None);
    assert_eq!(s.draw(W800).pass.unwrap().index, 1);
    assert_eq!(s.draw(W800).pass.unwrap().index, 2);
    assert_eq!(s.frames(), 3);
}

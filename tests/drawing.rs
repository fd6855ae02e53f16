use sketch_canvas::palette::{palette, size_presets};
use sketch_canvas::pen::{set_color, set_size, DrawingState, Event, Point, Segment};

fn pt(x: i32, y: i32) -> Point {
    Point { x, y }
}

fn seg(from: Point, to: Point, color: &str, width: u32) -> Segment {
    Segment { from, to, color: color.to_string(), width }
}

#[test]
fn red_six_pixel_stroke_through_both_points() {
    let mut st = DrawingState::new("black".to_string(), 2);
    set_color(&mut st, "red".to_string());
    set_size(&mut st, 6);
    st.pointer_down(pt(0, 0));
    let r = st.pointer_up(pt(50, 50));
    assert_eq!(r, Some(seg(pt(0, 0), pt(50, 50), "red", 6)));
    assert!(!st.pen_down());
}

#[test]
fn red_six_pixel_stroke_with_a_move() {
    let mut st = DrawingState::new("black".to_string(), 2);
    set_color(&mut st, "red".to_string());
    set_size(&mut st, 6);
    st.pointer_down(pt(0, 0));
    let a = st.pointer_move(pt(25, 25));
    let b = st.pointer_up(pt(50, 50));
    assert_eq!(a, Some(seg(pt(0, 0), pt(25, 25), "red", 6)));
    assert_eq!(b, Some(seg(pt(25, 25), pt(50, 50), "red", 6)));
}

#[test]
fn selected_color_applies_to_next_stroke() {
    let mut st = DrawingState::new("black".to_string(), 4);
    st.pointer_down(pt(1, 1));
    assert_eq!(st.pointer_up(pt(2, 2)), Some(seg(pt(1, 1), pt(2, 2), "black", 4)));
    set_color(&mut st, "blue".to_string());
    st.pointer_down(pt(3, 3));
    assert_eq!(st.pointer_move(pt(4, 5)), Some(seg(pt(3, 3), pt(4, 5), "blue", 4)));
    assert_eq!(st.pointer_up(pt(6, 7)), Some(seg(pt(4, 5), pt(6, 7), "blue", 4)));
}

#[test]
fn selected_width_applies_to_next_stroke() {
    let mut st = DrawingState::new("black".to_string(), 4);
    set_size(&mut st, 25);
    st.pointer_down(pt(10, 20));
    assert_eq!(st.pointer_move(pt(30, 40)), Some(seg(pt(10, 20), pt(30, 40), "black", 25)));
    set_size(&mut st, 2);
    assert_eq!(st.pointer_up(pt(50, 60)), Some(seg(pt(30, 40), pt(50, 60), "black", 2)));
}

#[test]
fn down_move_up_is_one_connected_stroke() {
    let mut st = DrawingState::new("green".to_string(), 10);
    st.pointer_down(pt(0, 0));
    let mut out = Vec::new();
    for p in [pt(5, 1), pt(9, 4), pt(12, 12)] {
        out.push(st.pointer_move(p).unwrap());
    }
    out.push(st.pointer_up(pt(20, 15)).unwrap());
    assert_eq!(out.len(), 4);
    assert_eq!(out[0].from, pt(0, 0));
    for i in 0..3 {
        assert_eq!(out[i].to, out[i + 1].from);
    }
    assert_eq!(out[3].to, pt(20, 15));
    assert!(out.iter().all(|g| g.color == "green" && g.width == 10));
}

#[test]
fn moves_before_down_draw_nothing() {
    let mut st = DrawingState::new("black".to_string(), 2);
    assert_eq!(st.pointer_move(pt(3, 4)), None);
    assert_eq!(st.pointer_move(pt(5, 6)), None);
    assert!(!st.pen_down());
    st.pointer_down(pt(7, 8));
    assert_eq!(st.pointer_move(pt(9, 9)), Some(seg(pt(7, 8), pt(9, 9), "black", 2)));
}

#[test]
fn moves_after_up_draw_nothing() {
    let mut st = DrawingState::new("black".to_string(), 2);
    st.pointer_down(pt(0, 0));
    assert!(st.pointer_up(pt(1, 1)).is_some());
    assert_eq!(st.pointer_move(pt(2, 2)), None);
    assert_eq!(st.pointer_move(pt(3, 3)), None);
    assert_eq!(st.pointer_up(pt(4, 4)), None);
}

#[test]
fn up_without_down_draws_nothing() {
    let mut st = DrawingState::new("black".to_string(), 2);
    assert_eq!(st.pointer_up(pt(4, 4)), None);
    assert!(!st.pen_down());
}

#[test]
fn second_down_starts_a_new_path() {
    let mut st = DrawingState::new("black".to_string(), 2);
    st.pointer_down(pt(0, 0));
    st.pointer_down(pt(100, 100));
    assert_eq!(st.pointer_move(pt(101, 102)), Some(seg(pt(100, 100), pt(101, 102), "black", 2)));
}

#[test]
fn negative_and_extreme_coordinates() {
    let mut st = DrawingState::new("black".to_string(), u32::MAX);
    st.pointer_down(pt(i32::MIN, -5));
    assert_eq!(
        st.pointer_up(pt(i32::MAX, 0)),
        Some(seg(pt(i32::MIN, -5), pt(i32::MAX, 0), "black", u32::MAX))
    );
}

#[test]
fn handle_dispatches_events() {
    let mut st = DrawingState::new("black".to_string(), 2);
    assert_eq!(st.handle(Event::PointerMove(pt(1, 1))), None);
    assert_eq!(st.handle(Event::SelectColor("red".to_string())), None);
    assert_eq!(st.handle(Event::SelectWidth(6)), None);
    assert_eq!(st.handle(Event::PointerDown(pt(0, 0))), None);
    assert!(st.pen_down());
    assert_eq!(
        st.handle(Event::PointerMove(pt(10, 10))),
        Some(seg(pt(0, 0), pt(10, 10), "red", 6))
    );
    assert_eq!(
        st.handle(Event::PointerUp(pt(50, 50))),
        Some(seg(pt(10, 10), pt(50, 50), "red", 6))
    );
    assert_eq!(st.handle(Event::PointerMove(pt(60, 60))), None);
}

#[test]
fn palette_lists_colors_in_order() {
    assert_eq!(palette(), vec!["black", "red", "green", "blue", "#abd2e4"]);
}

#[test]
fn size_presets_list_widths_in_order() {
    assert_eq!(size_presets(), vec![2, 6, 10, 25]);
}

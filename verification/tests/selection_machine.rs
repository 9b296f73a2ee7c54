use painter::geometry::Point;
use painter::selection::{PointerEvent, Selection};

fn press(s: &mut Selection, x: i64, y: i64) -> bool {
    s.process_mouse_event(PointerEvent::Pressed(Point::new(x, y)))
}

fn drag(s: &mut Selection, x: i64, y: i64) -> bool {
    s.process_mouse_event(PointerEvent::Drag(Point::new(x, y)))
}

fn release(s: &mut Selection, x: i64, y: i64) -> bool {
    s.process_mouse_event(PointerEvent::Released(Point::new(x, y)))
}

#[test]
fn create_selection_by_dragging() {
    let mut s = Selection::new();
    assert!(!s.is_visible());
    assert!(press(&mut s, 2, 2));
    assert!(s.is_visible());
    assert!(s.is_during_creation());
    assert!(drag(&mut s, 5, 5));
    assert!(release(&mut s, 5, 5));
    assert!(s.is_visible());
    assert!(!s.is_during_creation());
    // border rect is the created box expanded by one cell on each side
    let c = s.rect();
    assert_eq!((c.left, c.top, c.right, c.bottom), (2, 2, 5, 5));
}

#[test]
fn creation_is_direction_independent() {
    let mut s = Selection::new();
    press(&mut s, 5, 5);
    drag(&mut s, 2, 2);
    release(&mut s, 2, 2);
    let c = s.rect();
    assert_eq!((c.left, c.top, c.right, c.bottom), (2, 2, 5, 5));
}

#[test]
fn press_outside_active_rect_is_not_consumed() {
    let mut s = Selection::new();
    press(&mut s, 2, 2);
    drag(&mut s, 5, 5);
    release(&mut s, 5, 5);
    // border rect is (1,1)-(6,6); (20, 20) is well outside
    assert!(!press(&mut s, 20, 20));
    let c = s.rect();
    assert_eq!((c.left, c.top, c.right, c.bottom), (2, 2, 5, 5));
}

#[test]
fn dragging_interior_translates_without_resize() {
    let mut s = Selection::new();
    press(&mut s, 2, 2);
    drag(&mut s, 5, 5);
    release(&mut s, 5, 5);
    // border rect (1,1)-(6,6); (3,2) is interior and no handle
    assert!(press(&mut s, 3, 2));
    assert!(drag(&mut s, 13, 12));
    assert!(release(&mut s, 13, 12));
    let c = s.rect();
    // translation by (+10, +10), size kept
    assert_eq!((c.left, c.top, c.right, c.bottom), (12, 12, 15, 15));
}

#[test]
fn corner_resize_moves_only_grabbed_edges() {
    let mut s = Selection::new();
    press(&mut s, 2, 2);
    drag(&mut s, 5, 5);
    release(&mut s, 5, 5);
    // grab the top-left corner of the border rect (1,1)-(6,6)
    assert!(press(&mut s, 1, 1));
    assert!(drag(&mut s, -3, 0));
    assert!(release(&mut s, -3, 0));
    let c = s.rect();
    assert_eq!((c.left, c.top, c.right, c.bottom), (-2, 1, 5, 5));
}

#[test]
fn resize_clamps_two_cells_from_opposite_edge() {
    let mut s = Selection::new();
    press(&mut s, 2, 2);
    drag(&mut s, 5, 5);
    release(&mut s, 5, 5);
    // border rect (1,1)-(6,6): drag the top-left corner far past the
    // bottom-right; both moving edges stop two cells short of the fixed ones
    assert!(press(&mut s, 1, 1));
    assert!(drag(&mut s, 50, 50));
    assert!(release(&mut s, 50, 50));
    let c = s.rect();
    assert_eq!((c.left, c.top, c.right, c.bottom), (5, 5, 5, 5));
}

#[test]
fn edge_midpoint_resize_moves_one_edge() {
    let mut s = Selection::new();
    press(&mut s, 2, 2);
    drag(&mut s, 5, 5);
    release(&mut s, 5, 5);
    // border rect (1,1)-(6,6): bottom edge midpoint is ((1+6)/2, 6) = (3, 6)
    assert!(press(&mut s, 3, 6));
    assert!(drag(&mut s, 3, 10));
    assert!(release(&mut s, 3, 10));
    let c = s.rect();
    assert_eq!((c.left, c.top, c.right, c.bottom), (2, 2, 5, 9));
}

#[test]
fn release_without_manipulation_is_not_consumed() {
    let mut s = Selection::new();
    assert!(!release(&mut s, 0, 0));
    press(&mut s, 2, 2);
    drag(&mut s, 5, 5);
    release(&mut s, 5, 5);
    assert!(!release(&mut s, 5, 5));
}

#[test]
fn reset_forces_idle() {
    let mut s = Selection::new();
    press(&mut s, 2, 2);
    drag(&mut s, 5, 5);
    s.reset();
    assert!(!s.is_visible());
    // a fresh press starts a new creation
    assert!(press(&mut s, 7, 7));
    assert!(s.is_during_creation());
}

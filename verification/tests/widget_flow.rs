use painter::cell::{CharFlags, Color, LineType};
use painter::drawing_object::{DrawingObject, FillRectangleObject, LineObject, MoveObject,
    RectangleObject, SelectionObject, TextObject};
use painter::geometry::Point;
use painter::painter_control::{EventOutcome, KeyAction, PainterControl};
use painter::selection::PointerEvent;

fn flags0() -> CharFlags {
    CharFlags { bits: 0 }
}

fn press(pc: &mut PainterControl, x: i64, y: i64) -> EventOutcome {
    pc.handle_mouse_event(PointerEvent::Pressed(Point::new(x, y)), false)
}

fn drag(pc: &mut PainterControl, x: i64, y: i64) -> EventOutcome {
    pc.handle_mouse_event(PointerEvent::Drag(Point::new(x, y)), false)
}

fn release(pc: &mut PainterControl, x: i64, y: i64) -> EventOutcome {
    pc.handle_mouse_event(PointerEvent::Released(Point::new(x, y)), false)
}

fn select_region(pc: &mut PainterControl, x0: i64, y0: i64, x1: i64, y1: i64) {
    assert_eq!(press(pc, x0, y0), EventOutcome::Processed);
    assert_eq!(drag(pc, x1, y1), EventOutcome::Processed);
    assert_eq!(release(pc, x1, y1), EventOutcome::Processed);
}

#[test]
fn outline_commit_scenario() {
    // a 10x10 blank canvas with the outline tool (white on black, single
    // line style); selecting (2,2)-(5,5) and pressing the commit key
    // draws the outline there and records exactly one undo entry
    let mut pc = PainterControl::new(10, 10);
    pc.reset(DrawingObject::Rectangle(RectangleObject::default()));
    select_region(&mut pc, 2, 2, 5, 5);
    let c = pc.selection.rect();
    assert_eq!((c.left, c.top, c.right, c.bottom), (2, 2, 5, 5));
    assert_eq!(pc.handle_key(KeyAction::Commit), EventOutcome::Processed);
    assert_eq!(pc.surface.get(2, 2).unwrap().code, '\u{250C}');
    assert_eq!(pc.surface.get(5, 2).unwrap().code, '\u{2510}');
    assert_eq!(pc.surface.get(2, 5).unwrap().code, '\u{2514}');
    assert_eq!(pc.surface.get(5, 5).unwrap().code, '\u{2518}');
    assert_eq!(pc.surface.get(3, 2).unwrap().code, '\u{2500}');
    assert_eq!(pc.surface.get(2, 3).unwrap().code, '\u{2502}');
    assert_eq!(pc.surface.get(3, 3).unwrap().code, ' ');
    assert_eq!(pc.undo_stack.len(), 1);
    assert!(!pc.selection.is_visible());
}

#[test]
fn commit_pushes_one_undo_and_clears_redo() {
    let mut pc = PainterControl::new(8, 8);
    pc.reset(DrawingObject::FillRectangle(FillRectangleObject::default()));
    pc.update_fillrectangle_properties(Color::White, Color::Black, '#', flags0());
    select_region(&mut pc, 1, 1, 2, 2);
    pc.write_current_object();
    assert_eq!(pc.undo_stack.len(), 1);
    assert!(pc.undo());
    assert_eq!(pc.redo_stack.len(), 1);
    // a fresh commit clears the redo stack entirely
    select_region(&mut pc, 3, 3, 4, 4);
    pc.write_current_object();
    assert_eq!(pc.undo_stack.len(), 1);
    assert_eq!(pc.redo_stack.len(), 0);
    assert!(!pc.can_redo());
}

#[test]
fn undo_then_redo_restores_the_canvas() {
    let mut pc = PainterControl::new(8, 8);
    pc.reset(DrawingObject::FillRectangle(FillRectangleObject::default()));
    pc.update_fillrectangle_properties(Color::Red, Color::Black, '@', flags0());
    select_region(&mut pc, 2, 2, 3, 3);
    pc.write_current_object();
    assert_eq!(pc.surface.get(2, 2).unwrap().code, '@');
    assert!(pc.undo());
    assert_eq!(pc.surface.get(2, 2).unwrap().code, ' ');
    assert!(pc.redo());
    assert_eq!(pc.surface.get(2, 2).unwrap().code, '@');
    assert!(matches!(pc.surface.get(2, 2).unwrap().fore, Color::Red));
    assert!(pc.undo());
    assert_eq!(pc.surface.get(2, 2).unwrap().code, ' ');
}

#[test]
fn undo_with_empty_history_reports_false() {
    let mut pc = PainterControl::new(4, 4);
    assert!(!pc.can_undo());
    assert!(!pc.undo());
    assert!(!pc.can_redo());
    assert!(!pc.redo());
}

#[test]
fn fifty_one_commits_evict_only_the_earliest() {
    // 51 commits at the default cap of 50: the undo depth stays 50 and
    // undoing everything lands on the state after the first commit, not
    // on the pristine canvas
    let mut pc = PainterControl::new(6, 6);
    pc.reset(DrawingObject::FillRectangle(FillRectangleObject::default()));
    for i in 0..51u32 {
        let ch = char::from_u32(u32::from('A') + (i % 26)).unwrap();
        pc.update_fillrectangle_properties(Color::White, Color::Black, ch, flags0());
        select_region(&mut pc, 1, 1, 2, 2);
        pc.write_current_object();
    }
    assert_eq!(pc.undo_stack.len(), 50);
    for _ in 0..50 {
        assert!(pc.undo());
    }
    assert!(!pc.undo());
    // the first commit wrote 'A'; its pre-state (the blank canvas) was
    // evicted, so the earliest reachable state still shows the 'A' fill
    assert_eq!(pc.surface.get(1, 1).unwrap().code, 'A');
}

#[test]
fn paste_with_empty_clipboard_is_a_no_op() {
    let mut pc = PainterControl::new(6, 6);
    select_region(&mut pc, 1, 1, 3, 3);
    assert!(pc.selection.is_visible());
    assert!(pc.clipboard.is_none());
    assert_eq!(pc.handle_key(KeyAction::Paste), EventOutcome::Ignored);
    assert_eq!(pc.undo_stack.len(), 0);
    assert!(pc.selection.is_visible());
    for y in 0..6 {
        for x in 0..6 {
            assert_eq!(pc.surface.get(x, y).unwrap().code, ' ');
        }
    }
}

#[test]
fn copy_then_paste_round_trips_the_cells() {
    let mut pc = PainterControl::new(8, 8);
    pc.reset(DrawingObject::FillRectangle(FillRectangleObject::default()));
    pc.update_fillrectangle_properties(Color::Green, Color::Black, '*', flags0());
    select_region(&mut pc, 2, 2, 3, 3);
    pc.write_current_object();
    // back to the capture tool, select the filled region and copy it
    pc.reset(DrawingObject::Selection(SelectionObject::default()));
    select_region(&mut pc, 2, 2, 3, 3);
    assert_eq!(pc.handle_key(KeyAction::Copy), EventOutcome::Processed);
    assert!(pc.clipboard.is_some());
    let depth = pc.undo_stack.len();
    // pasting straight back reproduces the canvas exactly
    assert_eq!(pc.handle_key(KeyAction::Paste), EventOutcome::Processed);
    assert_eq!(pc.undo_stack.len(), depth + 1);
    for y in 0..8 {
        for x in 0..8 {
            let expect = if (2..=3).contains(&x) && (2..=3).contains(&y) { '*' } else { ' ' };
            assert_eq!(pc.surface.get(x, y).unwrap().code, expect);
        }
    }
}

#[test]
fn paste_transplants_to_another_region() {
    let mut pc = PainterControl::new(8, 8);
    pc.reset(DrawingObject::FillRectangle(FillRectangleObject::default()));
    pc.update_fillrectangle_properties(Color::Green, Color::Black, '*', flags0());
    select_region(&mut pc, 0, 0, 1, 1);
    pc.write_current_object();
    pc.reset(DrawingObject::Selection(SelectionObject::default()));
    select_region(&mut pc, 0, 0, 1, 1);
    pc.copy_selection();
    pc.cancel_selection();
    select_region(&mut pc, 5, 5, 6, 6);
    pc.paste_from_clipboard();
    assert_eq!(pc.surface.get(5, 5).unwrap().code, '*');
    assert_eq!(pc.surface.get(6, 6).unwrap().code, '*');
    // the source is untouched by a paste
    assert_eq!(pc.surface.get(0, 0).unwrap().code, '*');
    assert!(!pc.selection.is_visible());
}

#[test]
fn copy_needs_capture_tool_and_selection() {
    let mut pc = PainterControl::new(6, 6);
    pc.reset(DrawingObject::Rectangle(RectangleObject::default()));
    select_region(&mut pc, 1, 1, 2, 2);
    assert_eq!(pc.handle_key(KeyAction::Copy), EventOutcome::Ignored);
    assert!(pc.clipboard.is_none());
}

#[test]
fn cancel_discards_selection_without_history() {
    let mut pc = PainterControl::new(6, 6);
    select_region(&mut pc, 1, 1, 3, 3);
    assert!(pc.selection.is_visible());
    assert_eq!(pc.handle_key(KeyAction::Cancel), EventOutcome::Processed);
    assert!(!pc.selection.is_visible());
    assert_eq!(pc.undo_stack.len(), 0);
}

#[test]
fn capture_tool_moves_cells_on_commit() {
    let mut pc = PainterControl::new(10, 10);
    pc.reset(DrawingObject::FillRectangle(FillRectangleObject::default()));
    pc.update_fillrectangle_properties(Color::Red, Color::Black, 'X', flags0());
    select_region(&mut pc, 2, 2, 3, 3);
    pc.write_current_object();
    // capture the region, drag it by (+3,+3), commit: the cells move
    pc.reset(DrawingObject::Selection(SelectionObject::default()));
    select_region(&mut pc, 2, 2, 3, 3);
    assert_eq!(press(&mut pc, 2, 2), EventOutcome::Processed);
    assert_eq!(drag(&mut pc, 5, 5), EventOutcome::Processed);
    assert_eq!(release(&mut pc, 5, 5), EventOutcome::Processed);
    let c = pc.selection.rect();
    assert_eq!((c.left, c.top, c.right, c.bottom), (5, 5, 6, 6));
    pc.write_current_object();
    // the source region was blanked (its colors survive, the glyphs go)
    assert_eq!(pc.surface.get(2, 2).unwrap().code, ' ');
    assert!(matches!(pc.surface.get(2, 2).unwrap().fore, Color::Red));
    assert_eq!(pc.surface.get(5, 5).unwrap().code, 'X');
    assert_eq!(pc.surface.get(6, 6).unwrap().code, 'X');
}

#[test]
fn line_tool_draws_centered_lines() {
    let mut pc = PainterControl::new(10, 10);
    pc.reset(DrawingObject::Line(LineObject::default()));
    pc.update_line_properties(Color::White, Color::Black, LineType::Single, false);
    select_region(&mut pc, 2, 2, 5, 5);
    pc.write_current_object();
    // horizontal line on the content rect's middle row: y = (2+5)/2 = 3
    for x in 2..=5 {
        assert_eq!(pc.surface.get(x, 3).unwrap().code, '\u{2500}', "at {}", x);
    }
    assert_eq!(pc.surface.get(2, 2).unwrap().code, ' ');
    // and a vertical one in a fresh widget
    let mut pc2 = PainterControl::new(10, 10);
    pc2.reset(DrawingObject::Line(LineObject::default()));
    pc2.update_line_properties(Color::White, Color::Black, LineType::Single, true);
    select_region(&mut pc2, 2, 2, 5, 5);
    pc2.write_current_object();
    for y in 2..=5 {
        assert_eq!(pc2.surface.get(3, y).unwrap().code, '\u{2502}', "at {}", y);
    }
}

#[test]
fn text_tool_wraps_words_to_the_rect() {
    let mut pc = PainterControl::new(12, 12);
    pc.reset(DrawingObject::Text(TextObject::default()));
    pc.update_text_properties(String::from("ab cd ef"), Color::White, Color::Black, flags0());
    // content rect (2,2)-(7,4): width 6
    select_region(&mut pc, 2, 2, 7, 4);
    pc.write_current_object();
    assert_eq!(pc.surface.get(2, 2).unwrap().code, 'a');
    assert_eq!(pc.surface.get(3, 2).unwrap().code, 'b');
    assert_eq!(pc.surface.get(5, 2).unwrap().code, 'c');
    assert_eq!(pc.surface.get(6, 2).unwrap().code, 'd');
    // "ef" does not fit after "ab cd " and moves whole to the next line
    assert_eq!(pc.surface.get(2, 3).unwrap().code, 'e');
    assert_eq!(pc.surface.get(3, 3).unwrap().code, 'f');
    assert_eq!(pc.surface.get(4, 3).unwrap().code, ' ');
}

#[test]
fn text_clipped_to_rect_and_cleared_after_commit() {
    let mut pc = PainterControl::new(8, 8);
    pc.reset(DrawingObject::Text(TextObject::default()));
    pc.update_text_properties(String::from("abcd efgh"), Color::White, Color::Black, flags0());
    // content rect (2,2)-(4,2): width 3, a single row
    select_region(&mut pc, 2, 2, 4, 2);
    pc.write_current_object();
    assert_eq!(pc.surface.get(2, 2).unwrap().code, 'a');
    assert_eq!(pc.surface.get(3, 2).unwrap().code, 'b');
    assert_eq!(pc.surface.get(4, 2).unwrap().code, 'c');
    // the rest fell below the rect and was clipped
    assert_eq!(pc.surface.get(2, 3).unwrap().code, ' ');
    // the buffer was cleared by the commit
    match &pc.drawing_object {
        DrawingObject::Text(t) => assert!(t.txt.is_empty()),
        _ => panic!("text tool expected"),
    }
}

#[test]
fn update_properties_only_touch_matching_tool() {
    let mut pc = PainterControl::new(6, 6);
    pc.reset(DrawingObject::Rectangle(RectangleObject::default()));
    pc.update_line_properties(Color::Red, Color::Red, LineType::Double, true);
    match &pc.drawing_object {
        DrawingObject::Rectangle(r) => {
            assert!(matches!(r.fore, Color::White));
            assert!(matches!(r.line_type, LineType::Single));
        },
        _ => panic!("outline tool expected"),
    }
    pc.update_rectangle_properties(Color::Yellow, Color::Blue, LineType::Double);
    match &pc.drawing_object {
        DrawingObject::Rectangle(r) => {
            assert!(matches!(r.fore, Color::Yellow));
            assert!(matches!(r.back, Color::Blue));
            assert!(matches!(r.line_type, LineType::Double));
        },
        _ => panic!("outline tool expected"),
    }
}

#[test]
fn commit_without_selection_does_nothing() {
    let mut pc = PainterControl::new(6, 6);
    pc.write_current_object();
    assert_eq!(pc.undo_stack.len(), 0);
    assert_eq!(pc.handle_key(KeyAction::Commit), EventOutcome::Processed);
    assert_eq!(pc.undo_stack.len(), 0);
}

#[test]
fn pan_mode_scrolls_by_pointer_delta() {
    let mut pc = PainterControl::new(100, 100);
    // a 10x10 viewport over a 100x100 canvas leaves 90 cells of play
    pc.on_resize(10, 10);
    assert_eq!(pc.h_scroll_max, 90);
    pc.reset(DrawingObject::Move(MoveObject::default()));
    assert_eq!(press(&mut pc, 20, 20), EventOutcome::Processed);
    assert_eq!(drag(&mut pc, 15, 12), EventOutcome::Processed);
    assert_eq!(pc.h_scroll, 5);
    assert_eq!(pc.v_scroll, 8);
    // dragging the other way clamps at zero
    assert_eq!(drag(&mut pc, 40, 40), EventOutcome::Processed);
    assert_eq!(pc.h_scroll, 0);
    assert_eq!(pc.v_scroll, 0);
    assert_eq!(release(&mut pc, 40, 40), EventOutcome::Processed);
    // pan mode swallows events without editing the canvas
    assert_eq!(press(&mut pc, 1, 1), EventOutcome::Processed);
    assert_eq!(release(&mut pc, 1, 1), EventOutcome::Processed);
    assert!(!pc.selection.is_visible());
}

#[test]
fn scroll_keys_move_one_unit_and_clamp() {
    let mut pc = PainterControl::new(30, 30);
    pc.on_resize(10, 10);
    assert_eq!(pc.handle_key(KeyAction::ScrollDown), EventOutcome::Processed);
    assert_eq!(pc.handle_key(KeyAction::ScrollRight), EventOutcome::Processed);
    assert_eq!(pc.v_scroll, 1);
    assert_eq!(pc.h_scroll, 1);
    assert_eq!(pc.handle_key(KeyAction::ScrollUp), EventOutcome::Processed);
    assert_eq!(pc.handle_key(KeyAction::ScrollUp), EventOutcome::Processed);
    assert_eq!(pc.v_scroll, 0);
    for _ in 0..50 {
        pc.handle_key(KeyAction::ScrollRight);
    }
    assert_eq!(pc.h_scroll, 20);
}

#[test]
fn selection_events_respect_scroll_offset() {
    let mut pc = PainterControl::new(30, 30);
    pc.on_resize(10, 10);
    pc.set_scroll_indexes(5, 5);
    // screen (2,2) is canvas (7,7) under a (5,5) scroll
    select_region(&mut pc, 2, 2, 4, 4);
    let c = pc.selection.rect();
    assert_eq!((c.left, c.top, c.right, c.bottom), (7, 7, 9, 9));
}

#[test]
fn undo_keys_report_whether_anything_happened() {
    let mut pc = PainterControl::new(6, 6);
    assert_eq!(pc.handle_key(KeyAction::Undo), EventOutcome::Ignored);
    assert_eq!(pc.handle_key(KeyAction::Redo), EventOutcome::Ignored);
    pc.reset(DrawingObject::FillRectangle(FillRectangleObject::default()));
    select_region(&mut pc, 1, 1, 2, 2);
    pc.write_current_object();
    assert_eq!(pc.handle_key(KeyAction::Undo), EventOutcome::Processed);
    assert_eq!(pc.handle_key(KeyAction::Redo), EventOutcome::Processed);
}

#[test]
fn mouse_release_commits_when_machine_declines() {
    let mut pc = PainterControl::new(8, 8);
    pc.reset(DrawingObject::FillRectangle(FillRectangleObject::default()));
    pc.update_fillrectangle_properties(Color::White, Color::Black, '%', flags0());
    select_region(&mut pc, 2, 2, 3, 3);
    // a release the selection machine does not consume falls through to
    // the commit path
    assert_eq!(release(&mut pc, 0, 0), EventOutcome::Processed);
    assert_eq!(pc.surface.get(2, 2).unwrap().code, '%');
    assert_eq!(pc.undo_stack.len(), 1);
}

#[test]
fn clear_surface_blanks_to_black() {
    let mut pc = PainterControl::new(4, 4);
    pc.reset(DrawingObject::FillRectangle(FillRectangleObject::default()));
    select_region(&mut pc, 0, 0, 1, 1);
    pc.write_current_object();
    pc.clear_surface();
    let got = pc.surface.get(0, 0).unwrap();
    assert_eq!(got.code, ' ');
    assert!(matches!(got.fore, Color::Black));
    assert!(matches!(got.back, Color::Black));
}

#[test]
fn lowering_the_cap_evicts_oldest_snapshots() {
    let mut pc = PainterControl::new(6, 6);
    pc.reset(DrawingObject::FillRectangle(FillRectangleObject::default()));
    for i in 0..5u32 {
        let ch = char::from_u32(u32::from('a') + i).unwrap();
        pc.update_fillrectangle_properties(Color::White, Color::Black, ch, flags0());
        select_region(&mut pc, 1, 1, 2, 2);
        pc.write_current_object();
    }
    assert_eq!(pc.undo_stack.len(), 5);
    pc.set_max_undo_levels(2);
    assert_eq!(pc.undo_stack.len(), 2);
    assert!(pc.undo());
    assert!(pc.undo());
    assert!(!pc.undo());
    // the two kept snapshots are the states before the fourth and fifth
    // commits; the earliest reachable one still shows the third fill
    assert_eq!(pc.surface.get(1, 1).unwrap().code, 'c');
}

#[test]
fn render_shows_guides_and_preview() {
    let mut pc = PainterControl::new(10, 10);
    pc.reset(DrawingObject::FillRectangle(FillRectangleObject::default()));
    pc.update_fillrectangle_properties(Color::White, Color::Black, 'o', flags0());
    select_region(&mut pc, 2, 2, 5, 5);
    let shown = pc.render();
    // the canvas itself is untouched
    assert_eq!(pc.surface.get(2, 2).unwrap().code, ' ');
    // the preview fills the content rect
    assert_eq!(shown.get(3, 3).unwrap().code, 'o');
    // the border rect (1,1)-(6,6) shows markers on its handles and dots
    // between them
    assert_eq!(shown.get(1, 1).unwrap().code, '\u{25A0}');
    assert_eq!(shown.get(6, 6).unwrap().code, '\u{25A0}');
    assert_eq!(shown.get(2, 1).unwrap().code, '.');
    // without a selection the render equals the canvas
    pc.cancel_selection();
    let plain = pc.render();
    assert_eq!(plain.get(1, 1).unwrap().code, ' ');
}

#[test]
fn clipboard_survives_tool_switches_and_undo() {
    let mut pc = PainterControl::new(8, 8);
    pc.reset(DrawingObject::FillRectangle(FillRectangleObject::default()));
    pc.update_fillrectangle_properties(Color::White, Color::Black, '&', flags0());
    select_region(&mut pc, 1, 1, 2, 2);
    pc.write_current_object();
    pc.reset(DrawingObject::Selection(SelectionObject::default()));
    select_region(&mut pc, 1, 1, 2, 2);
    pc.copy_selection();
    assert!(pc.clipboard.is_some());
    // a tool switch and an undo both leave the clipboard alone
    pc.reset(DrawingObject::Rectangle(RectangleObject::default()));
    assert!(pc.undo());
    assert!(pc.clipboard.is_some());
    // pasting later still transplants the copied cells
    select_region(&mut pc, 4, 4, 5, 5);
    pc.paste_from_clipboard();
    assert_eq!(pc.surface.get(4, 4).unwrap().code, '&');
}

#[test]
fn single_cell_selection_from_a_click() {
    let mut pc = PainterControl::new(8, 8);
    pc.reset(DrawingObject::FillRectangle(FillRectangleObject::default()));
    pc.update_fillrectangle_properties(Color::White, Color::Black, '1', flags0());
    // press and release on the same cell: a one-cell content rect
    select_region(&mut pc, 3, 3, 3, 3);
    let c = pc.selection.rect();
    assert_eq!((c.left, c.top, c.right, c.bottom), (3, 3, 3, 3));
    pc.write_current_object();
    assert_eq!(pc.surface.get(3, 3).unwrap().code, '1');
    assert_eq!(pc.surface.get(2, 3).unwrap().code, ' ');
    assert_eq!(pc.surface.get(4, 3).unwrap().code, ' ');
}

#[test]
fn every_edge_handle_resizes_its_own_edge() {
    let mut pc = PainterControl::new(20, 20);
    // border rect (4,4)-(9,9): handles at the edge midpoints (6,4),
    // (6,9), (4,6), (9,6)
    select_region(&mut pc, 5, 5, 8, 8);
    assert_eq!(press(&mut pc, 6, 4), EventOutcome::Processed);
    assert_eq!(drag(&mut pc, 6, 2), EventOutcome::Processed);
    assert_eq!(release(&mut pc, 6, 2), EventOutcome::Processed);
    let c = pc.selection.rect();
    assert_eq!((c.left, c.top, c.right, c.bottom), (5, 3, 8, 8));
    // border is now (4,2)-(9,9): its left midpoint is (4, (2+9)/2) = (4,5)
    assert_eq!(press(&mut pc, 4, 5), EventOutcome::Processed);
    assert_eq!(drag(&mut pc, 1, 5), EventOutcome::Processed);
    assert_eq!(release(&mut pc, 1, 5), EventOutcome::Processed);
    let c = pc.selection.rect();
    assert_eq!((c.left, c.top, c.right, c.bottom), (2, 3, 8, 8));
}

#[test]
fn border_style_outline_glyphs() {
    let mut pc = PainterControl::new(10, 10);
    pc.reset(DrawingObject::Rectangle(RectangleObject::default()));
    pc.update_rectangle_properties(Color::White, Color::Black, LineType::Border);
    select_region(&mut pc, 2, 2, 5, 5);
    pc.write_current_object();
    assert_eq!(pc.surface.get(2, 2).unwrap().code, '\u{2584}');
    assert_eq!(pc.surface.get(3, 2).unwrap().code, '\u{2584}');
    assert_eq!(pc.surface.get(2, 3).unwrap().code, '\u{2588}');
    assert_eq!(pc.surface.get(3, 5).unwrap().code, '\u{2580}');
    assert_eq!(pc.surface.get(5, 5).unwrap().code, '\u{2580}');
}

#[test]
fn text_with_newlines_starts_new_rows() {
    let mut pc = PainterControl::new(10, 10);
    pc.reset(DrawingObject::Text(TextObject::default()));
    pc.update_text_properties(String::from("hi\nyo"), Color::White, Color::Black, flags0());
    select_region(&mut pc, 2, 2, 6, 5);
    pc.write_current_object();
    assert_eq!(pc.surface.get(2, 2).unwrap().code, 'h');
    assert_eq!(pc.surface.get(3, 2).unwrap().code, 'i');
    assert_eq!(pc.surface.get(2, 3).unwrap().code, 'y');
    assert_eq!(pc.surface.get(3, 3).unwrap().code, 'o');
}

#[test]
fn tool_switch_policy_commits_then_resets() {
    // the shell's tool switch: commit the outgoing tool, then install
    // the new one with the selection back at idle
    let mut pc = PainterControl::new(8, 8);
    pc.reset(DrawingObject::FillRectangle(FillRectangleObject::default()));
    pc.update_fillrectangle_properties(Color::White, Color::Black, '+', flags0());
    select_region(&mut pc, 1, 1, 2, 2);
    pc.write_current_object();
    pc.reset(DrawingObject::Line(LineObject::default()));
    assert!(!pc.selection.is_visible());
    assert!(matches!(pc.drawing_object, DrawingObject::Line(_)));
    assert_eq!(pc.surface.get(1, 1).unwrap().code, '+');
    assert_eq!(pc.undo_stack.len(), 1);
}

use painter::canvas::Canvas;
use painter::cell::{Cell, CharFlags, Color, LineType};
use painter::geometry::Rect;

fn flags0() -> CharFlags {
    CharFlags { bits: 0 }
}

fn cell(code: char, fore: Color, back: Color) -> Cell {
    Cell { code, fore, back, flags: CharFlags { bits: 0 } }
}

#[test]
fn new_canvas_is_blank_and_clamped() {
    let c = Canvas::new(0, 20000);
    assert_eq!(c.width, 1);
    assert_eq!(c.height, 10000);
    let c = Canvas::new(10, 10);
    let got = c.get(0, 0).unwrap();
    assert_eq!(got.code, ' ');
    assert!(matches!(got.fore, Color::White));
    assert!(matches!(got.back, Color::Black));
}

#[test]
fn reads_and_writes_are_clipped() {
    let mut c = Canvas::new(4, 4);
    assert!(c.get(-1, 0).is_none());
    assert!(c.get(0, 4).is_none());
    c.put(-1, 2, cell('x', Color::Red, Color::Black));
    c.put(7, 2, cell('x', Color::Red, Color::Black));
    for y in 0..4 {
        for x in 0..4 {
            assert_eq!(c.get(x, y).unwrap().code, ' ');
        }
    }
    c.put(2, 3, cell('q', Color::Red, Color::Blue));
    assert_eq!(c.get(2, 3).unwrap().code, 'q');
}

#[test]
fn writes_merge_transparent_components() {
    let mut c = Canvas::new(3, 3);
    c.put(1, 1, cell('a', Color::Red, Color::Blue));
    // a transparent-colored blank keeps the colors, blanks the glyph
    c.put(1, 1, cell(' ', Color::Transparent, Color::Transparent));
    let got = c.get(1, 1).unwrap();
    assert_eq!(got.code, ' ');
    assert!(matches!(got.fore, Color::Red));
    assert!(matches!(got.back, Color::Blue));
    // a null glyph keeps the glyph but recolors
    c.put(1, 1, cell('\0', Color::Green, Color::Yellow));
    let got = c.get(1, 1).unwrap();
    assert_eq!(got.code, ' ');
    assert!(matches!(got.fore, Color::Green));
    assert!(matches!(got.back, Color::Yellow));
}

#[test]
fn fill_rect_covers_exactly_the_rect() {
    let mut c = Canvas::new(6, 6);
    c.fill_rect(Rect::new(1, 1, 3, 2), cell('#', Color::White, Color::Black));
    for y in 0..6 {
        for x in 0..6 {
            let expect = if (1..=3).contains(&x) && (1..=2).contains(&y) { '#' } else { ' ' };
            assert_eq!(c.get(x, y).unwrap().code, expect, "at {},{}", x, y);
        }
    }
}

#[test]
fn draw_rect_single_line_glyphs() {
    let mut c = Canvas::new(8, 8);
    c.draw_rect(Rect::new(2, 2, 5, 5), LineType::Single, Color::White, Color::Black, flags0());
    assert_eq!(c.get(2, 2).unwrap().code, '\u{250C}');
    assert_eq!(c.get(5, 2).unwrap().code, '\u{2510}');
    assert_eq!(c.get(2, 5).unwrap().code, '\u{2514}');
    assert_eq!(c.get(5, 5).unwrap().code, '\u{2518}');
    assert_eq!(c.get(3, 2).unwrap().code, '\u{2500}');
    assert_eq!(c.get(3, 5).unwrap().code, '\u{2500}');
    assert_eq!(c.get(2, 3).unwrap().code, '\u{2502}');
    assert_eq!(c.get(5, 4).unwrap().code, '\u{2502}');
    // interior untouched
    assert_eq!(c.get(3, 3).unwrap().code, ' ');
    assert_eq!(c.get(4, 4).unwrap().code, ' ');
}

#[test]
fn draw_rect_ascii_glyphs() {
    let mut c = Canvas::new(8, 8);
    c.draw_rect(Rect::new(0, 0, 3, 3), LineType::Ascii, Color::White, Color::Black, flags0());
    assert_eq!(c.get(0, 0).unwrap().code, '+');
    assert_eq!(c.get(3, 0).unwrap().code, '+');
    assert_eq!(c.get(1, 0).unwrap().code, '-');
    assert_eq!(c.get(0, 1).unwrap().code, '|');
}

#[test]
fn lines_are_drawn_with_style_glyphs() {
    let mut c = Canvas::new(6, 6);
    c.draw_h_line(1, 2, 4, LineType::Double, Color::White, Color::Black, flags0());
    assert_eq!(c.get(1, 2).unwrap().code, '\u{2550}');
    assert_eq!(c.get(4, 2).unwrap().code, '\u{2550}');
    assert_eq!(c.get(5, 2).unwrap().code, ' ');
    c.draw_v_line(0, 0, 5, LineType::Single, Color::White, Color::Black, flags0());
    assert_eq!(c.get(0, 0).unwrap().code, '\u{2502}');
    assert_eq!(c.get(0, 5).unwrap().code, '\u{2502}');
}

#[test]
fn snapshot_is_an_independent_copy() {
    let mut c = Canvas::new(4, 4);
    c.put(1, 1, cell('z', Color::Red, Color::Black));
    let snap = c.snapshot();
    c.put(1, 1, cell('w', Color::Green, Color::Black));
    assert_eq!(snap.get(1, 1).unwrap().code, 'z');
    assert_eq!(c.get(1, 1).unwrap().code, 'w');
}

#[test]
fn capture_copies_cells_and_pads_outside() {
    let mut c = Canvas::new(4, 4);
    c.put(3, 3, cell('k', Color::Red, Color::Black));
    // a rect half off the canvas: outside positions become default cells
    let grab = c.capture(Rect::new(3, 3, 4, 4));
    assert_eq!(grab.width, 2);
    assert_eq!(grab.height, 2);
    assert_eq!(grab.get(0, 0).unwrap().code, 'k');
    assert_eq!(grab.get(1, 0).unwrap().code, ' ');
    assert_eq!(grab.get(1, 1).unwrap().code, ' ');
}

#[test]
fn blit_writes_with_clipping() {
    let mut src = Canvas::new(2, 2);
    src.put(0, 0, cell('a', Color::Red, Color::Black));
    src.put(1, 1, cell('b', Color::Red, Color::Black));
    let mut dst = Canvas::new(4, 4);
    dst.blit(3, 3, &src);
    assert_eq!(dst.get(3, 3).unwrap().code, 'a');
    // (4,4) would hold 'b' but lies off the canvas: silently dropped
    assert!(dst.get(4, 4).is_none());
    let mut dst2 = Canvas::new(4, 4);
    dst2.blit(-1, -1, &src);
    assert_eq!(dst2.get(0, 0).unwrap().code, 'b');
    assert_eq!(dst2.get(1, 1).unwrap().code, ' ');
}

#[test]
fn clear_overwrites_every_cell() {
    let mut c = Canvas::new(3, 3);
    c.put(2, 2, cell('x', Color::Red, Color::Black));
    c.clear(cell('.', Color::Gray, Color::Black));
    for y in 0..3 {
        for x in 0..3 {
            assert_eq!(c.get(x, y).unwrap().code, '.');
        }
    }
}

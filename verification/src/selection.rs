//! The pointer-driven selection state machine.
//!
//! Raw pointer events (press, drag, release) manipulate a rectangular
//! region: a fresh press starts creating a region, a press on an active
//! region grabs its interior (move), a corner or an edge midpoint
//! (resize), and release always settles back into the active state.
//!
//! The machine manipulates the *border rect*, which carries a one-cell
//! decorative margin; drawing operations act on the *content rect*, the
//! border rect inset by exactly one cell on each side ([`content_rect`]).
//! While resizing, a moving edge is clamped so that it never comes closer
//! than two cells to the fixed opposite edge, so an active border rect
//! always keeps a gap of at least two cells between opposite edges and
//! the content rect stays well formed.
//!
//! All stored geometry lives inside the working window `[-WORK_LIMIT,
//! WORK_LIMIT]`; a drag that would carry the region outside the window
//! stops at its rim. The window is so much larger than any canvas that
//! no pointer inside a real canvas can ever reach the rim.

use vstd::prelude::*;

use crate::canvas::{on_outline, Canvas};
use crate::cell::{merged, Cell, CharFlags, Color};
use crate::geometry::{rect_new, spec_clamp, spec_max, spec_min, trunc_div2, clamp64, max64,
    min64, Point, Rect, COORD_LIMIT, WORK_LIMIT};

verus! {

/// The state of the selection machine. `Idle` is the initial state;
/// `Active` is the only state a manipulation can start from; every
/// manipulation state returns to `Active` on release.
#[derive(Clone, Copy, Debug, PartialEq, Eq, Structural)]
pub enum Status {
    Idle,
    Creating,
    Active,
    Dragging,
    ResizeTopLeft,
    ResizeTopRight,
    ResizeBottomLeft,
    ResizeBottomRight,
    ResizeTop,
    ResizeBottom,
    ResizeLeft,
    ResizeRight,
}

/// Where a press lands relative to an active border rect.
#[derive(Clone, Copy, Debug, PartialEq, Eq, Structural)]
pub enum HitZone {
    Outside,
    Inside,
    TopLeft,
    TopRight,
    BottomLeft,
    BottomRight,
    TopMargin,
    BottomMargin,
    LeftMargin,
    RightMargin,
}

/// A raw pointer event in canvas coordinates.
#[derive(Clone, Copy, Debug, PartialEq, Eq, Structural)]
pub enum PointerEvent {
    Pressed(Point),
    Drag(Point),
    Released(Point),
}

/// The selection state machine: the manipulated border rect, the current
/// state, and the state's auxiliary point (the creation anchor while
/// creating, the grab offset from the rect's top-left corner while
/// dragging).
#[derive(Clone, Copy, Debug, PartialEq, Eq, Structural)]
pub struct Selection {
    pub r: Rect,
    pub status: Status,
    pub start_point: Point,
}

/// A coordinate accepted from a pointer event.
pub open spec fn in_coord_window(v: int) -> bool {
    -COORD_LIMIT <= v <= COORD_LIMIT
}

pub open spec fn point_in_coord_window(p: Point) -> bool {
    in_coord_window(p.x as int) && in_coord_window(p.y as int)
}

/// A coordinate the machine may store.
pub open spec fn in_work_window(v: int) -> bool {
    -WORK_LIMIT <= v <= WORK_LIMIT
}

pub open spec fn rect_in_work_window(r: Rect) -> bool {
    in_work_window(r.left as int) && in_work_window(r.top as int) && in_work_window(r.right as int)
        && in_work_window(r.bottom as int)
}

/// The two-cell gap an active border rect keeps between opposite edges.
pub open spec fn gap2(r: Rect) -> bool {
    r.left + 2 <= r.right && r.top + 2 <= r.bottom
}

impl Selection {
    /// State invariant. In every state the border rect lies inside the
    /// working window; once a region exists (any state but `Idle` and
    /// `Creating`) its opposite edges keep a gap of at least two cells;
    /// while creating, the rect is the normalised box of two pointer
    /// coordinates; while dragging, the stored grab offset lies inside
    /// the rect's extent.
    pub open spec fn wf(&self) -> bool {
        &&& rect_in_work_window(self.r)
        &&& match self.status {
            Status::Idle => true,
            Status::Creating => {
                &&& self.r.well_formed()
                &&& in_coord_window(self.r.left as int) && in_coord_window(self.r.top as int)
                &&& in_coord_window(self.r.right as int) && in_coord_window(self.r.bottom as int)
                &&& point_in_coord_window(self.start_point)
            },
            Status::Dragging => {
                &&& gap2(self.r)
                &&& 0 <= self.start_point.x <= self.r.right - self.r.left
                &&& 0 <= self.start_point.y <= self.r.bottom - self.r.top
            },
            _ => gap2(self.r),
        }
    }

    /// Whether a region exists on screen (any state but `Idle`).
    pub open spec fn spec_is_visible(&self) -> bool {
        !(self.status is Idle)
    }

    /// A fresh machine: idle, with a degenerate rect at the origin.
    pub fn new() -> (s: Selection)
        ensures
            s == initial_selection(),
    {
        Selection {
            r: Rect { left: 0, top: 0, right: 0, bottom: 0 },
            status: Status::Idle,
            start_point: Point { x: 0, y: 0 },
        }
    }

    /// Forces the machine back to `Idle`, discarding any region.
    pub fn reset(&mut self)
        ensures
            *final(self) == initial_selection(),
    {
        *self = Selection::new();
    }

    pub fn is_visible(&self) -> (b: bool)
        ensures
            b == self.spec_is_visible(),
    {
        !matches!(self.status, Status::Idle)
    }

    pub fn is_during_creation(&self) -> (b: bool)
        ensures
            b == (self.status is Creating),
    {
        matches!(self.status, Status::Creating)
    }

    /// The content rect: the border rect inset by exactly one cell on
    /// each side, normalised like every freshly built rectangle. In
    /// every state with an established region the inset is exact; only
    /// while a degenerate rect is being created does the normalisation
    /// reorder the inset edges.
    pub fn rect(&self) -> (c: Rect)
        requires
            self.wf(),
        ensures
            c == content_rect(self.r),
    {
        Rect::new(self.r.left + 1, self.r.top + 1, self.r.right - 1, self.r.bottom - 1)
    }

    /// Feeds one pointer event to the machine. Returns whether the event
    /// was consumed; an unconsumed event is the caller's to act on.
    pub fn process_mouse_event(&mut self, e: PointerEvent) -> (consumed: bool)
        requires
            old(self).wf(),
            event_in_coord_window(e),
        ensures
            final(self).wf(),
            (*final(self), consumed) == step(*old(self), e),
    {
        match e {
            PointerEvent::Pressed(p) => self.on_mouse_pressed(p),
            PointerEvent::Drag(p) => self.on_mouse_drag(p),
            PointerEvent::Released(p) => self.on_mouse_released(p),
        }
    }

    /// Press: from `Idle` starts creating at the press point; on an
    /// active region, grabs the interior (drag), a corner or an edge
    /// midpoint (resize); anywhere else the event is not consumed.
    pub fn on_mouse_pressed(&mut self, p: Point) -> (consumed: bool)
        requires
            old(self).wf(),
            point_in_coord_window(p),
        ensures
            final(self).wf(),
            (*final(self), consumed) == step_press(*old(self), p),
    {
        match self.status {
            Status::Idle => {
                self.start_point = p;
                self.status = Status::Creating;
                self.r = Rect { left: p.x, top: p.y, right: p.x, bottom: p.y };
                true
            },
            Status::Active => {
                let zone = hit_zone(self.r, p);
                match zone {
                    HitZone::Inside => {
                        self.status = Status::Dragging;
                        self.start_point = Point { x: p.x - self.r.left, y: p.y - self.r.top };
                        true
                    },
                    HitZone::TopLeft => {
                        self.status = Status::ResizeTopLeft;
                        true
                    },
                    HitZone::TopRight => {
                        self.status = Status::ResizeTopRight;
                        true
                    },
                    HitZone::BottomLeft => {
                        self.status = Status::ResizeBottomLeft;
                        true
                    },
                    HitZone::BottomRight => {
                        self.status = Status::ResizeBottomRight;
                        true
                    },
                    HitZone::TopMargin => {
                        self.status = Status::ResizeTop;
                        true
                    },
                    HitZone::BottomMargin => {
                        self.status = Status::ResizeBottom;
                        true
                    },
                    HitZone::LeftMargin => {
                        self.status = Status::ResizeLeft;
                        true
                    },
                    HitZone::RightMargin => {
                        self.status = Status::ResizeRight;
                        true
                    },
                    HitZone::Outside => false,
                }
            },
            _ => false,
        }
    }

    /// Drag: while creating, the rect is the normalised box of the
    /// anchor and the pointer; while dragging, the rect follows the
    /// pointer keeping its size and the grabbed point under the pointer;
    /// while resizing, only the grabbed edges move, each clamped so it
    /// never comes within two cells of its fixed opposite edge.
    pub fn on_mouse_drag(&mut self, p: Point) -> (consumed: bool)
        requires
            old(self).wf(),
            point_in_coord_window(p),
        ensures
            final(self).wf(),
            (*final(self), consumed) == step_drag(*old(self), p),
    {
        match self.status {
            Status::Creating => {
                self.r = Rect::new(self.start_point.x, self.start_point.y, p.x, p.y);
                true
            },
            Status::Dragging => {
                let w = self.r.right - self.r.left;
                let h = self.r.bottom - self.r.top;
                let left = clamp64(p.x - self.start_point.x, -WORK_LIMIT, WORK_LIMIT - w);
                let top = clamp64(p.y - self.start_point.y, -WORK_LIMIT, WORK_LIMIT - h);
                self.r = Rect { left, top, right: left + w, bottom: top + h };
                true
            },
            Status::ResizeTopLeft => {
                let x = min64(p.x, self.r.right - 2);
                let y = min64(p.y, self.r.bottom - 2);
                self.r = Rect { left: x, top: y, right: self.r.right, bottom: self.r.bottom };
                true
            },
            Status::ResizeTopRight => {
                let x = max64(p.x, self.r.left + 2);
                let y = min64(p.y, self.r.bottom - 2);
                self.r = Rect { left: self.r.left, top: y, right: x, bottom: self.r.bottom };
                true
            },
            Status::ResizeBottomLeft => {
                let x = min64(p.x, self.r.right - 2);
                let y = max64(p.y, self.r.top + 2);
                self.r = Rect { left: x, top: self.r.top, right: self.r.right, bottom: y };
                true
            },
            Status::ResizeBottomRight => {
                let x = max64(p.x, self.r.left + 2);
                let y = max64(p.y, self.r.top + 2);
                self.r = Rect { left: self.r.left, top: self.r.top, right: x, bottom: y };
                true
            },
            Status::ResizeTop => {
                let y = min64(p.y, self.r.bottom - 2);
                self.r = Rect { left: self.r.left, top: y, right: self.r.right, bottom: self.r.bottom };
                true
            },
            Status::ResizeBottom => {
                let y = max64(p.y, self.r.top + 2);
                self.r = Rect { left: self.r.left, top: self.r.top, right: self.r.right, bottom: y };
                true
            },
            Status::ResizeLeft => {
                let x = min64(p.x, self.r.right - 2);
                self.r = Rect { left: x, top: self.r.top, right: self.r.right, bottom: self.r.bottom };
                true
            },
            Status::ResizeRight => {
                let x = max64(p.x, self.r.left + 2);
                self.r = Rect { left: self.r.left, top: self.r.top, right: x, bottom: self.r.bottom };
                true
            },
            _ => false,
        }
    }

    /// Release: finishing a creation promotes the created content rect
    /// to a border rect by expanding it one cell outward on every side
    /// and activates it; every manipulation settles back to `Active`
    /// without further geometry change; otherwise nothing happens.
    pub fn on_mouse_released(&mut self, _p: Point) -> (consumed: bool)
        requires
            old(self).wf(),
        ensures
            final(self).wf(),
            (*final(self), consumed) == step_release(*old(self)),
    {
        match self.status {
            Status::Creating => {
                self.r = Rect {
                    left: self.r.left - 1,
                    top: self.r.top - 1,
                    right: self.r.right + 1,
                    bottom: self.r.bottom + 1,
                };
                self.status = Status::Active;
                true
            },
            Status::Dragging
            | Status::ResizeTopLeft
            | Status::ResizeTopRight
            | Status::ResizeBottomLeft
            | Status::ResizeBottomRight
            | Status::ResizeTop
            | Status::ResizeBottom
            | Status::ResizeLeft
            | Status::ResizeRight => {
                self.status = Status::Active;
                true
            },
            Status::Active => false,
            Status::Idle => false,
        }
    }
}

/// The dotted cell the selection border guide is drawn with.
pub open spec fn guide_cell() -> Cell {
    Cell { code: '.', fore: Color::Gray, back: Color::Black, flags: CharFlags { bits: 0 } }
}

/// The marker cell drawn on the eight grab handles.
pub open spec fn marker_cell() -> Cell {
    Cell { code: '\u{25A0}', fore: Color::Yellow, back: Color::Black, flags: CharFlags { bits: 0 } }
}

/// Whether `(x, y)` is one of the eight grab-handle positions of `r`:
/// the four corners and the four centred edge midpoints.
pub open spec fn marker_pos(r: Rect, x: int, y: int) -> bool {
    ||| ((x == r.left || x == r.right || x == r.spec_center_x()) && (y == r.top || y == r.bottom))
    ||| (y == r.spec_center_y() && (x == r.left || x == r.right))
}

impl Selection {
    /// Draws the manipulation guide over `canvas`: the border rect's four
    /// edges as a dotted line, with a marker glyph on each of the eight
    /// grab handles. Purely cosmetic; hit-testing never reads the canvas.
    /// Nothing is drawn while the machine is idle.
    pub fn paint(&self, canvas: &mut Canvas)
        requires
            self.wf(),
            old(canvas).wf(),
        ensures
            final(canvas).wf(),
            final(canvas).w() == old(canvas).w(),
            final(canvas).h() == old(canvas).h(),
            forall|xx: int, yy: int|
                old(canvas).in_bounds(xx, yy) ==> #[trigger] final(canvas).at(xx, yy) == (if self.spec_is_visible()
                    && on_outline(self.r, xx, yy) {
                    merged(
                        old(canvas).at(xx, yy),
                        if marker_pos(self.r, xx, yy) {
                            marker_cell()
                        } else {
                            guide_cell()
                        },
                    )
                } else {
                    old(canvas).at(xx, yy)
                }),
    {
        if matches!(self.status, Status::Idle) {
            return ;
        }
        let r = self.r;
        let cx = r.center_x();
        let cy = r.center_y();
        let y0 = max64(r.top, 0);
        let y1 = min64(r.bottom, canvas.height as i64 - 1);
        let x0 = max64(r.left, 0);
        let x1 = min64(r.right, canvas.width as i64 - 1);
        let ghost orig = *canvas;
        let mut y = y0;
        while y <= y1
            invariant
                self.wf(),
                canvas.wf(),
                orig.wf(),
                canvas.w() == orig.w(),
                canvas.h() == orig.h(),
                !(self.status is Idle),
                r == self.r,
                cx == r.spec_center_x(),
                cy == r.spec_center_y(),
                y0 == spec_max(r.top as int, 0),
                y1 == spec_min(r.bottom as int, orig.h() - 1),
                x0 == spec_max(r.left as int, 0),
                x1 == spec_min(r.right as int, orig.w() - 1),
                y0 <= y,
                y <= y1 + 1 || y == y0,
                forall|xx: int, yy: int|
                    orig.in_bounds(xx, yy) ==> #[trigger] canvas.at(xx, yy) == (if on_outline(
                        r,
                        xx,
                        yy,
                    ) && yy < y {
                        merged(
                            orig.at(xx, yy),
                            if marker_pos(r, xx, yy) {
                                marker_cell()
                            } else {
                                guide_cell()
                            },
                        )
                    } else {
                        orig.at(xx, yy)
                    }),
            decreases y1 - y + 1,
        {
            let mut x = x0;
            while x <= x1
                invariant
                    self.wf(),
                    canvas.wf(),
                    orig.wf(),
                    canvas.w() == orig.w(),
                    canvas.h() == orig.h(),
                    !(self.status is Idle),
                    r == self.r,
                    cx == r.spec_center_x(),
                    cy == r.spec_center_y(),
                    y0 == spec_max(r.top as int, 0),
                    y1 == spec_min(r.bottom as int, orig.h() - 1),
                    x0 == spec_max(r.left as int, 0),
                    x1 == spec_min(r.right as int, orig.w() - 1),
                    y0 <= y <= y1,
                    x0 <= x,
                    x <= x1 + 1 || x == x0,
                    forall|xx: int, yy: int|
                        orig.in_bounds(xx, yy) ==> #[trigger] canvas.at(xx, yy) == (if on_outline(
                            r,
                            xx,
                            yy,
                        ) && (yy < y || (yy == y && xx < x)) {
                            merged(
                                orig.at(xx, yy),
                                if marker_pos(r, xx, yy) {
                                    marker_cell()
                                } else {
                                    guide_cell()
                                },
                            )
                        } else {
                            orig.at(xx, yy)
                        }),
                decreases x1 - x + 1,
            {
                if x == r.left || x == r.right || y == r.top || y == r.bottom {
                    let is_marker = ((x == r.left || x == r.right || x == cx) && (y == r.top || y
                        == r.bottom)) || (y == cy && (x == r.left || x == r.right));
                    let c = if is_marker {
                        Cell {
                            code: '\u{25A0}',
                            fore: Color::Yellow,
                            back: Color::Black,
                            flags: CharFlags { bits: 0 },
                        }
                    } else {
                        Cell {
                            code: '.',
                            fore: Color::Gray,
                            back: Color::Black,
                            flags: CharFlags { bits: 0 },
                        }
                    };
                    canvas.put(x, y, c);
                }
                x = x + 1;
            }
            y = y + 1;
        }
    }
}

/// The machine's initial (and reset) state.
pub open spec fn initial_selection() -> Selection {
    Selection {
        r: Rect { left: 0, top: 0, right: 0, bottom: 0 },
        status: Status::Idle,
        start_point: Point { x: 0, y: 0 },
    }
}

/// The border rect inset by one cell on each side, normalised.
pub open spec fn content_rect(r: Rect) -> Rect {
    rect_new((r.left + 1) as i64, (r.top + 1) as i64, (r.right - 1) as i64, (r.bottom - 1) as i64)
}

pub open spec fn event_in_coord_window(e: PointerEvent) -> bool {
    match e {
        PointerEvent::Pressed(p) => point_in_coord_window(p),
        PointerEvent::Drag(p) => point_in_coord_window(p),
        PointerEvent::Released(p) => point_in_coord_window(p),
    }
}

/// Classifies a point against a border rect: exact corners first, then
/// the four centred edge midpoints, then the rest of the rect as its
/// interior, and everything else outside. Hit-testing is computed purely
/// from the rect's coordinates.
pub open spec fn spec_hit_zone(r: Rect, p: Point) -> HitZone {
    if !r.spec_contains(p.x as int, p.y as int) {
        HitZone::Outside
    } else if p.x == r.left && p.y == r.top {
        HitZone::TopLeft
    } else if p.x == r.right && p.y == r.top {
        HitZone::TopRight
    } else if p.x == r.left && p.y == r.bottom {
        HitZone::BottomLeft
    } else if p.x == r.right && p.y == r.bottom {
        HitZone::BottomRight
    } else if p.x as int == r.spec_center_x() && p.y == r.top {
        HitZone::TopMargin
    } else if p.x as int == r.spec_center_x() && p.y == r.bottom {
        HitZone::BottomMargin
    } else if p.y as int == r.spec_center_y() && p.x == r.left {
        HitZone::LeftMargin
    } else if p.y as int == r.spec_center_y() && p.x == r.right {
        HitZone::RightMargin
    } else {
        HitZone::Inside
    }
}

fn hit_zone(r: Rect, p: Point) -> (z: HitZone)
    requires
        rect_in_work_window(r),
    ensures
        z == spec_hit_zone(r, p),
{
    if !(r.left <= p.x && p.x <= r.right && r.top <= p.y && p.y <= r.bottom) {
        HitZone::Outside
    } else if p.x == r.left && p.y == r.top {
        HitZone::TopLeft
    } else if p.x == r.right && p.y == r.top {
        HitZone::TopRight
    } else if p.x == r.left && p.y == r.bottom {
        HitZone::BottomLeft
    } else if p.x == r.right && p.y == r.bottom {
        HitZone::BottomRight
    } else {
        let cx = r.center_x();
        let cy = r.center_y();
        if p.x == cx && p.y == r.top {
            HitZone::TopMargin
        } else if p.x == cx && p.y == r.bottom {
            HitZone::BottomMargin
        } else if p.y == cy && p.x == r.left {
            HitZone::LeftMargin
        } else if p.y == cy && p.x == r.right {
            HitZone::RightMargin
        } else {
            HitZone::Inside
        }
    }
}

/// The pure press transition: next state and whether the event was
/// consumed.
pub open spec fn step_press(s: Selection, p: Point) -> (Selection, bool) {
    match s.status {
        Status::Idle => (
            Selection {
                r: Rect { left: p.x, top: p.y, right: p.x, bottom: p.y },
                status: Status::Creating,
                start_point: p,
            },
            true,
        ),
        Status::Active => {
            match spec_hit_zone(s.r, p) {
                HitZone::Inside => (
                    Selection {
                        status: Status::Dragging,
                        start_point: Point {
                            x: (p.x - s.r.left) as i64,
                            y: (p.y - s.r.top) as i64,
                        },
                        ..s
                    },
                    true,
                ),
                HitZone::TopLeft => (Selection { status: Status::ResizeTopLeft, ..s }, true),
                HitZone::TopRight => (Selection { status: Status::ResizeTopRight, ..s }, true),
                HitZone::BottomLeft => (Selection { status: Status::ResizeBottomLeft, ..s }, true),
                HitZone::BottomRight => (
                    Selection { status: Status::ResizeBottomRight, ..s },
                    true,
                ),
                HitZone::TopMargin => (Selection { status: Status::ResizeTop, ..s }, true),
                HitZone::BottomMargin => (Selection { status: Status::ResizeBottom, ..s }, true),
                HitZone::LeftMargin => (Selection { status: Status::ResizeLeft, ..s }, true),
                HitZone::RightMargin => (Selection { status: Status::ResizeRight, ..s }, true),
                HitZone::Outside => (s, false),
            }
        },
        _ => (s, false),
    }
}

/// The pure drag transition: next state and whether the event was
/// consumed.
pub open spec fn step_drag(s: Selection, p: Point) -> (Selection, bool) {
    match s.status {
        Status::Creating => (
            Selection { r: rect_new(s.start_point.x, s.start_point.y, p.x, p.y), ..s },
            true,
        ),
        Status::Dragging => {
            let w = s.r.right - s.r.left;
            let h = s.r.bottom - s.r.top;
            let left = spec_clamp(p.x - s.start_point.x, -WORK_LIMIT as int, WORK_LIMIT - w);
            let top = spec_clamp(p.y - s.start_point.y, -WORK_LIMIT as int, WORK_LIMIT - h);
            (
                Selection {
                    r: Rect {
                        left: left as i64,
                        top: top as i64,
                        right: (left + w) as i64,
                        bottom: (top + h) as i64,
                    },
                    ..s
                },
                true,
            )
        },
        Status::ResizeTopLeft => (
            Selection {
                r: Rect {
                    left: spec_min(p.x as int, s.r.right - 2) as i64,
                    top: spec_min(p.y as int, s.r.bottom - 2) as i64,
                    right: s.r.right,
                    bottom: s.r.bottom,
                },
                ..s
            },
            true,
        ),
        Status::ResizeTopRight => (
            Selection {
                r: Rect {
                    left: s.r.left,
                    top: spec_min(p.y as int, s.r.bottom - 2) as i64,
                    right: spec_max(p.x as int, s.r.left + 2) as i64,
                    bottom: s.r.bottom,
                },
                ..s
            },
            true,
        ),
        Status::ResizeBottomLeft => (
            Selection {
                r: Rect {
                    left: spec_min(p.x as int, s.r.right - 2) as i64,
                    top: s.r.top,
                    right: s.r.right,
                    bottom: spec_max(p.y as int, s.r.top + 2) as i64,
                },
                ..s
            },
            true,
        ),
        Status::ResizeBottomRight => (
            Selection {
                r: Rect {
                    left: s.r.left,
                    top: s.r.top,
                    right: spec_max(p.x as int, s.r.left + 2) as i64,
                    bottom: spec_max(p.y as int, s.r.top + 2) as i64,
                },
                ..s
            },
            true,
        ),
        Status::ResizeTop => (
            Selection {
                r: Rect {
                    left: s.r.left,
                    top: spec_min(p.y as int, s.r.bottom - 2) as i64,
                    right: s.r.right,
                    bottom: s.r.bottom,
                },
                ..s
            },
            true,
        ),
        Status::ResizeBottom => (
            Selection {
                r: Rect {
                    left: s.r.left,
                    top: s.r.top,
                    right: s.r.right,
                    bottom: spec_max(p.y as int, s.r.top + 2) as i64,
                },
                ..s
            },
            true,
        ),
        Status::ResizeLeft => (
            Selection {
                r: Rect {
                    left: spec_min(p.x as int, s.r.right - 2) as i64,
                    top: s.r.top,
                    right: s.r.right,
                    bottom: s.r.bottom,
                },
                ..s
            },
            true,
        ),
        Status::ResizeRight => (
            Selection {
                r: Rect {
                    left: s.r.left,
                    top: s.r.top,
                    right: spec_max(p.x as int, s.r.left + 2) as i64,
                    bottom: s.r.bottom,
                },
                ..s
            },
            true,
        ),
        _ => (s, false),
    }
}

/// The pure release transition: next state and whether the event was
/// consumed.
pub open spec fn step_release(s: Selection) -> (Selection, bool) {
    match s.status {
        Status::Creating => (
            Selection {
                r: Rect {
                    left: (s.r.left - 1) as i64,
                    top: (s.r.top - 1) as i64,
                    right: (s.r.right + 1) as i64,
                    bottom: (s.r.bottom + 1) as i64,
                },
                status: Status::Active,
                ..s
            },
            true,
        ),
        Status::Idle => (s, false),
        Status::Active => (s, false),
        _ => (Selection { status: Status::Active, ..s }, true),
    }
}

/// The pure transition of one pointer event.
pub open spec fn step(s: Selection, e: PointerEvent) -> (Selection, bool) {
    match e {
        PointerEvent::Pressed(p) => step_press(s, p),
        PointerEvent::Drag(p) => step_drag(s, p),
        PointerEvent::Released(p) => step_release(s),
    }
}

pub open spec fn is_resizing(st: Status) -> bool {
    st is ResizeTopLeft || st is ResizeTopRight || st is ResizeBottomLeft
        || st is ResizeBottomRight || st is ResizeTop || st is ResizeBottom || st is ResizeLeft
        || st is ResizeRight
}

/// The edges a resize state moves; the opposite edges are fixed.
pub open spec fn moves_left_edge(st: Status) -> bool {
    st is ResizeTopLeft || st is ResizeBottomLeft || st is ResizeLeft
}

pub open spec fn moves_right_edge(st: Status) -> bool {
    st is ResizeTopRight || st is ResizeBottomRight || st is ResizeRight
}

pub open spec fn moves_top_edge(st: Status) -> bool {
    st is ResizeTopLeft || st is ResizeTopRight || st is ResizeTop
}

pub open spec fn moves_bottom_edge(st: Status) -> bool {
    st is ResizeBottomLeft || st is ResizeBottomRight || st is ResizeBottom
}

/// In any resize state, a drag moves only the grabbed edges: the fixed
/// opposite edges keep their exact coordinates, and the moving edges are
/// clamped so that opposite edges always stay at least two cells apart.
pub proof fn lemma_resize_moves_only_grabbed_edges(s: Selection, p: Point)
    requires
        s.wf(),
        is_resizing(s.status),
        point_in_coord_window(p),
    ensures
        step_drag(s, p).1,
        step_drag(s, p).0.status == s.status,
        !moves_left_edge(s.status) ==> step_drag(s, p).0.r.left == s.r.left,
        !moves_right_edge(s.status) ==> step_drag(s, p).0.r.right == s.r.right,
        !moves_top_edge(s.status) ==> step_drag(s, p).0.r.top == s.r.top,
        !moves_bottom_edge(s.status) ==> step_drag(s, p).0.r.bottom == s.r.bottom,
        gap2(step_drag(s, p).0.r),
{
}

/// The content rect is the border rect inset by exactly one cell on
/// each side, and it is well formed, in every state with an established
/// region (while a region is still being created the border rect may be
/// degenerate and the inset is normalised instead).
pub proof fn lemma_content_rect_is_border_inset(s: Selection)
    requires
        s.wf(),
        s.spec_is_visible(),
        !(s.status is Creating),
    ensures
        content_rect(s.r).left == s.r.left + 1,
        content_rect(s.r).top == s.r.top + 1,
        content_rect(s.r).right == s.r.right - 1,
        content_rect(s.r).bottom == s.r.bottom - 1,
        content_rect(s.r).well_formed(),
{
}

/// Every pointer event preserves the machine's invariant.
pub proof fn lemma_step_preserves_wf(s: Selection, e: PointerEvent)
    requires
        s.wf(),
        event_in_coord_window(e),
    ensures
        step(s, e).0.wf(),
{
}

} // verus!

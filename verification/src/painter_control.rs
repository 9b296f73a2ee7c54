//! The editing widget: the composition root that owns the canvas, the
//! selection state machine, the active drawing object, the bounded
//! undo/redo history, the single-slot clipboard and the scroll state,
//! and routes pointer and key events between them.
//!
//! Every canvas-mutating commit pushes the pre-mutation canvas onto the
//! undo stack and clears the redo stack; undoing pushes the pre-undo
//! canvas onto the redo stack, and the other way round, so undo and
//! redo are exact inverses while no new edit intervenes. Both stacks
//! are capped; exceeding the cap evicts the oldest snapshot, never the
//! newest. All snapshots are independent deep copies of the canvas.

use vstd::prelude::*;

use crate::canvas::{spec_clamp_len, Canvas, MAX_CANVAS_DIM};
use crate::cell::{default_cell, merged, Cell, CharFlags, Color, LineType};
use crate::drawing_object::{painted_cell, DrawingObject, SelectionObject};
use crate::geometry::{Point, Rect, EVENT_LIMIT};
use crate::selection::{content_rect, initial_selection, PointerEvent, Selection};
use crate::wrap::TEXT_LIMIT;

verus! {

/// The default depth of the undo and redo stacks.
pub const DEFAULT_UNDO_LEVELS: usize = 50;

/// How the widget answered an event: consumed it, or left it to the
/// surrounding shell.
#[derive(Clone, Copy, Debug, PartialEq, Eq, Structural)]
pub enum EventOutcome {
    Processed,
    Ignored,
}

/// The editing widget's whole state.
pub struct PainterControl {
    pub surface: Canvas,
    pub selection: Selection,
    pub drawing_object: DrawingObject,
    pub is_move_dragging: bool,
    pub move_drag_start: Point,
    pub move_drag_initial_offset: Point,
    pub undo_stack: Vec<Canvas>,
    pub redo_stack: Vec<Canvas>,
    pub max_undo_levels: usize,
    pub clipboard: Option<Canvas>,
    pub h_scroll: u64,
    pub v_scroll: u64,
    pub h_scroll_max: u64,
    pub v_scroll_max: u64,
}

impl PainterControl {
    /// The widget invariant: every owned part is well formed, the
    /// stacks respect the cap, every stored snapshot is a well-formed
    /// canvas, and the scroll state stays inside its bounds.
    pub open spec fn wf(&self) -> bool {
        &&& self.surface.wf()
        &&& self.selection.wf()
        &&& self.drawing_object.wf()
        &&& 1 <= self.max_undo_levels
        &&& self.undo_stack@.len() <= self.max_undo_levels
        &&& self.redo_stack@.len() <= self.max_undo_levels
        &&& forall|i: int|
            0 <= i < self.undo_stack@.len() ==> (#[trigger] self.undo_stack@[i]).wf()
        &&& forall|i: int|
            0 <= i < self.redo_stack@.len() ==> (#[trigger] self.redo_stack@[i]).wf()
        &&& match self.clipboard {
            Option::Some(c) => c.wf(),
            Option::None => true,
        }
        &&& self.h_scroll <= self.h_scroll_max
        &&& self.v_scroll <= self.v_scroll_max
        &&& self.h_scroll_max <= MAX_CANVAS_DIM as u64
        &&& self.v_scroll_max <= MAX_CANVAS_DIM as u64
        &&& -EVENT_LIMIT <= self.move_drag_start.x <= EVENT_LIMIT
        &&& -EVENT_LIMIT <= self.move_drag_start.y <= EVENT_LIMIT
        &&& 0 <= self.move_drag_initial_offset.x <= MAX_CANVAS_DIM
        &&& 0 <= self.move_drag_initial_offset.y <= MAX_CANVAS_DIM
    }

    /// A fresh widget around a blank canvas of the given size: the
    /// capture tool active, no selection, empty history, empty
    /// clipboard, the default history cap, no scrolling.
    pub fn new(width: u32, height: u32) -> (pc: PainterControl)
        ensures
            pc.wf(),
            pc.surface.w() == crate::canvas::clamp_dim(width),
            pc.surface.h() == crate::canvas::clamp_dim(height),
            forall|x: int, y: int|
                pc.surface.in_bounds(x, y) ==> #[trigger] pc.surface.at(x, y) == default_cell(),
            pc.selection == initial_selection(),
            pc.drawing_object matches DrawingObject::Selection(s) && s.img is None,
            pc.undo_stack@.len() == 0,
            pc.redo_stack@.len() == 0,
            pc.max_undo_levels == DEFAULT_UNDO_LEVELS,
            pc.clipboard is None,
            pc.h_scroll == 0 && pc.v_scroll == 0,
    {
        PainterControl {
            surface: Canvas::new(width, height),
            selection: Selection::new(),
            drawing_object: DrawingObject::Selection(SelectionObject::default()),
            is_move_dragging: false,
            move_drag_start: Point { x: 0, y: 0 },
            move_drag_initial_offset: Point { x: 0, y: 0 },
            undo_stack: Vec::new(),
            redo_stack: Vec::new(),
            max_undo_levels: DEFAULT_UNDO_LEVELS,
            clipboard: None,
            h_scroll: 0,
            v_scroll: 0,
            h_scroll_max: 0,
            v_scroll_max: 0,
        }
    }

    /// A fresh widget around an already loaded canvas (the shell reads
    /// the file; the core takes the cells).
    pub fn from_canvas(canvas: Canvas) -> (pc: PainterControl)
        requires
            canvas.wf(),
        ensures
            pc.wf(),
            pc.surface == canvas,
            pc.selection == initial_selection(),
            pc.drawing_object matches DrawingObject::Selection(s) && s.img is None,
            pc.undo_stack@.len() == 0,
            pc.redo_stack@.len() == 0,
            pc.max_undo_levels == DEFAULT_UNDO_LEVELS,
            pc.clipboard is None,
            pc.h_scroll == 0 && pc.v_scroll == 0,
    {
        PainterControl {
            surface: canvas,
            selection: Selection::new(),
            drawing_object: DrawingObject::Selection(SelectionObject::default()),
            is_move_dragging: false,
            move_drag_start: Point { x: 0, y: 0 },
            move_drag_initial_offset: Point { x: 0, y: 0 },
            undo_stack: Vec::new(),
            redo_stack: Vec::new(),
            max_undo_levels: DEFAULT_UNDO_LEVELS,
            clipboard: None,
            h_scroll: 0,
            v_scroll: 0,
            h_scroll_max: 0,
            v_scroll_max: 0,
        }
    }

    /// Fills the whole canvas with a blank black cell. No history entry
    /// is recorded.
    pub fn clear_surface(&mut self)
        requires
            old(self).wf(),
        ensures
            final(self).wf(),
            final(self).surface.w() == old(self).surface.w(),
            final(self).surface.h() == old(self).surface.h(),
            forall|x: int, y: int|
                old(self).surface.in_bounds(x, y) ==> #[trigger] final(self).surface.at(x, y)
                    == merged(
                    old(self).surface.at(x, y),
                    Cell { code: ' ', fore: Color::Black, back: Color::Black, flags: CharFlags {
                        bits: 0,
                    } },
                ),
            *final(self) == (PainterControl { surface: final(self).surface, ..*old(self) }),
    {
        self.surface.clear(
            Cell { code: ' ', fore: Color::Black, back: Color::Black, flags: CharFlags { bits: 0 } },
        );
    }

    /// Installs a new drawing object and resets the selection machine
    /// to idle; the tool switch policy (committing the outgoing tool's
    /// pending edit first) is the caller's, driven through
    /// `write_current_object`.
    pub fn reset(&mut self, d: DrawingObject)
        requires
            old(self).wf(),
            d.wf(),
        ensures
            final(self).wf(),
            final(self).selection == initial_selection(),
            final(self).drawing_object == d,
            *final(self) == (PainterControl {
                selection: initial_selection(),
                drawing_object: d,
                ..*old(self)
            }),
    {
        self.selection = Selection::new();
        self.drawing_object = d;
    }

    /// Pushes the outline tool's current parameters; a no-op unless the
    /// outline tool is active.
    pub fn update_rectangle_properties(&mut self, fore: Color, back: Color, line_type: LineType)
        requires
            old(self).wf(),
        ensures
            final(self).wf(),
            old(self).drawing_object matches DrawingObject::Rectangle(_) ==> *final(self)
                == (PainterControl {
                drawing_object: DrawingObject::Rectangle(
                    crate::drawing_object::RectangleObject { fore, back, line_type },
                ),
                ..*old(self)
            }),
            !(old(self).drawing_object matches DrawingObject::Rectangle(_)) ==> *final(self)
                == *old(self),
    {
        if let DrawingObject::Rectangle(ref mut rect) = self.drawing_object {
            rect.fore = fore;
            rect.back = back;
            rect.line_type = line_type;
        }
    }

    /// Pushes the fill tool's current parameters; a no-op unless the
    /// fill tool is active.
    pub fn update_fillrectangle_properties(
        &mut self,
        fore: Color,
        back: Color,
        ch: char,
        flags: CharFlags,
    )
        requires
            old(self).wf(),
        ensures
            final(self).wf(),
            old(self).drawing_object matches DrawingObject::FillRectangle(_) ==> *final(self)
                == (PainterControl {
                drawing_object: DrawingObject::FillRectangle(
                    crate::drawing_object::FillRectangleObject { fore, back, ch, flags },
                ),
                ..*old(self)
            }),
            !(old(self).drawing_object matches DrawingObject::FillRectangle(_)) ==> *final(self)
                == *old(self),
    {
        if let DrawingObject::FillRectangle(ref mut fill_rect) = self.drawing_object {
            fill_rect.fore = fore;
            fill_rect.back = back;
            fill_rect.ch = ch;
            fill_rect.flags = flags;
        }
    }

    /// Pushes the line tool's current parameters; a no-op unless the
    /// line tool is active.
    pub fn update_line_properties(
        &mut self,
        fore: Color,
        back: Color,
        line_type: LineType,
        vertical: bool,
    )
        requires
            old(self).wf(),
        ensures
            final(self).wf(),
            old(self).drawing_object matches DrawingObject::Line(_) ==> *final(self)
                == (PainterControl {
                drawing_object: DrawingObject::Line(
                    crate::drawing_object::LineObject { fore, back, line_type, vertical },
                ),
                ..*old(self)
            }),
            !(old(self).drawing_object matches DrawingObject::Line(_)) ==> *final(self)
                == *old(self),
    {
        if let DrawingObject::Line(ref mut line) = self.drawing_object {
            line.fore = fore;
            line.back = back;
            line.line_type = line_type;
            line.vertical = vertical;
        }
    }

    /// Pushes the text tool's current parameters; a no-op unless the
    /// text tool is active.
    pub fn update_text_properties(&mut self, txt: String, fore: Color, back: Color, flags: CharFlags)
        requires
            old(self).wf(),
            txt@.len() <= TEXT_LIMIT,
        ensures
            final(self).wf(),
            old(self).drawing_object matches DrawingObject::Text(_) ==> ((final(self).drawing_object
                matches DrawingObject::Text(u) && u.txt@ == txt@ && u.fore == fore && u.back == back
                && u.flags == flags) && *final(self) == (PainterControl {
                drawing_object: final(self).drawing_object,
                ..*old(self)
            })),
            !(old(self).drawing_object matches DrawingObject::Text(_)) ==> *final(self)
                == *old(self),
    {
        if let DrawingObject::Text(ref mut text) = self.drawing_object {
            text.txt = txt;
            text.fore = fore;
            text.back = back;
            text.flags = flags;
        }
    }
}

/// `a` and `b` agree in every observable part of the widget state:
/// the same canvas, selection, tool, clipboard, history views, cap and
/// scroll/pan state.
pub open spec fn observably_equal(a: PainterControl, b: PainterControl) -> bool {
    &&& a.surface == b.surface
    &&& a.selection == b.selection
    &&& a.drawing_object == b.drawing_object
    &&& a.is_move_dragging == b.is_move_dragging
    &&& a.move_drag_start == b.move_drag_start
    &&& a.move_drag_initial_offset == b.move_drag_initial_offset
    &&& a.undo_stack@ == b.undo_stack@
    &&& a.redo_stack@ == b.redo_stack@
    &&& a.max_undo_levels == b.max_undo_levels
    &&& a.clipboard == b.clipboard
    &&& a.h_scroll == b.h_scroll
    &&& a.v_scroll == b.v_scroll
    &&& a.h_scroll_max == b.h_scroll_max
    &&& a.v_scroll_max == b.v_scroll_max
}

/// The history engine's mathematical state: the current picture, the
/// two bounded snapshot stacks (most recent at the end), and the cap.
#[verifier::ext_equal]
pub ghost struct HistoryModel {
    pub surface: Seq<Seq<Cell>>,
    pub undo: Seq<Seq<Seq<Cell>>>,
    pub redo: Seq<Seq<Seq<Cell>>>,
    pub cap: int,
}

impl HistoryModel {
    pub open spec fn wf(&self) -> bool {
        &&& 1 <= self.cap
        &&& self.undo.len() <= self.cap
        &&& self.redo.len() <= self.cap
    }
}

/// A push onto a bounded stack: when the stack is full, the oldest
/// entry (the front) is evicted, never the newest.
pub open spec fn push_capped(
    s: Seq<Seq<Seq<Cell>>>,
    g: Seq<Seq<Cell>>,
    cap: int,
) -> Seq<Seq<Seq<Cell>>> {
    if s.len() >= cap {
        s.drop_first().push(g)
    } else {
        s.push(g)
    }
}

/// A canvas-mutating commit's effect on the history: the pre-mutation
/// picture goes onto the undo stack and the redo stack is cleared.
pub open spec fn commit_history(m: HistoryModel) -> HistoryModel {
    HistoryModel {
        undo: push_capped(m.undo, m.surface, m.cap),
        redo: Seq::empty(),
        ..m
    }
}

/// Undoing: the current picture goes onto the redo stack and the most
/// recent undo snapshot becomes current. Meaningful only when the undo
/// stack is non-empty.
pub open spec fn undo_history(m: HistoryModel) -> HistoryModel {
    HistoryModel {
        surface: m.undo.last(),
        undo: m.undo.drop_last(),
        redo: push_capped(m.redo, m.surface, m.cap),
        ..m
    }
}

/// Redoing: the exact mirror of undoing.
pub open spec fn redo_history(m: HistoryModel) -> HistoryModel {
    HistoryModel {
        surface: m.redo.last(),
        undo: push_capped(m.undo, m.surface, m.cap),
        redo: m.redo.drop_last(),
        ..m
    }
}

impl PainterControl {
    pub open spec fn undo_grids(&self) -> Seq<Seq<Seq<Cell>>> {
        self.undo_stack@.map_values(|c: Canvas| c.grid())
    }

    pub open spec fn redo_grids(&self) -> Seq<Seq<Seq<Cell>>> {
        self.redo_stack@.map_values(|c: Canvas| c.grid())
    }

    /// The widget's history, as the engine's mathematical state.
    pub open spec fn history(&self) -> HistoryModel {
        HistoryModel {
            surface: self.surface.grid(),
            undo: self.undo_grids(),
            redo: self.redo_grids(),
            cap: self.max_undo_levels as int,
        }
    }

    /// Pushes an independent snapshot of the current canvas onto the
    /// undo stack, clears the redo stack, and evicts the oldest undo
    /// snapshot when the cap is exceeded.
    pub fn save_state(&mut self)
        requires
            old(self).wf(),
        ensures
            final(self).wf(),
            final(self).history() == commit_history(old(self).history()),
            *final(self) == (PainterControl {
                undo_stack: final(self).undo_stack,
                redo_stack: final(self).redo_stack,
                ..*old(self)
            }),
    {
        let snap = self.surface.snapshot();
        proof {
            crate::canvas::lemma_same_grid_eq(snap, self.surface);
        }
        self.undo_stack.push(snap);
        self.redo_stack.clear();
        if self.undo_stack.len() > self.max_undo_levels {
            self.undo_stack.remove(0);
        }
        proof {
            assert(final(self).history() =~= commit_history(old(self).history()));
        }
    }

    /// Undoes the most recent edit, if there is one to undo: the
    /// current canvas moves onto the redo stack and the most recent
    /// undo snapshot becomes current; any in-progress selection and the
    /// active tool's transient state are discarded. Returns whether an
    /// action existed to perform.
    pub fn undo(&mut self) -> (r: bool)
        requires
            old(self).wf(),
        ensures
            final(self).wf(),
            r == (old(self).undo_stack@.len() > 0),
            !r ==> observably_equal(*final(self), *old(self)),
            r ==> final(self).history() == undo_history(old(self).history()),
            r ==> final(self).selection == initial_selection(),
            r ==> crate::drawing_object::object_cleared(
                old(self).drawing_object,
                final(self).drawing_object,
            ),
            r ==> *final(self) == (PainterControl {
                surface: final(self).surface,
                selection: final(self).selection,
                drawing_object: final(self).drawing_object,
                undo_stack: final(self).undo_stack,
                redo_stack: final(self).redo_stack,
                ..*old(self)
            }),
    {
        match self.undo_stack.pop() {
            Some(previous_surface) => {
                let snap = self.surface.snapshot();
                proof {
                    crate::canvas::lemma_same_grid_eq(snap, self.surface);
                }
                self.redo_stack.push(snap);
                if self.redo_stack.len() > self.max_undo_levels {
                    self.redo_stack.remove(0);
                }
                self.surface = previous_surface;
                self.selection.reset();
                self.drawing_object.clear();
                proof {
                    assert(final(self).history() =~= undo_history(old(self).history()));
                }
                true
            },
            None => false,
        }
    }

    /// Redoes the most recently undone edit, if there is one: the exact
    /// mirror of `undo`. Returns whether an action existed to perform.
    pub fn redo(&mut self) -> (r: bool)
        requires
            old(self).wf(),
        ensures
            final(self).wf(),
            r == (old(self).redo_stack@.len() > 0),
            !r ==> observably_equal(*final(self), *old(self)),
            r ==> final(self).history() == redo_history(old(self).history()),
            r ==> final(self).selection == initial_selection(),
            r ==> crate::drawing_object::object_cleared(
                old(self).drawing_object,
                final(self).drawing_object,
            ),
            r ==> *final(self) == (PainterControl {
                surface: final(self).surface,
                selection: final(self).selection,
                drawing_object: final(self).drawing_object,
                undo_stack: final(self).undo_stack,
                redo_stack: final(self).redo_stack,
                ..*old(self)
            }),
    {
        match self.redo_stack.pop() {
            Some(next_surface) => {
                let snap = self.surface.snapshot();
                proof {
                    crate::canvas::lemma_same_grid_eq(snap, self.surface);
                }
                self.undo_stack.push(snap);
                if self.undo_stack.len() > self.max_undo_levels {
                    self.undo_stack.remove(0);
                }
                self.surface = next_surface;
                self.selection.reset();
                self.drawing_object.clear();
                proof {
                    assert(final(self).history() =~= redo_history(old(self).history()));
                }
                true
            },
            None => false,
        }
    }

    /// Reconfigures the history depth cap. When a stack is deeper than
    /// the new cap, its oldest snapshots are evicted until it fits; the
    /// newest entries always survive.
    pub fn set_max_undo_levels(&mut self, levels: usize)
        requires
            old(self).wf(),
            levels >= 1,
        ensures
            final(self).wf(),
            final(self).max_undo_levels == levels,
            final(self).undo_stack@ == (if old(self).undo_stack@.len() <= levels {
                old(self).undo_stack@
            } else {
                old(self).undo_stack@.skip(old(self).undo_stack@.len() - levels)
            }),
            final(self).redo_stack@ == (if old(self).redo_stack@.len() <= levels {
                old(self).redo_stack@
            } else {
                old(self).redo_stack@.skip(old(self).redo_stack@.len() - levels)
            }),
            *final(self) == (PainterControl {
                max_undo_levels: levels,
                undo_stack: final(self).undo_stack,
                redo_stack: final(self).redo_stack,
                ..*old(self)
            }),
    {
        self.max_undo_levels = levels;
        let ghost mut ku: int = 0;
        proof {
            assert(self.undo_stack@ =~= old(self).undo_stack@.skip(0));
        }
        while self.undo_stack.len() > levels
            invariant
                levels >= 1,
                0 <= ku <= old(self).undo_stack@.len(),
                self.undo_stack@ == old(self).undo_stack@.skip(ku),
                ku == 0 || self.undo_stack@.len() >= levels,
                *self == (PainterControl {
                    max_undo_levels: levels,
                    undo_stack: self.undo_stack,
                    ..*old(self)
                }),
            decreases self.undo_stack@.len(),
        {
            self.undo_stack.remove(0);
            proof {
                ku = ku + 1;
                assert(self.undo_stack@ =~= old(self).undo_stack@.skip(ku));
            }
        }
        let ghost mut kr: int = 0;
        proof {
            assert(self.redo_stack@ =~= old(self).redo_stack@.skip(0));
            if old(self).undo_stack@.len() > levels {
                assert(self.undo_stack@ =~= old(self).undo_stack@.skip(
                    old(self).undo_stack@.len() - levels,
                ));
            }
        }
        while self.redo_stack.len() > levels
            invariant
                levels >= 1,
                0 <= kr <= old(self).redo_stack@.len(),
                self.redo_stack@ == old(self).redo_stack@.skip(kr),
                kr == 0 || self.redo_stack@.len() >= levels,
                self.undo_stack@.len() <= levels,
                self.undo_stack@ == (if old(self).undo_stack@.len() <= levels {
                    old(self).undo_stack@
                } else {
                    old(self).undo_stack@.skip(old(self).undo_stack@.len() - levels)
                }),
                *self == (PainterControl {
                    max_undo_levels: levels,
                    undo_stack: self.undo_stack,
                    redo_stack: self.redo_stack,
                    ..*old(self)
                }),
            decreases self.redo_stack@.len(),
        {
            self.redo_stack.remove(0);
            proof {
                kr = kr + 1;
                assert(self.redo_stack@ =~= old(self).redo_stack@.skip(kr));
            }
        }
        proof {
            if old(self).redo_stack@.len() > levels {
                assert(self.redo_stack@ =~= old(self).redo_stack@.skip(
                    old(self).redo_stack@.len() - levels,
                ));
            }
        }
    }

    pub fn can_undo(&self) -> (b: bool)
        ensures
            b == (self.undo_stack@.len() > 0),
    {
        !self.undo_stack.is_empty()
    }

    pub fn can_redo(&self) -> (b: bool)
        ensures
            b == (self.redo_stack@.len() > 0),
    {
        !self.redo_stack.is_empty()
    }
}

impl PainterControl {
    /// The single commit path of every paintable tool: when a selection
    /// is visible, pushes a snapshot of the canvas onto the undo stack
    /// (clearing the redo stack), paints the active drawing object into
    /// the selection's content rect, clears the object's transient
    /// state and resets the selection to idle. Without a visible
    /// selection nothing happens.
    pub fn write_current_object(&mut self)
        requires
            old(self).wf(),
        ensures
            final(self).wf(),
            !old(self).selection.spec_is_visible() ==> observably_equal(*final(self), *old(self)),
            old(self).selection.spec_is_visible() ==> ({
                &&& final(self).history().undo == push_capped(
                    old(self).undo_grids(),
                    old(self).surface.grid(),
                    old(self).max_undo_levels as int,
                )
                &&& final(self).history().redo.len() == 0
                &&& final(self).surface.w() == old(self).surface.w()
                &&& final(self).surface.h() == old(self).surface.h()
                &&& forall|xx: int, yy: int|
                    old(self).surface.in_bounds(xx, yy) ==> #[trigger] final(self).surface.at(
                        xx,
                        yy,
                    ) == painted_cell(
                        old(self).drawing_object,
                        old(self).surface,
                        content_rect(old(self).selection.r),
                        xx,
                        yy,
                    )
                &&& final(self).selection == initial_selection()
                &&& crate::drawing_object::object_cleared(
                    old(self).drawing_object,
                    final(self).drawing_object,
                )
                &&& *final(self) == (PainterControl {
                    surface: final(self).surface,
                    selection: final(self).selection,
                    drawing_object: final(self).drawing_object,
                    undo_stack: final(self).undo_stack,
                    redo_stack: final(self).redo_stack,
                    ..*old(self)
                })
            }),
    {
        if self.selection.is_visible() {
            self.save_state();
            let rect = self.selection.rect();
            self.drawing_object.paint(&mut self.surface, rect);
            self.drawing_object.clear();
            self.selection.reset();
        }
    }

    /// Abandons a visible selection: the active tool's transient state
    /// is discarded and the selection machine returns to idle, with no
    /// canvas mutation and no history entry.
    pub fn cancel_selection(&mut self)
        requires
            old(self).wf(),
        ensures
            final(self).wf(),
            !old(self).selection.spec_is_visible() ==> observably_equal(*final(self), *old(self)),
            old(self).selection.spec_is_visible() ==> ({
                &&& final(self).selection == initial_selection()
                &&& crate::drawing_object::object_cleared(
                    old(self).drawing_object,
                    final(self).drawing_object,
                )
                &&& *final(self) == (PainterControl {
                    selection: final(self).selection,
                    drawing_object: final(self).drawing_object,
                    ..*old(self)
                })
            }),
    {
        if self.selection.is_visible() {
            self.drawing_object.clear();
            self.selection.reset();
        }
    }

    /// Overwrites the clipboard with a snapshot of the content rect's
    /// current cells; meaningful only while the capture tool is active
    /// and a selection is visible, otherwise nothing happens.
    pub fn copy_selection(&mut self)
        requires
            old(self).wf(),
        ensures
            final(self).wf(),
            !(old(self).selection.spec_is_visible() && old(self).drawing_object
                matches DrawingObject::Selection(_)) ==> observably_equal(
                *final(self),
                *old(self),
            ),
            (old(self).selection.spec_is_visible() && old(self).drawing_object
                matches DrawingObject::Selection(_)) ==> ({
                let rect = content_rect(old(self).selection.r);
                &&& *final(self) == (PainterControl { clipboard: final(self).clipboard, ..*old(self) })
                &&& (final(self).clipboard matches Some(c) && c.wf() && c.w() == spec_clamp_len(
                    rect.spec_width(),
                ) && c.h() == spec_clamp_len(rect.spec_height()) && (forall|x: int, y: int|
                    c.in_bounds(x, y) ==> #[trigger] c.at(x, y) == (if old(self).surface.in_bounds(
                        rect.left + x,
                        rect.top + y,
                    ) {
                        old(self).surface.at(rect.left + x, rect.top + y)
                    } else {
                        default_cell()
                    })))
            }),
    {
        if self.selection.is_visible() && matches!(self.drawing_object, DrawingObject::Selection(_)) {
            let rect = self.selection.rect();
            let clipboard_canvas = self.surface.capture(rect);
            self.clipboard = Some(clipboard_canvas);
        }
    }

    /// Writes the clipboard's cells at the content rect's top-left
    /// corner, clipping silently at the canvas edges, after pushing an
    /// undo snapshot; then resets the selection and the active tool's
    /// transient state. With an empty clipboard or no visible selection
    /// nothing happens at all.
    pub fn paste_from_clipboard(&mut self)
        requires
            old(self).wf(),
        ensures
            final(self).wf(),
            (old(self).clipboard is None || !old(self).selection.spec_is_visible())
                ==> observably_equal(*final(self), *old(self)),
            old(self).clipboard matches Some(clip) ==> (old(self).selection.spec_is_visible()
                ==> ({
                let rect = content_rect(old(self).selection.r);
                &&& final(self).history().undo == push_capped(
                    old(self).undo_grids(),
                    old(self).surface.grid(),
                    old(self).max_undo_levels as int,
                )
                &&& final(self).history().redo.len() == 0
                &&& final(self).surface.w() == old(self).surface.w()
                &&& final(self).surface.h() == old(self).surface.h()
                &&& forall|xx: int, yy: int|
                    old(self).surface.in_bounds(xx, yy) ==> #[trigger] final(self).surface.at(
                        xx,
                        yy,
                    ) == (if rect.left <= xx < rect.left + clip.w() && rect.top <= yy < rect.top
                        + clip.h() {
                        clip.at(xx - rect.left, yy - rect.top)
                    } else {
                        old(self).surface.at(xx, yy)
                    })
                &&& final(self).selection == initial_selection()
                &&& crate::drawing_object::object_cleared(
                    old(self).drawing_object,
                    final(self).drawing_object,
                )
                &&& final(self).clipboard == old(self).clipboard
                &&& *final(self) == (PainterControl {
                    surface: final(self).surface,
                    selection: final(self).selection,
                    drawing_object: final(self).drawing_object,
                    undo_stack: final(self).undo_stack,
                    redo_stack: final(self).redo_stack,
                    ..*old(self)
                })
            })),
    {
        if self.clipboard.is_none() || !self.selection.is_visible() {
            return ;
        }
        self.save_state();
        let rect = self.selection.rect();
        match &self.clipboard {
            Some(clipboard_canvas) => {
                self.surface.blit(rect.left, rect.top, clipboard_canvas);
            },
            None => {},
        }
        self.selection.reset();
        self.drawing_object.clear();
    }
}

/// Copying a region to the clipboard and pasting it straight back at
/// the same content rect reproduces the canvas exactly: every cell the
/// paste writes already holds that very value, whether or not the rect
/// sticks out of the canvas.
pub proof fn lemma_copy_paste_round_trip(c: Canvas, r: Rect, clip: Canvas)
    requires
        c.wf(),
        clip.wf(),
        r.well_formed(),
        clip.w() == spec_clamp_len(r.spec_width()),
        clip.h() == spec_clamp_len(r.spec_height()),
        forall|x: int, y: int|
            clip.in_bounds(x, y) ==> #[trigger] clip.at(x, y) == (if c.in_bounds(
                r.left + x,
                r.top + y,
            ) {
                c.at(r.left + x, r.top + y)
            } else {
                default_cell()
            }),
    ensures
        forall|xx: int, yy: int|
            c.in_bounds(xx, yy) ==> c.at(xx, yy) == (if r.left <= xx < r.left + clip.w() && r.top
                <= yy < r.top + clip.h() {
                clip.at(xx - r.left, yy - r.top)
            } else {
                #[trigger] c.at(xx, yy)
            }),
{
    assert forall|xx: int, yy: int|
        c.in_bounds(xx, yy) && r.left <= xx < r.left + clip.w() && r.top <= yy < r.top
            + clip.h() implies c.at(xx, yy) == clip.at(xx - r.left, yy - r.top) by {
        assert(clip.in_bounds(xx - r.left, yy - r.top));
    }
}

/// Each commit pushes exactly one snapshot of the current canvas onto
/// the undo stack (evicting the oldest one only at the cap) and clears
/// the redo stack entirely.
pub proof fn lemma_commit_pushes_one_and_clears_redo(m: HistoryModel)
    requires
        m.wf(),
    ensures
        commit_history(m).redo.len() == 0,
        commit_history(m).undo.last() == m.surface,
        m.undo.len() < m.cap ==> commit_history(m).undo.len() == m.undo.len() + 1,
        m.undo.len() == m.cap ==> commit_history(m).undo.len() == m.cap,
        commit_history(m).wf(),
{
}

/// An undo followed immediately by a redo restores both the canvas that
/// was current before the undo and the undo stack itself, at any
/// history depth within the cap.
pub proof fn lemma_undo_then_redo_restores(m: HistoryModel)
    requires
        m.wf(),
        m.undo.len() > 0,
    ensures
        redo_history(undo_history(m)).surface == m.surface,
        redo_history(undo_history(m)).undo == m.undo,
        undo_history(m).wf(),
        redo_history(undo_history(m)).wf(),
{
    assert(push_capped(m.redo, m.surface, m.cap).last() == m.surface);
    assert(push_capped(m.undo.drop_last(), m.undo.last(), m.cap) =~= m.undo);
}

/// The undo stack never exceeds the cap, and a commit at the cap
/// evicts exactly the earliest snapshot: after that, the stack holds
/// the old entries shifted down by one with the new snapshot on top.
pub proof fn lemma_undo_depth_capped(m: HistoryModel)
    requires
        m.wf(),
    ensures
        commit_history(m).undo.len() <= m.cap,
        m.undo.len() == m.cap ==> commit_history(m).undo =~= m.undo.drop_first().push(m.surface),
        m.undo.len() > 0 ==> undo_history(m).wf(),
        m.redo.len() > 0 ==> redo_history(m).wf(),
{
}

/// The logical key actions the surrounding shell can bind keys to.
#[derive(Clone, Copy, Debug, PartialEq, Eq, Structural)]
pub enum KeyAction {
    ScrollUp,
    ScrollDown,
    ScrollLeft,
    ScrollRight,
    Cancel,
    Commit,
    Undo,
    Redo,
    Copy,
    Paste,
}

/// A raw event coordinate accepted from the host shell.
pub open spec fn in_event_window(v: int) -> bool {
    -EVENT_LIMIT <= v <= EVENT_LIMIT
}

pub open spec fn event_in_event_window(e: PointerEvent) -> bool {
    match e {
        PointerEvent::Pressed(p) => in_event_window(p.x as int) && in_event_window(p.y as int),
        PointerEvent::Drag(p) => in_event_window(p.x as int) && in_event_window(p.y as int),
        PointerEvent::Released(p) => in_event_window(p.x as int) && in_event_window(p.y as int),
    }
}

/// A screen point translated into canvas coordinates by the current
/// scroll offsets.
pub open spec fn adjusted_point(p: Point, h: u64, v: u64) -> Point {
    Point { x: (p.x + h) as i64, y: (p.y + v) as i64 }
}

pub open spec fn adjusted_event(e: PointerEvent, h: u64, v: u64) -> PointerEvent {
    match e {
        PointerEvent::Pressed(p) => PointerEvent::Pressed(adjusted_point(p, h, v)),
        PointerEvent::Drag(p) => PointerEvent::Drag(adjusted_point(p, h, v)),
        PointerEvent::Released(p) => PointerEvent::Released(adjusted_point(p, h, v)),
    }
}

/// A raw scroll target forced into `0 ..= maxv`.
pub open spec fn clamped_scroll(raw: int, maxv: u64) -> u64 {
    if raw < 0 {
        0u64
    } else if raw > maxv {
        maxv
    } else {
        raw as u64
    }
}

/// The scroll bound along one axis: how far the viewport can move over
/// the content (nothing when the viewport already covers it).
pub open spec fn spec_scroll_max(available: int, visible: u32) -> u64 {
    if visible < available && visible != 0 {
        (available - visible) as u64
    } else {
        0u64
    }
}

impl PainterControl {
    /// Sets both scroll offsets, each forced into its current bound.
    pub fn set_scroll_indexes(&mut self, h: u64, v: u64)
        requires
            old(self).wf(),
        ensures
            final(self).wf(),
            final(self).h_scroll == clamped_scroll(h as int, old(self).h_scroll_max),
            final(self).v_scroll == clamped_scroll(v as int, old(self).v_scroll_max),
            *final(self) == (PainterControl {
                h_scroll: final(self).h_scroll,
                v_scroll: final(self).v_scroll,
                ..*old(self)
            }),
    {
        self.h_scroll = if h > self.h_scroll_max {
            self.h_scroll_max
        } else {
            h
        };
        self.v_scroll = if v > self.v_scroll_max {
            self.v_scroll_max
        } else {
            v
        };
    }

    /// Recomputes the scroll bounds for a new viewport size and forces
    /// the current offsets back inside them.
    pub fn on_resize(&mut self, viewport_w: u32, viewport_h: u32)
        requires
            old(self).wf(),
        ensures
            final(self).wf(),
            final(self).h_scroll_max == spec_scroll_max(old(self).surface.w(), viewport_w),
            final(self).v_scroll_max == spec_scroll_max(old(self).surface.h(), viewport_h),
            final(self).h_scroll == clamped_scroll(
                old(self).h_scroll as int,
                final(self).h_scroll_max,
            ),
            final(self).v_scroll == clamped_scroll(
                old(self).v_scroll as int,
                final(self).v_scroll_max,
            ),
            *final(self) == (PainterControl {
                h_scroll: final(self).h_scroll,
                v_scroll: final(self).v_scroll,
                h_scroll_max: final(self).h_scroll_max,
                v_scroll_max: final(self).v_scroll_max,
                ..*old(self)
            }),
    {
        self.h_scroll_max = if viewport_w < self.surface.width && viewport_w != 0 {
            (self.surface.width - viewport_w) as u64
        } else {
            0
        };
        self.v_scroll_max = if viewport_h < self.surface.height && viewport_h != 0 {
            (self.surface.height - viewport_h) as u64
        } else {
            0
        };
        if self.h_scroll > self.h_scroll_max {
            self.h_scroll = self.h_scroll_max;
        }
        if self.v_scroll > self.v_scroll_max {
            self.v_scroll = self.v_scroll_max;
        }
    }

    /// Routes one raw pointer event, first match wins: a press in pan
    /// mode starts panning and drags then scroll the viewport by the
    /// pointer delta (clamped at zero and at the scroll bounds); an
    /// event the shell's scrollbars already consumed is swallowed; pan
    /// mode swallows everything else; otherwise the event, translated
    /// by the scroll offsets, goes to the selection machine (a freshly
    /// created region is handed to the capture tool's hook), and a
    /// release the machine did not consume commits the active tool.
    pub fn handle_mouse_event(&mut self, e: PointerEvent, scrollbar_hit: bool) -> (outcome:
        EventOutcome)
        requires
            old(self).wf(),
            event_in_event_window(e),
        ensures
            final(self).wf(),
            old(self).drawing_object matches DrawingObject::Move(_) ==> (e matches
                PointerEvent::Pressed(p) ==> outcome == EventOutcome::Processed && *final(self)
                == (PainterControl {
                is_move_dragging: true,
                move_drag_start: p,
                move_drag_initial_offset: Point {
                    x: old(self).h_scroll as i64,
                    y: old(self).v_scroll as i64,
                },
                ..*old(self)
            })),
            old(self).is_move_dragging ==> (e matches PointerEvent::Drag(p) ==> outcome
                == EventOutcome::Processed && final(self).h_scroll == clamped_scroll(
                crate::geometry::spec_max(
                    old(self).move_drag_initial_offset.x + old(self).move_drag_start.x - p.x,
                    0,
                ),
                old(self).h_scroll_max,
            ) && final(self).v_scroll == clamped_scroll(
                crate::geometry::spec_max(
                    old(self).move_drag_initial_offset.y + old(self).move_drag_start.y - p.y,
                    0,
                ),
                old(self).v_scroll_max,
            ) && *final(self) == (PainterControl {
                h_scroll: final(self).h_scroll,
                v_scroll: final(self).v_scroll,
                ..*old(self)
            })),
            (old(self).is_move_dragging && (e matches PointerEvent::Released(_))) ==> (outcome
                == EventOutcome::Processed && *final(self) == (PainterControl {
                is_move_dragging: false,
                ..*old(self)
            })),
            (old(self).is_move_dragging && (e matches PointerEvent::Pressed(_)) && !(old(
                self,
            ).drawing_object matches DrawingObject::Move(_))) ==> (outcome
                == EventOutcome::Processed && observably_equal(*final(self), *old(self))),
            (!old(self).is_move_dragging && !(old(self).drawing_object
                matches DrawingObject::Move(_)) && scrollbar_hit) ==> (outcome
                == EventOutcome::Processed && observably_equal(*final(self), *old(self))),
            (!old(self).is_move_dragging && (old(self).drawing_object
                matches DrawingObject::Move(_)) && !(e matches PointerEvent::Pressed(_))) ==> (
            outcome == EventOutcome::Processed && observably_equal(*final(self), *old(self))),
            !old(self).is_move_dragging && !(old(self).drawing_object
                matches DrawingObject::Move(_)) && !scrollbar_hit ==> ({
                let adj = adjusted_event(e, old(self).h_scroll, old(self).v_scroll);
                let stepped = crate::selection::step(old(self).selection, adj);
                &&& (stepped.1 ==> ({
                    &&& outcome == EventOutcome::Processed
                    &&& final(self).selection == stepped.0
                    &&& ((old(self).selection.status is Creating
                        && stepped.0.spec_is_visible()) ==> ({
                        let rect = content_rect(stepped.0.r);
                        &&& (old(self).drawing_object matches DrawingObject::Selection(_)
                            ==> (final(self).drawing_object matches DrawingObject::Selection(u)
                            && u.start_point == (Point { x: rect.left, y: rect.top }) && (u.img
                            matches Some(img) && img.wf() && img.w() == spec_clamp_len(
                            rect.spec_width(),
                        ) && img.h() == spec_clamp_len(rect.spec_height()) && (forall|
                            x: int,
                            y: int,
                        |
                            img.in_bounds(x, y) ==> #[trigger] img.at(x, y) == (if old(self).surface.in_bounds(rect.left + x, rect.top + y) {
                                old(self).surface.at(rect.left + x, rect.top + y)
                            } else {
                                default_cell()
                            })))))
                        &&& (!(old(self).drawing_object matches DrawingObject::Selection(_))
                            ==> final(self).drawing_object == old(self).drawing_object)
                    }))
                    &&& (!(old(self).selection.status is Creating && stepped.0.spec_is_visible())
                        ==> final(self).drawing_object == old(self).drawing_object)
                    &&& *final(self) == (PainterControl {
                        selection: final(self).selection,
                        drawing_object: final(self).drawing_object,
                        ..*old(self)
                    })
                }))
                &&& ((!stepped.1 && (e matches PointerEvent::Released(_))) ==> ({
                    &&& outcome == EventOutcome::Processed
                    &&& (!old(self).selection.spec_is_visible() ==> observably_equal(
                        *final(self),
                        *old(self),
                    ))
                    &&& (old(self).selection.spec_is_visible() ==> ({
                        &&& final(self).history().undo == push_capped(
                            old(self).undo_grids(),
                            old(self).surface.grid(),
                            old(self).max_undo_levels as int,
                        )
                        &&& final(self).history().redo.len() == 0
                        &&& final(self).surface.w() == old(self).surface.w()
                        &&& final(self).surface.h() == old(self).surface.h()
                        &&& (forall|xx: int, yy: int|
                            old(self).surface.in_bounds(xx, yy) ==> #[trigger] final(self).surface.at(xx, yy) == painted_cell(
                                old(self).drawing_object,
                                old(self).surface,
                                content_rect(old(self).selection.r),
                                xx,
                                yy,
                            ))
                        &&& final(self).selection == initial_selection()
                        &&& crate::drawing_object::object_cleared(
                            old(self).drawing_object,
                            final(self).drawing_object,
                        )
                    }))
                }))
                &&& (!stepped.1 && !(e matches PointerEvent::Released(_)) ==> (outcome
                    == EventOutcome::Ignored && observably_equal(*final(self), *old(self))))
            }),
    {
        let is_move_mode = matches!(self.drawing_object, DrawingObject::Move(_));
        match e {
            PointerEvent::Pressed(p) if is_move_mode => {
                self.is_move_dragging = true;
                self.move_drag_start = p;
                self.move_drag_initial_offset = Point {
                    x: self.h_scroll as i64,
                    y: self.v_scroll as i64,
                };
                return EventOutcome::Processed;
            },
            PointerEvent::Drag(p) if self.is_move_dragging => {
                let dx = self.move_drag_start.x - p.x;
                let dy = self.move_drag_start.y - p.y;
                let raw_h = crate::geometry::max64(self.move_drag_initial_offset.x + dx, 0);
                let raw_v = crate::geometry::max64(self.move_drag_initial_offset.y + dy, 0);
                self.set_scroll_indexes(raw_h as u64, raw_v as u64);
                return EventOutcome::Processed;
            },
            PointerEvent::Released(_) if self.is_move_dragging => {
                self.is_move_dragging = false;
                return EventOutcome::Processed;
            },
            _ => {},
        }
        if self.is_move_dragging {
            return EventOutcome::Processed;
        }
        if scrollbar_hit {
            return EventOutcome::Processed;
        }
        if is_move_mode {
            return EventOutcome::Processed;
        }
        let adjusted = self.adjust_mouse_event_for_scroll(e);
        let during_creation = self.selection.is_during_creation();
        if self.selection.process_mouse_event(adjusted) {
            if during_creation && self.selection.is_visible() {
                let rect = self.selection.rect();
                self.drawing_object.on_finish_selection(&self.surface, rect);
            }
            return EventOutcome::Processed;
        }
        match e {
            PointerEvent::Released(_) => {
                self.write_current_object();
                EventOutcome::Processed
            },
            _ => EventOutcome::Ignored,
        }
    }

    /// The raw event translated into canvas coordinates by the current
    /// scroll offsets.
    fn adjust_mouse_event_for_scroll(&self, e: PointerEvent) -> (adj: PointerEvent)
        requires
            self.wf(),
            event_in_event_window(e),
        ensures
            adj == adjusted_event(e, self.h_scroll, self.v_scroll),
            crate::selection::event_in_coord_window(adj),
    {
        let hx = self.h_scroll as i64;
        let vy = self.v_scroll as i64;
        match e {
            PointerEvent::Pressed(p) => PointerEvent::Pressed(Point { x: p.x + hx, y: p.y + vy }),
            PointerEvent::Drag(p) => PointerEvent::Drag(Point { x: p.x + hx, y: p.y + vy }),
            PointerEvent::Released(p) => PointerEvent::Released(Point { x: p.x + hx, y: p.y + vy }),
        }
    }

    /// Performs the logical action a key is bound to: scrolling by one
    /// unit, cancelling the selection, committing the active tool,
    /// undoing, redoing, copying or pasting. The outcome mirrors what
    /// happened: scroll, cancel and commit always consume the key; undo
    /// and redo consume it only when an action existed; copy only with
    /// a visible selection under the capture tool; paste only with a
    /// non-empty clipboard and a visible selection.
    pub fn handle_key(&mut self, action: KeyAction) -> (outcome: EventOutcome)
        requires
            old(self).wf(),
        ensures
            final(self).wf(),
            action is ScrollUp ==> (outcome == EventOutcome::Processed && final(self).v_scroll
                == clamped_scroll(old(self).v_scroll - 1, old(self).v_scroll_max) && *final(self)
                == (PainterControl { v_scroll: final(self).v_scroll, ..*old(self) })),
            action is ScrollDown ==> (outcome == EventOutcome::Processed && final(self).v_scroll
                == clamped_scroll(old(self).v_scroll + 1, old(self).v_scroll_max) && *final(self)
                == (PainterControl { v_scroll: final(self).v_scroll, ..*old(self) })),
            action is ScrollLeft ==> (outcome == EventOutcome::Processed && final(self).h_scroll
                == clamped_scroll(old(self).h_scroll - 1, old(self).h_scroll_max) && *final(self)
                == (PainterControl { h_scroll: final(self).h_scroll, ..*old(self) })),
            action is ScrollRight ==> (outcome == EventOutcome::Processed && final(self).h_scroll
                == clamped_scroll(old(self).h_scroll + 1, old(self).h_scroll_max) && *final(self)
                == (PainterControl { h_scroll: final(self).h_scroll, ..*old(self) })),
            action is Cancel ==> (outcome == EventOutcome::Processed && (!old(self).selection.spec_is_visible() ==> observably_equal(*final(self), *old(self))) && (old(self).selection.spec_is_visible() ==> (final(self).selection == initial_selection()
                && crate::drawing_object::object_cleared(
                old(self).drawing_object,
                final(self).drawing_object,
            ) && *final(self) == (PainterControl {
                selection: final(self).selection,
                drawing_object: final(self).drawing_object,
                ..*old(self)
            })))),
            action is Commit ==> (outcome == EventOutcome::Processed && (!old(self).selection.spec_is_visible() ==> observably_equal(*final(self), *old(self))) && (old(self).selection.spec_is_visible() ==> (final(self).history().undo == push_capped(
                old(self).undo_grids(),
                old(self).surface.grid(),
                old(self).max_undo_levels as int,
            ) && final(self).history().redo.len() == 0 && (forall|xx: int, yy: int|
                old(self).surface.in_bounds(xx, yy) ==> #[trigger] final(self).surface.at(xx, yy)
                    == painted_cell(
                    old(self).drawing_object,
                    old(self).surface,
                    content_rect(old(self).selection.r),
                    xx,
                    yy,
                )) && final(self).selection == initial_selection()))),
            action is Undo ==> (outcome == (if old(self).undo_stack@.len() > 0 {
                EventOutcome::Processed
            } else {
                EventOutcome::Ignored
            }) && (old(self).undo_stack@.len() == 0 ==> observably_equal(*final(self), *old(self)))
                && (old(self).undo_stack@.len() > 0 ==> (final(self).history() == undo_history(
                old(self).history(),
            ) && final(self).selection == initial_selection()))),
            action is Redo ==> (outcome == (if old(self).redo_stack@.len() > 0 {
                EventOutcome::Processed
            } else {
                EventOutcome::Ignored
            }) && (old(self).redo_stack@.len() == 0 ==> observably_equal(*final(self), *old(self)))
                && (old(self).redo_stack@.len() > 0 ==> (final(self).history() == redo_history(
                old(self).history(),
            ) && final(self).selection == initial_selection()))),
            action is Copy ==> ((!(old(self).selection.spec_is_visible() && old(self).drawing_object matches DrawingObject::Selection(_)) ==> (outcome
                == EventOutcome::Ignored && observably_equal(*final(self), *old(self)))) && ((old(self).selection.spec_is_visible() && old(self).drawing_object
                matches DrawingObject::Selection(_)) ==> (outcome == EventOutcome::Processed
                && *final(self) == (PainterControl {
                clipboard: final(self).clipboard,
                ..*old(self)
            }) && final(self).clipboard is Some))),
            action is Paste ==> (((old(self).clipboard is None || !old(self).selection.spec_is_visible()) ==> (outcome == EventOutcome::Ignored
                && observably_equal(*final(self), *old(self)))) && ((old(self).clipboard is Some
                && old(self).selection.spec_is_visible()) ==> (outcome == EventOutcome::Processed
                && final(self).history().undo == push_capped(
                old(self).undo_grids(),
                old(self).surface.grid(),
                old(self).max_undo_levels as int,
            ) && final(self).selection == initial_selection()))),
    {
        match action {
            KeyAction::ScrollUp => {
                let v = self.v_scroll;
                let h = self.h_scroll;
                self.set_scroll_indexes(h, if v > 0 {
                    v - 1
                } else {
                    0
                });
                EventOutcome::Processed
            },
            KeyAction::ScrollDown => {
                let v = self.v_scroll;
                let h = self.h_scroll;
                self.set_scroll_indexes(h, if v < u64::MAX {
                    v + 1
                } else {
                    v
                });
                EventOutcome::Processed
            },
            KeyAction::ScrollLeft => {
                let v = self.v_scroll;
                let h = self.h_scroll;
                self.set_scroll_indexes(if h > 0 {
                    h - 1
                } else {
                    0
                }, v);
                EventOutcome::Processed
            },
            KeyAction::ScrollRight => {
                let v = self.v_scroll;
                let h = self.h_scroll;
                self.set_scroll_indexes(if h < u64::MAX {
                    h + 1
                } else {
                    h
                }, v);
                EventOutcome::Processed
            },
            KeyAction::Cancel => {
                self.cancel_selection();
                EventOutcome::Processed
            },
            KeyAction::Commit => {
                self.write_current_object();
                EventOutcome::Processed
            },
            KeyAction::Undo => {
                if self.undo() {
                    EventOutcome::Processed
                } else {
                    EventOutcome::Ignored
                }
            },
            KeyAction::Redo => {
                if self.redo() {
                    EventOutcome::Processed
                } else {
                    EventOutcome::Ignored
                }
            },
            KeyAction::Copy => {
                if self.selection.is_visible() && matches!(
                    self.drawing_object,
                    DrawingObject::Selection(_),
                ) {
                    self.copy_selection();
                    EventOutcome::Processed
                } else {
                    EventOutcome::Ignored
                }
            },
            KeyAction::Paste => {
                if self.clipboard.is_some() && self.selection.is_visible() {
                    self.paste_from_clipboard();
                    EventOutcome::Processed
                } else {
                    EventOutcome::Ignored
                }
            },
        }
    }

    /// The picture the widget shows: the canvas, the active tool's
    /// floating preview painted into a visible selection's content
    /// rect, and the selection guide on top. The canvas itself is never
    /// touched; the shell blits the result at the scroll offset.
    pub fn render(&self) -> (out: Canvas)
        requires
            self.wf(),
        ensures
            out.wf(),
            out.w() == self.surface.w(),
            out.h() == self.surface.h(),
            forall|xx: int, yy: int|
                self.surface.in_bounds(xx, yy) ==> #[trigger] out.at(xx, yy) == ({
                    let base = if self.selection.spec_is_visible() {
                        painted_cell(
                            self.drawing_object,
                            self.surface,
                            content_rect(self.selection.r),
                            xx,
                            yy,
                        )
                    } else {
                        self.surface.at(xx, yy)
                    };
                    if self.selection.spec_is_visible() && crate::canvas::on_outline(
                        self.selection.r,
                        xx,
                        yy,
                    ) {
                        merged(
                            base,
                            if crate::selection::marker_pos(self.selection.r, xx, yy) {
                                crate::selection::marker_cell()
                            } else {
                                crate::selection::guide_cell()
                            },
                        )
                    } else {
                        base
                    }
                }),
    {
        let mut out = self.surface.snapshot();
        if self.selection.is_visible() {
            let rect = self.selection.rect();
            let ghost snap = out;
            self.drawing_object.paint(&mut out, rect);
            proof {
                assert forall|xx: int, yy: int| self.surface.in_bounds(xx, yy) implies #[trigger] out.at(
                    xx,
                    yy,
                ) == painted_cell(
                    self.drawing_object,
                    self.surface,
                    content_rect(self.selection.r),
                    xx,
                    yy,
                ) by {
                    crate::drawing_object::lemma_painted_cell_local(
                        self.drawing_object,
                        snap,
                        self.surface,
                        content_rect(self.selection.r),
                        xx,
                        yy,
                    );
                }
            }
        }
        self.selection.paint(&mut out);
        out
    }
}

} // verus!

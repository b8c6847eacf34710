//! The synchronous core of the shadow terminal: one session over one
//! terminal model, answering to the control protocol.
//!
//! The caller (a task, a test, a stepper) reads the pty itself and hands the
//! bytes in; the core feeds them to the terminal model, mirrors the
//! resulting screen, and publishes complete snapshots or change-sets through
//! the diff engine. Control messages resize the model, move the scrollback
//! view or end the session; once ended, the core never touches the model
//! again and is not reusable.
//!
//! Every published snapshot is tied to the model: [`reflects_model`] says
//! that its cells, cursor and mode are exactly what the model answered, and
//! the transition predicates carry that through [`ShadowTerminal::step`] and
//! [`ShadowTerminal::handle`]. The cursor shape is always the default one:
//! the VT capability does not report shapes.

use vstd::prelude::*;

use crate::output::diff::{apply_changes, screen_changes, DiffEngine};
use crate::output::native::{
    change_views, Cell, CompleteScreen, CompleteScrollback, CompleteSurface, Cursor, CursorShape,
    CursorVisibility, Output, ScreenMode, SurfaceDiff, MAX_DIMENSION,
};
use crate::terminal_model::{
    model_alternate, model_cursor, model_cursor_hidden, model_offset, model_scrollback_len,
    model_view_cell, TerminalModel,
};
use crate::title::{scan_seq, TitleTracker};
use crate::{Protocol, Scroll};

verus! {

/// What one engine instance is built from; immutable for its lifetime.
#[derive(Debug, Clone, PartialEq)]
pub struct Config {
    /// The width of the shadow terminal, in cells.
    pub width: u16,
    /// The height of the shadow terminal, in cells.
    pub height: u16,
    /// The number of lines kept in the scrollback buffer.
    pub scrollback_size: usize,
    /// The command to run in the shadow terminal, with its arguments.
    pub command: Vec<String>,
}

impl Config {
    /// A usable configuration has positive dimensions.
    pub open spec fn wf(&self) -> bool {
        0 < self.width && 0 < self.height
    }
}

impl Default for Config {
    /// A conventional 80 by 24 terminal with a thousand lines of scrollback
    /// and no command chosen yet.
    fn default() -> (r: Config)
        ensures
            r.wf(),
            r.width == 80,
            r.height == 24,
            r.scrollback_size == 1000,
            r.command@.len() == 0,
    {
        Config { width: 80, height: 24, scrollback_size: 1000, command: Vec::new() }
    }
}

/// The two states of a session.
#[derive(Debug, Clone, Copy, PartialEq, Eq, Structural)]
pub enum State {
    /// The session is live: bytes are consumed and control is answered.
    Running,
    /// The session is over; every further operation is a no-op.
    Ended,
}

/// The synchronous shadow terminal core.
pub struct ShadowTerminal {
    /// Whether the session is live or over.
    pub state: State,
    /// The current width, changed only by an accepted resize.
    pub width: u16,
    /// The current height, changed only by an accepted resize.
    pub height: u16,
    /// The verified mirror of the live screen, refreshed on every feed.
    pub screen: CompleteScreen,
    /// The snapshot and diff engine with its per-kind baselines.
    pub engine: DiffEngine,
    /// How far the view is scrolled back into the scrollback; `0` is the
    /// live screen.
    pub scroll_offset: usize,
    /// The verified scanner that follows the terminal title through the
    /// byte stream.
    pub tracker: TitleTracker,
    /// The external VT-interpretation capability.
    pub model: TerminalModel,
}

/// A position clamped into a positive bound.
pub open spec fn clamp_to(v: u16, bound: int) -> int {
    if (v as int) < bound {
        v as int
    } else {
        bound - 1
    }
}

/// The snapshot reports exactly what the terminal model answers: every cell
/// of the grid is the model's cell at its row-major position (blank where
/// the model answers nothing), the cursor is the model's cursor clamped
/// into the grid, shown unless the model hides it and of the default shape
/// (the capability reports no shapes), and the mode mirrors the model's
/// alternate-screen flag.
pub open spec fn reflects_model(s: CompleteScreen, m: TerminalModel) -> bool {
    &&& forall|row: u16, col: u16|
        (row as nat) < s@.height && (col as nat) < s@.width ==> #[trigger] model_view_cell(
            m,
            row,
            col,
        ) == s@.cells[row as int * s@.width as int + col as int]
    &&& s@.cursor.col as int == clamp_to(model_cursor(m).1, s@.width as int)
    &&& s@.cursor.row as int == clamp_to(model_cursor(m).0, s@.height as int)
    &&& s@.cursor.shape == CursorShape::Default
    &&& s@.cursor.visibility == (if model_cursor_hidden(m) {
        CursorVisibility::Hidden
    } else {
        CursorVisibility::Visible
    })
    &&& s@.mode == (if model_alternate(m) {
        ScreenMode::Alternate
    } else {
        ScreenMode::Primary
    })
}

/// Where one scroll up from `offset` lands: one row further into the
/// scrollback, bounded by the rows the model actually holds.
pub open spec fn scrolled_up_offset(offset: usize, len: usize) -> int {
    if offset + 1 <= len {
        offset + 1
    } else {
        len as int
    }
}

/// Where one scroll down from `offset` lands: one row back towards the live
/// screen, bounded below by it, and never beyond the rows the model holds.
pub open spec fn scrolled_down_offset(offset: usize, len: usize) -> int {
    let target = if offset == 0 {
        0
    } else {
        offset - 1
    };
    if target <= len {
        target
    } else {
        len as int
    }
}

/// What a call of [`ShadowTerminal::step`] guarantees, relating the state
/// before, the state after, the bytes consumed and the emission.
pub open spec fn step_transition(
    pre: ShadowTerminal,
    post: ShadowTerminal,
    bytes: Seq<u8>,
    r: Option<Output>,
) -> bool {
    &&& post.state == pre.state
    &&& post.width == pre.width
    &&& post.height == pre.height
    &&& post.scroll_offset == pre.scroll_offset
    &&& (pre.state is Ended || bytes.len() == 0 ==> {
        &&& r is None
        &&& post.screen@ == pre.screen@
        &&& post.tracker@ == pre.tracker@
        &&& post.model == pre.model
        &&& post.engine.screen_baseline_view() == pre.engine.screen_baseline_view()
    })
    &&& (pre.state is Running && bytes.len() > 0 ==> {
        &&& post.screen.wf()
        &&& post.screen@.width == pre.width as nat
        &&& post.screen@.height == pre.height as nat
        &&& post.tracker@ == scan_seq(pre.tracker@, bytes)
        &&& post.screen@.title == post.tracker@.title
        &&& reflects_model(post.screen, post.model)
        &&& model_offset(post.model) == 0
        &&& post.engine.screen_baseline_view() == Some(post.screen@)
        &&& (pre.engine.screen_baseline_view() is None ==> (r matches Some(
            Output::Complete(CompleteSurface::Screen(s)),
        ) && s@ == post.screen@))
        &&& (pre.engine.screen_baseline_view() matches Some(b) ==> (r matches Some(
            Output::Diff(SurfaceDiff::Screen(d)),
        ) && {
            &&& change_views(d.changes@) == screen_changes(b.cells, post.screen@.cells, 0)
            &&& apply_changes(b.cells, change_views(d.changes@)) == post.screen@.cells
            &&& d.cursor == post.screen@.cursor
            &&& d.title@ == post.screen@.title
            &&& d.mode == post.screen@.mode
        }))
    })
}

/// What a call of [`ShadowTerminal::handle`] with [`Protocol::End`]
/// guarantees.
pub open spec fn end_transition(pre: ShadowTerminal, post: ShadowTerminal, r: Option<Output>) -> bool {
    &&& post.state is Ended
    &&& r is None
    &&& post.width == pre.width
    &&& post.height == pre.height
    &&& post.scroll_offset == pre.scroll_offset
    &&& post.screen@ == pre.screen@
    &&& post.tracker@ == pre.tracker@
    &&& post.model == pre.model
    &&& post.engine.screen_baseline_view() == pre.engine.screen_baseline_view()
}

/// What a call of [`ShadowTerminal::handle`] with [`Protocol::Resize`]
/// guarantees: an accepted resize always yields a complete snapshot, never a
/// change-set, of exactly the requested dimensions, reporting what the
/// resized model answers, and re-baselines the diff engine.
pub open spec fn resize_transition(
    pre: ShadowTerminal,
    post: ShadowTerminal,
    w: u16,
    h: u16,
    r: Option<Output>,
) -> bool {
    &&& post.state == pre.state
    &&& post.tracker@ == pre.tracker@
    &&& (pre.state is Ended || w == 0 || h == 0 ==> {
        &&& r is None
        &&& post.width == pre.width
        &&& post.height == pre.height
        &&& post.scroll_offset == pre.scroll_offset
        &&& post.screen@ == pre.screen@
        &&& post.model == pre.model
        &&& post.engine.screen_baseline_view() == pre.engine.screen_baseline_view()
    })
    &&& (pre.state is Running && w > 0 && h > 0 ==> {
        &&& post.width == w
        &&& post.height == h
        &&& post.scroll_offset == 0
        &&& post.screen.wf()
        &&& post.screen@.width == w as nat
        &&& post.screen@.height == h as nat
        &&& reflects_model(post.screen, post.model)
        &&& model_offset(post.model) == 0
        &&& post.engine.screen_baseline_view() == Some(post.screen@)
        &&& (r matches Some(Output::Complete(CompleteSurface::Screen(s))) && s@ == post.screen@)
    })
}

/// What a call of [`ShadowTerminal::handle`] with [`Protocol::Scroll`]
/// guarantees: scrolling never mutates the live screen mirror nor the diff
/// baselines; up and down move the view offset by exactly one row, bounded
/// by the scrollback the model holds and by the live screen, and answer a
/// snapshot reporting the model's scrolled view; cancelling returns to the
/// live screen and answers exactly the snapshot it had before scrolling.
pub open spec fn scroll_transition(
    pre: ShadowTerminal,
    post: ShadowTerminal,
    dir: Scroll,
    r: Option<Output>,
) -> bool {
    &&& post.state == pre.state
    &&& post.width == pre.width
    &&& post.height == pre.height
    &&& post.screen@ == pre.screen@
    &&& post.tracker@ == pre.tracker@
    &&& post.engine.screen_baseline_view() == pre.engine.screen_baseline_view()
    &&& (pre.state is Ended ==> {
        &&& r is None
        &&& post.scroll_offset == pre.scroll_offset
        &&& post.model == pre.model
    })
    &&& (pre.state is Running ==> {
        &&& (r matches Some(Output::Complete(CompleteSurface::Screen(s))) && {
            &&& s.wf()
            &&& s@.width == pre.width as nat
            &&& s@.height == pre.height as nat
            &&& s@.title == pre.screen@.title
            &&& (dir is Up || dir is Down ==> reflects_model(s, post.model))
            &&& (dir is Cancel ==> s@ == pre.screen@)
        })
        &&& model_offset(post.model) == post.scroll_offset
        &&& (dir is Up ==> post.scroll_offset as int == scrolled_up_offset(
            pre.scroll_offset,
            model_scrollback_len(pre.model),
        ))
        &&& (dir is Down ==> post.scroll_offset as int == scrolled_down_offset(
            pre.scroll_offset,
            model_scrollback_len(pre.model),
        ))
        &&& (dir is Cancel ==> post.scroll_offset == 0)
    })
}

/// Positions strictly inside a row-major rectangle index strictly below its
/// area.
proof fn lemma_row_major_bound(r2: int, c2: int, row: int, col: int, w: int)
    requires
        0 <= r2 < row,
        0 <= c2 < w,
        0 <= col,
    ensures
        r2 * w + c2 < row * w + col,
{
    assert(r2 * w + c2 < row * w + col) by (nonlinear_arith)
        requires
            0 <= r2 < row,
            0 <= c2 < w,
            0 <= col,
    ;
}

impl ShadowTerminal {
    /// The shadow terminal's invariant: positive bounded dimensions, a
    /// well-formed screen mirror of exactly those dimensions, and a diff
    /// baseline that, when present, has them too.
    pub open spec fn wf(&self) -> bool {
        &&& 0 < self.width
        &&& 0 < self.height
        &&& self.screen.wf()
        &&& self.screen@.width == self.width as nat
        &&& self.screen@.height == self.height as nat
        &&& self.screen@.title == self.tracker@.title
        &&& self.engine.wf()
        &&& match self.engine.screen_baseline_view() {
            Some(b) => b.width == self.width as nat && b.height == self.height as nat,
            None => true,
        }
    }

    /// A running session over a fresh terminal model of the configured
    /// size: blank mirror, no baseline, no scroll.
    ///
    /// The caller spawns the configured command behind a pty itself and
    /// feeds the bytes it reads into [`ShadowTerminal::step`].
    pub fn start(config: &Config) -> (r: ShadowTerminal)
        requires
            config.wf(),
        ensures
            r.wf(),
            r.state is Running,
            r.width == config.width,
            r.height == config.height,
            r.scroll_offset == 0,
            r.engine.screen_baseline_view() is None,
            r.screen@.title == Seq::<char>::empty(),
    {
        let model = TerminalModel::new(config.height, config.width, config.scrollback_size);
        let screen = CompleteScreen::new(config.width as usize, config.height as usize);
        ShadowTerminal {
            state: State::Running,
            width: config.width,
            height: config.height,
            screen,
            engine: DiffEngine::new(),
            scroll_offset: 0,
            tracker: TitleTracker::new(),
            model,
        }
    }

    /// The current view of the terminal model, read cell by cell at the
    /// current dimensions: exactly what the model answers, per
    /// [`reflects_model`]. The title is the one the title scanner last
    /// committed.
    fn capture_screen(&self) -> (r: CompleteScreen)
        requires
            0 < self.width,
            0 < self.height,
        ensures
            r.wf(),
            r@.width == self.width as nat,
            r@.height == self.height as nat,
            r@.title == self.tracker@.title,
            reflects_model(r, self.model),
    {
        let width = self.width as usize;
        let height = self.height as usize;
        let mut cells: Vec<Cell> = Vec::new();
        let mut row: u16 = 0;
        while row < self.height
            invariant
                0 < self.width,
                0 < self.height,
                row <= self.height,
                width == self.width as usize,
                height == self.height as usize,
                cells@.len() == (width as int) * (row as int),
                forall|r2: u16, c2: u16|
                    r2 < row && c2 < self.width ==> #[trigger] model_view_cell(self.model, r2, c2)
                        == cells@[r2 as int * (width as int) + c2 as int]@,
            decreases self.height as int - row as int,
        {
            let mut col: u16 = 0;
            while col < self.width
                invariant
                    0 < self.width,
                    row < self.height,
                    col <= self.width,
                    width == self.width as usize,
                    cells@.len() == (width as int) * (row as int) + (col as int),
                    forall|r2: u16, c2: u16|
                        r2 < row && c2 < self.width ==> #[trigger] model_view_cell(
                            self.model,
                            r2,
                            c2,
                        ) == cells@[r2 as int * (width as int) + c2 as int]@,
                    forall|c2: u16|
                        c2 < col ==> #[trigger] model_view_cell(self.model, row, c2) == cells@[(
                        row as int) * (width as int) + c2 as int]@,
                decreases self.width as int - col as int,
            {
                let ghost prev = cells@;
                match self.model.read_cell(row, col) {
                    Some(c) => cells.push(c),
                    None => cells.push(Cell::blank()),
                }
                proof {
                    assert(cells@[(row as int) * (width as int) + (col as int)]@
                        == model_view_cell(self.model, row, col));
                    assert forall|r2: u16, c2: u16| r2 < row && c2 < self.width implies #[trigger] model_view_cell(
                        self.model,
                        r2,
                        c2,
                    ) == cells@[r2 as int * (width as int) + c2 as int]@ by {
                        lemma_row_major_bound(
                            r2 as int,
                            c2 as int,
                            row as int,
                            col as int,
                            width as int,
                        );
                        assert(cells@[r2 as int * (width as int) + c2 as int] == prev[r2 as int * (
                        width as int) + c2 as int]);
                    }
                }
                col = col + 1;
            }
            proof {
                assert((width as int) * (row as int) + (width as int) == (width as int) * (
                row as int + 1)) by (nonlinear_arith);
            }
            row = row + 1;
        }
        proof {
            assert((width as int) * (height as int) <= MAX_DIMENSION * MAX_DIMENSION)
                by (nonlinear_arith)
                requires
                    0 < width <= MAX_DIMENSION,
                    0 < height <= MAX_DIMENSION,
            ;
        }
        let (cursor_row, cursor_col) = self.model.cursor_position();
        let col_clamped: usize = if (cursor_col as usize) < width {
            cursor_col as usize
        } else {
            width - 1
        };
        let row_clamped: usize = if (cursor_row as usize) < height {
            cursor_row as usize
        } else {
            height - 1
        };
        let visibility = if self.model.cursor_hidden() {
            CursorVisibility::Hidden
        } else {
            CursorVisibility::Visible
        };
        let mode = if self.model.alternate_screen() {
            ScreenMode::Alternate
        } else {
            ScreenMode::Primary
        };
        let r = CompleteScreen {
            width,
            height,
            cells,
            cursor: Cursor {
                col: col_clamped,
                row: row_clamped,
                shape: CursorShape::Default,
                visibility,
            },
            title: self.tracker.title.clone(),
            mode,
        };
        proof {
            assert forall|rq: u16, cq: u16| (rq as nat) < r@.height && (cq as nat) < r@.width
                implies #[trigger] model_view_cell(self.model, rq, cq) == r@.cells[rq as int
                * r@.width as int + cq as int] by {
                lemma_row_major_bound(rq as int, cq as int, height as int, 0, width as int);
                let idx = rq as int * (width as int) + cq as int;
                assert(cells@.len() == (width as int) * (height as int));
                assert((height as int) * (width as int) == (width as int) * (height as int))
                    by (nonlinear_arith);
                assert(0 <= idx < cells@.len());
                assert(model_view_cell(self.model, rq, cq) == cells@[idx]@);
                assert(r@.cells[idx] == cells@[idx]@);
                assert(rq as int * r@.width as int + cq as int == idx);
            }
        }
        r
    }

    /// One synchronous step: consume the bytes that were read from the pty.
    ///
    /// With no bytes there is nothing to do and nothing is emitted. With
    /// bytes, the terminal model consumes them, the view returns to the
    /// live screen, the mirror is refreshed to what the model answers, and
    /// the diff engine emits: a complete snapshot the first time, a
    /// change-set against the previous emission afterwards.
    pub fn step(&mut self, bytes: &[u8]) -> (r: Option<Output>)
        requires
            old(self).wf(),
        ensures
            final(self).wf(),
            step_transition(*old(self), *final(self), bytes@, r),
            bytes@.len() == 0 ==> r is None,
            old(self).state is Ended ==> r is None,
    {
        if matches!(self.state, State::Ended) {
            return None;
        }
        if bytes.len() == 0 {
            return None;
        }
        self.tracker.feed(bytes);
        self.model.feed(bytes);
        let _ = self.model.set_view_offset(0);
        let snap = self.capture_screen();
        self.screen = snap.duplicate();
        let out = self.engine.observe_screen(snap);
        Some(out)
    }

    /// Answer one control message.
    ///
    /// `End` moves the session to its terminal state; afterwards every call
    /// is a no-op answering nothing. An accepted `Resize` resizes the model
    /// and always answers a complete snapshot of the requested dimensions,
    /// re-baselining the diff engine. `Scroll` moves only the scrollback
    /// view: up and down move it by one row within bounds and answer a
    /// complete snapshot of the model's scrolled view, cancel answers
    /// exactly the snapshot of the live screen, and none of them touches
    /// the mirror or the baselines.
    pub fn handle(&mut self, msg: &Protocol) -> (r: Option<Output>)
        requires
            old(self).wf(),
        ensures
            final(self).wf(),
            msg is End ==> end_transition(*old(self), *final(self), r),
            msg matches Protocol::Resize { width, height } ==> resize_transition(
                *old(self),
                *final(self),
                *width,
                *height,
                r,
            ),
            msg matches Protocol::Scroll(d) ==> scroll_transition(*old(self), *final(self), *d, r),
    {
        match msg {
            Protocol::End => {
                self.state = State::Ended;
                None
            },
            Protocol::Resize { width, height } => {
                if matches!(self.state, State::Ended) || *width == 0 || *height == 0 {
                    return None;
                }
                self.model.resize(*height, *width);
                let _ = self.model.set_view_offset(0);
                self.width = *width;
                self.height = *height;
                self.scroll_offset = 0;
                let snap = self.capture_screen();
                self.screen = snap.duplicate();
                let out = self.engine.force_screen_complete(snap);
                Some(out)
            },
            Protocol::Scroll(direction) => {
                if matches!(self.state, State::Ended) {
                    return None;
                }
                match direction {
                    Scroll::Up => {
                        let target: usize = if self.scroll_offset < usize::MAX {
                            self.scroll_offset + 1
                        } else {
                            self.scroll_offset
                        };
                        let actual = self.model.set_view_offset(target);
                        let view = self.capture_screen();
                        self.scroll_offset = actual;
                        Some(Output::Complete(CompleteSurface::Screen(view)))
                    },
                    Scroll::Down => {
                        let target: usize = if self.scroll_offset == 0 {
                            0
                        } else {
                            self.scroll_offset - 1
                        };
                        let actual = self.model.set_view_offset(target);
                        let view = self.capture_screen();
                        self.scroll_offset = actual;
                        Some(Output::Complete(CompleteSurface::Screen(view)))
                    },
                    Scroll::Cancel => {
                        let _ = self.model.set_view_offset(0);
                        self.scroll_offset = 0;
                        Some(Output::Complete(CompleteSurface::Screen(self.screen.duplicate())))
                    },
                }
            },
        }
    }

    /// A snapshot of the live screen mirror as last refreshed.
    pub fn screen_snapshot(&self) -> (r: CompleteScreen)
        ensures
            r@ == self.screen@,
    {
        self.screen.duplicate()
    }

    /// The top row of the model's current view, read cell by cell.
    fn read_view_row(&self) -> (r: Vec<Cell>)
        requires
            0 < self.width,
        ensures
            r@.len() == self.width as nat,
    {
        let mut row: Vec<Cell> = Vec::new();
        let mut col: u16 = 0;
        while col < self.width
            invariant
                col <= self.width,
                row@.len() == col as nat,
            decreases self.width as int - col as int,
        {
            match self.model.read_cell(0, col) {
                Some(c) => row.push(c),
                None => row.push(Cell::blank()),
            }
            col = col + 1;
        }
        row
    }

    /// A whole snapshot of the scrollback surface: every row the model
    /// holds beyond the live screen, oldest first, read by walking the
    /// scrolled view one offset at a time. It is always emitted whole —
    /// diffing scrollback is a documented limitation — and the view is back
    /// on the live screen afterwards. Which text the rows hold is the
    /// assumed capability's answer and is not re-stated here.
    pub fn snapshot_scrollback(&mut self) -> (r: Option<Output>)
        requires
            old(self).wf(),
        ensures
            final(self).wf(),
            final(self).state == old(self).state,
            final(self).width == old(self).width,
            final(self).height == old(self).height,
            final(self).screen@ == old(self).screen@,
            final(self).tracker@ == old(self).tracker@,
            final(self).scroll_offset == old(self).scroll_offset,
            final(self).engine.screen_baseline_view() == old(self).engine.screen_baseline_view(),
            old(self).state is Ended ==> r is None && final(self).model == old(self).model,
            old(self).state is Running ==> {
                &&& model_offset(final(self).model) == 0
                &&& model_scrollback_len(final(self).model) == model_scrollback_len(
                    old(self).model,
                )
                &&& (r matches Some(Output::Complete(CompleteSurface::Scrollback(s))) && {
                    &&& s.rows@.len() == model_scrollback_len(old(self).model)
                    &&& forall|k: int|
                        0 <= k < s.rows@.len() ==> (#[trigger] s.rows@[k])@.len() == old(
                            self,
                        ).width as nat
                    &&& s.mode == old(self).screen@.mode
                })
            },
    {
        if matches!(self.state, State::Ended) {
            return None;
        }
        let depth = self.model.set_view_offset(usize::MAX);
        proof {
            assert(depth == model_scrollback_len(old(self).model));
        }
        let mut rows: Vec<Vec<Cell>> = Vec::new();
        let mut remaining: usize = depth;
        while remaining > 0
            invariant
                0 < self.width,
                remaining <= depth,
                rows@.len() == depth - remaining,
                forall|k: int|
                    0 <= k < rows@.len() ==> (#[trigger] rows@[k])@.len() == self.width as nat,
                model_scrollback_len(self.model) == depth,
                self.state == old(self).state,
                self.width == old(self).width,
                self.height == old(self).height,
                self.screen == old(self).screen,
                self.tracker == old(self).tracker,
                self.engine == old(self).engine,
                self.scroll_offset == old(self).scroll_offset,
            decreases remaining,
        {
            let _ = self.model.set_view_offset(remaining);
            let row = self.read_view_row();
            rows.push(row);
            remaining = remaining - 1;
        }
        let _ = self.model.set_view_offset(0);
        let snap = CompleteScrollback { rows, mode: self.screen.mode };
        Some(self.engine.observe_scrollback(snap))
    }
}

/// The first output ever produced for the screen kind within a session is
/// always a complete snapshot, never a change-set: before any emission the
/// diff engine holds no baseline, and a step that consumes bytes then
/// answers the whole screen.
pub proof fn lemma_first_screen_output_is_complete(
    pre: ShadowTerminal,
    post: ShadowTerminal,
    bytes: Seq<u8>,
    r: Option<Output>,
)
    requires
        step_transition(pre, post, bytes, r),
        pre.state is Running,
        pre.engine.screen_baseline_view() is None,
        bytes.len() > 0,
    ensures
        r matches Some(Output::Complete(CompleteSurface::Screen(s))) && s@ == post.screen@,
{
}

/// An accepted resize always yields a complete snapshot, never a change-set,
/// and its screen snapshot has exactly the requested dimensions.
pub proof fn lemma_resize_yields_complete(
    pre: ShadowTerminal,
    post: ShadowTerminal,
    w: u16,
    h: u16,
    r: Option<Output>,
)
    requires
        resize_transition(pre, post, w, h, r),
        pre.state is Running,
        w > 0,
        h > 0,
    ensures
        r matches Some(Output::Complete(CompleteSurface::Screen(s))) && s@.width == w as nat
            && s@.height == h as nat,
{
}

/// Once a baseline exists for the screen kind, for instance right after an
/// accepted resize re-baselined the engine, the observation made from newly
/// consumed bytes is a change-set, never a complete snapshot.
pub proof fn lemma_observation_after_baseline_is_diff(
    pre: ShadowTerminal,
    post: ShadowTerminal,
    bytes: Seq<u8>,
    r: Option<Output>,
)
    requires
        step_transition(pre, post, bytes, r),
        pre.state is Running,
        pre.engine.screen_baseline_view() is Some,
        bytes.len() > 0,
    ensures
        r matches Some(Output::Diff(SurfaceDiff::Screen(_))),
{
}

/// Scrolling up and then cancelling restores a screen snapshot identical,
/// cell for cell, to the live screen before scrolling began: scrolling never
/// mutates the live screen mirror, and cancel answers exactly that mirror.
pub proof fn lemma_scroll_cancel_restores(
    s0: ShadowTerminal,
    s1: ShadowTerminal,
    s2: ShadowTerminal,
    r1: Option<Output>,
    r2: Option<Output>,
)
    requires
        scroll_transition(s0, s1, Scroll::Up, r1),
        scroll_transition(s1, s2, Scroll::Cancel, r2),
        s0.state is Running,
    ensures
        r2 matches Some(Output::Complete(CompleteSurface::Screen(s))) && s@ == s0.screen@,
        s2.screen@ == s0.screen@,
{
}

} // verus!

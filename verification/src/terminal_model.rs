//! The terminal model: a thin, trusted boundary around the external
//! VT-interpretation capability (the `vt100` crate).
//!
//! The capability consumes raw bytes and maintains the cell grid, cursor,
//! screen mode and bounded scrollback; interpreting individual escape
//! sequences is delegated to it and its correctness is assumed, not
//! re-stated here. What the model holds is given names — uninterpreted
//! functions of the opaque model value — and each read wrapper's contract
//! says that it answers exactly the named thing. The engine's verified
//! logic is then tied to the model's answers: a capture that ignored the
//! model could not meet its contract. Feeding bytes carries no contract at
//! all: what the interpretation makes of them is the assumed capability's
//! business.

use vstd::prelude::*;

use crate::output::native;

verus! {

/// A cell colour as the `vt100` crate reports it.
#[verifier::external_type_specification]
#[verifier::external_body]
pub struct ExVtColor(vt100::Color);

/// One in-memory terminal: the external parser plus nothing else.
///
/// The parser type of the `vt100` crate carries a generic callbacks
/// parameter bounded by one of that crate's traits, which keeps it from
/// being declared on its own; the whole model is therefore held opaquely.
#[verifier::external_body]
pub struct TerminalModel {
    /// The external VT parser holding grid, cursor, mode and scrollback.
    parser: vt100::Parser,
}

/// The cell that the model's current view answers at the given position,
/// or nothing where the position lies outside the grid. This names what
/// `vt100::Screen::cell` reports of the opaque model value; the view
/// respects the model's scrollback offset.
pub uninterp spec fn model_cell(m: TerminalModel, row: u16, col: u16) -> Option<native::CellView>;

/// The cursor position the model reports, as `(row, col)`.
pub uninterp spec fn model_cursor(m: TerminalModel) -> (u16, u16);

/// Whether the model reports the cursor hidden.
pub uninterp spec fn model_cursor_hidden(m: TerminalModel) -> bool;

/// Whether the model reports the alternate screen in use.
pub uninterp spec fn model_alternate(m: TerminalModel) -> bool;

/// How many scrollback rows the model's current grid actually holds.
pub uninterp spec fn model_scrollback_len(m: TerminalModel) -> usize;

/// The scrollback offset of the model's current view; `0` is the live
/// screen.
pub uninterp spec fn model_offset(m: TerminalModel) -> usize;

/// The cell of the model's current view at a position, blank where the
/// model answers nothing.
pub open spec fn model_view_cell(m: TerminalModel, row: u16, col: u16) -> native::CellView {
    match model_cell(m, row, col) {
        Some(c) => c,
        None => native::CellView::blank(),
    }
}

/// Relies on `vt100::Color`: its three variants carry a palette index or
/// three true-colour components; each is moved into the library's own
/// colour type unchanged.
#[verifier::external_body]
fn vt_color(c: vt100::Color) -> (r: native::CellColor) {
    match c {
        vt100::Color::Default => native::CellColor::Default,
        vt100::Color::Idx(i) => native::CellColor::PaletteIndex(i),
        vt100::Color::Rgb(red, green, blue) => native::CellColor::TrueColor(red, green, blue),
    }
}

impl TerminalModel {
    /// Relies on `vt100::Parser::new`: a parser of the given size with the
    /// given amount of scrollback. The crate requires positive dimensions:
    /// with zero rows its grid arithmetic underflows.
    #[verifier::external_body]
    pub fn new(rows: u16, cols: u16, scrollback_len: usize) -> (r: TerminalModel)
        requires
            0 < rows,
            0 < cols,
    {
        TerminalModel { parser: vt100::Parser::new(rows, cols, scrollback_len) }
    }

    /// Relies on `vt100::Parser::process`: parses the bytes as terminal
    /// output and updates the in-memory terminal state. It never fails;
    /// malformed sequences are absorbed by the capability's own recovery
    /// rules. What the new state holds is not stated: the interpretation
    /// is the assumed capability's own.
    #[verifier::external_body]
    pub fn feed(&mut self, bytes: &[u8]) {
        self.parser.process(bytes);
    }

    /// Relies on `vt100::Screen::set_size`: resizes the grids to the given
    /// dimensions. The crate requires positive dimensions: with a zero row
    /// or column count its clamping arithmetic underflows.
    #[verifier::external_body]
    pub fn resize(&mut self, rows: u16, cols: u16)
        requires
            0 < rows,
            0 < cols,
    {
        self.parser.screen_mut().set_size(rows, cols);
    }

    /// Relies on `vt100::Screen::set_scrollback` and
    /// `vt100::Screen::scrollback`: the offset is set to the minimum of the
    /// request and the scrollback rows actually held, and nothing else of
    /// the model — its scrollback length, cursor and mode flags — is
    /// touched by the call.
    #[verifier::external_body]
    pub fn set_view_offset(&mut self, rows: usize) -> (r: usize)
        ensures
            r == if rows <= model_scrollback_len(*old(self)) {
                rows
            } else {
                model_scrollback_len(*old(self))
            },
            model_offset(*final(self)) == r,
            model_scrollback_len(*final(self)) == model_scrollback_len(*old(self)),
            model_cursor(*final(self)) == model_cursor(*old(self)),
            model_cursor_hidden(*final(self)) == model_cursor_hidden(*old(self)),
            model_alternate(*final(self)) == model_alternate(*old(self)),
    {
        self.parser.screen_mut().set_scrollback(rows);
        self.parser.screen().scrollback()
    }

    /// Relies on `vt100::Screen::cell` and the accessors of `vt100::Cell`:
    /// the cell of the current view at the given position, its text,
    /// colours and style moved into the library's own cell type, or nothing
    /// when the position lies outside the grid.
    #[verifier::external_body]
    pub fn read_cell(&self, row: u16, col: u16) -> (r: Option<native::Cell>)
        ensures
            r matches Some(c) ==> model_cell(*self, row, col) == Some(c@),
            r is None ==> model_cell(*self, row, col) is None,
    {
        match self.parser.screen().cell(row, col) {
            Some(c) => Some(
                native::Cell {
                    text: c.contents().to_owned(),
                    foreground: vt_color(c.fgcolor()),
                    background: vt_color(c.bgcolor()),
                    bold: c.bold(),
                    dim: c.dim(),
                    italic: c.italic(),
                    underline: c.underline(),
                    inverse: c.inverse(),
                },
            ),
            None => None,
        }
    }

    /// Relies on `vt100::Screen::cursor_position`: the cursor as
    /// `(row, col)`, `0,0` being the top-left corner.
    #[verifier::external_body]
    pub fn cursor_position(&self) -> (r: (u16, u16))
        ensures
            r == model_cursor(*self),
    {
        self.parser.screen().cursor_position()
    }

    /// Relies on `vt100::Screen::hide_cursor`: whether the application asked
    /// for the cursor to be hidden.
    #[verifier::external_body]
    pub fn cursor_hidden(&self) -> (r: bool)
        ensures
            r == model_cursor_hidden(*self),
    {
        self.parser.screen().hide_cursor()
    }

    /// Relies on `vt100::Screen::alternate_screen`: whether the alternate
    /// (full-screen application) buffer is currently in use.
    #[verifier::external_body]
    pub fn alternate_screen(&self) -> (r: bool)
        ensures
            r == model_alternate(*self),
    {
        self.parser.screen().alternate_screen()
    }
}

} // verus!

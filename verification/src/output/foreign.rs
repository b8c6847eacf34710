//! The flat, ecosystem-neutral shape of a screen snapshot, intended for
//! serialization and schema publication by non-native consumers.
//!
//! Only the visible screen can be flattened; converting a scrollback
//! snapshot fails, by design, until scrollback diffing and conversion are
//! implemented.

use vstd::prelude::*;

use crate::errors::ShadowTerminalError;
use crate::output::native;

verus! {

/// The parent type for all flattened output.
#[derive(Debug, Clone, PartialEq)]
pub struct Output {
    /// The shadow terminal's width.
    pub width: usize,
    /// The shadow terminal's height.
    pub height: usize,
    /// A flat, row-major array of all the cells of the screen.
    pub cells: Vec<Cell>,
    /// The shadow terminal's cursor state.
    pub cursor: Cursor,
    /// The title of the terminal.
    pub title: String,
    /// Whether the terminal is in the primary (scrolling) mode or the
    /// alternate mode.
    pub mode: native::ScreenMode,
}

/// An individual cell in the flattened screen.
#[derive(Debug, Clone, PartialEq)]
pub struct Cell {
    /// The text contents of the cell.
    pub text: String,
    /// The foreground colour of the cell.
    pub foreground: native::CellColor,
    /// The background colour of the cell.
    pub background: native::CellColor,
}

/// The cursor state of the flattened screen.
#[derive(Debug, Clone, Copy, PartialEq)]
pub struct Cursor {
    /// Position of the cursor as `(column, row)`, 0-indexed; `0,0` is the
    /// top-left corner.
    pub position: (usize, usize),
    /// The shape of the cursor.
    pub shape: Option<native::CursorShape>,
    /// Whether the cursor is visible or hidden.
    pub visibility: native::CursorVisibility,
}

impl Output {
    /// Convert native output to a structure more suitable for non-native
    /// consumers.
    ///
    /// A screen snapshot is flattened faithfully: dimensions, every cell in
    /// row-major order with its text and colours, cursor, title and mode.
    /// A scrollback snapshot always fails with the not-implemented error,
    /// whatever it holds.
    pub fn convert_to_foreign(surface: native::CompleteSurface) -> (r: Result<
        Output,
        ShadowTerminalError,
    >)
        ensures
            surface is Scrollback <==> r is Err,
            r matches Err(e) ==> e is NotImplemented,
            surface matches native::CompleteSurface::Screen(s) ==> (r matches Ok(o) && {
                &&& o.width == s.width
                &&& o.height == s.height
                &&& o.cells@.len() == s@.cells.len()
                &&& forall|i: int|
                    0 <= i < o.cells@.len() ==> {
                        &&& (#[trigger] o.cells@[i]).text@ == s@.cells[i].text
                        &&& o.cells@[i].foreground == s@.cells[i].foreground
                        &&& o.cells@[i].background == s@.cells[i].background
                    }
                &&& o.cursor.position.0 == s@.cursor.col
                &&& o.cursor.position.1 == s@.cursor.row
                &&& o.cursor.shape == Some(s@.cursor.shape)
                &&& o.cursor.visibility == s@.cursor.visibility
                &&& o.title@ == s@.title
                &&& o.mode == s@.mode
            }),
    {
        let screen = match surface {
            native::CompleteSurface::Screen(screen) => screen,
            native::CompleteSurface::Scrollback(_) => {
                return Err(ShadowTerminalError::NotImplemented);
            },
        };
        let mut cells: Vec<Cell> = Vec::new();
        let mut i: usize = 0;
        while i < screen.cells.len()
            invariant
                i <= screen.cells@.len(),
                cells@.len() == i,
                forall|j: int|
                    0 <= j < i ==> {
                        &&& (#[trigger] cells@[j]).text@ == screen@.cells[j].text
                        &&& cells@[j].foreground == screen@.cells[j].foreground
                        &&& cells@[j].background == screen@.cells[j].background
                    },
            decreases screen.cells@.len() - i,
        {
            let c = &screen.cells[i];
            cells.push(
                Cell {
                    text: c.text.clone(),
                    foreground: c.foreground,
                    background: c.background,
                },
            );
            i = i + 1;
        }
        Ok(
            Output {
                width: screen.width,
                height: screen.height,
                cells,
                cursor: Cursor {
                    position: (screen.cursor.col, screen.cursor.row),
                    shape: Some(screen.cursor.shape),
                    visibility: screen.cursor.visibility,
                },
                title: screen.title.clone(),
                mode: screen.mode,
            },
        )
    }
}

} // verus!

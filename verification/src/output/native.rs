//! The native, in-memory shape of everything the shadow terminal publishes:
//! styled cells, whole-surface snapshots and incremental change-sets.

use vstd::prelude::*;

verus! {

/// Whether the terminal is in the primary (scrolling) mode or the alternate
/// (full-screen application) mode.
#[derive(Debug, Clone, Copy, PartialEq, Eq, Structural)]
pub enum ScreenMode {
    /// The normal scrolling screen.
    Primary,
    /// The alternate, full-screen buffer.
    Alternate,
}

/// The colour of a cell's foreground or background.
#[derive(Debug, Clone, Copy, PartialEq, Eq, Structural)]
pub enum CellColor {
    /// The default foreground or background colour of the terminal.
    Default,
    /// A colour from the terminal's 256-colour palette.
    PaletteIndex(u8),
    /// A true colour given by its red, green and blue components.
    TrueColor(u8, u8, u8),
}

/// The shape of the cursor.
#[derive(Debug, Clone, Copy, PartialEq, Eq, Structural)]
pub enum CursorShape {
    /// The terminal's default cursor shape.
    Default,
    /// A filled block.
    Block,
    /// An underline.
    Underline,
    /// A vertical bar.
    Bar,
}

/// Whether the cursor is visible or hidden.
#[derive(Debug, Clone, Copy, PartialEq, Eq, Structural)]
pub enum CursorVisibility {
    /// The cursor is shown.
    Visible,
    /// The cursor is hidden.
    Hidden,
}

/// The full cursor state of a surface. `0,0` is the top-left corner.
#[derive(Debug, Clone, Copy, PartialEq, Eq, Structural)]
pub struct Cursor {
    /// The column of the cursor.
    pub col: usize,
    /// The row of the cursor.
    pub row: usize,
    /// The shape of the cursor.
    pub shape: CursorShape,
    /// Whether the cursor is visible or hidden.
    pub visibility: CursorVisibility,
}

/// The mathematical value of a [`Cell`]: its text as a sequence of
/// characters together with its colours and style attributes.
#[verifier::ext_equal]
pub struct CellView {
    /// The text of the cell.
    pub text: Seq<char>,
    /// The foreground colour.
    pub foreground: CellColor,
    /// The background colour.
    pub background: CellColor,
    /// Bold style.
    pub bold: bool,
    /// Dim style.
    pub dim: bool,
    /// Italic style.
    pub italic: bool,
    /// Underline style.
    pub underline: bool,
    /// Inverse-video style.
    pub inverse: bool,
}

impl CellView {
    /// The value of a cell that nothing has been written to.
    pub open spec fn blank() -> CellView {
        CellView {
            text: Seq::empty(),
            foreground: CellColor::Default,
            background: CellColor::Default,
            bold: false,
            dim: false,
            italic: false,
            underline: false,
            inverse: false,
        }
    }
}

/// An individual cell of a surface: one grapheme with its colours and style.
#[derive(Debug, Clone, PartialEq)]
pub struct Cell {
    /// The text contents of the cell. Empty when nothing was written to it.
    pub text: String,
    /// The foreground colour of the cell.
    pub foreground: CellColor,
    /// The background colour of the cell.
    pub background: CellColor,
    /// Bold style.
    pub bold: bool,
    /// Dim style.
    pub dim: bool,
    /// Italic style.
    pub italic: bool,
    /// Underline style.
    pub underline: bool,
    /// Inverse-video style.
    pub inverse: bool,
}

impl View for Cell {
    type V = CellView;

    open spec fn view(&self) -> CellView {
        CellView {
            text: self.text@,
            foreground: self.foreground,
            background: self.background,
            bold: self.bold,
            dim: self.dim,
            italic: self.italic,
            underline: self.underline,
            inverse: self.inverse,
        }
    }
}

impl Cell {
    /// A cell that nothing has been written to.
    pub fn blank() -> (r: Cell)
        ensures
            r@ == CellView::blank(),
    {
        let r = Cell {
            text: String::new(),
            foreground: CellColor::Default,
            background: CellColor::Default,
            bold: false,
            dim: false,
            italic: false,
            underline: false,
            inverse: false,
        };
        proof {
            assert(r@ =~= CellView::blank());
        }
        r
    }

    /// A deep copy whose value is the same.
    pub fn duplicate(&self) -> (r: Cell)
        ensures
            r@ == self@,
    {
        let r = Cell {
            text: self.text.clone(),
            foreground: self.foreground,
            background: self.background,
            bold: self.bold,
            dim: self.dim,
            italic: self.italic,
            underline: self.underline,
            inverse: self.inverse,
        };
        proof {
            assert(r@ =~= self@);
        }
        r
    }

    /// Whether two cells hold the same text, colours and style.
    pub fn same_as(&self, other: &Cell) -> (r: bool)
        ensures
            r == (self@ == other@),
    {
        let r = self.text == other.text && self.foreground == other.foreground
            && self.background == other.background && self.bold == other.bold
            && self.dim == other.dim && self.italic == other.italic
            && self.underline == other.underline && self.inverse == other.inverse;
        proof {
            if r {
                assert(self@ =~= other@);
            }
        }
        r
    }
}

/// The values of a sequence of cells.
pub open spec fn cell_views(s: Seq<Cell>) -> Seq<CellView> {
    Seq::new(s.len(), |i: int| s[i]@)
}

/// A deep copy of a vector of cells, value for value.
pub fn duplicate_cells(v: &Vec<Cell>) -> (r: Vec<Cell>)
    ensures
        cell_views(r@) == cell_views(v@),
{
    let mut r: Vec<Cell> = Vec::new();
    let mut i: usize = 0;
    while i < v.len()
        invariant
            i <= v@.len(),
            r@.len() == i,
            forall|j: int| 0 <= j < i ==> r@[j]@ == v@[j]@,
        decreases v@.len() - i,
    {
        r.push(v[i].duplicate());
        i = i + 1;
    }
    proof {
        assert(cell_views(r@) =~= cell_views(v@));
    }
    r
}

/// The mathematical value of a [`CompleteScreen`].
#[verifier::ext_equal]
pub struct ScreenView {
    /// The width of the grid.
    pub width: nat,
    /// The height of the grid.
    pub height: nat,
    /// The cells of the grid in row-major order, one row after the other.
    pub cells: Seq<CellView>,
    /// The cursor state.
    pub cursor: Cursor,
    /// The title of the terminal.
    pub title: Seq<char>,
    /// The active screen mode.
    pub mode: ScreenMode,
}

/// A full snapshot of the visible screen at one instant.
#[derive(Debug, Clone, PartialEq)]
pub struct CompleteScreen {
    /// The width of the grid.
    pub width: usize,
    /// The height of the grid.
    pub height: usize,
    /// The cells of the grid in row-major order, one row after the other.
    pub cells: Vec<Cell>,
    /// The cursor state.
    pub cursor: Cursor,
    /// The title of the terminal.
    pub title: String,
    /// The active screen mode.
    pub mode: ScreenMode,
}

impl View for CompleteScreen {
    type V = ScreenView;

    open spec fn view(&self) -> ScreenView {
        ScreenView {
            width: self.width as nat,
            height: self.height as nat,
            cells: cell_views(self.cells@),
            cursor: self.cursor,
            title: self.title@,
            mode: self.mode,
        }
    }
}

/// The largest width or height a screen can have.
pub const MAX_DIMENSION: usize = 65535;

impl CompleteScreen {
    /// A well-formed screen has positive, bounded dimensions, exactly
    /// `width * height` cells and a cursor inside the grid.
    pub open spec fn wf(&self) -> bool {
        &&& 0 < self@.width <= MAX_DIMENSION
        &&& 0 < self@.height <= MAX_DIMENSION
        &&& self@.cells.len() == self@.width * self@.height
        &&& self@.cursor.col < self@.width
        &&& self@.cursor.row < self@.height
    }

    /// A blank screen of the given dimensions: every cell empty, the cursor
    /// in the top-left corner, no title, primary mode.
    pub fn new(width: usize, height: usize) -> (r: CompleteScreen)
        requires
            0 < width <= MAX_DIMENSION,
            0 < height <= MAX_DIMENSION,
        ensures
            r.wf(),
            r@.width == width,
            r@.height == height,
            forall|i: int| 0 <= i < r@.cells.len() ==> r@.cells[i] == CellView::blank(),
            r@.cursor == (Cursor {
                col: 0,
                row: 0,
                shape: CursorShape::Default,
                visibility: CursorVisibility::Visible,
            }),
            r@.title == Seq::<char>::empty(),
            r@.mode == ScreenMode::Primary,
    {
        proof {
            assert(width * height <= MAX_DIMENSION * MAX_DIMENSION) by (nonlinear_arith)
                requires
                    0 < width <= MAX_DIMENSION,
                    0 < height <= MAX_DIMENSION,
            ;
        }
        let total: usize = width * height;
        let mut cells: Vec<Cell> = Vec::new();
        let mut i: usize = 0;
        while i < total
            invariant
                i <= total,
                cells@.len() == i,
                forall|j: int| 0 <= j < i ==> cells@[j]@ == CellView::blank(),
            decreases total - i,
        {
            cells.push(Cell::blank());
            i = i + 1;
        }
        CompleteScreen {
            width,
            height,
            cells,
            cursor: Cursor {
                col: 0,
                row: 0,
                shape: CursorShape::Default,
                visibility: CursorVisibility::Visible,
            },
            title: String::new(),
            mode: ScreenMode::Primary,
        }
    }

    /// A deep copy whose value is the same.
    pub fn duplicate(&self) -> (r: CompleteScreen)
        ensures
            r@ == self@,
    {
        let r = CompleteScreen {
            width: self.width,
            height: self.height,
            cells: duplicate_cells(&self.cells),
            cursor: self.cursor,
            title: self.title.clone(),
            mode: self.mode,
        };
        proof {
            assert(r@ =~= self@);
        }
        r
    }
}

/// A full snapshot of the scrollback: the rows that have been evicted from
/// the visible grid, oldest first.
#[derive(Debug, Clone, PartialEq)]
pub struct CompleteScrollback {
    /// The evicted rows, each a row of cells, oldest first.
    pub rows: Vec<Vec<Cell>>,
    /// The screen mode at the time of the snapshot.
    pub mode: ScreenMode,
}

impl CompleteScrollback {
    /// The values of the rows.
    pub open spec fn rows_view(&self) -> Seq<Seq<CellView>> {
        Seq::new(self.rows@.len(), |i: int| cell_views(self.rows@[i]@))
    }
}

/// A full value of either surface at one instant, tagged by kind.
#[derive(Debug, Clone, PartialEq)]
pub enum CompleteSurface {
    /// The visible screen.
    Screen(CompleteScreen),
    /// The scrollback history.
    Scrollback(CompleteScrollback),
}

/// The mathematical value of a [`CellChange`].
#[verifier::ext_equal]
pub struct ChangeView {
    /// The row-major index of the changed cell.
    pub index: int,
    /// The new value of the cell.
    pub cell: CellView,
}

/// One changed cell inside a [`ScreenDiff`], addressed by its row-major
/// index into the grid.
#[derive(Debug, Clone, PartialEq)]
pub struct CellChange {
    /// The row-major index of the changed cell.
    pub index: usize,
    /// The new value of the cell.
    pub cell: Cell,
}

impl View for CellChange {
    type V = ChangeView;

    open spec fn view(&self) -> ChangeView {
        ChangeView { index: self.index as int, cell: self.cell@ }
    }
}

/// The values of a sequence of cell changes.
pub open spec fn change_views(s: Seq<CellChange>) -> Seq<ChangeView> {
    Seq::new(s.len(), |i: int| s[i]@)
}

/// A change-set relative to the previously emitted screen: the cells that
/// differ, in row-major order, plus the cursor, title and mode valid at diff
/// time.
#[derive(Debug, Clone, PartialEq)]
pub struct ScreenDiff {
    /// The changed cells, ordered by strictly increasing row-major index.
    pub changes: Vec<CellChange>,
    /// The cursor state at diff time.
    pub cursor: Cursor,
    /// The title at diff time.
    pub title: String,
    /// The screen mode at diff time.
    pub mode: ScreenMode,
}

/// A change-set relative to the previously emitted surface of the same kind.
#[derive(Debug, Clone, PartialEq)]
#[non_exhaustive]
pub enum SurfaceDiff {
    /// A change-set of the visible screen.
    Screen(ScreenDiff),
}

/// One emission of the engine: either a full snapshot or a change-set.
#[derive(Debug, Clone, PartialEq)]
pub enum Output {
    /// A full snapshot of a surface.
    Complete(CompleteSurface),
    /// A change-set against the previous emission of the same surface kind.
    Diff(SurfaceDiff),
}

} // verus!

//! Tests of the output shapes: the diff engine, the flattening boundary and
//! the error taxonomy.

use shadow_terminal::errors::ShadowTerminalError;
use shadow_terminal::output::diff::{apply_screen_diff, diff_screens, DiffEngine};
use shadow_terminal::output::foreign;
use shadow_terminal::output::native::{
    Cell, CellColor, CompleteScreen, CompleteScrollback, CompleteSurface, Output, ScreenMode,
    SurfaceDiff,
};
use shadow_terminal::OutputFormat;

fn lettered_screen(width: usize, height: usize, letter: &str, at: usize) -> CompleteScreen {
    let mut screen = CompleteScreen::new(width, height);
    screen.cells[at].text = letter.to_owned();
    screen
}

#[test]
fn blank_screen_is_blank() {
    let screen = CompleteScreen::new(3, 2);
    assert_eq!(screen.width, 3);
    assert_eq!(screen.height, 2);
    assert_eq!(screen.cells.len(), 6);
    for cell in &screen.cells {
        assert_eq!(cell.text, "".to_owned());
        assert_eq!(cell.foreground, CellColor::Default);
        assert_eq!(cell.background, CellColor::Default);
        assert!(!cell.bold && !cell.dim && !cell.italic && !cell.underline && !cell.inverse);
    }
    assert_eq!(screen.cursor.col, 0);
    assert_eq!(screen.cursor.row, 0);
    assert_eq!(screen.title, "".to_owned());
    assert_eq!(screen.mode, ScreenMode::Primary);
}

#[test]
fn engine_emits_complete_then_diff() {
    let mut engine = DiffEngine::new();
    let first = lettered_screen(4, 2, "a", 0);
    match engine.observe_screen(first.clone()) {
        Output::Complete(CompleteSurface::Screen(s)) => assert_eq!(s, first),
        other => panic!("the first emission must be complete, got {other:?}"),
    }
    let second = lettered_screen(4, 2, "b", 5);
    match engine.observe_screen(second.clone()) {
        Output::Diff(SurfaceDiff::Screen(d)) => {
            assert_eq!(d.changes.len(), 2);
            assert_eq!(d.changes[0].index, 0);
            assert_eq!(d.changes[0].cell.text, "".to_owned());
            assert_eq!(d.changes[1].index, 5);
            assert_eq!(d.changes[1].cell.text, "b".to_owned());
            assert_eq!(apply_screen_diff(&first, &d), second);
        }
        other => panic!("the second emission must be a diff, got {other:?}"),
    }
}

#[test]
fn engine_re_baselines_on_new_dimensions() {
    let mut engine = DiffEngine::new();
    let first = lettered_screen(4, 2, "a", 0);
    let _ = engine.observe_screen(first);
    let other_size = lettered_screen(5, 2, "a", 0);
    assert!(matches!(
        engine.observe_screen(other_size),
        Output::Complete(CompleteSurface::Screen(_))
    ));
}

#[test]
fn identical_screens_diff_to_nothing() {
    let a = lettered_screen(4, 3, "q", 7);
    let b = lettered_screen(4, 3, "q", 7);
    let d = diff_screens(&a, &b);
    assert!(d.changes.is_empty());
    assert_eq!(apply_screen_diff(&a, &d), b);
}

#[test]
fn diff_round_trip_on_styled_cells() {
    let a = lettered_screen(4, 3, "q", 7);
    let mut b = lettered_screen(4, 3, "q", 7);
    b.cells[2] = Cell {
        text: "Z".to_owned(),
        foreground: CellColor::PaletteIndex(1),
        background: CellColor::TrueColor(10, 20, 30),
        bold: true,
        dim: false,
        italic: true,
        underline: false,
        inverse: true,
    };
    b.cells[11].foreground = CellColor::PaletteIndex(4);
    let d = diff_screens(&a, &b);
    assert_eq!(d.changes.len(), 2);
    assert_eq!(d.changes[0].index, 2);
    assert_eq!(d.changes[1].index, 11);
    assert_eq!(apply_screen_diff(&a, &d), b);
}

#[test]
fn screens_flatten_faithfully() {
    let mut screen = CompleteScreen::new(2, 2);
    screen.cells[1].text = "x".to_owned();
    screen.cells[1].foreground = CellColor::PaletteIndex(3);
    screen.cells[2].background = CellColor::TrueColor(1, 2, 3);
    let flat = foreign::Output::convert_to_foreign(CompleteSurface::Screen(screen))
        .expect("screens can be flattened");
    assert_eq!(flat.width, 2);
    assert_eq!(flat.height, 2);
    assert_eq!(flat.cells.len(), 4);
    assert_eq!(flat.cells[1].text, "x".to_owned());
    assert_eq!(flat.cells[1].foreground, CellColor::PaletteIndex(3));
    assert_eq!(flat.cells[2].background, CellColor::TrueColor(1, 2, 3));
    assert_eq!(flat.cursor.position, (0, 0));
    assert_eq!(flat.mode, ScreenMode::Primary);
}

#[test]
fn scrollback_never_flattens() {
    let empty = CompleteScrollback { rows: Vec::new(), mode: ScreenMode::Primary };
    assert_eq!(
        foreign::Output::convert_to_foreign(CompleteSurface::Scrollback(empty)),
        Err(ShadowTerminalError::NotImplemented)
    );

    let filled = CompleteScrollback {
        rows: vec![vec![Cell {
            text: "h".to_owned(),
            foreground: CellColor::Default,
            background: CellColor::Default,
            bold: false,
            dim: false,
            italic: false,
            underline: false,
            inverse: false,
        }]],
        mode: ScreenMode::Alternate,
    };
    assert_eq!(
        foreign::Output::convert_to_foreign(CompleteSurface::Scrollback(filled)),
        Err(ShadowTerminalError::NotImplemented)
    );
}

#[test]
fn error_messages_name_their_cause() {
    assert_eq!(
        ShadowTerminalError::NotImplemented.message(),
        "converting the scrollback has not been implemented yet"
    );
    assert_eq!(
        ShadowTerminalError::Spawn.message(),
        "the child process could not be spawned"
    );
    assert_eq!(
        ShadowTerminalError::Io.message(),
        "the pty could not be read or written"
    );
    assert_eq!(
        ShadowTerminalError::ChannelClosed.message(),
        "a channel to the shadow terminal was closed"
    );
}

#[test]
fn output_format_defaults_to_json() {
    assert_eq!(OutputFormat::default(), OutputFormat::JSON);
    assert_ne!(OutputFormat::Plain, OutputFormat::JSON);
}

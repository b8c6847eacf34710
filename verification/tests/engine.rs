//! End-to-end tests of the synchronous shadow terminal core.

use shadow_terminal::output::diff::apply_screen_diff;
use shadow_terminal::output::foreign;
use shadow_terminal::output::native::{
    CompleteSurface, Output, ScreenMode, SurfaceDiff,
};
use shadow_terminal::shadow_terminal::{Config, ShadowTerminal, State};
use shadow_terminal::{Protocol, Scroll};

fn config(width: u16, height: u16) -> Config {
    Config {
        width,
        height,
        scrollback_size: 100,
        command: vec!["cat".to_owned(), "cat_me.txt".to_owned()],
    }
}

fn complete_screen(output: Output) -> shadow_terminal::output::native::CompleteScreen {
    match output {
        Output::Complete(CompleteSurface::Screen(screen)) => screen,
        other => panic!("expected a complete screen, got {other:?}"),
    }
}

fn screen_diff(output: Output) -> shadow_terminal::output::native::ScreenDiff {
    match output {
        Output::Diff(SurfaceDiff::Screen(diff)) => diff,
        other => panic!("expected a screen diff, got {other:?}"),
    }
}

#[test]
fn step_without_bytes_emits_nothing() {
    let mut terminal = ShadowTerminal::start(&config(80, 10));
    for _ in 0..5 {
        assert!(terminal.step(&[]).is_none());
    }
}

#[test]
fn step_without_bytes_emits_nothing_after_output() {
    let mut terminal = ShadowTerminal::start(&config(80, 10));
    assert!(terminal.step(b"hello").is_some());
    assert!(terminal.step(&[]).is_none());
    assert!(terminal.step(&[]).is_none());
}

#[test]
fn first_output_is_complete() {
    let mut terminal = ShadowTerminal::start(&config(80, 10));
    let output = terminal.step(b"hello").expect("bytes were consumed");
    assert!(matches!(
        output,
        Output::Complete(CompleteSurface::Screen(_))
    ));
}

#[test]
fn cat_earth_scenario() {
    // The byte stream a `cat` of a file containing "earth" produces through
    // a pty: the line plus the cooked line ending.
    let mut terminal = ShadowTerminal::start(&config(80, 10));
    let output = terminal.step(b"earth\r\n").expect("bytes were consumed");
    let screen = complete_screen(output);
    let flat = foreign::Output::convert_to_foreign(CompleteSurface::Screen(screen))
        .expect("screens can be flattened");
    assert_eq!(flat.width, 80);
    assert_eq!(flat.height, 10);
    assert_eq!(flat.cells.len(), 800);
    assert_eq!(flat.cells[0].text, "e".to_owned());
    assert_eq!(flat.cells[1].text, "a".to_owned());
    assert_eq!(flat.cells[4].text, "h".to_owned());
    assert_eq!(flat.cursor.position, (0, 1));
    assert_eq!(
        flat.cursor.shape,
        Some(shadow_terminal::output::native::CursorShape::Default)
    );
    assert_eq!(
        flat.cursor.visibility,
        shadow_terminal::output::native::CursorVisibility::Visible
    );
    assert_eq!(flat.mode, ScreenMode::Primary);
}

#[test]
fn diffs_reconstruct_the_screen() {
    let mut terminal = ShadowTerminal::start(&config(20, 4));
    let first = complete_screen(terminal.step(b"ab").expect("first emission"));
    let diff = screen_diff(terminal.step(b"cd").expect("second emission"));
    let reconstructed = apply_screen_diff(&first, &diff);
    assert_eq!(reconstructed, terminal.screen_snapshot());

    let diff = screen_diff(terminal.step(b"\x1b[31me").expect("third emission"));
    let reconstructed = apply_screen_diff(&reconstructed, &diff);
    assert_eq!(reconstructed, terminal.screen_snapshot());
}

#[test]
fn diff_lists_only_changed_cells_in_order() {
    let mut terminal = ShadowTerminal::start(&config(10, 2));
    let _ = terminal.step(b"ab").expect("first emission");
    let diff = screen_diff(terminal.step(b"XY").expect("second emission"));
    // "ab" then "XY" overwrites columns 2 and 3 of the first row.
    assert_eq!(diff.changes.len(), 2);
    assert_eq!(diff.changes[0].index, 2);
    assert_eq!(diff.changes[0].cell.text, "X".to_owned());
    assert_eq!(diff.changes[1].index, 3);
    assert_eq!(diff.changes[1].cell.text, "Y".to_owned());
}

#[test]
fn resize_yields_complete_with_requested_dimensions() {
    let mut terminal = ShadowTerminal::start(&config(80, 10));
    let _ = terminal.step(b"hello").expect("first emission");
    let output = terminal
        .handle(&Protocol::Resize { width: 40, height: 5 })
        .expect("an accepted resize answers");
    let screen = complete_screen(output);
    assert_eq!(screen.width, 40);
    assert_eq!(screen.height, 5);
    assert_eq!(screen.cells.len(), 200);
}

#[test]
fn observation_after_resize_is_a_diff() {
    let mut terminal = ShadowTerminal::start(&config(80, 10));
    let _ = terminal.step(b"hello").expect("first emission");
    let resized = terminal
        .handle(&Protocol::Resize { width: 40, height: 5 })
        .expect("an accepted resize answers");
    assert!(matches!(
        resized,
        Output::Complete(CompleteSurface::Screen(_))
    ));
    let next = terminal.step(b"more").expect("bytes were consumed");
    assert!(matches!(next, Output::Diff(SurfaceDiff::Screen(_))));
}

#[test]
fn rejected_resize_changes_nothing() {
    let mut terminal = ShadowTerminal::start(&config(80, 10));
    let before = terminal.screen_snapshot();
    assert!(terminal
        .handle(&Protocol::Resize { width: 0, height: 5 })
        .is_none());
    assert_eq!(terminal.width, 80);
    assert_eq!(terminal.height, 10);
    assert_eq!(before, terminal.screen_snapshot());
}

#[test]
fn scroll_cancel_restores_the_screen() {
    let mut terminal = ShadowTerminal::start(&config(10, 3));
    // Push enough lines that some scroll into the scrollback.
    let mut bytes = Vec::new();
    for line in 0..8 {
        bytes.extend_from_slice(format!("line {line}\r\n").as_bytes());
    }
    let _ = terminal.step(&bytes).expect("bytes were consumed");
    let before = terminal.screen_snapshot();

    let up = terminal
        .handle(&Protocol::Scroll(Scroll::Up))
        .expect("scrolling answers a snapshot");
    assert!(matches!(up, Output::Complete(CompleteSurface::Screen(_))));
    assert_eq!(terminal.scroll_offset, 1);

    let cancelled = terminal
        .handle(&Protocol::Scroll(Scroll::Cancel))
        .expect("cancel answers a snapshot");
    assert_eq!(terminal.scroll_offset, 0);
    assert_eq!(complete_screen(cancelled), before);
    assert_eq!(terminal.screen_snapshot(), before);
}

#[test]
fn scroll_up_shows_scrollback_content() {
    let mut terminal = ShadowTerminal::start(&config(10, 3));
    let mut bytes = Vec::new();
    for line in 0..6 {
        bytes.extend_from_slice(format!("line {line}\r\n").as_bytes());
    }
    let _ = terminal.step(&bytes).expect("bytes were consumed");
    let up = complete_screen(
        terminal
            .handle(&Protocol::Scroll(Scroll::Up))
            .expect("scrolling answers"),
    );
    let live = terminal.screen_snapshot();
    // The scrolled view is shifted one row up relative to the live screen.
    assert_eq!(up.cells[10..20], live.cells[0..10]);
}

#[test]
fn scroll_down_is_bounded_at_zero() {
    let mut terminal = ShadowTerminal::start(&config(10, 3));
    let _ = terminal.step(b"hello").expect("bytes were consumed");
    let before = terminal.screen_snapshot();
    let down = terminal
        .handle(&Protocol::Scroll(Scroll::Down))
        .expect("scrolling answers");
    assert_eq!(terminal.scroll_offset, 0);
    assert_eq!(complete_screen(down), before);
}

#[test]
fn scroll_up_without_scrollback_stays_at_zero() {
    let mut terminal = ShadowTerminal::start(&config(10, 3));
    let _ = terminal.handle(&Protocol::Scroll(Scroll::Up));
    assert_eq!(terminal.scroll_offset, 0);
}

#[test]
fn end_is_terminal_and_idempotent() {
    let mut terminal = ShadowTerminal::start(&config(80, 10));
    assert!(terminal.handle(&Protocol::End).is_none());
    assert!(matches!(terminal.state, State::Ended));
    assert!(terminal.step(b"bytes after the end").is_none());
    assert!(terminal
        .handle(&Protocol::Resize { width: 40, height: 5 })
        .is_none());
    assert!(terminal.handle(&Protocol::Scroll(Scroll::Up)).is_none());
    assert!(terminal.handle(&Protocol::End).is_none());
    assert!(matches!(terminal.state, State::Ended));
}

#[test]
fn alternate_screen_mode_is_reported() {
    let mut terminal = ShadowTerminal::start(&config(20, 5));
    let first = complete_screen(terminal.step(b"hello").expect("first emission"));
    assert_eq!(first.mode, ScreenMode::Primary);
    // Enter the alternate screen, as full-screen applications do.
    let diff = screen_diff(terminal.step(b"\x1b[?1049h").expect("second emission"));
    assert_eq!(diff.mode, ScreenMode::Alternate);
}

#[test]
fn default_config_is_usable() {
    let config = Config::default();
    assert_eq!(config.width, 80);
    assert_eq!(config.height, 24);
    assert_eq!(config.scrollback_size, 1000);
    assert!(config.command.is_empty());
}

#[test]
fn osc_sequences_set_the_title() {
    let mut terminal = ShadowTerminal::start(&config(20, 5));
    let screen = complete_screen(
        terminal
            .step(b"\x1b]2;my title\x07hello")
            .expect("bytes were consumed"),
    );
    assert_eq!(screen.title, "my title".to_owned());
    assert_eq!(screen.cells[0].text, "h".to_owned());

    // The string-terminator form, with the icon-name-and-title prefix.
    let diff = screen_diff(
        terminal
            .step(b"\x1b]0;another\x1b\\!")
            .expect("bytes were consumed"),
    );
    assert_eq!(diff.title, "another".to_owned());
}

#[test]
fn title_survives_split_feeds_and_foreign_commands() {
    let mut terminal = ShadowTerminal::start(&config(20, 5));
    let first = complete_screen(terminal.step(b"\x1b]2;he").expect("bytes were consumed"));
    assert_eq!(first.title, "".to_owned());
    let diff = screen_diff(terminal.step(b"llo\x07").expect("bytes were consumed"));
    assert_eq!(diff.title, "hello".to_owned());

    // An operating-system command that does not set the title leaves it be.
    let unrelated = screen_diff(
        terminal
            .step(b"\x1b]52;c;aGk=\x07")
            .expect("bytes were consumed"),
    );
    assert_eq!(unrelated.title, "hello".to_owned());
}

#[test]
fn scrollback_snapshot_walks_the_evicted_rows() {
    let mut terminal = ShadowTerminal::start(&config(10, 3));
    let mut bytes = Vec::new();
    for line in 0..8 {
        bytes.extend_from_slice(format!("line {line}\r\n").as_bytes());
    }
    let _ = terminal.step(&bytes).expect("bytes were consumed");
    let snapshot = terminal
        .handle(&Protocol::End)
        .map(|_| ())
        .map_or_else(|| terminal.snapshot_scrollback(), |()| None);
    assert!(snapshot.is_none(), "an ended session answers nothing");

    let mut terminal = ShadowTerminal::start(&config(10, 3));
    let _ = terminal.step(&bytes).expect("bytes were consumed");
    let output = terminal
        .snapshot_scrollback()
        .expect("a running session answers");
    let scrollback = match output {
        Output::Complete(CompleteSurface::Scrollback(scrollback)) => scrollback,
        other => panic!("scrollback is always emitted whole, got {other:?}"),
    };
    // Eight lines plus the final line feed leave three rows visible and six
    // in the scrollback, oldest first.
    assert_eq!(scrollback.rows.len(), 6);
    for row in &scrollback.rows {
        assert_eq!(row.len(), 10);
    }
    assert_eq!(scrollback.rows[0][0].text, "l".to_owned());
    assert_eq!(scrollback.rows[0][5].text, "0".to_owned());
    assert_eq!(scrollback.rows[5][5].text, "5".to_owned());
    assert_eq!(scrollback.mode, ScreenMode::Primary);
    // The live screen is back in view and untouched.
    assert_eq!(terminal.scroll_offset, 0);
}

//! An end-to-end test against a real child process behind a real
//! pseudo-terminal: the engine consumes exactly what the pty hands back.

use std::io::Read;

use shadow_terminal::output::foreign;
use shadow_terminal::output::native::{CompleteSurface, Output, ScreenMode};
use shadow_terminal::shadow_terminal::{Config, ShadowTerminal};

#[test]
fn live_child_process_fills_the_screen() {
    let pty_system = portable_pty::native_pty_system();
    let pair = pty_system
        .openpty(portable_pty::PtySize { rows: 10, cols: 80, pixel_width: 0, pixel_height: 0 })
        .expect("a pty pair can be allocated");
    let mut command = portable_pty::CommandBuilder::new("echo");
    command.arg("earth");
    let mut child = pair.slave.spawn_command(command).expect("echo can be spawned");
    // Close our copy of the slave side so that the reader sees end-of-file
    // once the child exits.
    drop(pair.slave);

    let mut reader = pair.master.try_clone_reader().expect("the pty can be read");
    let mut bytes = Vec::new();
    let mut buffer = [0u8; 4096];
    loop {
        match reader.read(&mut buffer) {
            Ok(0) | Err(_) => break,
            Ok(size) => bytes.extend_from_slice(&buffer[..size]),
        }
    }
    let _ = child.wait();

    let config = Config {
        width: 80,
        height: 10,
        scrollback_size: 100,
        command: vec!["echo".to_owned(), "earth".to_owned()],
    };
    let mut terminal = ShadowTerminal::start(&config);
    let output = terminal.step(&bytes).expect("the child wrote something");
    let screen = match output {
        Output::Complete(CompleteSurface::Screen(screen)) => screen,
        other => panic!("the first emission must be a complete screen, got {other:?}"),
    };
    let flat = foreign::Output::convert_to_foreign(CompleteSurface::Screen(screen))
        .expect("screens can be flattened");
    assert_eq!(flat.width, 80);
    assert_eq!(flat.height, 10);
    assert_eq!(flat.cells[0].text, "e".to_owned());
    assert_eq!(flat.cells[4].text, "h".to_owned());
    assert_eq!(flat.cursor.position, (0, 1));
    assert_eq!(flat.mode, ScreenMode::Primary);
}

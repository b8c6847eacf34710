//! A fully-rendered terminal kept purely in memory.
//!
//! The engine interprets the byte stream of a child process as terminal
//! control sequences and maintains an always-current model of the resulting
//! screen: cells, cursor, title, mode and bounded scrollback. Snapshots of
//! that model are published either whole ([`output::native::Output::Complete`])
//! or as incremental change-sets ([`output::native::Output::Diff`]) computed
//! by a verified diff engine.
//!
//! The synchronous core is [`shadow_terminal::ShadowTerminal`]: it owns the
//! terminal model and the diff engine and answers to the control protocol
//! ([`Protocol`]). Process plumbing (the pseudo-terminal, channels, tasks)
//! stays outside of this library; callers hand the core the bytes they read
//! and perform the pty actions themselves.

use vstd::prelude::*;

pub mod errors;
pub mod output;
pub mod shadow_terminal;
pub mod terminal_model;
pub mod title;

verus! {

/// All the control signals understood by the shadow terminal.
#[derive(Debug, Clone, PartialEq, Eq, Structural)]
pub enum Protocol {
    /// End the session to allow graceful shutdown.
    End,
    /// Resize the PTY and shadow terminal.
    Resize {
        /// Width of the shadow terminal.
        width: u16,
        /// Height of the shadow terminal.
        height: u16,
    },
    /// Scrolling of the terminal scrollback.
    Scroll(Scroll),
}

/// The various states of scrolling.
#[derive(Debug, Clone, PartialEq, Eq, Structural)]
pub enum Scroll {
    /// Scroll the terminal view up, further into the scrollback.
    Up,
    /// Scroll the terminal view down, back towards the live screen.
    Down,
    /// Exit the scroll, returning the terminal to how it was before scrolling
    /// started.
    Cancel,
}

/// The available options for how shadow terminal output is sent to STDOUT.
#[derive(Debug, Clone, PartialEq, Eq, Structural)]
pub enum OutputFormat {
    /// A rich and structured representation of all the cells' data.
    JSON,
    /// Just a plain, monochrome format useful for debugging.
    Plain,
}

impl Default for OutputFormat {
    /// The structured representation is the default.
    fn default() -> (r: Self)
        ensures
            r == OutputFormat::JSON,
    {
        OutputFormat::JSON
    }
}

} // verus!

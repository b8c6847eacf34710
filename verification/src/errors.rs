//! The error taxonomy of the shadow terminal.

use vstd::prelude::*;

verus! {

/// Everything that can go wrong around a shadow terminal session.
#[derive(Debug, Clone, PartialEq, Eq, Structural)]
pub enum ShadowTerminalError {
    /// The child process could not be started; fatal to engine construction.
    Spawn,
    /// A pty read or write failed after a successful start, typically because
    /// the child exited.
    Io,
    /// A consumer dropped the output receiver or the input sender; treated as
    /// an implicit end of the session.
    ChannelClosed,
    /// The requested operation is a documented limitation: diffing and
    /// conversion of scrollback surfaces.
    NotImplemented,
}

impl ShadowTerminalError {
    /// A human-readable description of the error.
    pub fn message(&self) -> (r: &'static str)
        ensures
            self is Spawn ==> r@ == "the child process could not be spawned"@,
            self is Io ==> r@ == "the pty could not be read or written"@,
            self is ChannelClosed ==> r@ == "a channel to the shadow terminal was closed"@,
            self is NotImplemented ==> r@ == "converting the scrollback has not been implemented yet"@,
    {
        match self {
            ShadowTerminalError::Spawn => "the child process could not be spawned",
            ShadowTerminalError::Io => "the pty could not be read or written",
            ShadowTerminalError::ChannelClosed => "a channel to the shadow terminal was closed",
            ShadowTerminalError::NotImplemented => "converting the scrollback has not been implemented yet",
        }
    }
}

} // verus!

//! A verified, incremental scanner for the terminal title.
//!
//! The VT capability behind the terminal model reports window titles only
//! through a callbacks interface that stays outside this library, so the
//! engine tracks the title itself: it watches the byte stream for the
//! operating-system-command sequences that set a title (`ESC ] 0 ;` or
//! `ESC ] 2 ;` up to a `BEL` or `ESC \` terminator) and keeps the text of
//! the last complete one. Title text is kept to printable ASCII; other
//! bytes inside a title are dropped.

use vstd::prelude::*;

verus! {

/// What the numeric prefix of an operating-system command has named so far.
#[derive(Debug, Clone, Copy, PartialEq, Eq, Structural)]
pub enum OscKind {
    /// No prefix byte yet.
    Empty,
    /// Exactly the digit `0`: icon name and window title.
    Zero,
    /// Exactly the digit `2`: window title.
    Two,
    /// Anything else: a command that does not set the title.
    Other,
}

impl OscKind {
    /// Whether a body that follows this prefix sets the title.
    pub open spec fn names_title(&self) -> bool {
        self is Zero || self is Two
    }
}

/// The mathematical value of a [`ScanState`].
#[verifier::ext_equal]
pub enum ScanStateView {
    /// Plain output.
    Ground,
    /// An escape byte was seen.
    Escape,
    /// Inside the numeric prefix of an operating-system command.
    OscParam { kind: OscKind },
    /// Inside the body of an operating-system command.
    Body { names_title: bool, text: Seq<char> },
    /// An escape byte was seen inside a body: a backslash now completes the
    /// string terminator, anything else abandons the command.
    BodyEscape { names_title: bool, text: Seq<char> },
}

/// Where the scanner stands within the byte stream.
#[derive(Debug, Clone, PartialEq)]
pub enum ScanState {
    /// Plain output.
    Ground,
    /// An escape byte was seen.
    Escape,
    /// Inside the numeric prefix of an operating-system command.
    OscParam {
        /// What the prefix has named so far.
        kind: OscKind,
    },
    /// Inside the body of an operating-system command.
    Body {
        /// Whether the prefix named a title-setting command.
        names_title: bool,
        /// The title text gathered so far.
        text: String,
    },
    /// An escape byte was seen inside a body.
    BodyEscape {
        /// Whether the prefix named a title-setting command.
        names_title: bool,
        /// The title text gathered so far.
        text: String,
    },
}

impl View for ScanState {
    type V = ScanStateView;

    open spec fn view(&self) -> ScanStateView {
        match self {
            ScanState::Ground => ScanStateView::Ground,
            ScanState::Escape => ScanStateView::Escape,
            ScanState::OscParam { kind } => ScanStateView::OscParam { kind: *kind },
            ScanState::Body { names_title, text } => ScanStateView::Body {
                names_title: *names_title,
                text: text@,
            },
            ScanState::BodyEscape { names_title, text } => ScanStateView::BodyEscape {
                names_title: *names_title,
                text: text@,
            },
        }
    }
}

/// The mathematical value of a [`TitleTracker`]: its scanner state and the
/// last title committed.
#[verifier::ext_equal]
pub struct TrackerView {
    /// Where the scanner stands.
    pub state: ScanStateView,
    /// The text of the last complete title-setting command.
    pub title: Seq<char>,
}

/// The incremental title scanner: the current scanner state plus the last
/// committed title.
#[derive(Debug, Clone, PartialEq)]
pub struct TitleTracker {
    /// Where the scanner stands.
    pub state: ScanState,
    /// The text of the last complete title-setting command.
    pub title: String,
}

impl View for TitleTracker {
    type V = TrackerView;

    open spec fn view(&self) -> TrackerView {
        TrackerView { state: self.state@, title: self.title@ }
    }
}

/// One byte of the stream moves the tracker: this is the whole transition
/// function of the scanner.
pub open spec fn scan_byte(t: TrackerView, b: u8) -> TrackerView {
    match t.state {
        ScanStateView::Ground => TrackerView {
            state: if b == 0x1b { ScanStateView::Escape } else { ScanStateView::Ground },
            title: t.title,
        },
        ScanStateView::Escape => TrackerView {
            state: if b == 0x5d {
                ScanStateView::OscParam { kind: OscKind::Empty }
            } else if b == 0x1b {
                ScanStateView::Escape
            } else {
                ScanStateView::Ground
            },
            title: t.title,
        },
        ScanStateView::OscParam { kind } => {
            if b == 0x07 {
                TrackerView { state: ScanStateView::Ground, title: t.title }
            } else if b == 0x1b {
                TrackerView {
                    state: ScanStateView::BodyEscape { names_title: false, text: Seq::empty() },
                    title: t.title,
                }
            } else if b == 0x3b {
                TrackerView {
                    state: ScanStateView::Body {
                        names_title: kind.names_title(),
                        text: Seq::empty(),
                    },
                    title: t.title,
                }
            } else {
                let next = if kind is Empty && b == 0x30 {
                    OscKind::Zero
                } else if kind is Empty && b == 0x32 {
                    OscKind::Two
                } else {
                    OscKind::Other
                };
                TrackerView { state: ScanStateView::OscParam { kind: next }, title: t.title }
            }
        },
        ScanStateView::Body { names_title, text } => {
            if b == 0x07 {
                TrackerView {
                    state: ScanStateView::Ground,
                    title: if names_title { text } else { t.title },
                }
            } else if b == 0x1b {
                TrackerView { state: ScanStateView::BodyEscape { names_title, text }, title: t.title }
            } else {
                TrackerView {
                    state: ScanStateView::Body {
                        names_title,
                        text: if names_title && 0x20 <= b < 0x7f {
                            text.push(b as char)
                        } else {
                            text
                        },
                    },
                    title: t.title,
                }
            }
        },
        ScanStateView::BodyEscape { names_title, text } => {
            if b == 0x5c {
                TrackerView {
                    state: ScanStateView::Ground,
                    title: if names_title { text } else { t.title },
                }
            } else if b == 0x5d {
                TrackerView { state: ScanStateView::OscParam { kind: OscKind::Empty }, title: t.title }
            } else if b == 0x1b {
                TrackerView { state: ScanStateView::Escape, title: t.title }
            } else {
                TrackerView { state: ScanStateView::Ground, title: t.title }
            }
        },
    }
}

/// A whole chunk of the stream moves the tracker byte by byte.
pub open spec fn scan_seq(t: TrackerView, bytes: Seq<u8>) -> TrackerView
    decreases bytes.len(),
{
    if bytes.len() == 0 {
        t
    } else {
        scan_seq(scan_byte(t, bytes[0]), bytes.skip(1))
    }
}

/// Scanning one more byte after a chunk is the same as scanning the
/// extended chunk.
pub proof fn lemma_scan_push(t: TrackerView, bytes: Seq<u8>, b: u8)
    ensures
        scan_seq(t, bytes.push(b)) == scan_byte(scan_seq(t, bytes), b),
    decreases bytes.len(),
{
    let ext = bytes.push(b);
    assert(ext.len() == bytes.len() + 1);
    if bytes.len() == 0 {
        assert(ext[0] == b);
        assert(ext.skip(1) =~= Seq::<u8>::empty());
        assert(scan_seq(t, ext) == scan_seq(scan_byte(t, b), ext.skip(1)));
    } else {
        assert(ext[0] == bytes[0]);
        assert(ext.skip(1) =~= bytes.skip(1).push(b));
        let stepped = scan_byte(t, bytes[0]);
        assert(scan_seq(t, ext) == scan_seq(stepped, ext.skip(1)));
        lemma_scan_push(stepped, bytes.skip(1), b);
        assert(scan_seq(t, bytes) == scan_seq(stepped, bytes.skip(1)));
    }
}

/// Relies on `String::push`: appends the given character to the end of the
/// string.
#[verifier::external_body]
fn push_char(s: &mut String, c: char)
    ensures
        final(s)@ == old(s)@.push(c),
{
    s.push(c);
}

impl TitleTracker {
    /// A tracker that has seen nothing: plain output, empty title.
    pub fn new() -> (r: TitleTracker)
        ensures
            r@.state == ScanStateView::Ground,
            r@.title == Seq::<char>::empty(),
    {
        TitleTracker { state: ScanState::Ground, title: String::new() }
    }

    /// Move the tracker over one byte.
    fn feed_byte(&mut self, b: u8)
        ensures
            final(self)@ == scan_byte(old(self)@, b),
    {
        let mut state = ScanState::Ground;
        core::mem::swap(&mut state, &mut self.state);
        match state {
            ScanState::Ground => {
                self.state = if b == 0x1b { ScanState::Escape } else { ScanState::Ground };
            },
            ScanState::Escape => {
                self.state = if b == 0x5d {
                    ScanState::OscParam { kind: OscKind::Empty }
                } else if b == 0x1b {
                    ScanState::Escape
                } else {
                    ScanState::Ground
                };
            },
            ScanState::OscParam { kind } => {
                if b == 0x07 {
                    self.state = ScanState::Ground;
                } else if b == 0x1b {
                    self.state = ScanState::BodyEscape { names_title: false, text: String::new() };
                } else if b == 0x3b {
                    let names_title = matches!(kind, OscKind::Zero | OscKind::Two);
                    self.state = ScanState::Body { names_title, text: String::new() };
                } else {
                    let next = if matches!(kind, OscKind::Empty) && b == 0x30 {
                        OscKind::Zero
                    } else if matches!(kind, OscKind::Empty) && b == 0x32 {
                        OscKind::Two
                    } else {
                        OscKind::Other
                    };
                    self.state = ScanState::OscParam { kind: next };
                }
            },
            ScanState::Body { names_title, mut text } => {
                if b == 0x07 {
                    if names_title {
                        self.title = text;
                    }
                    self.state = ScanState::Ground;
                } else if b == 0x1b {
                    self.state = ScanState::BodyEscape { names_title, text };
                } else {
                    if names_title && 0x20 <= b && b < 0x7f {
                        push_char(&mut text, b as char);
                    }
                    self.state = ScanState::Body { names_title, text };
                }
            },
            ScanState::BodyEscape { names_title, text } => {
                if b == 0x5c {
                    if names_title {
                        self.title = text;
                    }
                    self.state = ScanState::Ground;
                } else if b == 0x5d {
                    self.state = ScanState::OscParam { kind: OscKind::Empty };
                } else if b == 0x1b {
                    self.state = ScanState::Escape;
                } else {
                    self.state = ScanState::Ground;
                }
            },
        }
        proof {
            assert(self@ =~= scan_byte(old(self)@, b));
        }
    }

    /// Move the tracker over a whole chunk of the stream.
    pub fn feed(&mut self, bytes: &[u8])
        ensures
            final(self)@ == scan_seq(old(self)@, bytes@),
    {
        let ghost t0 = self@;
        let mut i: usize = 0;
        while i < bytes.len()
            invariant
                i <= bytes@.len(),
                self@ == scan_seq(t0, bytes@.take(i as int)),
            decreases bytes@.len() - i,
        {
            proof {
                lemma_scan_push(t0, bytes@.take(i as int), bytes@[i as int]);
                assert(bytes@.take(i as int).push(bytes@[i as int]) =~= bytes@.take(i + 1));
            }
            self.feed_byte(bytes[i]);
            i = i + 1;
        }
        proof {
            assert(bytes@.take(bytes@.len() as int) =~= bytes@);
        }
    }
}

} // verus!

use vstd::prelude::*;

verus! {

/// What can go wrong while driving the terminal.
#[derive(Clone, Copy, Debug, PartialEq, Eq, Structural)]
pub enum TerminalError {
    /// The terminal's attributes could not be captured or applied, or the
    /// underlying read failed.
    TerminalIO,
    /// Standard input delivered no byte: the stream has ended.
    InputClosed,
}

impl TerminalError {
    /// A one-line description for the user.
    pub fn message(&self) -> (text: &'static str)
        ensures
            text@ == match *self {
                TerminalError::TerminalIO => "terminal I/O error"@,
                TerminalError::InputClosed => "input closed"@,
            },
    {
        match self {
            TerminalError::TerminalIO => "terminal I/O error",
            TerminalError::InputClosed => "input closed",
        }
    }
}

} // verus!

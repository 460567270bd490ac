//! What a command reports to the front-end when it fails.

use vstd::prelude::*;
use vstd::string::StringExecFns;

verus! {

/// A failed command. The front-end receives only `message()`.
#[derive(Debug)]
pub enum CommandError {
    /// The theme name is neither of the two the shell knows.
    InvalidTheme,
    /// There is no main window to act on.
    WindowNotFound,
    /// The window system refused the operation; the text is its own.
    WindowSystem(String),
}

impl CommandError {
    /// The text that `message` returns.
    pub open spec fn text(self) -> Seq<char> {
        match self {
            CommandError::InvalidTheme => "Invalid theme"@,
            CommandError::WindowNotFound => "Window not found"@,
            CommandError::WindowSystem(reason) => reason@,
        }
    }

    /// The string handed to the front-end: a fixed text for the shell's own
    /// errors, the window system's text unchanged for its failures.
    pub fn message(&self) -> (message: String)
        ensures
            message@ == self.text(),
    {
        match self {
            CommandError::InvalidTheme => String::from_str("Invalid theme"),
            CommandError::WindowNotFound => String::from_str("Window not found"),
            CommandError::WindowSystem(reason) => reason.clone(),
        }
    }
}

} // verus!

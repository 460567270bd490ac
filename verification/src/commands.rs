//! The two commands the front-end can invoke, as decisions: each takes what
//! the host found out (is there a main window?) and answers with what the host
//! is to do, or with the error to report.

use vstd::prelude::*;
use crate::error::CommandError;
use crate::theme::{theme_named, Theme};

verus! {

/// How long after the developer tools open the host waits before it tries to
/// give keyboard focus back to the main window, in milliseconds.
pub const FOCUS_RESTORE_DELAY_MS: u64 = 100;

/// Whether the shell last opened or last closed the developer tools. It records
/// the shell's own last action; a panel closed by other means is not noticed.
#[derive(Clone, Copy, Debug, PartialEq, Eq, Structural)]
pub struct DevtoolsState {
    pub open: bool,
}

/// What the host does to the developer-tools panel after a toggle.
#[derive(Clone, Copy, Debug, PartialEq, Eq, Structural)]
pub enum DevtoolsAction {
    /// Open the panel, then, once and without reporting the outcome, try to
    /// focus the main window again after the given delay.
    Open { refocus_after_ms: u64 },
    /// Close the panel.
    Close,
}

/// What `set_window_theme` answers for a theme name and a main window that is
/// there or not: an unknown name is an error whatever the window; a known one
/// is applied to the window if there is one, and otherwise nothing is to do.
pub open spec fn theme_request(name: Seq<char>, main_window: bool) -> Result<
    Option<Theme>,
    CommandError,
> {
    match theme_named(name) {
        None => Err(CommandError::InvalidTheme),
        Some(theme) => Ok(
            if main_window {
                Some(theme)
            } else {
                None
            },
        ),
    }
}

/// The panel action that belongs to a toggle from the given flag.
pub open spec fn toggle_action(was_open: bool) -> DevtoolsAction {
    if was_open {
        DevtoolsAction::Close
    } else {
        DevtoolsAction::Open { refocus_after_ms: FOCUS_RESTORE_DELAY_MS }
    }
}

/// A toggle as a step: the flag after it and the answer given. Only a main
/// window that is there lets the flag move.
pub open spec fn toggled(state: DevtoolsState, main_window: bool) -> (
    DevtoolsState,
    Result<DevtoolsAction, CommandError>,
) {
    if main_window {
        (state.flipped(), Ok(toggle_action(state.open)))
    } else {
        (state, Err(CommandError::WindowNotFound))
    }
}

/// The flag after one toggle for each entry of `windows`, in order; an entry
/// says whether the main window was there at that toggle.
pub open spec fn after_toggles(state: DevtoolsState, windows: Seq<bool>) -> DevtoolsState
    decreases windows.len(),
{
    if windows.len() == 0 {
        state
    } else {
        toggled(after_toggles(state, windows.drop_last()), windows.last()).0
    }
}

/// How many of the toggles found a main window.
pub open spec fn flips(windows: Seq<bool>) -> nat
    decreases windows.len(),
{
    if windows.len() == 0 {
        0
    } else if windows.last() {
        flips(windows.drop_last()) + 1
    } else {
        flips(windows.drop_last())
    }
}

impl DevtoolsState {
    /// The state at startup: the panel has not been opened.
    pub fn new() -> (state: DevtoolsState)
        ensures
            !state.open,
    {
        DevtoolsState { open: false }
    }

    /// The state with the flag turned over.
    pub open spec fn flipped(self) -> DevtoolsState {
        DevtoolsState { open: !self.open }
    }
}

/// Decides a request to put the main window in the theme called `theme`.
///
/// `Ok(Some(t))` asks the host to apply `t` to the main window, `Ok(None)`
/// asks for nothing and the command has succeeded. A name other than `"dark"`
/// and `"light"` is refused before any window is considered.
pub fn set_window_theme(theme: &str, main_window: bool) -> (request: Result<
    Option<Theme>,
    CommandError,
>)
    ensures
        request == theme_request(theme@, main_window),
{
    match Theme::parse(theme) {
        None => Err(CommandError::InvalidTheme),
        Some(wanted) => {
            if main_window {
                Ok(Some(wanted))
            } else {
                Ok(None)
            }
        },
    }
}

/// Turns what the window system said of applying a theme into the command's
/// result: its failure text is passed on unchanged.
pub fn theme_applied(outcome: Result<(), String>) -> (result: Result<(), CommandError>)
    ensures
        result == match outcome {
            Ok(_) => Ok::<(), CommandError>(()),
            Err(reason) => Err(CommandError::WindowSystem(reason)),
        },
{
    match outcome {
        Ok(_) => Ok(()),
        Err(reason) => Err(CommandError::WindowSystem(reason)),
    }
}

/// Decides a toggle of the developer tools and turns the flag over.
///
/// Without a main window the command fails and the flag stays as it was. With
/// one, the flag is flipped and the answer tells the host what to do to the
/// panel, so that the flag afterwards says what was last asked of the panel.
pub fn toggle_devtools(state: &mut DevtoolsState, main_window: bool) -> (action: Result<
    DevtoolsAction,
    CommandError,
>)
    ensures
        *final(state) == toggled(*old(state), main_window).0,
        action == toggled(*old(state), main_window).1,
        action is Ok <==> main_window,
        action matches Ok(asked) ==> final(state).open == (asked is Open),
{
    if !main_window {
        return Err(CommandError::WindowNotFound);
    }
    if state.open {
        state.open = false;
        Ok(DevtoolsAction::Close)
    } else {
        state.open = true;
        Ok(DevtoolsAction::Open { refocus_after_ms: FOCUS_RESTORE_DELAY_MS })
    }
}

/// Two toggles with the main window there bring the flag back. From a closed
/// panel the first asks to open it, with one deferred refocus after the fixed
/// delay, and the second asks to close it.
pub proof fn lemma_toggle_round_trip(state: DevtoolsState)
    ensures
        toggled(toggled(state, true).0, true).0 == state,
        toggled(state, true).1 != toggled(toggled(state, true).0, true).1,
        !state.open ==> {
            let first = toggled(state, true);
            let second = toggled(first.0, true);
            &&& first.0.open
            &&& first.1 == Ok::<DevtoolsAction, CommandError>(
                DevtoolsAction::Open { refocus_after_ms: 100 },
            )
            &&& !second.0.open
            &&& second.1 == Ok::<DevtoolsAction, CommandError>(DevtoolsAction::Close)
        },
{
}

/// However many toggles are made and whichever of them find a window, the flag
/// ends where the successful ones, taken one after another, leave it: turned
/// over when their number is odd, as it began when it is even.
pub proof fn lemma_toggles_in_sequence(state: DevtoolsState, windows: Seq<bool>)
    ensures
        after_toggles(state, windows).open == (state.open != (flips(windows) % 2 == 1)),
    decreases windows.len(),
{
    if windows.len() > 0 {
        lemma_toggles_in_sequence(state, windows.drop_last());
    }
}

/// A run of toggles can be cut anywhere: the flag after the whole run is the
/// flag after the second part, started from the flag after the first.
pub proof fn lemma_toggles_split(state: DevtoolsState, first: Seq<bool>, second: Seq<bool>)
    ensures
        after_toggles(state, first + second) == after_toggles(
            after_toggles(state, first),
            second,
        ),
    decreases second.len(),
{
    if second.len() == 0 {
        assert(first + second =~= first);
    } else {
        assert((first + second).drop_last() =~= first + second.drop_last());
        assert((first + second).last() == second.last());
        lemma_toggles_split(state, first, second.drop_last());
    }
}

} // verus!

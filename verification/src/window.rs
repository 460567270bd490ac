//! A picture of the main window, for stating what the commands' answers do to
//! it once the host has carried them out.

use vstd::prelude::*;
use crate::commands::{theme_request, toggled, DevtoolsAction, DevtoolsState};
use crate::error::CommandError;
use crate::theme::{theme_named, Theme};

verus! {

/// What the commands can change of a main window: the theme last applied to
/// it, if any, and whether its developer-tools panel is showing.
pub struct WindowModel {
    pub theme: Option<Theme>,
    pub devtools_open: bool,
}

impl WindowModel {
    /// The window once the host has done what a theme request asks, the
    /// window system accepting it. An error or an empty request asks nothing.
    pub open spec fn after_theme_request(
        self,
        request: Result<Option<Theme>, CommandError>,
    ) -> WindowModel {
        match request {
            Ok(Some(theme)) => WindowModel { theme: Some(theme), ..self },
            _ => self,
        }
    }

    /// The window once the host has done what a toggle asks of the panel.
    pub open spec fn after_devtools_action(
        self,
        action: Result<DevtoolsAction, CommandError>,
    ) -> WindowModel {
        match action {
            Ok(DevtoolsAction::Open { .. }) => WindowModel { devtools_open: true, ..self },
            Ok(DevtoolsAction::Close) => WindowModel { devtools_open: false, ..self },
            Err(_) => self,
        }
    }
}

/// The two names the shell knows stand for the two themes, and for different
/// ones.
pub proof fn lemma_known_theme_names()
    ensures
        theme_named("dark"@) == Some(Theme::Dark),
        theme_named("light"@) == Some(Theme::Light),
{
    reveal_strlit("dark");
    reveal_strlit("light");
    assert("dark"@.len() == 4);
    assert("light"@.len() == 5);
}

/// A name that is neither `"dark"` nor `"light"` is answered with the error
/// whose message is `"Invalid theme"`, whether or not there is a window, and
/// the window stays as it was.
pub proof fn lemma_unknown_theme_refused(name: Seq<char>, main_window: bool, window: WindowModel)
    requires
        name != "dark"@,
        name != "light"@,
    ensures
        theme_request(name, main_window) == Err::<Option<Theme>, CommandError>(
            CommandError::InvalidTheme,
        ),
        theme_request(name, main_window)->Err_0.text() == "Invalid theme"@,
        window.after_theme_request(theme_request(name, main_window)) == window,
{
}

/// With no main window a known theme name succeeds and asks for nothing.
pub proof fn lemma_theme_without_window(name: Seq<char>)
    requires
        theme_named(name) is Some,
    ensures
        theme_request(name, false) == Ok::<Option<Theme>, CommandError>(None),
{
}

/// With no main window a toggle fails with the error whose message is
/// `"Window not found"`, and the flag stays as it was.
pub proof fn lemma_toggle_without_window(state: DevtoolsState)
    ensures
        toggled(state, false).0 == state,
        toggled(state, false).1 == Err::<DevtoolsAction, CommandError>(
            CommandError::WindowNotFound,
        ),
        toggled(state, false).1->Err_0.text() == "Window not found"@,
{
}

/// Of two theme requests on a window that is there, the later known name
/// decides the theme, whatever the earlier one was.
pub proof fn lemma_last_theme_wins(window: WindowModel, first: Seq<char>, second: Seq<char>)
    requires
        theme_named(second) is Some,
    ensures
        window.after_theme_request(theme_request(first, true)).after_theme_request(
            theme_request(second, true),
        ).theme == theme_named(second),
{
}

/// Asking for the same theme twice leaves the window as asking once does.
pub proof fn lemma_same_theme_twice(window: WindowModel, name: Seq<char>, main_window: bool)
    ensures
        window.after_theme_request(theme_request(name, main_window)).after_theme_request(
            theme_request(name, main_window),
        ) == window.after_theme_request(theme_request(name, main_window)),
{
}

/// After a toggle that found the main window, the panel shows exactly when the
/// flag says so, whatever the two were before.
pub proof fn lemma_flag_follows_panel(window: WindowModel, state: DevtoolsState)
    ensures
        window.after_devtools_action(toggled(state, true).1).devtools_open == toggled(
            state,
            true,
        ).0.open,
{
}

} // verus!

//! What the shell sets up before the host's event loop starts: a fixed set of
//! plugins, the commands open to the front-end, and the developer-tools state
//! where that capability is switched on.

use vstd::prelude::*;
use crate::commands::DevtoolsState;

verus! {

/// A ready-made capability the host registers at startup.
#[derive(Clone, Copy, Debug, PartialEq, Eq, Structural)]
pub enum Plugin {
    Shell,
    Dialog,
    Fs,
    Clipboard,
}

/// A command the front-end may invoke.
#[derive(Clone, Copy, Debug, PartialEq, Eq, Structural)]
pub enum Command {
    SetWindowTheme,
    ToggleDevtools,
}

/// Everything the host is to register, in order.
#[derive(Debug)]
pub struct Startup {
    pub plugins: Vec<Plugin>,
    pub commands: Vec<Command>,
    /// The developer-tools flag to manage, where the capability is on.
    pub devtools: Option<DevtoolsState>,
}

/// The plugins of every build, in the order they are registered.
pub open spec fn plugin_set() -> Seq<Plugin> {
    seq![Plugin::Shell, Plugin::Dialog, Plugin::Fs, Plugin::Clipboard]
}

/// The commands open to the front-end: the theme command always, the toggle
/// only with the developer-tools capability.
pub open spec fn command_set(devtools: bool) -> Seq<Command> {
    if devtools {
        seq![Command::SetWindowTheme, Command::ToggleDevtools]
    } else {
        seq![Command::SetWindowTheme]
    }
}

/// Plans the startup for a build with or without the developer-tools
/// capability. The flag, where there is one, starts closed, and there is one
/// exactly when the toggle command is registered.
pub fn startup(devtools: bool) -> (plan: Startup)
    ensures
        plan.plugins@ == plugin_set(),
        plan.commands@ == command_set(devtools),
        plan.devtools == if devtools {
            Some(DevtoolsState { open: false })
        } else {
            None
        },
        plan.devtools is Some <==> plan.commands@.contains(Command::ToggleDevtools),
{
    let mut plugins: Vec<Plugin> = Vec::new();
    plugins.push(Plugin::Shell);
    plugins.push(Plugin::Dialog);
    plugins.push(Plugin::Fs);
    plugins.push(Plugin::Clipboard);
    let mut commands: Vec<Command> = Vec::new();
    commands.push(Command::SetWindowTheme);
    let state = if devtools {
        commands.push(Command::ToggleDevtools);
        Some(DevtoolsState::new())
    } else {
        None
    };
    proof {
        assert(plugins@ =~= plugin_set());
        assert(commands@ =~= command_set(devtools));
        if devtools {
            assert(commands@[1] == Command::ToggleDevtools);
        }
    }
    Startup { plugins, commands, devtools: state }
}

} // verus!

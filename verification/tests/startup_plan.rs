use desktop_shell::bootstrap::{startup, Command, Plugin};
use desktop_shell::commands::DevtoolsState;

#[test]
fn every_build_registers_the_four_plugins_in_order() {
    for devtools in [false, true] {
        let plan = startup(devtools);
        assert_eq!(
            plan.plugins,
            vec![Plugin::Shell, Plugin::Dialog, Plugin::Fs, Plugin::Clipboard]
        );
    }
}

#[test]
fn without_devtools_only_the_theme_command_is_open() {
    let plan = startup(false);
    assert_eq!(plan.commands, vec![Command::SetWindowTheme]);
    assert_eq!(plan.devtools, None);
}

#[test]
fn with_devtools_the_toggle_is_open_and_the_flag_starts_closed() {
    let plan = startup(true);
    assert_eq!(plan.commands, vec![Command::SetWindowTheme, Command::ToggleDevtools]);
    assert_eq!(plan.devtools, Some(DevtoolsState { open: false }));
}

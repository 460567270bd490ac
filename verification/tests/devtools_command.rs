use desktop_shell::commands::{
    toggle_devtools, DevtoolsAction, DevtoolsState, FOCUS_RESTORE_DELAY_MS,
};
use desktop_shell::error::CommandError;

#[test]
fn devtools_start_closed() {
    assert!(!DevtoolsState::new().open);
}

#[test]
fn the_refocus_delay_is_100_ms() {
    assert_eq!(FOCUS_RESTORE_DELAY_MS, 100);
}

#[test]
fn first_toggle_opens_and_asks_for_one_refocus() {
    let mut state = DevtoolsState::new();
    let action = toggle_devtools(&mut state, true);
    assert!(state.open);
    assert!(matches!(action, Ok(DevtoolsAction::Open { refocus_after_ms: 100 })));
}

#[test]
fn second_toggle_closes_and_asks_for_no_refocus() {
    let mut state = DevtoolsState { open: true };
    let action = toggle_devtools(&mut state, true);
    assert!(!state.open);
    assert!(matches!(action, Ok(DevtoolsAction::Close)));
}

#[test]
fn two_toggles_from_closed_return_to_closed() {
    let mut state = DevtoolsState::new();
    let mut panel = false;
    for expected in [true, false] {
        match toggle_devtools(&mut state, true) {
            Ok(DevtoolsAction::Open { .. }) => panel = true,
            Ok(DevtoolsAction::Close) => panel = false,
            Err(error) => panic!("{error:?}"),
        }
        assert_eq!(state.open, expected);
        assert_eq!(panel, expected);
    }
    assert_eq!(state, DevtoolsState::new());
}

#[test]
fn toggle_without_a_window_fails_and_keeps_the_flag() {
    for open in [false, true] {
        let mut state = DevtoolsState { open };
        match toggle_devtools(&mut state, false) {
            Err(error) => {
                assert!(matches!(error, CommandError::WindowNotFound));
                assert_eq!(error.message(), "Window not found");
            }
            Ok(action) => panic!("toggled without a window: {action:?}"),
        }
        assert_eq!(state.open, open);
    }
}

#[test]
fn the_flag_follows_the_number_of_successful_toggles() {
    let windows = [true, true, false, true, false, false, true, true, true];
    let mut state = DevtoolsState::new();
    let mut successes = 0;
    for window in windows {
        if toggle_devtools(&mut state, window).is_ok() {
            successes += 1;
        }
        assert_eq!(state.open, successes % 2 == 1);
    }
    assert_eq!(successes, 6);
    assert!(!state.open);
}

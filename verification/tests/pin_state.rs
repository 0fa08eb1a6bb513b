use always_on_top::command::{command_for_menu_id, Command, Style};
use always_on_top::pin::PinState;

#[test]
fn new_state_is_in_sync() {
    for flag in [false, true] {
        let state = PinState::new(flag);
        assert_eq!(state.window_on_top, flag);
        assert_eq!(state.indicator_on, flag);
        assert!(state.is_in_sync());
    }
}

#[test]
fn out_of_step_state_is_not_in_sync() {
    let state = PinState { window_on_top: true, indicator_on: false };
    assert!(!state.is_in_sync());
}

#[test]
fn requested_flag_follows_the_command() {
    let off = PinState::new(false);
    let on = PinState::new(true);
    assert!(off.requested(Command::Enable));
    assert!(!on.requested(Command::Disable));
    assert!(off.requested(Command::Toggle));
    assert!(!on.requested(Command::Toggle));
}

#[test]
fn requested_flag_goes_by_the_window_not_the_indicator() {
    let state = PinState { window_on_top: true, indicator_on: false };
    assert!(!state.requested(Command::Toggle));
}

#[test]
fn applied_enable_sets_both() {
    let mut state = PinState::new(false);
    assert_eq!(state.settle(Command::Enable, true), None);
    assert_eq!(state, PinState { window_on_top: true, indicator_on: true });
}

#[test]
fn applied_disable_clears_both() {
    let mut state = PinState::new(true);
    assert_eq!(state.settle(Command::Disable, true), None);
    assert_eq!(state, PinState { window_on_top: false, indicator_on: false });
}

#[test]
fn applied_toggle_flips_both() {
    let mut state = PinState::new(false);
    assert_eq!(state.settle(Command::Toggle, true), None);
    assert_eq!(state, PinState::new(true));
    assert_eq!(state.settle(Command::Toggle, true), None);
    assert_eq!(state, PinState::new(false));
}

#[test]
fn refused_command_leaves_the_state_and_reports() {
    let mut state = PinState::new(false);
    assert_eq!(
        state.settle(Command::Enable, false),
        Some("Failed to enable always on top")
    );
    assert_eq!(state, PinState::new(false));
    let mut state = PinState::new(true);
    assert_eq!(
        state.settle(Command::Disable, false),
        Some("Failed to disable always on top")
    );
    assert_eq!(state, PinState::new(true));
    assert_eq!(
        state.settle(Command::Toggle, false),
        Some("Failed to toggle always on top")
    );
    assert_eq!(state, PinState::new(true));
}

#[test]
fn applied_command_repairs_an_out_of_step_state() {
    let mut state = PinState { window_on_top: true, indicator_on: false };
    assert_eq!(state.settle(Command::Toggle, true), None);
    assert_eq!(state, PinState::new(false));
}

#[test]
fn repeated_enable_is_idempotent() {
    let mut state = PinState::new(false);
    state.settle(Command::Enable, true);
    let once = state;
    state.settle(Command::Enable, true);
    assert_eq!(state, once);
}

#[test]
fn state_stays_in_sync_over_every_short_run() {
    let commands = [Command::Enable, Command::Disable, Command::Toggle];
    for start in [false, true] {
        for a in commands {
            for a_ok in [false, true] {
                for b in commands {
                    for b_ok in [false, true] {
                        for c in commands {
                            for c_ok in [false, true] {
                                let mut state = PinState::new(start);
                                state.settle(a, a_ok);
                                assert!(state.is_in_sync());
                                state.settle(b, b_ok);
                                assert!(state.is_in_sync());
                                let flag = state.requested(c);
                                state.settle(c, c_ok);
                                assert!(state.is_in_sync());
                                if c_ok {
                                    assert_eq!(state.window_on_top, flag);
                                }
                            }
                        }
                    }
                }
            }
        }
    }
}

#[test]
fn toggle_id_after_enable_changes_nothing_with_set_items() {
    let mut state = PinState::new(false);
    let mut calls = 0;
    for id in ["enable-always-on-top", "toggle-always-on-top"] {
        if let Some(command) = command_for_menu_id(Style::SetItems, id) {
            calls += 1;
            state.settle(command, true);
        }
    }
    assert_eq!(calls, 1);
    assert_eq!(state, PinState::new(true));
}

#[test]
fn last_set_event_decides_from_every_start() {
    let ids = [
        "quit",
        "disable-always-on-top",
        "toggle-always-on-top",
        "enable-always-on-top",
        "hide",
    ];
    for start in [false, true] {
        let mut state = PinState::new(start);
        let mut calls = 0;
        for id in ids {
            if let Some(command) = command_for_menu_id(Style::SetItems, id) {
                calls += 1;
                state.settle(command, true);
            }
        }
        assert_eq!(calls, 2);
        assert_eq!(state, PinState::new(true));
    }
}

#[test]
fn foreign_events_leave_the_start() {
    for start in [false, true] {
        let mut state = PinState::new(start);
        for id in ["quit", "toggle-always-on-top", ""] {
            if let Some(command) = command_for_menu_id(Style::SetItems, id) {
                state.settle(command, true);
            }
        }
        assert_eq!(state, PinState::new(start));
    }
}

#[test]
fn toggle_item_menu_flips_on_each_event() {
    let mut state = PinState::new(false);
    for expected in [true, false, true] {
        let command = command_for_menu_id(Style::ToggleItem, "toggle-always-on-top").unwrap();
        assert_eq!(state.requested(command), expected);
        state.settle(command, true);
        assert_eq!(state, PinState::new(expected));
    }
}

use mywork::commands::scheduler_commands;
use mywork::commands::task_runner_commands;
use mywork::power_monitor::{
    acknowledge_sleep, can_run_scheduler_now, decide_power_callback_action, is_clamshell_closed,
    is_sleeping, parse_apple_clamshell_state, set_sleeping, with_test_power_state_lock,
    CallbackDecision, CallbackEventKind, Platform, PowerEvent, PowerState, SleepAcknowledgeGuard,
    K_IO_MESSAGE_CAN_SYSTEM_SLEEP, K_IO_MESSAGE_SYSTEM_HAS_POWERED_ON,
    K_IO_MESSAGE_SYSTEM_WILL_NOT_SLEEP, K_IO_MESSAGE_SYSTEM_WILL_SLEEP,
};

#[test]
fn scheduler_commands_test_is_system_sleeping_tracks_power_monitor_state() {
    let mut state = PowerState::new();
    with_test_power_state_lock(&mut state, |mut s| {
        set_sleeping(&mut s, true);
        assert!(scheduler_commands::is_system_sleeping(Platform::MacOs, &s, false));

        set_sleeping(&mut s, false);
        assert!(!scheduler_commands::is_system_sleeping(Platform::MacOs, &s, false));
        ((), s)
    });
}

#[test]
fn scheduler_commands_test_is_system_sleeping_is_false_off_macos() {
    let state = PowerState::new();
    assert!(!scheduler_commands::is_system_sleeping(Platform::Other, &state, false));
}

#[test]
fn task_runner_commands_test_is_system_sleeping_tracks_power_monitor_state() {
    let mut state = PowerState::new();
    with_test_power_state_lock(&mut state, |mut s| {
        set_sleeping(&mut s, true);
        assert!(task_runner_commands::is_system_sleeping(Platform::MacOs, &s));

        set_sleeping(&mut s, false);
        assert!(!task_runner_commands::is_system_sleeping(Platform::MacOs, &s));
        ((), s)
    });
}

#[test]
fn task_runner_commands_test_is_system_sleeping_is_false_off_macos() {
    let state = PowerState::new();
    assert!(!task_runner_commands::is_system_sleeping(Platform::Other, &state));
}

#[test]
fn test_decide_action_for_can_system_sleep() {
    let decision = decide_power_callback_action(K_IO_MESSAGE_CAN_SYSTEM_SLEEP, false);
    assert_eq!(
        decision,
        CallbackDecision {
            emit_event: None,
            set_sleeping: None,
            allow_sleep: true,
        }
    );
}

#[test]
fn test_decide_action_for_will_sleep_when_awake() {
    let decision = decide_power_callback_action(K_IO_MESSAGE_SYSTEM_WILL_SLEEP, false);
    assert_eq!(
        decision,
        CallbackDecision {
            emit_event: Some(CallbackEventKind::WillSleep),
            set_sleeping: Some(true),
            allow_sleep: false,
        }
    );
}

#[test]
fn test_decide_action_for_wake_when_sleeping() {
    let decision = decide_power_callback_action(K_IO_MESSAGE_SYSTEM_HAS_POWERED_ON, true);
    assert_eq!(
        decision,
        CallbackDecision {
            emit_event: Some(CallbackEventKind::DidWake),
            set_sleeping: Some(false),
            allow_sleep: false,
        }
    );
}

#[test]
fn test_decide_action_for_will_not_sleep() {
    let decision = decide_power_callback_action(K_IO_MESSAGE_SYSTEM_WILL_NOT_SLEEP, true);
    assert_eq!(
        decision,
        CallbackDecision {
            emit_event: None,
            set_sleeping: Some(false),
            allow_sleep: false,
        }
    );
}

#[test]
fn test_power_state_tracking() {
    let mut state = PowerState::new();
    with_test_power_state_lock(&mut state, |mut s| {
        set_sleeping(&mut s, false);
        assert!(!is_sleeping(&s));

        set_sleeping(&mut s, true);
        assert!(is_sleeping(&s));

        set_sleeping(&mut s, false);
        assert!(!is_sleeping(&s));
        ((), s)
    });
}

#[test]
fn test_power_event_equality() {
    assert_eq!(
        PowerEvent::WillSleep { notification_id: 1 },
        PowerEvent::WillSleep { notification_id: 1 }
    );
    assert_eq!(PowerEvent::DidWake, PowerEvent::DidWake);
    assert_ne!(
        PowerEvent::WillSleep { notification_id: 1 },
        PowerEvent::DidWake
    );
}

#[test]
fn test_parse_apple_clamshell_state_yes() {
    let output = "\"AppleClamshellState\" = Yes";
    assert_eq!(parse_apple_clamshell_state(output), Some(true));
}

#[test]
fn test_parse_apple_clamshell_state_no() {
    let output = "\"AppleClamshellState\" = No";
    assert_eq!(parse_apple_clamshell_state(output), Some(false));
}

#[test]
fn test_parse_apple_clamshell_state_missing() {
    let output = "\"Wake Type\" = UserActivity Assertion";
    assert_eq!(parse_apple_clamshell_state(output), None);
}

#[test]
fn test_is_clamshell_closed_fails_closed_when_state_unavailable() {
    let reading: Option<bool> = None;
    assert!(reading.is_some() || is_clamshell_closed(Platform::MacOs, reading));
}

// Checks of this crate's own.

#[test]
fn clamshell_state_in_ioreg_output() {
    let output = "+-o AppleARMPE  <class IOService>\n    {\n      \"AppleClamshellState\" = yes\n      \"AppleClamshellCausesSleep\" = Yes\n    }\n";
    assert_eq!(parse_apple_clamshell_state(output), Some(true));
    assert_eq!(parse_apple_clamshell_state("\"AppleClamshellState\" = maybe"), None);
}

#[test]
fn clamshell_is_never_closed_off_macos() {
    assert!(!is_clamshell_closed(Platform::Other, Some(true)));
    assert!(is_clamshell_closed(Platform::MacOs, Some(true)));
    assert!(!is_clamshell_closed(Platform::MacOs, Some(false)));
}

#[test]
fn repeated_will_sleep_emits_one_event() {
    let first = decide_power_callback_action(K_IO_MESSAGE_SYSTEM_WILL_SLEEP, false);
    assert_eq!(first.emit_event, Some(CallbackEventKind::WillSleep));
    let second = decide_power_callback_action(K_IO_MESSAGE_SYSTEM_WILL_SLEEP, true);
    assert_eq!(second.emit_event, None);
    let wake_when_awake = decide_power_callback_action(K_IO_MESSAGE_SYSTEM_HAS_POWERED_ON, false);
    assert_eq!(wake_when_awake.emit_event, None);
    let other = decide_power_callback_action(0x10, true);
    assert_eq!(
        other,
        CallbackDecision { emit_event: None, set_sleeping: None, allow_sleep: false }
    );
}

#[test]
fn scheduler_runs_only_awake_with_lid_open() {
    let mut state = PowerState::new();
    assert!(can_run_scheduler_now(&state, false));
    assert!(!can_run_scheduler_now(&state, true));
    set_sleeping(&mut state, true);
    assert!(!can_run_scheduler_now(&state, false));
    assert!(scheduler_commands::is_system_sleeping(Platform::MacOs, &PowerState::new(), true));
}

#[test]
fn sleep_is_acknowledged_once() {
    let mut guard = SleepAcknowledgeGuard::new(7);
    assert!(!guard.acknowledged());
    guard.acknowledge();
    assert!(guard.acknowledged());
    guard.acknowledge();
    assert!(guard.acknowledged());
    acknowledge_sleep(7);
}

#[test]
fn state_lock_restores_state() {
    let mut state = PowerState::new();
    set_sleeping(&mut state, true);
    let seen = with_test_power_state_lock(&mut state, |mut s| {
        set_sleeping(&mut s, false);
        (is_sleeping(&s), s)
    });
    assert!(!seen);
    assert!(is_sleeping(&state));
}

use global_hotkey::hotkey::{Code, HotKey, Modifiers};
use hotkey_capture::hotkeys::{default_hotkeys, ConfigLoad, HotkeyConfig, Slot};
use hotkey_capture::registration::{
    advance_cycle, find_attempt, plan_attempts, plan_event, register_shortcuts,
    shortcut_to_register, Attempts, PlannedEvent, Registration, RegistrationAction,
    RegistrationEvent, Stage,
};
use hotkey_capture::registry::ShortcutBinding;

fn ctrl_shift(key: Code) -> u32 {
    HotKey::new(Some(Modifiers::CONTROL | Modifiers::SHIFT), key).id()
}

fn config(popup: &str, screenshot: &str, slide: &str) -> HotkeyConfig {
    HotkeyConfig {
        popup_window: popup.to_string(),
        slide_translation: slide.to_string(),
        screenshot_translation: screenshot.to_string(),
    }
}

fn accepts_all(_slot: Slot) -> bool {
    true
}

fn refuses_all(_slot: Slot) -> bool {
    false
}

fn refuses_screenshot(slot: Slot) -> bool {
    slot != Slot::ScreenshotTranslation
}

/// Drives one cycle as a driver would and returns the state it ends in and
/// the actions it performed.
fn run_cycle(
    state: Registration,
    load: ConfigLoad,
    accepts: fn(Slot) -> bool,
) -> (Registration, Vec<RegistrationAction>) {
    let mut performed = Vec::new();
    let (mut state, mut action) = register_shortcuts(state, RegistrationEvent::Begin);
    let mut steps = 0;
    while let Some(current) = action {
        performed.push(current);
        steps += 1;
        assert!(steps <= 9, "a cycle performs at most nine actions");
        let event = match current {
            RegistrationAction::UnregisterAll => RegistrationEvent::Cleared,
            RegistrationAction::LoadConfig => RegistrationEvent::Loaded(load.clone()),
            RegistrationAction::Register { slot, .. } => {
                RegistrationEvent::Registered { accepted: accepts(slot) }
            }
            RegistrationAction::Bind { .. } => RegistrationEvent::Bound,
            RegistrationAction::Finish => break,
        };
        let next = register_shortcuts(state, event);
        state = next.0;
        action = next.1;
    }
    (state, performed)
}

#[test]
fn shortcut_texts_parse_to_hotkey_identifiers() {
    assert_eq!(shortcut_to_register("Ctrl+Shift+T"), Some(ctrl_shift(Code::KeyT)));
    assert_eq!(shortcut_to_register("ctrl+shift+KeyT"), Some(ctrl_shift(Code::KeyT)));
    assert_eq!(shortcut_to_register("F5"), Some(HotKey::new(None, Code::F5).id()));
    assert_eq!(
        shortcut_to_register("Alt+Space"),
        Some(HotKey::new(Some(Modifiers::ALT), Code::Space).id())
    );
}

#[test]
fn empty_text_calls_for_no_attempt() {
    assert_eq!(shortcut_to_register(""), None);
}

#[test]
fn malformed_texts_call_for_no_attempt() {
    assert_eq!(shortcut_to_register("Ctrl+Shift"), None);
    assert_eq!(shortcut_to_register("Ctrl+T+Shift"), None);
    assert_eq!(shortcut_to_register("Ctrl++T"), None);
    assert_eq!(shortcut_to_register("NotAKey"), None);
    assert_eq!(shortcut_to_register(" "), None);
}

#[test]
fn attempts_are_planned_slot_by_slot() {
    let attempts = plan_attempts(&config("Ctrl+Shift+T", "", "bogus"));
    assert_eq!(
        attempts,
        Attempts {
            popup_window: Some(ctrl_shift(Code::KeyT)),
            screenshot_translation: None,
            slide_translation: None,
        }
    );
}

#[test]
fn load_is_planned_with_the_fallback() {
    let expected = PlannedEvent::Planned {
        hotkeys: default_hotkeys(),
        attempts: Attempts {
            popup_window: Some(ctrl_shift(Code::KeyT)),
            screenshot_translation: Some(ctrl_shift(Code::KeyA)),
            slide_translation: Some(ctrl_shift(Code::KeyS)),
        },
    };
    assert_eq!(plan_event(RegistrationEvent::Loaded(ConfigLoad::Missing)), expected);
    assert_eq!(plan_event(RegistrationEvent::Loaded(ConfigLoad::Failed)), expected);
    assert_eq!(plan_event(RegistrationEvent::Begin), PlannedEvent::Begin);
    assert_eq!(plan_event(RegistrationEvent::Cleared), PlannedEvent::Cleared);
    assert_eq!(plan_event(RegistrationEvent::Bound), PlannedEvent::Bound);
    assert_eq!(
        plan_event(RegistrationEvent::Registered { accepted: true }),
        PlannedEvent::Registered { accepted: true }
    );
}

#[test]
fn next_attempt_skips_slots_without_one() {
    let attempts =
        Attempts { popup_window: None, screenshot_translation: None, slide_translation: Some(5) };
    assert_eq!(find_attempt(attempts, Some(Slot::PopupWindow)), Some((Slot::SlideTranslation, 5)));
    assert_eq!(
        find_attempt(attempts, Some(Slot::SlideTranslation)),
        Some((Slot::SlideTranslation, 5))
    );
    assert_eq!(find_attempt(attempts, None), None);
    let none =
        Attempts { popup_window: None, screenshot_translation: None, slide_translation: None };
    assert_eq!(find_attempt(none, Some(Slot::PopupWindow)), None);
    let first =
        Attempts {
            popup_window: Some(1),
            screenshot_translation: Some(2),
            slide_translation: None,
        };
    assert_eq!(find_attempt(first, Some(Slot::PopupWindow)), Some((Slot::PopupWindow, 1)));
    assert_eq!(
        find_attempt(first, Some(Slot::ScreenshotTranslation)),
        Some((Slot::ScreenshotTranslation, 2))
    );
    assert_eq!(find_attempt(first, Some(Slot::SlideTranslation)), None);
}

#[test]
fn new_registration_is_at_rest() {
    let registration = Registration::new();
    assert_eq!(registration.stage(), Stage::Idle);
    assert_eq!(registration.hotkeys(), &config("", "", ""));
    assert_eq!(
        registration.attempts(),
        Attempts { popup_window: None, screenshot_translation: None, slide_translation: None }
    );
    assert_eq!(registration.registry().bindings(), vec![]);
}

#[test]
fn cycle_with_fallback_registers_all_three() {
    let (state, performed) = run_cycle(Registration::new(), ConfigLoad::Missing, accepts_all);
    let t = ctrl_shift(Code::KeyT);
    let a = ctrl_shift(Code::KeyA);
    let s = ctrl_shift(Code::KeyS);
    assert_eq!(
        performed,
        vec![
            RegistrationAction::UnregisterAll,
            RegistrationAction::LoadConfig,
            RegistrationAction::Register { slot: Slot::PopupWindow, shortcut: t },
            RegistrationAction::Bind { slot: Slot::PopupWindow, shortcut: t },
            RegistrationAction::Register { slot: Slot::ScreenshotTranslation, shortcut: a },
            RegistrationAction::Bind { slot: Slot::ScreenshotTranslation, shortcut: a },
            RegistrationAction::Register { slot: Slot::SlideTranslation, shortcut: s },
            RegistrationAction::Bind { slot: Slot::SlideTranslation, shortcut: s },
            RegistrationAction::Finish,
        ]
    );
    assert_eq!(state.stage(), Stage::Idle);
    assert_eq!(
        state.registry().bindings(),
        vec![
            ShortcutBinding { shortcut: t, slot: Slot::PopupWindow },
            ShortcutBinding { shortcut: a, slot: Slot::ScreenshotTranslation },
            ShortcutBinding { shortcut: s, slot: Slot::SlideTranslation },
        ]
    );
}

#[test]
fn failed_load_registers_the_fallback() {
    let (state, _) = run_cycle(Registration::new(), ConfigLoad::Failed, accepts_all);
    assert_eq!(state.hotkeys(), &default_hotkeys());
    assert_eq!(state.registry().bindings().len(), 3);
}

#[test]
fn empty_texts_are_never_attempted() {
    let load = ConfigLoad::Stored(config("", "Ctrl+Shift+A", ""));
    let (state, performed) = run_cycle(Registration::new(), load, accepts_all);
    let a = ctrl_shift(Code::KeyA);
    assert_eq!(
        performed,
        vec![
            RegistrationAction::UnregisterAll,
            RegistrationAction::LoadConfig,
            RegistrationAction::Register { slot: Slot::ScreenshotTranslation, shortcut: a },
            RegistrationAction::Bind { slot: Slot::ScreenshotTranslation, shortcut: a },
            RegistrationAction::Finish,
        ]
    );
    assert_eq!(
        state.registry().bindings(),
        vec![ShortcutBinding { shortcut: a, slot: Slot::ScreenshotTranslation }]
    );
}

#[test]
fn all_empty_texts_lead_to_no_attempt_at_all() {
    let load = ConfigLoad::Stored(config("", "", ""));
    let (state, performed) = run_cycle(Registration::new(), load, accepts_all);
    assert_eq!(
        performed,
        vec![
            RegistrationAction::UnregisterAll,
            RegistrationAction::LoadConfig,
            RegistrationAction::Finish,
        ]
    );
    assert_eq!(state.registry().bindings(), vec![]);
}

#[test]
fn parse_failure_does_not_stop_the_other_slots() {
    let load = ConfigLoad::Stored(config("Ctrl+Shift", "Ctrl+Shift+A", "Ctrl+Shift+S"));
    let (state, performed) = run_cycle(Registration::new(), load, accepts_all);
    let a = ctrl_shift(Code::KeyA);
    let s = ctrl_shift(Code::KeyS);
    assert_eq!(
        performed,
        vec![
            RegistrationAction::UnregisterAll,
            RegistrationAction::LoadConfig,
            RegistrationAction::Register { slot: Slot::ScreenshotTranslation, shortcut: a },
            RegistrationAction::Bind { slot: Slot::ScreenshotTranslation, shortcut: a },
            RegistrationAction::Register { slot: Slot::SlideTranslation, shortcut: s },
            RegistrationAction::Bind { slot: Slot::SlideTranslation, shortcut: s },
            RegistrationAction::Finish,
        ]
    );
    assert_eq!(state.registry().shortcut_of(Slot::PopupWindow), None);
    assert_eq!(state.registry().handler_for(a), Some(Slot::ScreenshotTranslation));
    assert_eq!(state.registry().handler_for(s), Some(Slot::SlideTranslation));
}

#[test]
fn parse_failure_in_the_middle_or_at_the_end_is_contained() {
    let load = ConfigLoad::Stored(config("Ctrl+Shift+T", "Ctrl+T+Shift", "Ctrl+Shift+S"));
    let (state, _) = run_cycle(Registration::new(), load, accepts_all);
    assert_eq!(state.registry().bindings().len(), 2);
    assert_eq!(state.registry().shortcut_of(Slot::ScreenshotTranslation), None);
    let load = ConfigLoad::Stored(config("Ctrl+Shift+T", "Ctrl+Shift+A", "???"));
    let (state, _) = run_cycle(Registration::new(), load, accepts_all);
    assert_eq!(state.registry().bindings().len(), 2);
    assert_eq!(state.registry().shortcut_of(Slot::SlideTranslation), None);
}

#[test]
fn refused_registration_is_left_unbound() {
    let (state, performed) =
        run_cycle(Registration::new(), ConfigLoad::Missing, refuses_screenshot);
    let t = ctrl_shift(Code::KeyT);
    let a = ctrl_shift(Code::KeyA);
    let s = ctrl_shift(Code::KeyS);
    assert_eq!(
        performed,
        vec![
            RegistrationAction::UnregisterAll,
            RegistrationAction::LoadConfig,
            RegistrationAction::Register { slot: Slot::PopupWindow, shortcut: t },
            RegistrationAction::Bind { slot: Slot::PopupWindow, shortcut: t },
            RegistrationAction::Register { slot: Slot::ScreenshotTranslation, shortcut: a },
            RegistrationAction::Register { slot: Slot::SlideTranslation, shortcut: s },
            RegistrationAction::Bind { slot: Slot::SlideTranslation, shortcut: s },
            RegistrationAction::Finish,
        ]
    );
    assert_eq!(state.registry().handler_for(a), None);
    assert_eq!(state.registry().bindings().len(), 2);
}

#[test]
fn refusing_everything_leaves_an_empty_table() {
    let (state, performed) = run_cycle(Registration::new(), ConfigLoad::Missing, refuses_all);
    assert_eq!(performed.len(), 6);
    assert_eq!(state.registry().bindings(), vec![]);
}

#[test]
fn rerunning_leaves_one_binding_per_shortcut() {
    let mut state = Registration::new();
    let mut first: Option<Vec<ShortcutBinding>> = None;
    for _ in 0..5 {
        let (next, _) = run_cycle(state, ConfigLoad::Missing, accepts_all);
        state = next;
        let bindings = state.registry().bindings();
        assert_eq!(bindings.len(), 3);
        for (i, one) in bindings.iter().enumerate() {
            for other in bindings.iter().skip(i + 1) {
                assert_ne!(one.shortcut, other.shortcut);
                assert_ne!(one.slot, other.slot);
            }
        }
        match &first {
            Some(expected) => assert_eq!(&bindings, expected),
            None => first = Some(bindings),
        }
    }
}

#[test]
fn rerun_with_a_new_configuration_drops_stale_bindings() {
    let (state, _) = run_cycle(Registration::new(), ConfigLoad::Missing, accepts_all);
    let load = ConfigLoad::Stored(config("", "", "Alt+F1"));
    let (state, _) = run_cycle(state, load, accepts_all);
    let f1 = HotKey::new(Some(Modifiers::ALT), Code::F1).id();
    assert_eq!(
        state.registry().bindings(),
        vec![ShortcutBinding { shortcut: f1, slot: Slot::SlideTranslation }]
    );
    assert_eq!(state.registry().handler_for(ctrl_shift(Code::KeyT)), None);
}

#[test]
fn shortcut_configured_twice_is_bound_once() {
    let load = ConfigLoad::Stored(config("Ctrl+Shift+T", "ctrl+shift+t", ""));
    let (state, performed) = run_cycle(Registration::new(), load, accepts_all);
    let t = ctrl_shift(Code::KeyT);
    assert_eq!(performed.len(), 7);
    assert_eq!(
        state.registry().bindings(),
        vec![ShortcutBinding { shortcut: t, slot: Slot::ScreenshotTranslation }]
    );
}

#[test]
fn events_out_of_turn_change_nothing() {
    let (state, action) = register_shortcuts(Registration::new(), RegistrationEvent::Cleared);
    assert_eq!(action, None);
    assert_eq!(state.stage(), Stage::Idle);
    let (state, action) =
        register_shortcuts(state, RegistrationEvent::Loaded(ConfigLoad::Missing));
    assert_eq!(action, None);
    assert_eq!(state.stage(), Stage::Idle);
    let accepted = RegistrationEvent::Registered { accepted: true };
    let (state, action) = register_shortcuts(state, accepted);
    assert_eq!(action, None);
    assert_eq!(state.registry().bindings(), vec![]);
    let (state, action) = register_shortcuts(state, RegistrationEvent::Bound);
    assert_eq!(action, None);
    let (state, action) = register_shortcuts(state, RegistrationEvent::Begin);
    assert_eq!(action, Some(RegistrationAction::UnregisterAll));
    let (state, action) = register_shortcuts(state, RegistrationEvent::Bound);
    assert_eq!(action, None);
    assert_eq!(state.stage(), Stage::Clearing);
}

#[test]
fn begin_restarts_a_cycle_under_way() {
    let state = Registration::new();
    let (state, _) = register_shortcuts(state, RegistrationEvent::Begin);
    let (state, _) = register_shortcuts(state, RegistrationEvent::Cleared);
    let (state, _) = register_shortcuts(state, RegistrationEvent::Loaded(ConfigLoad::Missing));
    let accepted = RegistrationEvent::Registered { accepted: true };
    let (state, action) = register_shortcuts(state, accepted);
    assert_eq!(
        action,
        Some(RegistrationAction::Bind {
            slot: Slot::PopupWindow,
            shortcut: ctrl_shift(Code::KeyT)
        })
    );
    assert_eq!(state.registry().bindings().len(), 1);
    let (state, action) = register_shortcuts(state, RegistrationEvent::Begin);
    assert_eq!(action, Some(RegistrationAction::UnregisterAll));
    assert_eq!(state.stage(), Stage::Clearing);
    assert_eq!(state.registry().bindings(), vec![]);
}

#[test]
fn machine_works_on_given_attempts() {
    let state = Registration::new();
    let (state, _) = advance_cycle(state, PlannedEvent::Begin);
    let (state, action) = advance_cycle(state, PlannedEvent::Cleared);
    assert_eq!(action, Some(RegistrationAction::LoadConfig));
    let planned = PlannedEvent::Planned {
        hotkeys: config("one", "", "three"),
        attempts: Attempts {
            popup_window: Some(1),
            screenshot_translation: None,
            slide_translation: Some(3),
        },
    };
    let (state, action) = advance_cycle(state, planned);
    assert_eq!(action, Some(RegistrationAction::Register { slot: Slot::PopupWindow, shortcut: 1 }));
    assert_eq!(state.stage(), Stage::Registering { slot: Slot::PopupWindow, shortcut: 1 });
    assert_eq!(state.hotkeys().text(Slot::PopupWindow), "one");
    let (state, action) = advance_cycle(state, PlannedEvent::Registered { accepted: false });
    assert_eq!(
        action,
        Some(RegistrationAction::Register { slot: Slot::SlideTranslation, shortcut: 3 })
    );
    let (state, action) = advance_cycle(state, PlannedEvent::Registered { accepted: true });
    assert_eq!(
        action,
        Some(RegistrationAction::Bind { slot: Slot::SlideTranslation, shortcut: 3 })
    );
    assert_eq!(state.stage(), Stage::Binding { slot: Slot::SlideTranslation, shortcut: 3 });
    let (state, action) = advance_cycle(state, PlannedEvent::Bound);
    assert_eq!(action, Some(RegistrationAction::Finish));
    assert_eq!(state.stage(), Stage::Idle);
    assert_eq!(
        state.registry().bindings(),
        vec![ShortcutBinding { shortcut: 3, slot: Slot::SlideTranslation }]
    );
    assert_eq!(
        state.attempts(),
        Attempts { popup_window: Some(1), screenshot_translation: None, slide_translation: Some(3) }
    );
}

#[test]
fn malformed_texts_are_told_apart_from_disabled_slots() {
    let load = ConfigLoad::Stored(config("Ctrl+Shift", "", "Ctrl+Shift+S"));
    let (state, _) = run_cycle(Registration::new(), load, accepts_all);
    assert!(state.is_malformed(Slot::PopupWindow));
    assert!(!state.is_malformed(Slot::ScreenshotTranslation));
    assert!(!state.is_malformed(Slot::SlideTranslation));
    let fresh = Registration::new();
    assert!(!fresh.is_malformed(Slot::PopupWindow));
}

#[test]
fn attempts_are_read_slot_by_slot() {
    let attempts =
        Attempts { popup_window: Some(1), screenshot_translation: None, slide_translation: Some(3) };
    assert_eq!(attempts.get(Slot::PopupWindow), Some(1));
    assert_eq!(attempts.get(Slot::ScreenshotTranslation), None);
    assert_eq!(attempts.get(Slot::SlideTranslation), Some(3));
}

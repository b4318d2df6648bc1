use eng_on_esc::mac::{
    escape_steps, keyboard_callback, korean_mode, menu_action, CapsStep, MacEvent, MacKey,
    MenuAction, MenuItem, CAPS_PAUSE_MS,
};

#[test]
fn mode_starts_in_english() {
    assert!(!korean_mode().is_korean());
}

#[test]
fn user_caps_lock_toggles_the_mode() {
    let mut m = korean_mode();
    m.on_caps_lock(false);
    assert!(m.is_korean());
    m.on_caps_lock(false);
    assert!(!m.is_korean());
}

#[test]
fn injected_caps_lock_is_ignored() {
    let mut m = korean_mode();
    m.on_caps_lock(true);
    assert!(!m.is_korean());
    m.on_caps_lock(false);
    m.on_caps_lock(true);
    assert!(m.is_korean());
}

#[test]
fn callback_hands_every_event_back() {
    let mut m = korean_mode();
    let (ev, wake) = keyboard_callback(&mut m, MacEvent::KeyPress(MacKey::CapsLock), false, "caps");
    assert_eq!(ev, Some("caps"));
    assert!(!wake);
    assert!(m.is_korean());
    let (ev, wake) = keyboard_callback(&mut m, MacEvent::KeyPress(MacKey::Escape), false, 27u32);
    assert_eq!(ev, Some(27u32));
    assert!(wake);
    assert!(m.is_korean());
    let (ev, wake) = keyboard_callback(&mut m, MacEvent::Other, false, ());
    assert_eq!(ev, Some(()));
    assert!(!wake);
    let (_, wake) = keyboard_callback(&mut m, MacEvent::KeyPress(MacKey::Other), false, 0u8);
    assert!(!wake);
    assert!(m.is_korean());
}

#[test]
fn callback_ignores_caps_lock_while_sending() {
    let mut m = korean_mode();
    let (ev, wake) = keyboard_callback(&mut m, MacEvent::KeyPress(MacKey::CapsLock), true, 1i32);
    assert_eq!(ev, Some(1));
    assert!(!wake);
    assert!(!m.is_korean());
}

#[test]
fn escape_in_korean_injects_one_guarded_caps_lock() {
    let mut m = korean_mode();
    m.on_caps_lock(false);
    let steps = escape_steps(&mut m);
    assert_eq!(
        steps,
        vec![
            CapsStep::GuardOn,
            CapsStep::Pause(CAPS_PAUSE_MS),
            CapsStep::Press,
            CapsStep::Pause(CAPS_PAUSE_MS),
            CapsStep::Release,
            CapsStep::Pause(CAPS_PAUSE_MS),
            CapsStep::GuardOff,
        ]
    );
    assert_eq!(CAPS_PAUSE_MS, 10);
    assert!(!m.is_korean());
    assert!(escape_steps(&mut m).is_empty());
}

#[test]
fn escape_in_english_does_nothing() {
    let mut m = korean_mode();
    assert!(escape_steps(&mut m).is_empty());
    assert!(!m.is_korean());
}

#[test]
fn take_korean_reports_and_resets() {
    let mut m = korean_mode();
    assert!(!m.take_korean());
    m.on_caps_lock(false);
    assert!(m.take_korean());
    assert!(!m.is_korean());
}

#[test]
fn menu_choices() {
    assert_eq!(menu_action(MenuItem::Quit, true), MenuAction::Exit);
    assert_eq!(menu_action(MenuItem::Quit, false), MenuAction::Exit);
    assert_eq!(menu_action(MenuItem::Autostart, true), MenuAction::DisableAutostart);
    assert_eq!(menu_action(MenuItem::Autostart, false), MenuAction::EnableAutostart);
    assert_eq!(menu_action(MenuItem::Other, true), MenuAction::Nothing);
}

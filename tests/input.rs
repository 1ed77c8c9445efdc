use glazer::input::{key_event_from_platform, KeyEvent, ModifierTracker};
use glazer::keys::{key_code_from_browser, key_code_from_platform, modifier_key, KeyCode, KeyModifiers};

fn mods(bits: u8) -> KeyModifiers {
    KeyModifiers(bits)
}

#[test]
fn modifier_edges_press_and_release_in_turn() {
    let shift = KeyModifiers::SHIFT;
    let control = KeyModifiers::CONTROL;
    let mut t = ModifierTracker::new();
    let mut all = Vec::new();
    for state in [0, shift, shift | control, control, 0] {
        all.extend(t.flags_changed(mods(state)));
    }
    let codes: Vec<(KeyCode, bool)> = all.iter().map(|e| (e.code, e.pressed)).collect();
    assert_eq!(
        codes,
        vec![
            (KeyCode::LeftShift, true),
            (KeyCode::LeftControl, true),
            (KeyCode::LeftShift, false),
            (KeyCode::LeftControl, false),
        ]
    );
    assert_eq!(all[1].modifiers, mods(shift | control));
    assert!(all.iter().all(|e| !e.repeat));
    assert_eq!(t.previous_modifiers(), mods(0));
}

#[test]
fn unchanged_state_gives_no_events() {
    let mut t = ModifierTracker::new();
    assert!(t.flags_changed(mods(0)).is_empty());
    t.flags_changed(mods(KeyModifiers::OPTION));
    assert!(t.flags_changed(mods(KeyModifiers::OPTION)).is_empty());
}

#[test]
fn simultaneous_changes_each_get_their_own_direction() {
    let mut t = ModifierTracker::new();
    t.flags_changed(mods(KeyModifiers::SHIFT));
    let e = t.flags_changed(mods(KeyModifiers::CONTROL | KeyModifiers::CAPSLOCK));
    assert_eq!(
        e,
        vec![
            KeyEvent { code: KeyCode::CapsLock, modifiers: mods(5), pressed: true, repeat: false },
            KeyEvent { code: KeyCode::LeftShift, modifiers: mods(5), pressed: false, repeat: false },
            KeyEvent { code: KeyCode::LeftControl, modifiers: mods(5), pressed: true, repeat: false },
        ]
    );
}

#[test]
fn modifiers_without_keys_give_no_events() {
    let mut t = ModifierTracker::new();
    let e = t.flags_changed(mods(KeyModifiers::COMMAND | KeyModifiers::FUNCTION));
    assert!(e.is_empty());
    assert_eq!(t.previous_modifiers(), mods(KeyModifiers::COMMAND | KeyModifiers::FUNCTION));
}

#[test]
fn platform_key_codes() {
    assert_eq!(key_code_from_platform(0x00), KeyCode::KeyA);
    assert_eq!(key_code_from_platform(0x01), KeyCode::KeyS);
    assert_eq!(key_code_from_platform(0x0D), KeyCode::KeyW);
    assert_eq!(key_code_from_platform(0x31), KeyCode::Spacebar);
    assert_eq!(key_code_from_platform(0x24), KeyCode::Return);
    assert_eq!(key_code_from_platform(0x34), KeyCode::Return);
    assert_eq!(key_code_from_platform(0x7E), KeyCode::UpArrow);
    assert_eq!(key_code_from_platform(0x36), KeyCode::Unknown);
    assert_eq!(key_code_from_platform(0x7F), KeyCode::Unknown);
    assert_eq!(key_code_from_platform(500), KeyCode::Unknown);
}

#[test]
fn platform_modifier_bits() {
    // Shift and command in the platform word, plus bits outside the flags.
    let bits: u64 = (1 << 17) | (1 << 20) | 0xffff | (1 << 40);
    assert_eq!(
        KeyModifiers::from_platform_bits(bits),
        mods(KeyModifiers::SHIFT | KeyModifiers::COMMAND)
    );
    assert_eq!(KeyModifiers::from_platform_bits(0), mods(KeyModifiers::CLEAR));
    assert_eq!(KeyModifiers::from_platform_bits(0xffff_0000), mods(0xff));
}

#[test]
fn key_reports_translate() {
    let e = key_event_from_platform(0x0D, 1 << 18, true, true);
    assert_eq!(
        e,
        KeyEvent {
            code: KeyCode::KeyW,
            modifiers: mods(KeyModifiers::CONTROL),
            pressed: true,
            repeat: true
        }
    );
}

#[test]
fn modifier_set_operations() {
    let a = mods(KeyModifiers::SHIFT | KeyModifiers::OPTION);
    let b = mods(KeyModifiers::OPTION | KeyModifiers::HELP);
    assert_eq!(a | b, mods(2 | 8 | 64));
    assert_eq!(a & b, mods(8));
    assert_eq!(a.union(b), a | b);
    assert_eq!(a.intersection(b), a & b);
    assert!(a.contains(mods(KeyModifiers::SHIFT)));
    assert!(!a.contains(b));
    assert_eq!(KeyModifiers::NUMERIC_PAD, 32);
}

#[test]
fn browser_key_codes() {
    assert_eq!(key_code_from_browser(65), KeyCode::KeyA);
    assert_eq!(key_code_from_browser(87), KeyCode::KeyW);
    assert_eq!(key_code_from_browser(90), KeyCode::KeyZ);
    assert_eq!(key_code_from_browser(48), KeyCode::Num0);
    assert_eq!(key_code_from_browser(32), KeyCode::Spacebar);
    assert_eq!(key_code_from_browser(38), KeyCode::UpArrow);
    assert_eq!(key_code_from_browser(222), KeyCode::Quote);
    assert_eq!(key_code_from_browser(112), KeyCode::Unknown);
    assert!(modifier_key(KeyCode::LeftShift));
    assert!(!modifier_key(KeyCode::KeyA));
}

#[test]
fn modifier_flags_to_set() {
    assert_eq!(KeyModifiers::from_flags(false, false, false, false, false), mods(0));
    assert_eq!(
        KeyModifiers::from_flags(true, true, false, true, true),
        mods(KeyModifiers::CAPSLOCK | KeyModifiers::SHIFT | KeyModifiers::OPTION | KeyModifiers::COMMAND)
    );
    assert_eq!(KeyModifiers::from_flags(false, false, true, false, false), mods(KeyModifiers::CONTROL));
}

#[test]
fn browser_reports_give_modifier_edges_then_keys() {
    let mut t = ModifierTracker::new();
    let shift = mods(KeyModifiers::SHIFT);
    // Shift goes down: its press comes from the modifier state only.
    let e = t.browser_key_report(16, shift, true, false);
    assert_eq!(e, vec![KeyEvent { code: KeyCode::LeftShift, modifiers: shift, pressed: true, repeat: false }]);
    // A letter with shift held passes through.
    let e = t.browser_key_report(65, shift, true, true);
    assert_eq!(e, vec![KeyEvent { code: KeyCode::KeyA, modifiers: shift, pressed: true, repeat: true }]);
    // The letter released after shift was let go: the release of shift first.
    let e = t.browser_key_report(65, mods(0), false, false);
    assert_eq!(
        e,
        vec![
            KeyEvent { code: KeyCode::LeftShift, modifiers: mods(0), pressed: false, repeat: false },
            KeyEvent { code: KeyCode::KeyA, modifiers: mods(0), pressed: false, repeat: false },
        ]
    );
}

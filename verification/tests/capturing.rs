use nanotrans::capture::{
    chord_transitions, CaptureOutcome, CaptureSession, KeySnapshot, KeyTransition, RawKey,
};
use nanotrans::keys::{KeyName, ModifierKey};

#[test]
fn synthesized_chord_order() {
    let steps = chord_transitions(ModifierKey::Ctrl, KeyName::C);
    assert_eq!(steps.len(), 4);
    assert_eq!(steps[0], KeyTransition { key: RawKey::Modifier(ModifierKey::Ctrl), pressed: true });
    assert_eq!(steps[1], KeyTransition { key: RawKey::Named(KeyName::C), pressed: true });
    assert_eq!(steps[2], KeyTransition { key: RawKey::Named(KeyName::C), pressed: false });
    assert_eq!(
        steps[3],
        KeyTransition { key: RawKey::Modifier(ModifierKey::Ctrl), pressed: false }
    );
}

fn down(key: RawKey) -> KeyTransition {
    KeyTransition { key, pressed: true }
}

fn up(key: RawKey) -> KeyTransition {
    KeyTransition { key, pressed: false }
}

#[test]
fn test_hotkey_capture() {
    let mut session = CaptureSession::new();
    session.start_hotkey_capture();
    assert!(session.is_capturing());
    session.stop_hotkey_capture();
    assert!(!session.is_capturing());
}

#[test]
fn ctrl_down_then_q_down_finalizes() {
    let mut session = CaptureSession::new();
    session.start_hotkey_capture();
    session.on_key_event(down(RawKey::Modifier(ModifierKey::Ctrl)));
    session.on_key_event(down(RawKey::Named(KeyName::Q)));
    assert!(!session.is_capturing());
    assert_eq!(
        session.poll_capture_result(),
        Some(CaptureOutcome::Captured(String::from("Ctrl+Q")))
    );
    assert_eq!(session.poll_capture_result(), None);
}

#[test]
fn captured_mnemonics_parse_back_to_the_combination() {
    let mut session = CaptureSession::new();
    session.start_hotkey_capture();
    session.on_key_event(down(RawKey::Modifier(ModifierKey::Alt)));
    session.on_key_event(down(RawKey::Modifier(ModifierKey::Shift)));
    session.on_key_event(down(RawKey::Named(KeyName::PageUp)));
    let captured = match session.poll_capture_result() {
        Some(CaptureOutcome::Captured(s)) => s,
        other => panic!("expected a capture, got {other:?}"),
    };
    assert_eq!(captured, "Alt+Shift+PageUp");
    let parsed = nanotrans::mnemonic::parse_hotkey(&captured).unwrap();
    assert!(!parsed.ctrl && parsed.alt && parsed.shift && !parsed.meta);
    assert_eq!(parsed.key, KeyName::PageUp);
}

#[test]
fn bare_key_does_not_finalize() {
    let mut session = CaptureSession::new();
    session.start_hotkey_capture();
    session.on_key_event(down(RawKey::Named(KeyName::Q)));
    assert!(session.is_capturing());
    assert_eq!(session.poll_capture_result(), None);
}

#[test]
fn escape_cancels_even_mid_hold() {
    let mut session = CaptureSession::new();
    session.start_hotkey_capture();
    session.on_key_event(down(RawKey::Modifier(ModifierKey::Ctrl)));
    session.on_key_event(down(RawKey::Named(KeyName::Escape)));
    assert!(!session.is_capturing());
    assert_eq!(session.poll_capture_result(), Some(CaptureOutcome::Cancelled));
}

#[test]
fn tab_is_excluded_from_finalizing() {
    let mut session = CaptureSession::new();
    session.start_hotkey_capture();
    session.on_key_event(down(RawKey::Modifier(ModifierKey::Alt)));
    session.on_key_event(down(RawKey::Named(KeyName::Tab)));
    assert!(session.is_capturing());
    assert_eq!(session.poll_capture_result(), None);
}

#[test]
fn modifier_release_clears_its_bit() {
    let mut session = CaptureSession::new();
    session.start_hotkey_capture();
    session.on_key_event(down(RawKey::Modifier(ModifierKey::Ctrl)));
    session.on_key_event(up(RawKey::Modifier(ModifierKey::Ctrl)));
    session.on_key_event(down(RawKey::Named(KeyName::Q)));
    assert!(session.is_capturing());
}

#[test]
fn unresolvable_key_gets_a_placeholder() {
    let mut session = CaptureSession::new();
    session.start_hotkey_capture();
    session.on_key_event(down(RawKey::Modifier(ModifierKey::Ctrl)));
    session.on_key_event(down(RawKey::Unnamed(0xE7)));
    assert_eq!(
        session.get_captured_hotkey(),
        Some(String::from("Ctrl+VKE7"))
    );
}

#[test]
fn cancelled_session_reports_the_empty_mnemonic() {
    let mut session = CaptureSession::new();
    session.start_hotkey_capture();
    session.on_key_event(down(RawKey::Named(KeyName::Escape)));
    assert_eq!(session.get_captured_hotkey(), Some(String::new()));
    assert_eq!(session.get_captured_hotkey(), None);
}

#[test]
fn start_clears_a_prior_outcome() {
    let mut session = CaptureSession::new();
    session.start_hotkey_capture();
    session.on_key_event(down(RawKey::Named(KeyName::Escape)));
    session.start_hotkey_capture();
    assert_eq!(session.poll_capture_result(), None);
    assert!(session.is_capturing());
}

#[test]
fn poll_fallback_applies_the_same_rules() {
    let mut session = CaptureSession::new();
    session.start_hotkey_capture();

    // No modifier held: nothing happens.
    let bare = KeySnapshot {
        ctrl: false,
        alt: false,
        shift: false,
        meta: false,
        pressed: vec![0x51],
    };
    assert_eq!(session.poll_hotkey_capture(&bare), None);
    assert!(session.is_capturing());

    // Modifier keys sampled first are skipped; the Q key finalizes.
    let held = KeySnapshot {
        ctrl: true,
        alt: false,
        shift: false,
        meta: false,
        pressed: vec![0xA2, 0x51],
    };
    assert_eq!(session.poll_hotkey_capture(&held), Some(String::from("Ctrl+Q")));
    assert!(!session.is_capturing());
    assert_eq!(
        session.poll_capture_result(),
        Some(CaptureOutcome::Captured(String::from("Ctrl+Q")))
    );
}

#[test]
fn poll_fallback_skips_tab_like_the_push_path() {
    let mut session = CaptureSession::new();
    session.start_hotkey_capture();
    // Tab (0x09) is sampled down first but is excluded from finalizing;
    // the Q key after it finalizes.
    let snap = KeySnapshot {
        ctrl: true,
        alt: false,
        shift: false,
        meta: false,
        pressed: vec![0x09, 0x51],
    };
    assert_eq!(session.poll_hotkey_capture(&snap), Some(String::from("Ctrl+Q")));
}

#[test]
fn poll_fallback_cancels_on_escape_like_the_push_path() {
    let mut session = CaptureSession::new();
    session.start_hotkey_capture();
    // Escape (0x1B) cancels regardless of modifier state; no mnemonic is
    // returned and the one-shot outcome says cancelled.
    let snap = KeySnapshot {
        ctrl: false,
        alt: false,
        shift: false,
        meta: false,
        pressed: vec![0x1B],
    };
    assert_eq!(session.poll_hotkey_capture(&snap), None);
    assert!(!session.is_capturing());
    assert_eq!(session.poll_capture_result(), Some(CaptureOutcome::Cancelled));
}

#[test]
fn poll_fallback_uses_a_placeholder_for_unknown_codes() {
    let mut session = CaptureSession::new();
    session.start_hotkey_capture();
    let snap = KeySnapshot {
        ctrl: false,
        alt: true,
        shift: false,
        meta: false,
        pressed: vec![0xBA],
    };
    assert_eq!(session.poll_hotkey_capture(&snap), Some(String::from("Alt+VKBA")));
}

use nanotrans::capture::{KeyTransition, RawKey};
use nanotrans::keys::{KeyName, ModifierKey};
use nanotrans::mnemonic::ParseError;
use nanotrans::monitor::InputMonitor;

fn down(key: RawKey) -> KeyTransition {
    KeyTransition { key, pressed: true }
}

fn up(key: RawKey) -> KeyTransition {
    KeyTransition { key, pressed: false }
}

#[test]
fn paste_chord_sets_the_one_shot_latch() {
    let mut hub = InputMonitor::new();
    assert!(!hub.check_ctrl_v_pressed());

    hub.on_key_event(down(RawKey::Modifier(ModifierKey::Ctrl)));
    hub.on_key_event(down(RawKey::Named(KeyName::V)));
    assert!(hub.check_ctrl_v_pressed());
    // Cleared on read.
    assert!(!hub.check_ctrl_v_pressed());
}

#[test]
fn bare_v_is_not_a_paste() {
    let mut hub = InputMonitor::new();
    hub.on_key_event(down(RawKey::Named(KeyName::V)));
    assert!(!hub.check_ctrl_v_pressed());

    // Ctrl released again before V goes down.
    hub.on_key_event(down(RawKey::Modifier(ModifierKey::Ctrl)));
    hub.on_key_event(up(RawKey::Modifier(ModifierKey::Ctrl)));
    hub.on_key_event(down(RawKey::Named(KeyName::V)));
    assert!(!hub.check_ctrl_v_pressed());
}

#[test]
fn meta_v_also_counts_as_paste() {
    let mut hub = InputMonitor::new();
    hub.on_key_event(down(RawKey::Modifier(ModifierKey::Meta)));
    hub.on_key_event(down(RawKey::Named(KeyName::V)));
    assert!(hub.check_ctrl_v_pressed());
}

#[test]
fn active_hotkey_fires_on_its_chord() {
    let mut hub = InputMonitor::new();
    assert_eq!(hub.set_active_hotkey("Ctrl+Q"), Ok(()));
    assert!(!hub.try_recv_hotkey_fired());

    hub.on_key_event(down(RawKey::Modifier(ModifierKey::Ctrl)));
    hub.on_key_event(down(RawKey::Named(KeyName::Q)));
    assert!(hub.try_recv_hotkey_fired());
    assert!(!hub.try_recv_hotkey_fired());

    // A different chord does not fire.
    hub.on_key_event(down(RawKey::Named(KeyName::W)));
    assert!(!hub.try_recv_hotkey_fired());
}

#[test]
fn set_active_hotkey_rejects_bad_mnemonics() {
    let mut hub = InputMonitor::new();
    assert_eq!(hub.set_active_hotkey("Q"), Err(ParseError::NoModifier));
    // Nothing fires without a binding.
    hub.on_key_event(down(RawKey::Modifier(ModifierKey::Ctrl)));
    hub.on_key_event(down(RawKey::Named(KeyName::Q)));
    assert!(!hub.try_recv_hotkey_fired());
}

#[test]
fn capture_takes_priority_over_firing() {
    let mut hub = InputMonitor::new();
    assert_eq!(hub.set_active_hotkey("Ctrl+Q"), Ok(()));
    hub.start_hotkey_capture();
    hub.on_key_event(down(RawKey::Modifier(ModifierKey::Ctrl)));
    hub.on_key_event(down(RawKey::Named(KeyName::Q)));
    // The chord was recorded, not fired.
    assert!(!hub.try_recv_hotkey_fired());
    assert_eq!(hub.get_captured_hotkey(), Some(String::from("Ctrl+Q")));
}

#[test]
fn fault_single_report() {
    let mut hub = InputMonitor::new();
    hub.report_keyboard_monitor_error("keyboard monitor failed: permission denied");
    hub.report_keyboard_monitor_error("keyboard monitor failed: second attempt");
    assert_eq!(
        hub.take_monitor_error(),
        Some(String::from("keyboard monitor failed: permission denied"))
    );
    assert_eq!(hub.take_monitor_error(), None);
    // Still nothing after yet another report: one notification per lifetime.
    hub.report_keyboard_monitor_error("keyboard monitor failed: third attempt");
    assert_eq!(hub.take_monitor_error(), None);
}

//! The shared monitor state: one handle owns the capture session, the
//! held-modifier context, the one-shot paste latch, the at-most-once fault
//! latch, and the queue of hotkey-fired notifications. The platform pump
//! pushes raw transitions in; a polling consumer reads facts out.

use vstd::prelude::*;

use crate::capture::{
    capture_step, poll_spec, CaptureModel, CaptureOutcome, CaptureOutcomeV, CaptureSession,
    KeySnapshot, KeyTransition, RawKey, idle_model,
};
use crate::keys::{KeyName, ModifierKey};
use crate::mnemonic::{parse_hotkey, parse_spec, Hotkey, ParseError, ParseErrorV};

verus! {

/// The mathematical state of the monitor.
pub struct MonitorModel {
    /// The capture session's state.
    pub capture: CaptureModel,
    /// Modifiers currently held, tracked from transitions.
    pub ctrl_held: bool,
    pub alt_held: bool,
    pub shift_held: bool,
    pub meta_held: bool,
    /// One-shot paste latch, cleared on read.
    pub paste_detected: bool,
    /// The binding the raw stream matches against, where the platform has
    /// no separate hotkey notification channel.
    pub active_hotkey: Option<Hotkey>,
    /// Hotkey-fired notifications not yet delivered.
    pub fired_pending: u64,
    /// The at-most-once installation fault, not yet delivered.
    pub fault: Option<Seq<char>>,
    /// Whether a fault was ever recorded; further reports are dropped.
    pub fault_reported: bool,
}

/// The monitor's starting state: idle capture, nothing held, no binding,
/// nothing latched.
pub open spec fn fresh_monitor() -> MonitorModel {
    MonitorModel {
        capture: idle_model(),
        ctrl_held: false,
        alt_held: false,
        shift_held: false,
        meta_held: false,
        paste_detected: false,
        active_hotkey: None,
        fired_pending: 0,
        fault: None,
        fault_reported: false,
    }
}

/// How one raw transition moves the monitor: the capture rules run on it,
/// the held-modifier context follows every modifier transition, a named
/// key pressed outside capture fires the active binding when the held
/// modifiers and the key equal it, and the paste chord (the V key pressed
/// with Ctrl or Meta held) sets the paste latch.
pub open spec fn monitor_step(m: MonitorModel, ev: KeyTransition) -> MonitorModel {
    let cap2 = capture_step(m.capture, ev);
    let ctrl2 = if ev.key == RawKey::Modifier(ModifierKey::Ctrl) {
        ev.pressed
    } else {
        m.ctrl_held
    };
    let alt2 = if ev.key == RawKey::Modifier(ModifierKey::Alt) {
        ev.pressed
    } else {
        m.alt_held
    };
    let shift2 = if ev.key == RawKey::Modifier(ModifierKey::Shift) {
        ev.pressed
    } else {
        m.shift_held
    };
    let meta2 = if ev.key == RawKey::Modifier(ModifierKey::Meta) {
        ev.pressed
    } else {
        m.meta_held
    };
    let fired = !m.capture.active && ev.pressed && (match ev.key {
        RawKey::Named(k) => m.active_hotkey == Some(
            Hotkey {
                ctrl: m.ctrl_held,
                alt: m.alt_held,
                shift: m.shift_held,
                meta: m.meta_held,
                key: k,
            },
        ),
        _ => false,
    });
    let pending2 = if fired && m.fired_pending < u64::MAX {
        (m.fired_pending + 1) as u64
    } else {
        m.fired_pending
    };
    let paste2 = m.paste_detected || (ev.pressed && ev.key == RawKey::Named(KeyName::V) && (
    m.ctrl_held || m.meta_held));
    MonitorModel {
        capture: cap2,
        ctrl_held: ctrl2,
        alt_held: alt2,
        shift_held: shift2,
        meta_held: meta2,
        paste_detected: paste2,
        fired_pending: pending2,
        ..m
    }
}

/// How a fault report moves the monitor: the first report is latched, and
/// every later one is dropped, so at most one notification exists per
/// monitor lifetime.
pub open spec fn report_spec(m: MonitorModel, message: Seq<char>) -> MonitorModel {
    if m.fault_reported {
        m
    } else {
        MonitorModel { fault: Some(message), fault_reported: true, ..m }
    }
}

/// Two consecutive fault reports produce exactly one notification: the
/// second report changes nothing, whatever either message says.
pub proof fn lemma_fault_single_report(m: MonitorModel, first: Seq<char>, second: Seq<char>)
    ensures
        report_spec(report_spec(m, first), second) == report_spec(m, first),
        !m.fault_reported ==> report_spec(m, first).fault == Some(first),
{
}

/// The monitor: the one handle shared between the event pump and the
/// polling consumer.
pub struct InputMonitor {
    capture: CaptureSession,
    ctrl_held: bool,
    alt_held: bool,
    shift_held: bool,
    meta_held: bool,
    paste_detected: bool,
    active_hotkey: Option<Hotkey>,
    fired_pending: u64,
    fault: Option<String>,
    fault_reported: bool,
}

impl View for InputMonitor {
    type V = MonitorModel;

    closed spec fn view(&self) -> MonitorModel {
        MonitorModel {
            capture: self.capture@,
            ctrl_held: self.ctrl_held,
            alt_held: self.alt_held,
            shift_held: self.shift_held,
            meta_held: self.meta_held,
            paste_detected: self.paste_detected,
            active_hotkey: self.active_hotkey,
            fired_pending: self.fired_pending,
            fault: match self.fault {
                Some(ref s) => Some(s@),
                None => None,
            },
            fault_reported: self.fault_reported,
        }
    }
}

impl InputMonitor {
    /// A fresh monitor.
    pub fn new() -> (r: InputMonitor)
        ensures
            r@ == fresh_monitor(),
    {
        InputMonitor {
            capture: CaptureSession::new(),
            ctrl_held: false,
            alt_held: false,
            shift_held: false,
            meta_held: false,
            paste_detected: false,
            active_hotkey: None,
            fired_pending: 0,
            fault: None,
            fault_reported: false,
        }
    }

    /// Feed one raw key transition through capture, matching and paste
    /// detection, in the order the source observed it.
    pub fn on_key_event(&mut self, ev: KeyTransition)
        ensures
            final(self)@ == monitor_step(old(self)@, ev),
    {
        let was_capturing = self.capture.is_capturing();
        let fired = !was_capturing && ev.pressed && (match ev.key {
            RawKey::Named(k) => {
                match self.active_hotkey {
                    Some(h) => h == (Hotkey {
                        ctrl: self.ctrl_held,
                        alt: self.alt_held,
                        shift: self.shift_held,
                        meta: self.meta_held,
                        key: k,
                    }),
                    None => false,
                }
            }
            _ => false,
        });
        let paste = ev.pressed && (match ev.key {
            RawKey::Named(k) => k == KeyName::V,
            _ => false,
        }) && (self.ctrl_held || self.meta_held);

        self.capture.on_key_event(ev);
        match ev.key {
            RawKey::Modifier(ModifierKey::Ctrl) => {
                self.ctrl_held = ev.pressed;
            }
            RawKey::Modifier(ModifierKey::Alt) => {
                self.alt_held = ev.pressed;
            }
            RawKey::Modifier(ModifierKey::Shift) => {
                self.shift_held = ev.pressed;
            }
            RawKey::Modifier(ModifierKey::Meta) => {
                self.meta_held = ev.pressed;
            }
            _ => {}
        }
        if fired && self.fired_pending < u64::MAX {
            self.fired_pending = self.fired_pending + 1;
        }
        if paste {
            self.paste_detected = true;
        }
    }

    /// Begin recording a new combination.
    pub fn start_hotkey_capture(&mut self)
        ensures
            final(self)@ == (MonitorModel {
                capture: CaptureModel { active: true, ..idle_model() },
                ..old(self)@
            }),
    {
        self.capture.start_hotkey_capture();
    }

    /// Abandon recording without an outcome.
    pub fn stop_hotkey_capture(&mut self)
        ensures
            final(self)@ == (MonitorModel {
                capture: CaptureModel { active: false, ..old(self)@.capture },
                ..old(self)@
            }),
    {
        self.capture.stop_hotkey_capture();
    }

    /// Whether a recording is in progress.
    pub fn is_capturing(&self) -> (r: bool)
        ensures
            r == self@.capture.active,
    {
        self.capture.is_capturing()
    }

    /// Take the one-shot capture outcome.
    pub fn poll_capture_result(&mut self) -> (r: Option<CaptureOutcome>)
        ensures
            final(self)@ == (MonitorModel {
                capture: CaptureModel { result: None, ..old(self)@.capture },
                ..old(self)@
            }),
            match old(self)@.capture.result {
                Some(o) => r matches Some(x) && x@ == o,
                None => r is None,
            },
    {
        self.capture.poll_capture_result()
    }

    /// Take the one-shot capture outcome as a mnemonic string, the empty
    /// string standing for a cancelled session.
    pub fn get_captured_hotkey(&mut self) -> (r: Option<String>)
        ensures
            final(self)@ == (MonitorModel {
                capture: CaptureModel { result: None, ..old(self)@.capture },
                ..old(self)@
            }),
            match old(self)@.capture.result {
                Some(CaptureOutcomeV::Captured(s)) => r matches Some(x) && x@ == s,
                Some(CaptureOutcomeV::Cancelled) => r matches Some(x) && x@ == Seq::<
                    char,
                >::empty(),
                None => r is None,
            },
    {
        self.capture.get_captured_hotkey()
    }

    /// The poll-based capture fallback, against a current-state snapshot.
    pub fn poll_hotkey_capture(&mut self, snap: &KeySnapshot) -> (r: Option<String>)
        ensures
            ({
                let (c2, out) = poll_spec(
                    old(self)@.capture,
                    snap.ctrl,
                    snap.alt,
                    snap.shift,
                    snap.meta,
                    snap.pressed@,
                );
                final(self)@ == (MonitorModel { capture: c2, ..old(self)@ }) && (match r {
                    Some(s) => out == Some(s@),
                    None => out is None,
                })
            }),
    {
        self.capture.poll_hotkey_capture(snap)
    }

    /// Set the binding that the raw stream fires on. The mnemonic is
    /// validated first; a rejected mnemonic leaves the binding unchanged
    /// and surfaces exactly the parse error.
    pub fn set_active_hotkey(&mut self, mnemonic: &str) -> (r: Result<(), ParseError>)
        ensures
            match parse_spec(mnemonic@) {
                Ok(h) => r is Ok && final(self)@ == (MonitorModel {
                    active_hotkey: Some(h),
                    ..old(self)@
                }),
                Err(e) => r matches Err(e2) && e2@ == e && final(self)@ == old(self)@,
            },
    {
        match parse_hotkey(mnemonic) {
            Ok(h) => {
                self.active_hotkey = Some(h);
                Ok(())
            }
            Err(e) => Err(e),
        }
    }

    /// Read and clear the one-shot paste latch.
    pub fn check_ctrl_v_pressed(&mut self) -> (r: bool)
        ensures
            r == old(self)@.paste_detected,
            final(self)@ == (MonitorModel { paste_detected: false, ..old(self)@ }),
    {
        let was = self.paste_detected;
        self.paste_detected = false;
        was
    }

    /// Take one pending hotkey-fired notification, if any.
    pub fn try_recv_hotkey_fired(&mut self) -> (r: bool)
        ensures
            r == (old(self)@.fired_pending > 0),
            final(self)@ == (MonitorModel {
                fired_pending: if old(self)@.fired_pending > 0 {
                    (old(self)@.fired_pending - 1) as u64
                } else {
                    0
                },
                ..old(self)@
            }),
    {
        if self.fired_pending > 0 {
            self.fired_pending = self.fired_pending - 1;
            true
        } else {
            false
        }
    }

    /// Record why the raw key-event source failed to install. Only the
    /// first report of a monitor's lifetime is kept.
    pub fn report_keyboard_monitor_error(&mut self, message: &str)
        ensures
            final(self)@ == report_spec(old(self)@, message@),
    {
        if self.fault_reported {
            return;
        }
        self.fault_reported = true;
        self.fault = Some(message.to_owned());
    }

    /// Take the at-most-once fault notification, if one is waiting.
    pub fn take_monitor_error(&mut self) -> (r: Option<String>)
        ensures
            final(self)@ == (MonitorModel { fault: None, ..old(self)@ }),
            match old(self)@.fault {
                Some(s) => r matches Some(x) && x@ == s,
                None => r is None,
            },
    {
        self.fault.take()
    }
}

} // verus!

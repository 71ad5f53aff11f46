//! The interactive capture state machine: Idle → Active → (finalized |
//! cancelled) → Idle.
//!
//! While active, modifier transitions maintain a held-modifier bitset;
//! Escape cancels on press; Tab never finalizes (so window-switching
//! chords stay with the system); any other non-modifier press finalizes
//! only when a modifier is held, rendering the combination as a mnemonic
//! (with a raw-code placeholder when the key has no symbolic name). The
//! one-shot outcome is consumed by polling.

use vstd::prelude::*;

use crate::keycodes::{spec_common_key_name, spec_is_modifier_vk, common_key_name, is_modifier_key};
use crate::keys::{key_chars, key_display, KeyName, ModifierKey};

verus! {

/// One observed key, as the raw event source reports it: a modifier, a key
/// of the closed table, or a raw code with no symbolic name.
#[derive(Clone, Copy, Debug, PartialEq, Eq, Structural)]
pub enum RawKey {
    Modifier(ModifierKey),
    Named(KeyName),
    Unnamed(u16),
}

/// One key transition: which key, and whether it went down or up.
#[derive(Clone, Copy, Debug, PartialEq, Eq, Structural)]
pub struct KeyTransition {
    pub key: RawKey,
    pub pressed: bool,
}

/// How a capture session ended: a recorded mnemonic, or cancellation.
#[derive(Debug, Clone, PartialEq, Eq)]
pub enum CaptureOutcome {
    Captured(String),
    Cancelled,
}

/// The mathematical shape of a [`CaptureOutcome`].
pub enum CaptureOutcomeV {
    Captured(Seq<char>),
    Cancelled,
}

impl View for CaptureOutcome {
    type V = CaptureOutcomeV;

    open spec fn view(&self) -> CaptureOutcomeV {
        match self {
            CaptureOutcome::Captured(s) => CaptureOutcomeV::Captured(s@),
            CaptureOutcome::Cancelled => CaptureOutcomeV::Cancelled,
        }
    }
}

/// The mathematical state of a capture session.
pub struct CaptureModel {
    pub active: bool,
    pub ctrl: bool,
    pub alt: bool,
    pub shift: bool,
    pub meta: bool,
    pub result: Option<CaptureOutcomeV>,
}

impl CaptureModel {
    /// Whether any modifier is currently held.
    pub open spec fn any_modifier(self) -> bool {
        self.ctrl || self.alt || self.shift || self.meta
    }
}

/// A session that has never run: idle, nothing held, no outcome.
pub open spec fn idle_model() -> CaptureModel {
    CaptureModel { active: false, ctrl: false, alt: false, shift: false, meta: false, result: None }
}

/// A hexadecimal digit, upper case.
pub open spec fn hex_digit_char(d: int) -> char {
    if d == 0 {
        '0'
    } else if d == 1 {
        '1'
    } else if d == 2 {
        '2'
    } else if d == 3 {
        '3'
    } else if d == 4 {
        '4'
    } else if d == 5 {
        '5'
    } else if d == 6 {
        '6'
    } else if d == 7 {
        '7'
    } else if d == 8 {
        '8'
    } else if d == 9 {
        '9'
    } else if d == 10 {
        'A'
    } else if d == 11 {
        'B'
    } else if d == 12 {
        'C'
    } else if d == 13 {
        'D'
    } else if d == 14 {
        'E'
    } else {
        'F'
    }
}

/// The best-effort placeholder for a key with no symbolic name: `VK`
/// followed by the raw code in hexadecimal, two digits for small codes.
pub open spec fn placeholder_chars(code: u16) -> Seq<char> {
    if code < 0x100 {
        "VK"@ + seq![hex_digit_char(code as int / 16), hex_digit_char(code as int % 16)]
    } else {
        "VK"@ + seq![
            hex_digit_char(code as int / 4096),
            hex_digit_char((code as int / 256) % 16),
            hex_digit_char((code as int / 16) % 16),
            hex_digit_char(code as int % 16),
        ]
    }
}

/// The mnemonic a finalized capture records: held modifiers in canonical
/// order, then the key's display name or its placeholder.
pub open spec fn captured_chars(
    ctrl: bool,
    alt: bool,
    shift: bool,
    meta: bool,
    key: RawKey,
) -> Seq<char> {
    (if ctrl {
        "Ctrl+"@
    } else {
        Seq::<char>::empty()
    }) + (if alt {
        "Alt+"@
    } else {
        Seq::<char>::empty()
    }) + (if shift {
        "Shift+"@
    } else {
        Seq::<char>::empty()
    }) + (if meta {
        "Meta+"@
    } else {
        Seq::<char>::empty()
    }) + (match key {
        RawKey::Named(k) => key_chars(k),
        RawKey::Unnamed(c) => placeholder_chars(c),
        RawKey::Modifier(_) => Seq::<char>::empty(),
    })
}

/// How one observed transition moves the session. Events while idle are
/// ignored; modifier transitions only move the bitset; Escape cancels on
/// press whatever is held; Tab is excluded from finalizing; any other key
/// press finalizes only when a modifier is held, and a bare key press is
/// ignored so capture stays active.
pub open spec fn capture_step(m: CaptureModel, ev: KeyTransition) -> CaptureModel {
    if !m.active {
        m
    } else {
        match ev.key {
            RawKey::Modifier(ModifierKey::Ctrl) => CaptureModel { ctrl: ev.pressed, ..m },
            RawKey::Modifier(ModifierKey::Alt) => CaptureModel { alt: ev.pressed, ..m },
            RawKey::Modifier(ModifierKey::Shift) => CaptureModel { shift: ev.pressed, ..m },
            RawKey::Modifier(ModifierKey::Meta) => CaptureModel { meta: ev.pressed, ..m },
            RawKey::Named(k) => {
                if !ev.pressed {
                    m
                } else if k == KeyName::Escape {
                    CaptureModel { active: false, result: Some(CaptureOutcomeV::Cancelled), ..m }
                } else if k == KeyName::Tab {
                    m
                } else if m.any_modifier() {
                    CaptureModel {
                        active: false,
                        result: Some(
                            CaptureOutcomeV::Captured(
                                captured_chars(m.ctrl, m.alt, m.shift, m.meta, ev.key),
                            ),
                        ),
                        ..m
                    }
                } else {
                    m
                }
            }
            RawKey::Unnamed(_) => {
                if ev.pressed && m.any_modifier() {
                    CaptureModel {
                        active: false,
                        result: Some(
                            CaptureOutcomeV::Captured(
                                captured_chars(m.ctrl, m.alt, m.shift, m.meta, ev.key),
                            ),
                        ),
                        ..m
                    }
                } else {
                    m
                }
            }
        }
    }
}

/// A sample of the keyboard's current state, for the poll-based fallback
/// where push interception cannot be installed: which modifiers are down,
/// and the candidate key codes found down, in the sampler's scan order.
pub struct KeySnapshot {
    pub ctrl: bool,
    pub alt: bool,
    pub shift: bool,
    pub meta: bool,
    pub pressed: Vec<u16>,
}

/// The first sampled code the capture rules act on: modifier codes only
/// move the bitset and the excluded key (Tab) never finalizes, so both are
/// passed over.
pub open spec fn first_candidate(keys: Seq<u16>) -> Option<u16>
    decreases keys.len(),
{
    if keys.len() == 0 {
        None
    } else if !spec_is_modifier_vk(keys[0]) && spec_common_key_name(keys[0]) != Some(
        KeyName::Tab,
    ) {
        Some(keys[0])
    } else {
        first_candidate(keys.subrange(1, keys.len() as int))
    }
}

/// A sampled code as a raw key: through the symbolic table when it is
/// covered, the raw code otherwise.
pub open spec fn vk_raw_key(vk: u16) -> RawKey {
    match spec_common_key_name(vk) {
        Some(k) => RawKey::Named(k),
        None => RawKey::Unnamed(vk),
    }
}

/// The poll-based finalization rule, applying the same rules as the push
/// path to a snapshot: modifier codes and the excluded key are passed
/// over, the cancel key found down cancels whatever is held, and any other
/// key found down finalizes only when the snapshot holds a modifier. The
/// mnemonic is returned only for a recorded combination.
pub open spec fn poll_spec(
    m: CaptureModel,
    ctrl: bool,
    alt: bool,
    shift: bool,
    meta: bool,
    keys: Seq<u16>,
) -> (CaptureModel, Option<Seq<char>>) {
    if !m.active {
        (m, None)
    } else {
        match first_candidate(keys) {
            None => (m, None),
            Some(vk) => {
                if spec_common_key_name(vk) == Some(KeyName::Escape) {
                    (
                        CaptureModel {
                            active: false,
                            result: Some(CaptureOutcomeV::Cancelled),
                            ..m
                        },
                        None,
                    )
                } else if ctrl || alt || shift || meta {
                    let chars = captured_chars(ctrl, alt, shift, meta, vk_raw_key(vk));
                    (
                        CaptureModel {
                            active: false,
                            result: Some(CaptureOutcomeV::Captured(chars)),
                            ..m
                        },
                        Some(chars),
                    )
                } else {
                    (m, None)
                }
            }
        }
    }
}

/// The synthesized chord that the copy and paste senders perform, in
/// exactly this order: modifier down, key down, key up, modifier up. The
/// short OS-required delays between the steps are the sender's concern.
pub fn chord_transitions(modifier: ModifierKey, key: KeyName) -> (r: Vec<KeyTransition>)
    ensures
        r@.len() == 4,
        r@[0] == (KeyTransition { key: RawKey::Modifier(modifier), pressed: true }),
        r@[1] == (KeyTransition { key: RawKey::Named(key), pressed: true }),
        r@[2] == (KeyTransition { key: RawKey::Named(key), pressed: false }),
        r@[3] == (KeyTransition { key: RawKey::Modifier(modifier), pressed: false }),
{
    let mut out: Vec<KeyTransition> = Vec::new();
    out.push(KeyTransition { key: RawKey::Modifier(modifier), pressed: true });
    out.push(KeyTransition { key: RawKey::Named(key), pressed: true });
    out.push(KeyTransition { key: RawKey::Named(key), pressed: false });
    out.push(KeyTransition { key: RawKey::Modifier(modifier), pressed: false });
    out
}

/// A capture closes the loop with the parser: the mnemonic recorded from a
/// key of the closed table, with at least one modifier held, parses back
/// to exactly that combination, so a captured binding can always be
/// registered as recorded.
pub proof fn lemma_captured_mnemonic_parses(
    ctrl: bool,
    alt: bool,
    shift: bool,
    meta: bool,
    k: KeyName,
)
    requires
        ctrl || alt || shift || meta,
    ensures
        crate::mnemonic::parse_spec(captured_chars(ctrl, alt, shift, meta, RawKey::Named(k)))
            == Ok::<crate::mnemonic::Hotkey, crate::mnemonic::ParseErrorV>(
            crate::mnemonic::Hotkey { ctrl, alt, shift, meta, key: k },
        ),
{
    let h = crate::mnemonic::Hotkey { ctrl, alt, shift, meta, key: k };
    assert(captured_chars(ctrl, alt, shift, meta, RawKey::Named(k)) =~= crate::mnemonic::canon_chars(
        h,
    ));
    crate::mnemonic::lemma_parse_canonical(h);
}

/// The ephemeral state of one interactive recording.
pub struct CaptureSession {
    active: bool,
    ctrl: bool,
    alt: bool,
    shift: bool,
    meta: bool,
    result: Option<CaptureOutcome>,
}

impl View for CaptureSession {
    type V = CaptureModel;

    closed spec fn view(&self) -> CaptureModel {
        CaptureModel {
            active: self.active,
            ctrl: self.ctrl,
            alt: self.alt,
            shift: self.shift,
            meta: self.meta,
            result: match self.result {
                Some(o) => Some(o@),
                None => None,
            },
        }
    }
}

/// A hexadecimal digit as a string.
fn hex_digit_str(d: u16) -> (r: &'static str)
    requires
        d < 16,
    ensures
        r@ == seq![hex_digit_char(d as int)],
{
    if d == 0 {
        proof {
            reveal_strlit("0");
        }
        "0"
    } else if d == 1 {
        proof {
            reveal_strlit("1");
        }
        "1"
    } else if d == 2 {
        proof {
            reveal_strlit("2");
        }
        "2"
    } else if d == 3 {
        proof {
            reveal_strlit("3");
        }
        "3"
    } else if d == 4 {
        proof {
            reveal_strlit("4");
        }
        "4"
    } else if d == 5 {
        proof {
            reveal_strlit("5");
        }
        "5"
    } else if d == 6 {
        proof {
            reveal_strlit("6");
        }
        "6"
    } else if d == 7 {
        proof {
            reveal_strlit("7");
        }
        "7"
    } else if d == 8 {
        proof {
            reveal_strlit("8");
        }
        "8"
    } else if d == 9 {
        proof {
            reveal_strlit("9");
        }
        "9"
    } else if d == 10 {
        proof {
            reveal_strlit("A");
        }
        "A"
    } else if d == 11 {
        proof {
            reveal_strlit("B");
        }
        "B"
    } else if d == 12 {
        proof {
            reveal_strlit("C");
        }
        "C"
    } else if d == 13 {
        proof {
            reveal_strlit("D");
        }
        "D"
    } else if d == 14 {
        proof {
            reveal_strlit("E");
        }
        "E"
    } else {
        proof {
            reveal_strlit("F");
        }
        "F"
    }
}

/// Render the raw-code placeholder.
fn placeholder_string(code: u16) -> (r: String)
    ensures
        r@ == placeholder_chars(code),
{
    let mut out = String::from_str("VK");
    if code < 0x100 {
        out.append(hex_digit_str(code / 16));
        out.append(hex_digit_str(code % 16));
    } else {
        out.append(hex_digit_str(code / 4096));
        out.append(hex_digit_str((code / 256) % 16));
        out.append(hex_digit_str((code / 16) % 16));
        out.append(hex_digit_str(code % 16));
    }
    proof {
        assert(out@ =~= placeholder_chars(code));
    }
    out
}

/// Render the mnemonic of a finalized capture.
fn captured_mnemonic(ctrl: bool, alt: bool, shift: bool, meta: bool, key: RawKey) -> (r: String)
    ensures
        r@ == captured_chars(ctrl, alt, shift, meta, key),
{
    let mut out = String::new();
    if ctrl {
        out.append("Ctrl+");
    }
    if alt {
        out.append("Alt+");
    }
    if shift {
        out.append("Shift+");
    }
    if meta {
        out.append("Meta+");
    }
    match key {
        RawKey::Named(k) => {
            out.append(key_display(k));
        }
        RawKey::Unnamed(c) => {
            let p = placeholder_string(c);
            out.append(p.as_str());
        }
        RawKey::Modifier(_) => {}
    }
    proof {
        assert(out@ =~= captured_chars(ctrl, alt, shift, meta, key));
    }
    out
}

impl CaptureSession {
    /// A fresh, idle session.
    pub fn new() -> (r: CaptureSession)
        ensures
            r@ == idle_model(),
    {
        CaptureSession {
            active: false,
            ctrl: false,
            alt: false,
            shift: false,
            meta: false,
            result: None,
        }
    }

    /// Whether a recording is in progress.
    pub fn is_capturing(&self) -> (r: bool)
        ensures
            r == self@.active,
    {
        self.active
    }

    /// Begin recording: any prior outcome and held bits are cleared and the
    /// session becomes active.
    pub fn start_hotkey_capture(&mut self)
        ensures
            final(self)@ == (CaptureModel { active: true, ..idle_model() }),
    {
        self.active = true;
        self.ctrl = false;
        self.alt = false;
        self.shift = false;
        self.meta = false;
        self.result = None;
    }

    /// Abandon recording without producing an outcome; an outcome already
    /// produced stays for its consumer.
    pub fn stop_hotkey_capture(&mut self)
        ensures
            final(self)@ == (CaptureModel { active: false, ..old(self)@ }),
    {
        self.active = false;
    }

    /// Feed one observed key transition through the capture rules.
    pub fn on_key_event(&mut self, ev: KeyTransition)
        ensures
            final(self)@ == capture_step(old(self)@, ev),
    {
        if !self.active {
            return;
        }
        match ev.key {
            RawKey::Modifier(ModifierKey::Ctrl) => {
                self.ctrl = ev.pressed;
            }
            RawKey::Modifier(ModifierKey::Alt) => {
                self.alt = ev.pressed;
            }
            RawKey::Modifier(ModifierKey::Shift) => {
                self.shift = ev.pressed;
            }
            RawKey::Modifier(ModifierKey::Meta) => {
                self.meta = ev.pressed;
            }
            RawKey::Named(k) => {
                if !ev.pressed {
                    return;
                }
                if k == KeyName::Escape {
                    self.active = false;
                    self.result = Some(CaptureOutcome::Cancelled);
                    return;
                }
                if k == KeyName::Tab {
                    return;
                }
                if self.ctrl || self.alt || self.shift || self.meta {
                    let m = captured_mnemonic(self.ctrl, self.alt, self.shift, self.meta, ev.key);
                    self.active = false;
                    self.result = Some(CaptureOutcome::Captured(m));
                }
            }
            RawKey::Unnamed(_) => {
                if ev.pressed && (self.ctrl || self.alt || self.shift || self.meta) {
                    let m = captured_mnemonic(self.ctrl, self.alt, self.shift, self.meta, ev.key);
                    self.active = false;
                    self.result = Some(CaptureOutcome::Captured(m));
                }
            }
        }
    }

    /// The poll-based fallback: apply the capture rules to a sample of the
    /// current key state instead of a discrete transition. Modifier codes
    /// and the excluded key are passed over; the cancel key found down
    /// cancels the recording whatever is held; any other key found down
    /// finalizes it, with the snapshot's modifiers, only when one of them
    /// is down, and the recorded mnemonic is also returned directly.
    pub fn poll_hotkey_capture(&mut self, snap: &KeySnapshot) -> (r: Option<String>)
        ensures
            ({
                let (m2, out) = poll_spec(
                    old(self)@,
                    snap.ctrl,
                    snap.alt,
                    snap.shift,
                    snap.meta,
                    snap.pressed@,
                );
                final(self)@ == m2 && (match r {
                    Some(s) => out == Some(s@),
                    None => out is None,
                })
            }),
    {
        if !self.active {
            return None;
        }
        let n = snap.pressed.len();
        proof {
            assert(snap.pressed@.subrange(0, n as int) =~= snap.pressed@);
        }
        let mut i: usize = 0;
        while i < n
            invariant
                i <= n == snap.pressed@.len(),
                first_candidate(snap.pressed@) == first_candidate(
                    snap.pressed@.subrange(i as int, n as int),
                ),
                self@ == old(self)@,
                self.active,
            decreases n - i,
        {
            let vk = snap.pressed[i];
            let ghost rest = snap.pressed@.subrange(i as int, n as int);
            proof {
                assert(rest[0] == snap.pressed@[i as int]);
                assert(rest.subrange(1, rest.len() as int) =~= snap.pressed@.subrange(
                    i + 1,
                    n as int,
                ));
            }
            if !is_modifier_key(vk) {
                let name = common_key_name(vk);
                if name != Some(KeyName::Tab) {
                    if name == Some(KeyName::Escape) {
                        self.active = false;
                        self.result = Some(CaptureOutcome::Cancelled);
                        return None;
                    }
                    if !(snap.ctrl || snap.alt || snap.shift || snap.meta) {
                        return None;
                    }
                    let key = match name {
                        Some(k) => RawKey::Named(k),
                        None => RawKey::Unnamed(vk),
                    };
                    let m = captured_mnemonic(snap.ctrl, snap.alt, snap.shift, snap.meta, key);
                    self.active = false;
                    self.result = Some(CaptureOutcome::Captured(m.clone()));
                    return Some(m);
                }
            }
            i += 1;
        }
        proof {
            assert(snap.pressed@.subrange(n as int, n as int) =~= Seq::<u16>::empty());
        }
        None
    }

    /// Take the one-shot outcome, if recording has finished.
    pub fn poll_capture_result(&mut self) -> (r: Option<CaptureOutcome>)
        ensures
            final(self)@ == (CaptureModel { result: None, ..old(self)@ }),
            match old(self)@.result {
                Some(o) => r matches Some(x) && x@ == o,
                None => r is None,
            },
    {
        self.result.take()
    }

    /// Take the one-shot outcome as a plain mnemonic string: the
    /// recorded mnemonic, or the empty string for a cancelled session.
    pub fn get_captured_hotkey(&mut self) -> (r: Option<String>)
        ensures
            final(self)@ == (CaptureModel { result: None, ..old(self)@ }),
            match old(self)@.result {
                Some(CaptureOutcomeV::Captured(s)) => r matches Some(x) && x@ == s,
                Some(CaptureOutcomeV::Cancelled) => r matches Some(x) && x@ == Seq::<
                    char,
                >::empty(),
                None => r is None,
            },
    {
        match self.poll_capture_result() {
            Some(CaptureOutcome::Captured(s)) => Some(s),
            Some(CaptureOutcome::Cancelled) => Some(String::new()),
            None => None,
        }
    }
}

} // verus!

//! The hotkey registry: owns the single live OS-level binding and keeps the
//! platform registration consistent with it. Rebinding is two-phase: the
//! new combination is registered before the old one is released, so a
//! failed attempt never loses the working binding. The platform calls go
//! through a small trusted boundary around the `global_hotkey` crate.

use vstd::prelude::*;

use crate::keys::key_code_name;
use crate::mnemonic::{parse_hotkey, parse_spec, Hotkey, ParseError};

verus! {

/// The default binding used when no configured mnemonic can be registered.
pub const DEFAULT_HOTKEY: &'static str = "Alt+Q";

#[verifier::external_type_specification]
#[verifier::external_body]
pub struct ExGlobalHotKeyManager(global_hotkey::GlobalHotKeyManager);

#[verifier::external_type_specification]
#[verifier::external_body]
pub struct ExHotKey(global_hotkey::hotkey::HotKey);

#[verifier::external_type_specification]
#[verifier::external_body]
pub struct ExCode(global_hotkey::hotkey::Code);

#[verifier::external_type_specification]
#[verifier::external_body]
pub struct ExGlobalHotKeyEvent(global_hotkey::GlobalHotKeyEvent);

#[verifier::external_type_specification]
#[verifier::external_body]
pub struct ExGlobalHotKeyError(global_hotkey::Error);

#[verifier::external_type_specification]
#[verifier::external_body]
#[verifier::reject_recursive_types(T)]
pub struct ExReceiver<T>(crossbeam_channel::Receiver<T>);

/// Relies on `GlobalHotKeyManager::new`: connects to the platform's hotkey
/// service; whether it succeeds depends on the environment.
#[verifier::external_body]
fn platform_manager_new() -> Result<global_hotkey::GlobalHotKeyManager, global_hotkey::Error> {
    global_hotkey::GlobalHotKeyManager::new()
}

/// Relies on `GlobalHotKeyManager::register`: asks the OS to bind the
/// combination; the OS may refuse, for instance when another process
/// already holds it.
#[verifier::external_body]
fn platform_register(
    manager: &global_hotkey::GlobalHotKeyManager,
    hotkey: global_hotkey::hotkey::HotKey,
) -> Result<(), global_hotkey::Error> {
    manager.register(hotkey)
}

/// Relies on `GlobalHotKeyManager::unregister`: releases a binding.
#[verifier::external_body]
fn platform_unregister(
    manager: &global_hotkey::GlobalHotKeyManager,
    hotkey: global_hotkey::hotkey::HotKey,
) -> Result<(), global_hotkey::Error> {
    manager.unregister(hotkey)
}

/// Relies on `Code::from_str`: resolves a key-code name of the platform
/// key table.
#[verifier::external_body]
fn platform_code(name: &str) -> Option<global_hotkey::hotkey::Code> {
    name.parse::<global_hotkey::hotkey::Code>().ok()
}

/// Relies on `HotKey::new`: packs modifier flags and a key code into a
/// platform hotkey value.
#[verifier::external_body]
fn platform_hotkey(
    ctrl: bool,
    alt: bool,
    shift: bool,
    meta: bool,
    code: global_hotkey::hotkey::Code,
) -> global_hotkey::hotkey::HotKey {
    let mut mods = global_hotkey::hotkey::Modifiers::empty();
    if ctrl {
        mods |= global_hotkey::hotkey::Modifiers::CONTROL;
    }
    if alt {
        mods |= global_hotkey::hotkey::Modifiers::ALT;
    }
    if shift {
        mods |= global_hotkey::hotkey::Modifiers::SHIFT;
    }
    if meta {
        mods |= global_hotkey::hotkey::Modifiers::META;
    }
    global_hotkey::hotkey::HotKey::new(Some(mods), code)
}

/// Relies on `HotKey::id`: the identifier the platform layer stamps on
/// fired events for this binding.
#[verifier::external_body]
fn platform_hotkey_id(hotkey: &global_hotkey::hotkey::HotKey) -> u32 {
    hotkey.id()
}

/// The identifier a fired notification carries: a fixed field of the
/// event value, so a function of the event alone.
pub uninterp spec fn event_id_of(event: global_hotkey::GlobalHotKeyEvent) -> u32;

/// Relies on `GlobalHotKeyEvent`'s public `id` field: which binding fired.
#[verifier::external_body]
pub fn event_hotkey_id(event: &global_hotkey::GlobalHotKeyEvent) -> (r: u32)
    ensures
        r == event_id_of(*event),
{
    event.id
}

/// Relies on `GlobalHotKeyEvent::receiver`: the channel on which the
/// platform layer delivers fired notifications.
#[verifier::external_body]
pub fn hotkey_event_receiver() -> crossbeam_channel::Receiver<global_hotkey::GlobalHotKeyEvent> {
    global_hotkey::GlobalHotKeyEvent::receiver().clone()
}

/// Relies on the `Display` impl of `global_hotkey::Error` for a
/// human-readable message.
#[verifier::external_body]
fn platform_error_text(e: &global_hotkey::Error) -> String {
    format!("{}", e)
}

/// Why registering or rebinding failed.
#[derive(Debug)]
pub enum HotkeyError {
    /// The mnemonic did not parse; recoverable, never fatal.
    Parse(ParseError),
    /// The OS refused the binding; the previous binding, if any, is kept.
    PlatformRegistrationFailed(String),
}

/// What a registry observably holds: the validated binding and the
/// identifier the platform stamps on its fired events.
pub struct RegistryModel {
    pub current: Hotkey,
    pub platform_id: u32,
}

/// The single live OS-level binding. Replaced, never mutated in place;
/// released on shutdown.
pub struct HotkeyManager {
    manager: global_hotkey::GlobalHotKeyManager,
    bound: global_hotkey::hotkey::HotKey,
    bound_id: u32,
    current: Hotkey,
}

impl View for HotkeyManager {
    type V = RegistryModel;

    closed spec fn view(&self) -> RegistryModel {
        RegistryModel { current: self.current, platform_id: self.bound_id }
    }
}

impl HotkeyManager {
    /// Validate a mnemonic and bind it. A rejected mnemonic surfaces its
    /// parse error; a refusal by the platform surfaces as a registration
    /// failure; on success the manager holds exactly the parsed hotkey.
    pub fn new(hotkey_str: &str) -> (r: Result<HotkeyManager, HotkeyError>)
        ensures
            match parse_spec(hotkey_str@) {
                Err(pe) => r matches Err(HotkeyError::Parse(e)) && e@ == pe,
                Ok(h) => match r {
                    Ok(mgr) => mgr@.current == h,
                    Err(e) => e is PlatformRegistrationFailed,
                },
            },
    {
        let h = match parse_hotkey(hotkey_str) {
            Ok(h) => h,
            Err(e) => {
                return Err(HotkeyError::Parse(e));
            }
        };
        let code = match platform_code(key_code_name(h.key)) {
            Some(c) => c,
            None => {
                return Err(
                    HotkeyError::PlatformRegistrationFailed(
                        String::from_str("key code not supported by the platform table"),
                    ),
                );
            }
        };
        let bound = platform_hotkey(h.ctrl, h.alt, h.shift, h.meta, code);
        let manager = match platform_manager_new() {
            Ok(m) => m,
            Err(e) => {
                return Err(HotkeyError::PlatformRegistrationFailed(platform_error_text(&e)));
            }
        };
        if let Err(e) = platform_register(&manager, bound) {
            return Err(HotkeyError::PlatformRegistrationFailed(platform_error_text(&e)));
        }
        let bound_id = platform_hotkey_id(&bound);
        Ok(HotkeyManager { manager, bound, bound_id, current: h })
    }

    /// The binding currently held.
    pub fn current_hotkey(&self) -> (r: Hotkey)
        ensures
            r == self@.current,
    {
        self.current
    }

    /// Whether a fired-event identifier belongs to the current binding.
    pub fn matches_event_id(&self, id: u32) -> (r: bool)
        ensures
            r == (id == self@.platform_id),
    {
        id == self.bound_id
    }

    /// Whether a platform notification reports the current binding: its
    /// identifier equals the one the platform stamped on this binding.
    pub fn is_translate_hotkey(&self, event: &global_hotkey::GlobalHotKeyEvent) -> (r: bool)
        ensures
            r == (event_id_of(*event) == self@.platform_id),
    {
        let id = event_hotkey_id(event);
        self.matches_event_id(id)
    }

    /// Rebind to a new mnemonic. Rebinding to the hotkey already held is a
    /// no-op that reports success without touching the platform. Otherwise
    /// the new combination is registered first, and only after that
    /// succeeds is the old one released: on any failure the previous
    /// binding is untouched and still fires.
    pub fn update_hotkey(&mut self, hotkey_str: &str) -> (r: Result<(), HotkeyError>)
        ensures
            match parse_spec(hotkey_str@) {
                Err(pe) => r matches Err(HotkeyError::Parse(e)) && e@ == pe && final(self)@ == old(
                    self,
                )@,
                Ok(h) => {
                    &&& (h == old(self)@.current ==> r is Ok && final(self)@ == old(self)@)
                    &&& (r is Ok ==> final(self)@.current == h)
                    &&& (r is Err ==> final(self)@ == old(self)@ && r matches Err(
                        HotkeyError::PlatformRegistrationFailed(_),
                    ))
                },
            },
    {
        let h = match parse_hotkey(hotkey_str) {
            Ok(h) => h,
            Err(e) => {
                return Err(HotkeyError::Parse(e));
            }
        };
        if h == self.current {
            // Already bound: skip the churn, and above all skip a second
            // platform registration.
            return Ok(());
        }
        let code = match platform_code(key_code_name(h.key)) {
            Some(c) => c,
            None => {
                return Err(
                    HotkeyError::PlatformRegistrationFailed(
                        String::from_str("key code not supported by the platform table"),
                    ),
                );
            }
        };
        let bound = platform_hotkey(h.ctrl, h.alt, h.shift, h.meta, code);
        // Register the new binding first, so a refusal keeps the old one.
        if let Err(e) = platform_register(&self.manager, bound) {
            return Err(HotkeyError::PlatformRegistrationFailed(platform_error_text(&e)));
        }
        // Safe to release the old binding now. Should the release itself
        // fail, the registry deliberately stays on the old binding and
        // reports the failure: the old combination is then still
        // registered and still matched, which keeps the working binding,
        // at the cost of the new registration lingering unmatched with
        // the platform until shutdown.
        if let Err(e) = platform_unregister(&self.manager, self.bound) {
            return Err(HotkeyError::PlatformRegistrationFailed(platform_error_text(&e)));
        }
        self.bound = bound;
        self.bound_id = platform_hotkey_id(&bound);
        self.current = h;
        Ok(())
    }

    /// Release the binding; the registry is consumed.
    pub fn shutdown(self) {
        let _ = platform_unregister(&self.manager, self.bound);
    }
}

} // verus!

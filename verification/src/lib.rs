//! Global hotkey and key-event interception core.
//!
//! This library holds the logic of a background translation helper that
//! listens for a user-configurable global key combination: the mnemonic
//! parser and formatter, the interactive capture state machine, the hotkey
//! registry with its two-phase rebinding rule, the popup placement rules,
//! and the shared monitor state (paste latch, fault latch). Platform event
//! pumps, clipboard access and HTTP calls stay outside; they only hand
//! plain values in and out.

pub mod capture;
pub mod caret;
pub mod clipboard;
pub mod config;
pub mod i18n;
pub mod keycodes;
pub mod keys;
pub mod mnemonic;
pub mod monitor;
pub mod registry;
pub mod text;
pub mod translate;
pub mod tray;

//! The closed key-name table: the main keys a hotkey may use, their
//! canonical display names, their platform key-code names, and the
//! case-insensitive token synonyms the mnemonic grammar accepts.

use vstd::prelude::*;

use crate::text::{lower_seq, no_plus, no_space};

verus! {

/// A modifier key of a hotkey combination.
#[derive(Clone, Copy, Debug, PartialEq, Eq, Structural)]
pub enum ModifierKey {
    Ctrl,
    Alt,
    Shift,
    Meta,
}

/// The closed table of main keys: letters, digits, function keys, and
/// navigation or editing keys.
#[derive(Clone, Copy, Debug, PartialEq, Eq, Structural)]
pub enum KeyName {
    A,
    B,
    C,
    D,
    E,
    F,
    G,
    H,
    I,
    J,
    K,
    L,
    M,
    N,
    O,
    P,
    Q,
    R,
    S,
    T,
    U,
    V,
    W,
    X,
    Y,
    Z,
    D0,
    D1,
    D2,
    D3,
    D4,
    D5,
    D6,
    D7,
    D8,
    D9,
    F1,
    F2,
    F3,
    F4,
    F5,
    F6,
    F7,
    F8,
    F9,
    F10,
    F11,
    F12,
    Space,
    Enter,
    Tab,
    Escape,
    Backspace,
    Delete,
    Insert,
    Home,
    End,
    PageUp,
    PageDown,
    Up,
    Down,
    Left,
    Right,
}

/// Canonical display name of a main key.
pub open spec fn key_chars(k: KeyName) -> Seq<char> {
    match k {
        KeyName::A => "A"@,
        KeyName::B => "B"@,
        KeyName::C => "C"@,
        KeyName::D => "D"@,
        KeyName::E => "E"@,
        KeyName::F => "F"@,
        KeyName::G => "G"@,
        KeyName::H => "H"@,
        KeyName::I => "I"@,
        KeyName::J => "J"@,
        KeyName::K => "K"@,
        KeyName::L => "L"@,
        KeyName::M => "M"@,
        KeyName::N => "N"@,
        KeyName::O => "O"@,
        KeyName::P => "P"@,
        KeyName::Q => "Q"@,
        KeyName::R => "R"@,
        KeyName::S => "S"@,
        KeyName::T => "T"@,
        KeyName::U => "U"@,
        KeyName::V => "V"@,
        KeyName::W => "W"@,
        KeyName::X => "X"@,
        KeyName::Y => "Y"@,
        KeyName::Z => "Z"@,
        KeyName::D0 => "0"@,
        KeyName::D1 => "1"@,
        KeyName::D2 => "2"@,
        KeyName::D3 => "3"@,
        KeyName::D4 => "4"@,
        KeyName::D5 => "5"@,
        KeyName::D6 => "6"@,
        KeyName::D7 => "7"@,
        KeyName::D8 => "8"@,
        KeyName::D9 => "9"@,
        KeyName::F1 => "F1"@,
        KeyName::F2 => "F2"@,
        KeyName::F3 => "F3"@,
        KeyName::F4 => "F4"@,
        KeyName::F5 => "F5"@,
        KeyName::F6 => "F6"@,
        KeyName::F7 => "F7"@,
        KeyName::F8 => "F8"@,
        KeyName::F9 => "F9"@,
        KeyName::F10 => "F10"@,
        KeyName::F11 => "F11"@,
        KeyName::F12 => "F12"@,
        KeyName::Space => "Space"@,
        KeyName::Enter => "Enter"@,
        KeyName::Tab => "Tab"@,
        KeyName::Escape => "Escape"@,
        KeyName::Backspace => "Backspace"@,
        KeyName::Delete => "Delete"@,
        KeyName::Insert => "Insert"@,
        KeyName::Home => "Home"@,
        KeyName::End => "End"@,
        KeyName::PageUp => "PageUp"@,
        KeyName::PageDown => "PageDown"@,
        KeyName::Up => "Up"@,
        KeyName::Down => "Down"@,
        KeyName::Left => "Left"@,
        KeyName::Right => "Right"@,
    }
}

/// Canonical display name, as a string.
pub fn key_display(k: KeyName) -> (r: &'static str)
    ensures
        r@ == key_chars(k),
{
    match k {
        KeyName::A => "A",
        KeyName::B => "B",
        KeyName::C => "C",
        KeyName::D => "D",
        KeyName::E => "E",
        KeyName::F => "F",
        KeyName::G => "G",
        KeyName::H => "H",
        KeyName::I => "I",
        KeyName::J => "J",
        KeyName::K => "K",
        KeyName::L => "L",
        KeyName::M => "M",
        KeyName::N => "N",
        KeyName::O => "O",
        KeyName::P => "P",
        KeyName::Q => "Q",
        KeyName::R => "R",
        KeyName::S => "S",
        KeyName::T => "T",
        KeyName::U => "U",
        KeyName::V => "V",
        KeyName::W => "W",
        KeyName::X => "X",
        KeyName::Y => "Y",
        KeyName::Z => "Z",
        KeyName::D0 => "0",
        KeyName::D1 => "1",
        KeyName::D2 => "2",
        KeyName::D3 => "3",
        KeyName::D4 => "4",
        KeyName::D5 => "5",
        KeyName::D6 => "6",
        KeyName::D7 => "7",
        KeyName::D8 => "8",
        KeyName::D9 => "9",
        KeyName::F1 => "F1",
        KeyName::F2 => "F2",
        KeyName::F3 => "F3",
        KeyName::F4 => "F4",
        KeyName::F5 => "F5",
        KeyName::F6 => "F6",
        KeyName::F7 => "F7",
        KeyName::F8 => "F8",
        KeyName::F9 => "F9",
        KeyName::F10 => "F10",
        KeyName::F11 => "F11",
        KeyName::F12 => "F12",
        KeyName::Space => "Space",
        KeyName::Enter => "Enter",
        KeyName::Tab => "Tab",
        KeyName::Escape => "Escape",
        KeyName::Backspace => "Backspace",
        KeyName::Delete => "Delete",
        KeyName::Insert => "Insert",
        KeyName::Home => "Home",
        KeyName::End => "End",
        KeyName::PageUp => "PageUp",
        KeyName::PageDown => "PageDown",
        KeyName::Up => "Up",
        KeyName::Down => "Down",
        KeyName::Left => "Left",
        KeyName::Right => "Right",
    }
}

/// Platform key-code name of a main key, as the platform key tables
/// spell it.
pub open spec fn key_code_chars(k: KeyName) -> Seq<char> {
    match k {
        KeyName::A => "KeyA"@,
        KeyName::B => "KeyB"@,
        KeyName::C => "KeyC"@,
        KeyName::D => "KeyD"@,
        KeyName::E => "KeyE"@,
        KeyName::F => "KeyF"@,
        KeyName::G => "KeyG"@,
        KeyName::H => "KeyH"@,
        KeyName::I => "KeyI"@,
        KeyName::J => "KeyJ"@,
        KeyName::K => "KeyK"@,
        KeyName::L => "KeyL"@,
        KeyName::M => "KeyM"@,
        KeyName::N => "KeyN"@,
        KeyName::O => "KeyO"@,
        KeyName::P => "KeyP"@,
        KeyName::Q => "KeyQ"@,
        KeyName::R => "KeyR"@,
        KeyName::S => "KeyS"@,
        KeyName::T => "KeyT"@,
        KeyName::U => "KeyU"@,
        KeyName::V => "KeyV"@,
        KeyName::W => "KeyW"@,
        KeyName::X => "KeyX"@,
        KeyName::Y => "KeyY"@,
        KeyName::Z => "KeyZ"@,
        KeyName::D0 => "Digit0"@,
        KeyName::D1 => "Digit1"@,
        KeyName::D2 => "Digit2"@,
        KeyName::D3 => "Digit3"@,
        KeyName::D4 => "Digit4"@,
        KeyName::D5 => "Digit5"@,
        KeyName::D6 => "Digit6"@,
        KeyName::D7 => "Digit7"@,
        KeyName::D8 => "Digit8"@,
        KeyName::D9 => "Digit9"@,
        KeyName::F1 => "F1"@,
        KeyName::F2 => "F2"@,
        KeyName::F3 => "F3"@,
        KeyName::F4 => "F4"@,
        KeyName::F5 => "F5"@,
        KeyName::F6 => "F6"@,
        KeyName::F7 => "F7"@,
        KeyName::F8 => "F8"@,
        KeyName::F9 => "F9"@,
        KeyName::F10 => "F10"@,
        KeyName::F11 => "F11"@,
        KeyName::F12 => "F12"@,
        KeyName::Space => "Space"@,
        KeyName::Enter => "Enter"@,
        KeyName::Tab => "Tab"@,
        KeyName::Escape => "Escape"@,
        KeyName::Backspace => "Backspace"@,
        KeyName::Delete => "Delete"@,
        KeyName::Insert => "Insert"@,
        KeyName::Home => "Home"@,
        KeyName::End => "End"@,
        KeyName::PageUp => "PageUp"@,
        KeyName::PageDown => "PageDown"@,
        KeyName::Up => "ArrowUp"@,
        KeyName::Down => "ArrowDown"@,
        KeyName::Left => "ArrowLeft"@,
        KeyName::Right => "ArrowRight"@,
    }
}

/// Platform key-code name, as a string.
pub fn key_code_name(k: KeyName) -> (r: &'static str)
    ensures
        r@ == key_code_chars(k),
{
    match k {
        KeyName::A => "KeyA",
        KeyName::B => "KeyB",
        KeyName::C => "KeyC",
        KeyName::D => "KeyD",
        KeyName::E => "KeyE",
        KeyName::F => "KeyF",
        KeyName::G => "KeyG",
        KeyName::H => "KeyH",
        KeyName::I => "KeyI",
        KeyName::J => "KeyJ",
        KeyName::K => "KeyK",
        KeyName::L => "KeyL",
        KeyName::M => "KeyM",
        KeyName::N => "KeyN",
        KeyName::O => "KeyO",
        KeyName::P => "KeyP",
        KeyName::Q => "KeyQ",
        KeyName::R => "KeyR",
        KeyName::S => "KeyS",
        KeyName::T => "KeyT",
        KeyName::U => "KeyU",
        KeyName::V => "KeyV",
        KeyName::W => "KeyW",
        KeyName::X => "KeyX",
        KeyName::Y => "KeyY",
        KeyName::Z => "KeyZ",
        KeyName::D0 => "Digit0",
        KeyName::D1 => "Digit1",
        KeyName::D2 => "Digit2",
        KeyName::D3 => "Digit3",
        KeyName::D4 => "Digit4",
        KeyName::D5 => "Digit5",
        KeyName::D6 => "Digit6",
        KeyName::D7 => "Digit7",
        KeyName::D8 => "Digit8",
        KeyName::D9 => "Digit9",
        KeyName::F1 => "F1",
        KeyName::F2 => "F2",
        KeyName::F3 => "F3",
        KeyName::F4 => "F4",
        KeyName::F5 => "F5",
        KeyName::F6 => "F6",
        KeyName::F7 => "F7",
        KeyName::F8 => "F8",
        KeyName::F9 => "F9",
        KeyName::F10 => "F10",
        KeyName::F11 => "F11",
        KeyName::F12 => "F12",
        KeyName::Space => "Space",
        KeyName::Enter => "Enter",
        KeyName::Tab => "Tab",
        KeyName::Escape => "Escape",
        KeyName::Backspace => "Backspace",
        KeyName::Delete => "Delete",
        KeyName::Insert => "Insert",
        KeyName::Home => "Home",
        KeyName::End => "End",
        KeyName::PageUp => "PageUp",
        KeyName::PageDown => "PageDown",
        KeyName::Up => "ArrowUp",
        KeyName::Down => "ArrowDown",
        KeyName::Left => "ArrowLeft",
        KeyName::Right => "ArrowRight",
    }
}

/// Position of a key in the table; distinct for distinct keys.
pub open spec fn key_ord(k: KeyName) -> int {
    match k {
        KeyName::A => 0,
        KeyName::B => 1,
        KeyName::C => 2,
        KeyName::D => 3,
        KeyName::E => 4,
        KeyName::F => 5,
        KeyName::G => 6,
        KeyName::H => 7,
        KeyName::I => 8,
        KeyName::J => 9,
        KeyName::K => 10,
        KeyName::L => 11,
        KeyName::M => 12,
        KeyName::N => 13,
        KeyName::O => 14,
        KeyName::P => 15,
        KeyName::Q => 16,
        KeyName::R => 17,
        KeyName::S => 18,
        KeyName::T => 19,
        KeyName::U => 20,
        KeyName::V => 21,
        KeyName::W => 22,
        KeyName::X => 23,
        KeyName::Y => 24,
        KeyName::Z => 25,
        KeyName::D0 => 26,
        KeyName::D1 => 27,
        KeyName::D2 => 28,
        KeyName::D3 => 29,
        KeyName::D4 => 30,
        KeyName::D5 => 31,
        KeyName::D6 => 32,
        KeyName::D7 => 33,
        KeyName::D8 => 34,
        KeyName::D9 => 35,
        KeyName::F1 => 36,
        KeyName::F2 => 37,
        KeyName::F3 => 38,
        KeyName::F4 => 39,
        KeyName::F5 => 40,
        KeyName::F6 => 41,
        KeyName::F7 => 42,
        KeyName::F8 => 43,
        KeyName::F9 => 44,
        KeyName::F10 => 45,
        KeyName::F11 => 46,
        KeyName::F12 => 47,
        KeyName::Space => 48,
        KeyName::Enter => 49,
        KeyName::Tab => 50,
        KeyName::Escape => 51,
        KeyName::Backspace => 52,
        KeyName::Delete => 53,
        KeyName::Insert => 54,
        KeyName::Home => 55,
        KeyName::End => 56,
        KeyName::PageUp => 57,
        KeyName::PageDown => 58,
        KeyName::Up => 59,
        KeyName::Down => 60,
        KeyName::Left => 61,
        KeyName::Right => 62,
    }
}

/// Table position, as a number.
pub fn key_ord_exec(k: KeyName) -> (r: u32)
    ensures
        r == key_ord(k),
{
    match k {
        KeyName::A => 0,
        KeyName::B => 1,
        KeyName::C => 2,
        KeyName::D => 3,
        KeyName::E => 4,
        KeyName::F => 5,
        KeyName::G => 6,
        KeyName::H => 7,
        KeyName::I => 8,
        KeyName::J => 9,
        KeyName::K => 10,
        KeyName::L => 11,
        KeyName::M => 12,
        KeyName::N => 13,
        KeyName::O => 14,
        KeyName::P => 15,
        KeyName::Q => 16,
        KeyName::R => 17,
        KeyName::S => 18,
        KeyName::T => 19,
        KeyName::U => 20,
        KeyName::V => 21,
        KeyName::W => 22,
        KeyName::X => 23,
        KeyName::Y => 24,
        KeyName::Z => 25,
        KeyName::D0 => 26,
        KeyName::D1 => 27,
        KeyName::D2 => 28,
        KeyName::D3 => 29,
        KeyName::D4 => 30,
        KeyName::D5 => 31,
        KeyName::D6 => 32,
        KeyName::D7 => 33,
        KeyName::D8 => 34,
        KeyName::D9 => 35,
        KeyName::F1 => 36,
        KeyName::F2 => 37,
        KeyName::F3 => 38,
        KeyName::F4 => 39,
        KeyName::F5 => 40,
        KeyName::F6 => 41,
        KeyName::F7 => 42,
        KeyName::F8 => 43,
        KeyName::F9 => 44,
        KeyName::F10 => 45,
        KeyName::F11 => 46,
        KeyName::F12 => 47,
        KeyName::Space => 48,
        KeyName::Enter => 49,
        KeyName::Tab => 50,
        KeyName::Escape => 51,
        KeyName::Backspace => 52,
        KeyName::Delete => 53,
        KeyName::Insert => 54,
        KeyName::Home => 55,
        KeyName::End => 56,
        KeyName::PageUp => 57,
        KeyName::PageDown => 58,
        KeyName::Up => 59,
        KeyName::Down => 60,
        KeyName::Left => 61,
        KeyName::Right => 62,
    }
}

/// The key a single-character token names.
pub open spec fn key_of_char(c: char) -> Option<KeyName> {
    match c {
        'a' => Some(KeyName::A),
        'b' => Some(KeyName::B),
        'c' => Some(KeyName::C),
        'd' => Some(KeyName::D),
        'e' => Some(KeyName::E),
        'f' => Some(KeyName::F),
        'g' => Some(KeyName::G),
        'h' => Some(KeyName::H),
        'i' => Some(KeyName::I),
        'j' => Some(KeyName::J),
        'k' => Some(KeyName::K),
        'l' => Some(KeyName::L),
        'm' => Some(KeyName::M),
        'n' => Some(KeyName::N),
        'o' => Some(KeyName::O),
        'p' => Some(KeyName::P),
        'q' => Some(KeyName::Q),
        'r' => Some(KeyName::R),
        's' => Some(KeyName::S),
        't' => Some(KeyName::T),
        'u' => Some(KeyName::U),
        'v' => Some(KeyName::V),
        'w' => Some(KeyName::W),
        'x' => Some(KeyName::X),
        'y' => Some(KeyName::Y),
        'z' => Some(KeyName::Z),
        '0' => Some(KeyName::D0),
        '1' => Some(KeyName::D1),
        '2' => Some(KeyName::D2),
        '3' => Some(KeyName::D3),
        '4' => Some(KeyName::D4),
        '5' => Some(KeyName::D5),
        '6' => Some(KeyName::D6),
        '7' => Some(KeyName::D7),
        '8' => Some(KeyName::D8),
        '9' => Some(KeyName::D9),
        _ => None,
    }
}

/// Executable single-character lookup.
pub fn key_of_char_exec(c: char) -> (r: Option<KeyName>)
    ensures
        r == key_of_char(c),
{
    match c {
        'a' => Some(KeyName::A),
        'b' => Some(KeyName::B),
        'c' => Some(KeyName::C),
        'd' => Some(KeyName::D),
        'e' => Some(KeyName::E),
        'f' => Some(KeyName::F),
        'g' => Some(KeyName::G),
        'h' => Some(KeyName::H),
        'i' => Some(KeyName::I),
        'j' => Some(KeyName::J),
        'k' => Some(KeyName::K),
        'l' => Some(KeyName::L),
        'm' => Some(KeyName::M),
        'n' => Some(KeyName::N),
        'o' => Some(KeyName::O),
        'p' => Some(KeyName::P),
        'q' => Some(KeyName::Q),
        'r' => Some(KeyName::R),
        's' => Some(KeyName::S),
        't' => Some(KeyName::T),
        'u' => Some(KeyName::U),
        'v' => Some(KeyName::V),
        'w' => Some(KeyName::W),
        'x' => Some(KeyName::X),
        'y' => Some(KeyName::Y),
        'z' => Some(KeyName::Z),
        '0' => Some(KeyName::D0),
        '1' => Some(KeyName::D1),
        '2' => Some(KeyName::D2),
        '3' => Some(KeyName::D3),
        '4' => Some(KeyName::D4),
        '5' => Some(KeyName::D5),
        '6' => Some(KeyName::D6),
        '7' => Some(KeyName::D7),
        '8' => Some(KeyName::D8),
        '9' => Some(KeyName::D9),
        _ => None,
    }
}

/// The key a case-folded token names, if any.
pub open spec fn key_of_token(t: Seq<char>) -> Option<KeyName> {
    if t.len() == 1 {
        key_of_char(t[0])
    } else if t == "f1"@ {
        Some(KeyName::F1)
    } else if t == "f2"@ {
        Some(KeyName::F2)
    } else if t == "f3"@ {
        Some(KeyName::F3)
    } else if t == "f4"@ {
        Some(KeyName::F4)
    } else if t == "f5"@ {
        Some(KeyName::F5)
    } else if t == "f6"@ {
        Some(KeyName::F6)
    } else if t == "f7"@ {
        Some(KeyName::F7)
    } else if t == "f8"@ {
        Some(KeyName::F8)
    } else if t == "f9"@ {
        Some(KeyName::F9)
    } else if t == "f10"@ {
        Some(KeyName::F10)
    } else if t == "f11"@ {
        Some(KeyName::F11)
    } else if t == "f12"@ {
        Some(KeyName::F12)
    } else if t == "space"@ {
        Some(KeyName::Space)
    } else if t == "spacebar"@ {
        Some(KeyName::Space)
    } else if t == "enter"@ {
        Some(KeyName::Enter)
    } else if t == "return"@ {
        Some(KeyName::Enter)
    } else if t == "tab"@ {
        Some(KeyName::Tab)
    } else if t == "escape"@ {
        Some(KeyName::Escape)
    } else if t == "esc"@ {
        Some(KeyName::Escape)
    } else if t == "backspace"@ {
        Some(KeyName::Backspace)
    } else if t == "delete"@ {
        Some(KeyName::Delete)
    } else if t == "del"@ {
        Some(KeyName::Delete)
    } else if t == "insert"@ {
        Some(KeyName::Insert)
    } else if t == "ins"@ {
        Some(KeyName::Insert)
    } else if t == "home"@ {
        Some(KeyName::Home)
    } else if t == "end"@ {
        Some(KeyName::End)
    } else if t == "pageup"@ {
        Some(KeyName::PageUp)
    } else if t == "pgup"@ {
        Some(KeyName::PageUp)
    } else if t == "pagedown"@ {
        Some(KeyName::PageDown)
    } else if t == "pgdn"@ {
        Some(KeyName::PageDown)
    } else if t == "up"@ {
        Some(KeyName::Up)
    } else if t == "down"@ {
        Some(KeyName::Down)
    } else if t == "left"@ {
        Some(KeyName::Left)
    } else if t == "right"@ {
        Some(KeyName::Right)
    } else {
        None
    }
}

/// The modifier a case-folded token names, if any; every synonym of a
/// modifier maps to the same value.
pub open spec fn modifier_of_token(t: Seq<char>) -> Option<ModifierKey> {
    if t.len() < 3 {
        None
    } else if t == "ctrl"@ || t == "control"@ {
        Some(ModifierKey::Ctrl)
    } else if t == "alt"@ || t == "option"@ || t == "opt"@ {
        Some(ModifierKey::Alt)
    } else if t == "shift"@ {
        Some(ModifierKey::Shift)
    } else if t == "win"@ || t == "super"@ || t == "meta"@ || t == "cmd"@ || t == "command"@ {
        Some(ModifierKey::Meta)
    } else {
        None
    }
}

/// Look the span `[lo, hi)` of `s` up in the key table, case folded.
pub fn key_for_span(s: &str, lo: usize, hi: usize) -> (r: Option<KeyName>)
    requires
        lo <= hi <= s@.len(),
    ensures
        r == key_of_token(lower_seq(s@.subrange(lo as int, hi as int))),
{
    if hi - lo == 1 {
        let c = crate::text::lower_char_exec(s.get_char(lo));
        proof {
            assert(lower_seq(s@.subrange(lo as int, hi as int)) =~= seq![crate::text::lower_char(s@[lo as int])]);
        }
        key_of_char_exec(c)
    } else if crate::text::span_eq_lower(s, lo, hi, "f1") {
        Some(KeyName::F1)
    } else if crate::text::span_eq_lower(s, lo, hi, "f2") {
        Some(KeyName::F2)
    } else if crate::text::span_eq_lower(s, lo, hi, "f3") {
        Some(KeyName::F3)
    } else if crate::text::span_eq_lower(s, lo, hi, "f4") {
        Some(KeyName::F4)
    } else if crate::text::span_eq_lower(s, lo, hi, "f5") {
        Some(KeyName::F5)
    } else if crate::text::span_eq_lower(s, lo, hi, "f6") {
        Some(KeyName::F6)
    } else if crate::text::span_eq_lower(s, lo, hi, "f7") {
        Some(KeyName::F7)
    } else if crate::text::span_eq_lower(s, lo, hi, "f8") {
        Some(KeyName::F8)
    } else if crate::text::span_eq_lower(s, lo, hi, "f9") {
        Some(KeyName::F9)
    } else if crate::text::span_eq_lower(s, lo, hi, "f10") {
        Some(KeyName::F10)
    } else if crate::text::span_eq_lower(s, lo, hi, "f11") {
        Some(KeyName::F11)
    } else if crate::text::span_eq_lower(s, lo, hi, "f12") {
        Some(KeyName::F12)
    } else if crate::text::span_eq_lower(s, lo, hi, "space") {
        Some(KeyName::Space)
    } else if crate::text::span_eq_lower(s, lo, hi, "spacebar") {
        Some(KeyName::Space)
    } else if crate::text::span_eq_lower(s, lo, hi, "enter") {
        Some(KeyName::Enter)
    } else if crate::text::span_eq_lower(s, lo, hi, "return") {
        Some(KeyName::Enter)
    } else if crate::text::span_eq_lower(s, lo, hi, "tab") {
        Some(KeyName::Tab)
    } else if crate::text::span_eq_lower(s, lo, hi, "escape") {
        Some(KeyName::Escape)
    } else if crate::text::span_eq_lower(s, lo, hi, "esc") {
        Some(KeyName::Escape)
    } else if crate::text::span_eq_lower(s, lo, hi, "backspace") {
        Some(KeyName::Backspace)
    } else if crate::text::span_eq_lower(s, lo, hi, "delete") {
        Some(KeyName::Delete)
    } else if crate::text::span_eq_lower(s, lo, hi, "del") {
        Some(KeyName::Delete)
    } else if crate::text::span_eq_lower(s, lo, hi, "insert") {
        Some(KeyName::Insert)
    } else if crate::text::span_eq_lower(s, lo, hi, "ins") {
        Some(KeyName::Insert)
    } else if crate::text::span_eq_lower(s, lo, hi, "home") {
        Some(KeyName::Home)
    } else if crate::text::span_eq_lower(s, lo, hi, "end") {
        Some(KeyName::End)
    } else if crate::text::span_eq_lower(s, lo, hi, "pageup") {
        Some(KeyName::PageUp)
    } else if crate::text::span_eq_lower(s, lo, hi, "pgup") {
        Some(KeyName::PageUp)
    } else if crate::text::span_eq_lower(s, lo, hi, "pagedown") {
        Some(KeyName::PageDown)
    } else if crate::text::span_eq_lower(s, lo, hi, "pgdn") {
        Some(KeyName::PageDown)
    } else if crate::text::span_eq_lower(s, lo, hi, "up") {
        Some(KeyName::Up)
    } else if crate::text::span_eq_lower(s, lo, hi, "down") {
        Some(KeyName::Down)
    } else if crate::text::span_eq_lower(s, lo, hi, "left") {
        Some(KeyName::Left)
    } else if crate::text::span_eq_lower(s, lo, hi, "right") {
        Some(KeyName::Right)
    } else {
        None
    }
}

/// Look the span `[lo, hi)` of `s` up in the modifier table, case folded.
pub fn modifier_for_span(s: &str, lo: usize, hi: usize) -> (r: Option<ModifierKey>)
    requires
        lo <= hi <= s@.len(),
    ensures
        r == modifier_of_token(lower_seq(s@.subrange(lo as int, hi as int))),
{
    if hi - lo < 3 {
        proof {
            assert(lower_seq(s@.subrange(lo as int, hi as int)).len() < 3);
        }
        None
    } else if crate::text::span_eq_lower(s, lo, hi, "ctrl") || crate::text::span_eq_lower(s, lo, hi, "control") {
        Some(ModifierKey::Ctrl)
    } else if crate::text::span_eq_lower(s, lo, hi, "alt") || crate::text::span_eq_lower(s, lo, hi, "option") || crate::text::span_eq_lower(s, lo, hi, "opt") {
        Some(ModifierKey::Alt)
    } else if crate::text::span_eq_lower(s, lo, hi, "shift") {
        Some(ModifierKey::Shift)
    } else if crate::text::span_eq_lower(s, lo, hi, "win") || crate::text::span_eq_lower(s, lo, hi, "super") || crate::text::span_eq_lower(s, lo, hi, "meta") || crate::text::span_eq_lower(s, lo, hi, "cmd") || crate::text::span_eq_lower(s, lo, hi, "command") {
        Some(ModifierKey::Meta)
    } else {
        None
    }
}

proof fn lemma_key_token_f1(k: KeyName)
    requires
        k == KeyName::F1,
    ensures
        key_chars(k).len() > 0,
        no_plus(key_chars(k)),
        no_space(key_chars(k)),
        key_of_token(lower_seq(key_chars(k))) == Some(k),
        modifier_of_token(lower_seq(key_chars(k))) is None,
{
    reveal_strlit("F1");
    reveal_strlit("F2");
    reveal_strlit("F3");
    reveal_strlit("F4");
    reveal_strlit("F5");
    reveal_strlit("F6");
    reveal_strlit("F7");
    reveal_strlit("F8");
    reveal_strlit("F9");
    reveal_strlit("F10");
    reveal_strlit("F11");
    reveal_strlit("F12");
    reveal_strlit("Space");
    reveal_strlit("Enter");
    reveal_strlit("Tab");
    reveal_strlit("Escape");
    reveal_strlit("Backspace");
    reveal_strlit("Delete");
    reveal_strlit("Insert");
    reveal_strlit("Home");
    reveal_strlit("End");
    reveal_strlit("PageUp");
    reveal_strlit("PageDown");
    reveal_strlit("Up");
    reveal_strlit("Down");
    reveal_strlit("Left");
    reveal_strlit("Right");
    reveal_strlit("f1");
    reveal_strlit("f2");
    reveal_strlit("f3");
    reveal_strlit("f4");
    reveal_strlit("f5");
    reveal_strlit("f6");
    reveal_strlit("f7");
    reveal_strlit("f8");
    reveal_strlit("f9");
    reveal_strlit("f10");
    reveal_strlit("f11");
    reveal_strlit("f12");
    reveal_strlit("space");
    reveal_strlit("spacebar");
    reveal_strlit("enter");
    reveal_strlit("return");
    reveal_strlit("tab");
    reveal_strlit("escape");
    reveal_strlit("esc");
    reveal_strlit("backspace");
    reveal_strlit("delete");
    reveal_strlit("del");
    reveal_strlit("insert");
    reveal_strlit("ins");
    reveal_strlit("home");
    reveal_strlit("end");
    reveal_strlit("pageup");
    reveal_strlit("pgup");
    reveal_strlit("pagedown");
    reveal_strlit("pgdn");
    reveal_strlit("up");
    reveal_strlit("down");
    reveal_strlit("left");
    reveal_strlit("right");
    reveal_strlit("ctrl");
    reveal_strlit("control");
    reveal_strlit("alt");
    reveal_strlit("option");
    reveal_strlit("opt");
    reveal_strlit("shift");
    reveal_strlit("win");
    reveal_strlit("super");
    reveal_strlit("meta");
    reveal_strlit("cmd");
    reveal_strlit("command");
    assert(lower_seq("F1"@) =~= "f1"@);
}

proof fn lemma_key_token_f2(k: KeyName)
    requires
        k == KeyName::F2,
    ensures
        key_chars(k).len() > 0,
        no_plus(key_chars(k)),
        no_space(key_chars(k)),
        key_of_token(lower_seq(key_chars(k))) == Some(k),
        modifier_of_token(lower_seq(key_chars(k))) is None,
{
    reveal_strlit("F1");
    reveal_strlit("F2");
    reveal_strlit("F3");
    reveal_strlit("F4");
    reveal_strlit("F5");
    reveal_strlit("F6");
    reveal_strlit("F7");
    reveal_strlit("F8");
    reveal_strlit("F9");
    reveal_strlit("F10");
    reveal_strlit("F11");
    reveal_strlit("F12");
    reveal_strlit("Space");
    reveal_strlit("Enter");
    reveal_strlit("Tab");
    reveal_strlit("Escape");
    reveal_strlit("Backspace");
    reveal_strlit("Delete");
    reveal_strlit("Insert");
    reveal_strlit("Home");
    reveal_strlit("End");
    reveal_strlit("PageUp");
    reveal_strlit("PageDown");
    reveal_strlit("Up");
    reveal_strlit("Down");
    reveal_strlit("Left");
    reveal_strlit("Right");
    reveal_strlit("f1");
    reveal_strlit("f2");
    reveal_strlit("f3");
    reveal_strlit("f4");
    reveal_strlit("f5");
    reveal_strlit("f6");
    reveal_strlit("f7");
    reveal_strlit("f8");
    reveal_strlit("f9");
    reveal_strlit("f10");
    reveal_strlit("f11");
    reveal_strlit("f12");
    reveal_strlit("space");
    reveal_strlit("spacebar");
    reveal_strlit("enter");
    reveal_strlit("return");
    reveal_strlit("tab");
    reveal_strlit("escape");
    reveal_strlit("esc");
    reveal_strlit("backspace");
    reveal_strlit("delete");
    reveal_strlit("del");
    reveal_strlit("insert");
    reveal_strlit("ins");
    reveal_strlit("home");
    reveal_strlit("end");
    reveal_strlit("pageup");
    reveal_strlit("pgup");
    reveal_strlit("pagedown");
    reveal_strlit("pgdn");
    reveal_strlit("up");
    reveal_strlit("down");
    reveal_strlit("left");
    reveal_strlit("right");
    reveal_strlit("ctrl");
    reveal_strlit("control");
    reveal_strlit("alt");
    reveal_strlit("option");
    reveal_strlit("opt");
    reveal_strlit("shift");
    reveal_strlit("win");
    reveal_strlit("super");
    reveal_strlit("meta");
    reveal_strlit("cmd");
    reveal_strlit("command");
    assert(lower_seq("F2"@) =~= "f2"@);
    assert("f2"@[1] != "f1"@[1]);
    assert("f2"@ != "f1"@);
}

proof fn lemma_key_token_f3(k: KeyName)
    requires
        k == KeyName::F3,
    ensures
        key_chars(k).len() > 0,
        no_plus(key_chars(k)),
        no_space(key_chars(k)),
        key_of_token(lower_seq(key_chars(k))) == Some(k),
        modifier_of_token(lower_seq(key_chars(k))) is None,
{
    reveal_strlit("F1");
    reveal_strlit("F2");
    reveal_strlit("F3");
    reveal_strlit("F4");
    reveal_strlit("F5");
    reveal_strlit("F6");
    reveal_strlit("F7");
    reveal_strlit("F8");
    reveal_strlit("F9");
    reveal_strlit("F10");
    reveal_strlit("F11");
    reveal_strlit("F12");
    reveal_strlit("Space");
    reveal_strlit("Enter");
    reveal_strlit("Tab");
    reveal_strlit("Escape");
    reveal_strlit("Backspace");
    reveal_strlit("Delete");
    reveal_strlit("Insert");
    reveal_strlit("Home");
    reveal_strlit("End");
    reveal_strlit("PageUp");
    reveal_strlit("PageDown");
    reveal_strlit("Up");
    reveal_strlit("Down");
    reveal_strlit("Left");
    reveal_strlit("Right");
    reveal_strlit("f1");
    reveal_strlit("f2");
    reveal_strlit("f3");
    reveal_strlit("f4");
    reveal_strlit("f5");
    reveal_strlit("f6");
    reveal_strlit("f7");
    reveal_strlit("f8");
    reveal_strlit("f9");
    reveal_strlit("f10");
    reveal_strlit("f11");
    reveal_strlit("f12");
    reveal_strlit("space");
    reveal_strlit("spacebar");
    reveal_strlit("enter");
    reveal_strlit("return");
    reveal_strlit("tab");
    reveal_strlit("escape");
    reveal_strlit("esc");
    reveal_strlit("backspace");
    reveal_strlit("delete");
    reveal_strlit("del");
    reveal_strlit("insert");
    reveal_strlit("ins");
    reveal_strlit("home");
    reveal_strlit("end");
    reveal_strlit("pageup");
    reveal_strlit("pgup");
    reveal_strlit("pagedown");
    reveal_strlit("pgdn");
    reveal_strlit("up");
    reveal_strlit("down");
    reveal_strlit("left");
    reveal_strlit("right");
    reveal_strlit("ctrl");
    reveal_strlit("control");
    reveal_strlit("alt");
    reveal_strlit("option");
    reveal_strlit("opt");
    reveal_strlit("shift");
    reveal_strlit("win");
    reveal_strlit("super");
    reveal_strlit("meta");
    reveal_strlit("cmd");
    reveal_strlit("command");
    assert(lower_seq("F3"@) =~= "f3"@);
    assert("f3"@[1] != "f1"@[1]);
    assert("f3"@ != "f1"@);
    assert("f3"@[1] != "f2"@[1]);
    assert("f3"@ != "f2"@);
}

proof fn lemma_key_token_f4(k: KeyName)
    requires
        k == KeyName::F4,
    ensures
        key_chars(k).len() > 0,
        no_plus(key_chars(k)),
        no_space(key_chars(k)),
        key_of_token(lower_seq(key_chars(k))) == Some(k),
        modifier_of_token(lower_seq(key_chars(k))) is None,
{
    reveal_strlit("F1");
    reveal_strlit("F2");
    reveal_strlit("F3");
    reveal_strlit("F4");
    reveal_strlit("F5");
    reveal_strlit("F6");
    reveal_strlit("F7");
    reveal_strlit("F8");
    reveal_strlit("F9");
    reveal_strlit("F10");
    reveal_strlit("F11");
    reveal_strlit("F12");
    reveal_strlit("Space");
    reveal_strlit("Enter");
    reveal_strlit("Tab");
    reveal_strlit("Escape");
    reveal_strlit("Backspace");
    reveal_strlit("Delete");
    reveal_strlit("Insert");
    reveal_strlit("Home");
    reveal_strlit("End");
    reveal_strlit("PageUp");
    reveal_strlit("PageDown");
    reveal_strlit("Up");
    reveal_strlit("Down");
    reveal_strlit("Left");
    reveal_strlit("Right");
    reveal_strlit("f1");
    reveal_strlit("f2");
    reveal_strlit("f3");
    reveal_strlit("f4");
    reveal_strlit("f5");
    reveal_strlit("f6");
    reveal_strlit("f7");
    reveal_strlit("f8");
    reveal_strlit("f9");
    reveal_strlit("f10");
    reveal_strlit("f11");
    reveal_strlit("f12");
    reveal_strlit("space");
    reveal_strlit("spacebar");
    reveal_strlit("enter");
    reveal_strlit("return");
    reveal_strlit("tab");
    reveal_strlit("escape");
    reveal_strlit("esc");
    reveal_strlit("backspace");
    reveal_strlit("delete");
    reveal_strlit("del");
    reveal_strlit("insert");
    reveal_strlit("ins");
    reveal_strlit("home");
    reveal_strlit("end");
    reveal_strlit("pageup");
    reveal_strlit("pgup");
    reveal_strlit("pagedown");
    reveal_strlit("pgdn");
    reveal_strlit("up");
    reveal_strlit("down");
    reveal_strlit("left");
    reveal_strlit("right");
    reveal_strlit("ctrl");
    reveal_strlit("control");
    reveal_strlit("alt");
    reveal_strlit("option");
    reveal_strlit("opt");
    reveal_strlit("shift");
    reveal_strlit("win");
    reveal_strlit("super");
    reveal_strlit("meta");
    reveal_strlit("cmd");
    reveal_strlit("command");
    assert(lower_seq("F4"@) =~= "f4"@);
    assert("f4"@[1] != "f1"@[1]);
    assert("f4"@ != "f1"@);
    assert("f4"@[1] != "f2"@[1]);
    assert("f4"@ != "f2"@);
    assert("f4"@[1] != "f3"@[1]);
    assert("f4"@ != "f3"@);
}

proof fn lemma_key_token_f5(k: KeyName)
    requires
        k == KeyName::F5,
    ensures
        key_chars(k).len() > 0,
        no_plus(key_chars(k)),
        no_space(key_chars(k)),
        key_of_token(lower_seq(key_chars(k))) == Some(k),
        modifier_of_token(lower_seq(key_chars(k))) is None,
{
    reveal_strlit("F1");
    reveal_strlit("F2");
    reveal_strlit("F3");
    reveal_strlit("F4");
    reveal_strlit("F5");
    reveal_strlit("F6");
    reveal_strlit("F7");
    reveal_strlit("F8");
    reveal_strlit("F9");
    reveal_strlit("F10");
    reveal_strlit("F11");
    reveal_strlit("F12");
    reveal_strlit("Space");
    reveal_strlit("Enter");
    reveal_strlit("Tab");
    reveal_strlit("Escape");
    reveal_strlit("Backspace");
    reveal_strlit("Delete");
    reveal_strlit("Insert");
    reveal_strlit("Home");
    reveal_strlit("End");
    reveal_strlit("PageUp");
    reveal_strlit("PageDown");
    reveal_strlit("Up");
    reveal_strlit("Down");
    reveal_strlit("Left");
    reveal_strlit("Right");
    reveal_strlit("f1");
    reveal_strlit("f2");
    reveal_strlit("f3");
    reveal_strlit("f4");
    reveal_strlit("f5");
    reveal_strlit("f6");
    reveal_strlit("f7");
    reveal_strlit("f8");
    reveal_strlit("f9");
    reveal_strlit("f10");
    reveal_strlit("f11");
    reveal_strlit("f12");
    reveal_strlit("space");
    reveal_strlit("spacebar");
    reveal_strlit("enter");
    reveal_strlit("return");
    reveal_strlit("tab");
    reveal_strlit("escape");
    reveal_strlit("esc");
    reveal_strlit("backspace");
    reveal_strlit("delete");
    reveal_strlit("del");
    reveal_strlit("insert");
    reveal_strlit("ins");
    reveal_strlit("home");
    reveal_strlit("end");
    reveal_strlit("pageup");
    reveal_strlit("pgup");
    reveal_strlit("pagedown");
    reveal_strlit("pgdn");
    reveal_strlit("up");
    reveal_strlit("down");
    reveal_strlit("left");
    reveal_strlit("right");
    reveal_strlit("ctrl");
    reveal_strlit("control");
    reveal_strlit("alt");
    reveal_strlit("option");
    reveal_strlit("opt");
    reveal_strlit("shift");
    reveal_strlit("win");
    reveal_strlit("super");
    reveal_strlit("meta");
    reveal_strlit("cmd");
    reveal_strlit("command");
    assert(lower_seq("F5"@) =~= "f5"@);
    assert("f5"@[1] != "f1"@[1]);
    assert("f5"@ != "f1"@);
    assert("f5"@[1] != "f2"@[1]);
    assert("f5"@ != "f2"@);
    assert("f5"@[1] != "f3"@[1]);
    assert("f5"@ != "f3"@);
    assert("f5"@[1] != "f4"@[1]);
    assert("f5"@ != "f4"@);
}

proof fn lemma_key_token_f6(k: KeyName)
    requires
        k == KeyName::F6,
    ensures
        key_chars(k).len() > 0,
        no_plus(key_chars(k)),
        no_space(key_chars(k)),
        key_of_token(lower_seq(key_chars(k))) == Some(k),
        modifier_of_token(lower_seq(key_chars(k))) is None,
{
    reveal_strlit("F1");
    reveal_strlit("F2");
    reveal_strlit("F3");
    reveal_strlit("F4");
    reveal_strlit("F5");
    reveal_strlit("F6");
    reveal_strlit("F7");
    reveal_strlit("F8");
    reveal_strlit("F9");
    reveal_strlit("F10");
    reveal_strlit("F11");
    reveal_strlit("F12");
    reveal_strlit("Space");
    reveal_strlit("Enter");
    reveal_strlit("Tab");
    reveal_strlit("Escape");
    reveal_strlit("Backspace");
    reveal_strlit("Delete");
    reveal_strlit("Insert");
    reveal_strlit("Home");
    reveal_strlit("End");
    reveal_strlit("PageUp");
    reveal_strlit("PageDown");
    reveal_strlit("Up");
    reveal_strlit("Down");
    reveal_strlit("Left");
    reveal_strlit("Right");
    reveal_strlit("f1");
    reveal_strlit("f2");
    reveal_strlit("f3");
    reveal_strlit("f4");
    reveal_strlit("f5");
    reveal_strlit("f6");
    reveal_strlit("f7");
    reveal_strlit("f8");
    reveal_strlit("f9");
    reveal_strlit("f10");
    reveal_strlit("f11");
    reveal_strlit("f12");
    reveal_strlit("space");
    reveal_strlit("spacebar");
    reveal_strlit("enter");
    reveal_strlit("return");
    reveal_strlit("tab");
    reveal_strlit("escape");
    reveal_strlit("esc");
    reveal_strlit("backspace");
    reveal_strlit("delete");
    reveal_strlit("del");
    reveal_strlit("insert");
    reveal_strlit("ins");
    reveal_strlit("home");
    reveal_strlit("end");
    reveal_strlit("pageup");
    reveal_strlit("pgup");
    reveal_strlit("pagedown");
    reveal_strlit("pgdn");
    reveal_strlit("up");
    reveal_strlit("down");
    reveal_strlit("left");
    reveal_strlit("right");
    reveal_strlit("ctrl");
    reveal_strlit("control");
    reveal_strlit("alt");
    reveal_strlit("option");
    reveal_strlit("opt");
    reveal_strlit("shift");
    reveal_strlit("win");
    reveal_strlit("super");
    reveal_strlit("meta");
    reveal_strlit("cmd");
    reveal_strlit("command");
    assert(lower_seq("F6"@) =~= "f6"@);
    assert("f6"@[1] != "f1"@[1]);
    assert("f6"@ != "f1"@);
    assert("f6"@[1] != "f2"@[1]);
    assert("f6"@ != "f2"@);
    assert("f6"@[1] != "f3"@[1]);
    assert("f6"@ != "f3"@);
    assert("f6"@[1] != "f4"@[1]);
    assert("f6"@ != "f4"@);
    assert("f6"@[1] != "f5"@[1]);
    assert("f6"@ != "f5"@);
}

proof fn lemma_key_token_f7(k: KeyName)
    requires
        k == KeyName::F7,
    ensures
        key_chars(k).len() > 0,
        no_plus(key_chars(k)),
        no_space(key_chars(k)),
        key_of_token(lower_seq(key_chars(k))) == Some(k),
        modifier_of_token(lower_seq(key_chars(k))) is None,
{
    reveal_strlit("F1");
    reveal_strlit("F2");
    reveal_strlit("F3");
    reveal_strlit("F4");
    reveal_strlit("F5");
    reveal_strlit("F6");
    reveal_strlit("F7");
    reveal_strlit("F8");
    reveal_strlit("F9");
    reveal_strlit("F10");
    reveal_strlit("F11");
    reveal_strlit("F12");
    reveal_strlit("Space");
    reveal_strlit("Enter");
    reveal_strlit("Tab");
    reveal_strlit("Escape");
    reveal_strlit("Backspace");
    reveal_strlit("Delete");
    reveal_strlit("Insert");
    reveal_strlit("Home");
    reveal_strlit("End");
    reveal_strlit("PageUp");
    reveal_strlit("PageDown");
    reveal_strlit("Up");
    reveal_strlit("Down");
    reveal_strlit("Left");
    reveal_strlit("Right");
    reveal_strlit("f1");
    reveal_strlit("f2");
    reveal_strlit("f3");
    reveal_strlit("f4");
    reveal_strlit("f5");
    reveal_strlit("f6");
    reveal_strlit("f7");
    reveal_strlit("f8");
    reveal_strlit("f9");
    reveal_strlit("f10");
    reveal_strlit("f11");
    reveal_strlit("f12");
    reveal_strlit("space");
    reveal_strlit("spacebar");
    reveal_strlit("enter");
    reveal_strlit("return");
    reveal_strlit("tab");
    reveal_strlit("escape");
    reveal_strlit("esc");
    reveal_strlit("backspace");
    reveal_strlit("delete");
    reveal_strlit("del");
    reveal_strlit("insert");
    reveal_strlit("ins");
    reveal_strlit("home");
    reveal_strlit("end");
    reveal_strlit("pageup");
    reveal_strlit("pgup");
    reveal_strlit("pagedown");
    reveal_strlit("pgdn");
    reveal_strlit("up");
    reveal_strlit("down");
    reveal_strlit("left");
    reveal_strlit("right");
    reveal_strlit("ctrl");
    reveal_strlit("control");
    reveal_strlit("alt");
    reveal_strlit("option");
    reveal_strlit("opt");
    reveal_strlit("shift");
    reveal_strlit("win");
    reveal_strlit("super");
    reveal_strlit("meta");
    reveal_strlit("cmd");
    reveal_strlit("command");
    assert(lower_seq("F7"@) =~= "f7"@);
    assert("f7"@[1] != "f1"@[1]);
    assert("f7"@ != "f1"@);
    assert("f7"@[1] != "f2"@[1]);
    assert("f7"@ != "f2"@);
    assert("f7"@[1] != "f3"@[1]);
    assert("f7"@ != "f3"@);
    assert("f7"@[1] != "f4"@[1]);
    assert("f7"@ != "f4"@);
    assert("f7"@[1] != "f5"@[1]);
    assert("f7"@ != "f5"@);
    assert("f7"@[1] != "f6"@[1]);
    assert("f7"@ != "f6"@);
}

proof fn lemma_key_token_f8(k: KeyName)
    requires
        k == KeyName::F8,
    ensures
        key_chars(k).len() > 0,
        no_plus(key_chars(k)),
        no_space(key_chars(k)),
        key_of_token(lower_seq(key_chars(k))) == Some(k),
        modifier_of_token(lower_seq(key_chars(k))) is None,
{
    reveal_strlit("F1");
    reveal_strlit("F2");
    reveal_strlit("F3");
    reveal_strlit("F4");
    reveal_strlit("F5");
    reveal_strlit("F6");
    reveal_strlit("F7");
    reveal_strlit("F8");
    reveal_strlit("F9");
    reveal_strlit("F10");
    reveal_strlit("F11");
    reveal_strlit("F12");
    reveal_strlit("Space");
    reveal_strlit("Enter");
    reveal_strlit("Tab");
    reveal_strlit("Escape");
    reveal_strlit("Backspace");
    reveal_strlit("Delete");
    reveal_strlit("Insert");
    reveal_strlit("Home");
    reveal_strlit("End");
    reveal_strlit("PageUp");
    reveal_strlit("PageDown");
    reveal_strlit("Up");
    reveal_strlit("Down");
    reveal_strlit("Left");
    reveal_strlit("Right");
    reveal_strlit("f1");
    reveal_strlit("f2");
    reveal_strlit("f3");
    reveal_strlit("f4");
    reveal_strlit("f5");
    reveal_strlit("f6");
    reveal_strlit("f7");
    reveal_strlit("f8");
    reveal_strlit("f9");
    reveal_strlit("f10");
    reveal_strlit("f11");
    reveal_strlit("f12");
    reveal_strlit("space");
    reveal_strlit("spacebar");
    reveal_strlit("enter");
    reveal_strlit("return");
    reveal_strlit("tab");
    reveal_strlit("escape");
    reveal_strlit("esc");
    reveal_strlit("backspace");
    reveal_strlit("delete");
    reveal_strlit("del");
    reveal_strlit("insert");
    reveal_strlit("ins");
    reveal_strlit("home");
    reveal_strlit("end");
    reveal_strlit("pageup");
    reveal_strlit("pgup");
    reveal_strlit("pagedown");
    reveal_strlit("pgdn");
    reveal_strlit("up");
    reveal_strlit("down");
    reveal_strlit("left");
    reveal_strlit("right");
    reveal_strlit("ctrl");
    reveal_strlit("control");
    reveal_strlit("alt");
    reveal_strlit("option");
    reveal_strlit("opt");
    reveal_strlit("shift");
    reveal_strlit("win");
    reveal_strlit("super");
    reveal_strlit("meta");
    reveal_strlit("cmd");
    reveal_strlit("command");
    assert(lower_seq("F8"@) =~= "f8"@);
    assert("f8"@[1] != "f1"@[1]);
    assert("f8"@ != "f1"@);
    assert("f8"@[1] != "f2"@[1]);
    assert("f8"@ != "f2"@);
    assert("f8"@[1] != "f3"@[1]);
    assert("f8"@ != "f3"@);
    assert("f8"@[1] != "f4"@[1]);
    assert("f8"@ != "f4"@);
    assert("f8"@[1] != "f5"@[1]);
    assert("f8"@ != "f5"@);
    assert("f8"@[1] != "f6"@[1]);
    assert("f8"@ != "f6"@);
    assert("f8"@[1] != "f7"@[1]);
    assert("f8"@ != "f7"@);
}

proof fn lemma_key_token_f9(k: KeyName)
    requires
        k == KeyName::F9,
    ensures
        key_chars(k).len() > 0,
        no_plus(key_chars(k)),
        no_space(key_chars(k)),
        key_of_token(lower_seq(key_chars(k))) == Some(k),
        modifier_of_token(lower_seq(key_chars(k))) is None,
{
    reveal_strlit("F1");
    reveal_strlit("F2");
    reveal_strlit("F3");
    reveal_strlit("F4");
    reveal_strlit("F5");
    reveal_strlit("F6");
    reveal_strlit("F7");
    reveal_strlit("F8");
    reveal_strlit("F9");
    reveal_strlit("F10");
    reveal_strlit("F11");
    reveal_strlit("F12");
    reveal_strlit("Space");
    reveal_strlit("Enter");
    reveal_strlit("Tab");
    reveal_strlit("Escape");
    reveal_strlit("Backspace");
    reveal_strlit("Delete");
    reveal_strlit("Insert");
    reveal_strlit("Home");
    reveal_strlit("End");
    reveal_strlit("PageUp");
    reveal_strlit("PageDown");
    reveal_strlit("Up");
    reveal_strlit("Down");
    reveal_strlit("Left");
    reveal_strlit("Right");
    reveal_strlit("f1");
    reveal_strlit("f2");
    reveal_strlit("f3");
    reveal_strlit("f4");
    reveal_strlit("f5");
    reveal_strlit("f6");
    reveal_strlit("f7");
    reveal_strlit("f8");
    reveal_strlit("f9");
    reveal_strlit("f10");
    reveal_strlit("f11");
    reveal_strlit("f12");
    reveal_strlit("space");
    reveal_strlit("spacebar");
    reveal_strlit("enter");
    reveal_strlit("return");
    reveal_strlit("tab");
    reveal_strlit("escape");
    reveal_strlit("esc");
    reveal_strlit("backspace");
    reveal_strlit("delete");
    reveal_strlit("del");
    reveal_strlit("insert");
    reveal_strlit("ins");
    reveal_strlit("home");
    reveal_strlit("end");
    reveal_strlit("pageup");
    reveal_strlit("pgup");
    reveal_strlit("pagedown");
    reveal_strlit("pgdn");
    reveal_strlit("up");
    reveal_strlit("down");
    reveal_strlit("left");
    reveal_strlit("right");
    reveal_strlit("ctrl");
    reveal_strlit("control");
    reveal_strlit("alt");
    reveal_strlit("option");
    reveal_strlit("opt");
    reveal_strlit("shift");
    reveal_strlit("win");
    reveal_strlit("super");
    reveal_strlit("meta");
    reveal_strlit("cmd");
    reveal_strlit("command");
    assert(lower_seq("F9"@) =~= "f9"@);
    assert("f9"@[1] != "f1"@[1]);
    assert("f9"@ != "f1"@);
    assert("f9"@[1] != "f2"@[1]);
    assert("f9"@ != "f2"@);
    assert("f9"@[1] != "f3"@[1]);
    assert("f9"@ != "f3"@);
    assert("f9"@[1] != "f4"@[1]);
    assert("f9"@ != "f4"@);
    assert("f9"@[1] != "f5"@[1]);
    assert("f9"@ != "f5"@);
    assert("f9"@[1] != "f6"@[1]);
    assert("f9"@ != "f6"@);
    assert("f9"@[1] != "f7"@[1]);
    assert("f9"@ != "f7"@);
    assert("f9"@[1] != "f8"@[1]);
    assert("f9"@ != "f8"@);
}

proof fn lemma_key_token_f10(k: KeyName)
    requires
        k == KeyName::F10,
    ensures
        key_chars(k).len() > 0,
        no_plus(key_chars(k)),
        no_space(key_chars(k)),
        key_of_token(lower_seq(key_chars(k))) == Some(k),
        modifier_of_token(lower_seq(key_chars(k))) is None,
{
    reveal_strlit("F1");
    reveal_strlit("F2");
    reveal_strlit("F3");
    reveal_strlit("F4");
    reveal_strlit("F5");
    reveal_strlit("F6");
    reveal_strlit("F7");
    reveal_strlit("F8");
    reveal_strlit("F9");
    reveal_strlit("F10");
    reveal_strlit("F11");
    reveal_strlit("F12");
    reveal_strlit("Space");
    reveal_strlit("Enter");
    reveal_strlit("Tab");
    reveal_strlit("Escape");
    reveal_strlit("Backspace");
    reveal_strlit("Delete");
    reveal_strlit("Insert");
    reveal_strlit("Home");
    reveal_strlit("End");
    reveal_strlit("PageUp");
    reveal_strlit("PageDown");
    reveal_strlit("Up");
    reveal_strlit("Down");
    reveal_strlit("Left");
    reveal_strlit("Right");
    reveal_strlit("f1");
    reveal_strlit("f2");
    reveal_strlit("f3");
    reveal_strlit("f4");
    reveal_strlit("f5");
    reveal_strlit("f6");
    reveal_strlit("f7");
    reveal_strlit("f8");
    reveal_strlit("f9");
    reveal_strlit("f10");
    reveal_strlit("f11");
    reveal_strlit("f12");
    reveal_strlit("space");
    reveal_strlit("spacebar");
    reveal_strlit("enter");
    reveal_strlit("return");
    reveal_strlit("tab");
    reveal_strlit("escape");
    reveal_strlit("esc");
    reveal_strlit("backspace");
    reveal_strlit("delete");
    reveal_strlit("del");
    reveal_strlit("insert");
    reveal_strlit("ins");
    reveal_strlit("home");
    reveal_strlit("end");
    reveal_strlit("pageup");
    reveal_strlit("pgup");
    reveal_strlit("pagedown");
    reveal_strlit("pgdn");
    reveal_strlit("up");
    reveal_strlit("down");
    reveal_strlit("left");
    reveal_strlit("right");
    reveal_strlit("ctrl");
    reveal_strlit("control");
    reveal_strlit("alt");
    reveal_strlit("option");
    reveal_strlit("opt");
    reveal_strlit("shift");
    reveal_strlit("win");
    reveal_strlit("super");
    reveal_strlit("meta");
    reveal_strlit("cmd");
    reveal_strlit("command");
    assert(lower_seq("F10"@) =~= "f10"@);
    assert("f10"@[0] != "alt"@[0]);
    assert("f10"@ != "alt"@);
    assert("f10"@[0] != "opt"@[0]);
    assert("f10"@ != "opt"@);
    assert("f10"@[0] != "win"@[0]);
    assert("f10"@ != "win"@);
    assert("f10"@[0] != "cmd"@[0]);
    assert("f10"@ != "cmd"@);
}

proof fn lemma_key_token_f11(k: KeyName)
    requires
        k == KeyName::F11,
    ensures
        key_chars(k).len() > 0,
        no_plus(key_chars(k)),
        no_space(key_chars(k)),
        key_of_token(lower_seq(key_chars(k))) == Some(k),
        modifier_of_token(lower_seq(key_chars(k))) is None,
{
    reveal_strlit("F1");
    reveal_strlit("F2");
    reveal_strlit("F3");
    reveal_strlit("F4");
    reveal_strlit("F5");
    reveal_strlit("F6");
    reveal_strlit("F7");
    reveal_strlit("F8");
    reveal_strlit("F9");
    reveal_strlit("F10");
    reveal_strlit("F11");
    reveal_strlit("F12");
    reveal_strlit("Space");
    reveal_strlit("Enter");
    reveal_strlit("Tab");
    reveal_strlit("Escape");
    reveal_strlit("Backspace");
    reveal_strlit("Delete");
    reveal_strlit("Insert");
    reveal_strlit("Home");
    reveal_strlit("End");
    reveal_strlit("PageUp");
    reveal_strlit("PageDown");
    reveal_strlit("Up");
    reveal_strlit("Down");
    reveal_strlit("Left");
    reveal_strlit("Right");
    reveal_strlit("f1");
    reveal_strlit("f2");
    reveal_strlit("f3");
    reveal_strlit("f4");
    reveal_strlit("f5");
    reveal_strlit("f6");
    reveal_strlit("f7");
    reveal_strlit("f8");
    reveal_strlit("f9");
    reveal_strlit("f10");
    reveal_strlit("f11");
    reveal_strlit("f12");
    reveal_strlit("space");
    reveal_strlit("spacebar");
    reveal_strlit("enter");
    reveal_strlit("return");
    reveal_strlit("tab");
    reveal_strlit("escape");
    reveal_strlit("esc");
    reveal_strlit("backspace");
    reveal_strlit("delete");
    reveal_strlit("del");
    reveal_strlit("insert");
    reveal_strlit("ins");
    reveal_strlit("home");
    reveal_strlit("end");
    reveal_strlit("pageup");
    reveal_strlit("pgup");
    reveal_strlit("pagedown");
    reveal_strlit("pgdn");
    reveal_strlit("up");
    reveal_strlit("down");
    reveal_strlit("left");
    reveal_strlit("right");
    reveal_strlit("ctrl");
    reveal_strlit("control");
    reveal_strlit("alt");
    reveal_strlit("option");
    reveal_strlit("opt");
    reveal_strlit("shift");
    reveal_strlit("win");
    reveal_strlit("super");
    reveal_strlit("meta");
    reveal_strlit("cmd");
    reveal_strlit("command");
    assert(lower_seq("F11"@) =~= "f11"@);
    assert("f11"@[2] != "f10"@[2]);
    assert("f11"@ != "f10"@);
    assert("f11"@[0] != "alt"@[0]);
    assert("f11"@ != "alt"@);
    assert("f11"@[0] != "opt"@[0]);
    assert("f11"@ != "opt"@);
    assert("f11"@[0] != "win"@[0]);
    assert("f11"@ != "win"@);
    assert("f11"@[0] != "cmd"@[0]);
    assert("f11"@ != "cmd"@);
}

proof fn lemma_key_token_f12(k: KeyName)
    requires
        k == KeyName::F12,
    ensures
        key_chars(k).len() > 0,
        no_plus(key_chars(k)),
        no_space(key_chars(k)),
        key_of_token(lower_seq(key_chars(k))) == Some(k),
        modifier_of_token(lower_seq(key_chars(k))) is None,
{
    reveal_strlit("F1");
    reveal_strlit("F2");
    reveal_strlit("F3");
    reveal_strlit("F4");
    reveal_strlit("F5");
    reveal_strlit("F6");
    reveal_strlit("F7");
    reveal_strlit("F8");
    reveal_strlit("F9");
    reveal_strlit("F10");
    reveal_strlit("F11");
    reveal_strlit("F12");
    reveal_strlit("Space");
    reveal_strlit("Enter");
    reveal_strlit("Tab");
    reveal_strlit("Escape");
    reveal_strlit("Backspace");
    reveal_strlit("Delete");
    reveal_strlit("Insert");
    reveal_strlit("Home");
    reveal_strlit("End");
    reveal_strlit("PageUp");
    reveal_strlit("PageDown");
    reveal_strlit("Up");
    reveal_strlit("Down");
    reveal_strlit("Left");
    reveal_strlit("Right");
    reveal_strlit("f1");
    reveal_strlit("f2");
    reveal_strlit("f3");
    reveal_strlit("f4");
    reveal_strlit("f5");
    reveal_strlit("f6");
    reveal_strlit("f7");
    reveal_strlit("f8");
    reveal_strlit("f9");
    reveal_strlit("f10");
    reveal_strlit("f11");
    reveal_strlit("f12");
    reveal_strlit("space");
    reveal_strlit("spacebar");
    reveal_strlit("enter");
    reveal_strlit("return");
    reveal_strlit("tab");
    reveal_strlit("escape");
    reveal_strlit("esc");
    reveal_strlit("backspace");
    reveal_strlit("delete");
    reveal_strlit("del");
    reveal_strlit("insert");
    reveal_strlit("ins");
    reveal_strlit("home");
    reveal_strlit("end");
    reveal_strlit("pageup");
    reveal_strlit("pgup");
    reveal_strlit("pagedown");
    reveal_strlit("pgdn");
    reveal_strlit("up");
    reveal_strlit("down");
    reveal_strlit("left");
    reveal_strlit("right");
    reveal_strlit("ctrl");
    reveal_strlit("control");
    reveal_strlit("alt");
    reveal_strlit("option");
    reveal_strlit("opt");
    reveal_strlit("shift");
    reveal_strlit("win");
    reveal_strlit("super");
    reveal_strlit("meta");
    reveal_strlit("cmd");
    reveal_strlit("command");
    assert(lower_seq("F12"@) =~= "f12"@);
    assert("f12"@[2] != "f10"@[2]);
    assert("f12"@ != "f10"@);
    assert("f12"@[2] != "f11"@[2]);
    assert("f12"@ != "f11"@);
    assert("f12"@[0] != "alt"@[0]);
    assert("f12"@ != "alt"@);
    assert("f12"@[0] != "opt"@[0]);
    assert("f12"@ != "opt"@);
    assert("f12"@[0] != "win"@[0]);
    assert("f12"@ != "win"@);
    assert("f12"@[0] != "cmd"@[0]);
    assert("f12"@ != "cmd"@);
}

proof fn lemma_key_token_space(k: KeyName)
    requires
        k == KeyName::Space,
    ensures
        key_chars(k).len() > 0,
        no_plus(key_chars(k)),
        no_space(key_chars(k)),
        key_of_token(lower_seq(key_chars(k))) == Some(k),
        modifier_of_token(lower_seq(key_chars(k))) is None,
{
    reveal_strlit("F1");
    reveal_strlit("F2");
    reveal_strlit("F3");
    reveal_strlit("F4");
    reveal_strlit("F5");
    reveal_strlit("F6");
    reveal_strlit("F7");
    reveal_strlit("F8");
    reveal_strlit("F9");
    reveal_strlit("F10");
    reveal_strlit("F11");
    reveal_strlit("F12");
    reveal_strlit("Space");
    reveal_strlit("Enter");
    reveal_strlit("Tab");
    reveal_strlit("Escape");
    reveal_strlit("Backspace");
    reveal_strlit("Delete");
    reveal_strlit("Insert");
    reveal_strlit("Home");
    reveal_strlit("End");
    reveal_strlit("PageUp");
    reveal_strlit("PageDown");
    reveal_strlit("Up");
    reveal_strlit("Down");
    reveal_strlit("Left");
    reveal_strlit("Right");
    reveal_strlit("f1");
    reveal_strlit("f2");
    reveal_strlit("f3");
    reveal_strlit("f4");
    reveal_strlit("f5");
    reveal_strlit("f6");
    reveal_strlit("f7");
    reveal_strlit("f8");
    reveal_strlit("f9");
    reveal_strlit("f10");
    reveal_strlit("f11");
    reveal_strlit("f12");
    reveal_strlit("space");
    reveal_strlit("spacebar");
    reveal_strlit("enter");
    reveal_strlit("return");
    reveal_strlit("tab");
    reveal_strlit("escape");
    reveal_strlit("esc");
    reveal_strlit("backspace");
    reveal_strlit("delete");
    reveal_strlit("del");
    reveal_strlit("insert");
    reveal_strlit("ins");
    reveal_strlit("home");
    reveal_strlit("end");
    reveal_strlit("pageup");
    reveal_strlit("pgup");
    reveal_strlit("pagedown");
    reveal_strlit("pgdn");
    reveal_strlit("up");
    reveal_strlit("down");
    reveal_strlit("left");
    reveal_strlit("right");
    reveal_strlit("ctrl");
    reveal_strlit("control");
    reveal_strlit("alt");
    reveal_strlit("option");
    reveal_strlit("opt");
    reveal_strlit("shift");
    reveal_strlit("win");
    reveal_strlit("super");
    reveal_strlit("meta");
    reveal_strlit("cmd");
    reveal_strlit("command");
    assert(lower_seq("Space"@) =~= "space"@);
    assert("space"@[1] != "shift"@[1]);
    assert("space"@ != "shift"@);
    assert("space"@[1] != "super"@[1]);
    assert("space"@ != "super"@);
}

proof fn lemma_key_token_enter(k: KeyName)
    requires
        k == KeyName::Enter,
    ensures
        key_chars(k).len() > 0,
        no_plus(key_chars(k)),
        no_space(key_chars(k)),
        key_of_token(lower_seq(key_chars(k))) == Some(k),
        modifier_of_token(lower_seq(key_chars(k))) is None,
{
    reveal_strlit("F1");
    reveal_strlit("F2");
    reveal_strlit("F3");
    reveal_strlit("F4");
    reveal_strlit("F5");
    reveal_strlit("F6");
    reveal_strlit("F7");
    reveal_strlit("F8");
    reveal_strlit("F9");
    reveal_strlit("F10");
    reveal_strlit("F11");
    reveal_strlit("F12");
    reveal_strlit("Space");
    reveal_strlit("Enter");
    reveal_strlit("Tab");
    reveal_strlit("Escape");
    reveal_strlit("Backspace");
    reveal_strlit("Delete");
    reveal_strlit("Insert");
    reveal_strlit("Home");
    reveal_strlit("End");
    reveal_strlit("PageUp");
    reveal_strlit("PageDown");
    reveal_strlit("Up");
    reveal_strlit("Down");
    reveal_strlit("Left");
    reveal_strlit("Right");
    reveal_strlit("f1");
    reveal_strlit("f2");
    reveal_strlit("f3");
    reveal_strlit("f4");
    reveal_strlit("f5");
    reveal_strlit("f6");
    reveal_strlit("f7");
    reveal_strlit("f8");
    reveal_strlit("f9");
    reveal_strlit("f10");
    reveal_strlit("f11");
    reveal_strlit("f12");
    reveal_strlit("space");
    reveal_strlit("spacebar");
    reveal_strlit("enter");
    reveal_strlit("return");
    reveal_strlit("tab");
    reveal_strlit("escape");
    reveal_strlit("esc");
    reveal_strlit("backspace");
    reveal_strlit("delete");
    reveal_strlit("del");
    reveal_strlit("insert");
    reveal_strlit("ins");
    reveal_strlit("home");
    reveal_strlit("end");
    reveal_strlit("pageup");
    reveal_strlit("pgup");
    reveal_strlit("pagedown");
    reveal_strlit("pgdn");
    reveal_strlit("up");
    reveal_strlit("down");
    reveal_strlit("left");
    reveal_strlit("right");
    reveal_strlit("ctrl");
    reveal_strlit("control");
    reveal_strlit("alt");
    reveal_strlit("option");
    reveal_strlit("opt");
    reveal_strlit("shift");
    reveal_strlit("win");
    reveal_strlit("super");
    reveal_strlit("meta");
    reveal_strlit("cmd");
    reveal_strlit("command");
    assert(lower_seq("Enter"@) =~= "enter"@);
    assert("enter"@[0] != "space"@[0]);
    assert("enter"@ != "space"@);
    assert("enter"@[0] != "shift"@[0]);
    assert("enter"@ != "shift"@);
    assert("enter"@[0] != "super"@[0]);
    assert("enter"@ != "super"@);
}

proof fn lemma_key_token_tab(k: KeyName)
    requires
        k == KeyName::Tab,
    ensures
        key_chars(k).len() > 0,
        no_plus(key_chars(k)),
        no_space(key_chars(k)),
        key_of_token(lower_seq(key_chars(k))) == Some(k),
        modifier_of_token(lower_seq(key_chars(k))) is None,
{
    reveal_strlit("F1");
    reveal_strlit("F2");
    reveal_strlit("F3");
    reveal_strlit("F4");
    reveal_strlit("F5");
    reveal_strlit("F6");
    reveal_strlit("F7");
    reveal_strlit("F8");
    reveal_strlit("F9");
    reveal_strlit("F10");
    reveal_strlit("F11");
    reveal_strlit("F12");
    reveal_strlit("Space");
    reveal_strlit("Enter");
    reveal_strlit("Tab");
    reveal_strlit("Escape");
    reveal_strlit("Backspace");
    reveal_strlit("Delete");
    reveal_strlit("Insert");
    reveal_strlit("Home");
    reveal_strlit("End");
    reveal_strlit("PageUp");
    reveal_strlit("PageDown");
    reveal_strlit("Up");
    reveal_strlit("Down");
    reveal_strlit("Left");
    reveal_strlit("Right");
    reveal_strlit("f1");
    reveal_strlit("f2");
    reveal_strlit("f3");
    reveal_strlit("f4");
    reveal_strlit("f5");
    reveal_strlit("f6");
    reveal_strlit("f7");
    reveal_strlit("f8");
    reveal_strlit("f9");
    reveal_strlit("f10");
    reveal_strlit("f11");
    reveal_strlit("f12");
    reveal_strlit("space");
    reveal_strlit("spacebar");
    reveal_strlit("enter");
    reveal_strlit("return");
    reveal_strlit("tab");
    reveal_strlit("escape");
    reveal_strlit("esc");
    reveal_strlit("backspace");
    reveal_strlit("delete");
    reveal_strlit("del");
    reveal_strlit("insert");
    reveal_strlit("ins");
    reveal_strlit("home");
    reveal_strlit("end");
    reveal_strlit("pageup");
    reveal_strlit("pgup");
    reveal_strlit("pagedown");
    reveal_strlit("pgdn");
    reveal_strlit("up");
    reveal_strlit("down");
    reveal_strlit("left");
    reveal_strlit("right");
    reveal_strlit("ctrl");
    reveal_strlit("control");
    reveal_strlit("alt");
    reveal_strlit("option");
    reveal_strlit("opt");
    reveal_strlit("shift");
    reveal_strlit("win");
    reveal_strlit("super");
    reveal_strlit("meta");
    reveal_strlit("cmd");
    reveal_strlit("command");
    assert(lower_seq("Tab"@) =~= "tab"@);
    assert("tab"@[0] != "f10"@[0]);
    assert("tab"@ != "f10"@);
    assert("tab"@[0] != "f11"@[0]);
    assert("tab"@ != "f11"@);
    assert("tab"@[0] != "f12"@[0]);
    assert("tab"@ != "f12"@);
    assert("tab"@[0] != "alt"@[0]);
    assert("tab"@ != "alt"@);
    assert("tab"@[0] != "opt"@[0]);
    assert("tab"@ != "opt"@);
    assert("tab"@[0] != "win"@[0]);
    assert("tab"@ != "win"@);
    assert("tab"@[0] != "cmd"@[0]);
    assert("tab"@ != "cmd"@);
}

proof fn lemma_key_token_escape(k: KeyName)
    requires
        k == KeyName::Escape,
    ensures
        key_chars(k).len() > 0,
        no_plus(key_chars(k)),
        no_space(key_chars(k)),
        key_of_token(lower_seq(key_chars(k))) == Some(k),
        modifier_of_token(lower_seq(key_chars(k))) is None,
{
    reveal_strlit("F1");
    reveal_strlit("F2");
    reveal_strlit("F3");
    reveal_strlit("F4");
    reveal_strlit("F5");
    reveal_strlit("F6");
    reveal_strlit("F7");
    reveal_strlit("F8");
    reveal_strlit("F9");
    reveal_strlit("F10");
    reveal_strlit("F11");
    reveal_strlit("F12");
    reveal_strlit("Space");
    reveal_strlit("Enter");
    reveal_strlit("Tab");
    reveal_strlit("Escape");
    reveal_strlit("Backspace");
    reveal_strlit("Delete");
    reveal_strlit("Insert");
    reveal_strlit("Home");
    reveal_strlit("End");
    reveal_strlit("PageUp");
    reveal_strlit("PageDown");
    reveal_strlit("Up");
    reveal_strlit("Down");
    reveal_strlit("Left");
    reveal_strlit("Right");
    reveal_strlit("f1");
    reveal_strlit("f2");
    reveal_strlit("f3");
    reveal_strlit("f4");
    reveal_strlit("f5");
    reveal_strlit("f6");
    reveal_strlit("f7");
    reveal_strlit("f8");
    reveal_strlit("f9");
    reveal_strlit("f10");
    reveal_strlit("f11");
    reveal_strlit("f12");
    reveal_strlit("space");
    reveal_strlit("spacebar");
    reveal_strlit("enter");
    reveal_strlit("return");
    reveal_strlit("tab");
    reveal_strlit("escape");
    reveal_strlit("esc");
    reveal_strlit("backspace");
    reveal_strlit("delete");
    reveal_strlit("del");
    reveal_strlit("insert");
    reveal_strlit("ins");
    reveal_strlit("home");
    reveal_strlit("end");
    reveal_strlit("pageup");
    reveal_strlit("pgup");
    reveal_strlit("pagedown");
    reveal_strlit("pgdn");
    reveal_strlit("up");
    reveal_strlit("down");
    reveal_strlit("left");
    reveal_strlit("right");
    reveal_strlit("ctrl");
    reveal_strlit("control");
    reveal_strlit("alt");
    reveal_strlit("option");
    reveal_strlit("opt");
    reveal_strlit("shift");
    reveal_strlit("win");
    reveal_strlit("super");
    reveal_strlit("meta");
    reveal_strlit("cmd");
    reveal_strlit("command");
    assert(lower_seq("Escape"@) =~= "escape"@);
    assert("escape"@[0] != "return"@[0]);
    assert("escape"@ != "return"@);
    assert("escape"@[0] != "option"@[0]);
    assert("escape"@ != "option"@);
}

proof fn lemma_key_token_backspace(k: KeyName)
    requires
        k == KeyName::Backspace,
    ensures
        key_chars(k).len() > 0,
        no_plus(key_chars(k)),
        no_space(key_chars(k)),
        key_of_token(lower_seq(key_chars(k))) == Some(k),
        modifier_of_token(lower_seq(key_chars(k))) is None,
{
    reveal_strlit("F1");
    reveal_strlit("F2");
    reveal_strlit("F3");
    reveal_strlit("F4");
    reveal_strlit("F5");
    reveal_strlit("F6");
    reveal_strlit("F7");
    reveal_strlit("F8");
    reveal_strlit("F9");
    reveal_strlit("F10");
    reveal_strlit("F11");
    reveal_strlit("F12");
    reveal_strlit("Space");
    reveal_strlit("Enter");
    reveal_strlit("Tab");
    reveal_strlit("Escape");
    reveal_strlit("Backspace");
    reveal_strlit("Delete");
    reveal_strlit("Insert");
    reveal_strlit("Home");
    reveal_strlit("End");
    reveal_strlit("PageUp");
    reveal_strlit("PageDown");
    reveal_strlit("Up");
    reveal_strlit("Down");
    reveal_strlit("Left");
    reveal_strlit("Right");
    reveal_strlit("f1");
    reveal_strlit("f2");
    reveal_strlit("f3");
    reveal_strlit("f4");
    reveal_strlit("f5");
    reveal_strlit("f6");
    reveal_strlit("f7");
    reveal_strlit("f8");
    reveal_strlit("f9");
    reveal_strlit("f10");
    reveal_strlit("f11");
    reveal_strlit("f12");
    reveal_strlit("space");
    reveal_strlit("spacebar");
    reveal_strlit("enter");
    reveal_strlit("return");
    reveal_strlit("tab");
    reveal_strlit("escape");
    reveal_strlit("esc");
    reveal_strlit("backspace");
    reveal_strlit("delete");
    reveal_strlit("del");
    reveal_strlit("insert");
    reveal_strlit("ins");
    reveal_strlit("home");
    reveal_strlit("end");
    reveal_strlit("pageup");
    reveal_strlit("pgup");
    reveal_strlit("pagedown");
    reveal_strlit("pgdn");
    reveal_strlit("up");
    reveal_strlit("down");
    reveal_strlit("left");
    reveal_strlit("right");
    reveal_strlit("ctrl");
    reveal_strlit("control");
    reveal_strlit("alt");
    reveal_strlit("option");
    reveal_strlit("opt");
    reveal_strlit("shift");
    reveal_strlit("win");
    reveal_strlit("super");
    reveal_strlit("meta");
    reveal_strlit("cmd");
    reveal_strlit("command");
    assert(lower_seq("Backspace"@) =~= "backspace"@);
}

proof fn lemma_key_token_delete(k: KeyName)
    requires
        k == KeyName::Delete,
    ensures
        key_chars(k).len() > 0,
        no_plus(key_chars(k)),
        no_space(key_chars(k)),
        key_of_token(lower_seq(key_chars(k))) == Some(k),
        modifier_of_token(lower_seq(key_chars(k))) is None,
{
    reveal_strlit("F1");
    reveal_strlit("F2");
    reveal_strlit("F3");
    reveal_strlit("F4");
    reveal_strlit("F5");
    reveal_strlit("F6");
    reveal_strlit("F7");
    reveal_strlit("F8");
    reveal_strlit("F9");
    reveal_strlit("F10");
    reveal_strlit("F11");
    reveal_strlit("F12");
    reveal_strlit("Space");
    reveal_strlit("Enter");
    reveal_strlit("Tab");
    reveal_strlit("Escape");
    reveal_strlit("Backspace");
    reveal_strlit("Delete");
    reveal_strlit("Insert");
    reveal_strlit("Home");
    reveal_strlit("End");
    reveal_strlit("PageUp");
    reveal_strlit("PageDown");
    reveal_strlit("Up");
    reveal_strlit("Down");
    reveal_strlit("Left");
    reveal_strlit("Right");
    reveal_strlit("f1");
    reveal_strlit("f2");
    reveal_strlit("f3");
    reveal_strlit("f4");
    reveal_strlit("f5");
    reveal_strlit("f6");
    reveal_strlit("f7");
    reveal_strlit("f8");
    reveal_strlit("f9");
    reveal_strlit("f10");
    reveal_strlit("f11");
    reveal_strlit("f12");
    reveal_strlit("space");
    reveal_strlit("spacebar");
    reveal_strlit("enter");
    reveal_strlit("return");
    reveal_strlit("tab");
    reveal_strlit("escape");
    reveal_strlit("esc");
    reveal_strlit("backspace");
    reveal_strlit("delete");
    reveal_strlit("del");
    reveal_strlit("insert");
    reveal_strlit("ins");
    reveal_strlit("home");
    reveal_strlit("end");
    reveal_strlit("pageup");
    reveal_strlit("pgup");
    reveal_strlit("pagedown");
    reveal_strlit("pgdn");
    reveal_strlit("up");
    reveal_strlit("down");
    reveal_strlit("left");
    reveal_strlit("right");
    reveal_strlit("ctrl");
    reveal_strlit("control");
    reveal_strlit("alt");
    reveal_strlit("option");
    reveal_strlit("opt");
    reveal_strlit("shift");
    reveal_strlit("win");
    reveal_strlit("super");
    reveal_strlit("meta");
    reveal_strlit("cmd");
    reveal_strlit("command");
    assert(lower_seq("Delete"@) =~= "delete"@);
    assert("delete"@[0] != "return"@[0]);
    assert("delete"@ != "return"@);
    assert("delete"@[0] != "escape"@[0]);
    assert("delete"@ != "escape"@);
    assert("delete"@[0] != "option"@[0]);
    assert("delete"@ != "option"@);
}

proof fn lemma_key_token_insert(k: KeyName)
    requires
        k == KeyName::Insert,
    ensures
        key_chars(k).len() > 0,
        no_plus(key_chars(k)),
        no_space(key_chars(k)),
        key_of_token(lower_seq(key_chars(k))) == Some(k),
        modifier_of_token(lower_seq(key_chars(k))) is None,
{
    reveal_strlit("F1");
    reveal_strlit("F2");
    reveal_strlit("F3");
    reveal_strlit("F4");
    reveal_strlit("F5");
    reveal_strlit("F6");
    reveal_strlit("F7");
    reveal_strlit("F8");
    reveal_strlit("F9");
    reveal_strlit("F10");
    reveal_strlit("F11");
    reveal_strlit("F12");
    reveal_strlit("Space");
    reveal_strlit("Enter");
    reveal_strlit("Tab");
    reveal_strlit("Escape");
    reveal_strlit("Backspace");
    reveal_strlit("Delete");
    reveal_strlit("Insert");
    reveal_strlit("Home");
    reveal_strlit("End");
    reveal_strlit("PageUp");
    reveal_strlit("PageDown");
    reveal_strlit("Up");
    reveal_strlit("Down");
    reveal_strlit("Left");
    reveal_strlit("Right");
    reveal_strlit("f1");
    reveal_strlit("f2");
    reveal_strlit("f3");
    reveal_strlit("f4");
    reveal_strlit("f5");
    reveal_strlit("f6");
    reveal_strlit("f7");
    reveal_strlit("f8");
    reveal_strlit("f9");
    reveal_strlit("f10");
    reveal_strlit("f11");
    reveal_strlit("f12");
    reveal_strlit("space");
    reveal_strlit("spacebar");
    reveal_strlit("enter");
    reveal_strlit("return");
    reveal_strlit("tab");
    reveal_strlit("escape");
    reveal_strlit("esc");
    reveal_strlit("backspace");
    reveal_strlit("delete");
    reveal_strlit("del");
    reveal_strlit("insert");
    reveal_strlit("ins");
    reveal_strlit("home");
    reveal_strlit("end");
    reveal_strlit("pageup");
    reveal_strlit("pgup");
    reveal_strlit("pagedown");
    reveal_strlit("pgdn");
    reveal_strlit("up");
    reveal_strlit("down");
    reveal_strlit("left");
    reveal_strlit("right");
    reveal_strlit("ctrl");
    reveal_strlit("control");
    reveal_strlit("alt");
    reveal_strlit("option");
    reveal_strlit("opt");
    reveal_strlit("shift");
    reveal_strlit("win");
    reveal_strlit("super");
    reveal_strlit("meta");
    reveal_strlit("cmd");
    reveal_strlit("command");
    assert(lower_seq("Insert"@) =~= "insert"@);
    assert("insert"@[0] != "return"@[0]);
    assert("insert"@ != "return"@);
    assert("insert"@[0] != "escape"@[0]);
    assert("insert"@ != "escape"@);
    assert("insert"@[0] != "delete"@[0]);
    assert("insert"@ != "delete"@);
    assert("insert"@[0] != "option"@[0]);
    assert("insert"@ != "option"@);
}

proof fn lemma_key_token_home(k: KeyName)
    requires
        k == KeyName::Home,
    ensures
        key_chars(k).len() > 0,
        no_plus(key_chars(k)),
        no_space(key_chars(k)),
        key_of_token(lower_seq(key_chars(k))) == Some(k),
        modifier_of_token(lower_seq(key_chars(k))) is None,
{
    reveal_strlit("F1");
    reveal_strlit("F2");
    reveal_strlit("F3");
    reveal_strlit("F4");
    reveal_strlit("F5");
    reveal_strlit("F6");
    reveal_strlit("F7");
    reveal_strlit("F8");
    reveal_strlit("F9");
    reveal_strlit("F10");
    reveal_strlit("F11");
    reveal_strlit("F12");
    reveal_strlit("Space");
    reveal_strlit("Enter");
    reveal_strlit("Tab");
    reveal_strlit("Escape");
    reveal_strlit("Backspace");
    reveal_strlit("Delete");
    reveal_strlit("Insert");
    reveal_strlit("Home");
    reveal_strlit("End");
    reveal_strlit("PageUp");
    reveal_strlit("PageDown");
    reveal_strlit("Up");
    reveal_strlit("Down");
    reveal_strlit("Left");
    reveal_strlit("Right");
    reveal_strlit("f1");
    reveal_strlit("f2");
    reveal_strlit("f3");
    reveal_strlit("f4");
    reveal_strlit("f5");
    reveal_strlit("f6");
    reveal_strlit("f7");
    reveal_strlit("f8");
    reveal_strlit("f9");
    reveal_strlit("f10");
    reveal_strlit("f11");
    reveal_strlit("f12");
    reveal_strlit("space");
    reveal_strlit("spacebar");
    reveal_strlit("enter");
    reveal_strlit("return");
    reveal_strlit("tab");
    reveal_strlit("escape");
    reveal_strlit("esc");
    reveal_strlit("backspace");
    reveal_strlit("delete");
    reveal_strlit("del");
    reveal_strlit("insert");
    reveal_strlit("ins");
    reveal_strlit("home");
    reveal_strlit("end");
    reveal_strlit("pageup");
    reveal_strlit("pgup");
    reveal_strlit("pagedown");
    reveal_strlit("pgdn");
    reveal_strlit("up");
    reveal_strlit("down");
    reveal_strlit("left");
    reveal_strlit("right");
    reveal_strlit("ctrl");
    reveal_strlit("control");
    reveal_strlit("alt");
    reveal_strlit("option");
    reveal_strlit("opt");
    reveal_strlit("shift");
    reveal_strlit("win");
    reveal_strlit("super");
    reveal_strlit("meta");
    reveal_strlit("cmd");
    reveal_strlit("command");
    assert(lower_seq("Home"@) =~= "home"@);
    assert("home"@[0] != "ctrl"@[0]);
    assert("home"@ != "ctrl"@);
    assert("home"@[0] != "meta"@[0]);
    assert("home"@ != "meta"@);
}

proof fn lemma_key_token_end(k: KeyName)
    requires
        k == KeyName::End,
    ensures
        key_chars(k).len() > 0,
        no_plus(key_chars(k)),
        no_space(key_chars(k)),
        key_of_token(lower_seq(key_chars(k))) == Some(k),
        modifier_of_token(lower_seq(key_chars(k))) is None,
{
    reveal_strlit("F1");
    reveal_strlit("F2");
    reveal_strlit("F3");
    reveal_strlit("F4");
    reveal_strlit("F5");
    reveal_strlit("F6");
    reveal_strlit("F7");
    reveal_strlit("F8");
    reveal_strlit("F9");
    reveal_strlit("F10");
    reveal_strlit("F11");
    reveal_strlit("F12");
    reveal_strlit("Space");
    reveal_strlit("Enter");
    reveal_strlit("Tab");
    reveal_strlit("Escape");
    reveal_strlit("Backspace");
    reveal_strlit("Delete");
    reveal_strlit("Insert");
    reveal_strlit("Home");
    reveal_strlit("End");
    reveal_strlit("PageUp");
    reveal_strlit("PageDown");
    reveal_strlit("Up");
    reveal_strlit("Down");
    reveal_strlit("Left");
    reveal_strlit("Right");
    reveal_strlit("f1");
    reveal_strlit("f2");
    reveal_strlit("f3");
    reveal_strlit("f4");
    reveal_strlit("f5");
    reveal_strlit("f6");
    reveal_strlit("f7");
    reveal_strlit("f8");
    reveal_strlit("f9");
    reveal_strlit("f10");
    reveal_strlit("f11");
    reveal_strlit("f12");
    reveal_strlit("space");
    reveal_strlit("spacebar");
    reveal_strlit("enter");
    reveal_strlit("return");
    reveal_strlit("tab");
    reveal_strlit("escape");
    reveal_strlit("esc");
    reveal_strlit("backspace");
    reveal_strlit("delete");
    reveal_strlit("del");
    reveal_strlit("insert");
    reveal_strlit("ins");
    reveal_strlit("home");
    reveal_strlit("end");
    reveal_strlit("pageup");
    reveal_strlit("pgup");
    reveal_strlit("pagedown");
    reveal_strlit("pgdn");
    reveal_strlit("up");
    reveal_strlit("down");
    reveal_strlit("left");
    reveal_strlit("right");
    reveal_strlit("ctrl");
    reveal_strlit("control");
    reveal_strlit("alt");
    reveal_strlit("option");
    reveal_strlit("opt");
    reveal_strlit("shift");
    reveal_strlit("win");
    reveal_strlit("super");
    reveal_strlit("meta");
    reveal_strlit("cmd");
    reveal_strlit("command");
    assert(lower_seq("End"@) =~= "end"@);
    assert("end"@[0] != "f10"@[0]);
    assert("end"@ != "f10"@);
    assert("end"@[0] != "f11"@[0]);
    assert("end"@ != "f11"@);
    assert("end"@[0] != "f12"@[0]);
    assert("end"@ != "f12"@);
    assert("end"@[0] != "tab"@[0]);
    assert("end"@ != "tab"@);
    assert("end"@[1] != "esc"@[1]);
    assert("end"@ != "esc"@);
    assert("end"@[0] != "del"@[0]);
    assert("end"@ != "del"@);
    assert("end"@[0] != "ins"@[0]);
    assert("end"@ != "ins"@);
    assert("end"@[0] != "alt"@[0]);
    assert("end"@ != "alt"@);
    assert("end"@[0] != "opt"@[0]);
    assert("end"@ != "opt"@);
    assert("end"@[0] != "win"@[0]);
    assert("end"@ != "win"@);
    assert("end"@[0] != "cmd"@[0]);
    assert("end"@ != "cmd"@);
}

proof fn lemma_key_token_pageup(k: KeyName)
    requires
        k == KeyName::PageUp,
    ensures
        key_chars(k).len() > 0,
        no_plus(key_chars(k)),
        no_space(key_chars(k)),
        key_of_token(lower_seq(key_chars(k))) == Some(k),
        modifier_of_token(lower_seq(key_chars(k))) is None,
{
    reveal_strlit("F1");
    reveal_strlit("F2");
    reveal_strlit("F3");
    reveal_strlit("F4");
    reveal_strlit("F5");
    reveal_strlit("F6");
    reveal_strlit("F7");
    reveal_strlit("F8");
    reveal_strlit("F9");
    reveal_strlit("F10");
    reveal_strlit("F11");
    reveal_strlit("F12");
    reveal_strlit("Space");
    reveal_strlit("Enter");
    reveal_strlit("Tab");
    reveal_strlit("Escape");
    reveal_strlit("Backspace");
    reveal_strlit("Delete");
    reveal_strlit("Insert");
    reveal_strlit("Home");
    reveal_strlit("End");
    reveal_strlit("PageUp");
    reveal_strlit("PageDown");
    reveal_strlit("Up");
    reveal_strlit("Down");
    reveal_strlit("Left");
    reveal_strlit("Right");
    reveal_strlit("f1");
    reveal_strlit("f2");
    reveal_strlit("f3");
    reveal_strlit("f4");
    reveal_strlit("f5");
    reveal_strlit("f6");
    reveal_strlit("f7");
    reveal_strlit("f8");
    reveal_strlit("f9");
    reveal_strlit("f10");
    reveal_strlit("f11");
    reveal_strlit("f12");
    reveal_strlit("space");
    reveal_strlit("spacebar");
    reveal_strlit("enter");
    reveal_strlit("return");
    reveal_strlit("tab");
    reveal_strlit("escape");
    reveal_strlit("esc");
    reveal_strlit("backspace");
    reveal_strlit("delete");
    reveal_strlit("del");
    reveal_strlit("insert");
    reveal_strlit("ins");
    reveal_strlit("home");
    reveal_strlit("end");
    reveal_strlit("pageup");
    reveal_strlit("pgup");
    reveal_strlit("pagedown");
    reveal_strlit("pgdn");
    reveal_strlit("up");
    reveal_strlit("down");
    reveal_strlit("left");
    reveal_strlit("right");
    reveal_strlit("ctrl");
    reveal_strlit("control");
    reveal_strlit("alt");
    reveal_strlit("option");
    reveal_strlit("opt");
    reveal_strlit("shift");
    reveal_strlit("win");
    reveal_strlit("super");
    reveal_strlit("meta");
    reveal_strlit("cmd");
    reveal_strlit("command");
    assert(lower_seq("PageUp"@) =~= "pageup"@);
    assert("pageup"@[0] != "return"@[0]);
    assert("pageup"@ != "return"@);
    assert("pageup"@[0] != "escape"@[0]);
    assert("pageup"@ != "escape"@);
    assert("pageup"@[0] != "delete"@[0]);
    assert("pageup"@ != "delete"@);
    assert("pageup"@[0] != "insert"@[0]);
    assert("pageup"@ != "insert"@);
    assert("pageup"@[0] != "option"@[0]);
    assert("pageup"@ != "option"@);
}

proof fn lemma_key_token_pagedown(k: KeyName)
    requires
        k == KeyName::PageDown,
    ensures
        key_chars(k).len() > 0,
        no_plus(key_chars(k)),
        no_space(key_chars(k)),
        key_of_token(lower_seq(key_chars(k))) == Some(k),
        modifier_of_token(lower_seq(key_chars(k))) is None,
{
    reveal_strlit("F1");
    reveal_strlit("F2");
    reveal_strlit("F3");
    reveal_strlit("F4");
    reveal_strlit("F5");
    reveal_strlit("F6");
    reveal_strlit("F7");
    reveal_strlit("F8");
    reveal_strlit("F9");
    reveal_strlit("F10");
    reveal_strlit("F11");
    reveal_strlit("F12");
    reveal_strlit("Space");
    reveal_strlit("Enter");
    reveal_strlit("Tab");
    reveal_strlit("Escape");
    reveal_strlit("Backspace");
    reveal_strlit("Delete");
    reveal_strlit("Insert");
    reveal_strlit("Home");
    reveal_strlit("End");
    reveal_strlit("PageUp");
    reveal_strlit("PageDown");
    reveal_strlit("Up");
    reveal_strlit("Down");
    reveal_strlit("Left");
    reveal_strlit("Right");
    reveal_strlit("f1");
    reveal_strlit("f2");
    reveal_strlit("f3");
    reveal_strlit("f4");
    reveal_strlit("f5");
    reveal_strlit("f6");
    reveal_strlit("f7");
    reveal_strlit("f8");
    reveal_strlit("f9");
    reveal_strlit("f10");
    reveal_strlit("f11");
    reveal_strlit("f12");
    reveal_strlit("space");
    reveal_strlit("spacebar");
    reveal_strlit("enter");
    reveal_strlit("return");
    reveal_strlit("tab");
    reveal_strlit("escape");
    reveal_strlit("esc");
    reveal_strlit("backspace");
    reveal_strlit("delete");
    reveal_strlit("del");
    reveal_strlit("insert");
    reveal_strlit("ins");
    reveal_strlit("home");
    reveal_strlit("end");
    reveal_strlit("pageup");
    reveal_strlit("pgup");
    reveal_strlit("pagedown");
    reveal_strlit("pgdn");
    reveal_strlit("up");
    reveal_strlit("down");
    reveal_strlit("left");
    reveal_strlit("right");
    reveal_strlit("ctrl");
    reveal_strlit("control");
    reveal_strlit("alt");
    reveal_strlit("option");
    reveal_strlit("opt");
    reveal_strlit("shift");
    reveal_strlit("win");
    reveal_strlit("super");
    reveal_strlit("meta");
    reveal_strlit("cmd");
    reveal_strlit("command");
    assert(lower_seq("PageDown"@) =~= "pagedown"@);
    assert("pagedown"@[0] != "spacebar"@[0]);
    assert("pagedown"@ != "spacebar"@);
}

proof fn lemma_key_token_up(k: KeyName)
    requires
        k == KeyName::Up,
    ensures
        key_chars(k).len() > 0,
        no_plus(key_chars(k)),
        no_space(key_chars(k)),
        key_of_token(lower_seq(key_chars(k))) == Some(k),
        modifier_of_token(lower_seq(key_chars(k))) is None,
{
    reveal_strlit("F1");
    reveal_strlit("F2");
    reveal_strlit("F3");
    reveal_strlit("F4");
    reveal_strlit("F5");
    reveal_strlit("F6");
    reveal_strlit("F7");
    reveal_strlit("F8");
    reveal_strlit("F9");
    reveal_strlit("F10");
    reveal_strlit("F11");
    reveal_strlit("F12");
    reveal_strlit("Space");
    reveal_strlit("Enter");
    reveal_strlit("Tab");
    reveal_strlit("Escape");
    reveal_strlit("Backspace");
    reveal_strlit("Delete");
    reveal_strlit("Insert");
    reveal_strlit("Home");
    reveal_strlit("End");
    reveal_strlit("PageUp");
    reveal_strlit("PageDown");
    reveal_strlit("Up");
    reveal_strlit("Down");
    reveal_strlit("Left");
    reveal_strlit("Right");
    reveal_strlit("f1");
    reveal_strlit("f2");
    reveal_strlit("f3");
    reveal_strlit("f4");
    reveal_strlit("f5");
    reveal_strlit("f6");
    reveal_strlit("f7");
    reveal_strlit("f8");
    reveal_strlit("f9");
    reveal_strlit("f10");
    reveal_strlit("f11");
    reveal_strlit("f12");
    reveal_strlit("space");
    reveal_strlit("spacebar");
    reveal_strlit("enter");
    reveal_strlit("return");
    reveal_strlit("tab");
    reveal_strlit("escape");
    reveal_strlit("esc");
    reveal_strlit("backspace");
    reveal_strlit("delete");
    reveal_strlit("del");
    reveal_strlit("insert");
    reveal_strlit("ins");
    reveal_strlit("home");
    reveal_strlit("end");
    reveal_strlit("pageup");
    reveal_strlit("pgup");
    reveal_strlit("pagedown");
    reveal_strlit("pgdn");
    reveal_strlit("up");
    reveal_strlit("down");
    reveal_strlit("left");
    reveal_strlit("right");
    reveal_strlit("ctrl");
    reveal_strlit("control");
    reveal_strlit("alt");
    reveal_strlit("option");
    reveal_strlit("opt");
    reveal_strlit("shift");
    reveal_strlit("win");
    reveal_strlit("super");
    reveal_strlit("meta");
    reveal_strlit("cmd");
    reveal_strlit("command");
    assert(lower_seq("Up"@) =~= "up"@);
    assert("up"@[0] != "f1"@[0]);
    assert("up"@ != "f1"@);
    assert("up"@[0] != "f2"@[0]);
    assert("up"@ != "f2"@);
    assert("up"@[0] != "f3"@[0]);
    assert("up"@ != "f3"@);
    assert("up"@[0] != "f4"@[0]);
    assert("up"@ != "f4"@);
    assert("up"@[0] != "f5"@[0]);
    assert("up"@ != "f5"@);
    assert("up"@[0] != "f6"@[0]);
    assert("up"@ != "f6"@);
    assert("up"@[0] != "f7"@[0]);
    assert("up"@ != "f7"@);
    assert("up"@[0] != "f8"@[0]);
    assert("up"@ != "f8"@);
    assert("up"@[0] != "f9"@[0]);
    assert("up"@ != "f9"@);
}

proof fn lemma_key_token_down(k: KeyName)
    requires
        k == KeyName::Down,
    ensures
        key_chars(k).len() > 0,
        no_plus(key_chars(k)),
        no_space(key_chars(k)),
        key_of_token(lower_seq(key_chars(k))) == Some(k),
        modifier_of_token(lower_seq(key_chars(k))) is None,
{
    reveal_strlit("F1");
    reveal_strlit("F2");
    reveal_strlit("F3");
    reveal_strlit("F4");
    reveal_strlit("F5");
    reveal_strlit("F6");
    reveal_strlit("F7");
    reveal_strlit("F8");
    reveal_strlit("F9");
    reveal_strlit("F10");
    reveal_strlit("F11");
    reveal_strlit("F12");
    reveal_strlit("Space");
    reveal_strlit("Enter");
    reveal_strlit("Tab");
    reveal_strlit("Escape");
    reveal_strlit("Backspace");
    reveal_strlit("Delete");
    reveal_strlit("Insert");
    reveal_strlit("Home");
    reveal_strlit("End");
    reveal_strlit("PageUp");
    reveal_strlit("PageDown");
    reveal_strlit("Up");
    reveal_strlit("Down");
    reveal_strlit("Left");
    reveal_strlit("Right");
    reveal_strlit("f1");
    reveal_strlit("f2");
    reveal_strlit("f3");
    reveal_strlit("f4");
    reveal_strlit("f5");
    reveal_strlit("f6");
    reveal_strlit("f7");
    reveal_strlit("f8");
    reveal_strlit("f9");
    reveal_strlit("f10");
    reveal_strlit("f11");
    reveal_strlit("f12");
    reveal_strlit("space");
    reveal_strlit("spacebar");
    reveal_strlit("enter");
    reveal_strlit("return");
    reveal_strlit("tab");
    reveal_strlit("escape");
    reveal_strlit("esc");
    reveal_strlit("backspace");
    reveal_strlit("delete");
    reveal_strlit("del");
    reveal_strlit("insert");
    reveal_strlit("ins");
    reveal_strlit("home");
    reveal_strlit("end");
    reveal_strlit("pageup");
    reveal_strlit("pgup");
    reveal_strlit("pagedown");
    reveal_strlit("pgdn");
    reveal_strlit("up");
    reveal_strlit("down");
    reveal_strlit("left");
    reveal_strlit("right");
    reveal_strlit("ctrl");
    reveal_strlit("control");
    reveal_strlit("alt");
    reveal_strlit("option");
    reveal_strlit("opt");
    reveal_strlit("shift");
    reveal_strlit("win");
    reveal_strlit("super");
    reveal_strlit("meta");
    reveal_strlit("cmd");
    reveal_strlit("command");
    assert(lower_seq("Down"@) =~= "down"@);
    assert("down"@[0] != "home"@[0]);
    assert("down"@ != "home"@);
    assert("down"@[0] != "pgup"@[0]);
    assert("down"@ != "pgup"@);
    assert("down"@[0] != "pgdn"@[0]);
    assert("down"@ != "pgdn"@);
    assert("down"@[0] != "ctrl"@[0]);
    assert("down"@ != "ctrl"@);
    assert("down"@[0] != "meta"@[0]);
    assert("down"@ != "meta"@);
}

proof fn lemma_key_token_left(k: KeyName)
    requires
        k == KeyName::Left,
    ensures
        key_chars(k).len() > 0,
        no_plus(key_chars(k)),
        no_space(key_chars(k)),
        key_of_token(lower_seq(key_chars(k))) == Some(k),
        modifier_of_token(lower_seq(key_chars(k))) is None,
{
    reveal_strlit("F1");
    reveal_strlit("F2");
    reveal_strlit("F3");
    reveal_strlit("F4");
    reveal_strlit("F5");
    reveal_strlit("F6");
    reveal_strlit("F7");
    reveal_strlit("F8");
    reveal_strlit("F9");
    reveal_strlit("F10");
    reveal_strlit("F11");
    reveal_strlit("F12");
    reveal_strlit("Space");
    reveal_strlit("Enter");
    reveal_strlit("Tab");
    reveal_strlit("Escape");
    reveal_strlit("Backspace");
    reveal_strlit("Delete");
    reveal_strlit("Insert");
    reveal_strlit("Home");
    reveal_strlit("End");
    reveal_strlit("PageUp");
    reveal_strlit("PageDown");
    reveal_strlit("Up");
    reveal_strlit("Down");
    reveal_strlit("Left");
    reveal_strlit("Right");
    reveal_strlit("f1");
    reveal_strlit("f2");
    reveal_strlit("f3");
    reveal_strlit("f4");
    reveal_strlit("f5");
    reveal_strlit("f6");
    reveal_strlit("f7");
    reveal_strlit("f8");
    reveal_strlit("f9");
    reveal_strlit("f10");
    reveal_strlit("f11");
    reveal_strlit("f12");
    reveal_strlit("space");
    reveal_strlit("spacebar");
    reveal_strlit("enter");
    reveal_strlit("return");
    reveal_strlit("tab");
    reveal_strlit("escape");
    reveal_strlit("esc");
    reveal_strlit("backspace");
    reveal_strlit("delete");
    reveal_strlit("del");
    reveal_strlit("insert");
    reveal_strlit("ins");
    reveal_strlit("home");
    reveal_strlit("end");
    reveal_strlit("pageup");
    reveal_strlit("pgup");
    reveal_strlit("pagedown");
    reveal_strlit("pgdn");
    reveal_strlit("up");
    reveal_strlit("down");
    reveal_strlit("left");
    reveal_strlit("right");
    reveal_strlit("ctrl");
    reveal_strlit("control");
    reveal_strlit("alt");
    reveal_strlit("option");
    reveal_strlit("opt");
    reveal_strlit("shift");
    reveal_strlit("win");
    reveal_strlit("super");
    reveal_strlit("meta");
    reveal_strlit("cmd");
    reveal_strlit("command");
    assert(lower_seq("Left"@) =~= "left"@);
    assert("left"@[0] != "home"@[0]);
    assert("left"@ != "home"@);
    assert("left"@[0] != "pgup"@[0]);
    assert("left"@ != "pgup"@);
    assert("left"@[0] != "pgdn"@[0]);
    assert("left"@ != "pgdn"@);
    assert("left"@[0] != "down"@[0]);
    assert("left"@ != "down"@);
    assert("left"@[0] != "ctrl"@[0]);
    assert("left"@ != "ctrl"@);
    assert("left"@[0] != "meta"@[0]);
    assert("left"@ != "meta"@);
}

proof fn lemma_key_token_right(k: KeyName)
    requires
        k == KeyName::Right,
    ensures
        key_chars(k).len() > 0,
        no_plus(key_chars(k)),
        no_space(key_chars(k)),
        key_of_token(lower_seq(key_chars(k))) == Some(k),
        modifier_of_token(lower_seq(key_chars(k))) is None,
{
    reveal_strlit("F1");
    reveal_strlit("F2");
    reveal_strlit("F3");
    reveal_strlit("F4");
    reveal_strlit("F5");
    reveal_strlit("F6");
    reveal_strlit("F7");
    reveal_strlit("F8");
    reveal_strlit("F9");
    reveal_strlit("F10");
    reveal_strlit("F11");
    reveal_strlit("F12");
    reveal_strlit("Space");
    reveal_strlit("Enter");
    reveal_strlit("Tab");
    reveal_strlit("Escape");
    reveal_strlit("Backspace");
    reveal_strlit("Delete");
    reveal_strlit("Insert");
    reveal_strlit("Home");
    reveal_strlit("End");
    reveal_strlit("PageUp");
    reveal_strlit("PageDown");
    reveal_strlit("Up");
    reveal_strlit("Down");
    reveal_strlit("Left");
    reveal_strlit("Right");
    reveal_strlit("f1");
    reveal_strlit("f2");
    reveal_strlit("f3");
    reveal_strlit("f4");
    reveal_strlit("f5");
    reveal_strlit("f6");
    reveal_strlit("f7");
    reveal_strlit("f8");
    reveal_strlit("f9");
    reveal_strlit("f10");
    reveal_strlit("f11");
    reveal_strlit("f12");
    reveal_strlit("space");
    reveal_strlit("spacebar");
    reveal_strlit("enter");
    reveal_strlit("return");
    reveal_strlit("tab");
    reveal_strlit("escape");
    reveal_strlit("esc");
    reveal_strlit("backspace");
    reveal_strlit("delete");
    reveal_strlit("del");
    reveal_strlit("insert");
    reveal_strlit("ins");
    reveal_strlit("home");
    reveal_strlit("end");
    reveal_strlit("pageup");
    reveal_strlit("pgup");
    reveal_strlit("pagedown");
    reveal_strlit("pgdn");
    reveal_strlit("up");
    reveal_strlit("down");
    reveal_strlit("left");
    reveal_strlit("right");
    reveal_strlit("ctrl");
    reveal_strlit("control");
    reveal_strlit("alt");
    reveal_strlit("option");
    reveal_strlit("opt");
    reveal_strlit("shift");
    reveal_strlit("win");
    reveal_strlit("super");
    reveal_strlit("meta");
    reveal_strlit("cmd");
    reveal_strlit("command");
    assert(lower_seq("Right"@) =~= "right"@);
    assert("right"@[0] != "space"@[0]);
    assert("right"@ != "space"@);
    assert("right"@[0] != "enter"@[0]);
    assert("right"@ != "enter"@);
    assert("right"@[0] != "shift"@[0]);
    assert("right"@ != "shift"@);
    assert("right"@[0] != "super"@[0]);
    assert("right"@ != "super"@);
}

/// Every canonical key display name is a nonempty token without `+` or
/// whitespace; folded to lower case it resolves to its own key and to no
/// modifier.
pub proof fn lemma_key_token_roundtrip(k: KeyName)
    ensures
        key_chars(k).len() > 0,
        no_plus(key_chars(k)),
        no_space(key_chars(k)),
        key_of_token(lower_seq(key_chars(k))) == Some(k),
        modifier_of_token(lower_seq(key_chars(k))) is None,
{
    match k {
        KeyName::A => {
            assert(key_chars(k) =~= seq!['A'] && lower_seq(key_chars(k)) =~= seq!['a']) by {
                reveal_strlit("A");
            }
        },
        KeyName::B => {
            assert(key_chars(k) =~= seq!['B'] && lower_seq(key_chars(k)) =~= seq!['b']) by {
                reveal_strlit("B");
            }
        },
        KeyName::C => {
            assert(key_chars(k) =~= seq!['C'] && lower_seq(key_chars(k)) =~= seq!['c']) by {
                reveal_strlit("C");
            }
        },
        KeyName::D => {
            assert(key_chars(k) =~= seq!['D'] && lower_seq(key_chars(k)) =~= seq!['d']) by {
                reveal_strlit("D");
            }
        },
        KeyName::E => {
            assert(key_chars(k) =~= seq!['E'] && lower_seq(key_chars(k)) =~= seq!['e']) by {
                reveal_strlit("E");
            }
        },
        KeyName::F => {
            assert(key_chars(k) =~= seq!['F'] && lower_seq(key_chars(k)) =~= seq!['f']) by {
                reveal_strlit("F");
            }
        },
        KeyName::G => {
            assert(key_chars(k) =~= seq!['G'] && lower_seq(key_chars(k)) =~= seq!['g']) by {
                reveal_strlit("G");
            }
        },
        KeyName::H => {
            assert(key_chars(k) =~= seq!['H'] && lower_seq(key_chars(k)) =~= seq!['h']) by {
                reveal_strlit("H");
            }
        },
        KeyName::I => {
            assert(key_chars(k) =~= seq!['I'] && lower_seq(key_chars(k)) =~= seq!['i']) by {
                reveal_strlit("I");
            }
        },
        KeyName::J => {
            assert(key_chars(k) =~= seq!['J'] && lower_seq(key_chars(k)) =~= seq!['j']) by {
                reveal_strlit("J");
            }
        },
        KeyName::K => {
            assert(key_chars(k) =~= seq!['K'] && lower_seq(key_chars(k)) =~= seq!['k']) by {
                reveal_strlit("K");
            }
        },
        KeyName::L => {
            assert(key_chars(k) =~= seq!['L'] && lower_seq(key_chars(k)) =~= seq!['l']) by {
                reveal_strlit("L");
            }
        },
        KeyName::M => {
            assert(key_chars(k) =~= seq!['M'] && lower_seq(key_chars(k)) =~= seq!['m']) by {
                reveal_strlit("M");
            }
        },
        KeyName::N => {
            assert(key_chars(k) =~= seq!['N'] && lower_seq(key_chars(k)) =~= seq!['n']) by {
                reveal_strlit("N");
            }
        },
        KeyName::O => {
            assert(key_chars(k) =~= seq!['O'] && lower_seq(key_chars(k)) =~= seq!['o']) by {
                reveal_strlit("O");
            }
        },
        KeyName::P => {
            assert(key_chars(k) =~= seq!['P'] && lower_seq(key_chars(k)) =~= seq!['p']) by {
                reveal_strlit("P");
            }
        },
        KeyName::Q => {
            assert(key_chars(k) =~= seq!['Q'] && lower_seq(key_chars(k)) =~= seq!['q']) by {
                reveal_strlit("Q");
            }
        },
        KeyName::R => {
            assert(key_chars(k) =~= seq!['R'] && lower_seq(key_chars(k)) =~= seq!['r']) by {
                reveal_strlit("R");
            }
        },
        KeyName::S => {
            assert(key_chars(k) =~= seq!['S'] && lower_seq(key_chars(k)) =~= seq!['s']) by {
                reveal_strlit("S");
            }
        },
        KeyName::T => {
            assert(key_chars(k) =~= seq!['T'] && lower_seq(key_chars(k)) =~= seq!['t']) by {
                reveal_strlit("T");
            }
        },
        KeyName::U => {
            assert(key_chars(k) =~= seq!['U'] && lower_seq(key_chars(k)) =~= seq!['u']) by {
                reveal_strlit("U");
            }
        },
        KeyName::V => {
            assert(key_chars(k) =~= seq!['V'] && lower_seq(key_chars(k)) =~= seq!['v']) by {
                reveal_strlit("V");
            }
        },
        KeyName::W => {
            assert(key_chars(k) =~= seq!['W'] && lower_seq(key_chars(k)) =~= seq!['w']) by {
                reveal_strlit("W");
            }
        },
        KeyName::X => {
            assert(key_chars(k) =~= seq!['X'] && lower_seq(key_chars(k)) =~= seq!['x']) by {
                reveal_strlit("X");
            }
        },
        KeyName::Y => {
            assert(key_chars(k) =~= seq!['Y'] && lower_seq(key_chars(k)) =~= seq!['y']) by {
                reveal_strlit("Y");
            }
        },
        KeyName::Z => {
            assert(key_chars(k) =~= seq!['Z'] && lower_seq(key_chars(k)) =~= seq!['z']) by {
                reveal_strlit("Z");
            }
        },
        KeyName::D0 => {
            assert(key_chars(k) =~= seq!['0'] && lower_seq(key_chars(k)) =~= seq!['0']) by {
                reveal_strlit("0");
            }
        },
        KeyName::D1 => {
            assert(key_chars(k) =~= seq!['1'] && lower_seq(key_chars(k)) =~= seq!['1']) by {
                reveal_strlit("1");
            }
        },
        KeyName::D2 => {
            assert(key_chars(k) =~= seq!['2'] && lower_seq(key_chars(k)) =~= seq!['2']) by {
                reveal_strlit("2");
            }
        },
        KeyName::D3 => {
            assert(key_chars(k) =~= seq!['3'] && lower_seq(key_chars(k)) =~= seq!['3']) by {
                reveal_strlit("3");
            }
        },
        KeyName::D4 => {
            assert(key_chars(k) =~= seq!['4'] && lower_seq(key_chars(k)) =~= seq!['4']) by {
                reveal_strlit("4");
            }
        },
        KeyName::D5 => {
            assert(key_chars(k) =~= seq!['5'] && lower_seq(key_chars(k)) =~= seq!['5']) by {
                reveal_strlit("5");
            }
        },
        KeyName::D6 => {
            assert(key_chars(k) =~= seq!['6'] && lower_seq(key_chars(k)) =~= seq!['6']) by {
                reveal_strlit("6");
            }
        },
        KeyName::D7 => {
            assert(key_chars(k) =~= seq!['7'] && lower_seq(key_chars(k)) =~= seq!['7']) by {
                reveal_strlit("7");
            }
        },
        KeyName::D8 => {
            assert(key_chars(k) =~= seq!['8'] && lower_seq(key_chars(k)) =~= seq!['8']) by {
                reveal_strlit("8");
            }
        },
        KeyName::D9 => {
            assert(key_chars(k) =~= seq!['9'] && lower_seq(key_chars(k)) =~= seq!['9']) by {
                reveal_strlit("9");
            }
        },
        KeyName::F1 => {
            lemma_key_token_f1(k);
        },
        KeyName::F2 => {
            lemma_key_token_f2(k);
        },
        KeyName::F3 => {
            lemma_key_token_f3(k);
        },
        KeyName::F4 => {
            lemma_key_token_f4(k);
        },
        KeyName::F5 => {
            lemma_key_token_f5(k);
        },
        KeyName::F6 => {
            lemma_key_token_f6(k);
        },
        KeyName::F7 => {
            lemma_key_token_f7(k);
        },
        KeyName::F8 => {
            lemma_key_token_f8(k);
        },
        KeyName::F9 => {
            lemma_key_token_f9(k);
        },
        KeyName::F10 => {
            lemma_key_token_f10(k);
        },
        KeyName::F11 => {
            lemma_key_token_f11(k);
        },
        KeyName::F12 => {
            lemma_key_token_f12(k);
        },
        KeyName::Space => {
            lemma_key_token_space(k);
        },
        KeyName::Enter => {
            lemma_key_token_enter(k);
        },
        KeyName::Tab => {
            lemma_key_token_tab(k);
        },
        KeyName::Escape => {
            lemma_key_token_escape(k);
        },
        KeyName::Backspace => {
            lemma_key_token_backspace(k);
        },
        KeyName::Delete => {
            lemma_key_token_delete(k);
        },
        KeyName::Insert => {
            lemma_key_token_insert(k);
        },
        KeyName::Home => {
            lemma_key_token_home(k);
        },
        KeyName::End => {
            lemma_key_token_end(k);
        },
        KeyName::PageUp => {
            lemma_key_token_pageup(k);
        },
        KeyName::PageDown => {
            lemma_key_token_pagedown(k);
        },
        KeyName::Up => {
            lemma_key_token_up(k);
        },
        KeyName::Down => {
            lemma_key_token_down(k);
        },
        KeyName::Left => {
            lemma_key_token_left(k);
        },
        KeyName::Right => {
            lemma_key_token_right(k);
        },
    }
}


} // verus!

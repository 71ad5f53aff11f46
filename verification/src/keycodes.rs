//! Raw platform key-code tables: the low-level virtual-key codes one
//! platform reports and the keycodes the other reports, mapped into the
//! closed key table, plus the tests for modifier codes.

use vstd::prelude::*;

use crate::keys::KeyName;

verus! {

/// Whether a virtual-key code is a modifier (Shift, Ctrl, Alt or the
/// platform key, in generic or sided form).
pub open spec fn spec_is_modifier_vk(vk: u16) -> bool {
    vk == 0x10 || vk == 0x11 || vk == 0x12 || vk == 0xA0 || vk == 0xA1 || vk == 0xA2
        || vk == 0xA3 || vk == 0xA4 || vk == 0xA5 || vk == 0x5B || vk == 0x5C
}

/// Executable modifier test for virtual-key codes.
pub fn is_modifier_key(vk: u16) -> (r: bool)
    ensures
        r == spec_is_modifier_vk(vk),
{
    vk == 0x10 || vk == 0x11 || vk == 0x12 || vk == 0xA0 || vk == 0xA1 || vk == 0xA2
        || vk == 0xA3 || vk == 0xA4 || vk == 0xA5 || vk == 0x5B || vk == 0x5C
}

/// The key a virtual-key code names, for codes the closed table covers.
pub open spec fn spec_common_key_name(vk: u16) -> Option<KeyName> {
    match vk {
        0x41 => Some(KeyName::A),
        0x42 => Some(KeyName::B),
        0x43 => Some(KeyName::C),
        0x44 => Some(KeyName::D),
        0x45 => Some(KeyName::E),
        0x46 => Some(KeyName::F),
        0x47 => Some(KeyName::G),
        0x48 => Some(KeyName::H),
        0x49 => Some(KeyName::I),
        0x4A => Some(KeyName::J),
        0x4B => Some(KeyName::K),
        0x4C => Some(KeyName::L),
        0x4D => Some(KeyName::M),
        0x4E => Some(KeyName::N),
        0x4F => Some(KeyName::O),
        0x50 => Some(KeyName::P),
        0x51 => Some(KeyName::Q),
        0x52 => Some(KeyName::R),
        0x53 => Some(KeyName::S),
        0x54 => Some(KeyName::T),
        0x55 => Some(KeyName::U),
        0x56 => Some(KeyName::V),
        0x57 => Some(KeyName::W),
        0x58 => Some(KeyName::X),
        0x59 => Some(KeyName::Y),
        0x5A => Some(KeyName::Z),
        0x30 => Some(KeyName::D0),
        0x31 => Some(KeyName::D1),
        0x32 => Some(KeyName::D2),
        0x33 => Some(KeyName::D3),
        0x34 => Some(KeyName::D4),
        0x35 => Some(KeyName::D5),
        0x36 => Some(KeyName::D6),
        0x37 => Some(KeyName::D7),
        0x38 => Some(KeyName::D8),
        0x39 => Some(KeyName::D9),
        0x70 => Some(KeyName::F1),
        0x71 => Some(KeyName::F2),
        0x72 => Some(KeyName::F3),
        0x73 => Some(KeyName::F4),
        0x74 => Some(KeyName::F5),
        0x75 => Some(KeyName::F6),
        0x76 => Some(KeyName::F7),
        0x77 => Some(KeyName::F8),
        0x78 => Some(KeyName::F9),
        0x79 => Some(KeyName::F10),
        0x7A => Some(KeyName::F11),
        0x7B => Some(KeyName::F12),
        0x20 => Some(KeyName::Space),
        0x0D => Some(KeyName::Enter),
        0x09 => Some(KeyName::Tab),
        0x1B => Some(KeyName::Escape),
        0x08 => Some(KeyName::Backspace),
        0x2E => Some(KeyName::Delete),
        0x2D => Some(KeyName::Insert),
        0x24 => Some(KeyName::Home),
        0x23 => Some(KeyName::End),
        0x21 => Some(KeyName::PageUp),
        0x22 => Some(KeyName::PageDown),
        0x25 => Some(KeyName::Left),
        0x26 => Some(KeyName::Up),
        0x27 => Some(KeyName::Right),
        0x28 => Some(KeyName::Down),
        _ => None,
    }
}

/// Executable virtual-key lookup.
pub fn common_key_name(vk: u16) -> (r: Option<KeyName>)
    ensures
        r == spec_common_key_name(vk),
{
    match vk {
        0x41 => Some(KeyName::A),
        0x42 => Some(KeyName::B),
        0x43 => Some(KeyName::C),
        0x44 => Some(KeyName::D),
        0x45 => Some(KeyName::E),
        0x46 => Some(KeyName::F),
        0x47 => Some(KeyName::G),
        0x48 => Some(KeyName::H),
        0x49 => Some(KeyName::I),
        0x4A => Some(KeyName::J),
        0x4B => Some(KeyName::K),
        0x4C => Some(KeyName::L),
        0x4D => Some(KeyName::M),
        0x4E => Some(KeyName::N),
        0x4F => Some(KeyName::O),
        0x50 => Some(KeyName::P),
        0x51 => Some(KeyName::Q),
        0x52 => Some(KeyName::R),
        0x53 => Some(KeyName::S),
        0x54 => Some(KeyName::T),
        0x55 => Some(KeyName::U),
        0x56 => Some(KeyName::V),
        0x57 => Some(KeyName::W),
        0x58 => Some(KeyName::X),
        0x59 => Some(KeyName::Y),
        0x5A => Some(KeyName::Z),
        0x30 => Some(KeyName::D0),
        0x31 => Some(KeyName::D1),
        0x32 => Some(KeyName::D2),
        0x33 => Some(KeyName::D3),
        0x34 => Some(KeyName::D4),
        0x35 => Some(KeyName::D5),
        0x36 => Some(KeyName::D6),
        0x37 => Some(KeyName::D7),
        0x38 => Some(KeyName::D8),
        0x39 => Some(KeyName::D9),
        0x70 => Some(KeyName::F1),
        0x71 => Some(KeyName::F2),
        0x72 => Some(KeyName::F3),
        0x73 => Some(KeyName::F4),
        0x74 => Some(KeyName::F5),
        0x75 => Some(KeyName::F6),
        0x76 => Some(KeyName::F7),
        0x77 => Some(KeyName::F8),
        0x78 => Some(KeyName::F9),
        0x79 => Some(KeyName::F10),
        0x7A => Some(KeyName::F11),
        0x7B => Some(KeyName::F12),
        0x20 => Some(KeyName::Space),
        0x0D => Some(KeyName::Enter),
        0x09 => Some(KeyName::Tab),
        0x1B => Some(KeyName::Escape),
        0x08 => Some(KeyName::Backspace),
        0x2E => Some(KeyName::Delete),
        0x2D => Some(KeyName::Insert),
        0x24 => Some(KeyName::Home),
        0x23 => Some(KeyName::End),
        0x21 => Some(KeyName::PageUp),
        0x22 => Some(KeyName::PageDown),
        0x25 => Some(KeyName::Left),
        0x26 => Some(KeyName::Up),
        0x27 => Some(KeyName::Right),
        0x28 => Some(KeyName::Down),
        _ => None,
    }
}

/// Whether an event-tap keycode is a modifier key.
pub open spec fn spec_is_modifier_keycode(code: u16) -> bool {
    code == 54 || code == 55 || code == 56 || code == 57 || code == 58 || code == 59
        || code == 60 || code == 61 || code == 62 || code == 63
}

/// Executable modifier test for event-tap keycodes.
pub fn is_modifier_keycode(code: u16) -> (r: bool)
    ensures
        r == spec_is_modifier_keycode(code),
{
    code == 54 || code == 55 || code == 56 || code == 57 || code == 58 || code == 59
        || code == 60 || code == 61 || code == 62 || code == 63
}

/// The key an event-tap keycode names, for codes the closed table covers.
pub open spec fn spec_keycode_to_name(code: u16) -> Option<KeyName> {
    match code {
        0 => Some(KeyName::A),
        1 => Some(KeyName::S),
        2 => Some(KeyName::D),
        3 => Some(KeyName::F),
        4 => Some(KeyName::H),
        5 => Some(KeyName::G),
        6 => Some(KeyName::Z),
        7 => Some(KeyName::X),
        8 => Some(KeyName::C),
        9 => Some(KeyName::V),
        11 => Some(KeyName::B),
        12 => Some(KeyName::Q),
        13 => Some(KeyName::W),
        14 => Some(KeyName::E),
        15 => Some(KeyName::R),
        16 => Some(KeyName::Y),
        17 => Some(KeyName::T),
        18 => Some(KeyName::D1),
        19 => Some(KeyName::D2),
        20 => Some(KeyName::D3),
        21 => Some(KeyName::D4),
        22 => Some(KeyName::D6),
        23 => Some(KeyName::D5),
        25 => Some(KeyName::D9),
        26 => Some(KeyName::D7),
        28 => Some(KeyName::D8),
        29 => Some(KeyName::D0),
        31 => Some(KeyName::O),
        32 => Some(KeyName::U),
        34 => Some(KeyName::I),
        35 => Some(KeyName::P),
        36 => Some(KeyName::Enter),
        37 => Some(KeyName::L),
        38 => Some(KeyName::J),
        40 => Some(KeyName::K),
        45 => Some(KeyName::N),
        46 => Some(KeyName::M),
        48 => Some(KeyName::Tab),
        49 => Some(KeyName::Space),
        51 => Some(KeyName::Backspace),
        53 => Some(KeyName::Escape),
        96 => Some(KeyName::F5),
        97 => Some(KeyName::F6),
        98 => Some(KeyName::F7),
        99 => Some(KeyName::F3),
        100 => Some(KeyName::F8),
        101 => Some(KeyName::F9),
        103 => Some(KeyName::F11),
        109 => Some(KeyName::F10),
        111 => Some(KeyName::F12),
        115 => Some(KeyName::Home),
        116 => Some(KeyName::PageUp),
        117 => Some(KeyName::Delete),
        118 => Some(KeyName::F4),
        119 => Some(KeyName::End),
        120 => Some(KeyName::F2),
        121 => Some(KeyName::PageDown),
        122 => Some(KeyName::F1),
        123 => Some(KeyName::Left),
        124 => Some(KeyName::Right),
        125 => Some(KeyName::Down),
        126 => Some(KeyName::Up),
        _ => None,
    }
}

/// Executable event-tap keycode lookup.
pub fn keycode_to_name(code: u16) -> (r: Option<KeyName>)
    ensures
        r == spec_keycode_to_name(code),
{
    match code {
        0 => Some(KeyName::A),
        1 => Some(KeyName::S),
        2 => Some(KeyName::D),
        3 => Some(KeyName::F),
        4 => Some(KeyName::H),
        5 => Some(KeyName::G),
        6 => Some(KeyName::Z),
        7 => Some(KeyName::X),
        8 => Some(KeyName::C),
        9 => Some(KeyName::V),
        11 => Some(KeyName::B),
        12 => Some(KeyName::Q),
        13 => Some(KeyName::W),
        14 => Some(KeyName::E),
        15 => Some(KeyName::R),
        16 => Some(KeyName::Y),
        17 => Some(KeyName::T),
        18 => Some(KeyName::D1),
        19 => Some(KeyName::D2),
        20 => Some(KeyName::D3),
        21 => Some(KeyName::D4),
        22 => Some(KeyName::D6),
        23 => Some(KeyName::D5),
        25 => Some(KeyName::D9),
        26 => Some(KeyName::D7),
        28 => Some(KeyName::D8),
        29 => Some(KeyName::D0),
        31 => Some(KeyName::O),
        32 => Some(KeyName::U),
        34 => Some(KeyName::I),
        35 => Some(KeyName::P),
        36 => Some(KeyName::Enter),
        37 => Some(KeyName::L),
        38 => Some(KeyName::J),
        40 => Some(KeyName::K),
        45 => Some(KeyName::N),
        46 => Some(KeyName::M),
        48 => Some(KeyName::Tab),
        49 => Some(KeyName::Space),
        51 => Some(KeyName::Backspace),
        53 => Some(KeyName::Escape),
        96 => Some(KeyName::F5),
        97 => Some(KeyName::F6),
        98 => Some(KeyName::F7),
        99 => Some(KeyName::F3),
        100 => Some(KeyName::F8),
        101 => Some(KeyName::F9),
        103 => Some(KeyName::F11),
        109 => Some(KeyName::F10),
        111 => Some(KeyName::F12),
        115 => Some(KeyName::Home),
        116 => Some(KeyName::PageUp),
        117 => Some(KeyName::Delete),
        118 => Some(KeyName::F4),
        119 => Some(KeyName::End),
        120 => Some(KeyName::F2),
        121 => Some(KeyName::PageDown),
        122 => Some(KeyName::F1),
        123 => Some(KeyName::Left),
        124 => Some(KeyName::Right),
        125 => Some(KeyName::Down),
        126 => Some(KeyName::Up),
        _ => None,
    }
}

} // verus!

//! Key-identity tables: native scancodes and symbolic key values mapped
//! to the portable vocabulary.
//!
//! Scancodes go through a fixed table. Symbolic key values fall back to
//! the text the symbol produces; the runner computes that text with its
//! keyboard library and hands it in as a plain value, so the whole
//! translation decision is verified here for every text it may supply.
use crate::event::{Event, Key, KeyCode, LogicalKey, PhysicalKey};
use vstd::prelude::*;

verus! {

/// The fixed scancode table: which hardware key a raw OS scancode names.
pub open spec fn spec_physical_key(code: u32) -> PhysicalKey {
    match code {
        15u32 => PhysicalKey::KeyCode(KeyCode::Tab),
        105u32 => PhysicalKey::KeyCode(KeyCode::LeftArrow),
        106u32 => PhysicalKey::KeyCode(KeyCode::RightArrow),
        103u32 => PhysicalKey::KeyCode(KeyCode::UpArrow),
        108u32 => PhysicalKey::KeyCode(KeyCode::DownArrow),
        104u32 => PhysicalKey::KeyCode(KeyCode::PageUp),
        109u32 => PhysicalKey::KeyCode(KeyCode::PageDown),
        102u32 => PhysicalKey::KeyCode(KeyCode::Home),
        107u32 => PhysicalKey::KeyCode(KeyCode::End),
        110u32 => PhysicalKey::KeyCode(KeyCode::Insert),
        111u32 => PhysicalKey::KeyCode(KeyCode::Delete),
        14u32 => PhysicalKey::KeyCode(KeyCode::Backspace),
        57u32 => PhysicalKey::KeyCode(KeyCode::Space),
        28u32 => PhysicalKey::KeyCode(KeyCode::Enter),
        1u32 => PhysicalKey::KeyCode(KeyCode::Escape),
        29u32 => PhysicalKey::KeyCode(KeyCode::LCtrl),
        42u32 => PhysicalKey::KeyCode(KeyCode::LShift),
        56u32 => PhysicalKey::KeyCode(KeyCode::LAlt),
        125u32 => PhysicalKey::KeyCode(KeyCode::LSuper),
        97u32 => PhysicalKey::KeyCode(KeyCode::RCtrl),
        54u32 => PhysicalKey::KeyCode(KeyCode::RShift),
        99u32 => PhysicalKey::KeyCode(KeyCode::RAlt),
        126u32 => PhysicalKey::KeyCode(KeyCode::RSuper),
        127u32 => PhysicalKey::KeyCode(KeyCode::Menu),
        2u32 => PhysicalKey::KeyCode(KeyCode::Key1),
        3u32 => PhysicalKey::KeyCode(KeyCode::Key2),
        4u32 => PhysicalKey::KeyCode(KeyCode::Key3),
        5u32 => PhysicalKey::KeyCode(KeyCode::Key4),
        6u32 => PhysicalKey::KeyCode(KeyCode::Key5),
        7u32 => PhysicalKey::KeyCode(KeyCode::Key6),
        8u32 => PhysicalKey::KeyCode(KeyCode::Key7),
        9u32 => PhysicalKey::KeyCode(KeyCode::Key8),
        10u32 => PhysicalKey::KeyCode(KeyCode::Key9),
        11u32 => PhysicalKey::KeyCode(KeyCode::Key0),
        79u32 => PhysicalKey::KeyCode(KeyCode::Numpad1),
        80u32 => PhysicalKey::KeyCode(KeyCode::Numpad2),
        81u32 => PhysicalKey::KeyCode(KeyCode::Numpad3),
        75u32 => PhysicalKey::KeyCode(KeyCode::Numpad4),
        76u32 => PhysicalKey::KeyCode(KeyCode::Numpad5),
        77u32 => PhysicalKey::KeyCode(KeyCode::Numpad6),
        71u32 => PhysicalKey::KeyCode(KeyCode::Numpad7),
        72u32 => PhysicalKey::KeyCode(KeyCode::Numpad8),
        73u32 => PhysicalKey::KeyCode(KeyCode::Numpad9),
        82u32 => PhysicalKey::KeyCode(KeyCode::Numpad0),
        83u32 => PhysicalKey::KeyCode(KeyCode::NumpadDecimal),
        98u32 => PhysicalKey::KeyCode(KeyCode::NumpadDivide),
        55u32 => PhysicalKey::KeyCode(KeyCode::NumpadMultiply),
        74u32 => PhysicalKey::KeyCode(KeyCode::NumpadSubtract),
        78u32 => PhysicalKey::KeyCode(KeyCode::NumpadAdd),
        96u32 => PhysicalKey::KeyCode(KeyCode::NumpadEnter),
        30u32 => PhysicalKey::KeyCode(KeyCode::A),
        48u32 => PhysicalKey::KeyCode(KeyCode::B),
        46u32 => PhysicalKey::KeyCode(KeyCode::C),
        32u32 => PhysicalKey::KeyCode(KeyCode::D),
        18u32 => PhysicalKey::KeyCode(KeyCode::E),
        33u32 => PhysicalKey::KeyCode(KeyCode::F),
        34u32 => PhysicalKey::KeyCode(KeyCode::G),
        35u32 => PhysicalKey::KeyCode(KeyCode::H),
        23u32 => PhysicalKey::KeyCode(KeyCode::I),
        36u32 => PhysicalKey::KeyCode(KeyCode::J),
        37u32 => PhysicalKey::KeyCode(KeyCode::K),
        38u32 => PhysicalKey::KeyCode(KeyCode::L),
        50u32 => PhysicalKey::KeyCode(KeyCode::M),
        49u32 => PhysicalKey::KeyCode(KeyCode::N),
        24u32 => PhysicalKey::KeyCode(KeyCode::O),
        25u32 => PhysicalKey::KeyCode(KeyCode::P),
        16u32 => PhysicalKey::KeyCode(KeyCode::Q),
        19u32 => PhysicalKey::KeyCode(KeyCode::R),
        31u32 => PhysicalKey::KeyCode(KeyCode::S),
        20u32 => PhysicalKey::KeyCode(KeyCode::T),
        22u32 => PhysicalKey::KeyCode(KeyCode::U),
        47u32 => PhysicalKey::KeyCode(KeyCode::V),
        17u32 => PhysicalKey::KeyCode(KeyCode::W),
        45u32 => PhysicalKey::KeyCode(KeyCode::X),
        21u32 => PhysicalKey::KeyCode(KeyCode::Y),
        44u32 => PhysicalKey::KeyCode(KeyCode::Z),
        59u32 => PhysicalKey::KeyCode(KeyCode::F1),
        60u32 => PhysicalKey::KeyCode(KeyCode::F2),
        61u32 => PhysicalKey::KeyCode(KeyCode::F3),
        62u32 => PhysicalKey::KeyCode(KeyCode::F4),
        63u32 => PhysicalKey::KeyCode(KeyCode::F5),
        64u32 => PhysicalKey::KeyCode(KeyCode::F6),
        65u32 => PhysicalKey::KeyCode(KeyCode::F7),
        66u32 => PhysicalKey::KeyCode(KeyCode::F8),
        67u32 => PhysicalKey::KeyCode(KeyCode::F9),
        68u32 => PhysicalKey::KeyCode(KeyCode::F10),
        87u32 => PhysicalKey::KeyCode(KeyCode::F11),
        88u32 => PhysicalKey::KeyCode(KeyCode::F12),
        39u32 => PhysicalKey::KeyCode(KeyCode::Semicolon),
        40u32 => PhysicalKey::KeyCode(KeyCode::Quote),
        51u32 => PhysicalKey::KeyCode(KeyCode::Comma),
        52u32 => PhysicalKey::KeyCode(KeyCode::Period),
        53u32 => PhysicalKey::KeyCode(KeyCode::Slash),
        12u32 => PhysicalKey::KeyCode(KeyCode::Minus),
        13u32 => PhysicalKey::KeyCode(KeyCode::Equal),
        26u32 => PhysicalKey::KeyCode(KeyCode::LBracket),
        27u32 => PhysicalKey::KeyCode(KeyCode::RBracket),
        43u32 => PhysicalKey::KeyCode(KeyCode::Backslash),
        41u32 => PhysicalKey::KeyCode(KeyCode::Grave),
        58u32 => PhysicalKey::KeyCode(KeyCode::CapsLock),
        70u32 => PhysicalKey::KeyCode(KeyCode::ScrollLock),
        69u32 => PhysicalKey::KeyCode(KeyCode::NumLock),
        100u32 => PhysicalKey::KeyCode(KeyCode::PrintScreen),
        119u32 => PhysicalKey::KeyCode(KeyCode::Pause),
        _ => PhysicalKey::Unknown(code),
    }
}

/// The fixed symbol table: which named key a symbolic key value stands for,
/// `None` when the symbol is not in the table. The values are the standard
/// X11 keysym numbers.
pub open spec fn spec_logical_key_table(sym: u32) -> Option<Key> {
    match sym {
        0xff09u32 => Some(Key::Tab),
        0x20u32 => Some(Key::Space),
        0x2eu32 => Some(Key::Period),
        0xff08u32 => Some(Key::Backspace),
        0xff0du32 => Some(Key::Enter),
        0xff1bu32 => Some(Key::Escape),
        0xffe3u32 => Some(Key::LCtrl),
        0xffe1u32 => Some(Key::LShift),
        0xffe9u32 => Some(Key::LAlt),
        0xffebu32 => Some(Key::LSuper),
        0xffe4u32 => Some(Key::RCtrl),
        0xffe2u32 => Some(Key::RShift),
        0xffeau32 => Some(Key::RAlt),
        0xffecu32 => Some(Key::RSuper),
        0xff51u32 => Some(Key::LeftArrow),
        0xff53u32 => Some(Key::RightArrow),
        0xff52u32 => Some(Key::UpArrow),
        0xff54u32 => Some(Key::DownArrow),
        0xff55u32 => Some(Key::PageUp),
        0xff56u32 => Some(Key::PageDown),
        0xff50u32 => Some(Key::Home),
        0xff57u32 => Some(Key::End),
        0xff63u32 => Some(Key::Insert),
        0xffffu32 => Some(Key::Delete),
        0x2bu32 => Some(Key::Plus),
        0x2du32 => Some(Key::Minus),
        0x2au32 => Some(Key::Asterisk),
        0x2fu32 => Some(Key::Slash),
        0xffabu32 => Some(Key::NumpadAdd),
        0xffadu32 => Some(Key::NumpadSubtract),
        0xffaau32 => Some(Key::NumpadMultiply),
        0xffafu32 => Some(Key::NumpadDivide),
        0xffaeu32 => Some(Key::NumpadDecimal),
        0xff96u32 => Some(Key::NumpadLeftArrow),
        0xff98u32 => Some(Key::NumpadRightArrow),
        0xff97u32 => Some(Key::NumpadUpArrow),
        0xff99u32 => Some(Key::NumpadDownArrow),
        0xff9au32 => Some(Key::NumpadPageUp),
        0xff9bu32 => Some(Key::NumpadPageDown),
        0xff95u32 => Some(Key::NumpadHome),
        0xff9cu32 => Some(Key::NumpadEnd),
        0xff9eu32 => Some(Key::NumpadInsert),
        0xff9fu32 => Some(Key::NumpadDelete),
        0xff9du32 => Some(Key::NumpadBegin),
        0x31u32 => Some(Key::Key1),
        0x32u32 => Some(Key::Key2),
        0x33u32 => Some(Key::Key3),
        0x34u32 => Some(Key::Key4),
        0x35u32 => Some(Key::Key5),
        0x36u32 => Some(Key::Key6),
        0x37u32 => Some(Key::Key7),
        0x38u32 => Some(Key::Key8),
        0x39u32 => Some(Key::Key9),
        0x30u32 => Some(Key::Key0),
        0xffb1u32 => Some(Key::Numpad1),
        0xffb2u32 => Some(Key::Numpad2),
        0xffb3u32 => Some(Key::Numpad3),
        0xffb4u32 => Some(Key::Numpad4),
        0xffb5u32 => Some(Key::Numpad5),
        0xffb6u32 => Some(Key::Numpad6),
        0xffb7u32 => Some(Key::Numpad7),
        0xffb8u32 => Some(Key::Numpad8),
        0xffb9u32 => Some(Key::Numpad9),
        0xffb0u32 => Some(Key::Numpad0),
        0xffbeu32 => Some(Key::F1),
        0xffbfu32 => Some(Key::F2),
        0xffc0u32 => Some(Key::F3),
        0xffc1u32 => Some(Key::F4),
        0xffc2u32 => Some(Key::F5),
        0xffc3u32 => Some(Key::F6),
        0xffc4u32 => Some(Key::F7),
        0xffc5u32 => Some(Key::F8),
        0xffc6u32 => Some(Key::F9),
        0xffc7u32 => Some(Key::F10),
        0xffc8u32 => Some(Key::F11),
        0xffc9u32 => Some(Key::F12),
        0xff8du32 => Some(Key::NumpadEnter),
        0xffe5u32 => Some(Key::CapsLock),
        0xff14u32 => Some(Key::ScrollLock),
        0xff7fu32 => Some(Key::NumLock),
        0xff61u32 => Some(Key::PrintScreen),
        0xff13u32 => Some(Key::Pause),
        0xff67u32 => Some(Key::Menu),
        _ => None,
    }
}

/// What translating a symbolic key value must yield, given `text`, the
/// text the symbol produces: the table entry when there is one;
/// otherwise that text, or the raw symbol when it produces none.
pub open spec fn logical_key_is(sym: u32, text: Seq<char>, r: LogicalKey) -> bool {
    match spec_logical_key_table(sym) {
        Some(k) => r == LogicalKey::Key(k),
        None => {
            if text.len() == 0 {
                r == LogicalKey::Unknown(sym)
            } else {
                r matches LogicalKey::Character(s) && s@ == text
            }
        },
    }
}

/// Translate a raw OS scancode to a hardware key identity.
pub fn physical_key_from_code(code: u32) -> (r: PhysicalKey)
    ensures
        r == spec_physical_key(code),
{
    match code {
        15u32 => PhysicalKey::KeyCode(KeyCode::Tab),
        105u32 => PhysicalKey::KeyCode(KeyCode::LeftArrow),
        106u32 => PhysicalKey::KeyCode(KeyCode::RightArrow),
        103u32 => PhysicalKey::KeyCode(KeyCode::UpArrow),
        108u32 => PhysicalKey::KeyCode(KeyCode::DownArrow),
        104u32 => PhysicalKey::KeyCode(KeyCode::PageUp),
        109u32 => PhysicalKey::KeyCode(KeyCode::PageDown),
        102u32 => PhysicalKey::KeyCode(KeyCode::Home),
        107u32 => PhysicalKey::KeyCode(KeyCode::End),
        110u32 => PhysicalKey::KeyCode(KeyCode::Insert),
        111u32 => PhysicalKey::KeyCode(KeyCode::Delete),
        14u32 => PhysicalKey::KeyCode(KeyCode::Backspace),
        57u32 => PhysicalKey::KeyCode(KeyCode::Space),
        28u32 => PhysicalKey::KeyCode(KeyCode::Enter),
        1u32 => PhysicalKey::KeyCode(KeyCode::Escape),
        29u32 => PhysicalKey::KeyCode(KeyCode::LCtrl),
        42u32 => PhysicalKey::KeyCode(KeyCode::LShift),
        56u32 => PhysicalKey::KeyCode(KeyCode::LAlt),
        125u32 => PhysicalKey::KeyCode(KeyCode::LSuper),
        97u32 => PhysicalKey::KeyCode(KeyCode::RCtrl),
        54u32 => PhysicalKey::KeyCode(KeyCode::RShift),
        99u32 => PhysicalKey::KeyCode(KeyCode::RAlt),
        126u32 => PhysicalKey::KeyCode(KeyCode::RSuper),
        127u32 => PhysicalKey::KeyCode(KeyCode::Menu),
        2u32 => PhysicalKey::KeyCode(KeyCode::Key1),
        3u32 => PhysicalKey::KeyCode(KeyCode::Key2),
        4u32 => PhysicalKey::KeyCode(KeyCode::Key3),
        5u32 => PhysicalKey::KeyCode(KeyCode::Key4),
        6u32 => PhysicalKey::KeyCode(KeyCode::Key5),
        7u32 => PhysicalKey::KeyCode(KeyCode::Key6),
        8u32 => PhysicalKey::KeyCode(KeyCode::Key7),
        9u32 => PhysicalKey::KeyCode(KeyCode::Key8),
        10u32 => PhysicalKey::KeyCode(KeyCode::Key9),
        11u32 => PhysicalKey::KeyCode(KeyCode::Key0),
        79u32 => PhysicalKey::KeyCode(KeyCode::Numpad1),
        80u32 => PhysicalKey::KeyCode(KeyCode::Numpad2),
        81u32 => PhysicalKey::KeyCode(KeyCode::Numpad3),
        75u32 => PhysicalKey::KeyCode(KeyCode::Numpad4),
        76u32 => PhysicalKey::KeyCode(KeyCode::Numpad5),
        77u32 => PhysicalKey::KeyCode(KeyCode::Numpad6),
        71u32 => PhysicalKey::KeyCode(KeyCode::Numpad7),
        72u32 => PhysicalKey::KeyCode(KeyCode::Numpad8),
        73u32 => PhysicalKey::KeyCode(KeyCode::Numpad9),
        82u32 => PhysicalKey::KeyCode(KeyCode::Numpad0),
        83u32 => PhysicalKey::KeyCode(KeyCode::NumpadDecimal),
        98u32 => PhysicalKey::KeyCode(KeyCode::NumpadDivide),
        55u32 => PhysicalKey::KeyCode(KeyCode::NumpadMultiply),
        74u32 => PhysicalKey::KeyCode(KeyCode::NumpadSubtract),
        78u32 => PhysicalKey::KeyCode(KeyCode::NumpadAdd),
        96u32 => PhysicalKey::KeyCode(KeyCode::NumpadEnter),
        30u32 => PhysicalKey::KeyCode(KeyCode::A),
        48u32 => PhysicalKey::KeyCode(KeyCode::B),
        46u32 => PhysicalKey::KeyCode(KeyCode::C),
        32u32 => PhysicalKey::KeyCode(KeyCode::D),
        18u32 => PhysicalKey::KeyCode(KeyCode::E),
        33u32 => PhysicalKey::KeyCode(KeyCode::F),
        34u32 => PhysicalKey::KeyCode(KeyCode::G),
        35u32 => PhysicalKey::KeyCode(KeyCode::H),
        23u32 => PhysicalKey::KeyCode(KeyCode::I),
        36u32 => PhysicalKey::KeyCode(KeyCode::J),
        37u32 => PhysicalKey::KeyCode(KeyCode::K),
        38u32 => PhysicalKey::KeyCode(KeyCode::L),
        50u32 => PhysicalKey::KeyCode(KeyCode::M),
        49u32 => PhysicalKey::KeyCode(KeyCode::N),
        24u32 => PhysicalKey::KeyCode(KeyCode::O),
        25u32 => PhysicalKey::KeyCode(KeyCode::P),
        16u32 => PhysicalKey::KeyCode(KeyCode::Q),
        19u32 => PhysicalKey::KeyCode(KeyCode::R),
        31u32 => PhysicalKey::KeyCode(KeyCode::S),
        20u32 => PhysicalKey::KeyCode(KeyCode::T),
        22u32 => PhysicalKey::KeyCode(KeyCode::U),
        47u32 => PhysicalKey::KeyCode(KeyCode::V),
        17u32 => PhysicalKey::KeyCode(KeyCode::W),
        45u32 => PhysicalKey::KeyCode(KeyCode::X),
        21u32 => PhysicalKey::KeyCode(KeyCode::Y),
        44u32 => PhysicalKey::KeyCode(KeyCode::Z),
        59u32 => PhysicalKey::KeyCode(KeyCode::F1),
        60u32 => PhysicalKey::KeyCode(KeyCode::F2),
        61u32 => PhysicalKey::KeyCode(KeyCode::F3),
        62u32 => PhysicalKey::KeyCode(KeyCode::F4),
        63u32 => PhysicalKey::KeyCode(KeyCode::F5),
        64u32 => PhysicalKey::KeyCode(KeyCode::F6),
        65u32 => PhysicalKey::KeyCode(KeyCode::F7),
        66u32 => PhysicalKey::KeyCode(KeyCode::F8),
        67u32 => PhysicalKey::KeyCode(KeyCode::F9),
        68u32 => PhysicalKey::KeyCode(KeyCode::F10),
        87u32 => PhysicalKey::KeyCode(KeyCode::F11),
        88u32 => PhysicalKey::KeyCode(KeyCode::F12),
        39u32 => PhysicalKey::KeyCode(KeyCode::Semicolon),
        40u32 => PhysicalKey::KeyCode(KeyCode::Quote),
        51u32 => PhysicalKey::KeyCode(KeyCode::Comma),
        52u32 => PhysicalKey::KeyCode(KeyCode::Period),
        53u32 => PhysicalKey::KeyCode(KeyCode::Slash),
        12u32 => PhysicalKey::KeyCode(KeyCode::Minus),
        13u32 => PhysicalKey::KeyCode(KeyCode::Equal),
        26u32 => PhysicalKey::KeyCode(KeyCode::LBracket),
        27u32 => PhysicalKey::KeyCode(KeyCode::RBracket),
        43u32 => PhysicalKey::KeyCode(KeyCode::Backslash),
        41u32 => PhysicalKey::KeyCode(KeyCode::Grave),
        58u32 => PhysicalKey::KeyCode(KeyCode::CapsLock),
        70u32 => PhysicalKey::KeyCode(KeyCode::ScrollLock),
        69u32 => PhysicalKey::KeyCode(KeyCode::NumLock),
        100u32 => PhysicalKey::KeyCode(KeyCode::PrintScreen),
        119u32 => PhysicalKey::KeyCode(KeyCode::Pause),
        _ => PhysicalKey::Unknown(code),
    }
}

/// Translate a symbolic key value to its logical meaning under the
/// fixed table, falling back to `text`, the text the symbol produces —
/// computed by the caller's keyboard library from the symbol alone.
pub fn logical_key_from_keysym(sym: u32, text: String) -> (r: LogicalKey)
    ensures
        logical_key_is(sym, text@, r),
{
    let table: Option<Key> = match sym {
        0xff09u32 => Some(Key::Tab),
        0x20u32 => Some(Key::Space),
        0x2eu32 => Some(Key::Period),
        0xff08u32 => Some(Key::Backspace),
        0xff0du32 => Some(Key::Enter),
        0xff1bu32 => Some(Key::Escape),
        0xffe3u32 => Some(Key::LCtrl),
        0xffe1u32 => Some(Key::LShift),
        0xffe9u32 => Some(Key::LAlt),
        0xffebu32 => Some(Key::LSuper),
        0xffe4u32 => Some(Key::RCtrl),
        0xffe2u32 => Some(Key::RShift),
        0xffeau32 => Some(Key::RAlt),
        0xffecu32 => Some(Key::RSuper),
        0xff51u32 => Some(Key::LeftArrow),
        0xff53u32 => Some(Key::RightArrow),
        0xff52u32 => Some(Key::UpArrow),
        0xff54u32 => Some(Key::DownArrow),
        0xff55u32 => Some(Key::PageUp),
        0xff56u32 => Some(Key::PageDown),
        0xff50u32 => Some(Key::Home),
        0xff57u32 => Some(Key::End),
        0xff63u32 => Some(Key::Insert),
        0xffffu32 => Some(Key::Delete),
        0x2bu32 => Some(Key::Plus),
        0x2du32 => Some(Key::Minus),
        0x2au32 => Some(Key::Asterisk),
        0x2fu32 => Some(Key::Slash),
        0xffabu32 => Some(Key::NumpadAdd),
        0xffadu32 => Some(Key::NumpadSubtract),
        0xffaau32 => Some(Key::NumpadMultiply),
        0xffafu32 => Some(Key::NumpadDivide),
        0xffaeu32 => Some(Key::NumpadDecimal),
        0xff96u32 => Some(Key::NumpadLeftArrow),
        0xff98u32 => Some(Key::NumpadRightArrow),
        0xff97u32 => Some(Key::NumpadUpArrow),
        0xff99u32 => Some(Key::NumpadDownArrow),
        0xff9au32 => Some(Key::NumpadPageUp),
        0xff9bu32 => Some(Key::NumpadPageDown),
        0xff95u32 => Some(Key::NumpadHome),
        0xff9cu32 => Some(Key::NumpadEnd),
        0xff9eu32 => Some(Key::NumpadInsert),
        0xff9fu32 => Some(Key::NumpadDelete),
        0xff9du32 => Some(Key::NumpadBegin),
        0x31u32 => Some(Key::Key1),
        0x32u32 => Some(Key::Key2),
        0x33u32 => Some(Key::Key3),
        0x34u32 => Some(Key::Key4),
        0x35u32 => Some(Key::Key5),
        0x36u32 => Some(Key::Key6),
        0x37u32 => Some(Key::Key7),
        0x38u32 => Some(Key::Key8),
        0x39u32 => Some(Key::Key9),
        0x30u32 => Some(Key::Key0),
        0xffb1u32 => Some(Key::Numpad1),
        0xffb2u32 => Some(Key::Numpad2),
        0xffb3u32 => Some(Key::Numpad3),
        0xffb4u32 => Some(Key::Numpad4),
        0xffb5u32 => Some(Key::Numpad5),
        0xffb6u32 => Some(Key::Numpad6),
        0xffb7u32 => Some(Key::Numpad7),
        0xffb8u32 => Some(Key::Numpad8),
        0xffb9u32 => Some(Key::Numpad9),
        0xffb0u32 => Some(Key::Numpad0),
        0xffbeu32 => Some(Key::F1),
        0xffbfu32 => Some(Key::F2),
        0xffc0u32 => Some(Key::F3),
        0xffc1u32 => Some(Key::F4),
        0xffc2u32 => Some(Key::F5),
        0xffc3u32 => Some(Key::F6),
        0xffc4u32 => Some(Key::F7),
        0xffc5u32 => Some(Key::F8),
        0xffc6u32 => Some(Key::F9),
        0xffc7u32 => Some(Key::F10),
        0xffc8u32 => Some(Key::F11),
        0xffc9u32 => Some(Key::F12),
        0xff8du32 => Some(Key::NumpadEnter),
        0xffe5u32 => Some(Key::CapsLock),
        0xff14u32 => Some(Key::ScrollLock),
        0xff7fu32 => Some(Key::NumLock),
        0xff61u32 => Some(Key::PrintScreen),
        0xff13u32 => Some(Key::Pause),
        0xff67u32 => Some(Key::Menu),
        _ => None,
    };
    proof {
        assert(table == spec_logical_key_table(sym));
    }
    match table {
        Some(k) => LogicalKey::Key(k),
        None => {
            if text.as_str().is_empty() {
                LogicalKey::Unknown(sym)
            } else {
                LogicalKey::Character(text)
            }
        },
    }
}

/// Build the normalized key-press event from the translated pieces of a
/// native key-down notification. `keysym_text` and `unmod_text` are the
/// texts the modified and the unmodified symbol produce, and `text_raw`
/// the layout- and modifier-resolved text of the whole press; the caller
/// computes all three from its keymap state.
pub fn make_key_down_event(
    scancode: u32,
    keysym: u32,
    unmod_keysym: u32,
    keysym_text: String,
    unmod_text: String,
    text_raw: String,
) -> (ev: Event)
    ensures
        ev matches Event::Key {
            down,
            physical_key,
            logical_key,
            text,
            text_raw: raw,
            logical_key_unmodified,
        } && {
            &&& down == true
            &&& physical_key == spec_physical_key(scancode)
            &&& logical_key_is(keysym, keysym_text@, logical_key)
            &&& text@ == keysym_text@
            &&& raw == text_raw
            &&& logical_key_is(unmod_keysym, unmod_text@, logical_key_unmodified)
        },
{
    let physical_key = physical_key_from_code(scancode);
    let text = keysym_text.clone();
    let logical_key = logical_key_from_keysym(keysym, keysym_text);
    let logical_key_unmodified = logical_key_from_keysym(unmod_keysym, unmod_text);
    Event::Key {
        down: true,
        physical_key,
        logical_key,
        text,
        text_raw,
        logical_key_unmodified,
    }
}

/// Build the normalized key-release event from the translated pieces of
/// a native key-up notification; releases carry no text. `keysym_text`
/// and `unmod_text` are the texts the modified and the unmodified symbol
/// produce, for the logical-key fallback only.
pub fn make_key_up_event(
    scancode: u32,
    keysym: u32,
    unmod_keysym: u32,
    keysym_text: String,
    unmod_text: String,
) -> (ev: Event)
    ensures
        ev matches Event::Key {
            down,
            physical_key,
            logical_key,
            text,
            text_raw,
            logical_key_unmodified,
        } && {
            &&& down == false
            &&& physical_key == spec_physical_key(scancode)
            &&& logical_key_is(keysym, keysym_text@, logical_key)
            &&& text@ == Seq::<char>::empty()
            &&& text_raw@ == Seq::<char>::empty()
            &&& logical_key_is(unmod_keysym, unmod_text@, logical_key_unmodified)
        },
{
    let physical_key = physical_key_from_code(scancode);
    let logical_key = logical_key_from_keysym(keysym, keysym_text);
    let logical_key_unmodified = logical_key_from_keysym(unmod_keysym, unmod_text);
    Event::Key {
        down: false,
        physical_key,
        logical_key,
        text: String::new(),
        text_raw: String::new(),
        logical_key_unmodified,
    }
}

} // verus!

//! The key bindings that keys pressed in the user interface stand for.

use vstd::prelude::*;

use crate::keys::KeyBinding;

verus! {

/// A key pressed in the user interface: a character, or a named key.
#[derive(Clone, Debug, PartialEq, Eq)]
pub enum KeyInput {
    Character(String),
    F1,
    F2,
    F3,
    F4,
    F5,
    F6,
    F7,
    F8,
    F9,
    F10,
    F11,
    F12,
    ArrowUp,
    ArrowLeft,
    ArrowRight,
    ArrowDown,
    Home,
    End,
    PageUp,
    PageDown,
    Insert,
    Delete,
    Enter,
    Escape,
    Shift,
    Control,
    Alt,
    /// Any other named key.
    Other,
}

/// The lowercase form of `s`, as [`str::to_lowercase`] gives it.
pub uninterp spec fn lowercased(s: Seq<char>) -> Seq<char>;

/// Lowercases `s` with [`str::to_lowercase`]; the result is named by `lowercased`.
#[verifier::external_body]
fn to_lowercase(s: &str) -> (r: String)
    ensures
        r@ == lowercased(s@),
{
    s.to_lowercase()
}

/// The key binding of a typed character.
pub open spec fn char_binding(c: char) -> Option<KeyBinding> {
    if c == 'a' {
        Some(KeyBinding::A)
    } else if c == 'b' {
        Some(KeyBinding::B)
    } else if c == 'c' {
        Some(KeyBinding::C)
    } else if c == 'd' {
        Some(KeyBinding::D)
    } else if c == 'e' {
        Some(KeyBinding::E)
    } else if c == 'f' {
        Some(KeyBinding::F)
    } else if c == 'g' {
        Some(KeyBinding::G)
    } else if c == 'h' {
        Some(KeyBinding::H)
    } else if c == 'i' {
        Some(KeyBinding::I)
    } else if c == 'j' {
        Some(KeyBinding::J)
    } else if c == 'k' {
        Some(KeyBinding::K)
    } else if c == 'l' {
        Some(KeyBinding::L)
    } else if c == 'm' {
        Some(KeyBinding::M)
    } else if c == 'n' {
        Some(KeyBinding::N)
    } else if c == 'o' {
        Some(KeyBinding::O)
    } else if c == 'p' {
        Some(KeyBinding::P)
    } else if c == 'q' {
        Some(KeyBinding::Q)
    } else if c == 'r' {
        Some(KeyBinding::R)
    } else if c == 's' {
        Some(KeyBinding::S)
    } else if c == 't' {
        Some(KeyBinding::T)
    } else if c == 'u' {
        Some(KeyBinding::U)
    } else if c == 'v' {
        Some(KeyBinding::V)
    } else if c == 'w' {
        Some(KeyBinding::W)
    } else if c == 'x' {
        Some(KeyBinding::X)
    } else if c == 'y' {
        Some(KeyBinding::Y)
    } else if c == 'z' {
        Some(KeyBinding::Z)
    } else if c == '0' {
        Some(KeyBinding::Zero)
    } else if c == '1' {
        Some(KeyBinding::One)
    } else if c == '2' {
        Some(KeyBinding::Two)
    } else if c == '3' {
        Some(KeyBinding::Three)
    } else if c == '4' {
        Some(KeyBinding::Four)
    } else if c == '5' {
        Some(KeyBinding::Five)
    } else if c == '6' {
        Some(KeyBinding::Six)
    } else if c == '7' {
        Some(KeyBinding::Seven)
    } else if c == '8' {
        Some(KeyBinding::Eight)
    } else if c == '9' {
        Some(KeyBinding::Nine)
    } else if c == '`' {
        Some(KeyBinding::Tilde)
    } else if c == '\'' {
        Some(KeyBinding::Quote)
    } else if c == ';' {
        Some(KeyBinding::Semicolon)
    } else if c == ',' {
        Some(KeyBinding::Comma)
    } else if c == '.' {
        Some(KeyBinding::Period)
    } else if c == '/' {
        Some(KeyBinding::Slash)
    } else if c == ' ' {
        Some(KeyBinding::Space)
    } else {
        None
    }
}

fn char_key(c: char) -> (r: Option<KeyBinding>)
    ensures
        r == char_binding(c),
{
    if c == 'a' {
        Some(KeyBinding::A)
    } else if c == 'b' {
        Some(KeyBinding::B)
    } else if c == 'c' {
        Some(KeyBinding::C)
    } else if c == 'd' {
        Some(KeyBinding::D)
    } else if c == 'e' {
        Some(KeyBinding::E)
    } else if c == 'f' {
        Some(KeyBinding::F)
    } else if c == 'g' {
        Some(KeyBinding::G)
    } else if c == 'h' {
        Some(KeyBinding::H)
    } else if c == 'i' {
        Some(KeyBinding::I)
    } else if c == 'j' {
        Some(KeyBinding::J)
    } else if c == 'k' {
        Some(KeyBinding::K)
    } else if c == 'l' {
        Some(KeyBinding::L)
    } else if c == 'm' {
        Some(KeyBinding::M)
    } else if c == 'n' {
        Some(KeyBinding::N)
    } else if c == 'o' {
        Some(KeyBinding::O)
    } else if c == 'p' {
        Some(KeyBinding::P)
    } else if c == 'q' {
        Some(KeyBinding::Q)
    } else if c == 'r' {
        Some(KeyBinding::R)
    } else if c == 's' {
        Some(KeyBinding::S)
    } else if c == 't' {
        Some(KeyBinding::T)
    } else if c == 'u' {
        Some(KeyBinding::U)
    } else if c == 'v' {
        Some(KeyBinding::V)
    } else if c == 'w' {
        Some(KeyBinding::W)
    } else if c == 'x' {
        Some(KeyBinding::X)
    } else if c == 'y' {
        Some(KeyBinding::Y)
    } else if c == 'z' {
        Some(KeyBinding::Z)
    } else if c == '0' {
        Some(KeyBinding::Zero)
    } else if c == '1' {
        Some(KeyBinding::One)
    } else if c == '2' {
        Some(KeyBinding::Two)
    } else if c == '3' {
        Some(KeyBinding::Three)
    } else if c == '4' {
        Some(KeyBinding::Four)
    } else if c == '5' {
        Some(KeyBinding::Five)
    } else if c == '6' {
        Some(KeyBinding::Six)
    } else if c == '7' {
        Some(KeyBinding::Seven)
    } else if c == '8' {
        Some(KeyBinding::Eight)
    } else if c == '9' {
        Some(KeyBinding::Nine)
    } else if c == '`' {
        Some(KeyBinding::Tilde)
    } else if c == '\'' {
        Some(KeyBinding::Quote)
    } else if c == ';' {
        Some(KeyBinding::Semicolon)
    } else if c == ',' {
        Some(KeyBinding::Comma)
    } else if c == '.' {
        Some(KeyBinding::Period)
    } else if c == '/' {
        Some(KeyBinding::Slash)
    } else if c == ' ' {
        Some(KeyBinding::Space)
    } else {
        None
    }
}

/// The key binding that a pressed key stands for: a character by its
/// lowercase form, a named key by its name.
pub open spec fn key_binding_for(key: KeyInput) -> Option<KeyBinding> {
    match key {
        KeyInput::Character(s) => lowercase_binding(lowercased(s@)),
        KeyInput::F1 => Some(KeyBinding::F1),
        KeyInput::F2 => Some(KeyBinding::F2),
        KeyInput::F3 => Some(KeyBinding::F3),
        KeyInput::F4 => Some(KeyBinding::F4),
        KeyInput::F5 => Some(KeyBinding::F5),
        KeyInput::F6 => Some(KeyBinding::F6),
        KeyInput::F7 => Some(KeyBinding::F7),
        KeyInput::F8 => Some(KeyBinding::F8),
        KeyInput::F9 => Some(KeyBinding::F9),
        KeyInput::F10 => Some(KeyBinding::F10),
        KeyInput::F11 => Some(KeyBinding::F11),
        KeyInput::F12 => Some(KeyBinding::F12),
        KeyInput::ArrowUp => Some(KeyBinding::Up),
        KeyInput::ArrowLeft => Some(KeyBinding::Left),
        KeyInput::ArrowRight => Some(KeyBinding::Right),
        KeyInput::ArrowDown => Some(KeyBinding::Down),
        KeyInput::Home => Some(KeyBinding::Home),
        KeyInput::End => Some(KeyBinding::End),
        KeyInput::PageUp => Some(KeyBinding::PageUp),
        KeyInput::PageDown => Some(KeyBinding::PageDown),
        KeyInput::Insert => Some(KeyBinding::Insert),
        KeyInput::Delete => Some(KeyBinding::Delete),
        KeyInput::Enter => Some(KeyBinding::Enter),
        KeyInput::Escape => Some(KeyBinding::Esc),
        KeyInput::Shift => Some(KeyBinding::Shift),
        KeyInput::Control => Some(KeyBinding::Ctrl),
        KeyInput::Alt => Some(KeyBinding::Alt),
        KeyInput::Other => None,
    }
}

/// The key binding of the lowercase form of a typed character; none unless
/// `lower` is a single character that names a key.
pub open spec fn lowercase_binding(lower: Seq<char>) -> Option<KeyBinding> {
    if lower.len() == 1 {
        char_binding(lower[0])
    } else {
        None
    }
}

/// The key binding of the lowercase form `lower` of a typed character.
pub fn binding_of_lowercase(lower: &str) -> (r: Option<KeyBinding>)
    ensures
        r == lowercase_binding(lower@),
{
    if lower.unicode_len() == 1 {
        char_key(lower.get_char(0))
    } else {
        None
    }
}

/// The key binding that a pressed key stands for, if any.
pub fn map_key(key: KeyInput) -> (r: Option<KeyBinding>)
    ensures
        r == key_binding_for(key),
{
    match key {
        KeyInput::Character(s) => {
            let lower = to_lowercase(s.as_str());
            binding_of_lowercase(lower.as_str())
        },
        KeyInput::F1 => Some(KeyBinding::F1),
        KeyInput::F2 => Some(KeyBinding::F2),
        KeyInput::F3 => Some(KeyBinding::F3),
        KeyInput::F4 => Some(KeyBinding::F4),
        KeyInput::F5 => Some(KeyBinding::F5),
        KeyInput::F6 => Some(KeyBinding::F6),
        KeyInput::F7 => Some(KeyBinding::F7),
        KeyInput::F8 => Some(KeyBinding::F8),
        KeyInput::F9 => Some(KeyBinding::F9),
        KeyInput::F10 => Some(KeyBinding::F10),
        KeyInput::F11 => Some(KeyBinding::F11),
        KeyInput::F12 => Some(KeyBinding::F12),
        KeyInput::ArrowUp => Some(KeyBinding::Up),
        KeyInput::ArrowLeft => Some(KeyBinding::Left),
        KeyInput::ArrowRight => Some(KeyBinding::Right),
        KeyInput::ArrowDown => Some(KeyBinding::Down),
        KeyInput::Home => Some(KeyBinding::Home),
        KeyInput::End => Some(KeyBinding::End),
        KeyInput::PageUp => Some(KeyBinding::PageUp),
        KeyInput::PageDown => Some(KeyBinding::PageDown),
        KeyInput::Insert => Some(KeyBinding::Insert),
        KeyInput::Delete => Some(KeyBinding::Delete),
        KeyInput::Enter => Some(KeyBinding::Enter),
        KeyInput::Escape => Some(KeyBinding::Esc),
        KeyInput::Shift => Some(KeyBinding::Shift),
        KeyInput::Control => Some(KeyBinding::Ctrl),
        KeyInput::Alt => Some(KeyBinding::Alt),
        KeyInput::Other => None,
    }
}

} // verus!

//! Key bindings as the user configures them and the keys that the input layer sends.

use vstd::prelude::*;

verus! {

/// A key that the user can bind an action to.
#[derive(Clone, Copy, Debug, PartialEq, Eq, Structural)]
pub enum KeyBinding {
    A,
    B,
    C,
    D,
    E,
    F,
    G,
    H,
    I,
    J,
    K,
    L,
    M,
    N,
    O,
    P,
    Q,
    R,
    S,
    T,
    U,
    V,
    W,
    X,
    Y,
    Z,
    Zero,
    One,
    Two,
    Three,
    Four,
    Five,
    Six,
    Seven,
    Eight,
    Nine,
    F1,
    F2,
    F3,
    F4,
    F5,
    F6,
    F7,
    F8,
    F9,
    F10,
    F11,
    F12,
    Up,
    Down,
    Left,
    Right,
    Home,
    End,
    PageUp,
    PageDown,
    Insert,
    Delete,
    Enter,
    Space,
    Tilde,
    Quote,
    Semicolon,
    Comma,
    Period,
    Slash,
    Esc,
    Shift,
    Ctrl,
    Alt,
}

/// A key as the input layer sends it.
#[derive(Clone, Copy, Debug, PartialEq, Eq, Structural)]
pub enum KeyKind {
    A,
    B,
    C,
    D,
    E,
    F,
    G,
    H,
    I,
    J,
    K,
    L,
    M,
    N,
    O,
    P,
    Q,
    R,
    S,
    T,
    U,
    V,
    W,
    X,
    Y,
    Z,
    Zero,
    One,
    Two,
    Three,
    Four,
    Five,
    Six,
    Seven,
    Eight,
    Nine,
    F1,
    F2,
    F3,
    F4,
    F5,
    F6,
    F7,
    F8,
    F9,
    F10,
    F11,
    F12,
    Up,
    Down,
    Left,
    Right,
    Home,
    End,
    PageUp,
    PageDown,
    Insert,
    Delete,
    Enter,
    Space,
    Tilde,
    Quote,
    Semicolon,
    Comma,
    Period,
    Slash,
    Esc,
    Shift,
    Ctrl,
    Alt,
}

/// The input key that a configured key binding stands for.
pub open spec fn key_kind_of(key: KeyBinding) -> KeyKind {
    match key {
        KeyBinding::A => KeyKind::A,
        KeyBinding::B => KeyKind::B,
        KeyBinding::C => KeyKind::C,
        KeyBinding::D => KeyKind::D,
        KeyBinding::E => KeyKind::E,
        KeyBinding::F => KeyKind::F,
        KeyBinding::G => KeyKind::G,
        KeyBinding::H => KeyKind::H,
        KeyBinding::I => KeyKind::I,
        KeyBinding::J => KeyKind::J,
        KeyBinding::K => KeyKind::K,
        KeyBinding::L => KeyKind::L,
        KeyBinding::M => KeyKind::M,
        KeyBinding::N => KeyKind::N,
        KeyBinding::O => KeyKind::O,
        KeyBinding::P => KeyKind::P,
        KeyBinding::Q => KeyKind::Q,
        KeyBinding::R => KeyKind::R,
        KeyBinding::S => KeyKind::S,
        KeyBinding::T => KeyKind::T,
        KeyBinding::U => KeyKind::U,
        KeyBinding::V => KeyKind::V,
        KeyBinding::W => KeyKind::W,
        KeyBinding::X => KeyKind::X,
        KeyBinding::Y => KeyKind::Y,
        KeyBinding::Z => KeyKind::Z,
        KeyBinding::Zero => KeyKind::Zero,
        KeyBinding::One => KeyKind::One,
        KeyBinding::Two => KeyKind::Two,
        KeyBinding::Three => KeyKind::Three,
        KeyBinding::Four => KeyKind::Four,
        KeyBinding::Five => KeyKind::Five,
        KeyBinding::Six => KeyKind::Six,
        KeyBinding::Seven => KeyKind::Seven,
        KeyBinding::Eight => KeyKind::Eight,
        KeyBinding::Nine => KeyKind::Nine,
        KeyBinding::F1 => KeyKind::F1,
        KeyBinding::F2 => KeyKind::F2,
        KeyBinding::F3 => KeyKind::F3,
        KeyBinding::F4 => KeyKind::F4,
        KeyBinding::F5 => KeyKind::F5,
        KeyBinding::F6 => KeyKind::F6,
        KeyBinding::F7 => KeyKind::F7,
        KeyBinding::F8 => KeyKind::F8,
        KeyBinding::F9 => KeyKind::F9,
        KeyBinding::F10 => KeyKind::F10,
        KeyBinding::F11 => KeyKind::F11,
        KeyBinding::F12 => KeyKind::F12,
        KeyBinding::Up => KeyKind::Up,
        KeyBinding::Down => KeyKind::Down,
        KeyBinding::Left => KeyKind::Left,
        KeyBinding::Right => KeyKind::Right,
        KeyBinding::Home => KeyKind::Home,
        KeyBinding::End => KeyKind::End,
        KeyBinding::PageUp => KeyKind::PageUp,
        KeyBinding::PageDown => KeyKind::PageDown,
        KeyBinding::Insert => KeyKind::Insert,
        KeyBinding::Delete => KeyKind::Delete,
        KeyBinding::Enter => KeyKind::Enter,
        KeyBinding::Space => KeyKind::Space,
        KeyBinding::Tilde => KeyKind::Tilde,
        KeyBinding::Quote => KeyKind::Quote,
        KeyBinding::Semicolon => KeyKind::Semicolon,
        KeyBinding::Comma => KeyKind::Comma,
        KeyBinding::Period => KeyKind::Period,
        KeyBinding::Slash => KeyKind::Slash,
        KeyBinding::Esc => KeyKind::Esc,
        KeyBinding::Shift => KeyKind::Shift,
        KeyBinding::Ctrl => KeyKind::Ctrl,
        KeyBinding::Alt => KeyKind::Alt,
    }
}

impl KeyBinding {
    /// Converts this binding to the key that the input layer sends.
    pub fn to_key_kind(self) -> (kind: KeyKind)
        ensures
            kind == key_kind_of(self),
    {
        match self {
            KeyBinding::A => KeyKind::A,
            KeyBinding::B => KeyKind::B,
            KeyBinding::C => KeyKind::C,
            KeyBinding::D => KeyKind::D,
            KeyBinding::E => KeyKind::E,
            KeyBinding::F => KeyKind::F,
            KeyBinding::G => KeyKind::G,
            KeyBinding::H => KeyKind::H,
            KeyBinding::I => KeyKind::I,
            KeyBinding::J => KeyKind::J,
            KeyBinding::K => KeyKind::K,
            KeyBinding::L => KeyKind::L,
            KeyBinding::M => KeyKind::M,
            KeyBinding::N => KeyKind::N,
            KeyBinding::O => KeyKind::O,
            KeyBinding::P => KeyKind::P,
            KeyBinding::Q => KeyKind::Q,
            KeyBinding::R => KeyKind::R,
            KeyBinding::S => KeyKind::S,
            KeyBinding::T => KeyKind::T,
            KeyBinding::U => KeyKind::U,
            KeyBinding::V => KeyKind::V,
            KeyBinding::W => KeyKind::W,
            KeyBinding::X => KeyKind::X,
            KeyBinding::Y => KeyKind::Y,
            KeyBinding::Z => KeyKind::Z,
            KeyBinding::Zero => KeyKind::Zero,
            KeyBinding::One => KeyKind::One,
            KeyBinding::Two => KeyKind::Two,
            KeyBinding::Three => KeyKind::Three,
            KeyBinding::Four => KeyKind::Four,
            KeyBinding::Five => KeyKind::Five,
            KeyBinding::Six => KeyKind::Six,
            KeyBinding::Seven => KeyKind::Seven,
            KeyBinding::Eight => KeyKind::Eight,
            KeyBinding::Nine => KeyKind::Nine,
            KeyBinding::F1 => KeyKind::F1,
            KeyBinding::F2 => KeyKind::F2,
            KeyBinding::F3 => KeyKind::F3,
            KeyBinding::F4 => KeyKind::F4,
            KeyBinding::F5 => KeyKind::F5,
            KeyBinding::F6 => KeyKind::F6,
            KeyBinding::F7 => KeyKind::F7,
            KeyBinding::F8 => KeyKind::F8,
            KeyBinding::F9 => KeyKind::F9,
            KeyBinding::F10 => KeyKind::F10,
            KeyBinding::F11 => KeyKind::F11,
            KeyBinding::F12 => KeyKind::F12,
            KeyBinding::Up => KeyKind::Up,
            KeyBinding::Down => KeyKind::Down,
            KeyBinding::Left => KeyKind::Left,
            KeyBinding::Right => KeyKind::Right,
            KeyBinding::Home => KeyKind::Home,
            KeyBinding::End => KeyKind::End,
            KeyBinding::PageUp => KeyKind::PageUp,
            KeyBinding::PageDown => KeyKind::PageDown,
            KeyBinding::Insert => KeyKind::Insert,
            KeyBinding::Delete => KeyKind::Delete,
            KeyBinding::Enter => KeyKind::Enter,
            KeyBinding::Space => KeyKind::Space,
            KeyBinding::Tilde => KeyKind::Tilde,
            KeyBinding::Quote => KeyKind::Quote,
            KeyBinding::Semicolon => KeyKind::Semicolon,
            KeyBinding::Comma => KeyKind::Comma,
            KeyBinding::Period => KeyKind::Period,
            KeyBinding::Slash => KeyKind::Slash,
            KeyBinding::Esc => KeyKind::Esc,
            KeyBinding::Shift => KeyKind::Shift,
            KeyBinding::Ctrl => KeyKind::Ctrl,
            KeyBinding::Alt => KeyKind::Alt,
        }
    }
}

impl Default for KeyBinding {
    fn default() -> (key: Self)
        ensures
            key == KeyBinding::A,
    {
        KeyBinding::A
    }
}

impl Default for KeyKind {
    fn default() -> (key: Self)
        ensures
            key == KeyKind::A,
    {
        KeyKind::A
    }
}

/// A key binding that the user can switch off.
#[derive(Clone, Copy, Debug, PartialEq, Eq, Structural)]
pub struct KeyBindingConfiguration {
    pub key: KeyBinding,
    pub enabled: bool,
}

impl Default for KeyBindingConfiguration {
    fn default() -> (c: Self)
        ensures
            c.key == KeyBinding::A,
            !c.enabled,
    {
        KeyBindingConfiguration { key: KeyBinding::A, enabled: false }
    }
}

/// A second key pressed together with an action's key, and when.
#[derive(Clone, Copy, Debug, PartialEq, Eq, Structural)]
pub enum LinkKeyBinding {
    Unlinked,
    Before(KeyBinding),
    AtTheSame(KeyBinding),
    After(KeyBinding),
    Along(KeyBinding),
}

impl Default for LinkKeyBinding {
    fn default() -> (l: Self)
        ensures
            l == LinkKeyBinding::Unlinked,
    {
        LinkKeyBinding::Unlinked
    }
}

/// [`LinkKeyBinding`] in terms of input keys.
#[derive(Clone, Copy, Debug, PartialEq, Eq, Structural)]
pub enum LinkKeyKind {
    Unlinked,
    Before(KeyKind),
    AtTheSame(KeyKind),
    After(KeyKind),
    Along(KeyKind),
}

pub open spec fn link_key_kind_of(link: LinkKeyBinding) -> LinkKeyKind {
    match link {
        LinkKeyBinding::Unlinked => LinkKeyKind::Unlinked,
        LinkKeyBinding::Before(k) => LinkKeyKind::Before(key_kind_of(k)),
        LinkKeyBinding::AtTheSame(k) => LinkKeyKind::AtTheSame(key_kind_of(k)),
        LinkKeyBinding::After(k) => LinkKeyKind::After(key_kind_of(k)),
        LinkKeyBinding::Along(k) => LinkKeyKind::Along(key_kind_of(k)),
    }
}

impl LinkKeyBinding {
    /// Converts this link key to input keys.
    pub fn to_link_key_kind(self) -> (kind: LinkKeyKind)
        ensures
            kind == link_key_kind_of(self),
    {
        match self {
            LinkKeyBinding::Unlinked => LinkKeyKind::Unlinked,
            LinkKeyBinding::Before(k) => LinkKeyKind::Before(k.to_key_kind()),
            LinkKeyBinding::AtTheSame(k) => LinkKeyKind::AtTheSame(k.to_key_kind()),
            LinkKeyBinding::After(k) => LinkKeyKind::After(k.to_key_kind()),
            LinkKeyBinding::Along(k) => LinkKeyKind::Along(k.to_key_kind()),
        }
    }
}

} // verus!

verus! {

/// The key binding that an input key stands for.
pub open spec fn key_binding_of(key: KeyKind) -> KeyBinding {
    match key {
        KeyKind::A => KeyBinding::A,
        KeyKind::B => KeyBinding::B,
        KeyKind::C => KeyBinding::C,
        KeyKind::D => KeyBinding::D,
        KeyKind::E => KeyBinding::E,
        KeyKind::F => KeyBinding::F,
        KeyKind::G => KeyBinding::G,
        KeyKind::H => KeyBinding::H,
        KeyKind::I => KeyBinding::I,
        KeyKind::J => KeyBinding::J,
        KeyKind::K => KeyBinding::K,
        KeyKind::L => KeyBinding::L,
        KeyKind::M => KeyBinding::M,
        KeyKind::N => KeyBinding::N,
        KeyKind::O => KeyBinding::O,
        KeyKind::P => KeyBinding::P,
        KeyKind::Q => KeyBinding::Q,
        KeyKind::R => KeyBinding::R,
        KeyKind::S => KeyBinding::S,
        KeyKind::T => KeyBinding::T,
        KeyKind::U => KeyBinding::U,
        KeyKind::V => KeyBinding::V,
        KeyKind::W => KeyBinding::W,
        KeyKind::X => KeyBinding::X,
        KeyKind::Y => KeyBinding::Y,
        KeyKind::Z => KeyBinding::Z,
        KeyKind::Zero => KeyBinding::Zero,
        KeyKind::One => KeyBinding::One,
        KeyKind::Two => KeyBinding::Two,
        KeyKind::Three => KeyBinding::Three,
        KeyKind::Four => KeyBinding::Four,
        KeyKind::Five => KeyBinding::Five,
        KeyKind::Six => KeyBinding::Six,
        KeyKind::Seven => KeyBinding::Seven,
        KeyKind::Eight => KeyBinding::Eight,
        KeyKind::Nine => KeyBinding::Nine,
        KeyKind::F1 => KeyBinding::F1,
        KeyKind::F2 => KeyBinding::F2,
        KeyKind::F3 => KeyBinding::F3,
        KeyKind::F4 => KeyBinding::F4,
        KeyKind::F5 => KeyBinding::F5,
        KeyKind::F6 => KeyBinding::F6,
        KeyKind::F7 => KeyBinding::F7,
        KeyKind::F8 => KeyBinding::F8,
        KeyKind::F9 => KeyBinding::F9,
        KeyKind::F10 => KeyBinding::F10,
        KeyKind::F11 => KeyBinding::F11,
        KeyKind::F12 => KeyBinding::F12,
        KeyKind::Up => KeyBinding::Up,
        KeyKind::Down => KeyBinding::Down,
        KeyKind::Left => KeyBinding::Left,
        KeyKind::Right => KeyBinding::Right,
        KeyKind::Home => KeyBinding::Home,
        KeyKind::End => KeyBinding::End,
        KeyKind::PageUp => KeyBinding::PageUp,
        KeyKind::PageDown => KeyBinding::PageDown,
        KeyKind::Insert => KeyBinding::Insert,
        KeyKind::Delete => KeyBinding::Delete,
        KeyKind::Enter => KeyBinding::Enter,
        KeyKind::Space => KeyBinding::Space,
        KeyKind::Tilde => KeyBinding::Tilde,
        KeyKind::Quote => KeyBinding::Quote,
        KeyKind::Semicolon => KeyBinding::Semicolon,
        KeyKind::Comma => KeyBinding::Comma,
        KeyKind::Period => KeyBinding::Period,
        KeyKind::Slash => KeyBinding::Slash,
        KeyKind::Esc => KeyBinding::Esc,
        KeyKind::Shift => KeyBinding::Shift,
        KeyKind::Ctrl => KeyBinding::Ctrl,
        KeyKind::Alt => KeyBinding::Alt,
    }
}

impl KeyKind {
    /// Converts this input key to a key binding.
    pub fn to_key_binding(self) -> (key: KeyBinding)
        ensures
            key == key_binding_of(self),
    {
        match self {
            KeyKind::A => KeyBinding::A,
            KeyKind::B => KeyBinding::B,
            KeyKind::C => KeyBinding::C,
            KeyKind::D => KeyBinding::D,
            KeyKind::E => KeyBinding::E,
            KeyKind::F => KeyBinding::F,
            KeyKind::G => KeyBinding::G,
            KeyKind::H => KeyBinding::H,
            KeyKind::I => KeyBinding::I,
            KeyKind::J => KeyBinding::J,
            KeyKind::K => KeyBinding::K,
            KeyKind::L => KeyBinding::L,
            KeyKind::M => KeyBinding::M,
            KeyKind::N => KeyBinding::N,
            KeyKind::O => KeyBinding::O,
            KeyKind::P => KeyBinding::P,
            KeyKind::Q => KeyBinding::Q,
            KeyKind::R => KeyBinding::R,
            KeyKind::S => KeyBinding::S,
            KeyKind::T => KeyBinding::T,
            KeyKind::U => KeyBinding::U,
            KeyKind::V => KeyBinding::V,
            KeyKind::W => KeyBinding::W,
            KeyKind::X => KeyBinding::X,
            KeyKind::Y => KeyBinding::Y,
            KeyKind::Z => KeyBinding::Z,
            KeyKind::Zero => KeyBinding::Zero,
            KeyKind::One => KeyBinding::One,
            KeyKind::Two => KeyBinding::Two,
            KeyKind::Three => KeyBinding::Three,
            KeyKind::Four => KeyBinding::Four,
            KeyKind::Five => KeyBinding::Five,
            KeyKind::Six => KeyBinding::Six,
            KeyKind::Seven => KeyBinding::Seven,
            KeyKind::Eight => KeyBinding::Eight,
            KeyKind::Nine => KeyBinding::Nine,
            KeyKind::F1 => KeyBinding::F1,
            KeyKind::F2 => KeyBinding::F2,
            KeyKind::F3 => KeyBinding::F3,
            KeyKind::F4 => KeyBinding::F4,
            KeyKind::F5 => KeyBinding::F5,
            KeyKind::F6 => KeyBinding::F6,
            KeyKind::F7 => KeyBinding::F7,
            KeyKind::F8 => KeyBinding::F8,
            KeyKind::F9 => KeyBinding::F9,
            KeyKind::F10 => KeyBinding::F10,
            KeyKind::F11 => KeyBinding::F11,
            KeyKind::F12 => KeyBinding::F12,
            KeyKind::Up => KeyBinding::Up,
            KeyKind::Down => KeyBinding::Down,
            KeyKind::Left => KeyBinding::Left,
            KeyKind::Right => KeyBinding::Right,
            KeyKind::Home => KeyBinding::Home,
            KeyKind::End => KeyBinding::End,
            KeyKind::PageUp => KeyBinding::PageUp,
            KeyKind::PageDown => KeyBinding::PageDown,
            KeyKind::Insert => KeyBinding::Insert,
            KeyKind::Delete => KeyBinding::Delete,
            KeyKind::Enter => KeyBinding::Enter,
            KeyKind::Space => KeyBinding::Space,
            KeyKind::Tilde => KeyBinding::Tilde,
            KeyKind::Quote => KeyBinding::Quote,
            KeyKind::Semicolon => KeyBinding::Semicolon,
            KeyKind::Comma => KeyBinding::Comma,
            KeyKind::Period => KeyBinding::Period,
            KeyKind::Slash => KeyBinding::Slash,
            KeyKind::Esc => KeyBinding::Esc,
            KeyKind::Shift => KeyBinding::Shift,
            KeyKind::Ctrl => KeyBinding::Ctrl,
            KeyKind::Alt => KeyBinding::Alt,
        }
    }
}

/// Converting a binding to an input key and back gives the binding again.
pub proof fn key_round_trip(key: KeyBinding)
    ensures
        key_binding_of(key_kind_of(key)) == key,
{
}

/// Converting an input key to a binding and back gives the input key again.
pub proof fn key_kind_round_trip(key: KeyKind)
    ensures
        key_kind_of(key_binding_of(key)) == key,
{
}

} // verus!

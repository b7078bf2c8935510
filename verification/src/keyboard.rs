//! The keyboard side of typing: which key types each character, the keys of
//! actions and modifiers, and the exact sequence of key events that types a
//! patch or performs actions, for the Linux virtual keyboard and for macOS.
use vstd::prelude::*;
use crate::error::{invalid_state, is_invalid_state, WisprError};
use crate::models::{
    ActionCommand, ActionKey, ActionView, action_views, copy_modifiers, ModifierKey,
};
use crate::text::{chars_of, concat2};
use crate::typing::TextPatch;

verus! {

/// A key of the virtual keyboard.
#[derive(Clone, Copy, Debug, PartialEq, Eq, Hash, Structural)]
pub enum PhysicalKey {
    A,
    B,
    C,
    D,
    E,
    F,
    G,
    H,
    I,
    J,
    K,
    L,
    M,
    N,
    O,
    P,
    Q,
    R,
    S,
    T,
    U,
    V,
    W,
    X,
    Y,
    Z,
    Digit1,
    Digit2,
    Digit3,
    Digit4,
    Digit5,
    Digit6,
    Digit7,
    Digit8,
    Digit9,
    Digit0,
    Space,
    F1,
    F2,
    F3,
    F4,
    F5,
    F6,
    F7,
    F8,
    F9,
    F10,
    F11,
    F12,
    Dot,
    Comma,
    Apostrophe,
    Slash,
    Minus,
    Equal,
    Semicolon,
    Backspace,
    Enter,
    Tab,
    Esc,
    Delete,
    Insert,
    Left,
    Right,
    Up,
    Down,
    Home,
    End,
    PageUp,
    PageDown,
    LeftShift,
    LeftCtrl,
    LeftAlt,
    LeftMeta,
}

/// The keys the virtual keyboard declares, in the order it declares them.
pub open spec fn supported_keys_spec() -> Seq<PhysicalKey> {
    seq![
        PhysicalKey::A,
        PhysicalKey::B,
        PhysicalKey::C,
        PhysicalKey::D,
        PhysicalKey::E,
        PhysicalKey::F,
        PhysicalKey::G,
        PhysicalKey::H,
        PhysicalKey::I,
        PhysicalKey::J,
        PhysicalKey::K,
        PhysicalKey::L,
        PhysicalKey::M,
        PhysicalKey::N,
        PhysicalKey::O,
        PhysicalKey::P,
        PhysicalKey::Q,
        PhysicalKey::R,
        PhysicalKey::S,
        PhysicalKey::T,
        PhysicalKey::U,
        PhysicalKey::V,
        PhysicalKey::W,
        PhysicalKey::X,
        PhysicalKey::Y,
        PhysicalKey::Z,
        PhysicalKey::Digit1,
        PhysicalKey::Digit2,
        PhysicalKey::Digit3,
        PhysicalKey::Digit4,
        PhysicalKey::Digit5,
        PhysicalKey::Digit6,
        PhysicalKey::Digit7,
        PhysicalKey::Digit8,
        PhysicalKey::Digit9,
        PhysicalKey::Digit0,
        PhysicalKey::Space,
        PhysicalKey::F1,
        PhysicalKey::F2,
        PhysicalKey::F3,
        PhysicalKey::F4,
        PhysicalKey::F5,
        PhysicalKey::F6,
        PhysicalKey::F7,
        PhysicalKey::F8,
        PhysicalKey::F9,
        PhysicalKey::F10,
        PhysicalKey::F11,
        PhysicalKey::F12,
        PhysicalKey::Dot,
        PhysicalKey::Comma,
        PhysicalKey::Apostrophe,
        PhysicalKey::Slash,
        PhysicalKey::Minus,
        PhysicalKey::Equal,
        PhysicalKey::Semicolon,
        PhysicalKey::Backspace,
        PhysicalKey::Enter,
        PhysicalKey::Tab,
        PhysicalKey::Esc,
        PhysicalKey::Delete,
        PhysicalKey::Insert,
        PhysicalKey::Left,
        PhysicalKey::Right,
        PhysicalKey::Up,
        PhysicalKey::Down,
        PhysicalKey::Home,
        PhysicalKey::End,
        PhysicalKey::PageUp,
        PhysicalKey::PageDown,
        PhysicalKey::LeftShift,
        PhysicalKey::LeftCtrl,
        PhysicalKey::LeftAlt,
        PhysicalKey::LeftMeta,
    ]
}

/// The keys the virtual keyboard declares.
pub fn supported_keys() -> (r: Vec<PhysicalKey>)
    ensures
        r@ == supported_keys_spec(),
{
    let r = vec![
        PhysicalKey::A,
        PhysicalKey::B,
        PhysicalKey::C,
        PhysicalKey::D,
        PhysicalKey::E,
        PhysicalKey::F,
        PhysicalKey::G,
        PhysicalKey::H,
        PhysicalKey::I,
        PhysicalKey::J,
        PhysicalKey::K,
        PhysicalKey::L,
        PhysicalKey::M,
        PhysicalKey::N,
        PhysicalKey::O,
        PhysicalKey::P,
        PhysicalKey::Q,
        PhysicalKey::R,
        PhysicalKey::S,
        PhysicalKey::T,
        PhysicalKey::U,
        PhysicalKey::V,
        PhysicalKey::W,
        PhysicalKey::X,
        PhysicalKey::Y,
        PhysicalKey::Z,
        PhysicalKey::Digit1,
        PhysicalKey::Digit2,
        PhysicalKey::Digit3,
        PhysicalKey::Digit4,
        PhysicalKey::Digit5,
        PhysicalKey::Digit6,
        PhysicalKey::Digit7,
        PhysicalKey::Digit8,
        PhysicalKey::Digit9,
        PhysicalKey::Digit0,
        PhysicalKey::Space,
        PhysicalKey::F1,
        PhysicalKey::F2,
        PhysicalKey::F3,
        PhysicalKey::F4,
        PhysicalKey::F5,
        PhysicalKey::F6,
        PhysicalKey::F7,
        PhysicalKey::F8,
        PhysicalKey::F9,
        PhysicalKey::F10,
        PhysicalKey::F11,
        PhysicalKey::F12,
        PhysicalKey::Dot,
        PhysicalKey::Comma,
        PhysicalKey::Apostrophe,
        PhysicalKey::Slash,
        PhysicalKey::Minus,
        PhysicalKey::Equal,
        PhysicalKey::Semicolon,
        PhysicalKey::Backspace,
        PhysicalKey::Enter,
        PhysicalKey::Tab,
        PhysicalKey::Esc,
        PhysicalKey::Delete,
        PhysicalKey::Insert,
        PhysicalKey::Left,
        PhysicalKey::Right,
        PhysicalKey::Up,
        PhysicalKey::Down,
        PhysicalKey::Home,
        PhysicalKey::End,
        PhysicalKey::PageUp,
        PhysicalKey::PageDown,
        PhysicalKey::LeftShift,
        PhysicalKey::LeftCtrl,
        PhysicalKey::LeftAlt,
        PhysicalKey::LeftMeta,
    ];
    assert(r@ =~= supported_keys_spec());
    r
}

/// The key that an action key presses.
pub open spec fn action_physical_key(key: ActionKey) -> PhysicalKey {
    match key {
        ActionKey::Space => PhysicalKey::Space,
        ActionKey::Enter => PhysicalKey::Enter,
        ActionKey::Tab => PhysicalKey::Tab,
        ActionKey::Escape => PhysicalKey::Esc,
        ActionKey::Backspace => PhysicalKey::Backspace,
        ActionKey::Delete => PhysicalKey::Delete,
        ActionKey::Insert => PhysicalKey::Insert,
        ActionKey::Left => PhysicalKey::Left,
        ActionKey::Right => PhysicalKey::Right,
        ActionKey::Up => PhysicalKey::Up,
        ActionKey::Down => PhysicalKey::Down,
        ActionKey::Home => PhysicalKey::Home,
        ActionKey::End => PhysicalKey::End,
        ActionKey::PageUp => PhysicalKey::PageUp,
        ActionKey::PageDown => PhysicalKey::PageDown,
        ActionKey::A => PhysicalKey::A,
        ActionKey::B => PhysicalKey::B,
        ActionKey::C => PhysicalKey::C,
        ActionKey::D => PhysicalKey::D,
        ActionKey::E => PhysicalKey::E,
        ActionKey::F => PhysicalKey::F,
        ActionKey::G => PhysicalKey::G,
        ActionKey::H => PhysicalKey::H,
        ActionKey::I => PhysicalKey::I,
        ActionKey::J => PhysicalKey::J,
        ActionKey::K => PhysicalKey::K,
        ActionKey::L => PhysicalKey::L,
        ActionKey::M => PhysicalKey::M,
        ActionKey::N => PhysicalKey::N,
        ActionKey::O => PhysicalKey::O,
        ActionKey::P => PhysicalKey::P,
        ActionKey::Q => PhysicalKey::Q,
        ActionKey::R => PhysicalKey::R,
        ActionKey::S => PhysicalKey::S,
        ActionKey::T => PhysicalKey::T,
        ActionKey::U => PhysicalKey::U,
        ActionKey::V => PhysicalKey::V,
        ActionKey::W => PhysicalKey::W,
        ActionKey::X => PhysicalKey::X,
        ActionKey::Y => PhysicalKey::Y,
        ActionKey::Z => PhysicalKey::Z,
        ActionKey::Digit0 => PhysicalKey::Digit0,
        ActionKey::Digit1 => PhysicalKey::Digit1,
        ActionKey::Digit2 => PhysicalKey::Digit2,
        ActionKey::Digit3 => PhysicalKey::Digit3,
        ActionKey::Digit4 => PhysicalKey::Digit4,
        ActionKey::Digit5 => PhysicalKey::Digit5,
        ActionKey::Digit6 => PhysicalKey::Digit6,
        ActionKey::Digit7 => PhysicalKey::Digit7,
        ActionKey::Digit8 => PhysicalKey::Digit8,
        ActionKey::Digit9 => PhysicalKey::Digit9,
        ActionKey::F1 => PhysicalKey::F1,
        ActionKey::F2 => PhysicalKey::F2,
        ActionKey::F3 => PhysicalKey::F3,
        ActionKey::F4 => PhysicalKey::F4,
        ActionKey::F5 => PhysicalKey::F5,
        ActionKey::F6 => PhysicalKey::F6,
        ActionKey::F7 => PhysicalKey::F7,
        ActionKey::F8 => PhysicalKey::F8,
        ActionKey::F9 => PhysicalKey::F9,
        ActionKey::F10 => PhysicalKey::F10,
        ActionKey::F11 => PhysicalKey::F11,
        ActionKey::F12 => PhysicalKey::F12,
    }
}

/// The key that an action key presses.
pub fn map_action_key(key: ActionKey) -> (r: PhysicalKey)
    ensures
        r == action_physical_key(key),
{
    match key {
        ActionKey::Space => PhysicalKey::Space,
        ActionKey::Enter => PhysicalKey::Enter,
        ActionKey::Tab => PhysicalKey::Tab,
        ActionKey::Escape => PhysicalKey::Esc,
        ActionKey::Backspace => PhysicalKey::Backspace,
        ActionKey::Delete => PhysicalKey::Delete,
        ActionKey::Insert => PhysicalKey::Insert,
        ActionKey::Left => PhysicalKey::Left,
        ActionKey::Right => PhysicalKey::Right,
        ActionKey::Up => PhysicalKey::Up,
        ActionKey::Down => PhysicalKey::Down,
        ActionKey::Home => PhysicalKey::Home,
        ActionKey::End => PhysicalKey::End,
        ActionKey::PageUp => PhysicalKey::PageUp,
        ActionKey::PageDown => PhysicalKey::PageDown,
        ActionKey::A => PhysicalKey::A,
        ActionKey::B => PhysicalKey::B,
        ActionKey::C => PhysicalKey::C,
        ActionKey::D => PhysicalKey::D,
        ActionKey::E => PhysicalKey::E,
        ActionKey::F => PhysicalKey::F,
        ActionKey::G => PhysicalKey::G,
        ActionKey::H => PhysicalKey::H,
        ActionKey::I => PhysicalKey::I,
        ActionKey::J => PhysicalKey::J,
        ActionKey::K => PhysicalKey::K,
        ActionKey::L => PhysicalKey::L,
        ActionKey::M => PhysicalKey::M,
        ActionKey::N => PhysicalKey::N,
        ActionKey::O => PhysicalKey::O,
        ActionKey::P => PhysicalKey::P,
        ActionKey::Q => PhysicalKey::Q,
        ActionKey::R => PhysicalKey::R,
        ActionKey::S => PhysicalKey::S,
        ActionKey::T => PhysicalKey::T,
        ActionKey::U => PhysicalKey::U,
        ActionKey::V => PhysicalKey::V,
        ActionKey::W => PhysicalKey::W,
        ActionKey::X => PhysicalKey::X,
        ActionKey::Y => PhysicalKey::Y,
        ActionKey::Z => PhysicalKey::Z,
        ActionKey::Digit0 => PhysicalKey::Digit0,
        ActionKey::Digit1 => PhysicalKey::Digit1,
        ActionKey::Digit2 => PhysicalKey::Digit2,
        ActionKey::Digit3 => PhysicalKey::Digit3,
        ActionKey::Digit4 => PhysicalKey::Digit4,
        ActionKey::Digit5 => PhysicalKey::Digit5,
        ActionKey::Digit6 => PhysicalKey::Digit6,
        ActionKey::Digit7 => PhysicalKey::Digit7,
        ActionKey::Digit8 => PhysicalKey::Digit8,
        ActionKey::Digit9 => PhysicalKey::Digit9,
        ActionKey::F1 => PhysicalKey::F1,
        ActionKey::F2 => PhysicalKey::F2,
        ActionKey::F3 => PhysicalKey::F3,
        ActionKey::F4 => PhysicalKey::F4,
        ActionKey::F5 => PhysicalKey::F5,
        ActionKey::F6 => PhysicalKey::F6,
        ActionKey::F7 => PhysicalKey::F7,
        ActionKey::F8 => PhysicalKey::F8,
        ActionKey::F9 => PhysicalKey::F9,
        ActionKey::F10 => PhysicalKey::F10,
        ActionKey::F11 => PhysicalKey::F11,
        ActionKey::F12 => PhysicalKey::F12,
    }
}

/// The macOS virtual key code of an action key.
pub open spec fn mac_keycode_spec(key: ActionKey) -> u16 {
    match key {
        ActionKey::Space => 49,
        ActionKey::Enter => 36,
        ActionKey::Tab => 48,
        ActionKey::Escape => 53,
        ActionKey::Backspace => 51,
        ActionKey::Delete => 117,
        ActionKey::Insert => 114,
        ActionKey::Left => 123,
        ActionKey::Right => 124,
        ActionKey::Up => 126,
        ActionKey::Down => 125,
        ActionKey::Home => 115,
        ActionKey::End => 119,
        ActionKey::PageUp => 116,
        ActionKey::PageDown => 121,
        ActionKey::A => 0,
        ActionKey::B => 11,
        ActionKey::C => 8,
        ActionKey::D => 2,
        ActionKey::E => 14,
        ActionKey::F => 3,
        ActionKey::G => 5,
        ActionKey::H => 4,
        ActionKey::I => 34,
        ActionKey::J => 38,
        ActionKey::K => 40,
        ActionKey::L => 37,
        ActionKey::M => 46,
        ActionKey::N => 45,
        ActionKey::O => 31,
        ActionKey::P => 35,
        ActionKey::Q => 12,
        ActionKey::R => 15,
        ActionKey::S => 1,
        ActionKey::T => 17,
        ActionKey::U => 32,
        ActionKey::V => 9,
        ActionKey::W => 13,
        ActionKey::X => 7,
        ActionKey::Y => 16,
        ActionKey::Z => 6,
        ActionKey::Digit0 => 29,
        ActionKey::Digit1 => 18,
        ActionKey::Digit2 => 19,
        ActionKey::Digit3 => 20,
        ActionKey::Digit4 => 21,
        ActionKey::Digit5 => 23,
        ActionKey::Digit6 => 22,
        ActionKey::Digit7 => 26,
        ActionKey::Digit8 => 28,
        ActionKey::Digit9 => 25,
        ActionKey::F1 => 122,
        ActionKey::F2 => 120,
        ActionKey::F3 => 99,
        ActionKey::F4 => 118,
        ActionKey::F5 => 96,
        ActionKey::F6 => 97,
        ActionKey::F7 => 98,
        ActionKey::F8 => 100,
        ActionKey::F9 => 101,
        ActionKey::F10 => 109,
        ActionKey::F11 => 103,
        ActionKey::F12 => 111,
    }
}

/// The macOS virtual key code of an action key.
pub fn map_action_keycode(key: ActionKey) -> (r: u16)
    ensures
        r == mac_keycode_spec(key),
{
    match key {
        ActionKey::Space => 49,
        ActionKey::Enter => 36,
        ActionKey::Tab => 48,
        ActionKey::Escape => 53,
        ActionKey::Backspace => 51,
        ActionKey::Delete => 117,
        ActionKey::Insert => 114,
        ActionKey::Left => 123,
        ActionKey::Right => 124,
        ActionKey::Up => 126,
        ActionKey::Down => 125,
        ActionKey::Home => 115,
        ActionKey::End => 119,
        ActionKey::PageUp => 116,
        ActionKey::PageDown => 121,
        ActionKey::A => 0,
        ActionKey::B => 11,
        ActionKey::C => 8,
        ActionKey::D => 2,
        ActionKey::E => 14,
        ActionKey::F => 3,
        ActionKey::G => 5,
        ActionKey::H => 4,
        ActionKey::I => 34,
        ActionKey::J => 38,
        ActionKey::K => 40,
        ActionKey::L => 37,
        ActionKey::M => 46,
        ActionKey::N => 45,
        ActionKey::O => 31,
        ActionKey::P => 35,
        ActionKey::Q => 12,
        ActionKey::R => 15,
        ActionKey::S => 1,
        ActionKey::T => 17,
        ActionKey::U => 32,
        ActionKey::V => 9,
        ActionKey::W => 13,
        ActionKey::X => 7,
        ActionKey::Y => 16,
        ActionKey::Z => 6,
        ActionKey::Digit0 => 29,
        ActionKey::Digit1 => 18,
        ActionKey::Digit2 => 19,
        ActionKey::Digit3 => 20,
        ActionKey::Digit4 => 21,
        ActionKey::Digit5 => 23,
        ActionKey::Digit6 => 22,
        ActionKey::Digit7 => 26,
        ActionKey::Digit8 => 28,
        ActionKey::Digit9 => 25,
        ActionKey::F1 => 122,
        ActionKey::F2 => 120,
        ActionKey::F3 => 99,
        ActionKey::F4 => 118,
        ActionKey::F5 => 96,
        ActionKey::F6 => 97,
        ActionKey::F7 => 98,
        ActionKey::F8 => 100,
        ActionKey::F9 => 101,
        ActionKey::F10 => 109,
        ActionKey::F11 => 103,
        ActionKey::F12 => 111,
    }
}

/// The key, and whether Shift is held, that types a character on the
/// virtual keyboard; `None` for a character it cannot type.
pub open spec fn keymap(c: char) -> Option<(PhysicalKey, bool)> {
    match c {
        'a' => Some((PhysicalKey::A, false)),
        'A' => Some((PhysicalKey::A, true)),
        'b' => Some((PhysicalKey::B, false)),
        'B' => Some((PhysicalKey::B, true)),
        'c' => Some((PhysicalKey::C, false)),
        'C' => Some((PhysicalKey::C, true)),
        'd' => Some((PhysicalKey::D, false)),
        'D' => Some((PhysicalKey::D, true)),
        'e' => Some((PhysicalKey::E, false)),
        'E' => Some((PhysicalKey::E, true)),
        'f' => Some((PhysicalKey::F, false)),
        'F' => Some((PhysicalKey::F, true)),
        'g' => Some((PhysicalKey::G, false)),
        'G' => Some((PhysicalKey::G, true)),
        'h' => Some((PhysicalKey::H, false)),
        'H' => Some((PhysicalKey::H, true)),
        'i' => Some((PhysicalKey::I, false)),
        'I' => Some((PhysicalKey::I, true)),
        'j' => Some((PhysicalKey::J, false)),
        'J' => Some((PhysicalKey::J, true)),
        'k' => Some((PhysicalKey::K, false)),
        'K' => Some((PhysicalKey::K, true)),
        'l' => Some((PhysicalKey::L, false)),
        'L' => Some((PhysicalKey::L, true)),
        'm' => Some((PhysicalKey::M, false)),
        'M' => Some((PhysicalKey::M, true)),
        'n' => Some((PhysicalKey::N, false)),
        'N' => Some((PhysicalKey::N, true)),
        'o' => Some((PhysicalKey::O, false)),
        'O' => Some((PhysicalKey::O, true)),
        'p' => Some((PhysicalKey::P, false)),
        'P' => Some((PhysicalKey::P, true)),
        'q' => Some((PhysicalKey::Q, false)),
        'Q' => Some((PhysicalKey::Q, true)),
        'r' => Some((PhysicalKey::R, false)),
        'R' => Some((PhysicalKey::R, true)),
        's' => Some((PhysicalKey::S, false)),
        'S' => Some((PhysicalKey::S, true)),
        't' => Some((PhysicalKey::T, false)),
        'T' => Some((PhysicalKey::T, true)),
        'u' => Some((PhysicalKey::U, false)),
        'U' => Some((PhysicalKey::U, true)),
        'v' => Some((PhysicalKey::V, false)),
        'V' => Some((PhysicalKey::V, true)),
        'w' => Some((PhysicalKey::W, false)),
        'W' => Some((PhysicalKey::W, true)),
        'x' => Some((PhysicalKey::X, false)),
        'X' => Some((PhysicalKey::X, true)),
        'y' => Some((PhysicalKey::Y, false)),
        'Y' => Some((PhysicalKey::Y, true)),
        'z' => Some((PhysicalKey::Z, false)),
        'Z' => Some((PhysicalKey::Z, true)),
        '1' => Some((PhysicalKey::Digit1, false)),
        '2' => Some((PhysicalKey::Digit2, false)),
        '3' => Some((PhysicalKey::Digit3, false)),
        '4' => Some((PhysicalKey::Digit4, false)),
        '5' => Some((PhysicalKey::Digit5, false)),
        '6' => Some((PhysicalKey::Digit6, false)),
        '7' => Some((PhysicalKey::Digit7, false)),
        '8' => Some((PhysicalKey::Digit8, false)),
        '9' => Some((PhysicalKey::Digit9, false)),
        '0' => Some((PhysicalKey::Digit0, false)),
        ' ' => Some((PhysicalKey::Space, false)),
        '.' => Some((PhysicalKey::Dot, false)),
        ',' => Some((PhysicalKey::Comma, false)),
        '\'' => Some((PhysicalKey::Apostrophe, false)),
        '/' => Some((PhysicalKey::Slash, false)),
        '-' => Some((PhysicalKey::Minus, false)),
        '=' => Some((PhysicalKey::Equal, false)),
        ';' => Some((PhysicalKey::Semicolon, false)),
        '\n' => Some((PhysicalKey::Enter, false)),
        '\r' => Some((PhysicalKey::Enter, false)),
        '\t' => Some((PhysicalKey::Tab, false)),
        '!' => Some((PhysicalKey::Digit1, true)),
        '@' => Some((PhysicalKey::Digit2, true)),
        '#' => Some((PhysicalKey::Digit3, true)),
        '$' => Some((PhysicalKey::Digit4, true)),
        '%' => Some((PhysicalKey::Digit5, true)),
        '^' => Some((PhysicalKey::Digit6, true)),
        '&' => Some((PhysicalKey::Digit7, true)),
        '*' => Some((PhysicalKey::Digit8, true)),
        '(' => Some((PhysicalKey::Digit9, true)),
        ')' => Some((PhysicalKey::Digit0, true)),
        '?' => Some((PhysicalKey::Slash, true)),
        '_' => Some((PhysicalKey::Minus, true)),
        '+' => Some((PhysicalKey::Equal, true)),
        ':' => Some((PhysicalKey::Semicolon, true)),
        '"' => Some((PhysicalKey::Apostrophe, true)),
        _ => None,
    }
}

/// The character a key types on a US keyboard layout, with or without
/// Shift; `None` for a key that types no character.
pub open spec fn us_layout_char(k: PhysicalKey, shift: bool) -> Option<char> {
    match k {
        PhysicalKey::A => Some(if shift { 'A' } else { 'a' }),
        PhysicalKey::B => Some(if shift { 'B' } else { 'b' }),
        PhysicalKey::C => Some(if shift { 'C' } else { 'c' }),
        PhysicalKey::D => Some(if shift { 'D' } else { 'd' }),
        PhysicalKey::E => Some(if shift { 'E' } else { 'e' }),
        PhysicalKey::F => Some(if shift { 'F' } else { 'f' }),
        PhysicalKey::G => Some(if shift { 'G' } else { 'g' }),
        PhysicalKey::H => Some(if shift { 'H' } else { 'h' }),
        PhysicalKey::I => Some(if shift { 'I' } else { 'i' }),
        PhysicalKey::J => Some(if shift { 'J' } else { 'j' }),
        PhysicalKey::K => Some(if shift { 'K' } else { 'k' }),
        PhysicalKey::L => Some(if shift { 'L' } else { 'l' }),
        PhysicalKey::M => Some(if shift { 'M' } else { 'm' }),
        PhysicalKey::N => Some(if shift { 'N' } else { 'n' }),
        PhysicalKey::O => Some(if shift { 'O' } else { 'o' }),
        PhysicalKey::P => Some(if shift { 'P' } else { 'p' }),
        PhysicalKey::Q => Some(if shift { 'Q' } else { 'q' }),
        PhysicalKey::R => Some(if shift { 'R' } else { 'r' }),
        PhysicalKey::S => Some(if shift { 'S' } else { 's' }),
        PhysicalKey::T => Some(if shift { 'T' } else { 't' }),
        PhysicalKey::U => Some(if shift { 'U' } else { 'u' }),
        PhysicalKey::V => Some(if shift { 'V' } else { 'v' }),
        PhysicalKey::W => Some(if shift { 'W' } else { 'w' }),
        PhysicalKey::X => Some(if shift { 'X' } else { 'x' }),
        PhysicalKey::Y => Some(if shift { 'Y' } else { 'y' }),
        PhysicalKey::Z => Some(if shift { 'Z' } else { 'z' }),
        PhysicalKey::Digit1 => Some(if shift { '!' } else { '1' }),
        PhysicalKey::Digit2 => Some(if shift { '@' } else { '2' }),
        PhysicalKey::Digit3 => Some(if shift { '#' } else { '3' }),
        PhysicalKey::Digit4 => Some(if shift { '$' } else { '4' }),
        PhysicalKey::Digit5 => Some(if shift { '%' } else { '5' }),
        PhysicalKey::Digit6 => Some(if shift { '^' } else { '6' }),
        PhysicalKey::Digit7 => Some(if shift { '&' } else { '7' }),
        PhysicalKey::Digit8 => Some(if shift { '*' } else { '8' }),
        PhysicalKey::Digit9 => Some(if shift { '(' } else { '9' }),
        PhysicalKey::Digit0 => Some(if shift { ')' } else { '0' }),
        PhysicalKey::Space => Some(' '),
        PhysicalKey::Dot => Some(if shift { '>' } else { '.' }),
        PhysicalKey::Comma => Some(if shift { '<' } else { ',' }),
        PhysicalKey::Apostrophe => Some(if shift { '"' } else { '\'' }),
        PhysicalKey::Slash => Some(if shift { '?' } else { '/' }),
        PhysicalKey::Minus => Some(if shift { '_' } else { '-' }),
        PhysicalKey::Equal => Some(if shift { '+' } else { '=' }),
        PhysicalKey::Semicolon => Some(if shift { ':' } else { ';' }),
        PhysicalKey::Enter => Some('\n'),
        PhysicalKey::Tab => Some('\t'),
        _ => None,
    }
}

/// The keystroke chosen for a character types that character on a US
/// layout; a carriage return is typed as Enter, like a line feed. So no
/// two characters share a keystroke, but for those two line breaks.
pub proof fn law_keystroke_types_its_char(c: char, d: char)
    ensures
        match keymap(c) {
            Some((k, shift)) => us_layout_char(k, shift) == Some(c) || (c == '\r' && k == PhysicalKey::Enter
                && !shift),
            None => true,
        },
        keymap(c) is Some && keymap(c) == keymap(d) ==> c == d || (c == '\n' || c == '\r') && (d == '\n'
            || d == '\r'),
{
}

/// The key, and whether Shift is held, that types a character.
pub fn key_for_char(c: char) -> (r: Option<(PhysicalKey, bool)>)
    ensures
        r == keymap(c),
{
    match c {
        'a' => Some((PhysicalKey::A, false)),
        'A' => Some((PhysicalKey::A, true)),
        'b' => Some((PhysicalKey::B, false)),
        'B' => Some((PhysicalKey::B, true)),
        'c' => Some((PhysicalKey::C, false)),
        'C' => Some((PhysicalKey::C, true)),
        'd' => Some((PhysicalKey::D, false)),
        'D' => Some((PhysicalKey::D, true)),
        'e' => Some((PhysicalKey::E, false)),
        'E' => Some((PhysicalKey::E, true)),
        'f' => Some((PhysicalKey::F, false)),
        'F' => Some((PhysicalKey::F, true)),
        'g' => Some((PhysicalKey::G, false)),
        'G' => Some((PhysicalKey::G, true)),
        'h' => Some((PhysicalKey::H, false)),
        'H' => Some((PhysicalKey::H, true)),
        'i' => Some((PhysicalKey::I, false)),
        'I' => Some((PhysicalKey::I, true)),
        'j' => Some((PhysicalKey::J, false)),
        'J' => Some((PhysicalKey::J, true)),
        'k' => Some((PhysicalKey::K, false)),
        'K' => Some((PhysicalKey::K, true)),
        'l' => Some((PhysicalKey::L, false)),
        'L' => Some((PhysicalKey::L, true)),
        'm' => Some((PhysicalKey::M, false)),
        'M' => Some((PhysicalKey::M, true)),
        'n' => Some((PhysicalKey::N, false)),
        'N' => Some((PhysicalKey::N, true)),
        'o' => Some((PhysicalKey::O, false)),
        'O' => Some((PhysicalKey::O, true)),
        'p' => Some((PhysicalKey::P, false)),
        'P' => Some((PhysicalKey::P, true)),
        'q' => Some((PhysicalKey::Q, false)),
        'Q' => Some((PhysicalKey::Q, true)),
        'r' => Some((PhysicalKey::R, false)),
        'R' => Some((PhysicalKey::R, true)),
        's' => Some((PhysicalKey::S, false)),
        'S' => Some((PhysicalKey::S, true)),
        't' => Some((PhysicalKey::T, false)),
        'T' => Some((PhysicalKey::T, true)),
        'u' => Some((PhysicalKey::U, false)),
        'U' => Some((PhysicalKey::U, true)),
        'v' => Some((PhysicalKey::V, false)),
        'V' => Some((PhysicalKey::V, true)),
        'w' => Some((PhysicalKey::W, false)),
        'W' => Some((PhysicalKey::W, true)),
        'x' => Some((PhysicalKey::X, false)),
        'X' => Some((PhysicalKey::X, true)),
        'y' => Some((PhysicalKey::Y, false)),
        'Y' => Some((PhysicalKey::Y, true)),
        'z' => Some((PhysicalKey::Z, false)),
        'Z' => Some((PhysicalKey::Z, true)),
        '1' => Some((PhysicalKey::Digit1, false)),
        '2' => Some((PhysicalKey::Digit2, false)),
        '3' => Some((PhysicalKey::Digit3, false)),
        '4' => Some((PhysicalKey::Digit4, false)),
        '5' => Some((PhysicalKey::Digit5, false)),
        '6' => Some((PhysicalKey::Digit6, false)),
        '7' => Some((PhysicalKey::Digit7, false)),
        '8' => Some((PhysicalKey::Digit8, false)),
        '9' => Some((PhysicalKey::Digit9, false)),
        '0' => Some((PhysicalKey::Digit0, false)),
        ' ' => Some((PhysicalKey::Space, false)),
        '.' => Some((PhysicalKey::Dot, false)),
        ',' => Some((PhysicalKey::Comma, false)),
        '\'' => Some((PhysicalKey::Apostrophe, false)),
        '/' => Some((PhysicalKey::Slash, false)),
        '-' => Some((PhysicalKey::Minus, false)),
        '=' => Some((PhysicalKey::Equal, false)),
        ';' => Some((PhysicalKey::Semicolon, false)),
        '\n' => Some((PhysicalKey::Enter, false)),
        '\r' => Some((PhysicalKey::Enter, false)),
        '\t' => Some((PhysicalKey::Tab, false)),
        '!' => Some((PhysicalKey::Digit1, true)),
        '@' => Some((PhysicalKey::Digit2, true)),
        '#' => Some((PhysicalKey::Digit3, true)),
        '$' => Some((PhysicalKey::Digit4, true)),
        '%' => Some((PhysicalKey::Digit5, true)),
        '^' => Some((PhysicalKey::Digit6, true)),
        '&' => Some((PhysicalKey::Digit7, true)),
        '*' => Some((PhysicalKey::Digit8, true)),
        '(' => Some((PhysicalKey::Digit9, true)),
        ')' => Some((PhysicalKey::Digit0, true)),
        '?' => Some((PhysicalKey::Slash, true)),
        '_' => Some((PhysicalKey::Minus, true)),
        '+' => Some((PhysicalKey::Equal, true)),
        ':' => Some((PhysicalKey::Semicolon, true)),
        '"' => Some((PhysicalKey::Apostrophe, true)),
        _ => None,
    }
}

// ---------------------------------------------------------------------------
// Modifiers
// ---------------------------------------------------------------------------

/// The key that a modifier presses.
pub open spec fn modifier_physical_key(m: ModifierKey) -> PhysicalKey {
    match m {
        ModifierKey::Ctrl => PhysicalKey::LeftCtrl,
        ModifierKey::Shift => PhysicalKey::LeftShift,
        ModifierKey::Alt => PhysicalKey::LeftAlt,
        ModifierKey::Super => PhysicalKey::LeftMeta,
    }
}

/// The key that a modifier presses.
pub fn map_modifier_key(m: ModifierKey) -> (r: PhysicalKey)
    ensures
        r == modifier_physical_key(m),
{
    match m {
        ModifierKey::Ctrl => PhysicalKey::LeftCtrl,
        ModifierKey::Shift => PhysicalKey::LeftShift,
        ModifierKey::Alt => PhysicalKey::LeftAlt,
        ModifierKey::Super => PhysicalKey::LeftMeta,
    }
}

/// `k`, once, when `present`.
pub open spec fn key_if(present: bool, k: PhysicalKey) -> Seq<PhysicalKey> {
    if present {
        seq![k]
    } else {
        Seq::empty()
    }
}

/// The modifier keys an action holds, in the order they are pressed:
/// Ctrl, Shift, Alt, Super, each at most once.
pub open spec fn press_order(mods: Seq<ModifierKey>) -> Seq<PhysicalKey> {
    key_if(mods.contains(ModifierKey::Ctrl), PhysicalKey::LeftCtrl) + key_if(
        mods.contains(ModifierKey::Shift),
        PhysicalKey::LeftShift,
    ) + key_if(mods.contains(ModifierKey::Alt), PhysicalKey::LeftAlt) + key_if(
        mods.contains(ModifierKey::Super),
        PhysicalKey::LeftMeta,
    )
}

/// Whether a modifier list holds `m`.
fn holds_modifier(mods: &Vec<ModifierKey>, m: ModifierKey) -> (r: bool)
    ensures
        r == mods@.contains(m),
{
    let n = mods.len();
    for i in 0..n
        invariant
            n == mods@.len(),
            forall|j: int| 0 <= j < i ==> mods@[j] != m,
    {
        if mods[i] == m {
            assert(mods@[i as int] == m);
            return true;
        }
    }
    false
}

/// The modifier keys an action presses, in order.
pub fn modifier_press_order(mods: &Vec<ModifierKey>) -> (r: Vec<PhysicalKey>)
    ensures
        r@ == press_order(mods@),
{
    let mut r: Vec<PhysicalKey> = Vec::new();
    if holds_modifier(mods, ModifierKey::Ctrl) {
        r.push(PhysicalKey::LeftCtrl);
    }
    if holds_modifier(mods, ModifierKey::Shift) {
        r.push(PhysicalKey::LeftShift);
    }
    if holds_modifier(mods, ModifierKey::Alt) {
        r.push(PhysicalKey::LeftAlt);
    }
    if holds_modifier(mods, ModifierKey::Super) {
        r.push(PhysicalKey::LeftMeta);
    }
    assert(r@ =~= press_order(mods@));
    r
}

/// The modifier keys an action releases, in order: the reverse of the
/// press order.
pub fn modifier_release_order(mods: &Vec<ModifierKey>) -> (r: Vec<PhysicalKey>)
    ensures
        r@ == press_order(mods@).reverse(),
{
    let pressed = modifier_press_order(mods);
    let mut r: Vec<PhysicalKey> = Vec::new();
    let n = pressed.len();
    for i in 0..n
        invariant
            n == pressed@.len(),
            r@ == pressed@.reverse().take(i as int),
    {
        r.push(pressed[n - 1 - i]);
        assert(pressed@.reverse().take(i + 1) =~= pressed@.reverse().take(i as int).push(pressed@[n - 1 - i]));
    }
    assert(pressed@.reverse().take(n as int) =~= pressed@.reverse());
    r
}

// ---------------------------------------------------------------------------
// Key events on the virtual keyboard
// ---------------------------------------------------------------------------

/// One step of typing: a key goes down, a key comes up, or a short pause
/// lets the system catch up.
#[derive(Clone, Copy, Debug, PartialEq, Eq, Structural)]
pub enum KeyEvent {
    Press(PhysicalKey),
    Release(PhysicalKey),
    Pause,
}

/// What was planned, and the error that stopped the plan, if one did; the
/// events before the error are still to be performed.
pub struct KeyPlan {
    pub events: Vec<KeyEvent>,
    pub error: Option<WisprError>,
}

/// One keystroke, with Shift held around it when asked, then a pause.
pub open spec fn tap_events(key: PhysicalKey, shift: bool) -> Seq<KeyEvent> {
    (if shift {
        seq![KeyEvent::Press(PhysicalKey::LeftShift)]
    } else {
        Seq::empty()
    }) + seq![KeyEvent::Press(key), KeyEvent::Release(key)] + (if shift {
        seq![KeyEvent::Release(PhysicalKey::LeftShift)]
    } else {
        Seq::empty()
    }) + seq![KeyEvent::Pause]
}

/// `n` backspace keystrokes.
pub open spec fn backspace_events(n: nat) -> Seq<KeyEvent>
    decreases n,
{
    if n == 0 {
        Seq::empty()
    } else {
        backspace_events((n - 1) as nat) + tap_events(PhysicalKey::Backspace, false)
    }
}

/// The keystrokes that type `t`, up to its first character that cannot be
/// typed, and that character, if any.
pub open spec fn text_events(t: Seq<char>) -> (Seq<KeyEvent>, Option<char>)
    decreases t.len(),
{
    if t.len() == 0 {
        (Seq::empty(), None)
    } else {
        match keymap(t[0]) {
            None => (Seq::empty(), Some(t[0])),
            Some((k, shift)) => {
                let rest = text_events(t.drop_first());
                (tap_events(k, shift) + rest.0, rest.1)
            },
        }
    }
}

/// How `{:?}` shows a character: quoted, with escapes.
pub uninterp spec fn debug_char(c: char) -> Seq<char>;

/// A character as `{:?}` shows it (std `Debug` for `char`); the result is
/// named, not stated.
#[verifier::external_body]
fn char_debug_text(c: char) -> (r: String)
    ensures
        r@ == debug_char(c),
{
    format!("{c:?}")
}

/// Appends one keystroke to a plan.
fn push_tap(events: &mut Vec<KeyEvent>, key: PhysicalKey, shift: bool)
    ensures
        final(events)@ == old(events)@ + tap_events(key, shift),
{
    if shift {
        events.push(KeyEvent::Press(PhysicalKey::LeftShift));
    }
    events.push(KeyEvent::Press(key));
    events.push(KeyEvent::Release(key));
    if shift {
        events.push(KeyEvent::Release(PhysicalKey::LeftShift));
    }
    events.push(KeyEvent::Pause);
    assert(final(events)@ =~= old(events)@ + tap_events(key, shift));
}

/// The key events that apply a patch on the virtual keyboard: backspaces,
/// then the keystrokes of the insertion; a character the keyboard cannot
/// type stops the plan with an error.
pub fn plan_patch(patch: &TextPatch) -> (r: KeyPlan)
    ensures
        r.events@ == backspace_events(patch.backspaces as nat) + text_events(patch.insertion@).0,
        match text_events(patch.insertion@).1 {
            None => r.error is None,
            Some(c) => r.error matches Some(e) && is_invalid_state(e, "unsupported typed character: "@ + debug_char(c)),
        },
{
    let mut events: Vec<KeyEvent> = Vec::new();
    let n = patch.backspaces;
    for i in 0..n
        invariant
            events@ == backspace_events(i as nat),
    {
        push_tap(&mut events, PhysicalKey::Backspace, false);
    }
    let ghost base = events@;
    let text = chars_of(patch.insertion.as_str());
    let m = text.len();
    let ghost whole = text_events(text@);
    assert(text@.skip(0) =~= text@);
    for i in 0..m
        invariant
            m == text@.len(),
            text@ == patch.insertion@,
            n == patch.backspaces,
            whole == text_events(text@),
            base == backspace_events(n as nat),
            events@ + text_events(text@.skip(i as int)).0 == base + whole.0,
            text_events(text@.skip(i as int)).1 == whole.1,
    {
        let ghost tail = text@.skip(i as int);
        assert(tail[0] == text@[i as int]);
        assert(tail.drop_first() =~= text@.skip(i + 1));
        match key_for_char(text[i]) {
            Some((k, shift)) => {
                let ghost before = events@;
                push_tap(&mut events, k, shift);
                assert(events@ + text_events(text@.skip(i + 1)).0 =~= before + (tap_events(k, shift) + text_events(text@.skip(i + 1)).0));
            },
            None => {
                assert(tail.len() > 0);
                assert(keymap(tail[0]) is None);
                assert(text_events(tail) == (Seq::<KeyEvent>::empty(), Some(text@[i as int])));
                assert(events@ + text_events(tail).0 =~= events@);
                let shown = char_debug_text(text[i]);
                return KeyPlan {
                    events,
                    error: Some(invalid_state(concat2("unsupported typed character: ", shown.as_str()).as_str())),
                };
            },
        }
    }
    assert(text@.skip(m as int) =~= Seq::<char>::empty());
    KeyPlan { events, error: None }
}

/// The key events of one round of an action: modifiers pressed in order,
/// the key pressed and released, modifiers released in reverse order, then
/// a pause.
pub open spec fn round_events(key: PhysicalKey, mods: Seq<ModifierKey>) -> Seq<KeyEvent> {
    press_order(mods).map_values(|k: PhysicalKey| KeyEvent::Press(k)) + seq![
        KeyEvent::Press(key),
        KeyEvent::Release(key),
    ] + press_order(mods).reverse().map_values(|k: PhysicalKey| KeyEvent::Release(k)) + seq![KeyEvent::Pause]
}

/// `s` repeated `n` times.
pub open spec fn repeated(s: Seq<KeyEvent>, n: nat) -> Seq<KeyEvent>
    decreases n,
{
    if n == 0 {
        Seq::empty()
    } else {
        repeated(s, (n - 1) as nat) + s
    }
}

/// How many times an action runs: its repeat count, at least once.
pub open spec fn rounds(repeat: u8) -> nat {
    if repeat == 0 {
        1
    } else {
        repeat as nat
    }
}

/// The key events of a list of actions, up to the first action without a
/// key, and whether there is one.
pub open spec fn actions_events(actions: Seq<ActionView>) -> (Seq<KeyEvent>, bool)
    decreases actions.len(),
{
    if actions.len() == 0 {
        (Seq::empty(), false)
    } else {
        match actions[0].key {
            None => (Seq::empty(), true),
            Some(k) => {
                let rest = actions_events(actions.drop_first());
                (
                    repeated(round_events(action_physical_key(k), actions[0].modifiers), rounds(actions[0].repeat))
                        + rest.0,
                    rest.1,
                )
            },
        }
    }
}

/// Appends the events of one round of an action.
fn push_round(events: &mut Vec<KeyEvent>, key: PhysicalKey, mods: &Vec<ModifierKey>)
    ensures
        final(events)@ == old(events)@ + round_events(key, mods@),
{
    let pressed = modifier_press_order(mods);
    let released = modifier_release_order(mods);
    let ghost start = events@;
    let n = pressed.len();
    for i in 0..n
        invariant
            n == pressed@.len(),
            pressed@ == press_order(mods@),
            events@ == start + pressed@.take(i as int).map_values(|k: PhysicalKey| KeyEvent::Press(k)),
    {
        events.push(KeyEvent::Press(pressed[i]));
        assert(pressed@.take(i + 1) =~= pressed@.take(i as int).push(pressed@[i as int]));
        assert(events@ =~= start + pressed@.take(i + 1).map_values(|k: PhysicalKey| KeyEvent::Press(k)));
    }
    assert(pressed@.take(n as int) =~= pressed@);
    events.push(KeyEvent::Press(key));
    events.push(KeyEvent::Release(key));
    let ghost mid = events@;
    let m = released.len();
    for i in 0..m
        invariant
            m == released@.len(),
            released@ == press_order(mods@).reverse(),
            events@ == mid + released@.take(i as int).map_values(|k: PhysicalKey| KeyEvent::Release(k)),
    {
        events.push(KeyEvent::Release(released[i]));
        assert(released@.take(i + 1) =~= released@.take(i as int).push(released@[i as int]));
        assert(events@ =~= mid + released@.take(i + 1).map_values(|k: PhysicalKey| KeyEvent::Release(k)));
    }
    assert(released@.take(m as int) =~= released@);
    events.push(KeyEvent::Pause);
    assert(events@ =~= start + round_events(key, mods@));
}

/// The key events that perform actions on the virtual keyboard; an action
/// without a key stops the plan with an error.
pub fn plan_actions(actions: &Vec<ActionCommand>) -> (r: KeyPlan)
    ensures
        r.events@ == actions_events(action_views(actions@)).0,
        actions_events(action_views(actions@)).1 ==> (r.error matches Some(e) && is_invalid_state(
            e,
            "resolved action is missing a primary key"@,
        )),
        !actions_events(action_views(actions@)).1 ==> r.error is None,
{
    let mut events: Vec<KeyEvent> = Vec::new();
    let ghost whole = actions_events(action_views(actions@));
    let n = actions.len();
    assert(action_views(actions@).skip(0) =~= action_views(actions@));
    for i in 0..n
        invariant
            n == actions@.len(),
            whole == actions_events(action_views(actions@)),
            events@ + actions_events(action_views(actions@).skip(i as int)).0 == whole.0,
            actions_events(action_views(actions@).skip(i as int)).1 == whole.1,
    {
        let ghost tail = action_views(actions@).skip(i as int);
        assert(tail[0] == actions@[i as int]@);
        assert(tail.drop_first() =~= action_views(actions@).skip(i + 1));
        let a = &actions[i];
        match a.key {
            None => {
                assert(events@ + actions_events(tail).0 =~= events@);
                return KeyPlan { events, error: Some(invalid_state("resolved action is missing a primary key")) };
            },
            Some(k) => {
                let key = map_action_key(k);
                let times: u8 = if a.repeat == 0 {
                    1
                } else {
                    a.repeat
                };
                let ghost before = events@;
                let ghost round = round_events(key, a.modifiers@);
                for j in 0..times
                    invariant
                        events@ == before + repeated(round, j as nat),
                        round == round_events(key, a.modifiers@),
                {
                    push_round(&mut events, key, &a.modifiers);
                    assert(events@ =~= before + repeated(round, (j + 1) as nat));
                }
                assert(events@ + actions_events(action_views(actions@).skip(i + 1)).0 =~= before + (repeated(round, rounds(a.repeat)) + actions_events(action_views(actions@).skip(i + 1)).0));
            },
        }
    }
    assert(action_views(actions@).skip(n as int) =~= Seq::<ActionView>::empty());
    KeyPlan { events, error: None }
}

// ---------------------------------------------------------------------------
// Key strokes on macOS
// ---------------------------------------------------------------------------

/// One keystroke on macOS: a virtual key code, or a character typed as
/// text; each is followed by a pause.
#[derive(Clone, Copy, Debug, PartialEq, Eq, Structural)]
pub enum MacStroke {
    Key(u16),
    Text(char),
}

/// The macOS keystroke that types a character: Return for line breaks, Tab
/// for tabs, else the character as text.
pub open spec fn mac_char_stroke(c: char) -> MacStroke {
    if c == '\n' || c == '\r' {
        MacStroke::Key(36)
    } else if c == '\t' {
        MacStroke::Key(48)
    } else {
        MacStroke::Text(c)
    }
}

/// The macOS keystrokes that apply a patch: backspaces (key 51), then the
/// insertion character by character.
pub open spec fn mac_patch_spec(backspaces: nat, text: Seq<char>) -> Seq<MacStroke> {
    Seq::new(backspaces, |i: int| MacStroke::Key(51)) + text.map_values(|c: char| mac_char_stroke(c))
}

/// The macOS keystrokes that apply a patch.
pub fn mac_patch_strokes(patch: &TextPatch) -> (r: Vec<MacStroke>)
    ensures
        r@ == mac_patch_spec(patch.backspaces as nat, patch.insertion@),
{
    let mut r: Vec<MacStroke> = Vec::new();
    let n = patch.backspaces;
    for i in 0..n
        invariant
            r@ == Seq::new(i as nat, |j: int| MacStroke::Key(51)),
    {
        r.push(MacStroke::Key(51));
        assert(r@ =~= Seq::new((i + 1) as nat, |j: int| MacStroke::Key(51)));
    }
    let ghost base = r@;
    let text = chars_of(patch.insertion.as_str());
    let m = text.len();
    for i in 0..m
        invariant
            m == text@.len(),
            text@ == patch.insertion@,
            base == Seq::new(n as nat, |j: int| MacStroke::Key(51)),
            r@ == base + text@.take(i as int).map_values(|c: char| mac_char_stroke(c)),
    {
        let c = text[i];
        let s = if c == '\n' || c == '\r' {
            MacStroke::Key(36)
        } else if c == '\t' {
            MacStroke::Key(48)
        } else {
            MacStroke::Text(c)
        };
        assert(s == mac_char_stroke(c));
        let ghost prev = r@;
        r.push(s);
        assert(text@.take(i + 1) =~= text@.take(i as int).push(c));
        assert(text@.take(i + 1).map_values(|c: char| mac_char_stroke(c)) =~= text@.take(i as int).map_values(
            |c: char| mac_char_stroke(c),
        ).push(mac_char_stroke(c)));
        assert(r@ =~= base + text@.take(i + 1).map_values(|c: char| mac_char_stroke(c)));
    }
    assert(text@.take(m as int) =~= text@);
    r
}

/// One action keystroke on macOS: a key code with the modifiers held.
pub struct MacKeyTap {
    pub keycode: u16,
    pub modifiers: Vec<ModifierKey>,
}

/// The macOS taps of a list of actions, up to the first action without a
/// key, and whether there is one.
pub open spec fn mac_actions_spec(actions: Seq<ActionView>) -> (Seq<(u16, Seq<ModifierKey>)>, bool)
    decreases actions.len(),
{
    if actions.len() == 0 {
        (Seq::empty(), false)
    } else {
        match actions[0].key {
            None => (Seq::empty(), true),
            Some(k) => {
                let rest = mac_actions_spec(actions.drop_first());
                (
                    Seq::new(rounds(actions[0].repeat), |i: int| (mac_keycode_spec(k), actions[0].modifiers))
                        + rest.0,
                    rest.1,
                )
            },
        }
    }
}

/// The taps as plain values.
pub open spec fn mac_tap_views(v: Seq<MacKeyTap>) -> Seq<(u16, Seq<ModifierKey>)> {
    v.map_values(|t: MacKeyTap| (t.keycode, t.modifiers@))
}

/// The macOS taps that perform actions; an action without a key stops the
/// plan with an error.
pub fn mac_action_taps(actions: &Vec<ActionCommand>) -> (r: (Vec<MacKeyTap>, Option<WisprError>))
    ensures
        mac_tap_views(r.0@) == mac_actions_spec(action_views(actions@)).0,
        mac_actions_spec(action_views(actions@)).1 ==> (r.1 matches Some(e) && is_invalid_state(
            e,
            "resolved action is missing a primary key"@,
        )),
        !mac_actions_spec(action_views(actions@)).1 ==> r.1 is None,
{
    let mut taps: Vec<MacKeyTap> = Vec::new();
    let ghost whole = mac_actions_spec(action_views(actions@));
    let n = actions.len();
    assert(action_views(actions@).skip(0) =~= action_views(actions@));
    for i in 0..n
        invariant
            n == actions@.len(),
            whole == mac_actions_spec(action_views(actions@)),
            mac_tap_views(taps@) + mac_actions_spec(action_views(actions@).skip(i as int)).0 == whole.0,
            mac_actions_spec(action_views(actions@).skip(i as int)).1 == whole.1,
    {
        let ghost tail = action_views(actions@).skip(i as int);
        assert(tail[0] == actions@[i as int]@);
        assert(tail.drop_first() =~= action_views(actions@).skip(i + 1));
        let a = &actions[i];
        match a.key {
            None => {
                assert(mac_tap_views(taps@) + mac_actions_spec(tail).0 =~= mac_tap_views(taps@));
                return (taps, Some(invalid_state("resolved action is missing a primary key")));
            },
            Some(k) => {
                let code = map_action_keycode(k);
                let times: u8 = if a.repeat == 0 {
                    1
                } else {
                    a.repeat
                };
                let ghost before = mac_tap_views(taps@);
                let ghost item = (code, a.modifiers@);
                for j in 0..times
                    invariant
                        mac_tap_views(taps@) == before + Seq::new(j as nat, |x: int| item),
                        item == (code, a.modifiers@),
                {
                    let ghost prev = mac_tap_views(taps@);
                    taps.push(MacKeyTap { keycode: code, modifiers: copy_modifiers(&a.modifiers) });
                    assert(mac_tap_views(taps@) =~= prev.push(item));
                    assert(mac_tap_views(taps@) =~= before + Seq::new((j + 1) as nat, |x: int| item));
                }
                assert(mac_tap_views(taps@) + mac_actions_spec(action_views(actions@).skip(i + 1)).0 =~= before + (Seq::new(rounds(a.repeat), |x: int| item) + mac_actions_spec(action_views(actions@).skip(i + 1)).0));
            },
        }
    }
    assert(action_views(actions@).skip(n as int) =~= Seq::<ActionView>::empty());
    (taps, None)
}


/// The `CGEventFlags` bit of a modifier on macOS: Control, Shift,
/// Alternate, Command.
pub open spec fn mac_flag(m: ModifierKey) -> u64 {
    match m {
        ModifierKey::Ctrl => 0x40000,
        ModifierKey::Shift => 0x20000,
        ModifierKey::Alt => 0x80000,
        ModifierKey::Super => 0x100000,
    }
}

/// The union of the flag bits of a list of modifiers.
pub open spec fn mac_flags_spec(mods: Seq<ModifierKey>) -> u64
    decreases mods.len(),
{
    if mods.len() == 0 {
        0
    } else {
        mac_flags_spec(mods.drop_last()) | mac_flag(mods.last())
    }
}

/// The `CGEventFlags` bits that hold a list of modifiers down on macOS.
pub fn mac_modifier_flags(modifiers: &[ModifierKey]) -> (r: u64)
    ensures
        r == mac_flags_spec(modifiers@),
{
    let mut flags: u64 = 0;
    let n = modifiers.len();
    for i in 0..n
        invariant
            n == modifiers@.len(),
            flags == mac_flags_spec(modifiers@.take(i as int)),
    {
        let bit: u64 = match modifiers[i] {
            ModifierKey::Ctrl => 0x40000,
            ModifierKey::Shift => 0x20000,
            ModifierKey::Alt => 0x80000,
            ModifierKey::Super => 0x100000,
        };
        assert(modifiers@.take(i + 1).drop_last() =~= modifiers@.take(i as int));
        flags = flags | bit;
    }
    assert(modifiers@.take(n as int) =~= modifiers@);
    flags
}

} // verus!

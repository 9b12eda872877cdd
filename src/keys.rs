use vstd::prelude::*;
use device_query::Keycode;

verus! {

#[verifier::external_type_specification]
pub struct ExKeycode(Keycode);

/// A key as the input simulator takes it.
#[derive(Debug, Clone, Copy, PartialEq, Eq, Structural)]
pub enum SimKey {
    F1,
    F2,
    F3,
    F4,
    F5,
    F6,
    F7,
    F8,
    F9,
    F10,
    F11,
    F12,
    Num0,
    Num1,
    Num2,
    Num3,
    Num4,
    Num5,
    Num6,
    Num7,
    Num8,
    Num9,
    A,
    B,
    C,
    D,
    E,
    F,
    G,
    H,
    I,
    J,
    K,
    L,
    M,
    N,
    O,
    P,
    Q,
    R,
    S,
    T,
    U,
    V,
    W,
    X,
    Y,
    Z,
    Escape,
    Tab,
    CapsLock,
    Shift,
    Control,
    Alt,
    Space,
    UpArrow,
    RightArrow,
    DownArrow,
    LeftArrow,
    Return,
    Backspace,
    Delete,
    Home,
    PageUp,
    PageDown,
    End,
    Unicode(char),
    Divide,
    Numpad0,
    Numpad1,
    Numpad2,
    Numpad3,
    Numpad4,
    Numpad5,
    Numpad6,
    Numpad7,
    Numpad8,
    Numpad9,
}

/// The key that device_query's `Keycode::from_str` finds for a name.
pub uninterp spec fn keycode_named(name: Seq<char>) -> Option<Keycode>;

/// Relies on device_query's `Keycode::from_str`: the key that a name
/// denotes, or an error for a name it does not know. It is a fixed table,
/// so the answer depends on the name alone.
#[verifier::external_body]
fn parse_keycode(name: &str) -> (r: Option<Keycode>)
    ensures
        r == keycode_named(name@),
{
    <Keycode as std::str::FromStr>::from_str(name).ok()
}

/// The simulator key that stands for a captured key, if there is one.
pub open spec fn spec_key_for(k: Keycode) -> Option<SimKey> {
    match k {
        Keycode::F1 => Some(SimKey::F1),
        Keycode::F2 => Some(SimKey::F2),
        Keycode::F3 => Some(SimKey::F3),
        Keycode::F4 => Some(SimKey::F4),
        Keycode::F5 => Some(SimKey::F5),
        Keycode::F6 => Some(SimKey::F6),
        Keycode::F7 => Some(SimKey::F7),
        Keycode::F8 => Some(SimKey::F8),
        Keycode::F9 => Some(SimKey::F9),
        Keycode::F10 => Some(SimKey::F10),
        Keycode::F11 => Some(SimKey::F11),
        Keycode::F12 => Some(SimKey::F12),
        Keycode::Key0 => Some(SimKey::Num0),
        Keycode::Key1 => Some(SimKey::Num1),
        Keycode::Key2 => Some(SimKey::Num2),
        Keycode::Key3 => Some(SimKey::Num3),
        Keycode::Key4 => Some(SimKey::Num4),
        Keycode::Key5 => Some(SimKey::Num5),
        Keycode::Key6 => Some(SimKey::Num6),
        Keycode::Key7 => Some(SimKey::Num7),
        Keycode::Key8 => Some(SimKey::Num8),
        Keycode::Key9 => Some(SimKey::Num9),
        Keycode::A => Some(SimKey::A),
        Keycode::B => Some(SimKey::B),
        Keycode::C => Some(SimKey::C),
        Keycode::D => Some(SimKey::D),
        Keycode::E => Some(SimKey::E),
        Keycode::F => Some(SimKey::F),
        Keycode::G => Some(SimKey::G),
        Keycode::H => Some(SimKey::H),
        Keycode::I => Some(SimKey::I),
        Keycode::J => Some(SimKey::J),
        Keycode::K => Some(SimKey::K),
        Keycode::L => Some(SimKey::L),
        Keycode::M => Some(SimKey::M),
        Keycode::N => Some(SimKey::N),
        Keycode::O => Some(SimKey::O),
        Keycode::P => Some(SimKey::P),
        Keycode::Q => Some(SimKey::Q),
        Keycode::R => Some(SimKey::R),
        Keycode::S => Some(SimKey::S),
        Keycode::T => Some(SimKey::T),
        Keycode::U => Some(SimKey::U),
        Keycode::V => Some(SimKey::V),
        Keycode::W => Some(SimKey::W),
        Keycode::X => Some(SimKey::X),
        Keycode::Y => Some(SimKey::Y),
        Keycode::Z => Some(SimKey::Z),
        Keycode::Escape => Some(SimKey::Escape),
        Keycode::Tab => Some(SimKey::Tab),
        Keycode::CapsLock => Some(SimKey::CapsLock),
        Keycode::LShift | Keycode::RShift => Some(SimKey::Shift),
        Keycode::LControl | Keycode::RControl => Some(SimKey::Control),
        Keycode::LAlt | Keycode::RAlt => Some(SimKey::Alt),
        Keycode::Space => Some(SimKey::Space),
        Keycode::Up => Some(SimKey::UpArrow),
        Keycode::Right => Some(SimKey::RightArrow),
        Keycode::Down => Some(SimKey::DownArrow),
        Keycode::Left => Some(SimKey::LeftArrow),
        Keycode::Enter => Some(SimKey::Return),
        Keycode::Backspace => Some(SimKey::Backspace),
        Keycode::Delete => Some(SimKey::Delete),
        Keycode::Home => Some(SimKey::Home),
        Keycode::PageUp => Some(SimKey::PageUp),
        Keycode::PageDown => Some(SimKey::PageDown),
        Keycode::End => Some(SimKey::End),
        Keycode::Grave => Some(SimKey::Unicode('`')),
        Keycode::Minus | Keycode::NumpadSubtract => Some(SimKey::Unicode('-')),
        Keycode::Equal => Some(SimKey::Unicode('=')),
        Keycode::LeftBracket => Some(SimKey::Unicode('[')),
        Keycode::RightBracket => Some(SimKey::Unicode(']')),
        Keycode::Comma => Some(SimKey::Unicode(',')),
        Keycode::Dot => Some(SimKey::Unicode('.')),
        Keycode::Semicolon => Some(SimKey::Unicode(';')),
        Keycode::Apostrophe => Some(SimKey::Unicode('\'')),
        Keycode::Slash | Keycode::NumpadDivide => Some(SimKey::Divide),
        Keycode::BackSlash => Some(SimKey::Unicode('\\')),
        Keycode::Numpad0 => Some(SimKey::Numpad0),
        Keycode::Numpad1 => Some(SimKey::Numpad1),
        Keycode::Numpad2 => Some(SimKey::Numpad2),
        Keycode::Numpad3 => Some(SimKey::Numpad3),
        Keycode::Numpad4 => Some(SimKey::Numpad4),
        Keycode::Numpad5 => Some(SimKey::Numpad5),
        Keycode::Numpad6 => Some(SimKey::Numpad6),
        Keycode::Numpad7 => Some(SimKey::Numpad7),
        Keycode::Numpad8 => Some(SimKey::Numpad8),
        Keycode::Numpad9 => Some(SimKey::Numpad9),
        _ => None,
    }
}

/// The simulator key that stands for a captured key, if there is one.
pub fn key_for(k: Keycode) -> (r: Option<SimKey>)
    ensures
        r == spec_key_for(k),
{
    match k {
        Keycode::F1 => Some(SimKey::F1),
        Keycode::F2 => Some(SimKey::F2),
        Keycode::F3 => Some(SimKey::F3),
        Keycode::F4 => Some(SimKey::F4),
        Keycode::F5 => Some(SimKey::F5),
        Keycode::F6 => Some(SimKey::F6),
        Keycode::F7 => Some(SimKey::F7),
        Keycode::F8 => Some(SimKey::F8),
        Keycode::F9 => Some(SimKey::F9),
        Keycode::F10 => Some(SimKey::F10),
        Keycode::F11 => Some(SimKey::F11),
        Keycode::F12 => Some(SimKey::F12),
        Keycode::Key0 => Some(SimKey::Num0),
        Keycode::Key1 => Some(SimKey::Num1),
        Keycode::Key2 => Some(SimKey::Num2),
        Keycode::Key3 => Some(SimKey::Num3),
        Keycode::Key4 => Some(SimKey::Num4),
        Keycode::Key5 => Some(SimKey::Num5),
        Keycode::Key6 => Some(SimKey::Num6),
        Keycode::Key7 => Some(SimKey::Num7),
        Keycode::Key8 => Some(SimKey::Num8),
        Keycode::Key9 => Some(SimKey::Num9),
        Keycode::A => Some(SimKey::A),
        Keycode::B => Some(SimKey::B),
        Keycode::C => Some(SimKey::C),
        Keycode::D => Some(SimKey::D),
        Keycode::E => Some(SimKey::E),
        Keycode::F => Some(SimKey::F),
        Keycode::G => Some(SimKey::G),
        Keycode::H => Some(SimKey::H),
        Keycode::I => Some(SimKey::I),
        Keycode::J => Some(SimKey::J),
        Keycode::K => Some(SimKey::K),
        Keycode::L => Some(SimKey::L),
        Keycode::M => Some(SimKey::M),
        Keycode::N => Some(SimKey::N),
        Keycode::O => Some(SimKey::O),
        Keycode::P => Some(SimKey::P),
        Keycode::Q => Some(SimKey::Q),
        Keycode::R => Some(SimKey::R),
        Keycode::S => Some(SimKey::S),
        Keycode::T => Some(SimKey::T),
        Keycode::U => Some(SimKey::U),
        Keycode::V => Some(SimKey::V),
        Keycode::W => Some(SimKey::W),
        Keycode::X => Some(SimKey::X),
        Keycode::Y => Some(SimKey::Y),
        Keycode::Z => Some(SimKey::Z),
        Keycode::Escape => Some(SimKey::Escape),
        Keycode::Tab => Some(SimKey::Tab),
        Keycode::CapsLock => Some(SimKey::CapsLock),
        Keycode::LShift | Keycode::RShift => Some(SimKey::Shift),
        Keycode::LControl | Keycode::RControl => Some(SimKey::Control),
        Keycode::LAlt | Keycode::RAlt => Some(SimKey::Alt),
        Keycode::Space => Some(SimKey::Space),
        Keycode::Up => Some(SimKey::UpArrow),
        Keycode::Right => Some(SimKey::RightArrow),
        Keycode::Down => Some(SimKey::DownArrow),
        Keycode::Left => Some(SimKey::LeftArrow),
        Keycode::Enter => Some(SimKey::Return),
        Keycode::Backspace => Some(SimKey::Backspace),
        Keycode::Delete => Some(SimKey::Delete),
        Keycode::Home => Some(SimKey::Home),
        Keycode::PageUp => Some(SimKey::PageUp),
        Keycode::PageDown => Some(SimKey::PageDown),
        Keycode::End => Some(SimKey::End),
        Keycode::Grave => Some(SimKey::Unicode('`')),
        Keycode::Minus | Keycode::NumpadSubtract => Some(SimKey::Unicode('-')),
        Keycode::Equal => Some(SimKey::Unicode('=')),
        Keycode::LeftBracket => Some(SimKey::Unicode('[')),
        Keycode::RightBracket => Some(SimKey::Unicode(']')),
        Keycode::Comma => Some(SimKey::Unicode(',')),
        Keycode::Dot => Some(SimKey::Unicode('.')),
        Keycode::Semicolon => Some(SimKey::Unicode(';')),
        Keycode::Apostrophe => Some(SimKey::Unicode('\'')),
        Keycode::Slash | Keycode::NumpadDivide => Some(SimKey::Divide),
        Keycode::BackSlash => Some(SimKey::Unicode('\\')),
        Keycode::Numpad0 => Some(SimKey::Numpad0),
        Keycode::Numpad1 => Some(SimKey::Numpad1),
        Keycode::Numpad2 => Some(SimKey::Numpad2),
        Keycode::Numpad3 => Some(SimKey::Numpad3),
        Keycode::Numpad4 => Some(SimKey::Numpad4),
        Keycode::Numpad5 => Some(SimKey::Numpad5),
        Keycode::Numpad6 => Some(SimKey::Numpad6),
        Keycode::Numpad7 => Some(SimKey::Numpad7),
        Keycode::Numpad8 => Some(SimKey::Numpad8),
        Keycode::Numpad9 => Some(SimKey::Numpad9),
        _ => None,
    }
}

/// The simulator key for a captured key name.
pub open spec fn spec_remap(name: Seq<char>) -> Option<SimKey> {
    match keycode_named(name) {
        Some(k) => spec_key_for(k),
        None => None,
    }
}

/// Translates a captured key name into the simulator's key: `None` where
/// the name is not a key, or the key has no counterpart in the simulator.
pub fn remap(key_name: &String) -> (r: Option<SimKey>)
    ensures
        r == spec_remap(key_name@),
{
    match parse_keycode(key_name.as_str()) {
        Some(k) => key_for(k),
        None => None,
    }
}

} // verus!

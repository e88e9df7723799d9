//! Key combinations: a base key code with optional modifiers, and their text form.

use vstd::prelude::*;

use crate::error::Error;
use crate::text::{
    lemma_split_head, lemma_split_single, lemma_trimmed_unchanged, lower_of, lowercase,
    no_plus, no_white_space, split_plus, split_plus_slices, trim, trimmed,
};

verus! {

/// A physical key, without modifiers.
#[derive(Debug, Clone, Copy, PartialEq, Eq, Hash, Structural)]
pub enum Code {
    KeyA,
    KeyB,
    KeyC,
    KeyD,
    KeyE,
    KeyF,
    KeyG,
    KeyH,
    KeyI,
    KeyJ,
    KeyK,
    KeyL,
    KeyM,
    KeyN,
    KeyO,
    KeyP,
    KeyQ,
    KeyR,
    KeyS,
    KeyT,
    KeyU,
    KeyV,
    KeyW,
    KeyX,
    KeyY,
    KeyZ,
    Digit0,
    Digit1,
    Digit2,
    Digit3,
    Digit4,
    Digit5,
    Digit6,
    Digit7,
    Digit8,
    Digit9,
    F1,
    F2,
    F3,
    F4,
    F5,
    F6,
    F7,
    F8,
    F9,
    F10,
    F11,
    F12,
    Escape,
    Space,
    Enter,
    Tab,
    Backspace,
    Delete,
    Insert,
    Home,
    End,
    PageUp,
    PageDown,
    ArrowLeft,
    ArrowRight,
    ArrowUp,
    ArrowDown,
    Minus,
    Equal,
    BracketLeft,
    BracketRight,
    Backslash,
    Semicolon,
    Quote,
    Comma,
    Period,
    Slash,
    Backquote,
}

/// The modifier keys held together with a base key.
#[derive(Debug, Clone, Copy, PartialEq, Eq, Hash, Structural)]
pub struct Modifiers {
    pub control: bool,
    pub alt: bool,
    pub shift: bool,
    pub super_key: bool,
}

/// The modifiers with the given keys held.
pub open spec fn flags(control: bool, alt: bool, shift: bool, super_key: bool) -> Modifiers {
    Modifiers { control, alt, shift, super_key }
}

impl Modifiers {
    /// Only the control key.
    pub fn only_control() -> (r: Modifiers)
        ensures
            r == flags(true, false, false, false),
    {
        Modifiers { control: true, alt: false, shift: false, super_key: false }
    }

    /// Only the alt (option) key.
    pub fn only_alt() -> (r: Modifiers)
        ensures
            r == flags(false, true, false, false),
    {
        Modifiers { control: false, alt: true, shift: false, super_key: false }
    }

    /// Only the shift key.
    pub fn only_shift() -> (r: Modifiers)
        ensures
            r == flags(false, false, true, false),
    {
        Modifiers { control: false, alt: false, shift: true, super_key: false }
    }

    /// Only the super (command, windows) key.
    pub fn only_super() -> (r: Modifiers)
        ensures
            r == flags(false, false, false, true),
    {
        Modifiers { control: false, alt: false, shift: false, super_key: true }
    }

    /// The modifiers held in `self` or in `other`.
    pub open spec fn spec_union(self, other: Modifiers) -> Modifiers {
        Modifiers {
            control: self.control || other.control,
            alt: self.alt || other.alt,
            shift: self.shift || other.shift,
            super_key: self.super_key || other.super_key,
        }
    }

    /// Whether no modifier is held.
    pub open spec fn spec_is_empty(self) -> bool {
        !self.control && !self.alt && !self.shift && !self.super_key
    }

    /// No modifier held.
    pub fn empty() -> (r: Modifiers)
        ensures
            r.spec_is_empty(),
    {
        Modifiers { control: false, alt: false, shift: false, super_key: false }
    }

    /// The modifiers held in `self` or in `other`.
    pub fn union(self, other: Modifiers) -> (r: Modifiers)
        ensures
            r == self.spec_union(other),
    {
        Modifiers {
            control: self.control || other.control,
            alt: self.alt || other.alt,
            shift: self.shift || other.shift,
            super_key: self.super_key || other.super_key,
        }
    }

    /// Whether no modifier is held.
    pub fn is_empty(&self) -> (r: bool)
        ensures
            r == self.spec_is_empty(),
    {
        !self.control && !self.alt && !self.shift && !self.super_key
    }

    /// Whether every modifier of `other` is held in `self`.
    pub fn contains(&self, other: Modifiers) -> (r: bool)
        ensures
            r == (self.spec_union(other) == *self),
    {
        (self.control || !other.control) && (self.alt || !other.alt) && (self.shift || !other.shift)
            && (self.super_key || !other.super_key)
    }
}

impl vstd::std_specs::ops::BitOrSpecImpl for Modifiers {
    open spec fn obeys_bitor_spec() -> bool {
        true
    }

    open spec fn bitor_req(self, rhs: Modifiers) -> bool {
        true
    }

    open spec fn bitor_spec(self, rhs: Modifiers) -> Modifiers {
        self.spec_union(rhs)
    }
}

impl core::ops::BitOr for Modifiers {
    type Output = Modifiers;

    fn bitor(self, rhs: Modifiers) -> (r: Modifiers)
        ensures
            r == self.spec_union(rhs),
    {
        self.union(rhs)
    }
}

/// The name under which a code is written.
pub open spec fn code_name(c: Code) -> Seq<char> {
    match c {
        Code::KeyA => seq!['a'],
        Code::KeyB => seq!['b'],
        Code::KeyC => seq!['c'],
        Code::KeyD => seq!['d'],
        Code::KeyE => seq!['e'],
        Code::KeyF => seq!['f'],
        Code::KeyG => seq!['g'],
        Code::KeyH => seq!['h'],
        Code::KeyI => seq!['i'],
        Code::KeyJ => seq!['j'],
        Code::KeyK => seq!['k'],
        Code::KeyL => seq!['l'],
        Code::KeyM => seq!['m'],
        Code::KeyN => seq!['n'],
        Code::KeyO => seq!['o'],
        Code::KeyP => seq!['p'],
        Code::KeyQ => seq!['q'],
        Code::KeyR => seq!['r'],
        Code::KeyS => seq!['s'],
        Code::KeyT => seq!['t'],
        Code::KeyU => seq!['u'],
        Code::KeyV => seq!['v'],
        Code::KeyW => seq!['w'],
        Code::KeyX => seq!['x'],
        Code::KeyY => seq!['y'],
        Code::KeyZ => seq!['z'],
        Code::Digit0 => seq!['0'],
        Code::Digit1 => seq!['1'],
        Code::Digit2 => seq!['2'],
        Code::Digit3 => seq!['3'],
        Code::Digit4 => seq!['4'],
        Code::Digit5 => seq!['5'],
        Code::Digit6 => seq!['6'],
        Code::Digit7 => seq!['7'],
        Code::Digit8 => seq!['8'],
        Code::Digit9 => seq!['9'],
        Code::F1 => seq!['f', '1'],
        Code::F2 => seq!['f', '2'],
        Code::F3 => seq!['f', '3'],
        Code::F4 => seq!['f', '4'],
        Code::F5 => seq!['f', '5'],
        Code::F6 => seq!['f', '6'],
        Code::F7 => seq!['f', '7'],
        Code::F8 => seq!['f', '8'],
        Code::F9 => seq!['f', '9'],
        Code::F10 => seq!['f', '1', '0'],
        Code::F11 => seq!['f', '1', '1'],
        Code::F12 => seq!['f', '1', '2'],
        Code::Escape => seq!['e', 's', 'c', 'a', 'p', 'e'],
        Code::Space => seq!['s', 'p', 'a', 'c', 'e'],
        Code::Enter => seq!['e', 'n', 't', 'e', 'r'],
        Code::Tab => seq!['t', 'a', 'b'],
        Code::Backspace => seq!['b', 'a', 'c', 'k', 's', 'p', 'a', 'c', 'e'],
        Code::Delete => seq!['d', 'e', 'l', 'e', 't', 'e'],
        Code::Insert => seq!['i', 'n', 's', 'e', 'r', 't'],
        Code::Home => seq!['h', 'o', 'm', 'e'],
        Code::End => seq!['e', 'n', 'd'],
        Code::PageUp => seq!['p', 'a', 'g', 'e', 'u', 'p'],
        Code::PageDown => seq!['p', 'a', 'g', 'e', 'd', 'o', 'w', 'n'],
        Code::ArrowLeft => seq!['l', 'e', 'f', 't'],
        Code::ArrowRight => seq!['r', 'i', 'g', 'h', 't'],
        Code::ArrowUp => seq!['u', 'p'],
        Code::ArrowDown => seq!['d', 'o', 'w', 'n'],
        Code::Minus => seq!['m', 'i', 'n', 'u', 's'],
        Code::Equal => seq!['e', 'q', 'u', 'a', 'l'],
        Code::BracketLeft => seq!['b', 'r', 'a', 'c', 'k', 'e', 't', 'l', 'e', 'f', 't'],
        Code::BracketRight => seq!['b', 'r', 'a', 'c', 'k', 'e', 't', 'r', 'i', 'g', 'h', 't'],
        Code::Backslash => seq!['b', 'a', 'c', 'k', 's', 'l', 'a', 's', 'h'],
        Code::Semicolon => seq!['s', 'e', 'm', 'i', 'c', 'o', 'l', 'o', 'n'],
        Code::Quote => seq!['q', 'u', 'o', 't', 'e'],
        Code::Comma => seq!['c', 'o', 'm', 'm', 'a'],
        Code::Period => seq!['p', 'e', 'r', 'i', 'o', 'd'],
        Code::Slash => seq!['s', 'l', 'a', 's', 'h'],
        Code::Backquote => seq!['b', 'a', 'c', 'k', 'q', 'u', 'o', 't', 'e'],
    }
}

/// The code among the letters that a name denotes.
pub open spec fn letter_code(n: Seq<char>) -> Option<Code> {
    if n.len() == 1 && n[0] == 'a' {
        Some(Code::KeyA)
    } else if n.len() == 1 && n[0] == 'b' {
        Some(Code::KeyB)
    } else if n.len() == 1 && n[0] == 'c' {
        Some(Code::KeyC)
    } else if n.len() == 1 && n[0] == 'd' {
        Some(Code::KeyD)
    } else if n.len() == 1 && n[0] == 'e' {
        Some(Code::KeyE)
    } else if n.len() == 1 && n[0] == 'f' {
        Some(Code::KeyF)
    } else if n.len() == 1 && n[0] == 'g' {
        Some(Code::KeyG)
    } else if n.len() == 1 && n[0] == 'h' {
        Some(Code::KeyH)
    } else if n.len() == 1 && n[0] == 'i' {
        Some(Code::KeyI)
    } else if n.len() == 1 && n[0] == 'j' {
        Some(Code::KeyJ)
    } else if n.len() == 1 && n[0] == 'k' {
        Some(Code::KeyK)
    } else if n.len() == 1 && n[0] == 'l' {
        Some(Code::KeyL)
    } else if n.len() == 1 && n[0] == 'm' {
        Some(Code::KeyM)
    } else if n.len() == 1 && n[0] == 'n' {
        Some(Code::KeyN)
    } else if n.len() == 1 && n[0] == 'o' {
        Some(Code::KeyO)
    } else if n.len() == 1 && n[0] == 'p' {
        Some(Code::KeyP)
    } else if n.len() == 1 && n[0] == 'q' {
        Some(Code::KeyQ)
    } else if n.len() == 1 && n[0] == 'r' {
        Some(Code::KeyR)
    } else if n.len() == 1 && n[0] == 's' {
        Some(Code::KeyS)
    } else if n.len() == 1 && n[0] == 't' {
        Some(Code::KeyT)
    } else if n.len() == 1 && n[0] == 'u' {
        Some(Code::KeyU)
    } else if n.len() == 1 && n[0] == 'v' {
        Some(Code::KeyV)
    } else if n.len() == 1 && n[0] == 'w' {
        Some(Code::KeyW)
    } else if n.len() == 1 && n[0] == 'x' {
        Some(Code::KeyX)
    } else if n.len() == 1 && n[0] == 'y' {
        Some(Code::KeyY)
    } else if n.len() == 1 && n[0] == 'z' {
        Some(Code::KeyZ)
    } else {
        None
    }
}

/// The code among the digits, by themselves or spelled `digitN` that a name denotes.
pub open spec fn digit_code(n: Seq<char>) -> Option<Code> {
    if n.len() == 1 && n[0] == '0' {
        Some(Code::Digit0)
    } else if n.len() == 6 && n[0] == 'd' && n[1] == 'i' && n[2] == 'g' && n[3] == 'i' && n[4] == 't' && n[5] == '0' {
        Some(Code::Digit0)
    } else if n.len() == 1 && n[0] == '1' {
        Some(Code::Digit1)
    } else if n.len() == 6 && n[0] == 'd' && n[1] == 'i' && n[2] == 'g' && n[3] == 'i' && n[4] == 't' && n[5] == '1' {
        Some(Code::Digit1)
    } else if n.len() == 1 && n[0] == '2' {
        Some(Code::Digit2)
    } else if n.len() == 6 && n[0] == 'd' && n[1] == 'i' && n[2] == 'g' && n[3] == 'i' && n[4] == 't' && n[5] == '2' {
        Some(Code::Digit2)
    } else if n.len() == 1 && n[0] == '3' {
        Some(Code::Digit3)
    } else if n.len() == 6 && n[0] == 'd' && n[1] == 'i' && n[2] == 'g' && n[3] == 'i' && n[4] == 't' && n[5] == '3' {
        Some(Code::Digit3)
    } else if n.len() == 1 && n[0] == '4' {
        Some(Code::Digit4)
    } else if n.len() == 6 && n[0] == 'd' && n[1] == 'i' && n[2] == 'g' && n[3] == 'i' && n[4] == 't' && n[5] == '4' {
        Some(Code::Digit4)
    } else if n.len() == 1 && n[0] == '5' {
        Some(Code::Digit5)
    } else if n.len() == 6 && n[0] == 'd' && n[1] == 'i' && n[2] == 'g' && n[3] == 'i' && n[4] == 't' && n[5] == '5' {
        Some(Code::Digit5)
    } else if n.len() == 1 && n[0] == '6' {
        Some(Code::Digit6)
    } else if n.len() == 6 && n[0] == 'd' && n[1] == 'i' && n[2] == 'g' && n[3] == 'i' && n[4] == 't' && n[5] == '6' {
        Some(Code::Digit6)
    } else if n.len() == 1 && n[0] == '7' {
        Some(Code::Digit7)
    } else if n.len() == 6 && n[0] == 'd' && n[1] == 'i' && n[2] == 'g' && n[3] == 'i' && n[4] == 't' && n[5] == '7' {
        Some(Code::Digit7)
    } else if n.len() == 1 && n[0] == '8' {
        Some(Code::Digit8)
    } else if n.len() == 6 && n[0] == 'd' && n[1] == 'i' && n[2] == 'g' && n[3] == 'i' && n[4] == 't' && n[5] == '8' {
        Some(Code::Digit8)
    } else if n.len() == 1 && n[0] == '9' {
        Some(Code::Digit9)
    } else if n.len() == 6 && n[0] == 'd' && n[1] == 'i' && n[2] == 'g' && n[3] == 'i' && n[4] == 't' && n[5] == '9' {
        Some(Code::Digit9)
    } else {
        None
    }
}

/// The code among the function keys that a name denotes.
pub open spec fn function_code(n: Seq<char>) -> Option<Code> {
    if n.len() == 2 && n[0] == 'f' && n[1] == '1' {
        Some(Code::F1)
    } else if n.len() == 2 && n[0] == 'f' && n[1] == '2' {
        Some(Code::F2)
    } else if n.len() == 2 && n[0] == 'f' && n[1] == '3' {
        Some(Code::F3)
    } else if n.len() == 2 && n[0] == 'f' && n[1] == '4' {
        Some(Code::F4)
    } else if n.len() == 2 && n[0] == 'f' && n[1] == '5' {
        Some(Code::F5)
    } else if n.len() == 2 && n[0] == 'f' && n[1] == '6' {
        Some(Code::F6)
    } else if n.len() == 2 && n[0] == 'f' && n[1] == '7' {
        Some(Code::F7)
    } else if n.len() == 2 && n[0] == 'f' && n[1] == '8' {
        Some(Code::F8)
    } else if n.len() == 2 && n[0] == 'f' && n[1] == '9' {
        Some(Code::F9)
    } else if n.len() == 3 && n[0] == 'f' && n[1] == '1' && n[2] == '0' {
        Some(Code::F10)
    } else if n.len() == 3 && n[0] == 'f' && n[1] == '1' && n[2] == '1' {
        Some(Code::F11)
    } else if n.len() == 3 && n[0] == 'f' && n[1] == '1' && n[2] == '2' {
        Some(Code::F12)
    } else {
        None
    }
}

/// The code among the editing and navigation keys that a name denotes.
pub open spec fn editing_code(n: Seq<char>) -> Option<Code> {
    if n.len() == 6 && n[0] == 'e' && n[1] == 's' && n[2] == 'c' && n[3] == 'a' && n[4] == 'p' && n[5] == 'e' {
        Some(Code::Escape)
    } else if n.len() == 3 && n[0] == 'e' && n[1] == 's' && n[2] == 'c' {
        Some(Code::Escape)
    } else if n.len() == 5 && n[0] == 's' && n[1] == 'p' && n[2] == 'a' && n[3] == 'c' && n[4] == 'e' {
        Some(Code::Space)
    } else if n.len() == 1 && n[0] == ' ' {
        Some(Code::Space)
    } else if n.len() == 5 && n[0] == 'e' && n[1] == 'n' && n[2] == 't' && n[3] == 'e' && n[4] == 'r' {
        Some(Code::Enter)
    } else if n.len() == 6 && n[0] == 'r' && n[1] == 'e' && n[2] == 't' && n[3] == 'u' && n[4] == 'r' && n[5] == 'n' {
        Some(Code::Enter)
    } else if n.len() == 3 && n[0] == 't' && n[1] == 'a' && n[2] == 'b' {
        Some(Code::Tab)
    } else if n.len() == 9 && n[0] == 'b' && n[1] == 'a' && n[2] == 'c' && n[3] == 'k' && n[4] == 's' && n[5] == 'p' && n[6] == 'a' && n[7] == 'c' && n[8] == 'e' {
        Some(Code::Backspace)
    } else if n.len() == 6 && n[0] == 'd' && n[1] == 'e' && n[2] == 'l' && n[3] == 'e' && n[4] == 't' && n[5] == 'e' {
        Some(Code::Delete)
    } else if n.len() == 3 && n[0] == 'd' && n[1] == 'e' && n[2] == 'l' {
        Some(Code::Delete)
    } else if n.len() == 6 && n[0] == 'i' && n[1] == 'n' && n[2] == 's' && n[3] == 'e' && n[4] == 'r' && n[5] == 't' {
        Some(Code::Insert)
    } else if n.len() == 3 && n[0] == 'i' && n[1] == 'n' && n[2] == 's' {
        Some(Code::Insert)
    } else if n.len() == 4 && n[0] == 'h' && n[1] == 'o' && n[2] == 'm' && n[3] == 'e' {
        Some(Code::Home)
    } else if n.len() == 3 && n[0] == 'e' && n[1] == 'n' && n[2] == 'd' {
        Some(Code::End)
    } else if n.len() == 6 && n[0] == 'p' && n[1] == 'a' && n[2] == 'g' && n[3] == 'e' && n[4] == 'u' && n[5] == 'p' {
        Some(Code::PageUp)
    } else if n.len() == 7 && n[0] == 'p' && n[1] == 'a' && n[2] == 'g' && n[3] == 'e' && n[4] == '_' && n[5] == 'u' && n[6] == 'p' {
        Some(Code::PageUp)
    } else if n.len() == 4 && n[0] == 'p' && n[1] == 'g' && n[2] == 'u' && n[3] == 'p' {
        Some(Code::PageUp)
    } else if n.len() == 8 && n[0] == 'p' && n[1] == 'a' && n[2] == 'g' && n[3] == 'e' && n[4] == 'd' && n[5] == 'o' && n[6] == 'w' && n[7] == 'n' {
        Some(Code::PageDown)
    } else if n.len() == 9 && n[0] == 'p' && n[1] == 'a' && n[2] == 'g' && n[3] == 'e' && n[4] == '_' && n[5] == 'd' && n[6] == 'o' && n[7] == 'w' && n[8] == 'n' {
        Some(Code::PageDown)
    } else if n.len() == 4 && n[0] == 'p' && n[1] == 'g' && n[2] == 'd' && n[3] == 'n' {
        Some(Code::PageDown)
    } else if n.len() == 4 && n[0] == 'l' && n[1] == 'e' && n[2] == 'f' && n[3] == 't' {
        Some(Code::ArrowLeft)
    } else if n.len() == 9 && n[0] == 'a' && n[1] == 'r' && n[2] == 'r' && n[3] == 'o' && n[4] == 'w' && n[5] == 'l' && n[6] == 'e' && n[7] == 'f' && n[8] == 't' {
        Some(Code::ArrowLeft)
    } else if n.len() == 5 && n[0] == 'r' && n[1] == 'i' && n[2] == 'g' && n[3] == 'h' && n[4] == 't' {
        Some(Code::ArrowRight)
    } else if n.len() == 10 && n[0] == 'a' && n[1] == 'r' && n[2] == 'r' && n[3] == 'o' && n[4] == 'w' && n[5] == 'r' && n[6] == 'i' && n[7] == 'g' && n[8] == 'h' && n[9] == 't' {
        Some(Code::ArrowRight)
    } else if n.len() == 2 && n[0] == 'u' && n[1] == 'p' {
        Some(Code::ArrowUp)
    } else if n.len() == 7 && n[0] == 'a' && n[1] == 'r' && n[2] == 'r' && n[3] == 'o' && n[4] == 'w' && n[5] == 'u' && n[6] == 'p' {
        Some(Code::ArrowUp)
    } else if n.len() == 4 && n[0] == 'd' && n[1] == 'o' && n[2] == 'w' && n[3] == 'n' {
        Some(Code::ArrowDown)
    } else if n.len() == 9 && n[0] == 'a' && n[1] == 'r' && n[2] == 'r' && n[3] == 'o' && n[4] == 'w' && n[5] == 'd' && n[6] == 'o' && n[7] == 'w' && n[8] == 'n' {
        Some(Code::ArrowDown)
    } else {
        None
    }
}

/// The code among the punctuation and symbols that a name denotes.
pub open spec fn symbol_code(n: Seq<char>) -> Option<Code> {
    if n.len() == 5 && n[0] == 'm' && n[1] == 'i' && n[2] == 'n' && n[3] == 'u' && n[4] == 's' {
        Some(Code::Minus)
    } else if n.len() == 1 && n[0] == '-' {
        Some(Code::Minus)
    } else if n.len() == 5 && n[0] == 'e' && n[1] == 'q' && n[2] == 'u' && n[3] == 'a' && n[4] == 'l' {
        Some(Code::Equal)
    } else if n.len() == 6 && n[0] == 'e' && n[1] == 'q' && n[2] == 'u' && n[3] == 'a' && n[4] == 'l' && n[5] == 's' {
        Some(Code::Equal)
    } else if n.len() == 1 && n[0] == '=' {
        Some(Code::Equal)
    } else if n.len() == 12 && n[0] == 'b' && n[1] == 'r' && n[2] == 'a' && n[3] == 'c' && n[4] == 'k' && n[5] == 'e' && n[6] == 't' && n[7] == '_' && n[8] == 'l' && n[9] == 'e' && n[10] == 'f' && n[11] == 't' {
        Some(Code::BracketLeft)
    } else if n.len() == 11 && n[0] == 'b' && n[1] == 'r' && n[2] == 'a' && n[3] == 'c' && n[4] == 'k' && n[5] == 'e' && n[6] == 't' && n[7] == 'l' && n[8] == 'e' && n[9] == 'f' && n[10] == 't' {
        Some(Code::BracketLeft)
    } else if n.len() == 1 && n[0] == '[' {
        Some(Code::BracketLeft)
    } else if n.len() == 13 && n[0] == 'b' && n[1] == 'r' && n[2] == 'a' && n[3] == 'c' && n[4] == 'k' && n[5] == 'e' && n[6] == 't' && n[7] == '_' && n[8] == 'r' && n[9] == 'i' && n[10] == 'g' && n[11] == 'h' && n[12] == 't' {
        Some(Code::BracketRight)
    } else if n.len() == 12 && n[0] == 'b' && n[1] == 'r' && n[2] == 'a' && n[3] == 'c' && n[4] == 'k' && n[5] == 'e' && n[6] == 't' && n[7] == 'r' && n[8] == 'i' && n[9] == 'g' && n[10] == 'h' && n[11] == 't' {
        Some(Code::BracketRight)
    } else if n.len() == 1 && n[0] == ']' {
        Some(Code::BracketRight)
    } else if n.len() == 9 && n[0] == 'b' && n[1] == 'a' && n[2] == 'c' && n[3] == 'k' && n[4] == 's' && n[5] == 'l' && n[6] == 'a' && n[7] == 's' && n[8] == 'h' {
        Some(Code::Backslash)
    } else if n.len() == 1 && n[0] == '\\' {
        Some(Code::Backslash)
    } else if n.len() == 9 && n[0] == 's' && n[1] == 'e' && n[2] == 'm' && n[3] == 'i' && n[4] == 'c' && n[5] == 'o' && n[6] == 'l' && n[7] == 'o' && n[8] == 'n' {
        Some(Code::Semicolon)
    } else if n.len() == 1 && n[0] == ';' {
        Some(Code::Semicolon)
    } else if n.len() == 5 && n[0] == 'q' && n[1] == 'u' && n[2] == 'o' && n[3] == 't' && n[4] == 'e' {
        Some(Code::Quote)
    } else if n.len() == 1 && n[0] == '\'' {
        Some(Code::Quote)
    } else if n.len() == 5 && n[0] == 'c' && n[1] == 'o' && n[2] == 'm' && n[3] == 'm' && n[4] == 'a' {
        Some(Code::Comma)
    } else if n.len() == 1 && n[0] == ',' {
        Some(Code::Comma)
    } else if n.len() == 6 && n[0] == 'p' && n[1] == 'e' && n[2] == 'r' && n[3] == 'i' && n[4] == 'o' && n[5] == 'd' {
        Some(Code::Period)
    } else if n.len() == 1 && n[0] == '.' {
        Some(Code::Period)
    } else if n.len() == 5 && n[0] == 's' && n[1] == 'l' && n[2] == 'a' && n[3] == 's' && n[4] == 'h' {
        Some(Code::Slash)
    } else if n.len() == 1 && n[0] == '/' {
        Some(Code::Slash)
    } else if n.len() == 9 && n[0] == 'b' && n[1] == 'a' && n[2] == 'c' && n[3] == 'k' && n[4] == 'q' && n[5] == 'u' && n[6] == 'o' && n[7] == 't' && n[8] == 'e' {
        Some(Code::Backquote)
    } else if n.len() == 5 && n[0] == 'g' && n[1] == 'r' && n[2] == 'a' && n[3] == 'v' && n[4] == 'e' {
        Some(Code::Backquote)
    } else if n.len() == 1 && n[0] == '`' {
        Some(Code::Backquote)
    } else {
        None
    }
}

/// The code that a name denotes, among the canonical names and their aliases.
pub open spec fn code_of_name(n: Seq<char>) -> Option<Code> {
    match letter_code(n) {
        Some(c) => Some(c),
        None => match digit_code(n) {
            Some(c) => Some(c),
            None => match function_code(n) {
                Some(c) => Some(c),
                None => match editing_code(n) {
                    Some(c) => Some(c),
                    None => symbol_code(n),
                },
            },
        },
    }
}

/// The single modifier that a name denotes.
pub open spec fn modifier_of_name(n: Seq<char>) -> Option<Modifiers> {
    if (n.len() == 4 && n[0] == 'c' && n[1] == 't' && n[2] == 'r' && n[3] == 'l') || (n.len() == 7 && n[0] == 'c' && n[1] == 'o' && n[2] == 'n' && n[3] == 't' && n[4] == 'r' && n[5] == 'o' && n[6] == 'l') {
        Some(flags(true, false, false, false))
    } else if (n.len() == 3 && n[0] == 'a' && n[1] == 'l' && n[2] == 't') || (n.len() == 6 && n[0] == 'o' && n[1] == 'p' && n[2] == 't' && n[3] == 'i' && n[4] == 'o' && n[5] == 'n') {
        Some(flags(false, true, false, false))
    } else if (n.len() == 5 && n[0] == 's' && n[1] == 'h' && n[2] == 'i' && n[3] == 'f' && n[4] == 't') {
        Some(flags(false, false, true, false))
    } else if (n.len() == 3 && n[0] == 'c' && n[1] == 'm' && n[2] == 'd') || (n.len() == 7 && n[0] == 'c' && n[1] == 'o' && n[2] == 'm' && n[3] == 'm' && n[4] == 'a' && n[5] == 'n' && n[6] == 'd') || (n.len() == 5 && n[0] == 's' && n[1] == 'u' && n[2] == 'p' && n[3] == 'e' && n[4] == 'r') || (n.len() == 3 && n[0] == 'w' && n[1] == 'i' && n[2] == 'n') || (n.len() == 7 && n[0] == 'w' && n[1] == 'i' && n[2] == 'n' && n[3] == 'd' && n[4] == 'o' && n[5] == 'w' && n[6] == 's') || (n.len() == 4 && n[0] == 'm' && n[1] == 'e' && n[2] == 't' && n[3] == 'a') {
        Some(flags(false, false, false, true))
    } else {
        None
    }
}


/// The code that a piece of a key string denotes; names are matched without regard to case.
pub open spec fn lookup_code(p: Seq<char>) -> Option<Code> {
    match code_of_name(p) {
        Some(c) => Some(c),
        None => code_of_name(lower_of(p)),
    }
}

/// The modifier that a piece of a key string denotes; names are matched without regard to case.
pub open spec fn lookup_modifier(p: Seq<char>) -> Option<Modifiers> {
    match modifier_of_name(p) {
        Some(m) => Some(m),
        None => modifier_of_name(lower_of(p)),
    }
}

/// The trimmed pieces of a key string between its `'+'` separators.
pub open spec fn key_pieces(s: Seq<char>) -> Seq<Seq<char>> {
    split_plus(s).map_values(|p: Seq<char>| trimmed(p))
}

/// The modifiers named by `ps`, or the first piece that names none.
pub open spec fn fold_modifiers(ps: Seq<Seq<char>>) -> Result<Modifiers, Seq<char>>
    decreases ps.len(),
{
    if ps.len() == 0 {
        Ok(Modifiers { control: false, alt: false, shift: false, super_key: false })
    } else {
        match fold_modifiers(ps.drop_last()) {
            Err(p) => Err(p),
            Ok(acc) => match lookup_modifier(ps.last()) {
                None => Err(ps.last()),
                Some(m) => Ok(acc.spec_union(m)),
            },
        }
    }
}

/// The key that a string denotes, or the message that explains why it denotes none.
///
/// The last piece is the base key and is examined first; the pieces before it are
/// modifiers, examined from the left.
pub open spec fn parse_key(s: Seq<char>) -> Result<Key, Seq<char>> {
    let ps = key_pieces(s);
    let last = ps.last();
    match lookup_code(last) {
        None => Err("Unknown key code: "@ + last),
        Some(code) => if ps.len() == 1 {
            Ok(Key { modifiers: None, code })
        } else {
            match fold_modifiers(ps.drop_last()) {
                Err(p) => Err("Unknown modifier: "@ + p),
                Ok(m) => Ok(Key { modifiers: Some(m), code }),
            }
        },
    }
}

/// The names of the held modifiers, in the order control, alt, shift, super.
pub open spec fn modifier_names(m: Modifiers) -> Seq<Seq<char>> {
    let a = if m.control {
        seq![seq!['c', 't', 'r', 'l']]
    } else {
        Seq::empty()
    };
    let b = if m.alt {
        a.push(seq!['a', 'l', 't'])
    } else {
        a
    };
    let c = if m.shift {
        b.push(seq!['s', 'h', 'i', 'f', 't'])
    } else {
        b
    };
    if m.super_key {
        c.push(seq!['c', 'm', 'd'])
    } else {
        c
    }
}

/// Each name of `ns` followed by a `'+'`.
pub open spec fn plus_prefix(ns: Seq<Seq<char>>) -> Seq<char>
    decreases ns.len(),
{
    if ns.len() == 0 {
        Seq::empty()
    } else {
        plus_prefix(ns.drop_last()) + ns.last() + seq!['+']
    }
}

/// The names written before the base key.
pub open spec fn prefix_names(m: Option<Modifiers>) -> Seq<Seq<char>> {
    match m {
        Some(m) => modifier_names(m),
        None => Seq::empty(),
    }
}

/// The canonical text of a key: its modifiers, then its code, joined by `'+'`.
pub open spec fn key_text(k: Key) -> Seq<char> {
    plus_prefix(prefix_names(k.modifiers)) + code_name(k.code)
}

/// Whether a key is in the form that parsing produces: modifiers absent or not empty.
pub open spec fn is_canonical(k: Key) -> bool {
    match k.modifiers {
        Some(m) => !m.spec_is_empty(),
        None => true,
    }
}

/// A key combination: a base key code with optional modifiers.
#[derive(Debug, Clone, Copy, PartialEq, Eq, Hash, Structural)]
pub struct Key {
    pub modifiers: Option<Modifiers>,
    pub code: Code,
}

/// Whether `r` is what parsing the characters `s` yields.
pub open spec fn parsed_as(s: Seq<char>, r: Result<Key, Error>) -> bool {
    match parse_key(s) {
        Ok(k) => r == Ok::<Key, Error>(k),
        Err(msg) => r matches Err(Error::InvalidKey(m)) && m@ == msg,
    }
}

/// The code among the letters whose name is exactly `s`.
fn letter_from_name(s: &str) -> (r: Option<Code>)
    ensures
        r == letter_code(s@),
{
    let len = s.unicode_len();
    if len == 1 && s.get_char(0) == 'a' {
        return Some(Code::KeyA);
    }
    if len == 1 && s.get_char(0) == 'b' {
        return Some(Code::KeyB);
    }
    if len == 1 && s.get_char(0) == 'c' {
        return Some(Code::KeyC);
    }
    if len == 1 && s.get_char(0) == 'd' {
        return Some(Code::KeyD);
    }
    if len == 1 && s.get_char(0) == 'e' {
        return Some(Code::KeyE);
    }
    if len == 1 && s.get_char(0) == 'f' {
        return Some(Code::KeyF);
    }
    if len == 1 && s.get_char(0) == 'g' {
        return Some(Code::KeyG);
    }
    if len == 1 && s.get_char(0) == 'h' {
        return Some(Code::KeyH);
    }
    if len == 1 && s.get_char(0) == 'i' {
        return Some(Code::KeyI);
    }
    if len == 1 && s.get_char(0) == 'j' {
        return Some(Code::KeyJ);
    }
    if len == 1 && s.get_char(0) == 'k' {
        return Some(Code::KeyK);
    }
    if len == 1 && s.get_char(0) == 'l' {
        return Some(Code::KeyL);
    }
    if len == 1 && s.get_char(0) == 'm' {
        return Some(Code::KeyM);
    }
    if len == 1 && s.get_char(0) == 'n' {
        return Some(Code::KeyN);
    }
    if len == 1 && s.get_char(0) == 'o' {
        return Some(Code::KeyO);
    }
    if len == 1 && s.get_char(0) == 'p' {
        return Some(Code::KeyP);
    }
    if len == 1 && s.get_char(0) == 'q' {
        return Some(Code::KeyQ);
    }
    if len == 1 && s.get_char(0) == 'r' {
        return Some(Code::KeyR);
    }
    if len == 1 && s.get_char(0) == 's' {
        return Some(Code::KeyS);
    }
    if len == 1 && s.get_char(0) == 't' {
        return Some(Code::KeyT);
    }
    if len == 1 && s.get_char(0) == 'u' {
        return Some(Code::KeyU);
    }
    if len == 1 && s.get_char(0) == 'v' {
        return Some(Code::KeyV);
    }
    if len == 1 && s.get_char(0) == 'w' {
        return Some(Code::KeyW);
    }
    if len == 1 && s.get_char(0) == 'x' {
        return Some(Code::KeyX);
    }
    if len == 1 && s.get_char(0) == 'y' {
        return Some(Code::KeyY);
    }
    if len == 1 && s.get_char(0) == 'z' {
        return Some(Code::KeyZ);
    }
    None
}

/// The code among the digits, by themselves or spelled `digitN` whose name is exactly `s`.
fn digit_from_name(s: &str) -> (r: Option<Code>)
    ensures
        r == digit_code(s@),
{
    let len = s.unicode_len();
    if len == 1 && s.get_char(0) == '0' {
        return Some(Code::Digit0);
    }
    if len == 6 && s.get_char(0) == 'd' && s.get_char(1) == 'i' && s.get_char(2) == 'g' && s.get_char(3) == 'i' && s.get_char(4) == 't' && s.get_char(5) == '0' {
        return Some(Code::Digit0);
    }
    if len == 1 && s.get_char(0) == '1' {
        return Some(Code::Digit1);
    }
    if len == 6 && s.get_char(0) == 'd' && s.get_char(1) == 'i' && s.get_char(2) == 'g' && s.get_char(3) == 'i' && s.get_char(4) == 't' && s.get_char(5) == '1' {
        return Some(Code::Digit1);
    }
    if len == 1 && s.get_char(0) == '2' {
        return Some(Code::Digit2);
    }
    if len == 6 && s.get_char(0) == 'd' && s.get_char(1) == 'i' && s.get_char(2) == 'g' && s.get_char(3) == 'i' && s.get_char(4) == 't' && s.get_char(5) == '2' {
        return Some(Code::Digit2);
    }
    if len == 1 && s.get_char(0) == '3' {
        return Some(Code::Digit3);
    }
    if len == 6 && s.get_char(0) == 'd' && s.get_char(1) == 'i' && s.get_char(2) == 'g' && s.get_char(3) == 'i' && s.get_char(4) == 't' && s.get_char(5) == '3' {
        return Some(Code::Digit3);
    }
    if len == 1 && s.get_char(0) == '4' {
        return Some(Code::Digit4);
    }
    if len == 6 && s.get_char(0) == 'd' && s.get_char(1) == 'i' && s.get_char(2) == 'g' && s.get_char(3) == 'i' && s.get_char(4) == 't' && s.get_char(5) == '4' {
        return Some(Code::Digit4);
    }
    if len == 1 && s.get_char(0) == '5' {
        return Some(Code::Digit5);
    }
    if len == 6 && s.get_char(0) == 'd' && s.get_char(1) == 'i' && s.get_char(2) == 'g' && s.get_char(3) == 'i' && s.get_char(4) == 't' && s.get_char(5) == '5' {
        return Some(Code::Digit5);
    }
    if len == 1 && s.get_char(0) == '6' {
        return Some(Code::Digit6);
    }
    if len == 6 && s.get_char(0) == 'd' && s.get_char(1) == 'i' && s.get_char(2) == 'g' && s.get_char(3) == 'i' && s.get_char(4) == 't' && s.get_char(5) == '6' {
        return Some(Code::Digit6);
    }
    if len == 1 && s.get_char(0) == '7' {
        return Some(Code::Digit7);
    }
    if len == 6 && s.get_char(0) == 'd' && s.get_char(1) == 'i' && s.get_char(2) == 'g' && s.get_char(3) == 'i' && s.get_char(4) == 't' && s.get_char(5) == '7' {
        return Some(Code::Digit7);
    }
    if len == 1 && s.get_char(0) == '8' {
        return Some(Code::Digit8);
    }
    if len == 6 && s.get_char(0) == 'd' && s.get_char(1) == 'i' && s.get_char(2) == 'g' && s.get_char(3) == 'i' && s.get_char(4) == 't' && s.get_char(5) == '8' {
        return Some(Code::Digit8);
    }
    if len == 1 && s.get_char(0) == '9' {
        return Some(Code::Digit9);
    }
    if len == 6 && s.get_char(0) == 'd' && s.get_char(1) == 'i' && s.get_char(2) == 'g' && s.get_char(3) == 'i' && s.get_char(4) == 't' && s.get_char(5) == '9' {
        return Some(Code::Digit9);
    }
    None
}

/// The code among the function keys whose name is exactly `s`.
fn function_from_name(s: &str) -> (r: Option<Code>)
    ensures
        r == function_code(s@),
{
    let len = s.unicode_len();
    if len == 2 && s.get_char(0) == 'f' && s.get_char(1) == '1' {
        return Some(Code::F1);
    }
    if len == 2 && s.get_char(0) == 'f' && s.get_char(1) == '2' {
        return Some(Code::F2);
    }
    if len == 2 && s.get_char(0) == 'f' && s.get_char(1) == '3' {
        return Some(Code::F3);
    }
    if len == 2 && s.get_char(0) == 'f' && s.get_char(1) == '4' {
        return Some(Code::F4);
    }
    if len == 2 && s.get_char(0) == 'f' && s.get_char(1) == '5' {
        return Some(Code::F5);
    }
    if len == 2 && s.get_char(0) == 'f' && s.get_char(1) == '6' {
        return Some(Code::F6);
    }
    if len == 2 && s.get_char(0) == 'f' && s.get_char(1) == '7' {
        return Some(Code::F7);
    }
    if len == 2 && s.get_char(0) == 'f' && s.get_char(1) == '8' {
        return Some(Code::F8);
    }
    if len == 2 && s.get_char(0) == 'f' && s.get_char(1) == '9' {
        return Some(Code::F9);
    }
    if len == 3 && s.get_char(0) == 'f' && s.get_char(1) == '1' && s.get_char(2) == '0' {
        return Some(Code::F10);
    }
    if len == 3 && s.get_char(0) == 'f' && s.get_char(1) == '1' && s.get_char(2) == '1' {
        return Some(Code::F11);
    }
    if len == 3 && s.get_char(0) == 'f' && s.get_char(1) == '1' && s.get_char(2) == '2' {
        return Some(Code::F12);
    }
    None
}

/// The code among the editing and navigation keys whose name is exactly `s`.
fn editing_from_name(s: &str) -> (r: Option<Code>)
    ensures
        r == editing_code(s@),
{
    let len = s.unicode_len();
    if len == 6 && s.get_char(0) == 'e' && s.get_char(1) == 's' && s.get_char(2) == 'c' && s.get_char(3) == 'a' && s.get_char(4) == 'p' && s.get_char(5) == 'e' {
        return Some(Code::Escape);
    }
    if len == 3 && s.get_char(0) == 'e' && s.get_char(1) == 's' && s.get_char(2) == 'c' {
        return Some(Code::Escape);
    }
    if len == 5 && s.get_char(0) == 's' && s.get_char(1) == 'p' && s.get_char(2) == 'a' && s.get_char(3) == 'c' && s.get_char(4) == 'e' {
        return Some(Code::Space);
    }
    if len == 1 && s.get_char(0) == ' ' {
        return Some(Code::Space);
    }
    if len == 5 && s.get_char(0) == 'e' && s.get_char(1) == 'n' && s.get_char(2) == 't' && s.get_char(3) == 'e' && s.get_char(4) == 'r' {
        return Some(Code::Enter);
    }
    if len == 6 && s.get_char(0) == 'r' && s.get_char(1) == 'e' && s.get_char(2) == 't' && s.get_char(3) == 'u' && s.get_char(4) == 'r' && s.get_char(5) == 'n' {
        return Some(Code::Enter);
    }
    if len == 3 && s.get_char(0) == 't' && s.get_char(1) == 'a' && s.get_char(2) == 'b' {
        return Some(Code::Tab);
    }
    if len == 9 && s.get_char(0) == 'b' && s.get_char(1) == 'a' && s.get_char(2) == 'c' && s.get_char(3) == 'k' && s.get_char(4) == 's' && s.get_char(5) == 'p' && s.get_char(6) == 'a' && s.get_char(7) == 'c' && s.get_char(8) == 'e' {
        return Some(Code::Backspace);
    }
    if len == 6 && s.get_char(0) == 'd' && s.get_char(1) == 'e' && s.get_char(2) == 'l' && s.get_char(3) == 'e' && s.get_char(4) == 't' && s.get_char(5) == 'e' {
        return Some(Code::Delete);
    }
    if len == 3 && s.get_char(0) == 'd' && s.get_char(1) == 'e' && s.get_char(2) == 'l' {
        return Some(Code::Delete);
    }
    if len == 6 && s.get_char(0) == 'i' && s.get_char(1) == 'n' && s.get_char(2) == 's' && s.get_char(3) == 'e' && s.get_char(4) == 'r' && s.get_char(5) == 't' {
        return Some(Code::Insert);
    }
    if len == 3 && s.get_char(0) == 'i' && s.get_char(1) == 'n' && s.get_char(2) == 's' {
        return Some(Code::Insert);
    }
    if len == 4 && s.get_char(0) == 'h' && s.get_char(1) == 'o' && s.get_char(2) == 'm' && s.get_char(3) == 'e' {
        return Some(Code::Home);
    }
    if len == 3 && s.get_char(0) == 'e' && s.get_char(1) == 'n' && s.get_char(2) == 'd' {
        return Some(Code::End);
    }
    if len == 6 && s.get_char(0) == 'p' && s.get_char(1) == 'a' && s.get_char(2) == 'g' && s.get_char(3) == 'e' && s.get_char(4) == 'u' && s.get_char(5) == 'p' {
        return Some(Code::PageUp);
    }
    if len == 7 && s.get_char(0) == 'p' && s.get_char(1) == 'a' && s.get_char(2) == 'g' && s.get_char(3) == 'e' && s.get_char(4) == '_' && s.get_char(5) == 'u' && s.get_char(6) == 'p' {
        return Some(Code::PageUp);
    }
    if len == 4 && s.get_char(0) == 'p' && s.get_char(1) == 'g' && s.get_char(2) == 'u' && s.get_char(3) == 'p' {
        return Some(Code::PageUp);
    }
    if len == 8 && s.get_char(0) == 'p' && s.get_char(1) == 'a' && s.get_char(2) == 'g' && s.get_char(3) == 'e' && s.get_char(4) == 'd' && s.get_char(5) == 'o' && s.get_char(6) == 'w' && s.get_char(7) == 'n' {
        return Some(Code::PageDown);
    }
    if len == 9 && s.get_char(0) == 'p' && s.get_char(1) == 'a' && s.get_char(2) == 'g' && s.get_char(3) == 'e' && s.get_char(4) == '_' && s.get_char(5) == 'd' && s.get_char(6) == 'o' && s.get_char(7) == 'w' && s.get_char(8) == 'n' {
        return Some(Code::PageDown);
    }
    if len == 4 && s.get_char(0) == 'p' && s.get_char(1) == 'g' && s.get_char(2) == 'd' && s.get_char(3) == 'n' {
        return Some(Code::PageDown);
    }
    if len == 4 && s.get_char(0) == 'l' && s.get_char(1) == 'e' && s.get_char(2) == 'f' && s.get_char(3) == 't' {
        return Some(Code::ArrowLeft);
    }
    if len == 9 && s.get_char(0) == 'a' && s.get_char(1) == 'r' && s.get_char(2) == 'r' && s.get_char(3) == 'o' && s.get_char(4) == 'w' && s.get_char(5) == 'l' && s.get_char(6) == 'e' && s.get_char(7) == 'f' && s.get_char(8) == 't' {
        return Some(Code::ArrowLeft);
    }
    if len == 5 && s.get_char(0) == 'r' && s.get_char(1) == 'i' && s.get_char(2) == 'g' && s.get_char(3) == 'h' && s.get_char(4) == 't' {
        return Some(Code::ArrowRight);
    }
    if len == 10 && s.get_char(0) == 'a' && s.get_char(1) == 'r' && s.get_char(2) == 'r' && s.get_char(3) == 'o' && s.get_char(4) == 'w' && s.get_char(5) == 'r' && s.get_char(6) == 'i' && s.get_char(7) == 'g' && s.get_char(8) == 'h' && s.get_char(9) == 't' {
        return Some(Code::ArrowRight);
    }
    if len == 2 && s.get_char(0) == 'u' && s.get_char(1) == 'p' {
        return Some(Code::ArrowUp);
    }
    if len == 7 && s.get_char(0) == 'a' && s.get_char(1) == 'r' && s.get_char(2) == 'r' && s.get_char(3) == 'o' && s.get_char(4) == 'w' && s.get_char(5) == 'u' && s.get_char(6) == 'p' {
        return Some(Code::ArrowUp);
    }
    if len == 4 && s.get_char(0) == 'd' && s.get_char(1) == 'o' && s.get_char(2) == 'w' && s.get_char(3) == 'n' {
        return Some(Code::ArrowDown);
    }
    if len == 9 && s.get_char(0) == 'a' && s.get_char(1) == 'r' && s.get_char(2) == 'r' && s.get_char(3) == 'o' && s.get_char(4) == 'w' && s.get_char(5) == 'd' && s.get_char(6) == 'o' && s.get_char(7) == 'w' && s.get_char(8) == 'n' {
        return Some(Code::ArrowDown);
    }
    None
}

/// The code among the punctuation and symbols whose name is exactly `s`.
fn symbol_from_name(s: &str) -> (r: Option<Code>)
    ensures
        r == symbol_code(s@),
{
    let len = s.unicode_len();
    if len == 5 && s.get_char(0) == 'm' && s.get_char(1) == 'i' && s.get_char(2) == 'n' && s.get_char(3) == 'u' && s.get_char(4) == 's' {
        return Some(Code::Minus);
    }
    if len == 1 && s.get_char(0) == '-' {
        return Some(Code::Minus);
    }
    if len == 5 && s.get_char(0) == 'e' && s.get_char(1) == 'q' && s.get_char(2) == 'u' && s.get_char(3) == 'a' && s.get_char(4) == 'l' {
        return Some(Code::Equal);
    }
    if len == 6 && s.get_char(0) == 'e' && s.get_char(1) == 'q' && s.get_char(2) == 'u' && s.get_char(3) == 'a' && s.get_char(4) == 'l' && s.get_char(5) == 's' {
        return Some(Code::Equal);
    }
    if len == 1 && s.get_char(0) == '=' {
        return Some(Code::Equal);
    }
    if len == 12 && s.get_char(0) == 'b' && s.get_char(1) == 'r' && s.get_char(2) == 'a' && s.get_char(3) == 'c' && s.get_char(4) == 'k' && s.get_char(5) == 'e' && s.get_char(6) == 't' && s.get_char(7) == '_' && s.get_char(8) == 'l' && s.get_char(9) == 'e' && s.get_char(10) == 'f' && s.get_char(11) == 't' {
        return Some(Code::BracketLeft);
    }
    if len == 11 && s.get_char(0) == 'b' && s.get_char(1) == 'r' && s.get_char(2) == 'a' && s.get_char(3) == 'c' && s.get_char(4) == 'k' && s.get_char(5) == 'e' && s.get_char(6) == 't' && s.get_char(7) == 'l' && s.get_char(8) == 'e' && s.get_char(9) == 'f' && s.get_char(10) == 't' {
        return Some(Code::BracketLeft);
    }
    if len == 1 && s.get_char(0) == '[' {
        return Some(Code::BracketLeft);
    }
    if len == 13 && s.get_char(0) == 'b' && s.get_char(1) == 'r' && s.get_char(2) == 'a' && s.get_char(3) == 'c' && s.get_char(4) == 'k' && s.get_char(5) == 'e' && s.get_char(6) == 't' && s.get_char(7) == '_' && s.get_char(8) == 'r' && s.get_char(9) == 'i' && s.get_char(10) == 'g' && s.get_char(11) == 'h' && s.get_char(12) == 't' {
        return Some(Code::BracketRight);
    }
    if len == 12 && s.get_char(0) == 'b' && s.get_char(1) == 'r' && s.get_char(2) == 'a' && s.get_char(3) == 'c' && s.get_char(4) == 'k' && s.get_char(5) == 'e' && s.get_char(6) == 't' && s.get_char(7) == 'r' && s.get_char(8) == 'i' && s.get_char(9) == 'g' && s.get_char(10) == 'h' && s.get_char(11) == 't' {
        return Some(Code::BracketRight);
    }
    if len == 1 && s.get_char(0) == ']' {
        return Some(Code::BracketRight);
    }
    if len == 9 && s.get_char(0) == 'b' && s.get_char(1) == 'a' && s.get_char(2) == 'c' && s.get_char(3) == 'k' && s.get_char(4) == 's' && s.get_char(5) == 'l' && s.get_char(6) == 'a' && s.get_char(7) == 's' && s.get_char(8) == 'h' {
        return Some(Code::Backslash);
    }
    if len == 1 && s.get_char(0) == '\\' {
        return Some(Code::Backslash);
    }
    if len == 9 && s.get_char(0) == 's' && s.get_char(1) == 'e' && s.get_char(2) == 'm' && s.get_char(3) == 'i' && s.get_char(4) == 'c' && s.get_char(5) == 'o' && s.get_char(6) == 'l' && s.get_char(7) == 'o' && s.get_char(8) == 'n' {
        return Some(Code::Semicolon);
    }
    if len == 1 && s.get_char(0) == ';' {
        return Some(Code::Semicolon);
    }
    if len == 5 && s.get_char(0) == 'q' && s.get_char(1) == 'u' && s.get_char(2) == 'o' && s.get_char(3) == 't' && s.get_char(4) == 'e' {
        return Some(Code::Quote);
    }
    if len == 1 && s.get_char(0) == '\'' {
        return Some(Code::Quote);
    }
    if len == 5 && s.get_char(0) == 'c' && s.get_char(1) == 'o' && s.get_char(2) == 'm' && s.get_char(3) == 'm' && s.get_char(4) == 'a' {
        return Some(Code::Comma);
    }
    if len == 1 && s.get_char(0) == ',' {
        return Some(Code::Comma);
    }
    if len == 6 && s.get_char(0) == 'p' && s.get_char(1) == 'e' && s.get_char(2) == 'r' && s.get_char(3) == 'i' && s.get_char(4) == 'o' && s.get_char(5) == 'd' {
        return Some(Code::Period);
    }
    if len == 1 && s.get_char(0) == '.' {
        return Some(Code::Period);
    }
    if len == 5 && s.get_char(0) == 's' && s.get_char(1) == 'l' && s.get_char(2) == 'a' && s.get_char(3) == 's' && s.get_char(4) == 'h' {
        return Some(Code::Slash);
    }
    if len == 1 && s.get_char(0) == '/' {
        return Some(Code::Slash);
    }
    if len == 9 && s.get_char(0) == 'b' && s.get_char(1) == 'a' && s.get_char(2) == 'c' && s.get_char(3) == 'k' && s.get_char(4) == 'q' && s.get_char(5) == 'u' && s.get_char(6) == 'o' && s.get_char(7) == 't' && s.get_char(8) == 'e' {
        return Some(Code::Backquote);
    }
    if len == 5 && s.get_char(0) == 'g' && s.get_char(1) == 'r' && s.get_char(2) == 'a' && s.get_char(3) == 'v' && s.get_char(4) == 'e' {
        return Some(Code::Backquote);
    }
    if len == 1 && s.get_char(0) == '`' {
        return Some(Code::Backquote);
    }
    None
}

/// The code whose name or alias is exactly `s`.
fn code_from_name(s: &str) -> (r: Option<Code>)
    ensures
        r == code_of_name(s@),
{
    if let Some(c) = letter_from_name(s) {
        return Some(c);
    }
    if let Some(c) = digit_from_name(s) {
        return Some(c);
    }
    if let Some(c) = function_from_name(s) {
        return Some(c);
    }
    if let Some(c) = editing_from_name(s) {
        return Some(c);
    }
    symbol_from_name(s)
}

/// The modifier whose name or alias is exactly `s`.
fn modifier_from_name(s: &str) -> (r: Option<Modifiers>)
    ensures
        r == modifier_of_name(s@),
{
    let len = s.unicode_len();
    if len == 4 && s.get_char(0) == 'c' && s.get_char(1) == 't' && s.get_char(2) == 'r' && s.get_char(3) == 'l' {
        return Some(Modifiers::only_control());
    }
    if len == 7 && s.get_char(0) == 'c' && s.get_char(1) == 'o' && s.get_char(2) == 'n' && s.get_char(3) == 't' && s.get_char(4) == 'r' && s.get_char(5) == 'o' && s.get_char(6) == 'l' {
        return Some(Modifiers::only_control());
    }
    if len == 3 && s.get_char(0) == 'a' && s.get_char(1) == 'l' && s.get_char(2) == 't' {
        return Some(Modifiers::only_alt());
    }
    if len == 6 && s.get_char(0) == 'o' && s.get_char(1) == 'p' && s.get_char(2) == 't' && s.get_char(3) == 'i' && s.get_char(4) == 'o' && s.get_char(5) == 'n' {
        return Some(Modifiers::only_alt());
    }
    if len == 5 && s.get_char(0) == 's' && s.get_char(1) == 'h' && s.get_char(2) == 'i' && s.get_char(3) == 'f' && s.get_char(4) == 't' {
        return Some(Modifiers::only_shift());
    }
    if len == 3 && s.get_char(0) == 'c' && s.get_char(1) == 'm' && s.get_char(2) == 'd' {
        return Some(Modifiers::only_super());
    }
    if len == 7 && s.get_char(0) == 'c' && s.get_char(1) == 'o' && s.get_char(2) == 'm' && s.get_char(3) == 'm' && s.get_char(4) == 'a' && s.get_char(5) == 'n' && s.get_char(6) == 'd' {
        return Some(Modifiers::only_super());
    }
    if len == 5 && s.get_char(0) == 's' && s.get_char(1) == 'u' && s.get_char(2) == 'p' && s.get_char(3) == 'e' && s.get_char(4) == 'r' {
        return Some(Modifiers::only_super());
    }
    if len == 3 && s.get_char(0) == 'w' && s.get_char(1) == 'i' && s.get_char(2) == 'n' {
        return Some(Modifiers::only_super());
    }
    if len == 7 && s.get_char(0) == 'w' && s.get_char(1) == 'i' && s.get_char(2) == 'n' && s.get_char(3) == 'd' && s.get_char(4) == 'o' && s.get_char(5) == 'w' && s.get_char(6) == 's' {
        return Some(Modifiers::only_super());
    }
    if len == 4 && s.get_char(0) == 'm' && s.get_char(1) == 'e' && s.get_char(2) == 't' && s.get_char(3) == 'a' {
        return Some(Modifiers::only_super());
    }
    None

}

/// Parse a key code from one piece of a key string, ignoring case.
///
/// A piece that is already a name is taken as it is; any other piece is compared in lower case.
fn parse_code(s: &str) -> (r: Result<Code, Error>)
    ensures
        match lookup_code(s@) {
            Some(c) => r == Ok::<Code, Error>(c),
            None => r matches Err(Error::InvalidKey(m)) && m@ == "Unknown key code: "@ + s@,
        },
{
    match code_from_name(s) {
        Some(c) => Ok(c),
        None => {
            let lower = lowercase(s);
            match code_from_name(lower.as_str()) {
                Some(c) => Ok(c),
                None => Err(Error::InvalidKey(String::from_str("Unknown key code: ").concat(s))),
            }
        },
    }
}

/// Parse a modifier from one piece of a key string, ignoring case.
fn parse_modifier(s: &str) -> (r: Option<Modifiers>)
    ensures
        r == lookup_modifier(s@),
{
    match modifier_from_name(s) {
        Some(m) => Some(m),
        None => {
            let lower = lowercase(s);
            modifier_from_name(lower.as_str())
        },
    }
}

/// The name under which a code is written.
fn format_code(code: &Code) -> (r: &'static str)
    ensures
        r@ == code_name(*code),
{
    match code {
        Code::KeyA => {
            proof {
                reveal_strlit("a");
            }
            "a"
        },
        Code::KeyB => {
            proof {
                reveal_strlit("b");
            }
            "b"
        },
        Code::KeyC => {
            proof {
                reveal_strlit("c");
            }
            "c"
        },
        Code::KeyD => {
            proof {
                reveal_strlit("d");
            }
            "d"
        },
        Code::KeyE => {
            proof {
                reveal_strlit("e");
            }
            "e"
        },
        Code::KeyF => {
            proof {
                reveal_strlit("f");
            }
            "f"
        },
        Code::KeyG => {
            proof {
                reveal_strlit("g");
            }
            "g"
        },
        Code::KeyH => {
            proof {
                reveal_strlit("h");
            }
            "h"
        },
        Code::KeyI => {
            proof {
                reveal_strlit("i");
            }
            "i"
        },
        Code::KeyJ => {
            proof {
                reveal_strlit("j");
            }
            "j"
        },
        Code::KeyK => {
            proof {
                reveal_strlit("k");
            }
            "k"
        },
        Code::KeyL => {
            proof {
                reveal_strlit("l");
            }
            "l"
        },
        Code::KeyM => {
            proof {
                reveal_strlit("m");
            }
            "m"
        },
        Code::KeyN => {
            proof {
                reveal_strlit("n");
            }
            "n"
        },
        Code::KeyO => {
            proof {
                reveal_strlit("o");
            }
            "o"
        },
        Code::KeyP => {
            proof {
                reveal_strlit("p");
            }
            "p"
        },
        Code::KeyQ => {
            proof {
                reveal_strlit("q");
            }
            "q"
        },
        Code::KeyR => {
            proof {
                reveal_strlit("r");
            }
            "r"
        },
        Code::KeyS => {
            proof {
                reveal_strlit("s");
            }
            "s"
        },
        Code::KeyT => {
            proof {
                reveal_strlit("t");
            }
            "t"
        },
        Code::KeyU => {
            proof {
                reveal_strlit("u");
            }
            "u"
        },
        Code::KeyV => {
            proof {
                reveal_strlit("v");
            }
            "v"
        },
        Code::KeyW => {
            proof {
                reveal_strlit("w");
            }
            "w"
        },
        Code::KeyX => {
            proof {
                reveal_strlit("x");
            }
            "x"
        },
        Code::KeyY => {
            proof {
                reveal_strlit("y");
            }
            "y"
        },
        Code::KeyZ => {
            proof {
                reveal_strlit("z");
            }
            "z"
        },
        Code::Digit0 => {
            proof {
                reveal_strlit("0");
            }
            "0"
        },
        Code::Digit1 => {
            proof {
                reveal_strlit("1");
            }
            "1"
        },
        Code::Digit2 => {
            proof {
                reveal_strlit("2");
            }
            "2"
        },
        Code::Digit3 => {
            proof {
                reveal_strlit("3");
            }
            "3"
        },
        Code::Digit4 => {
            proof {
                reveal_strlit("4");
            }
            "4"
        },
        Code::Digit5 => {
            proof {
                reveal_strlit("5");
            }
            "5"
        },
        Code::Digit6 => {
            proof {
                reveal_strlit("6");
            }
            "6"
        },
        Code::Digit7 => {
            proof {
                reveal_strlit("7");
            }
            "7"
        },
        Code::Digit8 => {
            proof {
                reveal_strlit("8");
            }
            "8"
        },
        Code::Digit9 => {
            proof {
                reveal_strlit("9");
            }
            "9"
        },
        Code::F1 => {
            proof {
                reveal_strlit("f1");
            }
            "f1"
        },
        Code::F2 => {
            proof {
                reveal_strlit("f2");
            }
            "f2"
        },
        Code::F3 => {
            proof {
                reveal_strlit("f3");
            }
            "f3"
        },
        Code::F4 => {
            proof {
                reveal_strlit("f4");
            }
            "f4"
        },
        Code::F5 => {
            proof {
                reveal_strlit("f5");
            }
            "f5"
        },
        Code::F6 => {
            proof {
                reveal_strlit("f6");
            }
            "f6"
        },
        Code::F7 => {
            proof {
                reveal_strlit("f7");
            }
            "f7"
        },
        Code::F8 => {
            proof {
                reveal_strlit("f8");
            }
            "f8"
        },
        Code::F9 => {
            proof {
                reveal_strlit("f9");
            }
            "f9"
        },
        Code::F10 => {
            proof {
                reveal_strlit("f10");
            }
            "f10"
        },
        Code::F11 => {
            proof {
                reveal_strlit("f11");
            }
            "f11"
        },
        Code::F12 => {
            proof {
                reveal_strlit("f12");
            }
            "f12"
        },
        Code::Escape => {
            proof {
                reveal_strlit("escape");
            }
            "escape"
        },
        Code::Space => {
            proof {
                reveal_strlit("space");
            }
            "space"
        },
        Code::Enter => {
            proof {
                reveal_strlit("enter");
            }
            "enter"
        },
        Code::Tab => {
            proof {
                reveal_strlit("tab");
            }
            "tab"
        },
        Code::Backspace => {
            proof {
                reveal_strlit("backspace");
            }
            "backspace"
        },
        Code::Delete => {
            proof {
                reveal_strlit("delete");
            }
            "delete"
        },
        Code::Insert => {
            proof {
                reveal_strlit("insert");
            }
            "insert"
        },
        Code::Home => {
            proof {
                reveal_strlit("home");
            }
            "home"
        },
        Code::End => {
            proof {
                reveal_strlit("end");
            }
            "end"
        },
        Code::PageUp => {
            proof {
                reveal_strlit("pageup");
            }
            "pageup"
        },
        Code::PageDown => {
            proof {
                reveal_strlit("pagedown");
            }
            "pagedown"
        },
        Code::ArrowLeft => {
            proof {
                reveal_strlit("left");
            }
            "left"
        },
        Code::ArrowRight => {
            proof {
                reveal_strlit("right");
            }
            "right"
        },
        Code::ArrowUp => {
            proof {
                reveal_strlit("up");
            }
            "up"
        },
        Code::ArrowDown => {
            proof {
                reveal_strlit("down");
            }
            "down"
        },
        Code::Minus => {
            proof {
                reveal_strlit("minus");
            }
            "minus"
        },
        Code::Equal => {
            proof {
                reveal_strlit("equal");
            }
            "equal"
        },
        Code::BracketLeft => {
            proof {
                reveal_strlit("bracketleft");
            }
            "bracketleft"
        },
        Code::BracketRight => {
            proof {
                reveal_strlit("bracketright");
            }
            "bracketright"
        },
        Code::Backslash => {
            proof {
                reveal_strlit("backslash");
            }
            "backslash"
        },
        Code::Semicolon => {
            proof {
                reveal_strlit("semicolon");
            }
            "semicolon"
        },
        Code::Quote => {
            proof {
                reveal_strlit("quote");
            }
            "quote"
        },
        Code::Comma => {
            proof {
                reveal_strlit("comma");
            }
            "comma"
        },
        Code::Period => {
            proof {
                reveal_strlit("period");
            }
            "period"
        },
        Code::Slash => {
            proof {
                reveal_strlit("slash");
            }
            "slash"
        },
        Code::Backquote => {
            proof {
                reveal_strlit("backquote");
            }
            "backquote"
        },
    }
}

impl Key {
    /// A key with the given code and modifiers.
    pub fn new(code: Code, modifiers: Option<Modifiers>) -> (r: Key)
        ensures
            r == (Key { modifiers, code }),
    {
        Key { code, modifiers }
    }

    /// Parse a key combination such as `"a"`, `"ctrl+a"` or `"cmd+shift+a"`.
    ///
    /// Pieces are separated by `'+'` and trimmed; the last is the key code, the others are
    /// modifiers. Names are matched without regard to case, and aliases such as `control`,
    /// `option`, `command` or `win` are accepted.
    pub fn parse(s: &str) -> (r: Result<Key, Error>)
        ensures
            parsed_as(s@, r),
    {
        let raw = split_plus_slices(s);
        let ghost pieces = key_pieces(s@);
        let mut parts: Vec<&str> = Vec::new();
        let mut i: usize = 0;
        while i < raw.len()
            invariant
                i <= raw@.len(),
                raw@.map_values(|p: &str| p@) == split_plus(s@),
                pieces == split_plus(s@).map_values(|p: Seq<char>| trimmed(p)),
                parts@.len() == i,
                forall|k: int| 0 <= k < i ==> (#[trigger] parts@[k])@ == pieces[k],
            decreases raw@.len() - i,
        {
            assert(raw@[i as int]@ == split_plus(s@)[i as int]);
            parts.push(trim(raw[i]));
            i = i + 1;
        }
        assert(parts@.len() == pieces.len());
        let last = parts[parts.len() - 1];
        let code = match parse_code(last) {
            Ok(c) => c,
            Err(e) => {
                return Err(e);
            },
        };
        assert(last@ == pieces.last());
        if parts.len() == 1 {
            return Ok(Key { modifiers: None, code });
        }
        let ghost mods_pieces = pieces.drop_last();
        let mut mods = Modifiers::empty();
        let mut j: usize = 0;
        assert(mods_pieces.take(0) =~= Seq::<Seq<char>>::empty());
        while j < parts.len() - 1
            invariant
                parts@.len() == pieces.len(),
                parts@.len() > 1,
                mods_pieces == pieces.drop_last(),
                pieces == key_pieces(s@),
                lookup_code(pieces.last()) == Some(code),
                forall|k: int| 0 <= k < parts@.len() ==> (#[trigger] parts@[k])@ == pieces[k],
                j <= parts@.len() - 1,
                fold_modifiers(mods_pieces.take(j as int)) == Ok::<Modifiers, Seq<char>>(mods),
            decreases parts@.len() - j,
        {
            let part = parts[j];
            assert(mods_pieces.take(j + 1).drop_last() =~= mods_pieces.take(j as int));
            assert(mods_pieces.take(j + 1).last() == part@);
            match parse_modifier(part) {
                Some(m) => {
                    mods = mods.union(m);
                },
                None => {
                    proof {
                        assert(fold_modifiers(mods_pieces.take(j + 1)) == Err::<Modifiers, Seq<char>>(
                            part@,
                        ));
                        lemma_fold_error_persists(mods_pieces, j as int + 1);
                    }
                    return Err(
                        Error::InvalidKey(String::from_str("Unknown modifier: ").concat(part)),
                    );
                },
            }
            j = j + 1;
        }
        assert(mods_pieces.take(j as int) =~= mods_pieces);
        Ok(Key { modifiers: Some(mods), code })
    }

    /// The canonical text of the key, modifiers first in the order ctrl, alt, shift, cmd.
    pub fn to_string(&self) -> (r: String)
        ensures
            r@ == key_text(*self),
    {
        let mut out = String::new();
        let ghost names: Seq<Seq<char>> = Seq::empty();
        if let Some(m) = self.modifiers {
            if m.control {
                proof {
                    reveal_strlit("ctrl");
                    reveal_strlit("+");
                    lemma_plus_prefix_push(names, seq!['c', 't', 'r', 'l']);
                    names = names.push(seq!['c', 't', 'r', 'l']);
                }
                out.append("ctrl");
                out.append("+");
            }
            assert(out@ == plus_prefix(names));
            if m.alt {
                proof {
                    reveal_strlit("alt");
                    reveal_strlit("+");
                    lemma_plus_prefix_push(names, seq!['a', 'l', 't']);
                    names = names.push(seq!['a', 'l', 't']);
                }
                out.append("alt");
                out.append("+");
            }
            assert(out@ == plus_prefix(names));
            if m.shift {
                proof {
                    reveal_strlit("shift");
                    reveal_strlit("+");
                    lemma_plus_prefix_push(names, seq!['s', 'h', 'i', 'f', 't']);
                    names = names.push(seq!['s', 'h', 'i', 'f', 't']);
                }
                out.append("shift");
                out.append("+");
            }
            assert(out@ == plus_prefix(names));
            if m.super_key {
                proof {
                    reveal_strlit("cmd");
                    reveal_strlit("+");
                    lemma_plus_prefix_push(names, seq!['c', 'm', 'd']);
                    names = names.push(seq!['c', 'm', 'd']);
                }
                out.append("cmd");
                out.append("+");
            }
            assert(out@ == plus_prefix(names));
            assert(names == modifier_names(m));
        }
        assert(out@ == plus_prefix(prefix_names(self.modifiers)));
        out.append(format_code(&self.code));
        out
    }
}

impl core::str::FromStr for Key {
    type Err = Error;

    fn from_str(s: &str) -> Result<Key, Error> {
        Key::parse(s)
    }
}

proof fn lemma_plus_prefix_push(ns: Seq<Seq<char>>, n: Seq<char>)
    ensures
        plus_prefix(ns.push(n)) == plus_prefix(ns) + n + seq!['+'],
{
    assert(ns.push(n).drop_last() =~= ns);
}

/// Once a prefix of the pieces names no modifier, every longer prefix fails too.
proof fn lemma_fold_error_persists(ps: Seq<Seq<char>>, n: int)
    requires
        0 <= n <= ps.len(),
        fold_modifiers(ps.take(n)) is Err,
    ensures
        fold_modifiers(ps) == fold_modifiers(ps.take(n)),
    decreases ps.len() - n,
{
    if n < ps.len() {
        assert(ps.take(n + 1).drop_last() =~= ps.take(n));
        lemma_fold_error_persists(ps, n + 1);
    } else {
        assert(ps.take(n) =~= ps);
    }
}

/// Whether every character of a name is a lower-case ASCII letter or a digit.
pub open spec fn is_plain_name(n: Seq<char>) -> bool {
    forall|i: int| 0 <= i < n.len() ==> ('a' <= #[trigger] n[i] <= 'z' || '0' <= n[i] <= '9')
}

proof fn lemma_plain_name(n: Seq<char>)
    requires
        is_plain_name(n),
    ensures
        no_plus(n),
        no_white_space(n),
{
    assert forall|i: int| 0 <= i < n.len() implies #[trigger] n[i] != '+' && !crate::text::is_white_space(
        n[i],
    ) by {
        assert('a' <= n[i] <= 'z' || '0' <= n[i] <= '9');
    }
}

/// Every code's name is plain and denotes that code.
#[verifier::spinoff_prover]
pub proof fn lemma_code_name(c: Code)
    ensures
        code_of_name(code_name(c)) == Some(c),
        is_plain_name(code_name(c)),
{
    match c {
        Code::KeyA => {},
        Code::KeyB => {},
        Code::KeyC => {},
        Code::KeyD => {},
        Code::KeyE => {},
        Code::KeyF => {},
        Code::KeyG => {},
        Code::KeyH => {},
        Code::KeyI => {},
        Code::KeyJ => {},
        Code::KeyK => {},
        Code::KeyL => {},
        Code::KeyM => {},
        Code::KeyN => {},
        Code::KeyO => {},
        Code::KeyP => {},
        Code::KeyQ => {},
        Code::KeyR => {},
        Code::KeyS => {},
        Code::KeyT => {},
        Code::KeyU => {},
        Code::KeyV => {},
        Code::KeyW => {},
        Code::KeyX => {},
        Code::KeyY => {},
        Code::KeyZ => {},
        Code::Digit0 => {},
        Code::Digit1 => {},
        Code::Digit2 => {},
        Code::Digit3 => {},
        Code::Digit4 => {},
        Code::Digit5 => {},
        Code::Digit6 => {},
        Code::Digit7 => {},
        Code::Digit8 => {},
        Code::Digit9 => {},
        Code::F1 => {},
        Code::F2 => {},
        Code::F3 => {},
        Code::F4 => {},
        Code::F5 => {},
        Code::F6 => {},
        Code::F7 => {},
        Code::F8 => {},
        Code::F9 => {},
        Code::F10 => {},
        Code::F11 => {},
        Code::F12 => {},
        Code::Escape => {},
        Code::Space => {},
        Code::Enter => {},
        Code::Tab => {},
        Code::Backspace => {},
        Code::Delete => {},
        Code::Insert => {},
        Code::Home => {},
        Code::End => {},
        Code::PageUp => {},
        Code::PageDown => {},
        Code::ArrowLeft => {},
        Code::ArrowRight => {},
        Code::ArrowUp => {},
        Code::ArrowDown => {},
        Code::Minus => {},
        Code::Equal => {},
        Code::BracketLeft => {},
        Code::BracketRight => {},
        Code::Backslash => {},
        Code::Semicolon => {},
        Code::Quote => {},
        Code::Comma => {},
        Code::Period => {},
        Code::Slash => {},
        Code::Backquote => {},
    }
}

proof fn lemma_modifier_names(m: Modifiers)
    ensures
        fold_modifiers(modifier_names(m)) == Ok::<Modifiers, Seq<char>>(m),
        forall|i: int|
            0 <= i < modifier_names(m).len() ==> is_plain_name(#[trigger] modifier_names(m)[i]),
        modifier_names(m).len() == 0 <==> m.spec_is_empty(),
{
    let e = Seq::<Seq<char>>::empty();
    let a = if m.control {
        e.push(seq!['c', 't', 'r', 'l'])
    } else {
        e
    };
    let b = if m.alt {
        a.push(seq!['a', 'l', 't'])
    } else {
        a
    };
    let c = if m.shift {
        b.push(seq!['s', 'h', 'i', 'f', 't'])
    } else {
        b
    };
    let d = if m.super_key {
        c.push(seq!['c', 'm', 'd'])
    } else {
        c
    };
    assert(seq![seq!['c', 't', 'r', 'l']] =~= e.push(seq!['c', 't', 'r', 'l']));
    assert(d == modifier_names(m));
    assert(e.push(seq!['c', 't', 'r', 'l']).drop_last() =~= e);
    assert(a.push(seq!['a', 'l', 't']).drop_last() =~= a);
    assert(b.push(seq!['s', 'h', 'i', 'f', 't']).drop_last() =~= b);
    assert(c.push(seq!['c', 'm', 'd']).drop_last() =~= c);
    let z = Modifiers { control: false, alt: false, shift: false, super_key: false };
    assert(fold_modifiers(e) == Ok::<Modifiers, Seq<char>>(z));
    assert(fold_modifiers(a) == Ok::<Modifiers, Seq<char>>(
        Modifiers { control: m.control, alt: false, shift: false, super_key: false },
    ));
    assert(fold_modifiers(b) == Ok::<Modifiers, Seq<char>>(
        Modifiers { control: m.control, alt: m.alt, shift: false, super_key: false },
    ));
    assert(fold_modifiers(c) == Ok::<Modifiers, Seq<char>>(
        Modifiers { control: m.control, alt: m.alt, shift: m.shift, super_key: false },
    ));
}

proof fn lemma_plus_prefix_front(ns: Seq<Seq<char>>)
    requires
        ns.len() > 0,
    ensures
        plus_prefix(ns) == ns[0] + seq!['+'] + plus_prefix(ns.drop_first()),
    decreases ns.len(),
{
    if ns.len() == 1 {
        assert(ns.drop_last() =~= Seq::<Seq<char>>::empty());
        assert(ns.drop_first() =~= Seq::<Seq<char>>::empty());
        assert(plus_prefix(ns) =~= ns[0] + seq!['+'] + plus_prefix(ns.drop_first()));
    } else {
        lemma_plus_prefix_front(ns.drop_last());
        assert(ns.drop_last().drop_first() =~= ns.drop_first().drop_last());
        assert(ns.drop_first().last() == ns.last());
        assert(ns.drop_last()[0] == ns[0]);
        assert(plus_prefix(ns) =~= ns[0] + seq!['+'] + plus_prefix(ns.drop_first()));
    }
}

proof fn lemma_split_prefix(ns: Seq<Seq<char>>, c: Seq<char>)
    requires
        forall|i: int| 0 <= i < ns.len() ==> no_plus(#[trigger] ns[i]),
        no_plus(c),
    ensures
        split_plus(plus_prefix(ns) + c) == ns.push(c),
    decreases ns.len(),
{
    if ns.len() == 0 {
        assert(plus_prefix(ns) + c =~= c);
        lemma_split_single(c);
        assert(ns.push(c) =~= seq![c]);
    } else {
        let tail = ns.drop_first();
        lemma_plus_prefix_front(ns);
        assert(forall|i: int| 0 <= i < tail.len() ==> #[trigger] tail[i] == ns[i + 1]);
        lemma_split_prefix(tail, c);
        assert(plus_prefix(ns) + c =~= ns[0] + seq!['+'] + (plus_prefix(tail) + c));
        assert(no_plus(ns[0]));
        lemma_split_head(ns[0], plus_prefix(tail) + c);
        assert(seq![ns[0]] + tail.push(c) =~= ns.push(c));
    }
}

/// Formatting a key and parsing the text gives the key back.
///
/// This holds of every key whose modifiers are absent or not empty, the form that parsing
/// produces: a key with an empty modifier set is written like the same key without modifiers.
pub proof fn lemma_parse_format_round_trip(k: Key)
    requires
        is_canonical(k),
    ensures
        parse_key(key_text(k)) == Ok::<Key, Seq<char>>(k),
{
    let ns = prefix_names(k.modifiers);
    let c = code_name(k.code);
    lemma_code_name(k.code);
    lemma_plain_name(c);
    if let Some(m) = k.modifiers {
        lemma_modifier_names(m);
    }
    assert forall|i: int| 0 <= i < ns.len() implies no_plus(#[trigger] ns[i]) && no_white_space(
        ns[i],
    ) by {
        lemma_plain_name(ns[i]);
    }
    lemma_split_prefix(ns, c);
    let ps = ns.push(c);
    assert forall|i: int| 0 <= i < ps.len() implies trimmed(#[trigger] ps[i]) == ps[i] by {
        if i < ns.len() {
            lemma_trimmed_unchanged(ns[i]);
        } else {
            lemma_trimmed_unchanged(c);
        }
    }
    assert(key_pieces(key_text(k)) =~= ps);
    assert(ps.last() == c);
    assert(ps.drop_last() =~= ns);
}

} // verus!

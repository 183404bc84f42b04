//! Key presses as plain values.

use vstd::prelude::*;

verus! {

/// No modifier key is held.
pub const MODIFIER_NONE: u8 = 0;

/// The shift key is held.
pub const MODIFIER_SHIFT: u8 = 1;

/// The control key is held.
pub const MODIFIER_CONTROL: u8 = 2;

/// The alt key is held.
pub const MODIFIER_ALT: u8 = 4;

/// The super key is held.
pub const MODIFIER_SUPER: u8 = 8;

/// The hyper key is held.
pub const MODIFIER_HYPER: u8 = 16;

/// The meta key is held.
pub const MODIFIER_META: u8 = 32;

/// A media key.
#[derive(Debug, Copy, Clone, PartialEq, Eq, Hash, Structural)]
pub enum MediaKeyCode {
    Play,
    Pause,
    PlayPause,
    Reverse,
    Stop,
    FastForward,
    Rewind,
    TrackNext,
    TrackPrevious,
    Record,
    LowerVolume,
    RaiseVolume,
    MuteVolume,
}

/// A modifier key pressed on its own.
#[derive(Debug, Copy, Clone, PartialEq, Eq, Hash, Structural)]
pub enum ModifierKeyCode {
    LeftShift,
    LeftControl,
    LeftAlt,
    LeftSuper,
    LeftHyper,
    LeftMeta,
    RightShift,
    RightControl,
    RightAlt,
    RightSuper,
    RightHyper,
    RightMeta,
    IsoLevel3Shift,
    IsoLevel5Shift,
}

/// The key that was pressed.
#[derive(Debug, Copy, Clone, PartialEq, Eq, Hash, Structural)]
pub enum KeyCode {
    Backspace,
    Enter,
    Left,
    Right,
    Up,
    Down,
    Home,
    End,
    PageUp,
    PageDown,
    Tab,
    BackTab,
    Delete,
    Insert,
    F(u8),
    Char(char),
    Null,
    Esc,
    CapsLock,
    ScrollLock,
    NumLock,
    PrintScreen,
    Pause,
    Menu,
    KeypadBegin,
    Media(MediaKeyCode),
    Modifier(ModifierKeyCode),
}

/// One key press: the key, and the modifier keys held with it as a set of
/// bits.
#[derive(Debug, Copy, Clone, PartialEq, Eq, Hash, Structural)]
pub struct KeyEvent {
    pub code: KeyCode,
    pub modifiers: u8,
}

impl KeyEvent {
    /// The press of `code` with `modifiers` held.
    pub fn new(code: KeyCode, modifiers: u8) -> (key: KeyEvent)
        ensures
            key == (KeyEvent { code, modifiers }),
    {
        KeyEvent { code, modifiers }
    }

    /// The press of the character key `c` with no modifier held.
    pub fn char(c: char) -> (key: KeyEvent)
        ensures
            key == (KeyEvent { code: KeyCode::Char(c), modifiers: MODIFIER_NONE }),
    {
        KeyEvent { code: KeyCode::Char(c), modifiers: MODIFIER_NONE }
    }
}

/// Whether `c` is one of the capital letters `A` to `Z`.
pub open spec fn is_ascii_upper(c: char) -> bool {
    65 <= c as int <= 90
}

/// The capital letter for a letter `a` to `z`; any other character itself.
pub open spec fn to_ascii_upper(c: char) -> char {
    if 97 <= c as int <= 122 {
        (c as int - 32) as char
    } else {
        c
    }
}

impl KeyEvent {
    /// The press with shift and capital letters brought in line: a capital
    /// letter counts as pressed with shift, and a letter pressed with shift
    /// counts as its capital. Terminals report the one or the other.
    pub open spec fn normalize_spec(self) -> KeyEvent {
        match self.code {
            KeyCode::Char(c) => if is_ascii_upper(c) {
                KeyEvent { code: self.code, modifiers: self.modifiers | MODIFIER_SHIFT }
            } else if self.modifiers & MODIFIER_SHIFT != 0 {
                KeyEvent { code: KeyCode::Char(to_ascii_upper(c)), modifiers: self.modifiers }
            } else {
                self
            },
            _ => self,
        }
    }

    /// Brings shift and capital letters in line.
    pub fn normalize_case(self) -> (key: KeyEvent)
        ensures
            key == self.normalize_spec(),
    {
        match self.code {
            KeyCode::Char(c) => {
                if 'A' <= c && c <= 'Z' {
                    KeyEvent { code: self.code, modifiers: self.modifiers | MODIFIER_SHIFT }
                } else if self.modifiers & MODIFIER_SHIFT != 0 {
                    let upper = if 'a' <= c && c <= 'z' {
                        ((c as u8) - 32) as char
                    } else {
                        c
                    };
                    KeyEvent { code: KeyCode::Char(upper), modifiers: self.modifiers }
                } else {
                    self
                }
            },
            _ => self,
        }
    }

    /// A press that is brought in line stays as it is when it is brought in
    /// line again.
    pub proof fn lemma_normalize_idempotent(self)
        ensures
            self.normalize_spec().normalize_spec() == self.normalize_spec(),
    {
        let m = self.modifiers;
        assert((m | 1u8) | 1u8 == m | 1u8) by (bit_vector);
        assert((m | 1u8) & 1u8 != 0u8) by (bit_vector);
        assert(m & 1u8 != 0u8 ==> m | 1u8 == m) by (bit_vector);
    }
}

/// Whether `a` is a prefix of `b`; a sequence is a prefix of itself.
pub open spec fn is_prefix(a: Seq<KeyEvent>, b: Seq<KeyEvent>) -> bool {
    a.len() <= b.len() && b.take(a.len() as int) == a
}

/// Whether two key sequences are the same.
pub fn keys_equal(a: &Vec<KeyEvent>, b: &Vec<KeyEvent>) -> (r: bool)
    ensures
        r == (a@ == b@),
{
    let r = a.len() == b.len() && keys_prefix(a, b);
    proof {
        if a.len() == b.len() {
            assert(b@.take(a.len() as int) =~= b@);
        }
    }
    r
}

/// Whether `a` is a prefix of `b`.
pub fn keys_prefix(a: &Vec<KeyEvent>, b: &Vec<KeyEvent>) -> (r: bool)
    ensures
        r == is_prefix(a@, b@),
{
    if a.len() > b.len() {
        return false;
    }
    let mut i: usize = 0;
    while i < a.len()
        invariant
            i <= a.len() <= b.len(),
            b@.take(i as int) == a@.take(i as int),
        decreases a.len() - i,
    {
        if a[i] != b[i] {
            proof {
                assert(b@.take(a.len() as int)[i as int] != a@[i as int]);
            }
            return false;
        }
        proof {
            assert(b@.take(i + 1) =~= b@.take(i as int).push(b@[i as int]));
            assert(a@.take(i + 1) =~= a@.take(i as int).push(a@[i as int]));
        }
        i += 1;
    }
    proof {
        assert(a@.take(a.len() as int) =~= a@);
        if a.len() == b.len() {
            assert(b@.take(a.len() as int) =~= b@);
        }
    }
    true
}

} // verus!

use vstd::prelude::*;

verus! {

/// A key on the keyboard.
#[derive(Debug, Clone, Copy, PartialEq, Eq, Structural)]
pub enum KeyCode {
    Backspace,
    Enter,
    Left,
    Right,
    Up,
    Down,
    Home,
    End,
    PageUp,
    PageDown,
    Tab,
    BackTab,
    Delete,
    Insert,
    F(u8),
    Char(char),
    Null,
    Esc,
    CapsLock,
    ScrollLock,
    NumLock,
    PrintScreen,
    Pause,
    Menu,
    KeypadBegin,
    Media,
    Modifier,
}

/// The modifier keys held down with a key or a mouse action.
#[derive(Debug, Default, Clone, Copy, PartialEq, Eq, Structural)]
pub struct KeyModifiers {
    pub shift: bool,
    pub control: bool,
    pub alt: bool,
    pub super_key: bool,
    pub hyper: bool,
    pub meta: bool,
}

impl KeyModifiers {
    /// No modifier held.
    pub fn none() -> (r: Self)
        ensures
            r == (KeyModifiers { shift: false, control: false, alt: false, super_key: false, hyper: false, meta: false }),
    {
        KeyModifiers { shift: false, control: false, alt: false, super_key: false, hyper: false, meta: false }
    }

    /// Only `Shift` held.
    pub fn shift() -> (r: Self)
        ensures
            r == (KeyModifiers { shift: true, ..KeyModifiers::spec_none() }),
    {
        KeyModifiers { shift: true, control: false, alt: false, super_key: false, hyper: false, meta: false }
    }

    /// Only `Control` held.
    pub fn control() -> (r: Self)
        ensures
            r == (KeyModifiers { control: true, ..KeyModifiers::spec_none() }),
    {
        KeyModifiers { shift: false, control: true, alt: false, super_key: false, hyper: false, meta: false }
    }

    /// Only `Alt` held.
    pub fn alt() -> (r: Self)
        ensures
            r == (KeyModifiers { alt: true, ..KeyModifiers::spec_none() }),
    {
        KeyModifiers { shift: false, control: false, alt: true, super_key: false, hyper: false, meta: false }
    }

    /// Only `Shift` held.
    pub open spec fn spec_shift() -> Self {
        KeyModifiers { shift: true, ..KeyModifiers::spec_none() }
    }

    /// No modifier held.
    pub open spec fn spec_none() -> Self {
        KeyModifiers { shift: false, control: false, alt: false, super_key: false, hyper: false, meta: false }
    }
}

/// A key together with the modifiers held with it.
#[derive(Debug, Clone, Copy, PartialEq, Eq, Structural)]
pub struct KeyCombination {
    pub code: KeyCode,
    pub modifiers: KeyModifiers,
}

impl KeyCombination {
    /// Creates new [`KeyCombination`] instance.
    pub fn new(code: KeyCode, modifiers: KeyModifiers) -> (r: Self)
        ensures
            r.code == code,
            r.modifiers == modifiers,
    {
        KeyCombination { code, modifiers }
    }
}

/// The `Control` + character combination.
pub open spec fn ctrl_key(c: char) -> KeyCombination {
    KeyCombination { code: KeyCode::Char(c), modifiers: KeyModifiers { control: true, ..KeyModifiers::spec_none() } }
}

/// Returns `true` when `key` is the `Control` + `c` combination.
pub fn is_ctrl_key(key: &KeyCombination, c: char) -> (r: bool)
    ensures
        r == (*key == ctrl_key(c)),
{
    match key.code {
        KeyCode::Char(k) => k == c && key.modifiers == KeyModifiers::control(),
        _ => false,
    }
}

/// The kind of a mouse action.
#[derive(Debug, Clone, Copy, PartialEq, Eq, Structural)]
pub enum MouseEventKind {
    LeftClick,
    LeftDoubleClick,
    LeftTripleClick,
    LeftUp,
    LeftDrag,
    MiddleClick,
    MiddleUp,
    MiddleDrag,
    RightClick,
    RightUp,
    RightDrag,
    Moved,
    ScrollUp,
    ScrollDown,
    ScrollLeft,
    ScrollRight,
}

/// A mouse action at a terminal cell.
#[derive(Debug, Clone, Copy, PartialEq, Eq, Structural)]
pub struct MouseEvent {
    pub kind: MouseEventKind,
    pub column: u16,
    pub row: u16,
    pub modifiers: KeyModifiers,
}

/// An input event delivered to the UI.
#[derive(Debug, Clone, Copy, PartialEq, Eq, Structural)]
pub enum TuiEvent {
    Key(KeyCombination),
    Mouse(MouseEvent),
    Command,
}

/// Whether a UI event was consumed.
#[derive(Debug, Clone, Copy, PartialEq, Eq, Structural)]
pub enum ResponseEvent {
    Handled,
    NotHandled,
}

} // verus!

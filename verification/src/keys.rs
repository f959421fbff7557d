use vstd::prelude::*;

verus! {

/// Modifier keys held during a key event.
#[derive(PartialEq, Eq, Structural, Clone, Copy, Debug)]
pub struct KeyModifiers {
    pub shift: bool,
    pub control: bool,
    pub alt: bool,
}

impl KeyModifiers {
    pub open spec fn is_none(self) -> bool {
        !self.shift && !self.control && !self.alt
    }

    pub open spec fn is_control_only(self) -> bool {
        !self.shift && self.control && !self.alt
    }

    pub open spec fn is_shift_only(self) -> bool {
        self.shift && !self.control && !self.alt
    }

    pub fn none() -> (r: KeyModifiers)
        ensures
            r.is_none(),
    {
        KeyModifiers { shift: false, control: false, alt: false }
    }

    pub fn control() -> (r: KeyModifiers)
        ensures
            r.is_control_only(),
    {
        KeyModifiers { shift: false, control: true, alt: false }
    }

    pub fn shift() -> (r: KeyModifiers)
        ensures
            r.is_shift_only(),
    {
        KeyModifiers { shift: true, control: false, alt: false }
    }
}

/// Which key a key event is about.
#[derive(PartialEq, Eq, Structural, Clone, Copy, Debug)]
pub enum KeyCode {
    Backspace,
    Enter,
    Left,
    Right,
    Up,
    Down,
    Home,
    End,
    PageUp,
    PageDown,
    Tab,
    BackTab,
    Delete,
    Insert,
    Esc,
    Char(char),
    Other,
}

/// Whether the key was pressed, repeated or released.
#[derive(PartialEq, Eq, Structural, Clone, Copy, Debug)]
pub enum KeyEventKind {
    Press,
    Repeat,
    Release,
}

/// One key event from the terminal.
#[derive(PartialEq, Eq, Structural, Clone, Copy, Debug)]
pub struct KeyEvent {
    pub code: KeyCode,
    pub modifiers: KeyModifiers,
    pub kind: KeyEventKind,
}

impl KeyEvent {
    pub fn press(code: KeyCode) -> (r: KeyEvent)
        ensures
            r.code == code,
            r.modifiers.is_none(),
            r.kind == KeyEventKind::Press,
    {
        KeyEvent { code, modifiers: KeyModifiers::none(), kind: KeyEventKind::Press }
    }
}

/// One normalized terminal event.
#[derive(Debug)]
pub enum InputEvent {
    Key(KeyEvent),
    Paste(String),
    Resize(u16, u16),
    FocusGained,
    FocusLost,
    Mouse,
}

impl InputEvent {
    /// An exact copy of the event.
    pub fn duplicate(&self) -> (r: InputEvent)
        ensures
            r == *self,
    {
        match self {
            InputEvent::Key(k) => InputEvent::Key(*k),
            InputEvent::Paste(d) => InputEvent::Paste(d.clone()),
            InputEvent::Resize(c, r) => InputEvent::Resize(*c, *r),
            InputEvent::FocusGained => InputEvent::FocusGained,
            InputEvent::FocusLost => InputEvent::FocusLost,
            InputEvent::Mouse => InputEvent::Mouse,
        }
    }
}

} // verus!

//! Keys, input modes and the cycle that `Tab` walks through.

use vstd::prelude::*;

verus! {

/// Which text buffer receives the keys that are typed.
#[derive(Debug, Copy, Clone, PartialEq, Eq, Structural)]
pub enum InputMode {
    Normal,
    EditingSearch,
    EditingTitle,
    EditingLanguage,
    EditingCode,
}

/// What a key stands for. Keys that no command reads are `Other`.
#[derive(Debug, Copy, Clone, PartialEq, Eq, Structural)]
pub enum KeyCode {
    Backspace,
    Enter,
    Left,
    Up,
    Down,
    Tab,
    Esc,
    Char(char),
    Other,
}

/// The modifier keys held with a key: none, shift alone, control alone, or
/// any other combination.
#[derive(Debug, Copy, Clone, PartialEq, Eq, Structural)]
pub enum Modifiers {
    Plain,
    Shift,
    Control,
    Other,
}

/// One key press.
#[derive(Debug, Copy, Clone, PartialEq, Eq, Structural)]
pub struct Key {
    pub code: KeyCode,
    pub modifiers: Modifiers,
}

impl Key {
    /// A key pressed with the given modifiers.
    pub fn new(code: KeyCode, modifiers: Modifiers) -> (key: Key)
        ensures
            key == (Key { code, modifiers }),
    {
        Key { code, modifiers }
    }

    /// A key pressed with no modifier.
    pub fn plain(code: KeyCode) -> (key: Key)
        ensures
            key == (Key { code, modifiers: Modifiers::Plain }),
    {
        Key { code, modifiers: Modifiers::Plain }
    }

    /// A character key pressed with control alone.
    pub fn control(ch: char) -> (key: Key)
        ensures
            key == (Key { code: KeyCode::Char(ch), modifiers: Modifiers::Control }),
    {
        Key { code: KeyCode::Char(ch), modifiers: Modifiers::Control }
    }

    /// Whether this is the given key pressed with no modifier.
    pub open spec fn is_plain(self, code: KeyCode) -> bool {
        self.code == code && self.modifiers == Modifiers::Plain
    }

    /// Whether this is the given character pressed with control alone.
    pub open spec fn is_control(self, ch: char) -> bool {
        self.code == KeyCode::Char(ch) && self.modifiers == Modifiers::Control
    }
}

impl InputMode {
    /// Position of a mode in the cycle, counted from `Normal`.
    pub open spec fn index(self) -> int {
        match self {
            InputMode::Normal => 0,
            InputMode::EditingSearch => 1,
            InputMode::EditingTitle => 2,
            InputMode::EditingLanguage => 3,
            InputMode::EditingCode => 4,
        }
    }

    /// The mode at a position of the cycle; positions are taken modulo five.
    pub open spec fn at(i: int) -> InputMode {
        let k = i % 5;
        if k == 0 {
            InputMode::Normal
        } else if k == 1 {
            InputMode::EditingSearch
        } else if k == 2 {
            InputMode::EditingTitle
        } else if k == 3 {
            InputMode::EditingLanguage
        } else {
            InputMode::EditingCode
        }
    }

    /// The mode one step further in the cycle.
    pub open spec fn spec_next(self) -> InputMode {
        InputMode::at(self.index() + 1)
    }

    /// The mode one step back in the cycle.
    pub open spec fn spec_previous(self) -> InputMode {
        InputMode::at(self.index() + 4)
    }

    /// The name of a mode, as it is shown.
    pub open spec fn spec_name(self) -> Seq<char> {
        match self {
            InputMode::Normal => "Normal"@,
            InputMode::EditingSearch => "EditingSearch"@,
            InputMode::EditingTitle => "EditingTitle"@,
            InputMode::EditingLanguage => "EditingLanguage"@,
            InputMode::EditingCode => "EditingCode"@,
        }
    }

    /// The name of a mode, as it is shown.
    pub fn name(&self) -> (name: &'static str)
        ensures
            name@ == self.spec_name(),
    {
        match self {
            InputMode::Normal => "Normal",
            InputMode::EditingSearch => "EditingSearch",
            InputMode::EditingTitle => "EditingTitle",
            InputMode::EditingLanguage => "EditingLanguage",
            InputMode::EditingCode => "EditingCode",
        }
    }

    /// The mode after a key, as every mode treats it: `Tab` moves one step
    /// further in the cycle, `Esc` leaves for `Normal`, and every other key
    /// keeps the mode.
    pub open spec fn spec_after_edit_key(self, key: Key) -> InputMode {
        if key.is_plain(KeyCode::Tab) {
            self.spec_next()
        } else if key.is_plain(KeyCode::Esc) {
            InputMode::Normal
        } else {
            self
        }
    }

    /// The mode after a key: in `Normal`, `Enter` starts editing the title;
    /// everything else is as in [`InputMode::spec_after_edit_key`].
    pub open spec fn spec_on_key(self, key: Key) -> InputMode {
        if self == InputMode::Normal && key.is_plain(KeyCode::Enter) {
            InputMode::EditingTitle
        } else {
            self.spec_after_edit_key(key)
        }
    }

    /// The mode that follows this one when `key` is pressed.
    pub fn on_key(&self, key: &Key) -> (mode: InputMode)
        ensures
            mode == self.spec_on_key(*key),
    {
        match key.modifiers {
            Modifiers::Plain => match key.code {
                KeyCode::Tab => self.next_mode(),
                KeyCode::Esc => InputMode::Normal,
                KeyCode::Enter => match self {
                    InputMode::Normal => InputMode::EditingTitle,
                    _ => *self,
                },
                _ => *self,
            },
            _ => *self,
        }
    }

    /// The successor of a mode: `Normal`, `EditingSearch`, `EditingTitle`,
    /// `EditingLanguage`, `EditingCode`, and from there `Normal` again.
    pub fn next_mode(&self) -> (next: InputMode)
        ensures
            next == self.spec_next(),
    {
        match self {
            Self::Normal => Self::EditingSearch,
            Self::EditingSearch => Self::EditingTitle,
            Self::EditingTitle => Self::EditingLanguage,
            Self::EditingLanguage => Self::EditingCode,
            Self::EditingCode => Self::Normal,
        }
    }

    /// The predecessor of a mode in the same cycle.
    pub fn previous_mode(&self) -> (previous: InputMode)
        ensures
            previous == self.spec_previous(),
    {
        match self {
            Self::Normal => Self::EditingCode,
            Self::EditingSearch => Self::Normal,
            Self::EditingTitle => Self::EditingSearch,
            Self::EditingLanguage => Self::EditingTitle,
            Self::EditingCode => Self::EditingLanguage,
        }
    }
}

/// Five steps forward lead back to the mode they started from.
pub proof fn lemma_five_steps_close_the_cycle(mode: InputMode)
    ensures
        mode.spec_next().spec_next().spec_next().spec_next().spec_next() == mode,
{
}

/// A step forward and a step back undo each other, in either order.
pub proof fn lemma_next_and_previous_are_inverse(mode: InputMode)
    ensures
        mode.spec_next().spec_previous() == mode,
        mode.spec_previous().spec_next() == mode,
{
}

/// `Esc` leads to `Normal` from every mode, and `Tab` to the next mode.
pub proof fn lemma_escape_and_tab(mode: InputMode)
    ensures
        mode.spec_on_key(Key { code: KeyCode::Esc, modifiers: Modifiers::Plain })
            == InputMode::Normal,
        mode.spec_on_key(Key { code: KeyCode::Tab, modifiers: Modifiers::Plain })
            == mode.spec_next(),
{
}

} // verus!

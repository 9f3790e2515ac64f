//! Free-text editing: a buffer with a cursor; also used for paths.
use vstd::prelude::*;
use crate::text::{chars_of, string_of};
use crate::value::ConfigValue;
use crate::widget::{insert_at, remove_at, KeyCode, KeyEvent, WidgetResult, WidgetState};

verus! {

pub struct TextInput {
    buffer: Vec<char>,
    cursor_pos: usize,
    state: WidgetState,
    label: String,
}

/// The value a text buffer stands for.
pub open spec fn is_text(v: ConfigValue, buf: Seq<char>) -> bool {
    v matches ConfigValue::Text(s) && s@ == buf
}

/// `r` reports the text `buf` as changed.
pub open spec fn reports_change(r: WidgetResult, buf: Seq<char>) -> bool {
    r matches WidgetResult::Changed(v) && is_text(v, buf)
}

impl TextInput {
    /// What one key reports: the buffer on Enter, a cancel on Escape, the
    /// new buffer after an insertion or deletion, nothing otherwise.
    pub open spec fn reports(&self, key: KeyEvent, r: WidgetResult) -> bool {
        if self.state() != WidgetState::Editing {
            r == WidgetResult::Continue
        } else {
            match key.code {
                KeyCode::Enter => r matches WidgetResult::Confirmed(v) && is_text(v, self.buffer()),
                KeyCode::Esc => r == WidgetResult::Cancelled,
                KeyCode::Char(c) => reports_change(r, insert_at(self.buffer(), self.cursor(), c)),
                KeyCode::Backspace => reports_change(
                    r,
                    if self.cursor() > 0 {
                        remove_at(self.buffer(), self.cursor() - 1)
                    } else {
                        self.buffer()
                    },
                ),
                KeyCode::Delete => reports_change(
                    r,
                    if self.cursor() < self.buffer().len() {
                        remove_at(self.buffer(), self.cursor())
                    } else {
                        self.buffer()
                    },
                ),
                _ => r == WidgetResult::Continue,
            }
        }
    }

    pub closed spec fn buffer(&self) -> Seq<char> {
        self.buffer@
    }

    pub closed spec fn cursor(&self) -> int {
        self.cursor_pos as int
    }

    pub closed spec fn state(&self) -> WidgetState {
        self.state
    }

    pub closed spec fn label(&self) -> Seq<char> {
        self.label@
    }

    /// The cursor stands within the buffer or just after it.
    pub closed spec fn wf(&self) -> bool {
        self.cursor_pos <= self.buffer@.len()
    }

    pub fn new(label: &str, initial_value: &str) -> (r: TextInput)
        ensures
            r.wf(),
            r.buffer() == initial_value@,
            r.cursor() == initial_value@.len(),
            r.state() == WidgetState::Normal,
            r.label() == label@,
    {
        let buffer = chars_of(initial_value);
        let cursor_pos = buffer.len();
        TextInput { buffer, cursor_pos, state: WidgetState::Normal, label: label.to_owned() }
    }

    pub fn label_text(&self) -> (r: &str)
        ensures
            r@ == self.label(),
    {
        self.label.as_str()
    }

    pub fn insert_char(&mut self, c: char)
        requires
            old(self).wf(),
        ensures
            final(self).wf(),
            final(self).buffer() == insert_at(old(self).buffer(), old(self).cursor(), c),
            final(self).cursor() == old(self).cursor() + 1,
            final(self).state() == old(self).state(),
            final(self).label() == old(self).label(),
    {
        self.buffer.insert(self.cursor_pos, c);
        assert(self.buffer@ =~= insert_at(old(self).buffer@, old(self).cursor_pos as int, c));
        let n = self.buffer.len();
        assert(self.cursor_pos < n);
        self.cursor_pos = self.cursor_pos + 1;
    }

    /// Removes the character before the cursor.
    pub fn delete_char(&mut self)
        requires
            old(self).wf(),
        ensures
            final(self).wf(),
            old(self).cursor() > 0 ==> final(self).buffer() == remove_at(
                old(self).buffer(),
                old(self).cursor() - 1,
            ) && final(self).cursor() == old(self).cursor() - 1,
            old(self).cursor() == 0 ==> final(self).buffer() == old(self).buffer()
                && final(self).cursor() == 0,
            final(self).state() == old(self).state(),
            final(self).label() == old(self).label(),
    {
        if self.cursor_pos > 0 {
            self.buffer.remove(self.cursor_pos - 1);
            assert(self.buffer@ =~= remove_at(old(self).buffer@, old(self).cursor_pos - 1));
            self.cursor_pos = self.cursor_pos - 1;
        }
    }

    /// Removes the character under the cursor.
    pub fn delete_forward(&mut self)
        requires
            old(self).wf(),
        ensures
            final(self).wf(),
            old(self).cursor() < old(self).buffer().len() ==> final(self).buffer() == remove_at(
                old(self).buffer(),
                old(self).cursor(),
            ),
            old(self).cursor() == old(self).buffer().len() ==> final(self).buffer() == old(self).buffer(),
            final(self).cursor() == old(self).cursor(),
            final(self).state() == old(self).state(),
            final(self).label() == old(self).label(),
    {
        if self.cursor_pos < self.buffer.len() {
            self.buffer.remove(self.cursor_pos);
            assert(self.buffer@ =~= remove_at(old(self).buffer@, old(self).cursor_pos as int));
        }
    }

    pub fn move_cursor_left(&mut self)
        requires
            old(self).wf(),
        ensures
            final(self).wf(),
            final(self).buffer() == old(self).buffer(),
            final(self).cursor() == if old(self).cursor() > 0 {
                old(self).cursor() - 1
            } else {
                0
            },
            final(self).state() == old(self).state(),
            final(self).label() == old(self).label(),
    {
        if self.cursor_pos > 0 {
            self.cursor_pos = self.cursor_pos - 1;
        }
    }

    pub fn move_cursor_right(&mut self)
        requires
            old(self).wf(),
        ensures
            final(self).wf(),
            final(self).buffer() == old(self).buffer(),
            final(self).cursor() == if old(self).cursor() < old(self).buffer().len() {
                old(self).cursor() + 1
            } else {
                old(self).cursor()
            },
            final(self).state() == old(self).state(),
            final(self).label() == old(self).label(),
    {
        if self.cursor_pos < self.buffer.len() {
            self.cursor_pos = self.cursor_pos + 1;
        }
    }

    /// The buffer as shown: while editing, a block mark stands at the cursor.
    pub fn get_display_text(&self) -> (r: String)
        requires
            self.wf(),
        ensures
            self.state() == WidgetState::Editing ==> r@ == insert_at(
                self.buffer(),
                self.cursor(),
                '\u{2588}',
            ),
            self.state() != WidgetState::Editing ==> r@ == self.buffer(),
    {
        if self.state == WidgetState::Editing {
            let mut display = self.buffer.clone();
            assert(display@ == self.buffer@);
            display.insert(self.cursor_pos, '\u{2588}');
            assert(display@ =~= insert_at(self.buffer@, self.cursor_pos as int, '\u{2588}'));
            string_of(&display)
        } else {
            string_of(&self.buffer)
        }
    }

    /// Enters editing, with the cursor after the last character.
    pub fn activate(&mut self)
        ensures
            final(self).wf(),
            final(self).state() == WidgetState::Editing,
            final(self).buffer() == old(self).buffer(),
            final(self).cursor() == old(self).buffer().len(),
            final(self).label() == old(self).label(),
    {
        self.state = WidgetState::Editing;
        self.cursor_pos = self.buffer.len();
    }

    /// Same as `activate`.
    pub fn start_editing(&mut self)
        ensures
            final(self).wf(),
            final(self).state() == WidgetState::Editing,
            final(self).buffer() == old(self).buffer(),
            final(self).cursor() == old(self).buffer().len(),
            final(self).label() == old(self).label(),
    {
        self.activate();
    }

    pub fn reset(&mut self)
        ensures
            final(self).wf(),
            final(self).state() == WidgetState::Normal,
            final(self).buffer() == old(self).buffer(),
            final(self).cursor() == old(self).buffer().len(),
            final(self).label() == old(self).label(),
    {
        self.state = WidgetState::Normal;
        self.cursor_pos = self.buffer.len();
    }

    pub fn get_value(&self) -> (r: ConfigValue)
        ensures
            is_text(r, self.buffer()),
    {
        ConfigValue::Text(string_of(&self.buffer))
    }

    /// Takes a text value into the buffer; other values are ignored.
    pub fn set_value(&mut self, value: ConfigValue)
        requires
            old(self).wf(),
        ensures
            final(self).wf(),
            match value {
                ConfigValue::Text(s) => final(self).buffer() == s@ && final(self).cursor()
                    == s@.len(),
                _ => final(self).buffer() == old(self).buffer() && final(self).cursor() == old(self).cursor(),
            },
            final(self).state() == old(self).state(),
            final(self).label() == old(self).label(),
    {
        match value {
            ConfigValue::Text(s) => {
                self.buffer = chars_of(s.as_str());
                self.cursor_pos = self.buffer.len();
            },
            _ => {},
        }
    }

    /// Handles one key while editing: characters are inserted at the cursor,
    /// Enter confirms the buffer, Escape cancels. Outside editing, keys are
    /// ignored.
    pub fn handle_key(&mut self, key: KeyEvent) -> (r: WidgetResult)
        requires
            old(self).wf(),
        ensures
            final(self).wf(),
            final(self).label() == old(self).label(),
            old(self).reports(key, r),
            old(self).state() != WidgetState::Editing ==> r == WidgetResult::Continue && *final(self) == *old(self),
            old(self).state() == WidgetState::Editing ==> match key.code {
                KeyCode::Enter => r matches WidgetResult::Confirmed(v) && is_text(v, old(self).buffer())
                    && final(self).state() == WidgetState::Normal && final(self).buffer() == old(self).buffer(),
                KeyCode::Esc => r == WidgetResult::Cancelled && final(self).state()
                    == WidgetState::Normal && final(self).buffer() == old(self).buffer(),
                KeyCode::Char(c) => final(self).buffer() == insert_at(
                    old(self).buffer(),
                    old(self).cursor(),
                    c,
                ) && final(self).cursor() == old(self).cursor() + 1 && reports_change(
                    r,
                    final(self).buffer(),
                ) && final(self).state() == WidgetState::Editing,
                KeyCode::Backspace => (old(self).cursor() > 0 ==> final(self).buffer() == remove_at(
                    old(self).buffer(),
                    old(self).cursor() - 1,
                )) && (old(self).cursor() == 0 ==> final(self).buffer() == old(self).buffer())
                    && reports_change(r, final(self).buffer()) && final(self).state()
                    == WidgetState::Editing,
                KeyCode::Delete => (old(self).cursor() < old(self).buffer().len() ==> final(self).buffer() == remove_at(old(self).buffer(), old(self).cursor())) && (old(self).cursor() == old(self).buffer().len() ==> final(self).buffer() == old(self).buffer()) && reports_change(r, final(self).buffer()) && final(self).state()
                    == WidgetState::Editing,
                KeyCode::Home => r == WidgetResult::Continue && final(self).cursor() == 0
                    && final(self).buffer() == old(self).buffer() && final(self).state()
                    == WidgetState::Editing,
                KeyCode::End => r == WidgetResult::Continue && final(self).cursor() == old(self).buffer().len() && final(self).buffer() == old(self).buffer() && final(self).state() == WidgetState::Editing,
                KeyCode::Left => r == WidgetResult::Continue && final(self).buffer() == old(self).buffer()
                    && final(self).cursor() == (if old(self).cursor() > 0 {
                    old(self).cursor() - 1
                } else {
                    0
                }) && final(self).state() == WidgetState::Editing,
                KeyCode::Right => r == WidgetResult::Continue && final(self).buffer() == old(self).buffer()
                    && final(self).cursor() == (if old(self).cursor() < old(self).buffer().len() {
                    old(self).cursor() + 1
                } else {
                    old(self).cursor()
                }) && final(self).state() == WidgetState::Editing,
                _ => r == WidgetResult::Continue && *final(self) == *old(self),
            },
    {
        if self.state != WidgetState::Editing {
            return WidgetResult::Continue;
        }
        match key.code {
            KeyCode::Enter => {
                self.state = WidgetState::Normal;
                WidgetResult::Confirmed(self.get_value())
            },
            KeyCode::Esc => {
                self.state = WidgetState::Normal;
                WidgetResult::Cancelled
            },
            KeyCode::Char(c) => {
                self.insert_char(c);
                WidgetResult::Changed(self.get_value())
            },
            KeyCode::Backspace => {
                self.delete_char();
                WidgetResult::Changed(self.get_value())
            },
            KeyCode::Delete => {
                self.delete_forward();
                WidgetResult::Changed(self.get_value())
            },
            KeyCode::Left => {
                self.move_cursor_left();
                WidgetResult::Continue
            },
            KeyCode::Right => {
                self.move_cursor_right();
                WidgetResult::Continue
            },
            KeyCode::Home => {
                self.cursor_pos = 0;
                WidgetResult::Continue
            },
            KeyCode::End => {
                self.cursor_pos = self.buffer.len();
                WidgetResult::Continue
            },
            _ => WidgetResult::Continue,
        }
    }
}

} // verus!

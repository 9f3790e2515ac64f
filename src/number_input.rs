//! Integer editing: a buffer restricted to digits and one leading minus sign,
//! checked against optional bounds when confirmed.
use vstd::prelude::*;
use crate::text::{i64_of, i64_to_string, chars_of, decimal, parse_i64, string_of};
use crate::value::ConfigValue;
use crate::widget::{insert_at, remove_at, KeyCode, KeyEvent, WidgetResult, WidgetState};

verus! {

pub struct NumberInput {
    buffer: Vec<char>,
    cursor_pos: usize,
    state: WidgetState,
    label: String,
    min: Option<i64>,
    max: Option<i64>,
}

pub open spec fn within(n: i64, min: Option<i64>, max: Option<i64>) -> bool {
    (min matches Some(lo) ==> lo <= n) && (max matches Some(hi) ==> n <= hi)
}

/// The number a buffer confirms to: it must read as an `i64` within the
/// declared bounds.
pub open spec fn accepted(buf: Seq<char>, min: Option<i64>, max: Option<i64>) -> Option<i64> {
    match i64_of(buf) {
        Some(n) => if within(n, min, max) {
            Some(n)
        } else {
            None
        },
        None => None,
    }
}

/// Whether typing `c` at `cursor` is allowed: a digit anywhere, a minus sign
/// only at the front of a buffer that has none.
pub open spec fn may_insert(buf: Seq<char>, cursor: int, c: char) -> bool {
    ('0' <= c && c <= '9') || (c == '-' && cursor == 0 && !(buf.len() > 0 && buf[0] == '-'))
}

/// The value of a number buffer: the accepted number, else the raw text.
pub open spec fn number_value(v: ConfigValue, buf: Seq<char>, min: Option<i64>, max: Option<i64>) -> bool {
    match accepted(buf, min, max) {
        Some(n) => v == ConfigValue::Integer(n),
        None => v matches ConfigValue::Text(s) && s@ == buf,
    }
}

impl NumberInput {
    /// What one key reports: the accepted number on Enter (editing goes on
    /// when there is none), a cancel on Escape, the new value after an edit,
    /// nothing otherwise.
    pub open spec fn reports(&self, key: KeyEvent, r: WidgetResult) -> bool {
        if self.state() != WidgetState::Editing {
            r == WidgetResult::Continue
        } else {
            match key.code {
                KeyCode::Enter => match accepted(self.buffer(), self.min(), self.max()) {
                    Some(n) => r == WidgetResult::Confirmed(ConfigValue::Integer(n)),
                    None => r == WidgetResult::Continue,
                },
                KeyCode::Esc => r == WidgetResult::Cancelled,
                KeyCode::Char(c) => r matches WidgetResult::Changed(v) && number_value(
                    v,
                    if may_insert(self.buffer(), self.cursor(), c) {
                        insert_at(self.buffer(), self.cursor(), c)
                    } else {
                        self.buffer()
                    },
                    self.min(),
                    self.max(),
                ),
                KeyCode::Backspace => r matches WidgetResult::Changed(v) && number_value(
                    v,
                    if self.cursor() > 0 {
                        remove_at(self.buffer(), self.cursor() - 1)
                    } else {
                        self.buffer()
                    },
                    self.min(),
                    self.max(),
                ),
                _ => r == WidgetResult::Continue,
            }
        }
    }

    /// The buffer as shown: while editing, a block mark stands at the cursor.
    pub fn get_display_text(&self) -> (r: String)
        requires
            self.wf(),
        ensures
            self.state() == WidgetState::Editing ==> r@ == insert_at(
                self.buffer(),
                self.cursor(),
                '\u{2588}',
            ),
            self.state() != WidgetState::Editing ==> r@ == self.buffer(),
    {
        if self.state == WidgetState::Editing {
            let mut display = self.buffer.clone();
            assert(display@ == self.buffer@);
            display.insert(self.cursor_pos, '\u{2588}');
            assert(display@ =~= insert_at(self.buffer@, self.cursor_pos as int, '\u{2588}'));
            string_of(&display)
        } else {
            string_of(&self.buffer)
        }
    }

    pub fn label_text(&self) -> &str {
        self.label.as_str()
    }

    pub closed spec fn buffer(&self) -> Seq<char> {
        self.buffer@
    }

    pub closed spec fn cursor(&self) -> int {
        self.cursor_pos as int
    }

    pub closed spec fn state(&self) -> WidgetState {
        self.state
    }

    pub closed spec fn min(&self) -> Option<i64> {
        self.min
    }

    pub closed spec fn max(&self) -> Option<i64> {
        self.max
    }

    pub closed spec fn wf(&self) -> bool {
        self.cursor_pos <= self.buffer@.len()
    }

    pub fn new(label: &str, initial_value: i64, min: Option<i64>, max: Option<i64>) -> (r: NumberInput)
        ensures
            r.wf(),
            r.buffer() == decimal(initial_value as int),
            r.cursor() == r.buffer().len(),
            r.state() == WidgetState::Normal,
            r.min() == min,
            r.max() == max,
    {
        let text = i64_to_string(initial_value);
        let buffer = chars_of(text.as_str());
        let cursor_pos = buffer.len();
        NumberInput { buffer, cursor_pos, state: WidgetState::Normal, label: label.to_owned(), min, max }
    }

    pub fn insert_char(&mut self, c: char)
        requires
            old(self).wf(),
        ensures
            final(self).wf(),
            may_insert(old(self).buffer(), old(self).cursor(), c) ==> final(self).buffer()
                == insert_at(old(self).buffer(), old(self).cursor(), c) && final(self).cursor()
                == old(self).cursor() + 1,
            !may_insert(old(self).buffer(), old(self).cursor(), c) ==> final(self).buffer() == old(
                self).buffer() && final(self).cursor() == old(self).cursor(),
            final(self).state() == old(self).state(),
            final(self).min() == old(self).min(),
            final(self).max() == old(self).max(),
    {
        let digit = '0' <= c && c <= '9';
        let sign = c == '-' && self.cursor_pos == 0 && !(self.buffer.len() > 0 && self.buffer[0]
            == '-');
        if digit || sign {
            self.buffer.insert(self.cursor_pos, c);
            assert(self.buffer@ =~= insert_at(old(self).buffer@, old(self).cursor_pos as int, c));
            let n = self.buffer.len();
            assert(self.cursor_pos < n);
            self.cursor_pos = self.cursor_pos + 1;
        }
    }

    pub fn delete_char(&mut self)
        requires
            old(self).wf(),
        ensures
            final(self).wf(),
            old(self).cursor() > 0 ==> final(self).buffer() == remove_at(
                old(self).buffer(),
                old(self).cursor() - 1,
            ) && final(self).cursor() == old(self).cursor() - 1,
            old(self).cursor() == 0 ==> final(self).buffer() == old(self).buffer()
                && final(self).cursor() == 0,
            final(self).state() == old(self).state(),
            final(self).min() == old(self).min(),
            final(self).max() == old(self).max(),
    {
        if self.cursor_pos > 0 {
            self.buffer.remove(self.cursor_pos - 1);
            assert(self.buffer@ =~= remove_at(old(self).buffer@, old(self).cursor_pos - 1));
            self.cursor_pos = self.cursor_pos - 1;
        }
    }

    /// The number the buffer would confirm to.
    pub fn validate(&self) -> (r: Option<i64>)
        ensures
            r == accepted(self.buffer(), self.min(), self.max()),
    {
        match parse_i64(&self.buffer) {
            Some(n) => {
                let low_ok = match self.min {
                    Some(lo) => lo <= n,
                    None => true,
                };
                let high_ok = match self.max {
                    Some(hi) => n <= hi,
                    None => true,
                };
                if low_ok && high_ok {
                    Some(n)
                } else {
                    None
                }
            },
            None => None,
        }
    }

    pub fn activate(&mut self)
        ensures
            final(self).wf(),
            final(self).state() == WidgetState::Editing,
            final(self).buffer() == old(self).buffer(),
            final(self).cursor() == old(self).buffer().len(),
            final(self).min() == old(self).min(),
            final(self).max() == old(self).max(),
    {
        self.state = WidgetState::Editing;
        self.cursor_pos = self.buffer.len();
    }

    /// Same as `activate`.
    pub fn start_editing(&mut self)
        ensures
            final(self).wf(),
            final(self).state() == WidgetState::Editing,
            final(self).buffer() == old(self).buffer(),
            final(self).cursor() == old(self).buffer().len(),
            final(self).min() == old(self).min(),
            final(self).max() == old(self).max(),
    {
        self.activate();
    }

    pub fn reset(&mut self)
        ensures
            final(self).wf(),
            final(self).state() == WidgetState::Normal,
            final(self).buffer() == old(self).buffer(),
            final(self).min() == old(self).min(),
            final(self).max() == old(self).max(),
    {
        self.state = WidgetState::Normal;
        self.cursor_pos = self.buffer.len();
    }

    pub fn get_value(&self) -> (r: ConfigValue)
        ensures
            number_value(r, self.buffer(), self.min(), self.max()),
    {
        match self.validate() {
            Some(n) => ConfigValue::Integer(n),
            None => ConfigValue::Text(string_of(&self.buffer)),
        }
    }

    /// Takes an integer value into the buffer; other values are ignored.
    pub fn set_value(&mut self, value: ConfigValue)
        requires
            old(self).wf(),
        ensures
            final(self).wf(),
            match value {
                ConfigValue::Integer(n) => final(self).buffer() == decimal(n as int),
                _ => final(self).buffer() == old(self).buffer(),
            },
            final(self).state() == old(self).state(),
            final(self).min() == old(self).min(),
            final(self).max() == old(self).max(),
    {
        match value {
            ConfigValue::Integer(n) => {
                let text = i64_to_string(n);
                self.buffer = chars_of(text.as_str());
                self.cursor_pos = self.buffer.len();
            },
            _ => {},
        }
    }

    /// Handles one key while editing. Enter confirms only a buffer that reads
    /// as a number within the bounds; otherwise editing goes on.
    pub fn handle_key(&mut self, key: KeyEvent) -> (r: WidgetResult)
        requires
            old(self).wf(),
        ensures
            final(self).wf(),
            final(self).min() == old(self).min(),
            final(self).max() == old(self).max(),
            old(self).reports(key, r),
            old(self).state() != WidgetState::Editing ==> r == WidgetResult::Continue && *final(self) == *old(self),
            old(self).state() == WidgetState::Editing ==> match key.code {
                KeyCode::Enter => match accepted(old(self).buffer(), old(self).min(), old(self).max()) {
                    Some(n) => r == WidgetResult::Confirmed(ConfigValue::Integer(n)) && final(
                        self).state() == WidgetState::Normal,
                    None => r == WidgetResult::Continue && *final(self) == *old(self),
                },
                KeyCode::Esc => r == WidgetResult::Cancelled && final(self).state()
                    == WidgetState::Normal && final(self).buffer() == old(self).buffer(),
                KeyCode::Char(c) => (may_insert(old(self).buffer(), old(self).cursor(), c)
                    ==> final(self).buffer() == insert_at(old(self).buffer(), old(self).cursor(), c)
                    && final(self).cursor() == old(self).cursor() + 1)
                    && (!may_insert(old(self).buffer(), old(self).cursor(), c) ==> final(self).buffer()
                    == old(self).buffer() && final(self).cursor() == old(self).cursor()) && (r matches WidgetResult::Changed(v) && number_value(
                    v,
                    final(self).buffer(),
                    final(self).min(),
                    final(self).max(),
                )) && final(self).state() == WidgetState::Editing,
                KeyCode::Backspace => (old(self).cursor() > 0 ==> final(self).buffer() == remove_at(
                    old(self).buffer(),
                    old(self).cursor() - 1,
                ) && final(self).cursor() == old(self).cursor() - 1) && (old(self).cursor() == 0
                    ==> final(self).buffer() == old(self).buffer() && final(self).cursor() == 0)
                    && (r matches WidgetResult::Changed(v) && number_value(
                    v,
                    final(self).buffer(),
                    final(self).min(),
                    final(self).max(),
                )) && final(self).state() == WidgetState::Editing,
                KeyCode::Left => r == WidgetResult::Continue && final(self).buffer() == old(self).buffer()
                    && final(self).cursor() == (if old(self).cursor() > 0 {
                    old(self).cursor() - 1
                } else {
                    0
                }) && final(self).state() == WidgetState::Editing,
                KeyCode::Right => r == WidgetResult::Continue && final(self).buffer() == old(self).buffer()
                    && final(self).cursor() == (if old(self).cursor() < old(self).buffer().len() {
                    old(self).cursor() + 1
                } else {
                    old(self).cursor()
                }) && final(self).state() == WidgetState::Editing,
                _ => r == WidgetResult::Continue && *final(self) == *old(self),
            },
    {
        if self.state != WidgetState::Editing {
            return WidgetResult::Continue;
        }
        match key.code {
            KeyCode::Enter => match self.validate() {
                Some(n) => {
                    self.state = WidgetState::Normal;
                    WidgetResult::Confirmed(ConfigValue::Integer(n))
                },
                None => WidgetResult::Continue,
            },
            KeyCode::Esc => {
                self.state = WidgetState::Normal;
                WidgetResult::Cancelled
            },
            KeyCode::Char(c) => {
                self.insert_char(c);
                WidgetResult::Changed(self.get_value())
            },
            KeyCode::Backspace => {
                self.delete_char();
                WidgetResult::Changed(self.get_value())
            },
            KeyCode::Left => {
                if self.cursor_pos > 0 {
                    self.cursor_pos = self.cursor_pos - 1;
                }
                WidgetResult::Continue
            },
            KeyCode::Right => {
                if self.cursor_pos < self.buffer.len() {
                    self.cursor_pos = self.cursor_pos + 1;
                }
                WidgetResult::Continue
            },
            _ => WidgetResult::Continue,
        }
    }
}

/// Confirming never yields a number outside the declared bounds, and always
/// yields the number of a buffer that reads as one within them.
pub proof fn lemma_confirm_respects_bounds(buf: Seq<char>, min: Option<i64>, max: Option<i64>)
    ensures
        accepted(buf, min, max) matches Some(n) ==> within(n, min, max) && i64_of(buf) == Some(n),
        i64_of(buf) is Some && within(i64_of(buf)->0, min, max) ==> accepted(buf, min, max)
            == i64_of(buf),
        i64_of(buf) is Some && !within(i64_of(buf)->0, min, max) ==> accepted(buf, min, max) is None,
        i64_of(buf) is None ==> accepted(buf, min, max) is None,
{
}

} // verus!

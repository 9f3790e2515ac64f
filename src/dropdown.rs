//! Choice from a fixed list: a highlighted index that cycles with wraparound.
use vstd::prelude::*;
use crate::assoc::str_equal;
use crate::value::ConfigValue;
use crate::widget::{KeyCode, KeyEvent, WidgetResult, WidgetState};

verus! {

/// The first index at or after `i` whose option reads `v`.
pub open spec fn position_from(options: Seq<String>, v: Seq<char>, i: int) -> Option<int>
    decreases options.len() - i,
{
    if i < 0 || i >= options.len() {
        None
    } else if options[i]@ == v {
        Some(i)
    } else {
        position_from(options, v, i + 1)
    }
}

/// Index of the first option equal to `v`.
pub open spec fn position_of(options: Seq<String>, v: Seq<char>) -> Option<int> {
    position_from(options, v, 0)
}

/// The highlighted option's text; empty when there are no options.
pub open spec fn option_text(options: Seq<String>, i: int) -> Seq<char> {
    if 0 <= i < options.len() {
        options[i]@
    } else {
        Seq::empty()
    }
}

pub open spec fn next_index(len: int, i: int) -> int {
    if len == 0 {
        i
    } else {
        (i + 1) % len
    }
}

pub open spec fn previous_index(len: int, i: int) -> int {
    if len == 0 {
        i
    } else if i == 0 {
        len - 1
    } else {
        i - 1
    }
}

pub open spec fn index_ok(len: int, i: int) -> bool {
    if len == 0 {
        i == 0
    } else {
        0 <= i < len
    }
}

/// Position of `v` among the options.
pub fn find_option(options: &Vec<String>, v: &str) -> (r: Option<usize>)
    ensures
        match r {
            Some(i) => position_of(options@, v@) == Some(i as int) && i < options@.len(),
            None => position_of(options@, v@) is None,
        },
{
    let mut i: usize = 0;
    while i < options.len()
        invariant
            i <= options@.len(),
            position_of(options@, v@) == position_from(options@, v@, i as int),
        decreases options.len() - i,
    {
        if str_equal(options[i].as_str(), v) {
            return Some(i);
        }
        i = i + 1;
    }
    None
}

pub struct Dropdown {
    options: Vec<String>,
    selected_index: usize,
    state: WidgetState,
    label: String,
}

impl Dropdown {
    /// What one key reports: the highlighted option on Enter, a cancel on
    /// Escape, nothing otherwise.
    pub open spec fn reports(&self, key: KeyEvent, r: WidgetResult) -> bool {
        if self.state() == WidgetState::Editing && key.code == KeyCode::Enter {
            r matches WidgetResult::Confirmed(ConfigValue::Text(s)) && s@ == option_text(
                self.options(),
                self.selected(),
            )
        } else if self.state() == WidgetState::Editing && key.code == KeyCode::Esc {
            r == WidgetResult::Cancelled
        } else {
            r == WidgetResult::Continue
        }
    }

    pub fn option_list(&self) -> (r: &Vec<String>)
        ensures
            r@ == self.options(),
    {
        &self.options
    }

    pub fn selected_index(&self) -> (r: usize)
        ensures
            r == self.selected(),
    {
        self.selected_index
    }

    pub fn is_editing(&self) -> (r: bool)
        ensures
            r == (self.state() == WidgetState::Editing),
    {
        self.state == WidgetState::Editing
    }

    pub fn label_text(&self) -> &str {
        self.label.as_str()
    }

    pub closed spec fn options(&self) -> Seq<String> {
        self.options@
    }

    pub closed spec fn selected(&self) -> int {
        self.selected_index as int
    }

    pub closed spec fn state(&self) -> WidgetState {
        self.state
    }

    pub closed spec fn wf(&self) -> bool {
        index_ok(self.options@.len() as int, self.selected_index as int)
    }

    /// Highlights the option equal to `initial_value`, else the first one.
    pub fn new(label: &str, options: Vec<String>, initial_value: Option<String>) -> (r: Dropdown)
        ensures
            r.wf(),
            r.options() == options@,
            r.state() == WidgetState::Normal,
            r.selected() == match initial_value {
                Some(v) => match position_of(options@, v@) {
                    Some(i) => i,
                    None => 0,
                },
                None => 0,
            },
    {
        let selected_index = match initial_value {
            Some(v) => match find_option(&options, v.as_str()) {
                Some(i) => i,
                None => 0,
            },
            None => 0,
        };
        Dropdown { options, selected_index, state: WidgetState::Normal, label: label.to_owned() }
    }

    pub fn start_selecting(&mut self)
        requires
            old(self).wf(),
        ensures
            final(self).wf(),
            final(self).state() == WidgetState::Editing,
            final(self).options() == old(self).options(),
            final(self).selected() == old(self).selected(),
    {
        self.state = WidgetState::Editing;
    }

    pub fn select_next(&mut self)
        requires
            old(self).wf(),
        ensures
            final(self).wf(),
            final(self).selected() == next_index(old(self).options().len() as int, old(self).selected()),
            final(self).options() == old(self).options(),
            final(self).state() == old(self).state(),
    {
        if self.options.len() == 0 {
            return;
        }
        self.selected_index = (self.selected_index + 1) % self.options.len();
    }

    pub fn select_previous(&mut self)
        requires
            old(self).wf(),
        ensures
            final(self).wf(),
            final(self).selected() == previous_index(
                old(self).options().len() as int,
                old(self).selected(),
            ),
            final(self).options() == old(self).options(),
            final(self).state() == old(self).state(),
    {
        if self.options.len() == 0 {
            return;
        }
        self.selected_index = if self.selected_index == 0 {
            self.options.len() - 1
        } else {
            self.selected_index - 1
        };
    }

    pub fn get_current_value(&self) -> (r: String)
        requires
            self.wf(),
        ensures
            r@ == option_text(self.options(), self.selected()),
    {
        if self.selected_index < self.options.len() {
            self.options[self.selected_index].clone()
        } else {
            String::new()
        }
    }

    pub fn get_value(&self) -> (r: ConfigValue)
        requires
            self.wf(),
        ensures
            r matches ConfigValue::Text(s) && s@ == option_text(self.options(), self.selected()),
    {
        ConfigValue::Text(self.get_current_value())
    }

    /// Highlights the option equal to a text value, when there is one.
    pub fn set_value(&mut self, value: ConfigValue)
        requires
            old(self).wf(),
        ensures
            final(self).wf(),
            final(self).options() == old(self).options(),
            final(self).state() == old(self).state(),
            final(self).selected() == match value {
                ConfigValue::Text(s) => match position_of(old(self).options(), s@) {
                    Some(i) => i,
                    None => old(self).selected(),
                },
                _ => old(self).selected(),
            },
    {
        match value {
            ConfigValue::Text(s) => match find_option(&self.options, s.as_str()) {
                Some(i) => {
                    self.selected_index = i;
                },
                None => {},
            },
            _ => {},
        }
    }

    pub fn reset(&mut self)
        ensures
            final(self).state() == WidgetState::Normal,
            final(self).options() == old(self).options(),
            final(self).selected() == old(self).selected(),
            final(self).wf() == old(self).wf(),
    {
        self.state = WidgetState::Normal;
    }

    pub fn activate(&mut self)
        requires
            old(self).wf(),
        ensures
            final(self).wf(),
            final(self).state() == WidgetState::Editing,
            final(self).options() == old(self).options(),
            final(self).selected() == old(self).selected(),
    {
        self.start_selecting();
    }

    /// Up and down (or `k` and `j`) move the highlight with wraparound,
    /// Enter confirms the highlighted option, Escape cancels.
    pub fn handle_key(&mut self, key: KeyEvent) -> (r: WidgetResult)
        requires
            old(self).wf(),
        ensures
            final(self).wf(),
            final(self).options() == old(self).options(),
            old(self).reports(key, r),
            old(self).state() != WidgetState::Editing ==> r == WidgetResult::Continue && *final(self) == *old(self),
            old(self).state() == WidgetState::Editing ==> match key.code {
                KeyCode::Enter => (r matches WidgetResult::Confirmed(ConfigValue::Text(s)) && s@
                    == option_text(old(self).options(), old(self).selected())) && final(self).state()
                    == WidgetState::Normal && final(self).selected() == old(self).selected(),
                KeyCode::Esc => r == WidgetResult::Cancelled && final(self).state()
                    == WidgetState::Normal && final(self).selected() == old(self).selected(),
                KeyCode::Down | KeyCode::Char('j') => r == WidgetResult::Continue && final(self).selected()
                    == next_index(old(self).options().len() as int, old(self).selected()) && final(
                    self).state() == WidgetState::Editing,
                KeyCode::Up | KeyCode::Char('k') => r == WidgetResult::Continue && final(self).selected()
                    == previous_index(old(self).options().len() as int, old(self).selected())
                    && final(self).state() == WidgetState::Editing,
                _ => r == WidgetResult::Continue && *final(self) == *old(self),
            },
    {
        if self.state != WidgetState::Editing {
            return WidgetResult::Continue;
        }
        match key.code {
            KeyCode::Enter => {
                self.state = WidgetState::Normal;
                WidgetResult::Confirmed(self.get_value())
            },
            KeyCode::Esc => {
                self.state = WidgetState::Normal;
                WidgetResult::Cancelled
            },
            KeyCode::Down | KeyCode::Char('j') => {
                self.select_next();
                WidgetResult::Continue
            },
            KeyCode::Up | KeyCode::Char('k') => {
                self.select_previous();
                WidgetResult::Continue
            },
            _ => WidgetResult::Continue,
        }
    }
}

} // verus!

//! Choice from a list narrowed by a free-text search: every typed character
//! extends the search and the list keeps the options that contain it,
//! ignoring case.
use vstd::prelude::*;
use crate::dropdown::{index_ok, next_index, previous_index};
use crate::text::{chars_of, contains_chars, contains_seq, string_of};
use crate::value::ConfigValue;
use crate::widget::{KeyCode, KeyEvent, WidgetResult, WidgetState};

verus! {

/// What `str::to_lowercase` makes of a text.
pub uninterp spec fn lower_of(s: Seq<char>) -> Seq<char>;

/// Relies on `str::to_lowercase`: the lower-case form depends on the
/// characters alone, and an empty text stays empty.
#[verifier::external_body]
fn lowercase(s: &str) -> (r: String)
    ensures
        r@ == lower_of(s@),
        s@.len() == 0 ==> r@.len() == 0,
{
    s.to_lowercase()
}

/// The options whose lowered form (`lowered[i]` for `options[i]`) contains
/// `query`, in their order.
pub open spec fn keep_where(options: Seq<String>, lowered: Seq<Seq<char>>, query: Seq<char>) -> Seq<String>
    decreases options.len(),
{
    if options.len() == 0 || lowered.len() != options.len() {
        Seq::empty()
    } else {
        let r = keep_where(options.drop_last(), lowered.drop_last(), query);
        if contains_seq(lowered.last(), query) {
            r.push(options.last())
        } else {
            r
        }
    }
}

pub open spec fn lowered_all(options: Seq<String>) -> Seq<Seq<char>> {
    options.map_values(|o: String| lower_of(o@))
}

/// The options that contain `search`, ignoring case.
pub open spec fn filter_options(options: Seq<String>, search: Seq<char>) -> Seq<String> {
    keep_where(options, lowered_all(options), lower_of(search))
}

/// Keeps `options[i]` where `lowered[i]` contains `query`.
pub fn filter_by_lowered(options: &Vec<String>, lowered: &Vec<String>, query: &str) -> (r: Vec<String>)
    requires
        options@.len() == lowered@.len(),
    ensures
        r@ == keep_where(options@, lowered@.map_values(|l: String| l@), query@),
{
    let q = chars_of(query);
    let mut out: Vec<String> = Vec::new();
    let mut i: usize = 0;
    while i < options.len()
        invariant
            options@.len() == lowered@.len(),
            i <= options@.len(),
            q@ == query@,
            out@ == keep_where(
                options@.take(i as int),
                lowered@.map_values(|l: String| l@).take(i as int),
                query@,
            ),
        decreases options.len() - i,
    {
        assert(options@.take(i + 1).drop_last() == options@.take(i as int));
        assert(lowered@.map_values(|l: String| l@).take(i + 1).drop_last() == lowered@.map_values(
            |l: String| l@,
        ).take(i as int));
        let l = chars_of(lowered[i].as_str());
        if contains_chars(&l, &q) {
            out.push(options[i].clone());
        }
        i = i + 1;
    }
    assert(options@.take(options@.len() as int) == options@);
    assert(lowered@.map_values(|l: String| l@).take(options@.len() as int) == lowered@.map_values(
        |l: String| l@,
    ));
    out
}

pub struct SearchableDropdown {
    all_options: Vec<String>,
    filtered_options: Vec<String>,
    selected_index: usize,
    search_buffer: Vec<char>,
    state: WidgetState,
    label: String,
    current_value: String,
}

impl SearchableDropdown {
    /// What one key reports: the highlighted entry of a non-empty list on
    /// Enter (nothing on an empty one), a cancel on Escape, nothing otherwise.
    pub open spec fn reports(&self, key: KeyEvent, r: WidgetResult) -> bool {
        if self.state() == WidgetState::Editing && key.code == KeyCode::Enter
            && self.filtered().len() > 0 {
            r matches WidgetResult::Confirmed(ConfigValue::Text(s)) && s@ == self.filtered()[self.selected()]@
        } else if self.state() == WidgetState::Editing && key.code == KeyCode::Esc {
            r == WidgetResult::Cancelled
        } else {
            r == WidgetResult::Continue
        }
    }

    pub fn filtered_list(&self) -> (r: &Vec<String>)
        ensures
            r@ == self.filtered(),
    {
        &self.filtered_options
    }

    pub fn selected_index(&self) -> (r: usize)
        ensures
            r == self.selected(),
    {
        self.selected_index
    }

    pub fn search_text(&self) -> (r: String)
        ensures
            r@ == self.search(),
    {
        string_of(&self.search_buffer)
    }

    pub fn current_text(&self) -> (r: &str)
        ensures
            r@ == self.current(),
    {
        self.current_value.as_str()
    }

    pub fn is_editing(&self) -> (r: bool)
        ensures
            r == (self.state() == WidgetState::Editing),
    {
        self.state == WidgetState::Editing
    }

    pub fn label_text(&self) -> &str {
        self.label.as_str()
    }

    pub closed spec fn all_options(&self) -> Seq<String> {
        self.all_options@
    }

    pub closed spec fn filtered(&self) -> Seq<String> {
        self.filtered_options@
    }

    pub closed spec fn selected(&self) -> int {
        self.selected_index as int
    }

    pub closed spec fn search(&self) -> Seq<char> {
        self.search_buffer@
    }

    pub closed spec fn state(&self) -> WidgetState {
        self.state
    }

    pub closed spec fn current(&self) -> Seq<char> {
        self.current_value@
    }

    pub closed spec fn wf(&self) -> bool {
        index_ok(self.filtered_options@.len() as int, self.selected_index as int)
    }

    /// Starts with the given value, else the first option, else nothing.
    pub fn new(label: &str, options: Vec<String>, initial_value: Option<String>) -> (r: SearchableDropdown)
        ensures
            r.wf(),
            r.all_options() == options@,
            r.filtered() == options@,
            r.selected() == 0,
            r.search() == Seq::<char>::empty(),
            r.state() == WidgetState::Normal,
            r.current() == match initial_value {
                Some(v) => v@,
                None => if options@.len() > 0 {
                    options@[0]@
                } else {
                    Seq::empty()
                },
            },
    {
        let current_value = match initial_value {
            Some(v) => v,
            None => if options.len() > 0 {
                options[0].clone()
            } else {
                String::new()
            },
        };
        let filtered_options = crate::resolver::copy_strings(&options);
        SearchableDropdown {
            all_options: options,
            filtered_options,
            selected_index: 0,
            search_buffer: Vec::new(),
            state: WidgetState::Normal,
            label: label.to_owned(),
            current_value,
        }
    }

    /// Enters selection with an empty search and the full list.
    pub fn start_selecting(&mut self)
        ensures
            final(self).wf(),
            final(self).state() == WidgetState::Editing,
            final(self).search() == Seq::<char>::empty(),
            final(self).filtered() == old(self).all_options(),
            final(self).selected() == 0,
            final(self).all_options() == old(self).all_options(),
            final(self).current() == old(self).current(),
    {
        self.state = WidgetState::Editing;
        self.search_buffer = Vec::new();
        self.filtered_options = crate::resolver::copy_strings(&self.all_options);
        self.selected_index = 0;
    }

    /// Recomputes the list for the current search and keeps the highlight
    /// in range.
    pub fn update_filter(&mut self)
        requires
            old(self).wf(),
        ensures
            final(self).wf(),
            final(self).filtered() == filter_options(old(self).all_options(), old(self).search()),
            final(self).filtered().len() == 0 ==> final(self).selected() == 0,
            final(self).filtered().len() > 0 ==> final(self).selected() == if old(self).selected()
                < final(self).filtered().len() {
                old(self).selected()
            } else {
                final(self).filtered().len() - 1
            },
            final(self).all_options() == old(self).all_options(),
            final(self).search() == old(self).search(),
            final(self).state() == old(self).state(),
            final(self).current() == old(self).current(),
    {
        let search = string_of(&self.search_buffer);
        let query = lowercase(search.as_str());
        let mut lowered: Vec<String> = Vec::new();
        let mut i: usize = 0;
        while i < self.all_options.len()
            invariant
                i <= self.all_options@.len(),
                lowered@.map_values(|l: String| l@) == lowered_all(self.all_options@).take(i as int),
            decreases self.all_options.len() - i,
        {
            let l = lowercase(self.all_options[i].as_str());
            let ghost before = lowered@;
            lowered.push(l);
            assert(lowered@.map_values(|l: String| l@) =~= before.map_values(|l: String| l@).push(
                lower_of(self.all_options@[i as int]@),
            ));
            assert(lowered_all(self.all_options@).take(i + 1) =~= lowered_all(
                self.all_options@,
            ).take(i as int).push(lower_of(self.all_options@[i as int]@)));
            i = i + 1;
        }
        assert(lowered_all(self.all_options@).take(self.all_options@.len() as int) =~= lowered_all(
            self.all_options@,
        ));
        self.filtered_options = filter_by_lowered(&self.all_options, &lowered, query.as_str());
        if self.filtered_options.len() == 0 {
            self.selected_index = 0;
        } else if self.selected_index >= self.filtered_options.len() {
            self.selected_index = self.filtered_options.len() - 1;
        }
    }

    pub fn select_next(&mut self)
        requires
            old(self).wf(),
        ensures
            final(self).wf(),
            final(self).selected() == next_index(old(self).filtered().len() as int, old(self).selected()),
            final(self).filtered() == old(self).filtered(),
            final(self).all_options() == old(self).all_options(),
            final(self).search() == old(self).search(),
            final(self).state() == old(self).state(),
            final(self).current() == old(self).current(),
    {
        if self.filtered_options.len() == 0 {
            return;
        }
        self.selected_index = (self.selected_index + 1) % self.filtered_options.len();
    }

    pub fn select_previous(&mut self)
        requires
            old(self).wf(),
        ensures
            final(self).wf(),
            final(self).selected() == previous_index(
                old(self).filtered().len() as int,
                old(self).selected(),
            ),
            final(self).filtered() == old(self).filtered(),
            final(self).all_options() == old(self).all_options(),
            final(self).search() == old(self).search(),
            final(self).state() == old(self).state(),
            final(self).current() == old(self).current(),
    {
        if self.filtered_options.len() == 0 {
            return;
        }
        self.selected_index = if self.selected_index == 0 {
            self.filtered_options.len() - 1
        } else {
            self.selected_index - 1
        };
    }

    /// Enter confirms the highlighted entry of a non-empty list and is
    /// refused on an empty one; Escape cancels; up and down (or `k` and `j`
    /// without Ctrl) move the highlight; other characters extend the search
    /// and Backspace shortens it, each time recomputing the list.
    pub fn handle_key(&mut self, key: KeyEvent) -> (r: WidgetResult)
        requires
            old(self).wf(),
        ensures
            final(self).wf(),
            final(self).all_options() == old(self).all_options(),
            old(self).reports(key, r),
            old(self).state() != WidgetState::Editing ==> r == WidgetResult::Continue && *final(self) == *old(self),
            old(self).state() == WidgetState::Editing ==> match key.code {
                KeyCode::Enter => if old(self).filtered().len() > 0 {
                    (r matches WidgetResult::Confirmed(ConfigValue::Text(s)) && s@ == old(
                        self).filtered()[old(self).selected()]@) && final(self).current() == old(
                        self).filtered()[old(self).selected()]@ && final(self).state()
                        == WidgetState::Normal
                } else {
                    r == WidgetResult::Continue && *final(self) == *old(self)
                },
                KeyCode::Esc => r == WidgetResult::Cancelled && final(self).state()
                    == WidgetState::Normal && final(self).current() == old(self).current(),
                KeyCode::Down => r == WidgetResult::Continue && (!key.ctrl ==> final(self).selected()
                    == next_index(old(self).filtered().len() as int, old(self).selected())),
                KeyCode::Up => r == WidgetResult::Continue && (!key.ctrl ==> final(self).selected()
                    == previous_index(old(self).filtered().len() as int, old(self).selected())),
                KeyCode::Char(c) => r == WidgetResult::Continue && if c == 'j' && !key.ctrl {
                    final(self).selected() == next_index(old(self).filtered().len() as int, old(self).selected())
                        && final(self).search() == old(self).search()
                } else if c == 'k' && !key.ctrl {
                    final(self).selected() == previous_index(old(self).filtered().len() as int, old(self).selected())
                        && final(self).search() == old(self).search()
                } else {
                    final(self).search() == old(self).search().push(c) && final(self).filtered()
                        == filter_options(old(self).all_options(), final(self).search())
                        && final(self).state() == WidgetState::Editing
                },
                KeyCode::Backspace => r == WidgetResult::Continue && final(self).search() == (if old(
                    self).search().len() > 0 {
                    old(self).search().drop_last()
                } else {
                    old(self).search()
                }) && final(self).filtered() == filter_options(
                    old(self).all_options(),
                    final(self).search(),
                ),
                _ => r == WidgetResult::Continue && *final(self) == *old(self),
            },
    {
        if self.state != WidgetState::Editing {
            return WidgetResult::Continue;
        }
        match key.code {
            KeyCode::Enter => {
                if self.filtered_options.len() > 0 {
                    self.current_value = self.filtered_options[self.selected_index].clone();
                    self.state = WidgetState::Normal;
                    WidgetResult::Confirmed(self.get_value())
                } else {
                    WidgetResult::Continue
                }
            },
            KeyCode::Esc => {
                self.state = WidgetState::Normal;
                WidgetResult::Cancelled
            },
            KeyCode::Down if !key.ctrl => {
                self.select_next();
                WidgetResult::Continue
            },
            KeyCode::Char('j') if !key.ctrl => {
                self.select_next();
                WidgetResult::Continue
            },
            KeyCode::Up if !key.ctrl => {
                self.select_previous();
                WidgetResult::Continue
            },
            KeyCode::Char('k') if !key.ctrl => {
                self.select_previous();
                WidgetResult::Continue
            },
            KeyCode::Char(c) => {
                self.search_buffer.push(c);
                self.update_filter();
                WidgetResult::Continue
            },
            KeyCode::Backspace => {
                self.search_buffer.pop();
                self.update_filter();
                WidgetResult::Continue
            },
            _ => WidgetResult::Continue,
        }
    }

    pub fn get_value(&self) -> (r: ConfigValue)
        ensures
            r matches ConfigValue::Text(s) && s@ == self.current(),
    {
        ConfigValue::Text(self.current_value.clone())
    }

    /// Takes a text value as the current choice; other values are ignored.
    pub fn set_value(&mut self, value: ConfigValue)
        requires
            old(self).wf(),
        ensures
            final(self).wf(),
            final(self).current() == match value {
                ConfigValue::Text(s) => s@,
                _ => old(self).current(),
            },
            final(self).all_options() == old(self).all_options(),
            final(self).state() == old(self).state(),
    {
        match value {
            ConfigValue::Text(s) => {
                self.current_value = s;
            },
            _ => {},
        }
    }

    pub fn reset(&mut self)
        requires
            old(self).wf(),
        ensures
            final(self).wf(),
            final(self).state() == WidgetState::Normal,
            final(self).search() == Seq::<char>::empty(),
            final(self).current() == old(self).current(),
    {
        self.state = WidgetState::Normal;
        self.search_buffer = Vec::new();
    }

    pub fn activate(&mut self)
        ensures
            final(self).wf(),
            final(self).state() == WidgetState::Editing,
            final(self).search() == Seq::<char>::empty(),
            final(self).filtered() == old(self).all_options(),
            final(self).selected() == 0,
            final(self).all_options() == old(self).all_options(),
            final(self).current() == old(self).current(),
    {
        self.start_selecting();
    }
}

} // verus!

//! Option resolution: turns an option source into a list of choices.
//!
//! Static lists and registered providers resolve here directly. Scripts and
//! file listings need a process or the file system; for those the resolver
//! decides what to run (after variable substitution and a cache lookup), the
//! caller runs it, and the resolver turns the outcome into the option list.
use vstd::prelude::*;
use crate::assoc::{find_key, keys_unique, lemma_map_of_at, lemma_map_of_has, lemma_map_of_update, map_of};
use crate::cache::{CachedOptions, OptionCache};
use crate::schema::OptionSource;
use crate::text::{chars_of, push_char, string_of_range, trim, trim_bounds};
use crate::value::{value_text, value_to_text, ConfigValue, ValueMap};

verus! {

/// Why a list of options could not be produced.
#[derive(Debug, PartialEq, Eq)]
pub enum ResolveError {
    /// No provider is registered under this name.
    UnknownProvider(String),
    /// A provider's own failure, passed on verbatim.
    Provider(String),
    /// A script exited unsuccessfully; its standard error, or why its output
    /// could not be read.
    Script(String),
    /// A listing pattern was malformed, or listing failed.
    Glob(String),
    /// An extraction pattern did not compile.
    Pattern(String),
}

/// A named, synchronous source of options, registered before a session.
pub trait OptionProvider {
    fn get_options(&self) -> Result<Vec<String>, String>;
}

impl OptionProvider for Box<dyn OptionProvider> {
    fn get_options(&self) -> Result<Vec<String>, String> {
        (**self).get_options()
    }
}

pub open spec fn strings_view(v: Seq<String>) -> Seq<Seq<char>> {
    v.map_values(|s: String| s@)
}

// ---------------------------------------------------------------------------
// Outside crates
// ---------------------------------------------------------------------------

/// What `serde_json::from_str::<Vec<String>>` reads from a text: the strings
/// of a JSON array of strings, or nothing when the text is not one.
pub uninterp spec fn json_string_list(text: Seq<char>) -> Option<Seq<Seq<char>>>;

/// Relies on `serde_json::from_str::<Vec<String>>`, which reads a JSON array
/// of strings and fails on any other text.
#[verifier::external_body]
fn parse_json_list(text: &str) -> (r: Option<Vec<String>>)
    ensures
        match r {
            Some(v) => json_string_list(text@) == Some(strings_view(v@)),
            None => json_string_list(text@) is None,
        },
{
    serde_json::from_str::<Vec<String>>(text).ok()
}

/// Whether `regex::Regex::new` accepts a pattern.
pub uninterp spec fn pattern_compiles(pattern: Seq<char>) -> bool;

/// What `regex::Regex::captures` finds in a text, through `Captures::get(1)`:
/// no match; a match whose first group took no part; or the first group.
pub uninterp spec fn first_group(pattern: Seq<char>, text: Seq<char>) -> Option<Option<Seq<char>>>;

pub open spec fn opt_string_view(o: Option<String>) -> Option<Seq<char>> {
    match o {
        Some(s) => Some(s@),
        None => None,
    }
}

/// Relies on `regex::Regex::new` to compile `pattern` and on
/// `Regex::captures` with `Captures::get(1)` to find the first group of the
/// leftmost match in `text`.
#[verifier::external_body]
fn regex_first_group(pattern: &str, text: &str) -> (r: Result<Option<Option<String>>, String>)
    ensures
        r is Err <==> !pattern_compiles(pattern@),
        r is Ok ==> match r->Ok_0 {
            Some(g) => first_group(pattern@, text@) == Some(opt_string_view(g)),
            None => first_group(pattern@, text@) is None,
        },
{
    match regex::Regex::new(pattern) {
        Ok(re) => match re.captures(text) {
            Some(caps) => match caps.get(1) {
                Some(m) => Ok(Some(Some(m.as_str().to_string()))),
                None => Ok(Some(None)),
            },
            None => Ok(None),
        },
        Err(e) => Err(e.to_string()),
    }
}

/// Relies on `dirs::home_dir`: the user's home directory, if one is known.
/// The answer depends on the environment, so nothing is promised of it.
#[verifier::external_body]
fn home_dir() -> (r: Option<String>) {
    match dirs::home_dir() {
        Some(h) => Some(h.display().to_string()),
        None => None,
    }
}

// ---------------------------------------------------------------------------
// Variable substitution
// ---------------------------------------------------------------------------

/// The first `}` at or after index `i`.
pub open spec fn brace_from(t: Seq<char>, i: int) -> Option<int>
    decreases t.len() - i,
{
    if i < 0 || i >= t.len() {
        None
    } else if t[i] == '}' {
        Some(i)
    } else {
        brace_from(t, i + 1)
    }
}

pub open spec fn lookup(values: Map<Seq<char>, ConfigValue>, key: Seq<char>) -> Option<ConfigValue> {
    if values.contains_key(key) {
        Some(values[key])
    } else {
        None
    }
}

/// Whether a placeholder `${name}` (with a non-empty name) starts at `i`;
/// gives the index of its closing brace.
pub open spec fn placeholder_at(t: Seq<char>, i: int) -> Option<int> {
    if 0 <= i && i + 1 < t.len() && t[i] == '$' && t[i + 1] == '{' {
        match brace_from(t, i + 2) {
            Some(j) => if i + 2 < j < t.len() {
                Some(j)
            } else {
                None
            },
            None => None,
        }
    } else {
        None
    }
}

/// `t[i..]` with every placeholder `${key}` replaced, in one left-to-right
/// pass, by the text of the key's value (empty when the key is missing).
/// Replacement text is never expanded again.
pub open spec fn subst_from(t: Seq<char>, i: int, values: Map<Seq<char>, ConfigValue>) -> Seq<char>
    decreases t.len() - i,
{
    if i < 0 || i >= t.len() {
        Seq::empty()
    } else {
        match placeholder_at(t, i) {
            Some(j) => value_text(lookup(values, t.subrange(i + 2, j))) + subst_from(
                t,
                j + 1,
                values,
            ),
            None => seq![t[i]] + subst_from(t, i + 1, values),
        }
    }
}

pub open spec fn substitute(t: Seq<char>, values: Map<Seq<char>, ConfigValue>) -> Seq<char> {
    subst_from(t, 0, values)
}

fn find_brace(cs: &Vec<char>, from: usize) -> (r: Option<usize>)
    requires
        from <= cs@.len(),
    ensures
        match r {
            Some(j) => brace_from(cs@, from as int) == Some(j as int) && j < cs@.len(),
            None => brace_from(cs@, from as int) is None,
        },
{
    let mut j = from;
    while j < cs.len()
        invariant
            from <= j <= cs@.len(),
            brace_from(cs@, from as int) == brace_from(cs@, j as int),
        decreases cs.len() - j,
    {
        if cs[j] == '}' {
            return Some(j);
        }
        j = j + 1;
    }
    None
}

/// Replaces every `${key}` of a command template by the text of the key's
/// value in `values`.
pub fn substitute_variables(command: &str, values: &ValueMap) -> (r: String)
    requires
        values.wf(),
    ensures
        r@ == substitute(command@, values@),
{
    let cs = chars_of(command);
    let n = cs.len();
    let mut out = String::new();
    let mut i: usize = 0;
    while i < n
        invariant
            n == cs@.len(),
            i <= n,
            cs@ == command@,
            values.wf(),
            subst_from(cs@, 0, values@) == out@ + subst_from(cs@, i as int, values@),
        decreases n - i,
    {
        let mut close: Option<usize> = None;
        if i + 1 < n && cs[i] == '$' && cs[i + 1] == '{' {
            match find_brace(&cs, i + 2) {
                Some(j) => {
                    if j > i + 2 {
                        close = Some(j);
                    }
                },
                None => {},
            }
        }
        assert(close == match placeholder_at(cs@, i as int) {
            Some(j) => Some(j as usize),
            None => None::<usize>,
        });
        match close {
            Some(j) => {
                let key = string_of_range(&cs, i + 2, j);
                let text = value_to_text(values.get(key.as_str()));
                assert(text@ == value_text(lookup(values@, cs@.subrange(i + 2, j as int))));
                let ghost before = out@;
                out.append(text.as_str());
                assert(before + (text@ + subst_from(cs@, j + 1, values@)) == out@ + subst_from(
                    cs@,
                    j + 1,
                    values@,
                ));
                i = j + 1;
            },
            None => {
                let ghost before = out@;
                push_char(&mut out, cs[i]);
                assert(before + (seq![cs@[i as int]] + subst_from(cs@, i + 1, values@)) == out@
                    + subst_from(cs@, i + 1, values@));
                i = i + 1;
            },
        }
    }
    out
}

/// A placeholder is replaced by its value's text, and what follows is
/// substituted on its own: applied along a template, every occurrence of a
/// placeholder is replaced.
pub proof fn lemma_placeholder_replaced(
    key: Seq<char>,
    rest: Seq<char>,
    values: Map<Seq<char>, ConfigValue>,
)
    requires
        key.len() > 0,
        forall|k: int| 0 <= k < key.len() ==> key[k] != '}',
    ensures
        substitute(seq!['$', '{'] + key + seq!['}'] + rest, values) == value_text(
            lookup(values, key),
        ) + substitute(rest, values),
{
    let t = seq!['$', '{'] + key + seq!['}'] + rest;
    let j: int = key.len() + 2int;
    assert(t[j as int] == '}');
    assert forall|k: int| 2 <= k < j implies t[k] != '}' by {
        assert(t[k] == key[k - 2]);
    }
    assert(brace_from(t, 2) == Some(j as int)) by {
        lemma_brace_skip(t, 2, j as int);
    }
    assert(t.subrange(2, j as int) == key);
    assert(t.subrange(j + 1, t.len() as int) =~= rest);
    lemma_subst_suffix(t, j + 1, rest, values);
}

proof fn lemma_brace_skip(t: Seq<char>, i: int, j: int)
    requires
        0 <= i <= j < t.len(),
        t[j] == '}',
        forall|k: int| i <= k < j ==> t[k] != '}',
    ensures
        brace_from(t, i) == Some(j),
    decreases j - i,
{
    if i < j {
        lemma_brace_skip(t, i + 1, j);
    }
}

proof fn lemma_brace_shift(t: Seq<char>, off: int, i: int)
    requires
        0 <= off <= t.len(),
        0 <= i,
    ensures
        brace_from(t.subrange(off, t.len() as int), i) == match brace_from(t, i + off) {
            Some(j) => Some(j - off),
            None => None,
        },
    decreases t.len() - off - i,
{
    if i < t.len() - off && t[i + off] != '}' {
        lemma_brace_shift(t, off, i + 1);
    }
}

/// Substituting from index `off` of `t` is substituting the suffix `t[off..]`.
proof fn lemma_subst_suffix(t: Seq<char>, off: int, rest: Seq<char>, values: Map<Seq<char>, ConfigValue>)
    requires
        0 <= off <= t.len(),
        rest == t.subrange(off, t.len() as int),
    ensures
        subst_from(t, off, values) == subst_from(rest, 0, values),
{
    lemma_subst_shift(t, off, 0, values);
}

proof fn lemma_subst_shift(t: Seq<char>, off: int, i: int, values: Map<Seq<char>, ConfigValue>)
    requires
        0 <= off <= t.len(),
        0 <= i,
    ensures
        subst_from(t, off + i, values) == subst_from(t.subrange(off, t.len() as int), i, values),
    decreases t.len() - off - i,
{
    let s = t.subrange(off, t.len() as int);
    if i < s.len() {
        lemma_brace_shift(t, off, i + 2);
        match placeholder_at(t, off + i) {
            Some(j) => {
                assert(placeholder_at(s, i) == Some(j - off));
                assert(t.subrange(off + i + 2, j) == s.subrange(i + 2, j - off));
                lemma_subst_shift(t, off, j - off + 1, values);
            },
            None => {
                assert(placeholder_at(s, i) is None);
                lemma_subst_shift(t, off, i + 1, values);
            },
        }
    }
}

/// Every `${` in `a` is closed by a `}` that also lies in `a`.
pub open spec fn placeholders_closed(a: Seq<char>) -> bool {
    forall|i: int|
        #![trigger a[i]]
        0 <= i && i + 1 < a.len() && a[i] == '$' && a[i + 1] == '{' ==> exists|j: int|
            i + 2 <= j < a.len() && #[trigger] a[j] == '}'
}

proof fn lemma_brace_in_prefix(a: Seq<char>, t: Seq<char>, x: int, j0: int)
    requires
        a.len() <= t.len(),
        t.take(a.len() as int) == a,
        0 <= x <= j0 < a.len(),
        a[j0] == '}',
    ensures
        brace_from(t, x) == brace_from(a, x),
        brace_from(a, x) matches Some(j) && x <= j <= j0,
    decreases j0 - x,
{
    assert(t[x] == a[x]);
    if a[x] != '}' {
        lemma_brace_in_prefix(a, t, x + 1, j0);
    }
}

proof fn lemma_subst_prefix(a: Seq<char>, t: Seq<char>, i: int, values: Map<Seq<char>, ConfigValue>)
    requires
        a.len() < t.len(),
        t.take(a.len() as int) == a,
        t[a.len() as int] == '$',
        placeholders_closed(a),
        0 <= i <= a.len(),
    ensures
        subst_from(t, i, values) == subst_from(a, i, values) + subst_from(t, a.len() as int, values),
    decreases a.len() - i,
{
    if i < a.len() {
        assert(t[i] == a[i]);
        if i + 1 < a.len() && a[i] == '$' && a[i + 1] == '{' {
            assert(t[i + 1] == a[i + 1]);
            let j0 = choose|j: int| i + 2 <= j < a.len() && #[trigger] a[j] == '}';
            lemma_brace_in_prefix(a, t, i + 2, j0);
            assert(placeholder_at(t, i) == placeholder_at(a, i));
            match placeholder_at(a, i) {
                Some(j) => {
                    assert(t.subrange(i + 2, j) =~= a.subrange(i + 2, j)) by {
                        assert forall|k: int| i + 2 <= k < j implies t[k] == a[k] by {
                            assert(t.take(a.len() as int)[k] == t[k]);
                        }
                    }
                    lemma_subst_prefix(a, t, j + 1, values);
                },
                None => {
                    lemma_subst_prefix(a, t, i + 1, values);
                },
            }
        } else {
            if i + 1 < a.len() {
                assert(t[i + 1] == a[i + 1]);
            }
            assert(placeholder_at(t, i) is None);
            assert(placeholder_at(a, i) is None);
            lemma_subst_prefix(a, t, i + 1, values);
        }
        assert(seq![t[i]] + subst_from(a, i + 1, values) + subst_from(t, a.len() as int, values)
            == seq![t[i]] + (subst_from(a, i + 1, values) + subst_from(t, a.len() as int, values)));
    }
}

/// Wherever it stands, a placeholder `${key}` is replaced by the text of the
/// key's value (empty for a missing key), and the text around it is
/// substituted on its own; the text before it must close every `${` it opens.
pub proof fn lemma_placeholder_anywhere(
    a: Seq<char>,
    key: Seq<char>,
    b: Seq<char>,
    values: Map<Seq<char>, ConfigValue>,
)
    requires
        key.len() > 0,
        forall|k: int| 0 <= k < key.len() ==> key[k] != '}',
        placeholders_closed(a),
    ensures
        substitute(a + (seq!['$', '{'] + key + seq!['}'] + b), values) == substitute(a, values)
            + value_text(lookup(values, key)) + substitute(b, values),
{
    let p = seq!['$', '{'] + key + seq!['}'] + b;
    let t = a + p;
    assert(t.take(a.len() as int) =~= a);
    assert(t[a.len() as int] == '$');
    lemma_subst_prefix(a, t, 0, values);
    assert(t.subrange(a.len() as int, t.len() as int) =~= p);
    lemma_subst_suffix(t, a.len() as int, p, values);
    lemma_placeholder_replaced(key, b, values);
}

/// A key with no value in the map contributes nothing to the command.
pub proof fn lemma_missing_key_is_empty(
    before: Seq<char>,
    key: Seq<char>,
    rest: Seq<char>,
    values: Map<Seq<char>, ConfigValue>,
)
    requires
        key.len() > 0,
        forall|k: int| 0 <= k < key.len() ==> key[k] != '}',
        placeholders_closed(before),
        !values.contains_key(key),
    ensures
        substitute(before + (seq!['$', '{'] + key + seq!['}'] + rest), values) == substitute(
            before,
            values,
        ) + substitute(rest, values),
{
    lemma_placeholder_anywhere(before, key, rest, values);
    assert(value_text(lookup(values, key)) == Seq::<char>::empty());
    assert(substitute(before, values) + Seq::<char>::empty() == substitute(before, values));
}


// ---------------------------------------------------------------------------
// Script output
// ---------------------------------------------------------------------------

/// Reading `s` line by line: the finished lines and the line in progress.
pub open spec fn line_state(s: Seq<char>) -> (Seq<Seq<char>>, Seq<char>)
    decreases s.len(),
{
    if s.len() == 0 {
        (Seq::empty(), Seq::empty())
    } else {
        let (done, cur) = line_state(s.drop_last());
        if s.last() == '\n' {
            (done.push(cur), Seq::empty())
        } else {
            (done, cur.push(s.last()))
        }
    }
}

/// The trimmed lines that are not blank, in order.
pub open spec fn keep_nonblank(lines: Seq<Seq<char>>) -> Seq<Seq<char>>
    decreases lines.len(),
{
    if lines.len() == 0 {
        Seq::empty()
    } else {
        let r = keep_nonblank(lines.drop_last());
        if trim(lines.last()).len() > 0 {
            r.push(trim(lines.last()))
        } else {
            r
        }
    }
}

/// The newline-separated pieces of `s`, trimmed, without the blank ones.
pub open spec fn nonblank_lines(s: Seq<char>) -> Seq<Seq<char>> {
    let (done, cur) = line_state(s);
    keep_nonblank(done.push(cur))
}

/// The options that a script's standard output gives: a JSON array of
/// strings if it is one, else its non-blank trimmed lines.
pub open spec fn script_options(out: Seq<char>) -> Seq<Seq<char>> {
    match json_string_list(out) {
        Some(l) => l,
        None => nonblank_lines(out),
    }
}

fn push_trimmed(out: &mut Vec<String>, cur: &Vec<char>)
    ensures
        strings_view(final(out)@) == if trim(cur@).len() > 0 {
            strings_view(old(out)@).push(trim(cur@))
        } else {
            strings_view(old(out)@)
        },
{
    let (lo, hi) = trim_bounds(cur, 0, cur.len());
    assert(cur@.subrange(0, cur@.len() as int) == cur@);
    if lo < hi {
        let ghost before = out@;
        out.push(string_of_range(cur, lo, hi));
        assert(strings_view(out@) =~= strings_view(before).push(trim(cur@)));
    }
}

/// The non-blank trimmed lines of a text.
pub fn output_lines(text: &str) -> (r: Vec<String>)
    ensures
        strings_view(r@) == nonblank_lines(text@),
{
    let cs = chars_of(text);
    let mut out: Vec<String> = Vec::new();
    let mut cur: Vec<char> = Vec::new();
    let ghost mut done: Seq<Seq<char>> = Seq::empty();
    let mut i: usize = 0;
    while i < cs.len()
        invariant
            i <= cs@.len(),
            cs@ == text@,
            line_state(cs@.take(i as int)) == (done, cur@),
            strings_view(out@) == keep_nonblank(done),
        decreases cs.len() - i,
    {
        assert(cs@.take(i + 1).drop_last() == cs@.take(i as int));
        if cs[i] == '\n' {
            push_trimmed(&mut out, &cur);
            proof {
                assert(done.push(cur@).drop_last() == done);
                done = done.push(cur@);
            }
            cur = Vec::new();
        } else {
            cur.push(cs[i]);
        }
        i = i + 1;
    }
    assert(cs@.take(cs@.len() as int) == cs@);
    push_trimmed(&mut out, &cur);
    assert(done.push(cur@).drop_last() == done);
    out
}

/// The options of a script's standard output.
pub fn parse_script_output(stdout: &str) -> (r: Vec<String>)
    ensures
        strings_view(r@) == script_options(stdout@),
{
    match parse_json_list(stdout) {
        Some(v) => v,
        None => output_lines(stdout),
    }
}

// ---------------------------------------------------------------------------
// File listings
// ---------------------------------------------------------------------------

/// The part of a path after its last `/`.
pub open spec fn base_name(p: Seq<char>) -> Seq<char>
    decreases p.len(),
{
    if p.len() == 0 || p.last() == '/' {
        Seq::empty()
    } else {
        base_name(p.drop_last()).push(p.last())
    }
}

pub open spec fn opt_str_view(o: Option<&str>) -> Option<Seq<char>> {
    match o {
        Some(s) => Some(s@),
        None => None,
    }
}

/// The display string of one listed path: its base name without an
/// extraction pattern; with one, the first group of the match, and nothing
/// when the pattern does not capture (no match, or a first group that took
/// no part).
pub open spec fn display_entry(path: Seq<char>, extract: Option<Seq<char>>) -> Option<Seq<char>> {
    match extract {
        None => Some(base_name(path)),
        Some(pat) => match first_group(pat, path) {
            None => None,
            Some(None) => None,
            Some(Some(g)) => Some(g),
        },
    }
}

pub open spec fn display_names(paths: Seq<Seq<char>>, extract: Option<Seq<char>>) -> Seq<Seq<char>>
    decreases paths.len(),
{
    if paths.len() == 0 {
        Seq::empty()
    } else {
        let r = display_names(paths.drop_last(), extract);
        match display_entry(paths.last(), extract) {
            Some(d) => r.push(d),
            None => r,
        }
    }
}

pub fn base_name_of(path: &str) -> (r: String)
    ensures
        r@ == base_name(path@),
{
    let cs = chars_of(path);
    let n = cs.len();
    let mut j = n;
    assert(cs@.take(n as int) == cs@);
    assert(cs@.subrange(n as int, n as int) == Seq::<char>::empty());
    assert(cs@ + Seq::<char>::empty() == cs@);
    while j > 0 && cs[j - 1] != '/'
        invariant
            j <= n == cs@.len(),
            base_name(cs@) == base_name(cs@.take(j as int)) + cs@.subrange(j as int, n as int),
        decreases j,
    {
        assert(cs@.take(j as int).drop_last() == cs@.take(j - 1));
        assert(cs@.subrange(j - 1, n as int) == seq![cs@[j - 1]] + cs@.subrange(j as int, n as int));
        j = j - 1;
    }
    assert(cs@.take(n as int) == cs@);
    assert(base_name(cs@.take(j as int)) == Seq::<char>::empty());
    string_of_range(&cs, j, n)
}

/// Display strings of listed paths. An extraction pattern that does not
/// compile is an error as soon as there is a path to apply it to.
pub fn names_from_paths(paths: &Vec<String>, extract: Option<&str>) -> (r: Result<
    Vec<String>,
    ResolveError,
>)
    ensures
        (extract is Some && paths@.len() > 0 && !pattern_compiles(extract->0@)) ==> r matches Err(
            ResolveError::Pattern(_),
        ),
        !(extract is Some && paths@.len() > 0 && !pattern_compiles(extract->0@)) ==> r is Ok
            && strings_view(r->Ok_0@) == display_names(strings_view(paths@), opt_str_view(extract)),
{
    let mut out: Vec<String> = Vec::new();
    let mut i: usize = 0;
    while i < paths.len()
        invariant
            i <= paths@.len(),
            i > 0 && extract is Some ==> pattern_compiles(extract->0@),
            strings_view(out@) == display_names(strings_view(paths@.take(i as int)), opt_str_view(extract)),
        decreases paths.len() - i,
    {
        let path = paths[i].as_str();
        let shown: Option<String> = match extract {
            None => Some(base_name_of(path)),
            Some(pat) => match regex_first_group(pat, path) {
                Err(e) => {
                    return Err(ResolveError::Pattern(e));
                },
                Ok(None) => None,
                Ok(Some(None)) => None,
                Ok(Some(Some(g))) => Some(g),
            },
        };
        assert(strings_view(paths@.take(i + 1)).drop_last() =~= strings_view(paths@.take(i as int)));
        assert(strings_view(paths@.take(i + 1)).last() == paths@[i as int]@);
        assert(opt_string_view(shown) == display_entry(paths@[i as int]@, opt_str_view(extract)));
        match shown {
            Some(d) => {
                let ghost before = out@;
                out.push(d);
                assert(strings_view(out@) =~= strings_view(before).push(d@));
            },
            None => {},
        }
        i = i + 1;
    }
    assert(paths@.take(paths@.len() as int) == paths@);
    Ok(out)
}

/// A listed path whose extraction pattern does not match is left out; one
/// whose first group matched shows that group, not its file name.
pub proof fn lemma_extraction_filters(paths: Seq<Seq<char>>, path: Seq<char>, pattern: Seq<char>)
    ensures
        (first_group(pattern, path) is None || first_group(pattern, path) == Some(
            None::<Seq<char>>,
        )) ==> display_names(paths.push(path), Some(pattern)) == display_names(paths, Some(pattern)),
        first_group(pattern, path) matches Some(Some(g)) ==> display_names(
            paths.push(path),
            Some(pattern),
        ) == display_names(paths, Some(pattern)).push(g),
{
    assert(paths.push(path).drop_last() == paths);
}

/// A leading `~/` replaced by the home directory, when one is known.
pub open spec fn expand_home(path: Seq<char>, home: Option<Seq<char>>) -> Seq<char> {
    if path.len() >= 2 && path[0] == '~' && path[1] == '/' && home is Some {
        home->0 + path.drop_first()
    } else {
        path
    }
}

/// Expands a leading `~/` against the given home directory.
pub fn expand_home_with(path: &str, home: Option<&str>) -> (r: String)
    ensures
        r@ == expand_home(path@, opt_str_view(home)),
{
    let cs = chars_of(path);
    if cs.len() >= 2 && cs[0] == '~' && cs[1] == '/' {
        match home {
            Some(h) => {
                let mut out = String::from_str(h);
                let rest = string_of_range(&cs, 1, cs.len());
                out.append(rest.as_str());
                return out;
            },
            None => {},
        }
    }
    path.to_owned()
}

/// Expands a leading `~/` against the user's home directory.
fn expand_path(path: &str) -> (r: String)
    ensures
        exists|h: Option<Seq<char>>| r@ == expand_home(path@, h),
{
    let cs = chars_of(path);
    if cs.len() >= 2 && cs[0] == '~' && cs[1] == '/' {
        let home = home_dir();
        let r = match &home {
            Some(h) => expand_home_with(path, Some(h.as_str())),
            None => expand_home_with(path, None),
        };
        assert(r@ == expand_home(path@, opt_string_view(home)));
        r
    } else {
        let r = path.to_owned();
        assert(r@ == expand_home(path@, None));
        r
    }
}

/// The glob pattern of a listing: the expanded directory, `/`, the pattern.
pub fn file_list_pattern(directory: &str, pattern: &str) -> (r: String)
    ensures
        exists|h: Option<Seq<char>>| r@ == expand_home(directory@, h) + seq!['/'] + pattern@,
{
    let mut dir = expand_path(directory);
    let ghost d = dir@;
    push_char(&mut dir, '/');
    dir.append(pattern);
    assert(dir@ == d + seq!['/'] + pattern@);
    dir
}

// ---------------------------------------------------------------------------
// The resolver
// ---------------------------------------------------------------------------

/// The cache key of a script run: the template, `:`, the concrete command.
pub open spec fn script_cache_key(command: Seq<char>, substituted: Seq<char>) -> Seq<char> {
    command + seq![':'] + substituted
}

/// What to do for a script source.
pub enum ScriptPlan {
    /// A live cache entry answers the request.
    Cached(Vec<String>),
    /// Run `command` through a shell, then hand the outcome to
    /// `OptionResolver::finish_script` with `cache_key`.
    Run { command: String, cache_key: String },
}

/// How a script run ended.
pub enum ScriptRun {
    /// Exit status zero, with the standard output as text.
    Succeeded(String),
    /// Any other ending, with the standard error as text.
    Failed(String),
}

/// The outcome of `OptionResolver::resolve`.
pub enum Resolution {
    Ready(Result<Vec<String>, ResolveError>),
    /// Run a script as `ScriptPlan::Run` says.
    RunScript { command: String, cache_key: String, cache_duration: Option<u64> },
    /// List the files that match `pattern`, then call `names_from_paths`.
    ListFiles { pattern: String, extract: Option<String> },
}

pub fn copy_strings(v: &Vec<String>) -> (r: Vec<String>)
    ensures
        r@ == v@,
{
    let mut out: Vec<String> = Vec::new();
    let mut i: usize = 0;
    while i < v.len()
        invariant
            i <= v@.len(),
            out@ == v@.take(i as int),
        decreases v.len() - i,
    {
        out.push(v[i].clone());
        assert(v@.take(i + 1) == v@.take(i as int).push(v@[i as int]));
        i = i + 1;
    }
    assert(v@.take(v@.len() as int) == v@);
    out
}

pub struct OptionResolver<P: OptionProvider> {
    cache: OptionCache,
    providers: Vec<(String, P)>,
}

impl<P: OptionProvider> Default for OptionResolver<P> {
    fn default() -> (r: OptionResolver<P>)
        ensures
            r.wf(),
            r.cache_view()@ == Map::<Seq<char>, CachedOptions>::empty(),
            forall|k: Seq<char>| !r.has_provider(k),
    {
        OptionResolver::new()
    }
}

impl<P: OptionProvider> OptionResolver<P> {
    pub closed spec fn wf(&self) -> bool {
        self.cache.wf() && keys_unique(self.providers@)
    }

    pub closed spec fn has_provider(&self, name: Seq<char>) -> bool {
        map_of(self.providers@).contains_key(name)
    }

    /// The provider registered under `name`.
    pub closed spec fn provider(&self, name: Seq<char>) -> P {
        map_of(self.providers@)[name]
    }

    /// `res` is what asking for the options named `name` gives: the answer
    /// of the provider registered under it, passed on, or `UnknownProvider`
    /// when there is none.
    pub open spec fn answers(&self, name: Seq<char>, res: Result<Vec<String>, ResolveError>) -> bool {
        if self.has_provider(name) {
            exists|answer: Result<Vec<String>, String>|
                call_ensures(P::get_options, (&self.provider(name),), answer) && res == match answer {
                    Ok(v) => Ok::<Vec<String>, ResolveError>(v),
                    Err(e) => Err(ResolveError::Provider(e)),
                }
        } else {
            res matches Err(ResolveError::UnknownProvider(n)) && n@ == name
        }
    }

    /// What resolving `source` against `values` at `now_ms` gives: a static
    /// list as it is; a provider's answer; a live cached script result, else
    /// the script to run; the listing pattern to expand.
    pub open spec fn resolves(
        &self,
        source: OptionSource,
        values: Map<Seq<char>, ConfigValue>,
        now_ms: u64,
        r: Resolution,
    ) -> bool {
        match source {
            OptionSource::Static { values: vs } => r matches Resolution::Ready(Ok(v)) && v@ == vs@,
            OptionSource::Function { name } => r matches Resolution::Ready(res) && self.answers(name@, res),
            OptionSource::Provider { provider } => r matches Resolution::Ready(res) && self.answers(
                provider@,
                res,
            ),
            OptionSource::Script { command, cache_duration, .. } => {
                let key = script_cache_key(command@, substitute(command@, values));
                if cache_duration is Some && self.cache_view().visible(key, now_ms) is Some {
                    r matches Resolution::Ready(Ok(v)) && Some(v@) == self.cache_view().visible(key, now_ms)
                } else {
                    r matches Resolution::RunScript { command: c, cache_key: k, cache_duration: d }
                        && c@ == substitute(command@, values) && k@ == key && d == cache_duration
                }
            },
            OptionSource::FileList { directory, pattern, extract } => r matches Resolution::ListFiles {
                pattern: p,
                extract: e,
            } && (exists|h: Option<Seq<char>>| p@ == expand_home(directory@, h) + seq!['/'] + pattern@)
                && e == extract,
        }
    }

    /// `after` is this resolver once a script run ended as `run`: a failure
    /// is reported with its standard error; a success gives the output's
    /// options and, with a TTL, stores them under `cache_key` at `now_ms`.
    /// The providers stay as they are.
    pub open spec fn finishes(
        &self,
        after: Self,
        cache_key: Seq<char>,
        cache_duration: Option<u64>,
        run: ScriptRun,
        now_ms: u64,
        r: Result<Vec<String>, ResolveError>,
    ) -> bool {
        &&& forall|k: Seq<char>| #[trigger] after.has_provider(k) == self.has_provider(k)
        &&& forall|k: Seq<char>| self.has_provider(k) ==> #[trigger] after.provider(k) == self.provider(k)
        &&& match run {
            ScriptRun::Failed(e) => r == Err::<Vec<String>, ResolveError>(ResolveError::Script(e))
                && after.cache_view() == self.cache_view(),
            ScriptRun::Succeeded(out) => r is Ok && strings_view(r->Ok_0@) == script_options(out@)
                && match cache_duration {
                Some(ttl) => stores(self.cache_view()@, after.cache_view()@, cache_key, r->Ok_0@, now_ms, ttl),
                None => after.cache_view() == self.cache_view(),
            },
        }
    }

    /// The option cache, as readers see it.
    pub closed spec fn cache_view(&self) -> OptionCache {
        self.cache
    }

    pub fn new() -> (r: OptionResolver<P>)
        ensures
            r.wf(),
            r.cache_view()@ == Map::<Seq<char>, CachedOptions>::empty(),
            forall|k: Seq<char>| !r.has_provider(k),
    {
        OptionResolver { cache: OptionCache::new(), providers: Vec::new() }
    }

    /// Registers `provider` under `name`, replacing an earlier one.
    pub fn register_provider(&mut self, name: String, provider: P)
        requires
            old(self).wf(),
        ensures
            final(self).wf(),
            forall|k: Seq<char>| #[trigger]
                final(self).has_provider(k) == (k == name@ || old(self).has_provider(k)),
            final(self).provider(name@) == provider,
            forall|k: Seq<char>|
                k != name@ && old(self).has_provider(k) ==> #[trigger] final(self).provider(k) == old(
                    self,
                ).provider(k),
            final(self).cache_view() == old(self).cache_view(),
    {
        match find_key(&self.providers, name.as_str()) {
            Some(i) => {
                proof {
                    lemma_map_of_update(self.providers@, i as int, (name, provider));
                }
                self.providers.set(i, (name, provider));
            },
            None => {
                proof {
                    lemma_map_of_has(self.providers@, name@);
                }
                let ghost old_e = self.providers@;
                self.providers.push((name, provider));
                assert(self.providers@.drop_last() == old_e);
            },
        }
    }

    /// The options of the provider registered under `name`; its own failure
    /// is passed on.
    pub fn resolve_from_provider(&self, name: &str) -> (r: Result<Vec<String>, ResolveError>)
        requires
            self.wf(),
        ensures
            !self.has_provider(name@) <==> r matches Err(ResolveError::UnknownProvider(_)),
            r matches Err(ResolveError::UnknownProvider(n)) ==> n@ == name@,
            r is Err ==> r matches Err(ResolveError::UnknownProvider(_)) || r matches Err(
                ResolveError::Provider(_),
            ),
            self.answers(name@, r),
    {
        match find_key(&self.providers, name) {
            None => Err(ResolveError::UnknownProvider(name.to_owned())),
            Some(i) => {
                proof {
                    lemma_map_of_at(self.providers@, i as int);
                }
                let answer = self.providers[i].1.get_options();
                assert(self.provider(name@) == self.providers@[i as int].1);
                assert(call_ensures(P::get_options, (&self.provider(name@),), answer));
                match answer {
                    Ok(v) => Ok(v),
                    Err(e) => Err(ResolveError::Provider(e)),
                }
            },
        }
    }

    /// Decides how to answer a script source at time `now_ms`: from the cache
    /// when a TTL is declared and a live entry exists, else by a run.
    pub fn plan_script(
        &self,
        command: &str,
        cache_duration: Option<u64>,
        values: &ValueMap,
        now_ms: u64,
    ) -> (r: ScriptPlan)
        requires
            self.wf(),
            values.wf(),
        ensures
            ({
                let key = script_cache_key(command@, substitute(command@, values@));
                if cache_duration is Some && self.cache_view().visible(key, now_ms) is Some {
                    r matches ScriptPlan::Cached(v) && Some(v@) == self.cache_view().visible(key, now_ms)
                } else {
                    r matches ScriptPlan::Run { command: c, cache_key: k } && c@ == substitute(
                        command@,
                        values@,
                    ) && k@ == key
                }
            }),
    {
        let substituted = substitute_variables(command, values);
        let mut key = String::from_str(command);
        push_char(&mut key, ':');
        key.append(substituted.as_str());
        assert(key@ == script_cache_key(command@, substitute(command@, values@)));
        if cache_duration.is_some() {
            match self.cache.get_at(key.as_str(), now_ms) {
                Some(v) => {
                    return ScriptPlan::Cached(copy_strings(v));
                },
                None => {},
            }
        }
        ScriptPlan::Run { command: substituted, cache_key: key }
    }

    /// Turns the outcome of a script run into options. A successful run with
    /// a declared TTL is stored under `cache_key`, captured at `now_ms`.
    pub fn finish_script(
        &mut self,
        cache_key: String,
        cache_duration: Option<u64>,
        run: ScriptRun,
        now_ms: u64,
    ) -> (r: Result<Vec<String>, ResolveError>)
        requires
            old(self).wf(),
        ensures
            final(self).wf(),
            old(self).finishes(*final(self), cache_key@, cache_duration, run, now_ms, r),
    {
        match run {
            ScriptRun::Failed(e) => Err(ResolveError::Script(e)),
            ScriptRun::Succeeded(out) => {
                let options = parse_script_output(out.as_str());
                match cache_duration {
                    Some(ttl) => {
                        self.cache.insert_at(cache_key, copy_strings(&options), ttl, now_ms);
                    },
                    None => {},
                }
                Ok(options)
            },
        }
    }

    /// Resolves an option source as far as it can without running anything.
    pub fn resolve(&self, source: &OptionSource, values: &ValueMap, now_ms: u64) -> (r: Resolution)
        requires
            self.wf(),
            values.wf(),
        ensures
            self.resolves(*source, values@, now_ms, r),
    {
        match source {
            OptionSource::Static { values: vs } => Resolution::Ready(Ok(copy_strings(vs))),
            OptionSource::Function { name } => Resolution::Ready(self.resolve_from_provider(name.as_str())),
            OptionSource::Provider { provider } => Resolution::Ready(
                self.resolve_from_provider(provider.as_str()),
            ),
            OptionSource::Script { command, cache_duration, .. } => {
                match self.plan_script(command.as_str(), *cache_duration, values, now_ms) {
                    ScriptPlan::Cached(v) => Resolution::Ready(Ok(v)),
                    ScriptPlan::Run { command: c, cache_key: k } => Resolution::RunScript {
                        command: c,
                        cache_key: k,
                        cache_duration: *cache_duration,
                    },
                }
            },
            OptionSource::FileList { directory, pattern, extract } => {
                let e = match extract {
                    Some(x) => Some(x.clone()),
                    None => None,
                };
                Resolution::ListFiles { pattern: file_list_pattern(directory.as_str(), pattern.as_str()), extract: e }
            },
        }
    }
}

/// `after` is `before` with `options` stored under `key`, captured at `at`.
pub open spec fn stores(
    before: Map<Seq<char>, CachedOptions>,
    after: Map<Seq<char>, CachedOptions>,
    key: Seq<char>,
    options: Seq<String>,
    at: u64,
    ttl: u64,
) -> bool {
    &&& after.contains_key(key)
    &&& after[key].options@ == options
    &&& after[key].timestamp_ms == at
    &&& after[key].ttl_secs == ttl
    &&& forall|k: Seq<char>|
        k != key ==> (#[trigger] after.contains_key(k) == before.contains_key(k) && (
        before.contains_key(k) ==> after[k] == before[k]))
}

/// Within its TTL a stored script result answers the same command again, with
/// the same options and without a run; once the TTL has passed, it does not.
pub proof fn lemma_script_cache_window(
    cache: OptionCache,
    key: Seq<char>,
    options: Seq<String>,
    ttl: u64,
    stored_at: u64,
    now: u64,
    after: OptionCache,
)
    requires
        stores(cache@, after@, key, options, stored_at, ttl),
    ensures
        stored_at <= now && now - stored_at < ttl * 1000 ==> after.visible(key, now) == Some(options),
        stored_at <= now && now - stored_at >= ttl * 1000 ==> after.visible(key, now) is None,
{
}

} // verus!

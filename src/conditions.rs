//! Section visibility predicates: `<key> == <literal>` or `<key> != <literal>`.
//! A predicate that cannot be evaluated counts as satisfied, so a malformed
//! predicate never hides a section.
use vstd::prelude::*;
use crate::text::{
    chars_of, chars_equal, string_of_range, trim, trim_bounds, i64_of, parse_i64,
};
use crate::value::{ConfigValue, ValueMap};

verus! {

/// The first index `k >= i` where `a` is directly followed by `b`.
pub open spec fn pair_from(s: Seq<char>, a: char, b: char, i: int) -> Option<int>
    decreases s.len() - i,
{
    if i < 0 || i + 1 >= s.len() {
        None
    } else if s[i] == a && s[i + 1] == b {
        Some(i)
    } else {
        pair_from(s, a, b, i + 1)
    }
}

/// Length of the run of `c` at the start of `s`.
pub open spec fn lead_run(s: Seq<char>, c: char) -> nat
    decreases s.len(),
{
    if s.len() > 0 && s[0] == c {
        1 + lead_run(s.drop_first(), c)
    } else {
        0
    }
}

/// Length of the run of `c` at the end of `s`.
pub open spec fn trail_run(s: Seq<char>, c: char) -> nat
    decreases s.len(),
{
    if s.len() > 0 && s.last() == c {
        1 + trail_run(s.drop_last(), c)
    } else {
        0
    }
}

/// `s` without `c` at either end, as `str::trim_matches(c)` gives it.
pub open spec fn strip(s: Seq<char>, c: char) -> Seq<char> {
    let t = s.subrange(lead_run(s, c) as int, s.len() as int);
    t.take(t.len() - trail_run(t, c))
}

/// A literal with its double, then single, quotes taken off.
pub open spec fn unquote(s: Seq<char>) -> Seq<char> {
    strip(strip(s, '"'), '\'')
}

pub open spec fn true_text() -> Seq<char> {
    seq!['t', 'r', 'u', 'e']
}

pub open spec fn false_text() -> Seq<char> {
    seq!['f', 'a', 'l', 's', 'e']
}

/// Verdict of `key == expected` for a stored value.
pub open spec fn equals_verdict(actual: ConfigValue, expected: Seq<char>) -> bool {
    match actual {
        ConfigValue::Bool(b) => if expected == true_text() {
            b
        } else if expected == false_text() {
            !b
        } else {
            true
        },
        ConfigValue::Text(s) => s@ == unquote(expected),
        ConfigValue::Integer(n) => match i64_of(expected) {
            Some(e) => n == e,
            None => true,
        },
        _ => true,
    }
}

/// Verdict of `key != expected` for a stored value.
pub open spec fn differs_verdict(actual: ConfigValue, expected: Seq<char>) -> bool {
    match actual {
        ConfigValue::Bool(b) => if expected == true_text() {
            !b
        } else if expected == false_text() {
            b
        } else {
            true
        },
        ConfigValue::Text(s) => s@ != unquote(expected),
        ConfigValue::Integer(n) => match i64_of(expected) {
            Some(e) => n != e,
            None => true,
        },
        _ => true,
    }
}

/// The value of a predicate against a value map. The first `==` splits it;
/// failing that, the first `!=`. A missing key, an unexpected value type or a
/// predicate of neither shape gives `true`.
pub open spec fn condition_holds(cond: Seq<char>, values: Map<Seq<char>, ConfigValue>) -> bool {
    let c = trim(cond);
    match pair_from(c, '=', '=', 0) {
        Some(i) => {
            let key = trim(c.take(i));
            let expected = trim(c.subrange(i + 2, c.len() as int));
            values.contains_key(key) ==> equals_verdict(values[key], expected)
        },
        None => match pair_from(c, '!', '=', 0) {
            Some(i) => {
                let key = trim(c.take(i));
                let expected = trim(c.subrange(i + 2, c.len() as int));
                values.contains_key(key) ==> differs_verdict(values[key], expected)
            },
            None => true,
        },
    }
}

fn find_pair(cs: &Vec<char>, lo: usize, hi: usize, a: char, b: char) -> (r: Option<usize>)
    requires
        lo <= hi <= cs@.len(),
    ensures
        match r {
            Some(k) => lo <= k && k + 2 <= hi && Some(k - lo) == pair_from(
                cs@.subrange(lo as int, hi as int),
                a,
                b,
                0,
            ),
            None => pair_from(cs@.subrange(lo as int, hi as int), a, b, 0) is None,
        },
{
    let ghost s = cs@.subrange(lo as int, hi as int);
    let mut i = lo;
    while i < hi && i + 1 < hi
        invariant
            lo <= i <= hi <= cs@.len(),
            s == cs@.subrange(lo as int, hi as int),
            pair_from(s, a, b, 0) == pair_from(s, a, b, i - lo),
        decreases hi - i,
    {
        if cs[i] == a && cs[i + 1] == b {
            assert(s[i - lo] == a && s[i - lo + 1] == b);
            return Some(i);
        }
        i = i + 1;
    }
    None
}

fn strip_bounds(cs: &Vec<char>, from: usize, to: usize, c: char) -> (r: (usize, usize))
    requires
        from <= to <= cs@.len(),
    ensures
        from <= r.0 <= r.1 <= to,
        cs@.subrange(r.0 as int, r.1 as int) == strip(cs@.subrange(from as int, to as int), c),
{
    let ghost s = cs@.subrange(from as int, to as int);
    let mut lo = from;
    while lo < to && cs[lo] == c
        invariant
            from <= lo <= to <= cs@.len(),
            s == cs@.subrange(from as int, to as int),
            lead_run(s, c) == (lo - from) + lead_run(cs@.subrange(lo as int, to as int), c),
        decreases to - lo,
    {
        assert(cs@.subrange(lo + 1, to as int) == cs@.subrange(lo as int, to as int).drop_first());
        lo = lo + 1;
    }
    let ghost t = cs@.subrange(lo as int, to as int);
    assert(lead_run(t, c) == 0);
    assert(s.subrange(lead_run(s, c) as int, s.len() as int) == t);
    let mut hi = to;
    while hi > lo && cs[hi - 1] == c
        invariant
            from <= lo <= hi <= to <= cs@.len(),
            t == cs@.subrange(lo as int, to as int),
            trail_run(t, c) == (to - hi) + trail_run(cs@.subrange(lo as int, hi as int), c),
        decreases hi - lo,
    {
        assert(cs@.subrange(lo as int, hi - 1) == cs@.subrange(lo as int, hi as int).drop_last());
        hi = hi - 1;
    }
    assert(t.take(t.len() - trail_run(t, c)) == cs@.subrange(lo as int, hi as int));
    (lo, hi)
}

fn range_chars(cs: &Vec<char>, lo: usize, hi: usize) -> (r: Vec<char>)
    requires
        lo <= hi <= cs@.len(),
    ensures
        r@ == cs@.subrange(lo as int, hi as int),
{
    let mut out: Vec<char> = Vec::new();
    let mut i = lo;
    while i < hi
        invariant
            lo <= i <= hi <= cs@.len(),
            out@ == cs@.subrange(lo as int, i as int),
        decreases hi - i,
    {
        out.push(cs[i]);
        assert(cs@.subrange(lo as int, i + 1) == cs@.subrange(lo as int, i as int).push(cs@[i as int]));
        i = i + 1;
    }
    out
}

fn literal_true() -> (r: Vec<char>)
    ensures
        r@ == true_text(),
{
    let r = chars_of("true");
    proof {
        reveal_strlit("true");
    }
    r
}

fn literal_false() -> (r: Vec<char>)
    ensures
        r@ == false_text(),
{
    let r = chars_of("false");
    proof {
        reveal_strlit("false");
    }
    r
}

fn equals_check(actual: &ConfigValue, expected: &Vec<char>) -> (r: bool)
    ensures
        r == equals_verdict(*actual, expected@),
{
    match actual {
        ConfigValue::Bool(b) => {
            if chars_equal(expected, &literal_true()) {
                *b
            } else if chars_equal(expected, &literal_false()) {
                !*b
            } else {
                true
            }
        },
        ConfigValue::Text(s) => {
            let (a, b) = strip_bounds(expected, 0, expected.len(), '"');
            assert(expected@.subrange(0, expected@.len() as int) == expected@);
            let (a2, b2) = strip_bounds(expected, a, b, '\'');
            let want = range_chars(expected, a2, b2);
            chars_equal(&chars_of(s.as_str()), &want)
        },
        ConfigValue::Integer(n) => match parse_i64(expected) {
            Some(e) => *n == e,
            None => true,
        },
        _ => true,
    }
}

fn differs_check(actual: &ConfigValue, expected: &Vec<char>) -> (r: bool)
    ensures
        r == differs_verdict(*actual, expected@),
{
    match actual {
        ConfigValue::Bool(b) => {
            if chars_equal(expected, &literal_true()) {
                !*b
            } else if chars_equal(expected, &literal_false()) {
                *b
            } else {
                true
            }
        },
        ConfigValue::Text(s) => {
            let (a, b) = strip_bounds(expected, 0, expected.len(), '"');
            assert(expected@.subrange(0, expected@.len() as int) == expected@);
            let (a2, b2) = strip_bounds(expected, a, b, '\'');
            let want = range_chars(expected, a2, b2);
            !chars_equal(&chars_of(s.as_str()), &want)
        },
        ConfigValue::Integer(n) => match parse_i64(expected) {
            Some(e) => *n != e,
            None => true,
        },
        _ => true,
    }
}

/// Evaluates a visibility predicate such as `general.use_matugen == true`.
pub fn evaluate_condition(condition: &str, values: &ValueMap) -> (r: bool)
    requires
        values.wf(),
    ensures
        r == condition_holds(condition@, values@),
{
    let cs = chars_of(condition);
    let (lo, hi) = trim_bounds(&cs, 0, cs.len());
    assert(cs@.subrange(0, cs@.len() as int) == cs@);
    let ghost c = cs@.subrange(lo as int, hi as int);
    let (split, is_eq) = match find_pair(&cs, lo, hi, '=', '=') {
        Some(k) => (Some(k), true),
        None => (find_pair(&cs, lo, hi, '!', '='), false),
    };
    match split {
        None => true,
        Some(k) => {
            let (klo, khi) = trim_bounds(&cs, lo, k);
            let (elo, ehi) = trim_bounds(&cs, k + 2, hi);
            assert(cs@.subrange(lo as int, k as int) == c.take(k - lo));
            assert(cs@.subrange(k + 2, hi as int) == c.subrange(k - lo + 2, c.len() as int));
            let key = string_of_range(&cs, klo, khi);
            let expected = range_chars(&cs, elo, ehi);
            match values.get(key.as_str()) {
                None => true,
                Some(actual) => {
                    if is_eq {
                        equals_check(actual, &expected)
                    } else {
                        differs_check(actual, &expected)
                    }
                },
            }
        },
    }
}

} // verus!

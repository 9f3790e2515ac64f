//! Layout decisions for drawing: which section tabs fit in the tab bar.
use vstd::prelude::*;

verus! {

/// Total width of the tabs `widths[lo..hi]`.
pub open spec fn span_width(widths: Seq<usize>, lo: int, hi: int) -> int
    decreases hi - lo,
{
    if lo >= hi {
        0
    } else {
        span_width(widths, lo, hi - 1) + widths[hi - 1]
    }
}

proof fn lemma_span_split(widths: Seq<usize>, lo: int, mid: int, hi: int)
    requires
        lo <= mid <= hi,
    ensures
        span_width(widths, lo, hi) == span_width(widths, lo, mid) + span_width(widths, mid, hi),
    decreases hi - mid,
{
    if mid < hi {
        lemma_span_split(widths, lo, mid, hi - 1);
    }
}

proof fn lemma_span_one(widths: Seq<usize>, i: int)
    ensures
        span_width(widths, i, i + 1) == widths[i],
{
    assert(span_width(widths, i, i) == 0);
}

proof fn lemma_span_nonneg(widths: Seq<usize>, lo: int, hi: int)
    ensures
        span_width(widths, lo, hi) >= 0,
    decreases hi - lo,
{
    if lo < hi {
        lemma_span_nonneg(widths, lo, hi - 1);
    }
}

/// The tabs `[start, end)` to show so that the selected one is visible: all
/// of them when they fit in `available`; otherwise a window grown from the
/// selected tab, one neighbor at a time, toward the side with more tabs
/// left, for as long as a neighbor still fits.
pub fn tab_window(widths: &Vec<usize>, selected: usize, available: usize) -> (r: (usize, usize))
    requires
        selected < widths@.len(),
        span_width(widths@, 0, widths@.len() as int) <= usize::MAX,
    ensures
        r.0 <= selected < r.1 <= widths@.len(),
        span_width(widths@, 0, widths@.len() as int) <= available ==> r.0 == 0 && r.1 == widths@.len(),
        span_width(widths@, 0, widths@.len() as int) > available ==> {
            &&& span_width(widths@, r.0 as int, r.1 as int) <= available || (r.0 == selected && r.1
                == selected + 1)
            &&& (span_width(widths@, r.0 as int, r.1 as int) < available ==> (r.0 == 0
                || span_width(widths@, r.0 as int, r.1 as int) + widths@[r.0 - 1] > available) && (
            r.1 == widths@.len() || span_width(widths@, r.0 as int, r.1 as int) + widths@[r.1 as int]
                > available))
        },
{
    let n = widths.len();
    let mut total: usize = 0;
    let mut i: usize = 0;
    while i < n
        invariant
            i <= n == widths@.len(),
            total == span_width(widths@, 0, i as int),
            span_width(widths@, 0, n as int) <= usize::MAX,
        decreases n - i,
    {
        proof {
            lemma_span_split(widths@, 0, i + 1, n as int);
            lemma_span_nonneg(widths@, i + 1, n as int);
        }
        total = total + widths[i];
        i = i + 1;
    }
    if total <= available {
        return (0, n);
    }
    proof {
        lemma_span_split(widths@, 0, selected as int, n as int);
        lemma_span_split(widths@, selected as int, selected + 1, n as int);
        lemma_span_nonneg(widths@, 0, selected as int);
        lemma_span_nonneg(widths@, selected + 1, n as int);
    }
    let mut left = selected;
    let mut right = selected + 1;
    let mut width: usize = widths[selected];
    proof {
        lemma_span_one(widths@, selected as int);
    }
    while width < available && (left > 0 || right < n)
        invariant
            left <= selected < right <= n == widths@.len(),
            width == span_width(widths@, left as int, right as int),
            width <= available || (left == selected && right == selected + 1),
            span_width(widths@, 0, n as int) <= usize::MAX,
        ensures
            left <= selected < right <= n,
            width == span_width(widths@, left as int, right as int),
            width <= available || (left == selected && right == selected + 1),
            width < available ==> (left == 0 || width + widths@[left - 1] > available) && (right == n
                || width + widths@[right as int] > available),
        decreases n - right + left,
    {
        let can_left = left > 0 && widths[left - 1] <= available - width;
        let can_right = right < n && widths[right] <= available - width;
        let left_has_more = left > n - right;
        if can_left && (left_has_more || !can_right) {
            proof {
                lemma_span_split(widths@, left - 1, left as int, right as int);
                lemma_span_one(widths@, left - 1);
            }
            left = left - 1;
            width = width + widths[left];
        } else if can_right {
            proof {
                lemma_span_split(widths@, left as int, right as int, right + 1);
                lemma_span_one(widths@, right as int);
            }
            width = width + widths[right];
            right = right + 1;
        } else {
            break;
        }
    }
    (left, right)
}


/// One row of a section's field list.
#[derive(Debug, Clone, Copy, PartialEq, Eq, Structural)]
pub enum ListRow {
    /// Spacing before a subsection header.
    Blank,
    /// The header of the subsection that field `i` opens.
    Header(usize),
    /// Field `i`.
    Field(usize),
}

pub open spec fn opt_view(o: Option<String>) -> Option<Seq<char>> {
    match o {
        Some(s) => Some(s@),
        None => None,
    }
}

/// The rows for fields with these subsection tags, and the subsection open
/// after them. A field whose tag differs from the open one opens its
/// subsection with a header (after a blank row, unless it is the first row);
/// an untagged field never closes one.
pub open spec fn rows_for(tags: Seq<Option<Seq<char>>>) -> (Seq<ListRow>, Option<Seq<char>>)
    decreases tags.len(),
{
    if tags.len() == 0 {
        (Seq::empty(), None)
    } else {
        let (rows, open) = rows_for(tags.drop_last());
        let i = (tags.len() - 1) as usize;
        if tags.last() is Some && tags.last() != open {
            let spaced = if rows.len() > 0 {
                rows.push(ListRow::Blank)
            } else {
                rows
            };
            (spaced.push(ListRow::Header(i)).push(ListRow::Field(i)), tags.last())
        } else {
            (rows.push(ListRow::Field(i)), open)
        }
    }
}

fn same_tag(a: &Option<String>, b: &Option<String>) -> (r: bool)
    ensures
        r == (opt_view(*a) == opt_view(*b)),
{
    match (a, b) {
        (Some(x), Some(y)) => crate::assoc::str_equal(x.as_str(), y.as_str()),
        (None, None) => true,
        _ => false,
    }
}

/// The rows of a field list whose fields carry these subsection tags.
pub fn list_rows(tags: &Vec<Option<String>>) -> (r: Vec<ListRow>)
    ensures
        r@ == rows_for(tags@.map_values(|t: Option<String>| opt_view(t))).0,
{
    let ghost view = tags@.map_values(|t: Option<String>| opt_view(t));
    let mut rows: Vec<ListRow> = Vec::new();
    let mut open: Option<String> = None;
    let mut i: usize = 0;
    while i < tags.len()
        invariant
            i <= tags@.len(),
            view == tags@.map_values(|t: Option<String>| opt_view(t)),
            rows_for(view.take(i as int)) == (rows@, opt_view(open)),
        decreases tags.len() - i,
    {
        assert(view.take(i + 1).drop_last() == view.take(i as int));
        assert(view.take(i + 1).last() == opt_view(tags@[i as int]));
        let tag = &tags[i];
        if tag.is_some() && !same_tag(tag, &open) {
            if rows.len() > 0 {
                rows.push(ListRow::Blank);
            }
            rows.push(ListRow::Header(i));
            rows.push(ListRow::Field(i));
            open = tag.clone();
            assert(opt_view(open) == opt_view(tags@[i as int]));
        } else {
            rows.push(ListRow::Field(i));
        }
        i = i + 1;
    }
    assert(view.take(tags@.len() as int) == view);
    rows
}

} // verus!

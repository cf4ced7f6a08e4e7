//! Columns, labels and cells of the process table.

use vstd::prelude::*;

use crate::ui::format::{decimal, decimal_string, grouped};
use crate::ui::cpu_panel::append_styled;
use crate::ui::graph_slot::{
    leading_blank, lemma_leading_blank, lemma_trailing_blank, styled_seq, styled_view, trailing_blank, StyledText,
    TextStyle,
};
use crate::ui::layout::{packed_parts, split_columns, split_fits, split_is_exact, SizeConstraint};
use crate::ui::theme::{Color, Theme};
use crate::ui::rect::{add16, add_upto, min_int, sub0, Rect};
use crate::ui::text::{
    byte_len, char_count_before, chars_of, contains_seq, is_char_boundary_at, is_whitespace, is_whitespace_char, fit_count,
    fitting_prefix, lemma_fit_count_bounds, line_width, occurs_at, push_range, reversed_chars, span_width, str_line_width,
    str_width, string_from_chars, utf8_len, repeat_string, repeated, CellMeasure,
};

verus! {

/// Width of the tracked-marker column.
pub const TRACKED_COLUMN_WIDTH: u16 = 1;
/// Columns between two table columns.
pub const TABLE_COLUMN_SPACING: u16 = 1;
/// Columns of the table's left and right border.
pub const TABLE_BORDER_WIDTH: u16 = 2;
/// Columns before the metrics that can be selected: PID and process name.
pub const FIXED_SELECTABLE_COLUMN_COUNT: usize = 2;
/// The mark of text left out of a cell.
pub const TRUNCATION_MARKER: &'static str = "⋯";

/// Columns taken by a metric column with the spacing before it.
pub open spec fn window_width(render_width: int) -> int {
    add16(TABLE_COLUMN_SPACING as int, render_width)
}

/// Columns taken by a metric column of `render_width` with the spacing before it.
pub fn metric_column_window_width(render_width: u16) -> (r: u16)
    ensures
        r == window_width(render_width as int),
{
    TABLE_COLUMN_SPACING.saturating_add(render_width)
}

/// Columns a metric column is drawn with: its resolved width.
pub fn metric_column_render_width(resolved_width: u16) -> (r: u16)
    ensures
        r == resolved_width,
{
    resolved_width
}

/// How many of the metric columns `widths`, taken in turn, fit in `budget`
/// columns when `used` are taken already.
pub open spec fn columns_fitting(widths: Seq<u16>, used: int, budget: int) -> int
    decreases widths.len(),
{
    if widths.len() == 0 {
        0
    } else {
        let next = add16(used, window_width(widths[0] as int));
        if next > budget {
            0
        } else {
            1 + columns_fitting(widths.drop_first(), next, budget)
        }
    }
}

/// Columns left for metrics after the border, the tracked marker, the PID and
/// name columns and their spacing.
pub open spec fn metric_budget(area_width: int, pid_width: int, name_width: int) -> int {
    sub0(
        sub0(area_width, TABLE_BORDER_WIDTH as int),
        TRACKED_COLUMN_WIDTH + pid_width + name_width + 2 * TABLE_COLUMN_SPACING,
    )
}

/// The metric columns shown in a table `area_width` columns wide, as indices
/// into `metric_widths`: from `metric_offset` (held at the end) on, as many as
/// fit after the fixed columns; none when no column is chosen or no room is
/// left.
pub open spec fn visible_columns_spec(
    area_width: int,
    metric_widths: Seq<u16>,
    metric_offset: int,
    pid_width: int,
    name_width: int,
) -> Seq<usize> {
    let budget = metric_budget(area_width, pid_width, name_width);
    if metric_widths.len() == 0 || budget == 0 {
        Seq::empty()
    } else {
        let start = min_int(metric_offset, metric_widths.len() as int);
        let k = columns_fitting(metric_widths.skip(start), 0, budget);
        Seq::new(k as nat, |i: int| (start + i) as usize)
    }
}

/// At most the remaining columns fit.
pub proof fn lemma_columns_fitting_bounds(widths: Seq<u16>, used: int, budget: int)
    ensures
        0 <= columns_fitting(widths, used, budget) <= widths.len(),
    decreases widths.len(),
{
    if widths.len() > 0 {
        lemma_columns_fitting_bounds(widths.drop_first(), add16(used, window_width(widths[0] as int)), budget);
    }
}

/// The metric columns shown; see `visible_columns_spec`. `metric_widths` holds
/// the resolved width of each chosen metric column, in order.
pub fn visible_metric_columns(
    area_width: u16,
    metric_widths: &Vec<u16>,
    metric_offset: usize,
    pid_width: u16,
    name_width: u16,
) -> (r: Vec<usize>)
    requires
        TRACKED_COLUMN_WIDTH + pid_width + name_width + 2 * TABLE_COLUMN_SPACING <= u16::MAX,
    ensures
        r@ == visible_columns_spec(
            area_width as int,
            metric_widths@,
            metric_offset as int,
            pid_width as int,
            name_width as int,
        ),
{
    let usable_width = area_width.saturating_sub(TABLE_BORDER_WIDTH);
    let fixed_width = TRACKED_COLUMN_WIDTH + pid_width + name_width + 2 * TABLE_COLUMN_SPACING;
    let metric_width = usable_width.saturating_sub(fixed_width);
    let mut out: Vec<usize> = Vec::new();
    let n = metric_widths.len();
    if n == 0 || metric_width == 0 {
        return out;
    }
    let start = if metric_offset < n { metric_offset } else { n };
    let ghost rest = metric_widths@.skip(start as int);
    let mut used: u16 = 0;
    let mut i: usize = start;
    proof {
        lemma_columns_fitting_bounds(rest, 0, metric_width as int);
        assert(metric_widths@.skip(start as int) =~= rest);
    }
    while i < n
        invariant
            start <= i <= n == metric_widths@.len(),
            rest == metric_widths@.skip(start as int),
            columns_fitting(rest, 0, metric_width as int) == (i - start) + columns_fitting(
                metric_widths@.skip(i as int),
                used as int,
                metric_width as int,
            ),
            out@ == Seq::new((i - start) as nat, |j: int| (start + j) as usize),
        ensures
            columns_fitting(rest, 0, metric_width as int) == i - start,
            out@ == Seq::new((i - start) as nat, |j: int| (start + j) as usize),
        decreases n - i,
    {
        let width = metric_column_window_width(metric_column_render_width(metric_widths[i]));
        let next = used.saturating_add(width);
        proof {
            assert(metric_widths@.skip(i as int)[0] == metric_widths@[i as int]);
            assert(metric_widths@.skip(i as int).drop_first() =~= metric_widths@.skip(i + 1));
        }
        if next > metric_width {
            assert(columns_fitting(metric_widths@.skip(i as int), used as int, metric_width as int) == 0);
            break;
        }
        used = next;
        out.push(i);
        i = i + 1;
        assert(out@ =~= Seq::new((i - start) as nat, |j: int| (start + j) as usize));
    }
    out
}

/// The range of metric columns shown: from the first shown column to past the
/// last one; empty at the held offset when none is shown.
pub fn process_table_visible_metric_range(
    area_width: u16,
    metric_widths: &Vec<u16>,
    metric_offset: usize,
    pid_width: u16,
    name_width: u16,
) -> (r: (usize, usize))
    requires
        TRACKED_COLUMN_WIDTH + pid_width + name_width + 2 * TABLE_COLUMN_SPACING <= u16::MAX,
    ensures
        ({
            let visible = visible_columns_spec(area_width as int, metric_widths@, metric_offset as int, pid_width as int, name_width as int);
            if visible.len() == 0 {
                r == (metric_offset, metric_offset)
            } else {
                r.0 == visible[0] && r.1 == add_upto(visible.last() as int, 1, usize::MAX as int)
            }
        }),
{
    let visible = visible_metric_columns(area_width, metric_widths, metric_offset, pid_width, name_width);
    if visible.len() == 0 {
        return (metric_offset, metric_offset);
    }
    let start = visible[0];
    let end = visible[visible.len() - 1].saturating_add(1);
    (start, end)
}

/// Columns of the table that can be selected: PID, name and the shown metrics.
pub fn process_table_visible_column_count(
    area_width: u16,
    metric_widths: &Vec<u16>,
    metric_offset: usize,
    pid_width: u16,
    name_width: u16,
) -> (r: usize)
    requires
        TRACKED_COLUMN_WIDTH + pid_width + name_width + 2 * TABLE_COLUMN_SPACING <= u16::MAX,
        metric_widths@.len() + FIXED_SELECTABLE_COLUMN_COUNT <= usize::MAX,
    ensures
        r == FIXED_SELECTABLE_COLUMN_COUNT + visible_columns_spec(
            area_width as int,
            metric_widths@,
            metric_offset as int,
            pid_width as int,
            name_width as int,
        ).len(),
{
    let visible = visible_metric_columns(area_width, metric_widths, metric_offset, pid_width, name_width);
    proof {
        lemma_columns_fitting_bounds(
            metric_widths@.skip(min_int(metric_offset as int, metric_widths@.len() as int)),
            0,
            metric_budget(area_width as int, pid_width as int, name_width as int),
        );
    }
    FIXED_SELECTABLE_COLUMN_COUNT + visible.len()
}

/// The shown metric columns fit in the table next to the fixed columns: when
/// the marker, PID and name columns fit, they, the shown metrics and the
/// spacing between all of them take at most the table's width less its border.
pub proof fn visible_columns_fit(
    area_width: int,
    metric_widths: Seq<u16>,
    metric_offset: int,
    pid_width: int,
    name_width: int,
)
    requires
        0 <= area_width <= u16::MAX,
        0 <= metric_offset,
        0 <= pid_width,
        0 <= name_width,
        TRACKED_COLUMN_WIDTH + pid_width + name_width + 2 * TABLE_COLUMN_SPACING <= sub0(
            area_width,
            TABLE_BORDER_WIDTH as int,
        ),
    ensures
        ({
            let start = min_int(metric_offset, metric_widths.len() as int);
            let k = visible_columns_spec(area_width, metric_widths, metric_offset, pid_width, name_width).len();
            TRACKED_COLUMN_WIDTH + pid_width + name_width + 2 * TABLE_COLUMN_SPACING + window_sum(
                metric_widths.skip(start).take(k as int),
            ) <= sub0(area_width, TABLE_BORDER_WIDTH as int)
        }),
{
    let budget = metric_budget(area_width, pid_width, name_width);
    let start = min_int(metric_offset, metric_widths.len() as int);
    if metric_widths.len() > 0 && budget > 0 {
        lemma_columns_fitting_sum(metric_widths.skip(start), 0, budget);
        lemma_columns_fitting_bounds(metric_widths.skip(start), 0, budget);
        assert(budget <= sub0(area_width, TABLE_BORDER_WIDTH as int) - (TRACKED_COLUMN_WIDTH + pid_width
            + name_width + 2 * TABLE_COLUMN_SPACING));
    } else {
        assert(metric_widths.skip(start).take(0) =~= Seq::<u16>::empty());
    }
}

/// Columns taken by metric columns with their spacing.
pub open spec fn window_sum(widths: Seq<u16>) -> int
    decreases widths.len(),
{
    if widths.len() == 0 {
        0
    } else {
        window_width(widths[0] as int) + window_sum(widths.drop_first())
    }
}

/// The columns that fit take at most the budget.
pub proof fn lemma_columns_fitting_sum(widths: Seq<u16>, used: int, budget: int)
    requires
        0 <= used <= budget < u16::MAX,
    ensures
        used + window_sum(widths.take(columns_fitting(widths, used, budget))) <= budget,
    decreases widths.len(),
{
    if widths.len() == 0 {
        assert(widths.take(0) =~= Seq::<u16>::empty());
    } else {
        let next = add16(used, window_width(widths[0] as int));
        if next > budget {
            assert(widths.take(0) =~= Seq::<u16>::empty());
        } else {
            lemma_columns_fitting_sum(widths.drop_first(), next, budget);
            lemma_columns_fitting_bounds(widths, used, budget);
            lemma_columns_fitting_bounds(widths.drop_first(), next, budget);
            let k = columns_fitting(widths, used, budget);
            assert(k == 1 + columns_fitting(widths.drop_first(), next, budget));
            assert(next == used + window_width(widths[0] as int));
            assert(1 <= k);
            assert(k <= widths.len());
            assert(widths.take(k).drop_first() =~= widths.drop_first().take(k - 1));
            assert(widths.take(k)[0] == widths[0]);
        }
    }
}

/// `T` for a tracked process, a space otherwise.
pub fn tracked_symbol(is_tracked: bool) -> (r: &'static str)
    ensures
        r@ == if is_tracked { "T"@ } else { " "@ },
{
    if is_tracked {
        "T"
    } else {
        " "
    }
}

/// Indentation of the tree disclosure mark at `depth`: two columns a level, at
/// most the width less two.
pub fn process_tree_disclosure_offset(depth: usize, width: u16) -> (r: usize)
    ensures
        r == min_int(add_upto(depth as int, depth as int, usize::MAX as int), sub0(width as int, 2)),
{
    let d = depth.saturating_add(depth);
    let w = width.saturating_sub(2) as usize;
    if d < w {
        d
    } else {
        w
    }
}

/// A character in ASCII lower case.
pub open spec fn ascii_lower(c: char) -> char {
    if 'A' <= c <= 'Z' { ((c as u32) + 32) as char } else { c }
}

/// A text in ASCII lower case.
pub open spec fn ascii_lowercase(s: Seq<char>) -> Seq<char> {
    s.map_values(|c: char| ascii_lower(c))
}

/// A character in ASCII lower case.
pub fn to_ascii_lower(c: char) -> (r: char)
    ensures
        r == ascii_lower(c),
{
    if 'A' <= c && c <= 'Z' {
        let v = (c as u32) + 32;
        assert(v < 0xD800);
        char_from_ascii_code(v)
    } else {
        c
    }
}

/// The character of an ASCII code.
pub fn char_from_ascii_code(v: u32) -> (c: char)
    requires
        v < 128,
    ensures
        c == v as char,
{
    (v as u8) as char
}

/// A text in ASCII lower case.
pub fn ascii_lowercase_chars(s: &str) -> (r: Vec<char>)
    ensures
        r@ == ascii_lowercase(s@),
{
    let chars = chars_of(s);
    let mut out: Vec<char> = Vec::new();
    let mut i: usize = 0;
    while i < chars.len()
        invariant
            i <= chars@.len(),
            chars@ == s@,
            out@ == ascii_lowercase(s@).take(i as int),
        decreases chars@.len() - i,
    {
        out.push(to_ascii_lower(chars[i]));
        i = i + 1;
        assert(out@ =~= ascii_lowercase(s@).take(i as int));
    }
    assert(out@ =~= ascii_lowercase(s@));
    out
}

/// Whether a process name holds the query, ASCII letters compared without case.
pub fn process_name_matches_query(name: &str, query: &str) -> (r: bool)
    ensures
        r == contains_seq(ascii_lowercase(name@), ascii_lowercase(query@)),
{
    let hay = ascii_lowercase_chars(name);
    let needle = ascii_lowercase_chars(query);
    crate::ui::text::contains_chars(&hay, &needle)
}

/// The longest head of `value` that fits in `max_width` cells, each character
/// counted as a line.
pub fn prefix_to_width(value: &str, max_width: usize) -> (r: String)
    ensures
        r@ == value@.take(fit_count(value@, 0, max_width as int, CellMeasure::Line)),
{
    let chars = chars_of(value);
    let k = fitting_prefix(&chars, max_width, CellMeasure::Line);
    let mut out: Vec<char> = Vec::new();
    push_range(&mut out, &chars, 0, k);
    assert(out@ =~= value@.take(k as int));
    string_from_chars(&out)
}

/// The longest tail of `value` that fits in `max_width` cells, counted from
/// its end.
pub open spec fn suffix_spec(value: Seq<char>, max_width: int) -> Seq<char> {
    value.skip(value.len() - fit_count(value.reverse(), 0, max_width, CellMeasure::Line))
}

/// The longest tail of `value` that fits in `max_width` cells.
pub fn suffix_to_width(value: &str, max_width: usize) -> (r: String)
    ensures
        r@ == suffix_spec(value@, max_width as int),
{
    let chars = chars_of(value);
    let rev = reversed_chars(&chars);
    let k = fitting_prefix(&rev, max_width, CellMeasure::Line);
    let n = chars.len();
    let mut out: Vec<char> = Vec::new();
    push_range(&mut out, &chars, n - k, n);
    assert(out@ =~= suffix_spec(value@, max_width as int));
    string_from_chars(&out)
}

/// A path fitted to `width` cells: whole when it fits, nothing when not even
/// the marker fits, otherwise the marker and the longest tail that fits after
/// it.
pub open spec fn compact_path_start_spec(path: Seq<char>, width: int) -> Seq<char> {
    let marker = line_width(TRUNCATION_MARKER@) as int;
    if line_width(path) <= width {
        path
    } else if width < marker {
        Seq::empty()
    } else {
        TRUNCATION_MARKER@ + suffix_spec(path, width - marker)
    }
}

/// Width of a text shown as a line.
pub fn text_width(value: &str) -> (r: usize)
    ensures
        r == line_width(value@),
{
    str_line_width(value)
}

/// A path fitted to `width` cells from its measured width `path_width`, the
/// widths `ws` of its characters and the marker's width: whole when it fits,
/// nothing when not even the marker fits, otherwise the marker and the longest
/// tail whose widths fit after it.
pub open spec fn compact_path_measured_spec(path: Seq<char>, ws: Seq<int>, path_width: int, marker_width: int, width: int) -> Seq<char> {
    if path_width <= width {
        path
    } else if width < marker_width {
        Seq::empty()
    } else {
        TRUNCATION_MARKER@ + path.skip(path.len() - crate::ui::text::fit_count_widths(ws.reverse(), 0, width - marker_width))
    }
}

/// A path fitted to `width` cells from its measured widths; see
/// `compact_path_measured_spec`.
pub fn compact_path_measured(path: &str, widths: &Vec<usize>, path_width: usize, marker_width: usize, width: usize) -> (r: String)
    requires
        widths@.len() == path@.len(),
    ensures
        r@ == compact_path_measured_spec(
            path@,
            crate::ui::text::as_widths(widths@),
            path_width as int,
            marker_width as int,
            width as int,
        ),
{
    if path_width <= width {
        return String::from_str(path);
    }
    if width < marker_width {
        proof {
            reveal_strlit("");
        }
        return String::new();
    }
    let chars = chars_of(path);
    let back = crate::ui::text::reversed_widths(widths);
    let k = crate::ui::text::fitting_count(&back, width - marker_width);
    let n = chars.len();
    let mut tail: Vec<char> = Vec::new();
    push_range(&mut tail, &chars, n - k, n);
    assert(tail@ =~= path@.skip(n - k));
    let rest = string_from_chars(&tail);
    let mut out = String::from_str(TRUNCATION_MARKER);
    out.append(rest.as_str());
    out
}

/// A path fitted to `width` cells, its tail kept: its widths measured, then
/// fitted as `compact_path_measured` says.
pub fn compact_path_start(path: &str, width: usize) -> (r: String)
    ensures
        r@ == compact_path_start_spec(path@, width as int),
{
    let chars = chars_of(path);
    let widths = crate::ui::text::measured_widths(&chars, CellMeasure::Line);
    let path_width = text_width(path);
    let marker_width = text_width(TRUNCATION_MARKER);
    proof {
        if marker_width <= width {
            crate::ui::text::lemma_fit_count_widths(path@.reverse(), 0, width - marker_width, CellMeasure::Line);
            crate::ui::text::lemma_char_widths_reverse(path@, CellMeasure::Line);
        }
    }
    compact_path_measured(path, &widths, path_width, marker_width, width)
}

/// The mark of a table that does not show all its metric columns: the range of
/// shown columns (counted from one) out of all, or none shown; nothing when
/// every column shows or there is none.
pub open spec fn overflow_indicator_spec(visible: Seq<usize>, total: nat) -> Option<Seq<char>> {
    if total == 0 {
        None
    } else if visible.len() > 0 && visible[0] == 0 && add_upto(visible.last() as int, 1, usize::MAX as int)
        == total {
        None
    } else if visible.len() > 0 {
        Some(
            "‹ "@ + decimal((visible[0] + 1) as nat) + "–"@ + decimal(
                add_upto(visible.last() as int, 1, usize::MAX as int) as nat,
            ) + "/"@ + decimal(total) + " ›"@,
        )
    } else {
        Some("‹ 0/"@ + decimal(total) + " ›"@)
    }
}

/// The overflow mark is missing only when the table has no metric columns or
/// shows them all, from the first (index 0) to the last (index `total - 1`);
/// whenever a column is hidden before the first shown one or after the last,
/// the mark is there, and it ends with the total count.
pub proof fn overflow_mark_shows_whenever_a_column_is_hidden(visible: Seq<usize>, total: nat)
    requires
        total <= usize::MAX,
    ensures
        visible.len() == 0 || visible.last() < usize::MAX ==> (overflow_indicator_spec(visible, total) is None <==> total
            == 0 || (visible.len() > 0 && visible[0] == 0 && visible.last() + 1 == total)),
        total > 0 && (visible.len() == 0 || visible[0] > 0 || visible.last() + 1 < total) ==> overflow_indicator_spec(
            visible,
            total,
        ) is Some,
        overflow_indicator_spec(visible, total) matches Some(t) ==> t.len() >= decimal(total).len() + 2 && t.subrange(
            t.len() - decimal(total).len() - 2,
            t.len() as int,
        ) == decimal(total) + " ›"@,
{
    if let Some(t) = overflow_indicator_spec(visible, total) {
        reveal_strlit(" ›");
        let tail = decimal(total) + " ›"@;
        if visible.len() > 0 {
            let head = "‹ "@ + decimal((visible[0] + 1) as nat) + "–"@ + decimal(
                add_upto(visible.last() as int, 1, usize::MAX as int) as nat,
            ) + "/"@;
            assert(t =~= head + tail);
        } else {
            assert(t =~= "‹ 0/"@ + tail);
        }
        assert(t.subrange(t.len() - tail.len(), t.len() as int) =~= tail);
    }
}

/// The mark of a table that does not show all its metric columns; `visible`
/// holds the indices of the shown columns.
pub fn process_metric_overflow_indicator(visible: &Vec<usize>, total_columns: usize) -> (r: Option<String>)
    requires
        visible@.len() > 0 ==> visible@[0] < usize::MAX,
    ensures
        match (r, overflow_indicator_spec(visible@, total_columns as nat)) {
            (Some(s), Some(t)) => s@ == t,
            (None, None) => true,
            _ => false,
        },
        visible@.len() == 0 || visible@.last() < usize::MAX ==> (r is None <==> total_columns == 0 || (visible@.len() > 0
            && visible@[0] == 0 && visible@.last() + 1 == total_columns)),
{
    proof {
        overflow_mark_shows_whenever_a_column_is_hidden(visible@, total_columns as nat);
    }
    if total_columns == 0 {
        return None;
    }
    if visible.len() > 0 {
        let start = visible[0];
        let end = visible[visible.len() - 1].saturating_add(1);
        if start == 0 && end == total_columns {
            return None;
        }
        let mut out = String::from_str("‹ ");
        let a = decimal_string((start + 1) as u128);
        out.append(a.as_str());
        out.append("–");
        let b = decimal_string(end as u128);
        out.append(b.as_str());
        out.append("/");
        let c = decimal_string(total_columns as u128);
        out.append(c.as_str());
        out.append(" ›");
        Some(out)
    } else {
        let mut out = String::from_str("‹ 0/");
        let c = decimal_string(total_columns as u128);
        out.append(c.as_str());
        out.append(" ›");
        Some(out)
    }
}

/// Whether `s` holds only whitespace from `from` to `to`.
pub open spec fn all_whitespace(s: Seq<char>, from: int, to: int) -> bool {
    forall|i: int| from <= i < to ==> is_whitespace_char(#[trigger] s[i])
}

/// The filter text of the process table without surrounding whitespace, none
/// when nothing else is left: the text from its first to its last character
/// that is not whitespace.
pub fn active_filter_query(filter: &str) -> (r: Option<String>)
    ensures
        r matches None <==> trimmed(filter@) is None,
        r matches Some(q) ==> trimmed(filter@) == Some(q@),
        match r {
            None => all_whitespace(filter@, 0, filter@.len() as int),
            Some(q) => exists|a: int, b: int|
                0 <= a < b <= filter@.len() && q@ == filter@.subrange(a, b) && all_whitespace(filter@, 0, a)
                    && all_whitespace(filter@, b, filter@.len() as int) && !is_whitespace_char(
                    #[trigger] filter@[a],
                ) && !is_whitespace_char(#[trigger] filter@[b - 1]),
        },
{
    let chars = chars_of(filter);
    let n = chars.len();
    let mut a: usize = 0;
    while a < n && is_whitespace(chars[a])
        invariant
            a <= n == filter@.len(),
            chars@ == filter@,
            all_whitespace(filter@, 0, a as int),
        decreases n - a,
    {
        a = a + 1;
    }
    proof {
        if a < n {
            assert(!is_whitespace_char(filter@[a as int]));
        }
        lemma_leading_blank(filter@, a as int);
    }
    if a == n {
        return None;
    }
    let mut b: usize = n;
    while b > a + 1 && is_whitespace(chars[b - 1])
        invariant
            a < b <= n == filter@.len(),
            chars@ == filter@,
            !is_whitespace_char(filter@[a as int]),
            all_whitespace(filter@, b as int, n as int),
        decreases b,
    {
        b = b - 1;
    }
    proof {
        lemma_trailing_blank(filter@, b as int);
    }
    let mut out: Vec<char> = Vec::new();
    push_range(&mut out, &chars, a, b);
    let q = string_from_chars(&out);
    assert(q@ == filter@.subrange(a as int, b as int));
    Some(q)
}

/// The label of the view mode: flat in the log view, where the tree is not
/// offered; otherwise the mode's name and its key.
pub fn process_view_mode_label(log_view: bool, mode_label: &str) -> (r: String)
    ensures
        r@ == if log_view { "Flat (Tree unavailable in LOG)"@ } else { mode_label@ + "(v)"@ },
{
    if log_view {
        String::from_str("Flat (Tree unavailable in LOG)")
    } else {
        let mut out = String::from_str(mode_label);
        out.append("(v)");
        out
    }
}

/// The label of the tracked-only switch, checked when it is on.
pub fn process_tracked_only_label(watch_enabled: bool) -> (r: &'static str)
    ensures
        r == if watch_enabled { "☑ Tracked-only(Shift+T)" } else { "☐ Tracked-only(Shift+T)" },
{
    if watch_enabled {
        "☑ Tracked-only(Shift+T)"
    } else {
        "☐ Tracked-only(Shift+T)"
    }
}

/// What a part of the process table's title shows.
#[derive(Clone, Copy, Debug, PartialEq, Eq, Structural)]
pub enum ProcessTitleSegmentKind {
    VisibleCount,
    ViewMode,
    TrackedOnly,
    Filter,
}

/// A part of the process table's title.
#[derive(Clone, Debug)]
pub struct ProcessTitleSegment {
    pub kind: ProcessTitleSegmentKind,
    pub label: String,
}

/// What the title tells of the shown rows: in a filtered tree where the
/// matches are fewer than the shown rows, the matches and the shown rows;
/// otherwise the shown rows.
pub open spec fn visible_label_spec(tree_view: bool, filter: Seq<char>, matches: nat, visible: nat) -> Seq<char> {
    if tree_view && filter.len() > 0 && matches != visible {
        decimal(matches) + " match"@ + (if matches == 1 { ""@ } else { "es"@ }) + " · "@ + decimal(visible)
            + " visible"@
    } else {
        decimal(visible) + " visible"@
    }
}

/// The parts of the process table's title in order: the shown rows, the view
/// mode, the tracked-only switch and, while a filter is set, the filter.
pub open spec fn state_segments_spec(
    tree_view: bool,
    filter: Seq<char>,
    matches: nat,
    visible: nat,
    log_view: bool,
    mode_label: Seq<char>,
    watch_enabled: bool,
) -> Seq<(ProcessTitleSegmentKind, Seq<char>)> {
    let base = seq![
        (ProcessTitleSegmentKind::VisibleCount, visible_label_spec(tree_view, filter, matches, visible)),
        (
            ProcessTitleSegmentKind::ViewMode,
            if log_view { "Flat (Tree unavailable in LOG)"@ } else { mode_label + "(v)"@ },
        ),
        (
            ProcessTitleSegmentKind::TrackedOnly,
            if watch_enabled { "☑ Tracked-only(Shift+T)"@ } else { "☐ Tracked-only(Shift+T)"@ },
        ),
    ];
    if filter.len() > 0 {
        base.push((ProcessTitleSegmentKind::Filter, "Filter \""@ + filter + "\""@))
    } else {
        base
    }
}

/// The parts of the process table's title; see `state_segments_spec`.
pub fn process_table_state_segments(
    tree_view: bool,
    filter: &str,
    matches: usize,
    visible: usize,
    log_view: bool,
    mode_label: &str,
    watch_enabled: bool,
) -> (r: Vec<ProcessTitleSegment>)
    ensures
        r@.len() == state_segments_spec(tree_view, filter@, matches as nat, visible as nat, log_view, mode_label@, watch_enabled).len(),
        forall|i: int| 0 <= i < r@.len() ==> {
            let want = state_segments_spec(tree_view, filter@, matches as nat, visible as nat, log_view, mode_label@, watch_enabled)[i];
            #[trigger] r@[i].kind == want.0 && r@[i].label@ == want.1
        },
{
    let has_filter = filter.unicode_len() > 0;
    let visible_label = if tree_view && has_filter && matches != visible {
        let mut out = decimal_string(matches as u128);
        out.append(" match");
        if matches != 1 {
            out.append("es");
        }
        proof {
            reveal_strlit("");
        }
        out.append(" · ");
        let v = decimal_string(visible as u128);
        out.append(v.as_str());
        out.append(" visible");
        out
    } else {
        let mut out = decimal_string(visible as u128);
        out.append(" visible");
        out
    };
    let mut segments: Vec<ProcessTitleSegment> = Vec::new();
    segments.push(ProcessTitleSegment { kind: ProcessTitleSegmentKind::VisibleCount, label: visible_label });
    segments.push(ProcessTitleSegment {
        kind: ProcessTitleSegmentKind::ViewMode,
        label: process_view_mode_label(log_view, mode_label),
    });
    segments.push(ProcessTitleSegment {
        kind: ProcessTitleSegmentKind::TrackedOnly,
        label: String::from_str(process_tracked_only_label(watch_enabled)),
    });
    if has_filter {
        let mut label = String::from_str("Filter \"");
        label.append(filter);
        label.append("\"");
        segments.push(ProcessTitleSegment { kind: ProcessTitleSegmentKind::Filter, label });
    }
    segments
}

/// Whether column `x` lies in the columns of `r`.
pub open spec fn spans_column(r: Rect, x: int) -> bool {
    r.x <= x < r.right_spec()
}

/// The size rule of a shown metric column: the full-path column takes at
/// least its width, any other exactly its width.
pub open spec fn metric_constraint(index: usize, metric_widths: Seq<u16>, full_path: Option<usize>) -> SizeConstraint {
    if full_path == Some(index) {
        SizeConstraint::Min(metric_widths[index as int])
    } else {
        SizeConstraint::Length(metric_widths[index as int])
    }
}

/// The size rules of the table's columns: the tracked marker, the PID and the
/// name columns at their widths, then each shown metric column.
pub open spec fn table_constraints_spec(
    visible: Seq<usize>,
    metric_widths: Seq<u16>,
    full_path: Option<usize>,
    pid_width: u16,
    name_width: u16,
) -> Seq<SizeConstraint> {
    seq![
        SizeConstraint::Length(TRACKED_COLUMN_WIDTH),
        SizeConstraint::Length(pid_width),
        SizeConstraint::Length(name_width),
    ] + Seq::new(visible.len(), |i: int| metric_constraint(visible[i], metric_widths, full_path))
}

/// The size rules of the table's columns; see `table_constraints_spec`.
/// `full_path` is the index of the full-path column among the metric columns,
/// where it is chosen.
pub fn process_table_constraints(
    visible: &Vec<usize>,
    metric_widths: &Vec<u16>,
    full_path: Option<usize>,
    pid_width: u16,
    name_width: u16,
) -> (r: Vec<SizeConstraint>)
    requires
        forall|i: int| 0 <= i < visible@.len() ==> #[trigger] visible@[i] < metric_widths@.len(),
    ensures
        r@ == table_constraints_spec(visible@, metric_widths@, full_path, pid_width, name_width),
{
    let mut out: Vec<SizeConstraint> = vec![
        SizeConstraint::Length(TRACKED_COLUMN_WIDTH),
        SizeConstraint::Length(pid_width),
        SizeConstraint::Length(name_width),
    ];
    let ghost head = out@;
    let mut i: usize = 0;
    while i < visible.len()
        invariant
            i <= visible@.len(),
            forall|j: int| 0 <= j < visible@.len() ==> #[trigger] visible@[j] < metric_widths@.len(),
            head == seq![
                SizeConstraint::Length(TRACKED_COLUMN_WIDTH),
                SizeConstraint::Length(pid_width),
                SizeConstraint::Length(name_width),
            ],
            out@ == head + Seq::new(i as nat, |j: int| metric_constraint(visible@[j], metric_widths@, full_path)),
        decreases visible@.len() - i,
    {
        let index = visible[i];
        let width = metric_column_render_width(metric_widths[index]);
        let rule = match full_path {
            Some(f) if f == index => SizeConstraint::Min(width),
            _ => SizeConstraint::Length(width),
        };
        out.push(rule);
        i = i + 1;
        assert(out@ =~= head + Seq::new(i as nat, |j: int| metric_constraint(visible@[j], metric_widths@, full_path)));
    }
    assert(out@ =~= table_constraints_spec(visible@, metric_widths@, full_path, pid_width, name_width));
    out
}

/// Whether `rects` can be the cells of a table in `area` with `count`
/// columns: its area inside the border split from left to right (see
/// `split_fits`).
pub open spec fn column_rects_fit(area: Rect, count: nat, rects: Seq<Rect>) -> bool {
    split_fits(area.shrunk(1, 1), false, count as int, rects)
}

/// Whether the columns' size rules are met exactly in the table's area
/// inside the border (see `split_is_exact`).
pub open spec fn table_cells_exact(
    area: Rect,
    visible: Seq<usize>,
    metric_widths: Seq<u16>,
    full_path: Option<usize>,
    pid_width: u16,
    name_width: u16,
) -> bool {
    split_is_exact(
        area.shrunk(1, 1),
        false,
        table_constraints_spec(visible, metric_widths, full_path, pid_width, name_width),
        TABLE_COLUMN_SPACING as int,
    )
}

/// The cells of the columns where their rules are met exactly: side by side
/// from the left of the table's inside, one cell apart, each as wide as its
/// rule asks and the full-path column taking what is left (see
/// `packed_parts`).
pub open spec fn table_cells_spec(
    area: Rect,
    visible: Seq<usize>,
    metric_widths: Seq<u16>,
    full_path: Option<usize>,
    pid_width: u16,
    name_width: u16,
) -> Seq<Rect> {
    packed_parts(
        area.shrunk(1, 1),
        false,
        table_constraints_spec(visible, metric_widths, full_path, pid_width, name_width),
        TABLE_COLUMN_SPACING as int,
    )
}

/// The cells of the table's columns: its area inside the border split from
/// left to right by the columns' size rules (see `table_constraints_spec`),
/// one cell of spacing apart. There is one per column: the marker, the PID,
/// the name and each shown metric.
pub fn process_table_column_rects(
    area: Rect,
    visible: &Vec<usize>,
    metric_widths: &Vec<u16>,
    full_path: Option<usize>,
    pid_width: u16,
    name_width: u16,
) -> (r: Vec<Rect>)
    requires
        forall|i: int| 0 <= i < visible@.len() ==> #[trigger] visible@[i] < metric_widths@.len(),
    ensures
        column_rects_fit(area, 3 + visible@.len(), r@),
        table_cells_exact(area, visible@, metric_widths@, full_path, pid_width, name_width) ==> r@
            == table_cells_spec(area, visible@, metric_widths@, full_path, pid_width, name_width),
{
    let table_area = area.inner(1, 1);
    let constraints = process_table_constraints(visible, metric_widths, full_path, pid_width, name_width);
    split_columns(table_area, &constraints, TABLE_COLUMN_SPACING)
}

/// Width of the full-path column's cell: the cell of the first shown column
/// that is the full-path column.
pub fn full_path_column_render_width(visible: &Vec<usize>, full_path: Option<usize>, column_rects: &Vec<Rect>) -> (r: Option<u16>)
    ensures
        match full_path {
            Some(f) => match r {
                Some(w) => exists|i: int| 0 <= i < visible@.len() && visible@[i] == f
                    && (forall|j: int| 0 <= j < i ==> visible@[j] != f)
                    && 3 + i < column_rects@.len() && w == column_rects@[3 + i].width,
                None => forall|i: int| 0 <= i < visible@.len() && visible@[i] == f
                    ==> (forall|j: int| 0 <= j < i ==> visible@[j] != f) ==> 3 + i >= column_rects@.len(),
            },
            None => r is None,
        },
{
    let f = match full_path {
        Some(f) => f,
        None => return None,
    };
    let mut i: usize = 0;
    while i < visible.len()
        invariant
            i <= visible@.len(),
            full_path == Some(f),
            forall|j: int| 0 <= j < i ==> visible@[j] != f,
        decreases visible@.len() - i,
    {
        if visible[i] == f {
            if i < column_rects.len() && column_rects.len() - i > 3 {
                assert(visible@[i as int] == f);
                return Some(column_rects[i + 3].width);
            }
            return None;
        }
        i = i + 1;
    }
    None
}

/// The shown metric columns are columns of the list.
pub proof fn lemma_visible_columns_in_range(
    area_width: int,
    metric_widths: Seq<u16>,
    metric_offset: int,
    pid_width: int,
    name_width: int,
)
    requires
        metric_offset >= 0,
    ensures
        forall|i: int| 0 <= i < visible_columns_spec(area_width, metric_widths, metric_offset, pid_width, name_width).len()
            ==> #[trigger] visible_columns_spec(area_width, metric_widths, metric_offset, pid_width, name_width)[i] < metric_widths.len(),
{
    let start = min_int(metric_offset, metric_widths.len() as int);
    lemma_columns_fitting_bounds(metric_widths.skip(start), 0, metric_budget(area_width, pid_width, name_width));
}

/// The metric column whose cell, from the `i`-th shown one on, first holds
/// column `x`, as a selectable column (after PID and name).
pub open spec fn metric_hit(rects: Seq<Rect>, visible: Seq<usize>, x: int, i: nat) -> Option<usize>
    decreases visible.len() - i,
{
    if i >= visible.len() {
        None
    } else if spans_column(rects[3 + i as int], x) {
        Some((visible[i as int] + FIXED_SELECTABLE_COLUMN_COUNT) as usize)
    } else {
        metric_hit(rects, visible, x, i + 1)
    }
}

/// The selectable column under column `x` of the table in `area` whose cells
/// are `rects` and whose shown metric columns are `visible`: none off the
/// table's inside, the PID column (0), the name column (1), or a shown metric
/// column counted after those two.
pub open spec fn metric_index_in_spec(area: Rect, rects: Seq<Rect>, visible: Seq<usize>, x: int) -> Option<usize> {
    if !spans_column(area.shrunk(1, 1), x) {
        None
    } else if spans_column(rects[1], x) {
        Some(0)
    } else if spans_column(rects[2], x) {
        Some(1)
    } else {
        metric_hit(rects, visible, x, 0)
    }
}

/// The selectable column under column `x` given the table's cells; see
/// `metric_index_in_spec`.
pub fn metric_column_index_in(area: Rect, rects: &Vec<Rect>, visible: &Vec<usize>, x: u16) -> (r: Option<usize>)
    requires
        rects@.len() == 3 + visible@.len(),
        forall|j: int| 0 <= j < visible@.len() ==> #[trigger] visible@[j] + FIXED_SELECTABLE_COLUMN_COUNT <= usize::MAX,
    ensures
        r == metric_index_in_spec(area, rects@, visible@, x as int),
{
    let table_area = area.inner(1, 1);
    if x < table_area.x || x >= table_area.right() {
        return None;
    }
    if x >= rects[1].x && x < rects[1].right() {
        return Some(0);
    }
    if x >= rects[2].x && x < rects[2].right() {
        return Some(1);
    }
    let n = rects.len();
    let mut i: usize = 0;
    while i < visible.len()
        invariant
            i <= visible@.len(),
            n == rects@.len() == 3 + visible@.len(),
            spans_column(area.shrunk(1, 1), x as int),
            !spans_column(rects@[1], x as int),
            !spans_column(rects@[2], x as int),
            forall|j: int| 0 <= j < visible@.len() ==> #[trigger] visible@[j] + FIXED_SELECTABLE_COLUMN_COUNT <= usize::MAX,
            metric_hit(rects@, visible@, x as int, 0) == metric_hit(rects@, visible@, x as int, i as nat),
        decreases visible@.len() - i,
    {
        let cell = rects[i + 3];
        if x >= cell.x && x < cell.right() {
            return Some(visible[i] + FIXED_SELECTABLE_COLUMN_COUNT);
        }
        i = i + 1;
    }
    None
}

/// The selectable column under column `x` of the table in `area`: none off
/// the table's inside; otherwise the shown metric columns chosen (see
/// `visible_columns_spec`), the cells laid out (see
/// `process_table_column_rects`) and the column found as
/// `metric_index_in_spec` says.
pub fn process_metric_column_index_at(
    area: Rect,
    x: u16,
    metric_widths: &Vec<u16>,
    metric_offset: usize,
    full_path: Option<usize>,
    pid_width: u16,
    name_width: u16,
) -> (r: Option<usize>)
    requires
        TRACKED_COLUMN_WIDTH + pid_width + name_width + 2 * TABLE_COLUMN_SPACING <= u16::MAX,
        metric_widths@.len() + FIXED_SELECTABLE_COLUMN_COUNT <= usize::MAX,
    ensures
        !spans_column(area.shrunk(1, 1), x as int) ==> r is None,
        spans_column(area.shrunk(1, 1), x as int) ==> ({
            let visible = visible_columns_spec(area.width as int, metric_widths@, metric_offset as int, pid_width as int, name_width as int);
            exists|rects: Seq<Rect>| #![trigger metric_index_in_spec(area, rects, visible, x as int)]
                column_rects_fit(area, 3 + visible.len(), rects) && r == metric_index_in_spec(area, rects, visible, x as int)
        }),
        ({
            let visible = visible_columns_spec(area.width as int, metric_widths@, metric_offset as int, pid_width as int, name_width as int);
            table_cells_exact(area, visible, metric_widths@, full_path, pid_width, name_width) ==> r == metric_index_in_spec(
                area,
                table_cells_spec(area, visible, metric_widths@, full_path, pid_width, name_width),
                visible,
                x as int,
            )
        }),
{
    let table_area = area.inner(1, 1);
    if x < table_area.x || x >= table_area.right() {
        return None;
    }
    let visible = visible_metric_columns(area.width, metric_widths, metric_offset, pid_width, name_width);
    proof {
        lemma_visible_columns_in_range(area.width as int, metric_widths@, metric_offset as int, pid_width as int, name_width as int);
    }
    let rects = process_table_column_rects(area, &visible, metric_widths, full_path, pid_width, name_width);
    let r = metric_column_index_in(area, &rects, &visible, x);
    proof {
        assert(column_rects_fit(area, 3 + visible@.len(), rects@));
        assert(r == metric_index_in_spec(area, rects@, visible@, x as int));
    }
    r
}

/// Whether column `x` is on the disclosure mark of a row of the tree, given
/// the name column's cell `name_cell`: only in the tree view, on a row with
/// children, at the mark's indentation inside the name cell. `tree_state`
/// holds the row's depth and whether it has children.
pub open spec fn disclosure_hit_spec(name_cell: Rect, x: int, tree_view: bool, tree_state: Option<(usize, bool)>) -> bool {
    match tree_state {
        Some((depth, has_children)) => tree_view && has_children && x == add16(
            name_cell.x as int,
            min_int(add_upto(depth as int, depth as int, usize::MAX as int), sub0(name_cell.width as int, 2)),
        ) && x < name_cell.right_spec(),
        None => false,
    }
}

/// Whether column `x` is on a row's disclosure mark given the name column's
/// cell; see `disclosure_hit_spec`.
pub fn disclosure_hit_in(name_cell: Rect, x: u16, tree_view: bool, tree_state: Option<(usize, bool)>) -> (r: bool)
    ensures
        r == disclosure_hit_spec(name_cell, x as int, tree_view, tree_state),
{
    if !tree_view {
        return false;
    }
    let (depth, has_children) = match tree_state {
        Some(state) => state,
        None => return false,
    };
    if !has_children {
        return false;
    }
    let offset = process_tree_disclosure_offset(depth, name_cell.width);
    let disclosure_x = name_cell.x.saturating_add(offset as u16);
    x == disclosure_x && x < name_cell.right()
}

/// Whether column `x` is on a row's disclosure mark: never outside the tree
/// view or on a row without children; otherwise the shown metric columns
/// chosen, the cells laid out (see `process_table_column_rects`) and the mark
/// found in the name cell as `disclosure_hit_spec` says.
pub fn process_tree_disclosure_hit_test(
    area: Rect,
    x: u16,
    tree_view: bool,
    tree_state: Option<(usize, bool)>,
    metric_widths: &Vec<u16>,
    metric_offset: usize,
    full_path: Option<usize>,
    pid_width: u16,
    name_width: u16,
) -> (r: bool)
    requires
        TRACKED_COLUMN_WIDTH + pid_width + name_width + 2 * TABLE_COLUMN_SPACING <= u16::MAX,
    ensures
        ({
            let visible = visible_columns_spec(area.width as int, metric_widths@, metric_offset as int, pid_width as int, name_width as int);
            exists|rects: Seq<Rect>| #![trigger column_rects_fit(area, 3 + visible.len(), rects)]
                column_rects_fit(area, 3 + visible.len(), rects) && r == disclosure_hit_spec(rects[2], x as int, tree_view, tree_state)
        }),
        ({
            let visible = visible_columns_spec(area.width as int, metric_widths@, metric_offset as int, pid_width as int, name_width as int);
            table_cells_exact(area, visible, metric_widths@, full_path, pid_width, name_width) ==> r == disclosure_hit_spec(
                table_cells_spec(area, visible, metric_widths@, full_path, pid_width, name_width)[2],
                x as int,
                tree_view,
                tree_state,
            )
        }),
{
    let visible = visible_metric_columns(area.width, metric_widths, metric_offset, pid_width, name_width);
    proof {
        lemma_visible_columns_in_range(area.width as int, metric_widths@, metric_offset as int, pid_width as int, name_width as int);
    }
    let rects = process_table_column_rects(area, &visible, metric_widths, full_path, pid_width, name_width);
    let r = disclosure_hit_in(rects[2], x, tree_view, tree_state);
    proof {
        assert(column_rects_fit(area, 3 + visible@.len(), rects@));
    }
    r
}

/// The first word of the process table's title.
pub const PROCESS_TITLE: &'static str = "PROCESSES";
/// What stands between two parts of the title.
pub const TITLE_SEPARATOR: &'static str = " · ";

/// The column where the title's controls must end: before the overflow mark
/// and the cell left of it where the mark shows, the area's right edge
/// otherwise.
pub open spec fn control_right_spec(area: Rect, visible: Seq<usize>, total_columns: nat) -> int {
    match overflow_indicator_spec(visible, total_columns) {
        Some(indicator) => sub0(sub0(area.right_spec(), 1), (line_width(indicator) as u16) as int),
        None => area.right_spec(),
    }
}

/// The place of the `target` part of the title, from the `i`-th part on, when
/// `prefix` columns of the title come before that part's separator.
pub open spec fn title_part_area(
    segments: Seq<ProcessTitleSegment>,
    i: nat,
    prefix: int,
    area: Rect,
    control_right: int,
    target: ProcessTitleSegmentKind,
) -> Option<Rect>
    decreases segments.len() - i,
{
    if i >= segments.len() {
        None
    } else {
        let before = add_upto(prefix, line_width(TITLE_SEPARATOR@) as int, usize::MAX as int);
        if segments[i as int].kind == target {
            let title_x = add16(add16(area.x as int, 1), (before as u16) as int);
            if title_x >= control_right {
                None
            } else {
                Some(Rect::placed(
                    title_x,
                    area.y as int,
                    min_int((line_width(segments[i as int].label@) as u16) as int, control_right - title_x),
                    1,
                ))
            }
        } else {
            title_part_area(
                segments,
                i + 1,
                add_upto(before, line_width(segments[i as int].label@) as int, usize::MAX as int),
                area,
                control_right,
                target,
            )
        }
    }
}

/// Where the `target` part of the title stands, for a pointer to click: none
/// while a filter or jump is typed, none when the part is missing or starts at
/// or past the controls' end, otherwise its label's cells on the title row,
/// cut at the controls' end.
pub open spec fn title_control_spec(
    area: Rect,
    editing: bool,
    visible: Seq<usize>,
    total_columns: nat,
    segments: Seq<ProcessTitleSegment>,
    target: ProcessTitleSegmentKind,
) -> Option<Rect> {
    if editing {
        None
    } else {
        title_part_area(
            segments,
            0,
            line_width(PROCESS_TITLE@) as int,
            area,
            control_right_spec(area, visible, total_columns),
            target,
        )
    }
}

/// Where the `target` part of the title stands; see `title_control_spec`.
/// `visible` holds the shown metric columns, `total_columns` counts all.
pub fn process_title_control_area(
    area: Rect,
    editing: bool,
    visible: &Vec<usize>,
    total_columns: usize,
    segments: &Vec<ProcessTitleSegment>,
    target: ProcessTitleSegmentKind,
) -> (r: Option<Rect>)
    requires
        visible@.len() > 0 ==> visible@[0] < usize::MAX,
    ensures
        r == title_control_spec(area, editing, visible@, total_columns as nat, segments@, target),
{
    if editing {
        return None;
    }
    let control_right = match process_metric_overflow_indicator(visible, total_columns) {
        Some(indicator) => area.right().saturating_sub(1).saturating_sub(text_width(indicator.as_str()) as u16),
        None => area.right(),
    };
    let mut prefix_width = text_width(PROCESS_TITLE);
    let mut i: usize = 0;
    while i < segments.len()
        invariant
            i <= segments@.len(),
            !editing,
            control_right == control_right_spec(area, visible@, total_columns as nat),
            title_part_area(segments@, 0, line_width(PROCESS_TITLE@) as int, area, control_right as int, target)
                == title_part_area(segments@, i as nat, prefix_width as int, area, control_right as int, target),
        decreases segments@.len() - i,
    {
        prefix_width = prefix_width.saturating_add(text_width(TITLE_SEPARATOR));
        if segments[i].kind == target {
            let title_x = area.x.saturating_add(1).saturating_add(prefix_width as u16);
            if title_x >= control_right {
                return None;
            }
            let label_width = text_width(segments[i].label.as_str()) as u16;
            let room = control_right - title_x;
            return Some(Rect::new(title_x, area.y, if label_width < room { label_width } else { room }, 1));
        }
        prefix_width = prefix_width.saturating_add(text_width(segments[i].label.as_str()));
        i = i + 1;
    }
    None
}

/// Where the tracked-only switch of the title stands, for a pointer to click.
pub fn process_tracked_only_control_area(
    area: Rect,
    editing: bool,
    visible: &Vec<usize>,
    total_columns: usize,
    segments: &Vec<ProcessTitleSegment>,
) -> (r: Option<Rect>)
    requires
        visible@.len() > 0 ==> visible@[0] < usize::MAX,
    ensures
        r == title_control_spec(area, editing, visible@, total_columns as nat, segments@, ProcessTitleSegmentKind::TrackedOnly),
{
    process_title_control_area(area, editing, visible, total_columns, segments, ProcessTitleSegmentKind::TrackedOnly)
}

/// Where the view-mode switch of the title stands, for a pointer to click:
/// none while a recorded log is viewed, as the log has no tree.
pub fn process_view_mode_control_area(
    area: Rect,
    log_view: bool,
    editing: bool,
    visible: &Vec<usize>,
    total_columns: usize,
    segments: &Vec<ProcessTitleSegment>,
) -> (r: Option<Rect>)
    requires
        visible@.len() > 0 ==> visible@[0] < usize::MAX,
    ensures
        r == if log_view {
            None
        } else {
            title_control_spec(area, editing, visible@, total_columns as nat, segments@, ProcessTitleSegmentKind::ViewMode)
        },
{
    if log_view {
        return None;
    }
    process_title_control_area(area, editing, visible, total_columns, segments, ProcessTitleSegmentKind::ViewMode)
}

/// The order a column sorts in.
#[derive(Clone, Copy, Debug, PartialEq, Eq, Structural)]
pub enum SortDirection {
    Asc,
    Desc,
}

/// Text with no look of its own.
pub open spec fn no_style() -> TextStyle {
    TextStyle { fg: None, bg: None, bold: false, underlined: false }
}

/// A column heading: the label underlined, then the sort arrow where the
/// table sorts by this column.
pub open spec fn header_label_spec(label: Seq<char>, direction: Option<SortDirection>) -> Seq<(Seq<char>, TextStyle)> {
    let name = (label, TextStyle { fg: None, bg: None, bold: false, underlined: true });
    match direction {
        Some(SortDirection::Asc) => seq![name, (" "@, no_style()), ("↑"@, no_style())],
        Some(SortDirection::Desc) => seq![name, (" "@, no_style()), ("↓"@, no_style())],
        None => seq![name],
    }
}

/// A column heading; see `header_label_spec`.
pub fn header_label(label: &str, direction: Option<SortDirection>) -> (r: Vec<StyledText>)
    ensures
        styled_seq(r@) == header_label_spec(label@, direction),
{
    let mut out = vec![StyledText {
        text: String::from_str(label),
        style: TextStyle { fg: None, bg: None, bold: false, underlined: true },
    }];
    let symbol = match direction {
        Some(SortDirection::Asc) => Some("↑"),
        Some(SortDirection::Desc) => Some("↓"),
        None => None,
    };
    if let Some(symbol) = symbol {
        out.push(StyledText { text: String::from_str(" "), style: TextStyle::plain() });
        out.push(StyledText { text: String::from_str(symbol), style: TextStyle::plain() });
    }
    assert(styled_seq(out@) =~= header_label_spec(label@, direction));
    out
}

/// The look of a heading cell: on the column-selection colour when its column
/// is selected, on the panel colour otherwise.
pub fn header_cell_style(selected: bool, theme: &Theme) -> (r: TextStyle)
    ensures
        r == (TextStyle {
            fg: Some(theme.text),
            bg: Some(if selected { theme.table_column_surface } else { theme.panel }),
            bold: false,
            underlined: false,
        }),
{
    TextStyle {
        fg: Some(theme.text),
        bg: Some(if selected { theme.table_column_surface } else { theme.panel }),
        bold: false,
        underlined: false,
    }
}

/// The background of a PID or name cell: the intersection colour in the
/// current row's selected column, the column colour elsewhere in that column,
/// none otherwise.
pub fn process_fixed_cell_background(selected: bool, selected_cell: bool, theme: &Theme) -> (r: Option<Color>)
    ensures
        r == if selected_cell {
            Some(theme.table_intersection_surface)
        } else if selected {
            Some(theme.table_column_surface)
        } else {
            None
        },
{
    if selected_cell {
        Some(theme.table_intersection_surface)
    } else if selected {
        Some(theme.table_column_surface)
    } else {
        None
    }
}

/// The look of a row: on the selection colour when current, on the
/// multi-selection colour when picked, on the panel colour otherwise; never
/// bold.
pub open spec fn process_row_style_spec(selected: bool, multi_selected: bool, theme: Theme) -> TextStyle {
    TextStyle {
        fg: Some(theme.text),
        bg: Some(
            if selected {
                theme.table_selection_surface
            } else if multi_selected {
                theme.table_multi_selection_surface
            } else {
                theme.panel
            },
        ),
        bold: false,
        underlined: false,
    }
}

/// Whether the process table's frame is drawn with the focus: when its panel
/// has the focus, or while the filter or the jump target is being typed and no
/// dialog has the focus.
pub fn process_table_focused(panel_focused: bool, filter_editing: bool, jump_editing: bool, modal_focus: bool) -> (r: bool)
    ensures
        r == (panel_focused || ((filter_editing || jump_editing) && !modal_focus)),
{
    let input_active = (filter_editing || jump_editing) && !modal_focus;
    panel_focused || input_active
}

/// The look of a row; see `process_row_style_spec`.
pub fn process_row_style(selected: bool, multi_selected: bool, theme: &Theme) -> (r: TextStyle)
    ensures
        r == process_row_style_spec(selected, multi_selected, *theme),
{
    let bg = if selected {
        theme.table_selection_surface
    } else if multi_selected {
        theme.table_multi_selection_surface
    } else {
        theme.panel
    };
    TextStyle { fg: Some(theme.text), bg: Some(bg), bold: false, underlined: false }
}

/// The look of a process's texts: the exited colour once it has exited,
/// muted when it shows only as context of a filter match, body text
/// otherwise.
pub fn process_text_style(exited: bool, filter_context: bool, theme: &Theme) -> (r: TextStyle)
    ensures
        r == text_style_fg(if exited { theme.exited } else if filter_context { theme.muted } else { theme.text }),
{
    TextStyle::fg(if exited { theme.exited } else if filter_context { theme.muted } else { theme.text })
}

/// Text in colour `c` and nothing more.
pub open spec fn text_style_fg(c: Color) -> TextStyle {
    TextStyle { fg: Some(c), bg: None, bold: false, underlined: false }
}

/// The look of the tracked mark: the background colour on the tracked colour,
/// or on the exited colour once the process has exited; not bold.
pub fn tracked_marker_style(exited: bool, theme: &Theme) -> (r: TextStyle)
    ensures
        r == (TextStyle {
            fg: Some(theme.background),
            bg: Some(if exited { theme.exited } else { theme.tracked_color }),
            bold: false,
            underlined: false,
        }),
{
    TextStyle {
        fg: Some(theme.background),
        bg: Some(if exited { theme.exited } else { theme.tracked_color }),
        bold: false,
        underlined: false,
    }
}

/// The tracked cell of a row: a blank for an untracked process; `T` muted
/// for a tracked one shown as filter context, otherwise `T` in the tracked
/// mark's look.
pub fn tracked_cell(is_tracked_row: bool, filter_context: bool, exited: bool, theme: &Theme) -> (r: StyledText)
    ensures
        styled_view(r) == if !is_tracked_row {
            (" "@, no_style())
        } else if filter_context {
            ("T"@, text_style_fg(theme.muted))
        } else {
            (
                "T"@,
                TextStyle {
                    fg: Some(theme.background),
                    bg: Some(if exited { theme.exited } else { theme.tracked_color }),
                    bold: false,
                    underlined: false,
                },
            )
        },
{
    if !is_tracked_row {
        return StyledText { text: String::from_str(tracked_symbol(false)), style: TextStyle::plain() };
    }
    if filter_context {
        return StyledText { text: String::from_str(tracked_symbol(true)), style: TextStyle::fg(theme.muted) };
    }
    StyledText { text: String::from_str(tracked_symbol(true)), style: tracked_marker_style(exited, theme) }
}

/// A text with the bytes from `start` to `end` in the warning colour and the
/// rest in `base`.
pub open spec fn highlight_spec(value: Seq<char>, from: int, to: int, base: TextStyle, theme: Theme) -> Seq<(Seq<char>, TextStyle)> {
    seq![
        (value.take(from), base),
        (value.subrange(from, to), text_style_fg(theme.warning)),
        (value.skip(to), base),
    ]
}

/// A text with the part between byte offsets `start` and `end` in the
/// warning colour; see `highlight_spec`, which counts characters.
pub fn highlighted_match_line_at(value: &str, start: usize, end: usize, base: TextStyle, theme: &Theme) -> (r: Vec<StyledText>)
    requires
        byte_len(value@) <= usize::MAX,
        start <= end <= byte_len(value@),
        is_char_boundary_at(value@, start as int),
        is_char_boundary_at(value@, end as int),
    ensures
        exists|a: int, b: int|
            0 <= a <= b <= value@.len() && byte_len(value@.take(a)) == start && byte_len(value@.take(b)) == end
                && styled_seq(r@) == highlight_spec(value@, a, b, base, *theme),
{
    let a = char_count_before(value, start);
    let b = char_count_before(value, end);
    proof {
        lemma_byte_len_prefix_monotone(value@, a as int, b as int);
    }
    highlight_chars(value, a, b, base, theme)
}

/// `byte_len` grows with the prefix.
pub proof fn lemma_byte_len_prefix_monotone(s: Seq<char>, a: int, b: int)
    requires
        0 <= a <= s.len(),
        0 <= b <= s.len(),
        byte_len(s.take(a)) <= byte_len(s.take(b)),
    ensures
        a <= b,
    decreases s.len(),
{
    if a > b {
        lemma_byte_len_strictly_grows(s, b, a);
    }
}

/// A longer prefix has more bytes.
pub proof fn lemma_byte_len_strictly_grows(s: Seq<char>, a: int, b: int)
    requires
        0 <= a < b <= s.len(),
    ensures
        byte_len(s.take(a)) < byte_len(s.take(b)),
    decreases b - a,
{
    let t = s.take(b);
    assert(t.drop_last() =~= s.take(b - 1));
    assert(byte_len(t) == byte_len(t.drop_last()) + utf8_len(t.last()));
    if a < b - 1 {
        lemma_byte_len_strictly_grows(s, a, b - 1);
    }
}

/// A text with characters `a` to `b` in the warning colour.
pub fn highlight_chars(value: &str, a: usize, b: usize, base: TextStyle, theme: &Theme) -> (r: Vec<StyledText>)
    requires
        a <= b <= value@.len(),
    ensures
        styled_seq(r@) == highlight_spec(value@, a as int, b as int, base, *theme),
{
    let chars = chars_of(value);
    let n = chars.len();
    let mut head: Vec<char> = Vec::new();
    push_range(&mut head, &chars, 0, a);
    let mut middle: Vec<char> = Vec::new();
    push_range(&mut middle, &chars, a, b);
    let mut tail: Vec<char> = Vec::new();
    push_range(&mut tail, &chars, b, n);
    let out = vec![
        StyledText { text: string_from_chars(&head), style: base },
        StyledText { text: string_from_chars(&middle), style: TextStyle::fg(theme.warning) },
        StyledText { text: string_from_chars(&tail), style: base },
    ];
    assert(styled_seq(out@) =~= highlight_spec(value@, a as int, b as int, base, *theme));
    out
}

/// The first place at or after `from` where `needle` occurs in `hay`.
pub open spec fn first_occurrence(hay: Seq<char>, needle: Seq<char>, from: int) -> Option<int>
    decreases hay.len() + 1 - from,
{
    if from < 0 || from + needle.len() > hay.len() {
        None
    } else if occurs_at(hay, needle, from) {
        Some(from)
    } else {
        first_occurrence(hay, needle, from + 1)
    }
}

/// A text with the first match of `query` (both compared in ASCII lower
/// case) in the warning colour; the text in `base` alone where nothing
/// matches.
pub open spec fn highlighted_spec(value: Seq<char>, query: Seq<char>, base: TextStyle, theme: Theme) -> Seq<(Seq<char>, TextStyle)> {
    match first_occurrence(ascii_lowercase(value), ascii_lowercase(query), 0) {
        None => seq![(value, base)],
        Some(k) => highlight_spec(value, k, k + query.len(), base, theme),
    }
}

/// The first place at or after `from` where `needle` occurs.
pub fn find_chars(hay: &Vec<char>, needle: &Vec<char>, from: usize) -> (r: Option<usize>)
    ensures
        r == match first_occurrence(hay@, needle@, from as int) {
            Some(k) => Some(k as usize),
            None => None::<usize>,
        },
    decreases hay@.len() + 1 - from,
{
    let n = hay.len();
    if needle.len() > n || from > n - needle.len() {
        return None;
    }
    let mut j: usize = 0;
    let mut same = true;
    while j < needle.len()
        invariant
            j <= needle@.len(),
            n == hay@.len(),
            from + needle@.len() <= hay@.len(),
            same == (forall|m: int| 0 <= m < j ==> hay@[from + m] == needle@[m]),
        decreases needle@.len() - j,
    {
        if hay[from + j] != needle[j] {
            same = false;
        }
        j = j + 1;
    }
    assert(same == occurs_at(hay@, needle@, from as int)) by {
        if same {
            assert(hay@.subrange(from as int, from + needle@.len()) =~= needle@);
        } else {
            let m = choose|m: int| 0 <= m < needle@.len() && hay@[from + m] != needle@[m];
            assert(hay@.subrange(from as int, from + needle@.len())[m] != needle@[m]);
        }
    }
    if same {
        Some(from)
    } else {
        find_chars(hay, needle, from + 1)
    }
}

/// A text with the first match of `query` in the warning colour; see
/// `highlighted_spec`.
pub fn highlighted_match_line(value: &str, query: &str, base: TextStyle, theme: &Theme) -> (r: Vec<StyledText>)
    ensures
        styled_seq(r@) == highlighted_spec(value@, query@, base, *theme),
{
    let hay = ascii_lowercase_chars(value);
    let needle = ascii_lowercase_chars(query);
    match find_chars(&hay, &needle, 0) {
        None => {
            let out = vec![StyledText { text: String::from_str(value), style: base }];
            assert(styled_seq(out@) =~= highlighted_spec(value@, query@, base, *theme));
            out
        },
        Some(k) => {
            let n = hay.len();
            let m = needle.len();
            proof {
                lemma_first_occurrence_occurs(hay@, needle@, 0);
            }
            highlight_chars(value, k, k + m, base, theme)
        },
    }
}

/// A place found by `first_occurrence` is a match.
pub proof fn lemma_first_occurrence_occurs(hay: Seq<char>, needle: Seq<char>, from: int)
    ensures
        match first_occurrence(hay, needle, from) {
            Some(k) => occurs_at(hay, needle, k),
            None => true,
        },
    decreases hay.len() + 1 - from,
{
    if !(from < 0 || from + needle.len() > hay.len()) && !occurs_at(hay, needle, from) {
        lemma_first_occurrence_occurs(hay, needle, from + 1);
    }
}

/// A process name with the first match of the filter in the warning colour;
/// see `highlighted_spec`.
pub fn highlighted_process_name_line(name: &str, query: &str, base: TextStyle, theme: &Theme) -> (r: Vec<StyledText>)
    ensures
        styled_seq(r@) == highlighted_spec(name@, query@, base, *theme),
{
    highlighted_match_line(name, query, base, theme)
}

/// Width of a line of pieces: the sum of its pieces' widths, counted up to
/// the largest `usize`.
pub open spec fn spans_width(spans: Seq<(Seq<char>, TextStyle)>) -> int
    decreases spans.len(),
{
    if spans.len() == 0 {
        0
    } else {
        add_upto(spans_width(spans.drop_last()), span_width(spans.last().0) as int, usize::MAX as int)
    }
}

/// The pieces kept of a line cut to `remaining` cells: from each piece in
/// turn the head that fits, until a piece is cut or no room is left.
pub open spec fn kept_spans(spans: Seq<(Seq<char>, TextStyle)>, remaining: int) -> Seq<(Seq<char>, TextStyle)>
    decreases spans.len(),
{
    if spans.len() == 0 {
        Seq::empty()
    } else {
        let text = spans[0].0;
        let k = fit_count(text, 0, remaining, CellMeasure::Line);
        let content = text.take(k);
        let head = if content.len() > 0 { seq![(content, spans[0].1)] } else { Seq::empty() };
        let left = sub0(remaining, line_width(content) as int);
        if left == 0 || k < text.len() {
            head
        } else {
            head + kept_spans(spans.drop_first(), left)
        }
    }
}

/// A line cut to `max_width` cells: kept whole when it fits, empty when not
/// even the mark fits, otherwise the pieces that fit before the mark.
pub open spec fn truncate_line_spec(spans: Seq<(Seq<char>, TextStyle)>, max_width: int, marker_style: TextStyle) -> Seq<(Seq<char>, TextStyle)> {
    let marker = line_width(TRUNCATION_MARKER@) as int;
    if spans_width(spans) <= max_width {
        spans
    } else if max_width < marker {
        Seq::empty()
    } else {
        kept_spans(spans, max_width - marker).push((TRUNCATION_MARKER@, marker_style))
    }
}

/// The pieces kept of a line cut to `remaining` cells, from the measured
/// widths `cws` of each piece's characters and `lws` of each whole piece: from
/// each piece in turn the head whose widths fit, until a piece is cut or no
/// room is left.
pub open spec fn kept_measured(
    spans: Seq<(Seq<char>, TextStyle)>,
    cws: Seq<Seq<int>>,
    lws: Seq<int>,
    remaining: int,
) -> Seq<(Seq<char>, TextStyle)>
    decreases spans.len(),
{
    if spans.len() == 0 {
        Seq::empty()
    } else {
        let text = spans[0].0;
        let k = crate::ui::text::fit_count_widths(cws[0], 0, remaining);
        let head = if k > 0 { seq![(text.take(k), spans[0].1)] } else { Seq::empty() };
        if k < text.len() {
            head
        } else {
            let left = sub0(remaining, lws[0]);
            if left == 0 {
                head
            } else {
                head + kept_measured(spans.drop_first(), cws.drop_first(), lws.drop_first(), left)
            }
        }
    }
}

/// A line cut to `max_width` cells from its measured widths: the whole line's
/// `total_width`, the marker's `marker_width`, and the widths of each piece
/// and of its characters. Kept whole when it fits, empty when not even the
/// mark fits, otherwise the pieces that fit before the mark (see
/// `kept_measured`).
pub open spec fn truncate_line_measured_spec(
    spans: Seq<(Seq<char>, TextStyle)>,
    cws: Seq<Seq<int>>,
    lws: Seq<int>,
    total_width: int,
    marker_width: int,
    max_width: int,
    marker_style: TextStyle,
) -> Seq<(Seq<char>, TextStyle)> {
    if total_width <= max_width {
        spans
    } else if max_width < marker_width {
        Seq::empty()
    } else {
        kept_measured(spans, cws, lws, max_width - marker_width).push((TRUNCATION_MARKER@, marker_style))
    }
}

/// Per piece, its character widths as integers.
pub open spec fn piece_widths(v: Seq<Vec<usize>>) -> Seq<Seq<int>> {
    Seq::new(v.len(), |i: int| crate::ui::text::as_widths(v[i]@))
}

/// Measured widths agree with the toolkit's measure, so cutting by them cuts
/// as `kept_spans` says.
pub proof fn lemma_kept_measured(spans: Seq<(Seq<char>, TextStyle)>, cws: Seq<Seq<int>>, lws: Seq<int>, remaining: int)
    requires
        cws.len() == spans.len(),
        lws.len() == spans.len(),
        forall|i: int| 0 <= i < spans.len() ==> #[trigger] cws[i] == crate::ui::text::char_widths(spans[i].0, CellMeasure::Line),
        forall|i: int| 0 <= i < spans.len() ==> #[trigger] lws[i] == line_width(spans[i].0) as int,
    ensures
        kept_measured(spans, cws, lws, remaining) == kept_spans(spans, remaining),
    decreases spans.len(),
{
    if spans.len() > 0 {
        let text = spans[0].0;
        crate::ui::text::lemma_fit_count_widths(text, 0, remaining, CellMeasure::Line);
        crate::ui::text::lemma_fit_count_widths_bounds(cws[0], 0, remaining);
        let k = fit_count(text, 0, remaining, CellMeasure::Line);
        if k == text.len() {
            assert(text.take(k) =~= text);
        }
        let left = sub0(remaining, lws[0]);
        assert forall|i: int| 0 <= i < spans.len() - 1 implies #[trigger] cws.drop_first()[i] == crate::ui::text::char_widths(
            spans.drop_first()[i].0,
            CellMeasure::Line,
        ) by {
            assert(cws.drop_first()[i] == cws[i + 1]);
        }
        assert forall|i: int| 0 <= i < spans.len() - 1 implies #[trigger] lws.drop_first()[i] == line_width(
            spans.drop_first()[i].0,
        ) as int by {
            assert(lws.drop_first()[i] == lws[i + 1]);
        }
        lemma_kept_measured(spans.drop_first(), cws.drop_first(), lws.drop_first(), left);
    }
}

/// A line cut to `max_width` cells from its measured widths; see
/// `truncate_line_measured_spec`.
pub fn truncate_line_measured(
    line: Vec<StyledText>,
    char_widths: &Vec<Vec<usize>>,
    line_widths: &Vec<usize>,
    total_width: usize,
    marker_width: usize,
    max_width: usize,
    marker_style: TextStyle,
) -> (r: Vec<StyledText>)
    requires
        char_widths@.len() == line@.len(),
        line_widths@.len() == line@.len(),
        forall|i: int| 0 <= i < line@.len() ==> (#[trigger] char_widths@[i])@.len() == line@[i].text@.len(),
    ensures
        styled_seq(r@) == truncate_line_measured_spec(
            styled_seq(line@),
            piece_widths(char_widths@),
            crate::ui::text::as_widths(line_widths@),
            total_width as int,
            marker_width as int,
            max_width as int,
            marker_style,
        ),
{
    let ghost spans = styled_seq(line@);
    let ghost cws = piece_widths(char_widths@);
    let ghost lws = crate::ui::text::as_widths(line_widths@);
    if total_width <= max_width {
        return line;
    }
    if max_width < marker_width {
        let empty: Vec<StyledText> = Vec::new();
        assert(styled_seq(empty@) =~= Seq::<(Seq<char>, TextStyle)>::empty());
        return empty;
    }
    let mut remaining = max_width - marker_width;
    let ghost budget = remaining as int;
    let mut out: Vec<StyledText> = Vec::new();
    let mut j: usize = 0;
    assert(spans.skip(0) =~= spans);
    assert(cws.skip(0) =~= cws);
    assert(lws.skip(0) =~= lws);
    assert(styled_seq(out@) + kept_measured(spans, cws, lws, budget) =~= kept_measured(spans, cws, lws, budget));
    while j < line.len()
        invariant_except_break
            j <= line@.len(),
            spans == styled_seq(line@),
            cws == piece_widths(char_widths@),
            lws == crate::ui::text::as_widths(line_widths@),
            char_widths@.len() == line@.len(),
            line_widths@.len() == line@.len(),
            forall|i: int| 0 <= i < line@.len() ==> (#[trigger] char_widths@[i])@.len() == line@[i].text@.len(),
            kept_measured(spans, cws, lws, budget) == styled_seq(out@) + kept_measured(
                spans.skip(j as int),
                cws.skip(j as int),
                lws.skip(j as int),
                remaining as int,
            ),
        ensures
            kept_measured(spans, cws, lws, budget) == styled_seq(out@),
        decreases line@.len() - j,
    {
        let text = line[j].text.as_str();
        let k = crate::ui::text::fitting_count(&char_widths[j], remaining);
        let chars = chars_of(text);
        let mut head: Vec<char> = Vec::new();
        push_range(&mut head, &chars, 0, k);
        assert(head@ =~= text@.take(k as int));
        let fully = k == chars.len();
        let ghost rest = spans.skip(j as int);
        let ghost was = remaining as int;
        proof {
            assert(rest[0] == (text@, line@[j as int].style));
            assert(rest.drop_first() =~= spans.skip(j + 1));
            assert(cws.skip(j as int)[0] == crate::ui::text::as_widths(char_widths@[j as int]@));
            assert(cws.skip(j as int).drop_first() =~= cws.skip(j + 1));
            assert(lws.skip(j as int)[0] == line_widths@[j as int] as int);
            assert(lws.skip(j as int).drop_first() =~= lws.skip(j + 1));
        }
        let ghost before = out@;
        if k > 0 {
            out.push(StyledText { text: string_from_chars(&head), style: line[j].style });
            assert(styled_seq(out@) =~= styled_seq(before).push((text@.take(k as int), line@[j as int].style)));
        } else {
            assert(styled_seq(out@) =~= styled_seq(before));
        }
        if !fully {
            assert(styled_seq(out@) =~= styled_seq(before) + kept_measured(rest, cws.skip(j as int), lws.skip(j as int), was));
            break;
        }
        remaining = remaining.saturating_sub(line_widths[j]);
        if remaining == 0 {
            assert(styled_seq(out@) =~= styled_seq(before) + kept_measured(rest, cws.skip(j as int), lws.skip(j as int), was));
            break;
        }
        assert(styled_seq(out@) + kept_measured(spans.skip(j + 1), cws.skip(j + 1), lws.skip(j + 1), remaining as int)
            =~= styled_seq(before) + kept_measured(rest, cws.skip(j as int), lws.skip(j as int), was));
        j = j + 1;
    }
    let ghost kept = styled_seq(out@);
    out.push(StyledText { text: String::from_str(TRUNCATION_MARKER), style: marker_style });
    assert(styled_seq(out@) =~= kept.push((TRUNCATION_MARKER@, marker_style)));
    out
}

/// A line cut to `max_width` cells; see `truncate_line_spec`: its widths
/// measured, then cut as `truncate_line_measured` says.
pub fn truncate_line_end(line: Vec<StyledText>, max_width: usize, marker_style: TextStyle) -> (r: Vec<StyledText>)
    ensures
        styled_seq(r@) == truncate_line_spec(styled_seq(line@), max_width as int, marker_style),
{
    let ghost spans = styled_seq(line@);
    let mut total: usize = 0;
    let mut char_widths: Vec<Vec<usize>> = Vec::new();
    let mut line_widths: Vec<usize> = Vec::new();
    let mut i: usize = 0;
    while i < line.len()
        invariant
            i <= line@.len(),
            spans == styled_seq(line@),
            total == spans_width(spans.take(i as int)),
            char_widths@.len() == i,
            line_widths@.len() == i,
            forall|t: int| 0 <= t < i ==> (#[trigger] char_widths@[t])@.len() == line@[t].text@.len(),
            forall|t: int| 0 <= t < i ==> crate::ui::text::as_widths((#[trigger] char_widths@[t])@)
                == crate::ui::text::char_widths(line@[t].text@, CellMeasure::Line),
            forall|t: int| 0 <= t < i ==> (#[trigger] line_widths@[t]) as int == line_width(line@[t].text@) as int,
        decreases line@.len() - i,
    {
        proof {
            assert(spans.take(i + 1).drop_last() =~= spans.take(i as int));
        }
        let text = line[i].text.as_str();
        total = total.saturating_add(str_width(text));
        let chars = chars_of(text);
        char_widths.push(crate::ui::text::measured_widths(&chars, CellMeasure::Line));
        line_widths.push(text_width(text));
        i = i + 1;
    }
    assert(spans.take(line@.len() as int) =~= spans);
    let marker_width = text_width(TRUNCATION_MARKER);
    proof {
        let cws = piece_widths(char_widths@);
        let lws = crate::ui::text::as_widths(line_widths@);
        assert forall|t: int| 0 <= t < spans.len() implies #[trigger] cws[t] == crate::ui::text::char_widths(
            spans[t].0,
            CellMeasure::Line,
        ) by {}
        assert forall|t: int| 0 <= t < spans.len() implies #[trigger] lws[t] == line_width(spans[t].0) as int by {}
        lemma_kept_measured(spans, cws, lws, max_width - marker_width);
    }
    truncate_line_measured(line, &char_widths, &line_widths, total, marker_width, max_width, marker_style)
}

/// What the process table's title shows of the screen's state: whether a
/// recorded log is viewed, whether the tree view is chosen, whether only
/// tracked processes show, whether the view-mode switch is hovered, and
/// whether a filter or a jump is being typed.
#[derive(Clone, Copy, Debug)]
pub struct ProcessTitleState {
    pub log_view: bool,
    pub tree_mode: bool,
    pub watch_enabled: bool,
    pub view_mode_hovered: bool,
    pub filter_editing: bool,
    pub jump_editing: bool,
}

/// Text in colour `c`, not bold.
pub open spec fn thin(c: Color) -> TextStyle {
    TextStyle { fg: Some(c), bg: None, bold: false, underlined: false }
}

/// The look of a part of the title: the shown rows muted; the view mode in
/// the accent colour for the tree, muted otherwise (and in a log); the
/// tracked-only switch in the tracked colour when on, muted when off; the
/// filter in the warning colour; none of them bold.
pub open spec fn segment_style_spec(kind: ProcessTitleSegmentKind, st: ProcessTitleState, theme: Theme) -> TextStyle {
    match kind {
        ProcessTitleSegmentKind::VisibleCount => thin(theme.muted),
        ProcessTitleSegmentKind::ViewMode => if !st.log_view && st.tree_mode { thin(theme.accent) } else { thin(theme.muted) },
        ProcessTitleSegmentKind::TrackedOnly => if st.watch_enabled { thin(theme.tracked_color) } else { thin(theme.muted) },
        ProcessTitleSegmentKind::Filter => thin(theme.warning),
    }
}

/// The look of a part of the title; see `segment_style_spec`.
pub fn process_title_segment_style(kind: ProcessTitleSegmentKind, st: &ProcessTitleState, theme: &Theme) -> (r: TextStyle)
    ensures
        r == segment_style_spec(kind, *st, *theme),
{
    let color = match kind {
        ProcessTitleSegmentKind::VisibleCount => theme.muted,
        ProcessTitleSegmentKind::ViewMode => if !st.log_view && st.tree_mode { theme.accent } else { theme.muted },
        ProcessTitleSegmentKind::TrackedOnly => if st.watch_enabled { theme.tracked_color } else { theme.muted },
        ProcessTitleSegmentKind::Filter => theme.warning,
    };
    TextStyle { fg: Some(color), bg: None, bold: false, underlined: false }
}

/// The view-mode switch of the title: its label, raised while hovered
/// outside a log.
pub open spec fn view_mode_spans_spec(st: ProcessTitleState, mode_label: Seq<char>, theme: Theme) -> Seq<(Seq<char>, TextStyle)> {
    let base = segment_style_spec(ProcessTitleSegmentKind::ViewMode, st, theme);
    seq![
        (
            if st.log_view { "Flat (Tree unavailable in LOG)"@ } else { mode_label + "(v)"@ },
            if st.view_mode_hovered && !st.log_view {
                TextStyle { fg: Some(theme.text), bg: Some(theme.focus_surface), bold: true, underlined: false }
            } else {
                base
            },
        ),
    ]
}

/// The view-mode switch of the title; see `view_mode_spans_spec`.
pub fn process_view_mode_title_spans(st: &ProcessTitleState, mode_label: &str, theme: &Theme) -> (r: Vec<StyledText>)
    ensures
        styled_seq(r@) == view_mode_spans_spec(*st, mode_label@, *theme),
{
    let mut style = process_title_segment_style(ProcessTitleSegmentKind::ViewMode, st, theme);
    if st.view_mode_hovered && !st.log_view {
        style = TextStyle { fg: Some(theme.text), bg: Some(theme.focus_surface), bold: true, underlined: false };
    }
    let r = vec![StyledText { text: process_view_mode_label(st.log_view, mode_label), style }];
    assert(styled_seq(r@) =~= view_mode_spans_spec(*st, mode_label@, *theme));
    r
}

/// The tracked-only switch of the title: when on, a ticked box in the
/// tracked colour, the name in body text and the key muted; when off, its
/// label muted.
pub open spec fn tracked_only_spans_spec(st: ProcessTitleState, theme: Theme) -> Seq<(Seq<char>, TextStyle)> {
    if st.watch_enabled {
        seq![("☑"@, thin(theme.tracked_color)), (" Tracked-only"@, thin(theme.text)), ("(Shift+T)"@, thin(theme.muted))]
    } else {
        seq![("☐ Tracked-only(Shift+T)"@, thin(theme.muted))]
    }
}

/// The tracked-only switch of the title; see `tracked_only_spans_spec`.
pub fn process_tracked_only_title_spans(st: &ProcessTitleState, theme: &Theme) -> (r: Vec<StyledText>)
    ensures
        styled_seq(r@) == tracked_only_spans_spec(*st, *theme),
{
    if st.watch_enabled {
        let r = vec![
            StyledText { text: String::from_str("☑"), style: TextStyle::fg(theme.tracked_color) },
            StyledText { text: String::from_str(" Tracked-only"), style: TextStyle::fg(theme.text) },
            StyledText { text: String::from_str("(Shift+T)"), style: TextStyle::fg(theme.muted) },
        ];
        assert(styled_seq(r@) =~= tracked_only_spans_spec(*st, *theme));
        return r;
    }
    let style = process_title_segment_style(ProcessTitleSegmentKind::TrackedOnly, st, theme);
    let r = vec![StyledText { text: String::from_str(process_tracked_only_label(false)), style }];
    assert(styled_seq(r@) =~= tracked_only_spans_spec(*st, *theme));
    r
}

/// Bold text in colour `fg` on colour `bg`.
pub open spec fn strong(fg: Color, bg: Color) -> TextStyle {
    TextStyle { fg: Some(fg), bg: Some(bg), bold: true, underlined: false }
}

/// The title while a filter is typed: a `Filter` badge, the typed text on the
/// input colour and a block cursor.
pub open spec fn filter_spans_spec(filter: Seq<char>, theme: Theme) -> Seq<(Seq<char>, TextStyle)> {
    seq![
        ("Filter "@, strong(theme.background, theme.warning)),
        (" "@, strong(theme.warning, theme.panel_alt)),
        (filter, strong(theme.warning, theme.panel_alt)),
        ("_"@, strong(theme.background, theme.warning)),
    ]
}

/// The title while a filter is typed; see `filter_spans_spec`.
pub fn filter_title_spans(filter: &str, theme: &Theme) -> (r: Vec<StyledText>)
    ensures
        styled_seq(r@) == filter_spans_spec(filter@, *theme),
{
    let badge = TextStyle { fg: Some(theme.background), bg: Some(theme.warning), bold: true, underlined: false };
    let input = TextStyle { fg: Some(theme.warning), bg: Some(theme.panel_alt), bold: true, underlined: false };
    let r = vec![
        StyledText { text: String::from_str("Filter "), style: badge },
        StyledText { text: String::from_str(" "), style: input },
        StyledText { text: String::from_str(filter), style: input },
        StyledText { text: String::from_str("_"), style: badge },
    ];
    assert(styled_seq(r@) =~= filter_spans_spec(filter@, *theme));
    r
}

/// The title while a jump is typed: a `Jump` badge, the typed text on the
/// input colour and a block cursor, in the accent colour.
pub open spec fn jump_spans_spec(query: Seq<char>, theme: Theme) -> Seq<(Seq<char>, TextStyle)> {
    seq![
        ("Jump "@, strong(theme.background, theme.accent)),
        (query, strong(theme.accent, theme.panel_alt)),
        ("_"@, strong(theme.background, theme.accent)),
    ]
}

/// The title while a jump is typed; see `jump_spans_spec`.
pub fn jump_title_spans(query: &str, theme: &Theme) -> (r: Vec<StyledText>)
    ensures
        styled_seq(r@) == jump_spans_spec(query@, *theme),
{
    let badge = TextStyle { fg: Some(theme.background), bg: Some(theme.accent), bold: true, underlined: false };
    let input = TextStyle { fg: Some(theme.accent), bg: Some(theme.panel_alt), bold: true, underlined: false };
    let r = vec![
        StyledText { text: String::from_str("Jump "), style: badge },
        StyledText { text: String::from_str(query), style: input },
        StyledText { text: String::from_str("_"), style: badge },
    ];
    assert(styled_seq(r@) =~= jump_spans_spec(query@, *theme));
    r
}

/// The separator between two parts of the title, muted.
pub fn title_separator(theme: &Theme) -> (r: StyledText)
    ensures
        styled_view(r) == (TITLE_SEPARATOR@, thin(theme.muted)),
{
    StyledText { text: String::from_str(TITLE_SEPARATOR), style: TextStyle::fg(theme.muted) }
}

/// The spans of one part of the title: the switches as their own spans, any
/// other part as its label in its look.
pub open spec fn segment_spans_spec(segment: ProcessTitleSegment, st: ProcessTitleState, mode_label: Seq<char>, theme: Theme) -> Seq<(Seq<char>, TextStyle)> {
    if segment.kind == ProcessTitleSegmentKind::TrackedOnly {
        tracked_only_spans_spec(st, theme)
    } else if segment.kind == ProcessTitleSegmentKind::ViewMode {
        view_mode_spans_spec(st, mode_label, theme)
    } else {
        seq![(segment.label@, segment_style_spec(segment.kind, st, theme))]
    }
}

/// The parts of the title after the first `n`, each after a separator.
pub open spec fn segments_spans_spec(segments: Seq<ProcessTitleSegment>, n: int, st: ProcessTitleState, mode_label: Seq<char>, theme: Theme) -> Seq<(Seq<char>, TextStyle)>
    decreases n,
{
    if n <= 0 {
        Seq::empty()
    } else {
        segments_spans_spec(segments, n - 1, st, mode_label, theme) + seq![(TITLE_SEPARATOR@, thin(theme.muted))]
            + segment_spans_spec(segments[n - 1], st, mode_label, theme)
    }
}

/// The title of the process table: the bold title word, then, after a
/// separator, the filter being typed, the jump being typed, or each part of
/// `segments` (the parts the state shows, see `state_segments_spec`).
pub open spec fn table_title_spec(
    filter: Seq<char>,
    jump: Seq<char>,
    st: ProcessTitleState,
    segments: Seq<ProcessTitleSegment>,
    mode_label: Seq<char>,
    theme: Theme,
) -> Seq<(Seq<char>, TextStyle)> {
    let head = seq![(PROCESS_TITLE@, TextStyle { fg: None, bg: None, bold: true, underlined: false })];
    if st.filter_editing {
        head + seq![(TITLE_SEPARATOR@, thin(theme.muted))] + filter_spans_spec(filter, theme)
    } else if st.jump_editing {
        head + seq![(TITLE_SEPARATOR@, thin(theme.muted))] + jump_spans_spec(jump, theme)
    } else {
        head + segments_spans_spec(segments, segments.len() as int, st, mode_label, theme)
    }
}

/// The title of the process table; see `table_title_spec`.
pub fn process_table_title(
    filter: &str,
    jump: &str,
    st: &ProcessTitleState,
    segments: &Vec<ProcessTitleSegment>,
    mode_label: &str,
    theme: &Theme,
) -> (r: Vec<StyledText>)
    ensures
        styled_seq(r@) == table_title_spec(filter@, jump@, *st, segments@, mode_label@, *theme),
{
    let mut spans = vec![StyledText {
        text: String::from_str(PROCESS_TITLE),
        style: TextStyle { fg: None, bg: None, bold: true, underlined: false },
    }];
    if st.filter_editing {
        spans.push(title_separator(theme));
        append_styled(&mut spans, filter_title_spans(filter, theme));
        assert(styled_seq(spans@) =~= table_title_spec(filter@, jump@, *st, segments@, mode_label@, *theme));
        return spans;
    }
    if st.jump_editing {
        spans.push(title_separator(theme));
        append_styled(&mut spans, jump_title_spans(jump, theme));
        assert(styled_seq(spans@) =~= table_title_spec(filter@, jump@, *st, segments@, mode_label@, *theme));
        return spans;
    }
    let ghost head = styled_seq(spans@);
    let mut i: usize = 0;
    while i < segments.len()
        invariant
            i <= segments@.len(),
            styled_seq(spans@) == head + segments_spans_spec(segments@, i as int, *st, mode_label@, *theme),
        decreases segments@.len() - i,
    {
        let ghost before = styled_seq(spans@);
        spans.push(title_separator(theme));
        let kind = segments[i].kind;
        let more = if kind == ProcessTitleSegmentKind::TrackedOnly {
            process_tracked_only_title_spans(st, theme)
        } else if kind == ProcessTitleSegmentKind::ViewMode {
            process_view_mode_title_spans(st, mode_label, theme)
        } else {
            let one = vec![StyledText {
                text: String::from_str(segments[i].label.as_str()),
                style: process_title_segment_style(kind, st, theme),
            }];
            assert(styled_seq(one@) =~= segment_spans_spec(segments@[i as int], *st, mode_label@, *theme));
            one
        };
        assert(styled_seq(more@) == segment_spans_spec(segments@[i as int], *st, mode_label@, *theme));
        let ghost with_separator = styled_seq(spans@);
        assert(with_separator =~= before.push((TITLE_SEPARATOR@, thin(theme.muted))));
        append_styled(&mut spans, more);
        i = i + 1;
        assert(styled_seq(spans@) =~= head + segments_spans_spec(segments@, i as int, *st, mode_label@, *theme));
    }
    spans
}

/// A text without its surrounding whitespace; none when nothing else is
/// left.
pub open spec fn trimmed(s: Seq<char>) -> Option<Seq<char>> {
    if leading_blank(s) == s.len() {
        None
    } else {
        Some(s.subrange(leading_blank(s) as int, s.len() - trailing_blank(s)))
    }
}

/// The indentation and disclosure mark before a name in the tree view:
/// nothing outside the tree view or on the tracked total; otherwise the
/// indentation of the row's depth, the mark (open, closed, or a blank
/// without children) and a space. The mark of a row with children is muted
/// while the tree cannot be opened or closed, raised while hovered.
pub open spec fn tree_prefix_spec(
    tree_view: bool,
    is_tracked_total: bool,
    depth: usize,
    has_children: bool,
    expanded: bool,
    expansion_available: bool,
    hovered: bool,
    width: u16,
    base: TextStyle,
    theme: Theme,
) -> Seq<(Seq<char>, TextStyle)> {
    if !tree_view || is_tracked_total {
        Seq::empty()
    } else {
        let offset = min_int(add_upto(depth as int, depth as int, usize::MAX as int), sub0(width as int, 2));
        let glyph = if has_children { if expanded { "▾"@ } else { "▸"@ } } else { " "@ };
        let mark = if has_children && !expansion_available {
            TextStyle { fg: Some(theme.muted), ..base }
        } else if has_children && hovered {
            TextStyle { fg: Some(theme.text), bg: Some(theme.focus_surface), bold: true, underlined: false }
        } else {
            base
        };
        (if offset > 0 { seq![(repeated(' ', offset), base)] } else { Seq::empty() }) + seq![(glyph, mark), (" "@, base)]
    }
}

/// The indentation and disclosure mark before a name; see
/// `tree_prefix_spec`.
pub fn process_tree_prefix(
    tree_view: bool,
    is_tracked_total: bool,
    depth: usize,
    has_children: bool,
    expanded: bool,
    expansion_available: bool,
    hovered: bool,
    width: u16,
    base: TextStyle,
    theme: &Theme,
) -> (r: Vec<StyledText>)
    ensures
        styled_seq(r@) == tree_prefix_spec(
            tree_view,
            is_tracked_total,
            depth,
            has_children,
            expanded,
            expansion_available,
            hovered,
            width,
            base,
            *theme,
        ),
{
    let mut spans: Vec<StyledText> = Vec::new();
    if !tree_view || is_tracked_total {
        assert(styled_seq(spans@) =~= Seq::<(Seq<char>, TextStyle)>::empty());
        return spans;
    }
    let offset = process_tree_disclosure_offset(depth, width);
    if offset > 0 {
        spans.push(StyledText { text: repeat_string(' ', offset), style: base });
    }
    let glyph = if has_children {
        if expanded { "▾" } else { "▸" }
    } else {
        " "
    };
    let mark = if has_children && !expansion_available {
        TextStyle { fg: Some(theme.muted), ..base }
    } else if has_children && hovered {
        TextStyle { fg: Some(theme.text), bg: Some(theme.focus_surface), bold: true, underlined: false }
    } else {
        base
    };
    spans.push(StyledText { text: String::from_str(glyph), style: mark });
    spans.push(StyledText { text: String::from_str(" "), style: base });
    assert(styled_seq(spans@) =~= tree_prefix_spec(
        tree_view,
        is_tracked_total,
        depth,
        has_children,
        expanded,
        expansion_available,
        hovered,
        width,
        base,
        *theme,
    ));
    spans
}

/// The name cell of a row: the tree prefix, then the name (its first match of
/// the jump being typed, or else of the filter, highlighted) cut to the room
/// left; an exited process keeps its exit time in brackets after the name
/// when that fits. `exited_at` is that time as the clock shows it.
pub open spec fn name_line_spec(
    name: Seq<char>,
    exited_at: Option<Seq<char>>,
    width: u16,
    prefix: Seq<(Seq<char>, TextStyle)>,
    query: Option<Seq<char>>,
    base: TextStyle,
    theme: Theme,
) -> Seq<(Seq<char>, TextStyle)> {
    let name_width = sub0(width as int, spans_width(prefix));
    let line = match query {
        Some(q) => highlighted_spec(name, q, base, theme),
        None => seq![(name, base)],
    };
    let body = match exited_at {
        Some(t) => {
            let suffix = "("@ + t + ")"@;
            let suffix_width = line_width(suffix) as int;
            if suffix_width < name_width {
                truncate_line_spec(line, name_width - suffix_width, base).push((suffix, base))
            } else {
                truncate_line_spec(line, name_width, base)
            }
        },
        None => truncate_line_spec(line, name_width, base),
    };
    prefix + body
}

/// The text searched for in names: the jump while one is typed, otherwise
/// the filter, without surrounding whitespace; none when empty.
pub open spec fn name_query(jump_editing: bool, jump: Seq<char>, filter: Seq<char>) -> Option<Seq<char>> {
    trimmed(if jump_editing { jump } else { filter })
}

/// The name cell of a row; see `name_line_spec` and `name_query`.
pub fn process_name_line(
    name: &str,
    exited_at: Option<&str>,
    width: u16,
    prefix: Vec<StyledText>,
    jump_editing: bool,
    jump: &str,
    filter: &str,
    base: TextStyle,
    theme: &Theme,
) -> (r: Vec<StyledText>)
    ensures
        styled_seq(r@) == name_line_spec(
            name@,
            match exited_at {
                Some(t) => Some(t@),
                None => None,
            },
            width,
            styled_seq(prefix@),
            name_query(jump_editing, jump@, filter@),
            base,
            *theme,
        ),
{
    let ghost pre = styled_seq(prefix@);
    let mut prefix_width: usize = 0;
    let mut i: usize = 0;
    while i < prefix.len()
        invariant
            i <= prefix@.len(),
            pre == styled_seq(prefix@),
            prefix_width == spans_width(pre.take(i as int)),
        decreases prefix@.len() - i,
    {
        proof {
            assert(pre.take(i + 1).drop_last() =~= pre.take(i as int));
        }
        prefix_width = prefix_width.saturating_add(str_width(prefix[i].text.as_str()));
        i = i + 1;
    }
    assert(pre.take(prefix@.len() as int) =~= pre);
    let name_width = (width as usize).saturating_sub(prefix_width);
    let query = active_filter_query(if jump_editing { jump } else { filter });
    let line = match query {
        Some(q) => highlighted_process_name_line(name, q.as_str(), base, theme),
        None => {
            let one = vec![StyledText { text: String::from_str(name), style: base }];
            assert(styled_seq(one@) =~= seq![(name@, base)]);
            one
        },
    };
    let body = match exited_at {
        Some(t) => {
            let mut suffix = String::from_str("(");
            suffix.append(t);
            suffix.append(")");
            let suffix_width = text_width(suffix.as_str());
            if suffix_width < name_width {
                let mut cut = truncate_line_end(line, name_width - suffix_width, base);
                let ghost before = styled_seq(cut@);
                let ghost tail = suffix@;
                cut.push(StyledText { text: suffix, style: base });
                assert(styled_seq(cut@) =~= before.push((tail, base)));
                cut
            } else {
                truncate_line_end(line, name_width, base)
            }
        },
        None => truncate_line_end(line, name_width, base),
    };
    let ghost body_view = styled_seq(body@);
    let mut out = prefix;
    append_styled(&mut out, body);
    assert(styled_seq(out@) =~= pre + body_view);
    out
}

/// A metric column of the process table.
#[derive(Clone, Copy, Debug, PartialEq, Eq, Structural)]
pub enum MetricColumn {
    CpuPercent,
    PrivateBytes,
    WorksetBytes,
    WorksetPrivateBytes,
    WorksetShareableBytes,
    ThreadCount,
    HandleCount,
    UserObjectCount,
    GdiObjectCount,
    GpuPercent,
    DotNetHeapBytes,
    DotNetGcGen0HeapBytes,
    DotNetGcGen1HeapBytes,
    DotNetGcGen2HeapBytes,
    DotNetGcLohBytes,
    DotNetGcPohBytes,
    DotNetGcCommittedBytes,
    DotNetGcFragmentationBytes,
    DotNetAllocationBytesPerSec,
    GpuDedicatedBytes,
    GpuSharedBytes,
    IoReadBytesPerSec,
    IoWriteBytesPerSec,
    FullPath,
}

/// How a cell's text is aligned.
#[derive(Clone, Copy, Debug, PartialEq, Eq, Structural)]
pub enum CellAlignment {
    Left,
    Right,
}

/// The alignment of a metric column: the full path to the left, numbers to
/// the right.
pub fn process_metric_alignment(column: MetricColumn) -> (r: CellAlignment)
    ensures
        r == if column == MetricColumn::FullPath { CellAlignment::Left } else { CellAlignment::Right },
{
    match column {
        MetricColumn::FullPath => CellAlignment::Left,
        _ => CellAlignment::Right,
    }
}

/// Whether a column shows a count: threads, handles, user objects or GDI
/// objects.
pub open spec fn is_count_column(column: MetricColumn) -> bool {
    column == MetricColumn::ThreadCount || column == MetricColumn::HandleCount || column == MetricColumn::UserObjectCount
        || column == MetricColumn::GdiObjectCount
}

/// The values of a process that its count, rate and path cells show.
#[derive(Clone, Debug)]
pub struct ProcessColumnValues {
    pub thread_count: Option<u64>,
    pub handle_count: Option<u64>,
    pub user_object_count: Option<u64>,
    pub gdi_object_count: Option<u64>,
    pub io_read_bytes_per_sec: Option<u64>,
    pub io_write_bytes_per_sec: Option<u64>,
    pub executable_path: Option<String>,
}

/// A rate in bytes per second in whole decimal kilobytes, rounded to the
/// nearest (halves up).
pub open spec fn kilobytes_rounded(bytes: nat) -> nat {
    bytes / 1000 + if bytes % 1000 >= 500 { 1nat } else { 0nat }
}

/// A rate in decimal kilobytes per second with thousands separators, such as
/// `12,346 KB/s`.
pub fn format_kb_per_sec(bytes: u64) -> (r: String)
    ensures
        r@ == grouped(kilobytes_rounded(bytes as nat)) + " KB/s"@,
{
    let kb = bytes / 1000 + if bytes % 1000 >= 500 { 1 } else { 0 };
    let mut out = crate::ui::format::format_integer(kb);
    out.append(" KB/s");
    out
}

/// The count a count column shows.
pub open spec fn column_count(column: MetricColumn, values: ProcessColumnValues) -> Option<u64> {
    match column {
        MetricColumn::ThreadCount => values.thread_count,
        MetricColumn::HandleCount => values.handle_count,
        MetricColumn::UserObjectCount => values.user_object_count,
        _ => values.gdi_object_count,
    }
}

/// The text of a process's cell in `column`: a count with thousands
/// separators for the count columns, the read or write rate in kilobytes per
/// second for the I/O columns, the executable path fitted to the column's
/// width (its tail kept) for the path column, and for the other columns their
/// value as formatted (percentages and byte sizes); `--` where the value is
/// unknown.
pub open spec fn process_column_spec(
    column: MetricColumn,
    values: ProcessColumnValues,
    formatted: Option<Seq<char>>,
    column_width: int,
) -> Seq<char> {
    let missing = "--"@;
    if is_count_column(column) {
        crate::ui::system_panel::optional_integer_text(column_count(column, values))
    } else if column == MetricColumn::IoReadBytesPerSec || column == MetricColumn::IoWriteBytesPerSec {
        match if column == MetricColumn::IoReadBytesPerSec { values.io_read_bytes_per_sec } else { values.io_write_bytes_per_sec } {
            Some(v) => grouped(kilobytes_rounded(v as nat)) + " KB/s"@,
            None => missing,
        }
    } else if column == MetricColumn::FullPath {
        match values.executable_path {
            Some(p) => compact_path_start_spec(p@, column_width),
            None => missing,
        }
    } else {
        match formatted {
            Some(f) => f,
            None => missing,
        }
    }
}

/// The text of a process's cell; see `process_column_spec`. `formatted` is
/// the column's value as formatted where the column shows a percentage or a
/// byte size.
pub fn format_process_column(
    column: MetricColumn,
    values: &ProcessColumnValues,
    formatted: Option<String>,
    column_width: u16,
) -> (r: String)
    ensures
        r@ == process_column_spec(
            column,
            *values,
            match formatted {
                Some(f) => Some(f@),
                None => None,
            },
            column_width as int,
        ),
{
    match column {
        MetricColumn::ThreadCount => crate::ui::system_panel::format_optional_integer(values.thread_count),
        MetricColumn::HandleCount => crate::ui::system_panel::format_optional_integer(values.handle_count),
        MetricColumn::UserObjectCount => crate::ui::system_panel::format_optional_integer(values.user_object_count),
        MetricColumn::GdiObjectCount => crate::ui::system_panel::format_optional_integer(values.gdi_object_count),
        MetricColumn::IoReadBytesPerSec => match values.io_read_bytes_per_sec {
            Some(v) => format_kb_per_sec(v),
            None => String::from_str("--"),
        },
        MetricColumn::IoWriteBytesPerSec => match values.io_write_bytes_per_sec {
            Some(v) => format_kb_per_sec(v),
            None => String::from_str("--"),
        },
        MetricColumn::FullPath => match &values.executable_path {
            Some(p) => compact_path_start(p.as_str(), column_width as usize),
            None => String::from_str("--"),
        },
        _ => match formatted {
            Some(f) => f,
            None => String::from_str("--"),
        },
    }
}

/// Whether the value a cell in `column` shows is unknown.
pub open spec fn column_value_missing(
    column: MetricColumn,
    values: ProcessColumnValues,
    formatted: Option<Seq<char>>,
) -> bool {
    if is_count_column(column) {
        column_count(column, values) is None
    } else if column == MetricColumn::IoReadBytesPerSec {
        values.io_read_bytes_per_sec is None
    } else if column == MetricColumn::IoWriteBytesPerSec {
        values.io_write_bytes_per_sec is None
    } else if column == MetricColumn::FullPath {
        values.executable_path is None
    } else {
        formatted is None
    }
}

/// A process's cell reads `--` wherever its value is unknown, whatever the
/// column and its width.
pub proof fn lemma_unknown_cells_read_dashes(
    column: MetricColumn,
    values: ProcessColumnValues,
    formatted: Option<Seq<char>>,
    column_width: int,
)
    requires
        column_value_missing(column, values, formatted),
    ensures
        process_column_spec(column, values, formatted, column_width) == "--"@,
{
}

/// The column's width shapes only the path cell: every other cell of a
/// process reads the same at any two widths.
pub proof fn lemma_only_the_path_cell_depends_on_width(
    column: MetricColumn,
    values: ProcessColumnValues,
    formatted: Option<Seq<char>>,
    width_a: int,
    width_b: int,
)
    requires
        column != MetricColumn::FullPath,
    ensures
        process_column_spec(column, values, formatted, width_a) == process_column_spec(
            column,
            values,
            formatted,
            width_b,
        ),
{
}

} // verus!

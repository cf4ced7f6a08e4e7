//! Numbers behind the graph details panel: sample viewports, axis scales,
//! tick positions and labels.

use vstd::prelude::*;

use crate::ui::format::{decimal, decimal_string};
use crate::ui::graph_slot::{styled_seq, styled_view, StyledText, TextStyle};
use crate::ui::layout::{graph_workspace_title_label, workspace_title_spec, GraphSpanControlAreas};
use crate::ui::theme::{Color, Theme};
use crate::ui::rect::{max_int, min_int, sub0, Rect};
use crate::ui::text::{
    chars_of, line_width, pad_start, pad_start_string, repeat_char, repeated, str_line_width, string_from_chars,
};
use crate::ui::widgets::scrollable_modal::{scale_fits, scaled};

verus! {

/// Characters of a sample value column.
pub const SAMPLE_METRIC_VALUE_WIDTH: usize = 15;
/// Characters of a sample delta column.
pub const SAMPLE_DELTA_WIDTH: usize = 15;

/// The first and past-the-last rows of the sample page that starts at
/// `offset`, held so that a full page (of at least one row) fits.
pub open spec fn viewport_spec(total: int, offset: int, rows: int) -> (int, int) {
    if total == 0 {
        (0, 0)
    } else {
        let rows = min_int(max_int(rows, 1), total);
        let start = min_int(offset, total - rows);
        (start, start + rows)
    }
}

/// The rows of the sample page; see `viewport_spec`.
pub fn sample_viewport_bounds(total: usize, offset: usize, rows: usize) -> (r: (usize, usize))
    ensures
        r.0 == viewport_spec(total as int, offset as int, rows as int).0,
        r.1 == viewport_spec(total as int, offset as int, rows as int).1,
        r.0 <= r.1 <= total,
{
    if total == 0 {
        return (0, 0);
    }
    let rows1 = if rows >= 1 { rows } else { 1 };
    let rows = if rows1 < total { rows1 } else { total };
    let max_start = total - rows;
    let start = if offset < max_start { offset } else { max_start };
    (start, start + rows)
}

/// The offset of a sample page that shows `selected_index` on the same row on
/// which the active page shows its selection.
pub open spec fn synced_offset_spec(
    total: int,
    rows: int,
    selected_index: int,
    active_selected: int,
    active_offset: int,
) -> int {
    if total == 0 {
        0
    } else {
        let rows = min_int(max_int(rows, 1), total);
        let max_offset = total - rows;
        let selected = min_int(selected_index, total - 1);
        let active_row = min_int(sub0(active_selected, active_offset), rows - 1);
        min_int(sub0(selected, active_row), max_offset)
    }
}

/// The offset of a sample page kept in step with the active page.
pub fn synced_sample_viewport_offset(
    total: usize,
    rows: usize,
    selected_index: usize,
    active_selected: usize,
    active_offset: usize,
) -> (r: usize)
    ensures
        r == synced_offset_spec(
            total as int,
            rows as int,
            selected_index as int,
            active_selected as int,
            active_offset as int,
        ),
{
    if total == 0 {
        return 0;
    }
    let rows1 = if rows >= 1 { rows } else { 1 };
    let rows = if rows1 < total { rows1 } else { total };
    let max_offset = total - rows;
    let selected = if selected_index < total - 1 { selected_index } else { total - 1 };
    let a = active_selected.saturating_sub(active_offset);
    let active_row = if a < rows - 1 { a } else { rows - 1 };
    let o = selected.saturating_sub(active_row);
    if o < max_offset {
        o
    } else {
        max_offset
    }
}

/// A synced page shows the selected sample, on the active page's selection row
/// when the list has room for that.
pub proof fn synced_offset_shows_selection(
    total: int,
    rows: int,
    selected_index: int,
    active_selected: int,
    active_offset: int,
)
    requires
        0 <= selected_index < total,
        1 <= rows,
        0 <= active_selected,
        0 <= active_offset,
    ensures
        ({
            let offset = synced_offset_spec(total, rows, selected_index, active_selected, active_offset);
            let shown = min_int(rows, total);
            offset <= selected_index < offset + shown
        }),
{
}

/// Position of the sample scrollbar for the page at `start`: the top at the
/// first page, the last position on the last page.
pub fn samples_scrollbar_position(total: usize, rows: usize, start: usize) -> (r: usize)
    requires
        crate::ui::open_files::list_scrollbar_fits(total as int, rows as int, start as int),
    ensures
        r == crate::ui::open_files::list_scrollbar_position(total as int, rows as int, start as int),
{
    crate::ui::open_files::open_files_scrollbar_position(total, rows, start)
}

/// `10` to the power `k`.
pub open spec fn pow10(k: nat) -> nat
    decreases k,
{
    if k == 0 {
        1
    } else {
        10 * pow10((k - 1) as nat)
    }
}

/// `10` to the power `power`.
pub fn pow10_u64(power: u32) -> (r: u64)
    requires
        pow10(power as nat) <= u64::MAX,
    ensures
        r == pow10(power as nat),
{
    let mut r: u64 = 1;
    let mut i: u32 = 0;
    while i < power
        invariant
            i <= power,
            r == pow10(i as nat),
            pow10(power as nat) <= u64::MAX,
        decreases power - i,
    {
        proof {
            lemma_pow10_monotonic((i + 1) as nat, power as nat);
        }
        r = r * 10;
        i = i + 1;
    }
    r
}

/// Larger powers of ten are larger.
pub proof fn lemma_pow10_monotonic(a: nat, b: nat)
    requires
        a <= b,
    ensures
        1 <= pow10(a) <= pow10(b),
    decreases b,
{
    if b == 0 {
    } else if a == b {
        lemma_pow10_monotonic((b - 1) as nat, (b - 1) as nat);
    } else {
        lemma_pow10_monotonic(a, (b - 1) as nat);
    }
}

/// Decimal digits of `n`.
pub open spec fn digit_count(n: nat) -> nat {
    decimal(n).len()
}

/// `value` rounded up to a multiple of `step`.
pub open spec fn ceil_multiple(value: int, step: int) -> int {
    ((value + step - 1) / step) * step
}

/// `value` rounded up to a multiple of `step`.
pub fn ceil_to_multiple(value: u64, step: u64) -> (r: u64)
    requires
        step > 0,
        ceil_multiple(value as int, step as int) <= u64::MAX,
    ensures
        r == ceil_multiple(value as int, step as int),
{
    let q = value / step;
    proof {
        if value % step != 0 {
            assert(step >= 2);
            assert(value / step <= value / 2) by (nonlinear_arith)
                requires step >= 2;
        }
    }
    let q = if value % step == 0 { q } else { q + 1 };
    proof {
        let v = value as int;
        let st = step as int;
        let qq = q as int;
        assert(qq == (v + st - 1) / st) by (nonlinear_arith)
            requires
                st > 0,
                v >= 0,
                qq == if v % st == 0 { v / st } else { v / st + 1 },
        ;
    }
    q * step
}

/// The top of a value axis: small values as they are (at least one), larger
/// ones rounded up to their two leading digits.
pub open spec fn nice_axis_max_spec(value: nat) -> int {
    if value <= 10 {
        max_int(value as int, 1)
    } else {
        ceil_multiple(value as int, pow10(sub0(digit_count(value) as int, 2) as nat) as int)
    }
}

/// Decimal digits of `n`.
pub fn count_digits(n: u64) -> (r: u32)
    ensures
        r == digit_count(n as nat),
        r <= 20,
    decreases n,
{
    proof {
        lemma_digit_count_bound(n as nat);
    }
    if n < 10 {
        1
    } else {
        let r = count_digits(n / 10);
        assert(decimal(n as nat) == decimal((n / 10) as nat).push(crate::ui::format::digit_char((n % 10) as int)));
        r + 1
    }
}

/// The top of a value axis; see `nice_axis_max_spec`.
pub fn nice_axis_max(value: u64) -> (r: u64)
    requires
        nice_axis_max_spec(value as nat) <= u64::MAX,
    ensures
        r == nice_axis_max_spec(value as nat),
{
    if value <= 10 {
        return if value >= 1 { value } else { 1 };
    }
    let digits = count_digits(value);
    let power = digits.saturating_sub(2);
    proof {
        lemma_digit_count_bound(value as nat);
        lemma_pow10_monotonic(power as nat, 18);
        reveal_with_fuel(pow10, 19);
        lemma_pow10_monotonic(0, power as nat);
    }
    let step = pow10_u64(power);
    ceil_to_multiple(value, step)
}

/// `n` lies between the powers of ten around its digit count.
pub proof fn lemma_digit_count_powers(n: nat)
    ensures
        digit_count(n) >= 1,
        n < pow10(digit_count(n)),
        n >= 1 ==> pow10((digit_count(n) - 1) as nat) <= n,
    decreases n,
{
    reveal_with_fuel(pow10, 2);
    if n >= 10 {
        lemma_digit_count_powers(n / 10);
        assert(decimal(n) == decimal(n / 10).push(crate::ui::format::digit_char((n % 10) as int)));
        let d = digit_count(n / 10);
        assert(digit_count(n) == d + 1);
        assert(pow10(d + 1) == 10 * pow10(d));
        assert(pow10(d) == 10 * pow10((d - 1) as nat));
        let m = n / 10;
        let p = pow10((d - 1) as nat);
        assert(10 * p <= n) by (nonlinear_arith)
            requires p <= m, m == n / 10;
        assert(n < 10 * pow10(d)) by (nonlinear_arith)
            requires m < pow10(d), m == n / 10;
    }
}

/// A `u64` has at most twenty digits.
pub proof fn lemma_digit_count_bound(n: nat)
    requires
        n <= u64::MAX,
    ensures
        digit_count(n) <= 20,
        digit_count(n) >= 1,
        n < pow10(digit_count(n)),
{
    lemma_digit_count_powers(n);
    if digit_count(n) > 20 {
        reveal_with_fuel(pow10, 21);
        lemma_pow10_monotonic(20, (digit_count(n) - 1) as nat);
        assert(pow10(20) == 100000000000000000000nat);
    }
}

/// The axis top is at least the value, and less than one rounding step above.
pub proof fn nice_axis_max_rounds_up(value: nat)
    requires
        value > 10,
    ensures
        value <= nice_axis_max_spec(value),
        nice_axis_max_spec(value) < value + pow10(sub0(digit_count(value) as int, 2) as nat),
{
    let step = pow10(sub0(digit_count(value) as int, 2) as nat) as int;
    lemma_pow10_monotonic(0, sub0(digit_count(value) as int, 2) as nat);
    let v = value as int;
    let t = v + step - 1;
    assert(t == step * (t / step) + t % step && 0 <= t % step < step) by (nonlinear_arith)
        requires step >= 1, t >= 0;
    assert((t / step) * step == step * (t / step)) by (nonlinear_arith);
}

/// Rows of the top, middle and bottom labels of a value axis `height` rows
/// tall.
pub fn y_axis_tick_positions(height: usize) -> (r: [usize; 3])
    ensures
        r@ == seq![0usize, (height / 2) as usize, sub0(height as int, 1) as usize],
{
    let bottom = height.saturating_sub(1);
    let r = [0, height / 2, bottom];
    assert(r@ =~= seq![0usize, (height / 2) as usize, sub0(height as int, 1) as usize]);
    r
}

/// Column where the plot starts: after the value labels, within the width.
pub open spec fn axis_x_offset_spec(width: int, y_label_width: int) -> int {
    min_int(sub0(y_label_width, 1), sub0(width, 1))
}

/// Column where the plot starts.
pub fn graph_axis_x_offset(width: usize, y_label_width: usize) -> (r: usize)
    ensures
        r == axis_x_offset_spec(width as int, y_label_width as int),
{
    let a = y_label_width.saturating_sub(1);
    let b = width.saturating_sub(1);
    if a < b {
        a
    } else {
        b
    }
}

/// Column of the tick `index` (of five) on a time axis `width` columns wide.
pub open spec fn tick_position(width: int, y_label_width: int, index: int) -> int {
    let start = axis_x_offset_spec(width, y_label_width);
    let plot_width = max_int(width - start, 1);
    start + ((plot_width - 1) * index + 2) / 4
}

/// Columns of the five ticks of a time axis `width` columns wide: none on an
/// empty axis, otherwise from the plot start to the last column, evenly apart.
pub fn axis_tick_positions(width: usize, y_label_width: usize) -> (r: Vec<usize>)
    requires
        (max_int(width - axis_x_offset_spec(width as int, y_label_width as int), 1) - 1) * 4 + 2 <= usize::MAX,
    ensures
        width == 0 ==> r@.len() == 0,
        width > 0 ==> r@.len() == 5 && forall|i: int| 0 <= i < 5 ==> #[trigger] r@[i] == tick_position(
            width as int,
            y_label_width as int,
            i,
        ),
{
    let mut out: Vec<usize> = Vec::new();
    if width == 0 {
        return out;
    }
    let start = graph_axis_x_offset(width, y_label_width);
    let p0 = width - start;
    let plot_width = if p0 >= 1 { p0 } else { 1 };
    let mut index: usize = 0;
    while index <= 4
        invariant
            index <= 5,
            width > 0,
            start == axis_x_offset_spec(width as int, y_label_width as int),
            plot_width == max_int(width - start, 1),
            start + plot_width == width,
            (plot_width - 1) * 4 + 2 <= usize::MAX,
            out@.len() == index,
            forall|i: int| 0 <= i < index ==> #[trigger] out@[i] == tick_position(width as int, y_label_width as int, i),
        decreases 5 - index,
    {
        assert((plot_width - 1) * index + 2 <= (plot_width - 1) * 4 + 2) by (nonlinear_arith)
            requires index <= 4, plot_width >= 1;
        let q = ((plot_width - 1) * index + 2) / 4;
        assert(((plot_width - 1) * index + 2) / 4 <= plot_width - 1 + 1) by (nonlinear_arith)
            requires index <= 4, plot_width >= 1;
        out.push(start + q);
        index = index + 1;
    }
    out
}

/// Neighbouring quarter marks of `p` are `p / 4` or one more apart.
pub proof fn lemma_tick_gap(p: int, a: int)
    requires
        p >= 0,
        0 <= a < 4,
    ensures
        p / 4 <= (p * (a + 1) + 2) / 4 - (p * a + 2) / 4 <= p / 4 + 1,
{
    assert((p * (a + 1) + 2) / 4 - (p * a + 2) / 4 >= p / 4) by (nonlinear_arith)
        requires p >= 0, 0 <= a < 4;
    assert((p * (a + 1) + 2) / 4 - (p * a + 2) / 4 <= p / 4 + 1) by (nonlinear_arith)
        requires p >= 0, 0 <= a < 4;
}

/// The ticks of a time axis run from the plot start to the last column, and
/// neighbouring ticks are the same distance apart to within one column.
pub proof fn axis_ticks_are_even(width: int, y_label_width: int, i: int, j: int)
    requires
        width >= 1,
        y_label_width >= 0,
        0 <= i < 4,
        0 <= j < 4,
    ensures
        tick_position(width, y_label_width, 0) == axis_x_offset_spec(width, y_label_width),
        tick_position(width, y_label_width, 4) == width - 1,
        tick_position(width, y_label_width, i) <= tick_position(width, y_label_width, i + 1),
        (tick_position(width, y_label_width, i + 1) - tick_position(width, y_label_width, i)) - (
        tick_position(width, y_label_width, j + 1) - tick_position(width, y_label_width, j)) <= 1,
{
    let start = axis_x_offset_spec(width, y_label_width);
    let p = max_int(width - start, 1) - 1;
    assert(p >= 0);
    assert((p * 4 + 2) / 4 == p) by (nonlinear_arith)
        requires p >= 0;
    assert((p * 0 + 2) / 4 == 0) by (nonlinear_arith);
    lemma_tick_gap(p, i);
    lemma_tick_gap(p, j);
}

/// The row of chars after a label is written centred on `tick`, or ending at
/// the last column when it would run past it.
pub open spec fn label_start(len: int, label_width: int, tick: int) -> int {
    if tick + label_width >= len {
        sub0(len, label_width)
    } else {
        sub0(tick, label_width / 2)
    }
}

/// Writes `label` into the row `chars` around column `tick_position`: centred
/// on it, or ending at the last column when it would run past it; characters
/// past the row's end are dropped.
pub fn write_axis_label(chars: &mut Vec<char>, label: &str, tick_position: usize)
    requires
        tick_position + label@.len() <= usize::MAX,
    ensures
        final(chars)@.len() == old(chars)@.len(),
        forall|i: int| 0 <= i < old(chars)@.len() ==> #[trigger] final(chars)@[i] == ({
            let start = label_start(old(chars)@.len() as int, label@.len() as int, tick_position as int);
            if start <= i < start + label@.len() {
                label@[i - start]
            } else {
                old(chars)@[i]
            }
        }),
{
    let n = chars.len();
    if n == 0 {
        return;
    }
    let label_chars = crate::ui::text::chars_of(label);
    let label_width = label_chars.len();
    let start = if tick_position + label_width >= n {
        n.saturating_sub(label_width)
    } else {
        tick_position.saturating_sub(label_width / 2)
    };
    let ghost before = chars@;
    let mut offset: usize = 0;
    while offset < label_width
        invariant
            offset <= label_width == label@.len(),
            label_chars@ == label@,
            n == before.len() == chars@.len(),
            start == label_start(n as int, label_width as int, tick_position as int),
            start <= n,
            forall|i: int| 0 <= i < n ==> #[trigger] chars@[i] == if start <= i < start + offset {
                label@[i - start]
            } else {
                before[i]
            },
        decreases label_width - offset,
    {
        if start + offset < n {
            chars.set(start + offset, label_chars[offset]);
        }
        offset = offset + 1;
    }
}

/// The visible time range of a graph, in seconds relative to now: it ends
/// `offset_seconds` ago and spans `span_seconds` (at least one).
pub fn graph_bounds(span_seconds: u32, offset_seconds: u32) -> (r: (i64, i64))
    ensures
        r.1 == -(offset_seconds as int),
        r.0 == r.1 - max_int(span_seconds as int, 1),
{
    let right = -(offset_seconds as i64);
    let span = if span_seconds >= 1 { span_seconds } else { 1 };
    (right - span as i64, right)
}

/// Characters of the longest label.
pub open spec fn longest_len(labels: Seq<Seq<char>>) -> int
    decreases labels.len(),
{
    if labels.len() == 0 {
        0
    } else {
        max_int(longest_len(labels.drop_last()), labels.last().len() as int)
    }
}

/// Width of the value labels: the longest label and one column of gap.
pub fn y_axis_label_width(labels: &Vec<String>) -> (r: usize)
    requires
        forall|i: int| 0 <= i < labels@.len() ==> #[trigger] labels@[i]@.len() < usize::MAX,
    ensures
        r == longest_len(labels@.map_values(|s: String| s@)) + 1,
{
    let ghost views = labels@.map_values(|s: String| s@);
    let mut longest: usize = 0;
    let mut i: usize = 0;
    while i < labels.len()
        invariant
            i <= labels@.len(),
            views == labels@.map_values(|s: String| s@),
            longest == longest_len(views.take(i as int)),
            longest < usize::MAX,
            forall|k: int| 0 <= k < labels@.len() ==> #[trigger] labels@[k]@.len() < usize::MAX,
        decreases labels@.len() - i,
    {
        let len = labels[i].as_str().unicode_len();
        proof {
            assert(views.take(i + 1).drop_last() =~= views.take(i as int));
        }
        if len > longest {
            longest = len;
        }
        i = i + 1;
    }
    proof {
        assert(views.take(labels@.len() as int) =~= views);
    }
    longest + 1
}

/// Labels right-aligned to the label column (its width less the gap); empty
/// labels stay empty.
pub fn pad_y_axis_labels(labels: Vec<String>, y_label_width: usize) -> (r: Vec<String>)
    ensures
        r@.len() == labels@.len(),
        forall|i: int| 0 <= i < labels@.len() ==> #[trigger] r@[i]@ == if labels@[i]@.len() == 0 {
            labels@[i]@
        } else {
            pad_start(labels@[i]@, sub0(y_label_width as int, 1))
        },
{
    let label_width = y_label_width.saturating_sub(1);
    let mut out: Vec<String> = Vec::new();
    let mut i: usize = 0;
    while i < labels.len()
        invariant
            i <= labels@.len(),
            label_width == sub0(y_label_width as int, 1),
            out@.len() == i,
            forall|k: int| 0 <= k < i ==> #[trigger] out@[k]@ == if labels@[k]@.len() == 0 {
                labels@[k]@
            } else {
                pad_start(labels@[k]@, label_width as int)
            },
        decreases labels@.len() - i,
    {
        let label = labels[i].as_str();
        if label.unicode_len() == 0 {
            out.push(String::from_str(label));
        } else {
            out.push(pad_start_string(label, label_width));
        }
        i = i + 1;
    }
    out
}

/// The label of the five-sample moving average, with its averaging interval
/// when the samples are aggregated.
pub fn moving_average_label(aggregate_interval_seconds: Option<u64>) -> (r: String)
    ensures
        r@ == match aggregate_interval_seconds {
            Some(interval) => "MA5 (5×"@ + decimal(interval as nat) + "s avg)"@,
            None => "MA5"@,
        },
{
    match aggregate_interval_seconds {
        Some(interval) => {
            let mut out = String::from_str("MA5 (5×");
            let digits = decimal_string(interval as u128);
            out.append(digits.as_str());
            out.append("s avg)");
            out
        },
        None => String::from_str("MA5"),
    }
}

/// Nanoseconds in a second.
pub const NANOS_PER_SECOND: i128 = 1_000_000_000;

/// Whole seconds from a capture time to the latest one, none for a later
/// capture; capture times are nanoseconds since the epoch.
pub open spec fn age_in_seconds(latest: int, captured_at: int) -> int {
    if latest - captured_at >= 0 {
        (latest - captured_at) / NANOS_PER_SECOND as int
    } else {
        0
    }
}

/// Age in whole seconds of the sample `index` against the latest sample;
/// absent when there is no such sample.
pub fn sample_age_seconds(captured_at: &Vec<i64>, index: usize) -> (r: Option<i64>)
    ensures
        r == if index < captured_at@.len() {
            Some(age_in_seconds(captured_at@.last() as int, captured_at@[index as int] as int) as i64)
        } else {
            None::<i64>
        },
        index < captured_at@.len() ==> 0 <= age_in_seconds(captured_at@.last() as int, captured_at@[index as int] as int)
            <= i64::MAX,
{
    let n = captured_at.len();
    if n == 0 || index >= n {
        return None;
    }
    let latest = captured_at[n - 1] as i128;
    let sample = captured_at[index] as i128;
    let diff = latest - sample;
    let age = if diff >= 0 { diff / NANOS_PER_SECOND } else { 0 };
    assert(age <= i64::MAX) by (nonlinear_arith)
        requires age == if diff >= 0 { diff / 1_000_000_000 } else { 0 }, diff <= 18446744073709551615int;
    Some(age as i64)
}

/// Distance of a sample's age from `age`.
pub open spec fn age_distance(captured_at: Seq<i64>, index: int, age: int) -> int {
    let d = age_in_seconds(captured_at.last() as int, captured_at[index] as int) - age;
    if d < 0 { -d } else { d }
}

/// Whether sample `i` is at least as near to `age` as sample `j`, the later of
/// two equally near samples counting as nearer.
pub open spec fn nearer_or_same(captured_at: Seq<i64>, age: int, i: int, j: int) -> bool {
    age_distance(captured_at, i, age) < age_distance(captured_at, j, age) || (age_distance(captured_at, i, age)
        == age_distance(captured_at, j, age) && i >= j)
}

/// Whether the age distances of all samples fit in an `i64`.
pub open spec fn ages_fit(captured_at: Seq<i64>, age: int) -> bool {
    forall|i: int|
        0 <= i < captured_at.len() ==> i64::MIN < #[trigger] age_in_seconds(captured_at.last() as int, captured_at[i] as int) - age
            <= i64::MAX
}

/// The sample whose age is nearest to `age_seconds`, the latest one among equally
/// near samples; none without samples.
pub fn sample_index_nearest_age_seconds(captured_at: &Vec<i64>, age_seconds: i64) -> (r: Option<usize>)
    requires
        ages_fit(captured_at@, age_seconds as int),
    ensures
        captured_at@.len() == 0 ==> r is None,
        captured_at@.len() > 0 ==> (r matches Some(i) && i < captured_at@.len() && forall|j: int|
            0 <= j < captured_at@.len() ==> nearer_or_same(captured_at@, age_seconds as int, i as int, j)),
{
    let n = captured_at.len();
    if n == 0 {
        return None;
    }
    let mut best: usize = 0;
    let mut best_distance: i128 = 0;
    let mut i: usize = 0;
    while i < n
        invariant
            n == captured_at@.len() > 0,
            i <= n,
            best < n,
            i > 0 ==> best_distance == age_distance(captured_at@, best as int, age_seconds as int),
            i > 0 ==> best < i,
            forall|j: int| 0 <= j < i ==> nearer_or_same(captured_at@, age_seconds as int, best as int, j),
        decreases n - i,
    {
        let age = sample_age_seconds(captured_at, i).unwrap() as i128;
        let d0 = age - age_seconds as i128;
        let d = if d0 < 0 { -d0 } else { d0 };
        assert(d == age_distance(captured_at@, i as int, age_seconds as int));
        let ghost old_best = best;
        if i == 0 || d <= best_distance {
            best = i;
            best_distance = d;
        }
        proof {
            assert forall|j: int| 0 <= j < i + 1 implies nearer_or_same(
                captured_at@,
                age_seconds as int,
                best as int,
                j,
            ) by {
                if j < i {
                    assert(nearer_or_same(captured_at@, age_seconds as int, old_best as int, j));
                }
            }
        }
        i = i + 1;
    }
    Some(best)
}

/// The first sample whose age is exactly `age_seconds`; none when no sample has
/// that age.
pub fn sample_index_at_age_seconds(captured_at: &Vec<i64>, age_seconds: i64) -> (r: Option<usize>)
    ensures
        match r {
            Some(i) => i < captured_at@.len() && age_in_seconds(captured_at@.last() as int, captured_at@[i as int] as int)
                == age_seconds && forall|j: int|
                0 <= j < i ==> age_in_seconds(captured_at@.last() as int, captured_at@[j] as int) != age_seconds,
            None => forall|j: int|
                0 <= j < captured_at@.len() ==> age_in_seconds(captured_at@.last() as int, captured_at@[j] as int)
                    != age_seconds,
        },
{
    let n = captured_at.len();
    let mut i: usize = 0;
    while i < n
        invariant
            n == captured_at@.len(),
            i <= n,
            forall|j: int|
                0 <= j < i ==> age_in_seconds(captured_at@.last() as int, captured_at@[j] as int) != age_seconds,
        decreases n - i,
    {
        if sample_age_seconds(captured_at, i) == Some(age_seconds) {
            return Some(i);
        }
        i = i + 1;
    }
    None
}


/// Two decimal digits of `n` (below one hundred), with a leading zero.
pub open spec fn two_digits(n: nat) -> Seq<char> {
    if n < 10 { "0"@ + decimal(n) } else { decimal(n) }
}

/// A signed time difference in whole seconds, in the largest units it needs:
/// `+5s`, `-1m05s`, `+1h02m05s`.
pub open spec fn elapsed_spec(seconds: int) -> Seq<char> {
    let sign = if seconds < 0 { "-"@ } else { "+"@ };
    let a = if seconds < 0 { -seconds } else { seconds };
    let hours = a / 3600;
    let minutes = (a % 3600) / 60;
    let secs = a % 60;
    if hours > 0 {
        sign + decimal(hours as nat) + "h"@ + two_digits(minutes as nat) + "m"@ + two_digits(secs as nat) + "s"@
    } else if minutes > 0 {
        sign + decimal(minutes as nat) + "m"@ + two_digits(secs as nat) + "s"@
    } else {
        sign + decimal(secs as nat) + "s"@
    }
}

/// The decimal digits of `n`, at least two, with a leading zero below ten.
pub fn two_digit_string(n: u64) -> (r: String)
    ensures
        r@ == two_digits(n as nat),
{
    let digits = decimal_string(n as u128);
    if n < 10 {
        let mut out = String::from_str("0");
        out.append(digits.as_str());
        out
    } else {
        digits
    }
}

/// A signed time difference of `seconds` whole seconds; see `elapsed_spec`.
pub fn format_elapsed_delta(seconds: i64) -> (r: String)
    requires
        seconds != i64::MIN,
    ensures
        r@ == elapsed_spec(seconds as int),
{
    let negative = seconds < 0;
    let a: u64 = if negative { (-seconds) as u64 } else { seconds as u64 };
    let hours = a / 3600;
    let minutes = (a % 3600) / 60;
    let secs = a % 60;
    let mut out = String::from_str(if negative { "-" } else { "+" });
    if hours > 0 {
        let h = decimal_string(hours as u128);
        out.append(h.as_str());
        out.append("h");
        let m = two_digit_string(minutes);
        out.append(m.as_str());
        out.append("m");
        let s = two_digit_string(secs);
        out.append(s.as_str());
        out.append("s");
    } else if minutes > 0 {
        let m = decimal_string(minutes as u128);
        out.append(m.as_str());
        out.append("m");
        let s = two_digit_string(secs);
        out.append(s.as_str());
        out.append("s");
    } else {
        let s = decimal_string(secs as u128);
        out.append(s.as_str());
        out.append("s");
    }
    out
}

/// The offsets, in seconds from the latest sample, of the five time labels of
/// a graph over `bounds`: evenly spread over the span (at least one second),
/// rounded to the nearest second.
pub open spec fn tick_offsets_spec(bounds: (i64, i64)) -> Seq<int> {
    let span = max_int(bounds.1 - bounds.0, 1);
    Seq::new(5, |i: int| bounds.0 + (span * i + 2) / 4)
}

/// The offsets of the five time labels; see `tick_offsets_spec`. The labels
/// show the latest sample's clock time moved by these offsets.
pub fn graph_tick_offsets(bounds: (i64, i64)) -> (r: Vec<i64>)
    requires
        i64::MIN <= bounds.1 - bounds.0 <= i64::MAX,
        bounds.0 + max_int(bounds.1 - bounds.0, 1) <= i64::MAX,
    ensures
        r@.len() == 5,
        forall|i: int| 0 <= i < 5 ==> #[trigger] r@[i] == tick_offsets_spec(bounds)[i],
{
    let d = bounds.1 - bounds.0;
    let span: i64 = if d >= 1 { d } else { 1 };
    let mut out: Vec<i64> = Vec::new();
    let mut i: i64 = 0;
    while i <= 4
        invariant
            0 <= i <= 5,
            span == max_int(bounds.1 - bounds.0, 1),
            bounds.0 + span <= i64::MAX,
            out@.len() == i,
            forall|k: int| 0 <= k < i ==> #[trigger] out@[k] == tick_offsets_spec(bounds)[k],
        decreases 5 - i,
    {
        assert(span * i <= 4 * 9223372036854775807) by (nonlinear_arith)
            requires
                0 <= i <= 4,
                1 <= span <= 9223372036854775807;
        let wide = span as i128 * i as i128 + 2;
        let step = wide / 4;
        assert(0 <= step <= span) by (nonlinear_arith)
            requires
                wide == span * i + 2,
                step == wide / 4,
                0 <= i <= 4,
                span >= 1;
        out.push((bounds.0 as i128 + step) as i64);
        i = i + 1;
    }
    out
}

/// Whole seconds from a capture time to a reference time, none without a
/// reference, never below zero; times are nanoseconds since the epoch.
pub fn sample_age_seconds_at_time(reference: Option<i64>, captured_at: i64) -> (r: Option<i64>)
    ensures
        r == match reference {
            Some(t) => Some(age_in_seconds(t as int, captured_at as int) as i64),
            None => None::<i64>,
        },
        reference matches Some(t) ==> 0 <= age_in_seconds(t as int, captured_at as int) <= i64::MAX,
{
    let t = match reference {
        Some(t) => t,
        None => return None,
    };
    let diff = t as i128 - captured_at as i128;
    let age = if diff >= 0 { diff / NANOS_PER_SECOND } else { 0 };
    assert(age <= i64::MAX) by (nonlinear_arith)
        requires age == if diff >= 0 { diff / 1_000_000_000 } else { 0 }, diff <= 18446744073709551615int;
    Some(age as i64)
}

/// The first sample taken exactly at `at`; none when no sample was.
pub fn sample_index_at_time(captured_at: &Vec<i64>, at: i64) -> (r: Option<usize>)
    ensures
        match r {
            Some(i) => i < captured_at@.len() && captured_at@[i as int] == at && forall|j: int|
                0 <= j < i ==> captured_at@[j] != at,
            None => forall|j: int| 0 <= j < captured_at@.len() ==> captured_at@[j] != at,
        },
{
    let mut i: usize = 0;
    while i < captured_at.len()
        invariant
            i <= captured_at@.len(),
            forall|j: int| 0 <= j < i ==> captured_at@[j] != at,
        decreases captured_at@.len() - i,
    {
        if captured_at[i] == at {
            return Some(i);
        }
        i = i + 1;
    }
    None
}

/// Whole milliseconds between a sample's time and `at`.
pub open spec fn millis_apart(captured_at: Seq<i64>, index: int, at: int) -> int {
    let d = captured_at[index] - at;
    (if d < 0 { -d } else { d }) / 1_000_000
}

/// The sample nearest in time to `at` (counted in whole milliseconds), the
/// later of equally near samples; none without samples.
pub fn sample_index_nearest_time(captured_at: &Vec<i64>, at: i64) -> (r: Option<usize>)
    ensures
        captured_at@.len() == 0 ==> r is None,
        captured_at@.len() > 0 ==> (r matches Some(i) && i < captured_at@.len() && forall|j: int|
            0 <= j < captured_at@.len() ==> millis_apart(captured_at@, i as int, at as int) < millis_apart(
                captured_at@,
                j,
                at as int,
            ) || (millis_apart(captured_at@, i as int, at as int) == millis_apart(captured_at@, j, at as int)
                && i >= j)),
{
    let n = captured_at.len();
    if n == 0 {
        return None;
    }
    let mut best: usize = 0;
    let mut best_distance: i128 = 0;
    let mut i: usize = 0;
    while i < n
        invariant
            n == captured_at@.len() > 0,
            i <= n,
            best < n,
            i > 0 ==> best_distance == millis_apart(captured_at@, best as int, at as int),
            i > 0 ==> best < i,
            forall|j: int|
                0 <= j < i ==> millis_apart(captured_at@, best as int, at as int) < millis_apart(captured_at@, j, at as int)
                    || (millis_apart(captured_at@, best as int, at as int) == millis_apart(captured_at@, j, at as int)
                    && best >= j),
        decreases n - i,
    {
        let d0 = captured_at[i] as i128 - at as i128;
        let d = (if d0 < 0 { -d0 } else { d0 }) / 1_000_000;
        if i == 0 || d <= best_distance {
            best = i;
            best_distance = d;
        }
        i = i + 1;
    }
    Some(best)
}

/// The times of the two compared points of a graph, where they are set
/// (nanoseconds since the epoch).
#[derive(Clone, Copy, Debug, PartialEq, Eq, Structural)]
pub struct AbComparison {
    pub a: Option<i64>,
    pub b: Option<i64>,
}

/// The mark of a sample in the list: `A`, `B` or `AB` when it is a compared
/// point, nothing otherwise.
pub fn sample_ab_marker(comparison: Option<AbComparison>, captured_at: i64) -> (r: &'static str)
    ensures
        r@ == match comparison {
            None => ""@,
            Some(c) => {
                let is_a = c.a == Some(captured_at);
                let is_b = c.b == Some(captured_at);
                if is_a && is_b {
                    "AB"@
                } else if is_a {
                    "A"@
                } else if is_b {
                    "B"@
                } else {
                    ""@
                }
            },
        },
{
    let c = match comparison {
        Some(c) => c,
        None => return "",
    };
    let is_a = match c.a {
        Some(t) => t == captured_at,
        None => false,
    };
    let is_b = match c.b {
        Some(t) => t == captured_at,
        None => false,
    };
    if is_a && is_b {
        "AB"
    } else if is_a {
        "A"
    } else if is_b {
        "B"
    } else {
        ""
    }
}

/// The look of a graph's line: the series colour for the active graph, the
/// line colour otherwise.
pub fn graph_series_style(theme: &Theme, active: bool) -> (r: TextStyle)
    ensures
        r == (TextStyle { fg: Some(if active { theme.active_series } else { theme.graph_line }), bg: None, bold: false, underlined: false }),
{
    TextStyle::fg(if active { theme.active_series } else { theme.graph_line })
}

/// The look of a change between samples: muted when either value is missing
/// or the row is not selected, body text on the selected row.
pub fn delta_style(has_value: bool, has_previous: bool, selected: bool, theme: &Theme) -> (r: TextStyle)
    ensures
        r == (TextStyle {
            fg: Some(if has_value && has_previous && selected { theme.text } else { theme.muted }),
            bg: None,
            bold: false,
            underlined: false,
        }),
{
    if !has_value || !has_previous {
        return TextStyle::fg(theme.muted);
    }
    if selected {
        TextStyle::fg(theme.text)
    } else {
        TextStyle::fg(theme.muted)
    }
}

/// The look of a graph button: the border colour when it cannot be used,
/// raised while hovered, muted otherwise.
pub fn graph_button_style(theme: &Theme, hovered: bool, enabled: bool) -> (r: TextStyle)
    ensures
        r == if !enabled {
            TextStyle { fg: Some(theme.border), bg: Some(theme.panel), bold: false, underlined: false }
        } else if hovered {
            TextStyle { fg: Some(theme.text), bg: Some(theme.focus_surface), bold: true, underlined: false }
        } else {
            TextStyle { fg: Some(theme.muted), bg: Some(theme.panel), bold: false, underlined: false }
        },
{
    if !enabled {
        TextStyle { fg: Some(theme.border), bg: Some(theme.panel), bold: false, underlined: false }
    } else if hovered {
        TextStyle { fg: Some(theme.text), bg: Some(theme.focus_surface), bold: true, underlined: false }
    } else {
        TextStyle { fg: Some(theme.muted), bg: Some(theme.panel), bold: false, underlined: false }
    }
}

/// The title of the samples list: the bold title word, the slot (counted
/// from one) in the series colour and bold, and the process's name when the
/// whole title fits inside the area's border.
pub open spec fn samples_title_spec(ordinal: usize, process_name: Option<Seq<char>>, area_width: u16, theme: Theme) -> Seq<(Seq<char>, TextStyle)> {
    let slot = "Slot#"@ + decimal((ordinal + 1) as nat);
    let head = seq![
        ("SAMPLES"@, TextStyle { fg: None, bg: None, bold: true, underlined: false }),
        (" · "@, TextStyle { fg: Some(theme.muted), bg: None, bold: false, underlined: false }),
        (slot, TextStyle { fg: Some(theme.active_series), bg: None, bold: true, underlined: false }),
    ];
    match process_name {
        Some(name) => if line_width("SAMPLES · "@ + slot + " · "@ + name) <= sub0(area_width as int, 2) {
            head + seq![
                (" · "@, TextStyle { fg: Some(theme.muted), bg: None, bold: false, underlined: false }),
                (name, TextStyle { fg: Some(theme.text), bg: None, bold: false, underlined: false }),
            ]
        } else {
            head
        },
        None => head,
    }
}

/// The title of the samples list; see `samples_title_spec`.
pub fn samples_inspector_title(ordinal: usize, process_name: Option<&str>, area_width: u16, theme: &Theme) -> (r: Vec<StyledText>)
    requires
        ordinal < usize::MAX,
    ensures
        styled_seq(r@) == samples_title_spec(
            ordinal,
            match process_name {
                Some(n) => Some(n@),
                None => None,
            },
            area_width,
            *theme,
        ),
{
    let mut slot = String::from_str("Slot#");
    let number = decimal_string((ordinal + 1) as u128);
    slot.append(number.as_str());
    let ghost slot_text = slot@;
    let mut spans = vec![
        StyledText { text: String::from_str("SAMPLES"), style: TextStyle { fg: None, bg: None, bold: true, underlined: false } },
        StyledText { text: String::from_str(" · "), style: TextStyle::fg(theme.muted) },
        StyledText {
            text: String::from_str(slot.as_str()),
            style: TextStyle { fg: Some(theme.active_series), bg: None, bold: true, underlined: false },
        },
    ];
    if let Some(name) = process_name {
        let mut full = String::from_str("SAMPLES · ");
        full.append(slot.as_str());
        full.append(" · ");
        full.append(name);
        let available = area_width.saturating_sub(2) as usize;
        if str_line_width(full.as_str()) <= available {
            spans.push(StyledText { text: String::from_str(" · "), style: TextStyle::fg(theme.muted) });
            spans.push(StyledText { text: String::from_str(name), style: TextStyle::fg(theme.text) });
        }
    }
    assert(styled_seq(spans@) =~= samples_title_spec(
        ordinal,
        match process_name {
            Some(n) => Some(n@),
            None => None,
        },
        area_width,
        *theme,
    ));
    spans
}

/// The whole number of `value` held to a `usize`.
pub open spec fn to_usize_sat(value: int) -> int {
    min_int(value, usize::MAX as int)
}

/// Whether the arithmetic of `age_point_spec` fits in a `usize`.
pub open spec fn age_point_fits(area: Rect, y_label_width: int, bounds: (i64, i64), age: int) -> bool {
    let start = axis_x_offset_spec(area.width as int, y_label_width);
    let plot_width = area.width - start;
    let span = to_usize_sat(max_int(bounds.1 - bounds.0, 1));
    let relative = to_usize_sat(max_int(-age - bounds.0, 0));
    sub0(plot_width, 1) * relative + span / 2 <= usize::MAX
}

/// The column of a point `age` seconds before the latest sample on a graph
/// over `bounds`: none on an empty area or outside the bounds; otherwise its
/// place in the plot, spread over the plot's width and rounded to the
/// nearest column, held inside the area.
pub open spec fn age_point_spec(area: Rect, y_label_width: int, bounds: (i64, i64), age: int) -> Option<u16> {
    let x_value = -age;
    if area.width == 0 || x_value < bounds.0 || x_value > bounds.1 {
        None
    } else {
        let start = axis_x_offset_spec(area.width as int, y_label_width);
        let plot_width = area.width - start;
        let span = to_usize_sat(max_int(bounds.1 - bounds.0, 1));
        let relative = to_usize_sat(max_int(x_value - bounds.0, 0));
        let offset = (sub0(plot_width, 1) * relative + span / 2) / span;
        Some((area.x + min_int(start + offset, area.width - 1)) as u16)
    }
}

/// The column of a point `age` seconds before the latest sample; see
/// `age_point_spec`.
pub fn age_point_x(area: Rect, y_label_width: usize, bounds: (i64, i64), age: i64) -> (r: Option<u16>)
    requires
        age > i64::MIN,
        i64::MIN <= bounds.1 - bounds.0 <= i64::MAX,
        -age - bounds.0 <= i64::MAX,
        area.x + area.width <= u16::MAX,
        age_point_fits(area, y_label_width as int, bounds, age as int),
    ensures
        r == age_point_spec(area, y_label_width as int, bounds, age as int),
{
    if area.width == 0 {
        return None;
    }
    let x_value = -age;
    if x_value < bounds.0 || x_value > bounds.1 {
        return None;
    }
    let start = graph_axis_x_offset(area.width as usize, y_label_width);
    let plot_width = area.width as usize - start;
    if plot_width == 0 {
        return None;
    }
    let d = bounds.1 - bounds.0;
    let span_i = if d >= 1 { d } else { 1 };
    let span: usize = if span_i as u64 > usize::MAX as u64 { usize::MAX } else { span_i as usize };
    let rel_i = x_value - bounds.0;
    let rel_i = if rel_i >= 0 { rel_i } else { 0 };
    let relative: usize = if rel_i as u64 > usize::MAX as u64 { usize::MAX } else { rel_i as usize };
    let offset = ((plot_width - 1) * relative + span / 2) / span;
    let reach = start.saturating_add(offset);
    let column = if reach < area.width as usize - 1 { reach } else { area.width as usize - 1 };
    Some(area.x + column as u16)
}

/// The column of a compared point on a graph whose latest sample was taken at
/// `latest`; times are nanoseconds since the epoch.
pub fn ab_point_x(area: Rect, y_label_width: usize, bounds: (i64, i64), latest: i64, point: i64) -> (r: Option<u16>)
    requires
        i64::MIN <= bounds.1 - bounds.0 <= i64::MAX,
        -age_in_seconds(latest as int, point as int) - bounds.0 <= i64::MAX,
        area.x + area.width <= u16::MAX,
        age_point_fits(area, y_label_width as int, bounds, age_in_seconds(latest as int, point as int)),
    ensures
        r == age_point_spec(area, y_label_width as int, bounds, age_in_seconds(latest as int, point as int)),
{
    let age = sample_age_seconds_at_time(Some(latest), point).unwrap();
    age_point_x(area, y_label_width, bounds, age)
}

/// A row of label slots as values: each slot's text and colour where one is
/// written.
pub open spec fn slots_view(slots: Seq<Option<(String, Color)>>) -> Seq<Option<(Seq<char>, Color)>> {
    Seq::new(
        slots.len(),
        |i: int| match slots[i] {
            Some((t, c)) => Some((t@, c)),
            None => None,
        },
    )
}

/// Where a label of `width` characters centred on `center` starts in a row of
/// `n` slots: right-aligned when it would reach the end, otherwise centred.
pub open spec fn label_slots_start(n: int, width: int, center: int) -> int {
    if center + width >= n { sub0(n, width) } else { sub0(center, width / 2) }
}

/// A row of label slots with `label` written in, one character per slot from
/// `label_slots_start`, dropping what falls past the end.
pub open spec fn write_label_slots_spec(slots: Seq<Option<(Seq<char>, Color)>>, label: Seq<char>, center: int, color: Color) -> Seq<Option<(Seq<char>, Color)>> {
    let start = label_slots_start(slots.len() as int, label.len() as int, center);
    Seq::new(
        slots.len(),
        |i: int| if start <= i < start + label.len() { Some((seq![label[i - start]], color)) } else { slots[i] },
    )
}

/// Writes `label` into a row of label slots; see `write_label_slots_spec`.
pub fn write_label_slots(labels: &mut Vec<Option<(String, Color)>>, label: &str, center: usize, color: Color)
    requires
        center + label@.len() <= usize::MAX,
    ensures
        slots_view(final(labels)@) == if old(labels)@.len() == 0 {
            slots_view(old(labels)@)
        } else {
            write_label_slots_spec(slots_view(old(labels)@), label@, center as int, color)
        },
{
    let n = labels.len();
    if n == 0 {
        return;
    }
    let chars = chars_of(label);
    let width = chars.len();
    let start = if center + width >= n { n.saturating_sub(width) } else { center.saturating_sub(width / 2) };
    let ghost before = slots_view(labels@);
    let mut k: usize = 0;
    while k < width
        invariant
            k <= width == label@.len(),
            chars@ == label@,
            labels@.len() == n,
            start == label_slots_start(n as int, width as int, center as int),
            slots_view(labels@) == Seq::new(
                n as nat,
                |i: int| if start <= i < start + k { Some((seq![label@[i - start]], color)) } else { before[i] },
            ),
        decreases width - k,
    {
        let ghost was = labels@;
        if start + k < n {
            let mut one: Vec<char> = Vec::new();
            one.push(chars[k]);
            let text = string_from_chars(&one);
            assert(text@ =~= seq![label@[k as int]]);
            labels.set(start + k, Some((text, color)));
            assert(slots_view(labels@) =~= slots_view(was).update((start + k) as int, Some((seq![label@[k as int]], color))));
        } else {
            assert(slots_view(labels@) =~= slots_view(was));
        }
        k = k + 1;
        assert(slots_view(labels@) =~= Seq::new(
            n as nat,
            |i: int| if start <= i < start + k { Some((seq![label@[i - start]], color)) } else { before[i] },
        ));
    }
    assert(slots_view(labels@) =~= write_label_slots_spec(before, label@, center as int, color));
}

/// A row of chars with `label` written around column `tick`; see
/// `write_axis_label`.
pub open spec fn write_label_spec(chars: Seq<char>, label: Seq<char>, tick: int) -> Seq<char> {
    let start = label_start(chars.len() as int, label.len() as int, tick);
    Seq::new(chars.len(), |i: int| if start <= i < start + label.len() { label[i - start] } else { chars[i] })
}

/// The time axis row after the first `k` labels are written at their ticks.
pub open spec fn axis_chars_spec(width: int, y_label_width: int, labels: Seq<Seq<char>>, k: int) -> Seq<char>
    decreases k,
{
    if k <= 0 {
        repeated(' ', width)
    } else {
        write_label_spec(axis_chars_spec(width, y_label_width, labels, k - 1), labels[k - 1], tick_position(width, y_label_width, k - 1))
    }
}

/// Labels as texts.
pub open spec fn texts_of(labels: Seq<String>) -> Seq<Seq<char>> {
    Seq::new(labels.len(), |i: int| labels[i]@)
}

/// The time axis under a graph: `width` columns, muted, with each of the
/// labels (at most five, one per tick) written around its tick.
pub fn axis_tick_label_line(width: usize, y_label_width: usize, tick_labels: &Vec<String>, theme: &Theme) -> (r: StyledText)
    requires
        (max_int(width - axis_x_offset_spec(width as int, y_label_width as int), 1) - 1) * 4 + 2 <= usize::MAX,
        forall|i: int| 0 <= i < tick_labels@.len() ==> width + (#[trigger] tick_labels@[i])@.len() <= usize::MAX,
    ensures
        r.style == (TextStyle { fg: Some(theme.muted), bg: None, bold: false, underlined: false }),
        r.text@ == axis_chars_spec(
            width as int,
            y_label_width as int,
            texts_of(tick_labels@),
            if width == 0 { 0 } else { min_int(tick_labels@.len() as int, 5) },
        ),
{
    let mut chars = repeat_char(' ', width);
    let positions = axis_tick_positions(width, y_label_width);
    let count = if tick_labels.len() < positions.len() { tick_labels.len() } else { positions.len() };
    let ghost labels = texts_of(tick_labels@);
    let mut k: usize = 0;
    while k < count
        invariant
            k <= count,
            count == if width == 0 { 0 } else { min_int(tick_labels@.len() as int, 5) },
            width > 0 ==> positions@.len() == 5 && forall|i: int| 0 <= i < 5 ==> #[trigger] positions@[i] == tick_position(
                width as int,
                y_label_width as int,
                i,
            ),
            labels == texts_of(tick_labels@),
            forall|i: int| 0 <= i < tick_labels@.len() ==> width + (#[trigger] tick_labels@[i])@.len() <= usize::MAX,
            chars@ == axis_chars_spec(width as int, y_label_width as int, labels, k as int),
            chars@.len() == width,
        decreases count - k,
    {
        proof {
            assert(positions@[k as int] <= width) by {
                assert(tick_position(width as int, y_label_width as int, k as int) <= width - 1) by {
                    axis_ticks_are_even(width as int, y_label_width as int, 0, 0);
                    lemma_tick_at_most_last(width as int, y_label_width as int, k as int);
                }
            }
            assert(width + tick_labels@[k as int]@.len() <= usize::MAX);
        }
        let ghost before = chars@;
        write_axis_label(&mut chars, tick_labels[k].as_str(), positions[k]);
        k = k + 1;
        assert(chars@ =~= write_label_spec(before, labels[k - 1], tick_position(width as int, y_label_width as int, k - 1)));
    }
    StyledText { text: string_from_chars(&chars), style: TextStyle::fg(theme.muted) }
}

/// No tick lies past the last column.
pub proof fn lemma_tick_at_most_last(width: int, y_label_width: int, k: int)
    requires
        width >= 1,
        y_label_width >= 0,
        0 <= k <= 4,
    ensures
        tick_position(width, y_label_width, k) <= width - 1,
{
    let start = axis_x_offset_spec(width, y_label_width);
    let p = max_int(width - start, 1) - 1;
    assert((p * k + 2) / 4 <= p) by (nonlinear_arith)
        requires p >= 0, 0 <= k <= 4;
}

/// The value label over a graph: the selected sample's value written around
/// its column (see `age_point_spec`) in the accent colour, blanks elsewhere,
/// all on the panel colour; blank when nothing is selected.
pub open spec fn top_label_slots(width: int, y_label_width: int, bounds: (i64, i64), age: Option<i64>, label: Option<Seq<char>>, theme: Theme) -> Seq<Option<(Seq<char>, Color)>> {
    let empty = Seq::new(width as nat, |i: int| None::<(Seq<char>, Color)>);
    match (age, label) {
        (Some(a), Some(l)) => match age_point_spec(Rect::placed(0, 0, (width as u16) as int, 1), y_label_width, bounds, a as int) {
            Some(x) => if width == 0 { empty } else { write_label_slots_spec(empty, l, x as int, theme.accent) },
            None => empty,
        },
        _ => empty,
    }
}

/// A row of label slots shown as pieces: each written slot in its colour,
/// each empty slot as a space, all on the panel colour.
pub open spec fn slots_spans(slots: Seq<Option<(Seq<char>, Color)>>, theme: Theme) -> Seq<(Seq<char>, TextStyle)> {
    Seq::new(
        slots.len(),
        |i: int| match slots[i] {
            Some((t, c)) => (t, TextStyle { fg: Some(c), bg: Some(theme.panel), bold: false, underlined: false }),
            None => (" "@, TextStyle { fg: None, bg: Some(theme.panel), bold: false, underlined: false }),
        },
    )
}

/// The value label over a graph; see `top_label_slots`.
pub fn graph_top_label_line(
    width: usize,
    y_label_width: usize,
    bounds: (i64, i64),
    selected_age_seconds: Option<i64>,
    selected_value_label: Option<&str>,
    theme: &Theme,
) -> (r: Vec<StyledText>)
    requires
        i64::MIN <= bounds.1 - bounds.0 <= i64::MAX,
        selected_age_seconds matches Some(a) ==> a > i64::MIN && -a - bounds.0 <= i64::MAX && age_point_fits(
            Rect::placed(0, 0, (width as u16) as int, 1),
            y_label_width as int,
            bounds,
            a as int,
        ),
        selected_value_label matches Some(l) ==> width + l@.len() <= usize::MAX,
    ensures
        styled_seq(r@) == slots_spans(
            top_label_slots(
                width as int,
                y_label_width as int,
                bounds,
                selected_age_seconds,
                match selected_value_label {
                    Some(l) => Some(l@),
                    None => None,
                },
                *theme,
            ),
            *theme,
        ),
{
    let area = Rect::new(0, 0, width as u16, 1);
    let mut labels: Vec<Option<(String, Color)>> = Vec::new();
    let mut i: usize = 0;
    while i < width
        invariant
            i <= width,
            labels@.len() == i,
            forall|k: int| 0 <= k < i ==> (#[trigger] labels@[k]) is None,
        decreases width - i,
    {
        labels.push(None);
        i = i + 1;
    }
    assert(slots_view(labels@) =~= Seq::new(width as nat, |k: int| None::<(Seq<char>, Color)>)) by {
        assert forall|k: int| 0 <= k < width implies #[trigger] slots_view(labels@)[k] == None::<(Seq<char>, Color)> by {
            assert(labels@[k] is None);
        }
    }
    if let (Some(age), Some(label)) = (selected_age_seconds, selected_value_label) {
        if let Some(x) = age_point_x(area, y_label_width, bounds, age) {
            proof {
                assert(x <= 65535);
            }
            write_label_slots(&mut labels, label, x as usize, theme.accent);
        }
    }
    let ghost slots = slots_view(labels@);
    assert(slots == top_label_slots(
        width as int,
        y_label_width as int,
        bounds,
        selected_age_seconds,
        match selected_value_label {
            Some(l) => Some(l@),
            None => None,
        },
        *theme,
    ));
    let mut out: Vec<StyledText> = Vec::new();
    let mut k: usize = 0;
    while k < labels.len()
        invariant
            k <= labels@.len(),
            slots == slots_view(labels@),
            styled_seq(out@) == slots_spans(slots, *theme).take(k as int),
        decreases labels@.len() - k,
    {
        let piece = match &labels[k] {
            Some((t, c)) => StyledText {
                text: String::from_str(t.as_str()),
                style: TextStyle { fg: Some(*c), bg: Some(theme.panel), bold: false, underlined: false },
            },
            None => StyledText {
                text: String::from_str(" "),
                style: TextStyle { fg: None, bg: Some(theme.panel), bold: false, underlined: false },
            },
        };
        assert(styled_view(piece) == slots_spans(slots, *theme)[k as int]);
        let ghost before = styled_seq(out@);
        out.push(piece);
        k = k + 1;
        assert(styled_seq(out@) =~= before.push(slots_spans(slots, *theme)[k - 1]));
        assert(slots_spans(slots, *theme).take(k as int) =~= slots_spans(slots, *theme).take(k - 1).push(slots_spans(slots, *theme)[k - 1]));
    }
    assert(slots_spans(slots, *theme).take(labels@.len() as int) =~= slots_spans(slots, *theme));
    out
}

/// The time labels of a graph start at its left bound, end one span (at
/// least a second) later, which is the right bound when the bounds are
/// apart, and never go back.
pub proof fn ticks_cover_the_bounds(bounds: (i64, i64), i: int)
    requires
        0 <= i < 4,
    ensures
        tick_offsets_spec(bounds)[0] == bounds.0,
        tick_offsets_spec(bounds)[4] == bounds.0 + max_int(bounds.1 - bounds.0, 1),
        bounds.1 > bounds.0 ==> tick_offsets_spec(bounds)[4] == bounds.1,
        tick_offsets_spec(bounds)[i] <= tick_offsets_spec(bounds)[i + 1],
{
    let span = max_int(bounds.1 - bounds.0, 1);
    assert((span * 0 + 2) / 4 == 0) by (nonlinear_arith)
        requires span >= 1;
    assert((span * 4 + 2) / 4 == span) by (nonlinear_arith)
        requires span >= 1;
    assert((span * i + 2) / 4 <= (span * (i + 1) + 2) / 4) by (nonlinear_arith)
        requires span >= 1, 0 <= i < 4;
}

/// A point placed on a graph lies inside the graph's area.
pub proof fn points_stay_in_the_plot(area: Rect, y_label_width: int, bounds: (i64, i64), age: int)
    requires
        area.x + area.width <= u16::MAX,
        y_label_width >= 0,
    ensures
        age_point_spec(area, y_label_width, bounds, age) matches Some(x) ==> area.x <= x < area.x + area.width,
{
    if age_point_spec(area, y_label_width, bounds, age) is Some {
        let start = axis_x_offset_spec(area.width as int, y_label_width);
        let plot_width = area.width - start;
        let span = to_usize_sat(max_int(bounds.1 - bounds.0, 1));
        let relative = to_usize_sat(max_int(-age - bounds.0, 0));
        assert(span >= 1);
        assert(relative >= 0);
        assert(sub0(plot_width, 1) >= 0);
        assert((sub0(plot_width, 1) * relative + span / 2) / span >= 0) by (nonlinear_arith)
            requires sub0(plot_width, 1) >= 0, relative >= 0, span >= 1;
    }
}

/// Text with no style of its own.
pub open spec fn raw_text(text: Seq<char>) -> (Seq<char>, TextStyle) {
    (text, TextStyle { fg: None, bg: None, bold: false, underlined: false })
}

/// The look of the graph workspace title: the focus colour and bold while the
/// workspace has the focus, the border colour otherwise.
pub open spec fn workspace_title_style(theme: Theme, focused: bool) -> TextStyle {
    TextStyle { fg: Some(if focused { theme.focus_border } else { theme.border }), bg: None, bold: focused, underlined: false }
}

/// The look of a graph button; see `graph_button_style`.
pub open spec fn button_style_spec(theme: Theme, hovered: bool, enabled: bool) -> TextStyle {
    if !enabled {
        TextStyle { fg: Some(theme.border), bg: Some(theme.panel), bold: false, underlined: false }
    } else if hovered {
        TextStyle { fg: Some(theme.text), bg: Some(theme.focus_surface), bold: true, underlined: false }
    } else {
        TextStyle { fg: Some(theme.muted), bg: Some(theme.panel), bold: false, underlined: false }
    }
}

/// The graph workspace title: its label (see `workspace_title_spec`), then,
/// when both zoom buttons have a place, the zoom-out and zoom-in buttons each
/// styled by whether it is hovered and whether the span can change that way.
pub open spec fn graph_workspace_title_spec(
    count: nat,
    span_seconds: nat,
    theme: Theme,
    focused: bool,
    controls: GraphSpanControlAreas,
    zoom_out_hovered: bool,
    zoom_in_hovered: bool,
    can_zoom_out: bool,
    can_zoom_in: bool,
) -> Seq<(Seq<char>, TextStyle)> {
    let head = seq![(workspace_title_spec(count, span_seconds), workspace_title_style(theme, focused))];
    if controls.zoom_out is Some && controls.zoom_in is Some {
        head + seq![
            raw_text("  "@),
            ("[-]"@, button_style_spec(theme, zoom_out_hovered, can_zoom_out)),
            raw_text(" "@),
            ("[+]"@, button_style_spec(theme, zoom_in_hovered, can_zoom_in)),
        ]
    } else {
        head
    }
}

/// The graph workspace title; see `graph_workspace_title_spec`.
pub fn graph_workspace_title(
    count: usize,
    span_seconds: u32,
    theme: &Theme,
    focused: bool,
    controls: GraphSpanControlAreas,
    zoom_out_hovered: bool,
    zoom_in_hovered: bool,
    can_zoom_out: bool,
    can_zoom_in: bool,
) -> (r: Vec<StyledText>)
    ensures
        styled_seq(r@) == graph_workspace_title_spec(
            count as nat,
            span_seconds as nat,
            *theme,
            focused,
            controls,
            zoom_out_hovered,
            zoom_in_hovered,
            can_zoom_out,
            can_zoom_in,
        ),
{
    let style = TextStyle {
        fg: Some(if focused { theme.focus_border } else { theme.border }),
        bg: None,
        bold: focused,
        underlined: false,
    };
    let mut out = vec![StyledText { text: graph_workspace_title_label(count, span_seconds), style }];
    if controls.zoom_out.is_some() && controls.zoom_in.is_some() {
        out.push(StyledText { text: String::from_str("  "), style: TextStyle::plain() });
        out.push(StyledText { text: String::from_str("[-]"), style: graph_button_style(theme, zoom_out_hovered, can_zoom_out) });
        out.push(StyledText { text: String::from_str(" "), style: TextStyle::plain() });
        out.push(StyledText { text: String::from_str("[+]"), style: graph_button_style(theme, zoom_in_hovered, can_zoom_in) });
    }
    assert(styled_seq(out@) =~= graph_workspace_title_spec(
        count as nat,
        span_seconds as nat,
        *theme,
        focused,
        controls,
        zoom_out_hovered,
        zoom_in_hovered,
        can_zoom_out,
        can_zoom_in,
    ));
    out
}

/// A checkbox of the graph controls: the mark (ticked in the accent colour,
/// empty in the muted one), two spaces, the key in the hint colour, a muted
/// colon and the label after a space, all on the panel colour.
pub open spec fn graph_toggle_spec(checked: bool, key: Seq<char>, label: Seq<char>, theme: Theme) -> Seq<(Seq<char>, TextStyle)> {
    let on_panel = |fg: Color| TextStyle { fg: Some(fg), bg: Some(theme.panel), bold: false, underlined: false };
    seq![
        (if checked { "☑"@ } else { "☐"@ }, on_panel(if checked { theme.accent } else { theme.muted })),
        raw_text("  "@),
        (key, on_panel(theme.key_hint)),
        (":"@, on_panel(theme.muted)),
        (" "@ + label, on_panel(theme.text)),
    ]
}

/// A checkbox of the graph controls; see `graph_toggle_spec`.
pub fn graph_toggle_spans(checked: bool, key: &str, label: &str, theme: &Theme) -> (r: Vec<StyledText>)
    ensures
        styled_seq(r@) == graph_toggle_spec(checked, key@, label@, *theme),
{
    let mark_color = if checked { theme.accent } else { theme.muted };
    let mut text = String::from_str(" ");
    text.append(label);
    let out = vec![
        StyledText {
            text: String::from_str(if checked { "☑" } else { "☐" }),
            style: TextStyle { fg: Some(mark_color), bg: Some(theme.panel), bold: false, underlined: false },
        },
        StyledText { text: String::from_str("  "), style: TextStyle::plain() },
        StyledText {
            text: String::from_str(key),
            style: TextStyle { fg: Some(theme.key_hint), bg: Some(theme.panel), bold: false, underlined: false },
        },
        StyledText {
            text: String::from_str(":"),
            style: TextStyle { fg: Some(theme.muted), bg: Some(theme.panel), bold: false, underlined: false },
        },
        StyledText { text, style: TextStyle { fg: Some(theme.text), bg: Some(theme.panel), bold: false, underlined: false } },
    ];
    assert(styled_seq(out@) =~= graph_toggle_spec(checked, key@, label@, *theme));
    out
}

/// The layout switch of the graph controls: two spaces, the key `l` in the
/// hint colour, a muted colon and the current layout's name after a space,
/// on the panel colour.
pub open spec fn graph_layout_mode_spec(mode: Seq<char>, theme: Theme) -> Seq<(Seq<char>, TextStyle)> {
    let on_panel = |fg: Color| TextStyle { fg: Some(fg), bg: Some(theme.panel), bold: false, underlined: false };
    seq![raw_text("  "@), ("l"@, on_panel(theme.key_hint)), (":"@, on_panel(theme.muted)), (" "@ + mode, on_panel(theme.text))]
}

/// The layout switch of the graph controls; see `graph_layout_mode_spec`.
pub fn graph_layout_mode_spans(mode: &str, theme: &Theme) -> (r: Vec<StyledText>)
    ensures
        styled_seq(r@) == graph_layout_mode_spec(mode@, *theme),
{
    let mut text = String::from_str(" ");
    text.append(mode);
    let out = vec![
        StyledText { text: String::from_str("  "), style: TextStyle::plain() },
        StyledText {
            text: String::from_str("l"),
            style: TextStyle { fg: Some(theme.key_hint), bg: Some(theme.panel), bold: false, underlined: false },
        },
        StyledText {
            text: String::from_str(":"),
            style: TextStyle { fg: Some(theme.muted), bg: Some(theme.panel), bold: false, underlined: false },
        },
        StyledText { text, style: TextStyle { fg: Some(theme.text), bg: Some(theme.panel), bold: false, underlined: false } },
    ];
    assert(styled_seq(out@) =~= graph_layout_mode_spec(mode@, *theme));
    out
}

/// The title of a graph card: the slot (counted from one) in the active
/// series colour and bold while active, the metric and the target (when there
/// is one) after muted separators, then the B-A label and `delta_text`, the
/// difference between the A and B samples as the card formats it. Inactive
/// cards are all muted.
pub open spec fn graph_slot_title_spec(
    ordinal: usize,
    metric_label: Seq<char>,
    target_label: Option<Seq<char>>,
    delta_text: Seq<char>,
    active: bool,
    theme: Theme,
) -> Seq<(Seq<char>, TextStyle)> {
    let muted = TextStyle { fg: Some(theme.muted), bg: None, bold: false, underlined: false };
    let main = if active { TextStyle { fg: Some(theme.text), bg: None, bold: false, underlined: false } } else { muted };
    let slot = if active { TextStyle { fg: Some(theme.active_series), bg: None, bold: true, underlined: false } } else { muted };
    let comparison = if active { TextStyle { fg: Some(theme.accent), bg: None, bold: false, underlined: false } } else { muted };
    seq![("Slot#"@ + decimal((ordinal + 1) as nat), slot), (" · "@, muted), (metric_label, main)] + match target_label {
        Some(t) => seq![(" · "@, muted), (t, main)],
        None => Seq::empty(),
    } + seq![(" · B-A: "@, comparison), (delta_text, main)]
}

/// The title of a graph card; see `graph_slot_title_spec`.
pub fn graph_slot_title_line(
    ordinal: usize,
    metric_label: &str,
    target_label: Option<&str>,
    delta_text: String,
    active: bool,
    theme: &Theme,
) -> (r: Vec<StyledText>)
    requires
        ordinal < usize::MAX,
    ensures
        styled_seq(r@) == graph_slot_title_spec(
            ordinal,
            metric_label@,
            match target_label {
                Some(t) => Some(t@),
                None => None,
            },
            delta_text@,
            active,
            *theme,
        ),
{
    let muted = TextStyle::fg(theme.muted);
    let main = if active { TextStyle::fg(theme.text) } else { TextStyle::fg(theme.muted) };
    let slot_style = if active {
        TextStyle { fg: Some(theme.active_series), bg: None, bold: true, underlined: false }
    } else {
        TextStyle::fg(theme.muted)
    };
    let comparison = if active { TextStyle::fg(theme.accent) } else { TextStyle::fg(theme.muted) };
    let mut slot = String::from_str("Slot#");
    let number = decimal_string((ordinal + 1) as u128);
    slot.append(number.as_str());
    let mut out = vec![
        StyledText { text: slot, style: slot_style },
        StyledText { text: String::from_str(" · "), style: muted },
        StyledText { text: String::from_str(metric_label), style: main },
    ];
    match target_label {
        Some(t) => {
            out.push(StyledText { text: String::from_str(" · "), style: muted });
            out.push(StyledText { text: String::from_str(t), style: main });
        },
        None => {},
    }
    out.push(StyledText { text: String::from_str(" · B-A: "), style: comparison });
    out.push(StyledText { text: delta_text, style: main });
    assert(styled_seq(out@) =~= graph_slot_title_spec(
        ordinal,
        metric_label@,
        match target_label {
            Some(t) => Some(t@),
            None => None,
        },
        delta_text@,
        active,
        *theme,
    ));
    out
}

/// The blank rows of the samples list before its summary: first enough to
/// bring the sample rows, the spacer and the summary to the content height,
/// then as many of the spacer's rows as still fit above the summary.
pub open spec fn samples_padding_spec(rows: int, spacer: int, summary: int, content_height: int) -> (int, int) {
    let fill = if rows + spacer + summary < content_height { content_height - spacer - summary - rows } else { 0 };
    (fill, min_int(spacer, sub0(content_height, rows + fill + summary)))
}

/// The blank rows of the samples list; see `samples_padding_spec`.
pub fn samples_padding_rows(rows: usize, spacer: usize, summary: usize, content_height: usize) -> (r: (usize, usize))
    requires
        rows + spacer + summary <= usize::MAX,
    ensures
        r.0 as int == samples_padding_spec(rows as int, spacer as int, summary as int, content_height as int).0,
        r.1 as int == samples_padding_spec(rows as int, spacer as int, summary as int, content_height as int).1,
{
    let fill = if rows + spacer + summary < content_height { content_height - spacer - summary - rows } else { 0 };
    let used = rows + fill + summary;
    let room = if content_height > used { content_height - used } else { 0 };
    (fill, if spacer < room { spacer } else { room })
}

} // verus!

//! Cells and column widths of the network connections view.

use vstd::prelude::*;

use crate::ui::file_users::window_start;
use crate::ui::format::{decimal, decimal_string};
use crate::ui::process_info_dialog::{
    dialog_layout_spec, fit_shortcuts, fitted_shortcuts, process_info_content_area_for_screen, tabs_width, Shortcut,
};
use crate::ui::layout::{is_dialog_space, screen_body, screen_fits, screen_layout};
use crate::ui::rect::{add16, add_upto, max_int, min_int, sub0, Rect};
use crate::ui::text::{
    byte_len, char_count_before, char_width, chars_of, is_char_boundary_at, lemma_char_index_unique,
    push_range, push_repeated, spaces, span_width, str_width, string_from_chars,
};
use crate::ui::widgets::scrollable_modal::{ScrollableModal, ScrollableModalLayout, ScrollableModalPlacement};

verus! {

/// Whether `c` is a control character (Unicode general category `Cc`).
pub open spec fn is_control_char(c: char) -> bool {
    let v = c as u32;
    v <= 0x1f || (0x7f <= v <= 0x9f)
}

/// Whether `c` is a control character.
pub fn is_control(c: char) -> (r: bool)
    ensures
        r == is_control_char(c),
{
    let v = c as u32;
    v <= 0x1f || (0x7f <= v && v <= 0x9f)
}

/// A control character shown as a space, others as they are.
pub open spec fn shown_char(c: char) -> char {
    if is_control_char(c) { ' ' } else { c }
}

/// The kept text of a cell after reading `s`, and whether reading stopped:
/// characters are kept (control characters as spaces) while the kept text and
/// the next character fit in `limit` cells.
pub open spec fn fit_state(s: Seq<char>, limit: int) -> (Seq<char>, bool)
    decreases s.len(),
{
    if s.len() == 0 {
        (Seq::empty(), false)
    } else {
        let (kept, stopped) = fit_state(s.drop_last(), limit);
        if stopped {
            (kept, true)
        } else if span_width(kept) + span_width(seq![s.last()]) > limit {
            (kept, true)
        } else {
            (kept.push(shown_char(s.last())), false)
        }
    }
}

/// A cell of `width` cells: the text cut with a closing `…` when it does not
/// fit, then padded with spaces when `pad` is set.
pub open spec fn fit_spec(text: Seq<char>, width: int, pad: bool) -> Seq<char> {
    let truncated = span_width(text) > width;
    let limit = sub0(width, if truncated { 1 } else { 0 });
    let kept = fit_state(text, limit).0;
    let cut = if truncated && width > 0 { kept.push('…') } else { kept };
    if pad { cut + spaces(sub0(width, span_width(cut) as int)) } else { cut }
}

/// A cell of `width` cells; see `fit_spec`.
pub fn fit(text: &str, width: usize, pad: bool) -> (r: String)
    ensures
        r@ == fit_spec(text@, width as int, pad),
{
    let truncated = str_width(text) > width;
    let limit = width.saturating_sub(if truncated { 1 } else { 0 });
    let chars = chars_of(text);
    let mut output: Vec<char> = Vec::new();
    let mut i: usize = 0;
    let mut stopped = false;
    while i < chars.len()
        invariant
            i <= chars@.len(),
            chars@ == text@,
            (output@, stopped) == fit_state(text@.take(i as int), limit as int),
        decreases chars@.len() - i,
    {
        proof {
            assert(text@.take(i + 1).drop_last() =~= text@.take(i as int));
        }
        if !stopped {
            let current = string_from_chars(&output);
            let w0 = str_width(current.as_str());
            let w1 = char_width(chars[i]);
            if (w0 as u128) + (w1 as u128) > limit as u128 {
                stopped = true;
            } else {
                let c = chars[i];
                output.push(if is_control(c) { ' ' } else { c });
            }
        }
        i = i + 1;
    }
    assert(text@.take(chars@.len() as int) =~= text@);
    if truncated && width > 0 {
        output.push('…');
    }
    if pad {
        let current = string_from_chars(&output);
        let used = str_width(current.as_str());
        push_repeated(&mut output, ' ', width.saturating_sub(used));
    }
    string_from_chars(&output)
}

/// A table row: each value with a column width fitted and padded, columns of
/// width zero left out, one space between columns; then the row fitted to
/// `width` without padding.
pub open spec fn row_spec(values: Seq<Seq<char>>, columns: Seq<usize>, upto: int) -> Seq<char>
    decreases upto,
{
    if upto <= 0 {
        Seq::empty()
    } else {
        let line = row_spec(values, columns, upto - 1);
        let c = columns[upto - 1] as int;
        if c == 0 {
            line
        } else {
            (if line.len() > 0 { line.push(' ') } else { line }) + fit_spec(values[upto - 1], c, true)
        }
    }
}

/// A table row of six values fitted to their columns and to `width`.
pub fn table_line(values: &[&str; 6], columns: &[usize; 6], width: u16) -> (r: String)
    ensures
        r@ == fit_spec(row_spec(views_of(values@), columns@, 6), width as int, false),
{
    let ghost views = views_of(values@);
    let mut line: Vec<char> = Vec::new();
    let mut i: usize = 0;
    while i < 6
        invariant
            i <= 6,
            values@.len() == 6,
            columns@.len() == 6,
            views == views_of(values@),
            line@ == row_spec(views, columns@, i as int),
        decreases 6 - i,
    {
        let column_width = columns[i];
        if column_width != 0 {
            if line.len() > 0 {
                line.push(' ');
            }
            let cell = fit(values[i], column_width, true);
            let cell_chars = chars_of(cell.as_str());
            let ghost before = line@;
            crate::ui::text::push_range(&mut line, &cell_chars, 0, cell_chars.len());
            assert(cell_chars@.subrange(0, cell_chars@.len() as int) =~= cell_chars@);
        }
        i = i + 1;
    }
    let row = string_from_chars(&line);
    fit(row.as_str(), width as usize, false)
}

/// What the column sizing needs to know of a connection: characters of its
/// local and remote addresses and of its PID, cells of its process name.
#[derive(Clone, Copy, Debug, PartialEq, Eq, Structural)]
pub struct EndpointWidths {
    pub local: usize,
    pub remote: Option<usize>,
    pub pid: usize,
    pub name: usize,
}

/// The columns before shrinking: the minimum widths, widened to the widest
/// value of each column among `entries`.
pub open spec fn widened(entries: Seq<EndpointWidths>) -> Seq<int>
    decreases entries.len(),
{
    if entries.len() == 0 {
        seq![5, 18, 19, 12, 3, 7]
    } else {
        let c = widened(entries.drop_last());
        let e = entries.last();
        c.update(1, max_int(c[1], e.local as int)).update(
            2,
            match e.remote {
                Some(r) => max_int(c[2], r as int),
                None => c[2],
            },
        ).update(4, max_int(c[4], e.pid as int)).update(5, max_int(c[5], e.name as int))
    }
}

/// The widened columns have six entries, each at least its minimum.
pub proof fn lemma_widened(entries: Seq<EndpointWidths>)
    ensures
        widened(entries).len() == 6,
        widened(entries)[0] == 5,
        widened(entries)[1] >= 18,
        widened(entries)[2] >= 19,
        widened(entries)[3] == 12,
        widened(entries)[4] >= 3,
        widened(entries)[5] >= 7,
    decreases entries.len(),
{
    if entries.len() > 0 {
        lemma_widened(entries.drop_last());
    }
}

/// Sum of column widths.
pub open spec fn sum6(c: Seq<int>) -> int {
    c[0] + c[1] + c[2] + c[3] + c[4] + c[5]
}

/// Whether the column widths fit in a `usize`.
pub open spec fn columns_fit(entries: Seq<EndpointWidths>) -> bool {
    sum6(widened(entries)) + 5 <= usize::MAX
}

/// Shrinks the address columns one cell at a time, the wider first (local on a
/// tie), while cells are in excess and the chosen column is wider than ten.
pub open spec fn shrink(c: Seq<int>, excess: int) -> (Seq<int>, int)
    decreases excess,
{
    if excess <= 0 {
        (c, excess)
    } else {
        let index = if c[1] >= c[2] { 1int } else { 2int };
        if c[index] <= 10 {
            (c, excess)
        } else {
            shrink(c.update(index, c[index] - 1), excess - 1)
        }
    }
}

/// Column widths of the connections table `width` cells wide: the widened
/// columns, the remote column hidden below 109 cells, excess cells taken from
/// the process name (down to 16) and then from the address columns, and any
/// cells left over given to the process name.
pub open spec fn table_columns_spec(entries: Seq<EndpointWidths>, width: int) -> Seq<int> {
    let remote_visible = width >= 109;
    let c0 = widened(entries);
    let c1 = if remote_visible { c0 } else { c0.update(2, 0) };
    let separators = if remote_visible { 5int } else { 4int };
    let excess = sub0(sum6(c1) + separators, width);
    let name_reduction = min_int(excess, sub0(c1[5], 16));
    let c2 = c1.update(5, c1[5] - name_reduction);
    let (c3, _left) = shrink(c2, excess - name_reduction);
    c3.update(5, c3[5] + sub0(width, sum6(c3) + separators))
}

/// Shrinking keeps six columns and lowers only the address columns.
pub proof fn lemma_shrink(c: Seq<int>, excess: int)
    requires
        c.len() == 6,
        forall|i: int| 0 <= i < 6 ==> c[i] >= 0,
    ensures
        shrink(c, excess).0.len() == 6,
        forall|i: int| 0 <= i < 6 ==> shrink(c, excess).0[i] >= 0,
        shrink(c, excess).0[0] == c[0],
        shrink(c, excess).0[1] <= c[1],
        shrink(c, excess).0[2] <= c[2],
        shrink(c, excess).0[3] == c[3],
        shrink(c, excess).0[4] == c[4],
        shrink(c, excess).0[5] == c[5],
    decreases excess,
{
    if excess > 0 {
        let index = if c[1] >= c[2] { 1int } else { 2int };
        if c[index] > 10 {
            lemma_shrink(c.update(index, c[index] - 1), excess - 1);
        }
    }
}

/// Shrinking lowers the columns' sum by at most the excess.
pub proof fn lemma_shrink_sum(c: Seq<int>, excess: int)
    requires
        c.len() == 6,
        excess >= 0,
    ensures
        sum6(shrink(c, excess).0) >= sum6(c) - excess,
    decreases excess,
{
    if excess > 0 {
        let index = if c[1] >= c[2] { 1int } else { 2int };
        if c[index] > 10 {
            let next = c.update(index, c[index] - 1);
            assert(sum6(next) == sum6(c) - 1);
            lemma_shrink_sum(next, excess - 1);
        }
    }
}

/// When the table is too narrow, the process name gives way before the
/// addresses: while the name column stays wider than its floor of 16 cells,
/// the local and remote address columns keep their widened widths (the
/// remote one hidden, at zero, below 109 cells).
pub proof fn network_name_shrinks_before_addresses(entries: Seq<EndpointWidths>, width: int)
    requires
        width >= 0,
    ensures
        table_columns_spec(entries, width)[5] > 16 ==> table_columns_spec(entries, width)[1] == widened(entries)[1]
            && table_columns_spec(entries, width)[2] == if width >= 109 { widened(entries)[2] } else { 0 },
{
    lemma_widened(entries);
    let remote_visible = width >= 109;
    let c0 = widened(entries);
    let c1 = if remote_visible { c0 } else { c0.update(2, 0) };
    let separators = if remote_visible { 5int } else { 4int };
    let excess = sub0(sum6(c1) + separators, width);
    let name_reduction = min_int(excess, sub0(c1[5], 16));
    let c2 = c1.update(5, c1[5] - name_reduction);
    let rest = excess - name_reduction;
    lemma_shrink(c2, rest);
    let c3 = shrink(c2, rest).0;
    if rest <= 0 {
        assert(c3 == c2);
    } else {
        lemma_shrink_sum(c2, rest);
        assert(sum6(c2) == sum6(c1) - name_reduction);
        assert(sum6(c3) + separators >= width);
        assert(table_columns_spec(entries, width)[5] == c3[5]);
        assert(c3[5] <= 16);
    }
}

/// The views of string slices.
pub open spec fn views_of(values: Seq<&str>) -> Seq<Seq<char>> {
    values.map_values(|v: &str| v@)
}

/// The columns widened to the widest value of each column among `entries`.
pub fn widened_columns(entries: &Vec<EndpointWidths>) -> (r: [usize; 6])
    requires
        columns_fit(entries@),
    ensures
        forall|i: int| 0 <= i < 6 ==> r@[i] == #[trigger] widened(entries@)[i],
{
    let mut columns: [usize; 6] = [5, 18, 19, 12, 3, 7];
    let mut k: usize = 0;
    proof {
        assert(entries@.take(0).len() == 0);
    }
    while k < entries.len()
        invariant
            k <= entries@.len(),
            columns_fit(entries@),
            forall|i: int| 0 <= i < 6 ==> columns@[i] == #[trigger] widened(entries@.take(k as int))[i],
        decreases entries@.len() - k,
    {
        let e = entries[k];
        proof {
            assert(entries@.take(k + 1).drop_last() =~= entries@.take(k as int));
            assert(entries@.take(k + 1).last() == e);
            lemma_widened_prefix(entries@, k + 1);
            lemma_widened(entries@.take(k + 1));
            lemma_widened(entries@.take(k as int));
            lemma_widened(entries@);
        }
        let ghost before = columns@;
        if e.local > columns[1] {
            columns[1] = e.local;
        }
        match e.remote {
            Some(remote) => {
                if remote > columns[2] {
                    columns[2] = remote;
                }
            },
            None => {},
        }
        if e.pid > columns[4] {
            columns[4] = e.pid;
        }
        if e.name > columns[5] {
            columns[5] = e.name;
        }
        proof {
            let prev = widened(entries@.take(k as int));
            let next = widened(entries@.take(k + 1));
            assert(before[1] == prev[1] && before[2] == prev[2] && before[4] == prev[4] && before[5] == prev[5]);
            assert(next == prev.update(1, max_int(prev[1], e.local as int)).update(
                2,
                match e.remote {
                    Some(r) => max_int(prev[2], r as int),
                    None => prev[2],
                },
            ).update(4, max_int(prev[4], e.pid as int)).update(5, max_int(prev[5], e.name as int)));
            assert(columns@[0] == next[0]);
            assert(columns@[1] == next[1]);
            assert(columns@[2] == next[2]);
            assert(columns@[3] == next[3]);
            assert(columns@[4] == next[4]);
            assert(columns@[5] == next[5]);
        }
        k = k + 1;
    }
    proof {
        assert(entries@.take(entries@.len() as int) =~= entries@);
    }
    columns
}

/// Column widths as integers.
pub open spec fn as_ints(c: Seq<usize>) -> Seq<int> {
    c.map_values(|v: usize| v as int)
}

/// Takes `excess` cells from the address columns; see `shrink`.
pub fn shrink_address_columns(columns: &mut [usize; 6], excess: usize)
    ensures
        forall|i: int| 0 <= i < 6 ==> final(columns)@[i] == #[trigger] shrink(
            as_ints(old(columns)@),
            excess as int,
        ).0[i],
{
    let ghost c0 = as_ints(old(columns)@);
    let ghost mut cg = c0;
    let mut excess = excess;
    let ghost e0 = excess as int;
    while excess > 0
        invariant
            cg.len() == 6,
            columns@.len() == 6,
            forall|i: int| 0 <= i < 6 ==> cg[i] >= 0,
            forall|i: int| 0 <= i < 6 ==> columns@[i] == #[trigger] cg[i],
            shrink(cg, excess as int) == shrink(c0, e0),
        ensures
            forall|i: int| 0 <= i < 6 ==> columns@[i] == #[trigger] shrink(c0, e0).0[i],
        decreases excess,
    {
        let index: usize = if columns[1] >= columns[2] { 1 } else { 2 };
        if columns[index] <= 10 {
            break;
        }
        columns[index] = columns[index] - 1;
        excess = excess - 1;
        proof {
            cg = cg.update(index as int, cg[index as int] - 1);
        }
    }
}

/// Column widths of the connections table; see `table_columns_spec`.
#[verifier::spinoff_prover]
pub fn table_columns(entries: &Vec<EndpointWidths>, width: u16) -> (r: [usize; 6])
    requires
        columns_fit(entries@),
    ensures
        forall|i: int| 0 <= i < 6 ==> r@[i] == #[trigger] table_columns_spec(entries@, width as int)[i],
        r@[5] > 16 ==> r@[1] == widened(entries@)[1] && r@[2] == if width >= 109 { widened(entries@)[2] } else { 0 },
{
    let remote_visible = width >= 109;
    let mut columns = widened_columns(entries);
    proof {
        lemma_widened(entries@);
    }
    let ghost c0 = widened(entries@);
    if !remote_visible {
        columns[2] = 0;
    }
    let ghost c1 = if remote_visible { c0 } else { c0.update(2, 0) };
    assert(forall|i: int| 0 <= i < 6 ==> columns@[i] == #[trigger] c1[i]);
    let separators: usize = if remote_visible { 5 } else { 4 };
    let required = columns[0] + columns[1] + columns[2] + columns[3] + columns[4] + columns[5] + separators;
    let excess = required.saturating_sub(width as usize);
    let room = columns[5].saturating_sub(16);
    let name_reduction = if excess < room { excess } else { room };
    columns[5] = columns[5] - name_reduction;
    let ghost c2 = c1.update(5, c1[5] - name_reduction);
    assert(as_ints(columns@) =~= c2);
    proof {
        lemma_shrink(c2, (excess - name_reduction) as int);
    }
    shrink_address_columns(&mut columns, excess - name_reduction);
    let ghost c3 = shrink(c2, (excess - name_reduction) as int).0;
    assert(forall|i: int| 0 <= i < 6 ==> columns@[i] == #[trigger] c3[i]);
    let sum = columns[0] + columns[1] + columns[2] + columns[3] + columns[4] + columns[5] + separators;
    columns[5] = columns[5] + (width as usize).saturating_sub(sum);
    assert(forall|i: int| 0 <= i < 6 ==> columns@[i] == #[trigger] table_columns_spec(entries@, width as int)[i]);
    proof {
        network_name_shrinks_before_addresses(entries@, width as int);
        assert(columns@[1] == table_columns_spec(entries@, width as int)[1]);
        assert(columns@[2] == table_columns_spec(entries@, width as int)[2]);
        assert(columns@[5] == table_columns_spec(entries@, width as int)[5]);
    }
    columns
}

/// The widened columns of a prefix are no wider than those of all entries.
pub proof fn lemma_widened_prefix(entries: Seq<EndpointWidths>, k: int)
    requires
        0 <= k <= entries.len(),
    ensures
        forall|i: int| 0 <= i < 6 ==> #[trigger] widened(entries.take(k))[i] <= widened(entries)[i],
    decreases entries.len() - k,
{
    lemma_widened(entries.take(k));
    lemma_widened(entries);
    if k < entries.len() {
        lemma_widened_prefix(entries, k + 1);
        assert(entries.take(k + 1).drop_last() =~= entries.take(k));
        lemma_widened(entries.take(k + 1));
    } else {
        assert(entries.take(k) =~= entries);
    }
}

/// The columns and separators fill the table's width exactly whenever the
/// shrunk columns fit in it; the process-name column takes the cells left.
pub proof fn table_columns_fill_width(entries: Seq<EndpointWidths>, width: int)
    requires
        0 <= width,
    ensures
        ({
            let c = table_columns_spec(entries, width);
            let separators = if width >= 109 { 5int } else { 4int };
            sum6(c) + separators >= width
        }),
{
    lemma_widened(entries);
    let remote_visible = width >= 109;
    let c0 = widened(entries);
    let c1 = if remote_visible { c0 } else { c0.update(2, 0) };
    let separators = if remote_visible { 5int } else { 4int };
    let excess = sub0(sum6(c1) + separators, width);
    let name_reduction = min_int(excess, sub0(c1[5], 16));
    let c2 = c1.update(5, c1[5] - name_reduction);
    lemma_shrink(c2, excess - name_reduction);
}

/// The network browser's frame: a body of 180 by 20 cells over two footer
/// rows.
pub open spec fn browser_spec() -> ScrollableModal {
    ScrollableModal {
        title: "NETWORK ENDPOINTS",
        content_width: 180,
        content_height: 20,
        footer_height: 2,
        placement: ScrollableModalPlacement::Centered,
    }
}

/// The network browser's frame; see `browser_spec`.
pub fn browser() -> (r: ScrollableModal)
    ensures
        r == browser_spec(),
{
    ScrollableModal::new("NETWORK ENDPOINTS", 180, 20, 2)
}

/// The browser's areas on the screen: placed in the area below the header
/// (see `is_dialog_space`) as `browser_spec().layout_in` says.
pub fn browser_layout(screen: Rect) -> (r: ScrollableModalLayout)
    ensures
        exists|space: Rect| #![trigger browser_spec().layout_in(space)]
            is_dialog_space(screen, space) && r == browser_spec().layout_in(space),
        screen_fits(screen) ==> r == browser_spec().layout_in(screen_body(screen)),
{
    let regions = screen_layout(screen);
    let r = browser().layout(regions[1]);
    proof {
        assert(is_dialog_space(screen, regions@[1]));
        assert(r == browser_spec().layout_in(regions@[1]));
    }
    r
}

/// Rows of the browser's body: the status, the filter with the mode switch at
/// its right, a notice, the table header and the endpoint rows.
#[derive(Clone, Copy, Debug, PartialEq, Eq, Structural)]
pub struct NetworkContentLayout {
    pub status: Rect,
    pub filter: Rect,
    pub mode: Rect,
    pub notice: Rect,
    pub header: Rect,
    pub rows: Rect,
}

/// The body row `offset` rows down; no height when the body has no such row.
pub open spec fn network_row(area: Rect, offset: int) -> Rect {
    Rect::placed(area.x as int, add16(area.y as int, offset), area.width as int, if offset < area.height { 1 } else { 0 })
}

/// The rows of the body: the mode switch takes the last 19 columns of the
/// second row (or all of it when narrower), the filter the rest; the endpoint
/// rows take what is left below four rows.
pub open spec fn content_layout_spec(area: Rect) -> NetworkContentLayout {
    let controls = network_row(area, 1);
    let mode_width = min_int(19, controls.width as int);
    NetworkContentLayout {
        status: network_row(area, 0),
        filter: Rect::placed(controls.x as int, controls.y as int, controls.width - mode_width, controls.height as int),
        mode: Rect::placed(sub0(controls.right_spec(), mode_width), controls.y as int, mode_width, controls.height as int),
        notice: network_row(area, 2),
        header: network_row(area, 3),
        rows: Rect::placed(
            area.x as int,
            min_int(add16(area.y as int, 4), area.bottom_spec()),
            area.width as int,
            sub0(area.height as int, 4),
        ),
    }
}

/// The body row `offset` rows down; see `network_row`.
fn row_at(area: Rect, offset: u16) -> (r: Rect)
    ensures
        r == network_row(area, offset as int),
{
    Rect::new(area.x, area.y.saturating_add(offset), area.width, if offset < area.height { 1 } else { 0 })
}

/// The rows of the body; see `content_layout_spec`.
pub fn content_layout(area: Rect) -> (r: NetworkContentLayout)
    ensures
        r == content_layout_spec(area),
{
    let controls = row_at(area, 1);
    let mode_width: u16 = if controls.width < 19 { controls.width } else { 19 };
    let y = area.y.saturating_add(4);
    let bottom = area.bottom();
    NetworkContentLayout {
        status: row_at(area, 0),
        filter: Rect::new(controls.x, controls.y, controls.width - mode_width, controls.height),
        mode: Rect::new(controls.right().saturating_sub(mode_width), controls.y, mode_width, controls.height),
        notice: row_at(area, 2),
        header: row_at(area, 3),
        rows: Rect::new(area.x, if y < bottom { y } else { bottom }, area.width, area.height.saturating_sub(4)),
    }
}

/// Where the scrollbar stands: the right column of the rows shown (the whole
/// area in the detail view, the endpoint rows otherwise) when there are more
/// lines than those rows.
pub open spec fn scrollbar_spec(area: Rect, detail: bool, detail_lines: int, entries: int) -> Option<Rect> {
    let rows = if detail { area } else { content_layout_spec(area).rows };
    let total = if detail { detail_lines } else { entries };
    if total > rows.height && !(rows.width == 0 || rows.height == 0) {
        Some(Rect::placed(sub0(rows.right_spec(), 1), rows.y as int, 1, rows.height as int))
    } else {
        None
    }
}

/// Where the scrollbar stands; see `scrollbar_spec`. `detail_lines` counts the
/// lines of the detail view, `entries` the endpoint rows.
pub fn scrollbar_area(area: Rect, detail: bool, detail_lines: usize, entries: usize) -> (r: Option<Rect>)
    ensures
        r == scrollbar_spec(area, detail, detail_lines as int, entries as int),
{
    let rows = if detail { area } else { content_layout(area).rows };
    let total = if detail { detail_lines } else { entries };
    if total > rows.height as usize && !rows.is_empty() {
        Some(Rect::new(rows.right().saturating_sub(1), rows.y, 1, rows.height))
    } else {
        None
    }
}

/// The filter field `width` cells wide with the cursor after `k` characters:
/// the text from the first character that keeps the cursor inside the field,
/// fitted to the field without padding, and the cursor's column in it.
pub open spec fn filter_window_spec(filter: Seq<char>, k: int, width: int) -> (Seq<char>, int) {
    if width == 0 {
        (Seq::empty(), 0)
    } else {
        let s = window_start(filter, 0, k, width);
        (fit_spec(filter.skip(s), width, false), span_width(filter.subrange(s, k)) as int)
    }
}

/// The characters `from..to` of `chars` as a string.
fn slice_string(chars: &Vec<char>, from: usize, to: usize) -> (r: String)
    requires
        from <= to <= chars@.len(),
    ensures
        r@ == chars@.subrange(from as int, to as int),
{
    let mut out: Vec<char> = Vec::new();
    push_range(&mut out, chars, from, to);
    assert(out@ =~= chars@.subrange(from as int, to as int));
    string_from_chars(&out)
}

/// The filter field `width` cells wide with the cursor at byte `cursor`; see
/// `filter_window_spec`.
pub fn filter_window(filter: &str, cursor: usize, width: usize) -> (r: (String, usize))
    requires
        byte_len(filter@) <= usize::MAX,
        cursor <= byte_len(filter@),
        is_char_boundary_at(filter@, cursor as int),
    ensures
        forall|k: int|
            0 <= k <= filter@.len() && #[trigger] byte_len(filter@.take(k)) == cursor ==> (r.0@, r.1 as int)
                == filter_window_spec(filter@, k, width as int),
{
    if width == 0 {
        proof {
            reveal_strlit("");
        }
        return (String::from_str(""), 0);
    }
    let k = char_count_before(filter, cursor);
    let chars = chars_of(filter);
    let n = chars.len();
    let mut s: usize = 0;
    while s < k
        invariant
            s <= k <= n == chars@.len(),
            chars@ == filter@,
            width > 0,
            window_start(filter@, 0, k as int, width as int) == window_start(filter@, s as int, k as int, width as int),
        ensures
            s <= k,
            window_start(filter@, 0, k as int, width as int) == s,
        decreases k - s,
    {
        let before = slice_string(&chars, s, k);
        let w = str_width(before.as_str());
        if w < width {
            break;
        }
        s = s + 1;
    }
    let rest = slice_string(&chars, s, n);
    assert(chars@.subrange(s as int, n as int) =~= filter@.skip(s as int));
    let shown = fit(rest.as_str(), width, false);
    let before = slice_string(&chars, s, k);
    let column = str_width(before.as_str());
    proof {
        assert forall|j: int| 0 <= j <= filter@.len() && #[trigger] byte_len(filter@.take(j)) == cursor implies j
            == k by {
            lemma_char_index_unique(filter@, j, k as int);
        }
    }
    (shown, column)
}

/// The shortcuts the browser offers: while the filter is edited, the editing
/// keys; in the detail view, going back, scrolling and copying; in the global
/// browser, its keys; in the process tab, the tab's keys.
pub open spec fn shortcut_items_spec(editing: bool, detail: bool, global: bool) -> Seq<Shortcut> {
    if global && editing {
        seq![("Enter/Esc", "done"), ("Ctrl+U", "clear"), ("←/→", "cursor")]
    } else if detail {
        seq![("Esc/Enter", "back"), ("↑/↓", "scroll"), ("Ctrl+C", "copy")]
    } else if global {
        seq![("Esc", "close"), ("Enter", "info"), ("Space", "details"), ("/", "filter"), ("a", "mode"), ("r", "refresh")]
    } else {
        seq![
            ("Esc", "close"),
            ("Enter", "details"),
            ("Ctrl+U", "refresh"),
            ("Ctrl+C", "copy"),
            ("Tab", "tabs"),
            ("Alt+A", "mode"),
            ("↑/↓", "select"),
        ]
    }
}

/// The shortcuts the browser shows in `width` columns, in order; see
/// `shortcut_items_spec` and `fit_shortcuts`.
pub fn shortcuts(editing: bool, detail: bool, global: bool, width: u16) -> (r: Vec<Shortcut>)
    ensures
        r@ == fit_shortcuts(shortcut_items_spec(editing, detail, global), width as int).0,
{
    let items: Vec<Shortcut> = if global && editing {
        vec![("Enter/Esc", "done"), ("Ctrl+U", "clear"), ("←/→", "cursor")]
    } else if detail {
        vec![("Esc/Enter", "back"), ("↑/↓", "scroll"), ("Ctrl+C", "copy")]
    } else if global {
        vec![("Esc", "close"), ("Enter", "info"), ("Space", "details"), ("/", "filter"), ("a", "mode"), ("r", "refresh")]
    } else {
        vec![
            ("Esc", "close"),
            ("Enter", "details"),
            ("Ctrl+U", "refresh"),
            ("Ctrl+C", "copy"),
            ("Tab", "tabs"),
            ("Alt+A", "mode"),
            ("↑/↓", "select"),
        ]
    };
    shortcut_line(&items, width)
}

/// The shortcuts kept in `width` columns; see `fit_shortcuts`.
pub fn shortcut_line(items: &Vec<Shortcut>, width: u16) -> (r: Vec<Shortcut>)
    ensures
        r@ == fit_shortcuts(items@, width as int).0,
{
    fitted_shortcuts(items, width)
}

/// The mode switch's label: in a process tab (with a target) the Alt key,
/// in the global browser the plain key; all endpoints or only listening and
/// UDP ones.
pub fn mode_label(has_target: bool, all: bool) -> (r: &'static str)
    ensures
        r == if has_target {
            if all { "[Alt+A] All" } else { "[Alt+A] Listen+UDP" }
        } else {
            if all { "[a] All endpoints" } else { "[a] Listen + UDP" }
        },
{
    if has_target {
        if all {
            "[Alt+A] All"
        } else {
            "[Alt+A] Listen+UDP"
        }
    } else {
        if all {
            "[a] All endpoints"
        } else {
            "[a] Listen + UDP"
        }
    }
}

/// Texts joined with `separator` between neighbours.
pub open spec fn joined(parts: Seq<Seq<char>>, separator: Seq<char>) -> Seq<char>
    decreases parts.len(),
{
    if parts.len() == 0 {
        Seq::empty()
    } else if parts.len() == 1 {
        parts[0]
    } else {
        joined(parts.drop_last(), separator) + separator + parts.last()
    }
}

/// The notice row: the view's own notice; else, with a capture, its failed
/// tables or the number of endpoints whose owner is unknown; else, in a table
/// narrower than 110 columns, how to see the full details; else nothing.
pub open spec fn notice_spec(
    notice: Option<Seq<char>>,
    has_report: bool,
    failures: Seq<Seq<char>>,
    unresolved: nat,
    rows_width: int,
    has_target: bool,
) -> Seq<char> {
    let from_report = if !has_report {
        None
    } else if failures.len() > 0 {
        Some("Partial: "@ + joined(failures, "; "@))
    } else if unresolved > 0 {
        Some(decimal(unresolved) + " owners unavailable or unverified"@)
    } else {
        None
    };
    match notice {
        Some(n) => n,
        None => match from_report {
            Some(t) => t,
            None => if rows_width < 110 {
                if has_target {
                    "Enter: full endpoint details (remote address included)"@
                } else {
                    "Space: full endpoint details (remote address included)"@
                }
            } else {
                ""@
            },
        },
    }
}

/// The texts of the failures.
pub open spec fn views_of_strings(v: Seq<String>) -> Seq<Seq<char>> {
    Seq::new(v.len(), |i: int| v[i]@)
}

/// Texts joined with `separator`; see `joined`.
fn join_strings(parts: &Vec<String>, separator: &str) -> (r: String)
    ensures
        r@ == joined(views_of_strings(parts@), separator@),
{
    let mut out = String::from_str("");
    proof {
        reveal_strlit("");
    }
    let mut i: usize = 0;
    while i < parts.len()
        invariant
            i <= parts@.len(),
            out@ == joined(views_of_strings(parts@).take(i as int), separator@),
        decreases parts@.len() - i,
    {
        proof {
            assert(views_of_strings(parts@).take(i + 1).drop_last() =~= views_of_strings(parts@).take(i as int));
        }
        if i > 0 {
            out.append(separator);
        }
        out.append(parts[i].as_str());
        i = i + 1;
        proof {
            if i == 1 {
                assert(out@ =~= parts@[0]@);
            }
        }
    }
    proof {
        assert(views_of_strings(parts@).take(parts@.len() as int) =~= views_of_strings(parts@));
    }
    out
}

/// The notice row; see `notice_spec`.
pub fn notice_text(
    notice: Option<&str>,
    has_report: bool,
    failures: &Vec<String>,
    unresolved: usize,
    rows_width: u16,
    has_target: bool,
) -> (r: String)
    ensures
        r@ == notice_spec(
            match notice {
                Some(n) => Some(n@),
                None => None,
            },
            has_report,
            views_of_strings(failures@),
            unresolved as nat,
            rows_width as int,
            has_target,
        ),
{
    match notice {
        Some(n) => return String::from_str(n),
        None => {},
    }
    if has_report && failures.len() > 0 {
        let mut out = String::from_str("Partial: ");
        let list = join_strings(failures, "; ");
        out.append(list.as_str());
        return out;
    }
    if has_report && unresolved > 0 {
        let mut out = decimal_string(unresolved as u128);
        out.append(" owners unavailable or unverified");
        return out;
    }
    if rows_width < 110 {
        if has_target {
            String::from_str("Enter: full endpoint details (remote address included)")
        } else {
            String::from_str("Space: full endpoint details (remote address included)")
        }
    } else {
        String::from_str("")
    }
}

/// What the endpoint rows say when no endpoint matches, noting a partial
/// capture.
pub fn empty_text(partial: bool) -> (r: &'static str)
    ensures
        r == if partial {
            "No matching endpoints in the available tables (partial capture)."
        } else {
            "No matching endpoints."
        },
{
    if partial {
        "No matching endpoints in the available tables (partial capture)."
    } else {
        "No matching endpoints."
    }
}

/// The status row: with a capture, when it was taken (or that it is being
/// updated), the endpoints shown and the tables read of four; without one,
/// whether it is loading.
pub open spec fn status_spec(has_report: bool, pending: bool, captured: Seq<char>, entries: nat, tables: nat) -> Seq<char> {
    if has_report {
        (if pending { "Updating · "@ } else { "Captured "@ }) + captured + " · "@ + decimal(entries) + " endpoints · "@
            + decimal(tables) + "/4 tables"@
    } else if pending {
        "Loading endpoints..."@
    } else {
        "No capture available"@
    }
}

/// The status row; see `status_spec`. `captured` is the capture's clock time.
pub fn status_text(has_report: bool, pending: bool, captured: &str, entries: usize, tables: usize) -> (r: String)
    ensures
        r@ == status_spec(has_report, pending, captured@, entries as nat, tables as nat),
{
    if has_report {
        let mut out = String::from_str(if pending { "Updating · " } else { "Captured " });
        out.append(captured);
        out.append(" · ");
        let e = decimal_string(entries as u128);
        out.append(e.as_str());
        out.append(" endpoints · ");
        let t = decimal_string(tables as u128);
        out.append(t.as_str());
        out.append("/4 tables");
        out
    } else if pending {
        String::from_str("Loading endpoints...")
    } else {
        String::from_str("No capture available")
    }
}

/// The browser's second footer row: editing keys while the filter is edited,
/// paging in the details, otherwise selecting, paging and copying.
pub fn secondary_shortcuts(editing: bool, detail: bool) -> (r: Vec<Shortcut>)
    ensures
        r@ == if editing {
            seq![("Backspace/Delete", "edit"), ("Home/End", "first/last")]
        } else if detail {
            seq![("PgUp/PgDn", "page"), ("Home/End", "first/last")]
        } else {
            seq![("↑/↓", "select"), ("PgUp/PgDn", "page"), ("Home/End", "first/last"), ("Ctrl+C", "copy")]
        },
{
    if editing {
        vec![("Backspace/Delete", "edit"), ("Home/End", "first/last")]
    } else if detail {
        vec![("PgUp/PgDn", "page"), ("Home/End", "first/last")]
    } else {
        vec![("↑/↓", "select"), ("PgUp/PgDn", "page"), ("Home/End", "first/last"), ("Ctrl+C", "copy")]
    }
}

/// The first endpoint row shown: the scroll offset, held so that the last
/// page is full.
pub fn rows_offset(offset: usize, entries: usize, rows: u16) -> (r: usize)
    ensures
        r == min_int(offset as int, sub0(entries as int, if rows >= 1 { rows as int } else { 1 })),
{
    let shown: usize = if rows >= 1 { rows as usize } else { 1 };
    let last = entries.saturating_sub(shown);
    if offset < last { offset } else { last }
}

/// The selected endpoint as the detail view shows it.
#[derive(Clone, Debug)]
pub struct EndpointDetail {
    pub protocol: String,
    pub local: String,
    pub remote: Option<String>,
    pub state: String,
    pub pid: u32,
    pub process_name: String,
    pub owner_verified: bool,
}

/// The lines of a wrapped text read so far, control characters shown as
/// spaces: the finished rows, the row under way and its cells. A character
/// starts a new row when the row has text and the character would take it
/// past `width`.
pub open spec fn detail_wrap_state(s: Seq<char>, width: int) -> (Seq<Seq<char>>, Seq<char>, int)
    decreases s.len(),
{
    if s.len() == 0 {
        (Seq::empty(), Seq::empty(), 0)
    } else {
        let (done, row, used) = detail_wrap_state(s.drop_last(), width);
        let c = shown_char(s.last());
        let size = span_width(seq![c]) as int;
        if add_upto(used, size, usize::MAX as int) > width && row.len() > 0 {
            (done.push(row), seq![c], size)
        } else {
            (done, row.push(c), add_upto(used, size, usize::MAX as int))
        }
    }
}

/// A line wrapped for the detail view; see `detail_wrap_state`.
pub open spec fn detail_wrapped(s: Seq<char>, width: int) -> Seq<Seq<char>> {
    let (done, row, _used) = detail_wrap_state(s, width);
    done.push(row)
}

/// Each line wrapped in turn, the rows one after another.
pub open spec fn detail_wrap_all(lines: Seq<Seq<char>>, width: int) -> Seq<Seq<char>>
    decreases lines.len(),
{
    if lines.len() == 0 {
        Seq::empty()
    } else {
        detail_wrap_all(lines.drop_last(), width) + detail_wrapped(lines.last(), width)
    }
}

/// The lines of the detail view before wrapping: the selected endpoint's
/// protocol, addresses, state, PID, process and owner check (or that none is
/// selected), the capture's start and end with each failed table, and the
/// view's notice.
pub open spec fn endpoint_lines(
    selected: Option<EndpointDetail>,
    capture: Option<(Seq<char>, Seq<char>)>,
    failures: Seq<Seq<char>>,
    notice: Option<Seq<char>>,
) -> Seq<Seq<char>> {
    head_lines(selected) + capture_lines(capture, failures) + match notice {
        Some(n) => seq![n],
        None => Seq::empty(),
    }
}

/// The lines of the selected endpoint, or that none is selected.
pub open spec fn head_lines(selected: Option<EndpointDetail>) -> Seq<Seq<char>> {
    match selected {
        Some(e) => seq![
            "Protocol: "@ + e.protocol@,
            "Local: "@ + e.local@,
            "Remote: "@ + match e.remote {
                Some(r) => r@,
                None => "--"@,
            },
            "State: "@ + e.state@,
            "PID: "@ + decimal(e.pid as nat),
            "Process: "@ + e.process_name@,
            "Owner: "@ + if e.owner_verified { "Verified during capture"@ } else { "Unavailable or unverified"@ },
        ],
        None => seq!["No endpoint selected."@],
    }
}

/// The capture's start and end, then each failed table.
pub open spec fn capture_lines(capture: Option<(Seq<char>, Seq<char>)>, failures: Seq<Seq<char>>) -> Seq<Seq<char>> {
    match capture {
        Some((started, captured)) => seq!["Capture: "@ + started + " - "@ + captured] + Seq::new(
            failures.len(),
            |i: int| "Partial: "@ + failures[i],
        ),
        None => Seq::empty(),
    }
}

/// Appends `line` to `lines`.
fn push_line(lines: &mut Vec<String>, line: String)
    ensures
        views_of_strings(final(lines)@) == views_of_strings(old(lines)@).push(line@),
{
    let ghost t = line@;
    lines.push(line);
    assert(views_of_strings(lines@) =~= views_of_strings(old(lines)@).push(t));
}

/// Appends the lines of the selected endpoint; see `head_lines`.
fn push_head(lines: &mut Vec<String>, selected: Option<&EndpointDetail>)
    ensures
        views_of_strings(final(lines)@) == views_of_strings(old(lines)@) + head_lines(
            match selected {
                Some(e) => Some(*e),
                None => None,
            },
        ),
{
    let ghost start = views_of_strings(lines@);
    match selected {
        Some(e) => {
            push_line(lines, labeled("Protocol: ", e.protocol.as_str()));
            push_line(lines, labeled("Local: ", e.local.as_str()));
            match &e.remote {
                Some(r) => push_line(lines, labeled("Remote: ", r.as_str())),
                None => push_line(lines, labeled("Remote: ", "--")),
            }
            push_line(lines, labeled("State: ", e.state.as_str()));
            let pid = decimal_string(e.pid as u128);
            push_line(lines, labeled("PID: ", pid.as_str()));
            push_line(lines, labeled("Process: ", e.process_name.as_str()));
            push_line(lines, labeled("Owner: ", if e.owner_verified { "Verified during capture" } else { "Unavailable or unverified" }));
        },
        None => push_line(lines, String::from_str("No endpoint selected.")),
    }
    assert(views_of_strings(lines@) =~= start + head_lines(
        match selected {
            Some(e) => Some(*e),
            None => None,
        },
    ));
}

/// Appends the capture's lines; see `capture_lines`.
fn push_capture(lines: &mut Vec<String>, capture: Option<(&str, &str)>, failures: &Vec<String>)
    ensures
        views_of_strings(final(lines)@) == views_of_strings(old(lines)@) + capture_lines(
            match capture {
                Some((a, b)) => Some((a@, b@)),
                None => None,
            },
            views_of_strings(failures@),
        ),
{
    let ghost start = views_of_strings(lines@);
    match capture {
        Some((started, captured)) => {
            let mut line = labeled("Capture: ", started);
            line.append(" - ");
            line.append(captured);
            push_line(lines, line);
            let ghost before = views_of_strings(lines@);
            let mut k: usize = 0;
            while k < failures.len()
                invariant
                    k <= failures@.len(),
                    views_of_strings(lines@) == before + Seq::new(k as nat, |i: int| "Partial: "@ + failures@[i]@),
                decreases failures@.len() - k,
            {
                push_line(lines, labeled("Partial: ", failures[k].as_str()));
                k = k + 1;
                assert(views_of_strings(lines@) =~= before + Seq::new(k as nat, |i: int| "Partial: "@ + failures@[i]@));
            }
            assert(views_of_strings(lines@) =~= start + capture_lines(Some((started@, captured@)), views_of_strings(failures@)));
        },
        None => {
            assert(views_of_strings(lines@) =~= start + capture_lines(None, views_of_strings(failures@)));
        },
    }
}

/// `label` followed by `text`.
fn labeled(label: &str, text: &str) -> (r: String)
    ensures
        r@ == label@ + text@,
{
    let mut out = String::from_str(label);
    out.append(text);
    out
}

/// A line wrapped for the detail view; see `detail_wrapped`.
fn wrap_detail_line(line: &str, width: usize, out: &mut Vec<String>)
    ensures
        final(out)@.len() == old(out)@.len() + detail_wrapped(line@, width as int).len(),
        forall|i: int| 0 <= i < old(out)@.len() ==> #[trigger] final(out)@[i] == old(out)@[i],
        forall|i: int| 0 <= i < detail_wrapped(line@, width as int).len() ==> (#[trigger] final(out)@[old(out)@.len() + i])@
            == detail_wrapped(line@, width as int)[i],
{
    let ghost start = out@;
    let chars = chars_of(line);
    let n = chars.len();
    let mut row: Vec<char> = Vec::new();
    let mut used: usize = 0;
    let mut i: usize = 0;
    while i < n
        invariant
            i <= n == line@.len(),
            chars@ == line@,
            out@.len() == start.len() + detail_wrap_state(line@.take(i as int), width as int).0.len(),
            forall|j: int| 0 <= j < start.len() ==> #[trigger] out@[j] == start[j],
            forall|j: int| 0 <= j < detail_wrap_state(line@.take(i as int), width as int).0.len() ==> (#[trigger] out@[start.len() + j])@
                == detail_wrap_state(line@.take(i as int), width as int).0[j],
            row@ == detail_wrap_state(line@.take(i as int), width as int).1,
            used == detail_wrap_state(line@.take(i as int), width as int).2,
        decreases n - i,
    {
        proof {
            assert(line@.take(i + 1).drop_last() =~= line@.take(i as int));
        }
        let c0 = chars[i];
        let c = if is_control(c0) { ' ' } else { c0 };
        let size = char_width(c);
        if used.saturating_add(size) > width && row.len() > 0 {
            out.push(string_from_chars(&row));
            row = Vec::new();
            row.push(c);
            used = size;
            assert(row@ =~= seq![c]);
        } else {
            row.push(c);
            used = used.saturating_add(size);
        }
        i = i + 1;
    }
    proof {
        assert(line@.take(n as int) =~= line@);
    }
    out.push(string_from_chars(&row));
}

/// The lines of the detail view `width` columns wide: `endpoint_lines`, each
/// wrapped to one column less than the width (at least one).
pub fn detail_lines(
    selected: Option<&EndpointDetail>,
    capture: Option<(&str, &str)>,
    failures: &Vec<String>,
    notice: Option<&str>,
    width: u16,
) -> (r: Vec<String>)
    ensures
        ({
            let want = detail_wrap_all(
                endpoint_lines(
                    match selected {
                        Some(e) => Some(*e),
                        None => None,
                    },
                    match capture {
                        Some((a, b)) => Some((a@, b@)),
                        None => None,
                    },
                    views_of_strings(failures@),
                    match notice {
                        Some(n) => Some(n@),
                        None => None,
                    },
                ),
                if width >= 2 { width - 1 } else { 1 },
            );
            r@.len() == want.len() && forall|i: int| 0 <= i < r@.len() ==> #[trigger] r@[i]@ == want[i]
        }),
{
    let ghost source = endpoint_lines(
        match selected {
            Some(e) => Some(*e),
            None => None,
        },
        match capture {
            Some((a, b)) => Some((a@, b@)),
            None => None,
        },
        views_of_strings(failures@),
        match notice {
            Some(n) => Some(n@),
            None => None,
        },
    );
    let mut lines: Vec<String> = Vec::new();
    push_head(&mut lines, selected);
    push_capture(&mut lines, capture, failures);
    match notice {
        Some(n) => push_line(&mut lines, String::from_str(n)),
        None => {},
    }
    assert(views_of_strings(lines@) =~= source);
    assert forall|i: int| 0 <= i < lines@.len() implies #[trigger] lines@[i]@ == source[i] by {
        assert(views_of_strings(lines@)[i] == lines@[i]@);
    }
    let wrap_width: usize = if width >= 2 { (width - 1) as usize } else { 1 };
    let mut out: Vec<String> = Vec::new();
    let mut i: usize = 0;
    while i < lines.len()
        invariant
            i <= lines@.len() == source.len(),
            forall|j: int| 0 <= j < lines@.len() ==> #[trigger] lines@[j]@ == source[j],
            out@.len() == detail_wrap_all(source.take(i as int), wrap_width as int).len(),
            forall|j: int| 0 <= j < out@.len() ==> #[trigger] out@[j]@ == detail_wrap_all(source.take(i as int), wrap_width as int)[j],
        decreases lines@.len() - i,
    {
        let ghost before = out@;
        wrap_detail_line(lines[i].as_str(), wrap_width, &mut out);
        proof {
            let w = wrap_width as int;
            assert(source.take(i + 1).drop_last() =~= source.take(i as int));
            assert(source.take(i + 1).last() == source[i as int]);
            assert(detail_wrap_all(source.take(i + 1), w) == detail_wrap_all(source.take(i as int), w) + detail_wrapped(source[i as int], w));
            assert forall|t: int| 0 <= t < out@.len() implies #[trigger] out@[t]@ == detail_wrap_all(source.take(i + 1), w)[t] by {
                if t >= before.len() {
                    let u = t - before.len();
                    assert(out@[before.len() + u] == out@[t]);
                }
            }
        }
        i = i + 1;
    }
    proof {
        assert(source.take(source.len() as int) =~= source);
    }
    out
}

/// The area the endpoint views draw in: the global browser's body, or the
/// process dialog's page.
pub fn active_content_area(screen: Rect, global: bool, tab_labels: &Vec<&str>) -> (r: Rect)
    requires
        tabs_width(tab_labels@) <= u16::MAX,
    ensures
        exists|space: Rect| #![trigger is_dialog_space(screen, space)]
            is_dialog_space(screen, space) && r == if global {
                browser_spec().layout_in(space).content
            } else {
                dialog_layout_spec(space, tab_labels@).content
            },
        screen_fits(screen) ==> r == if global {
            browser_spec().layout_in(screen_body(screen)).content
        } else {
            dialog_layout_spec(screen_body(screen), tab_labels@).content
        },
{
    if global {
        let layout = browser_layout(screen);
        proof {
            let space = choose|space: Rect| #![trigger browser_spec().layout_in(space)]
                is_dialog_space(screen, space) && layout == browser_spec().layout_in(space);
            assert(is_dialog_space(screen, space));
        }
        layout.content
    } else {
        let r = process_info_content_area_for_screen(screen, tab_labels);
        proof {
            let space = choose|space: Rect| #![trigger dialog_layout_spec(space, tab_labels@)]
                is_dialog_space(screen, space) && r == dialog_layout_spec(space, tab_labels@).content;
            assert(is_dialog_space(screen, space));
        }
        r
    }
}

} // verus!

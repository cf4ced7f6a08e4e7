//! The scheduling page of the process information dialog: where its priority
//! choices and processor checkboxes stand, relative to the page, so that
//! drawing, keyboard moves and mouse hits agree.

use vstd::prelude::*;

use crate::ui::cpu_core_dialog::CpuCoreKind;
use crate::ui::details_panel::texts_of;
use crate::ui::format::{decimal, decimal_string};
use crate::ui::rect::{add16, add_upto, max_int, min_int, sub0, Rect};
use crate::ui::styled::{line_view, lines_view, piece, push_line, single, single_line, Piece, Tone};
use crate::ui::text::{
    concat3, line_width, pad_start, pad_start_string, repeat_string, span_width, spaces, str_line_width, str_width,
    wrap_display, wrapped,
};

verus! {

/// A control of the page: a priority choice or a processor checkbox, by its
/// place in its list.
#[derive(Clone, Copy, Debug, PartialEq, Eq, Structural)]
pub enum SchedulingControl {
    Priority(usize),
    Affinity(usize),
}

/// A control, the cells it takes and its text.
#[derive(Clone, Debug)]
pub struct SchedulingCell {
    pub control: SchedulingControl,
    pub area: Rect,
    pub text: String,
}

/// The controls of the page, the row of the affinity heading and the first row
/// after the processor grid.
#[derive(Clone, Debug)]
pub struct SchedulingLayout {
    pub cells: Vec<SchedulingCell>,
    pub affinity_heading: usize,
    pub summary_start: usize,
}

/// The text of a priority choice: a radio mark, filled on the current one, and
/// the label.
pub open spec fn priority_text(label: Seq<char>, current: bool) -> Seq<char> {
    "("@ + (if current { "●"@ } else { " "@ }) + ") "@ + label
}

/// Columns a text takes, as the cell arithmetic counts them.
pub open spec fn cell_columns(text: Seq<char>) -> int {
    (line_width(text) as u16) as int
}

/// The priority choices placed in turn in `width` columns: from column 9 (or
/// the width) of row 1, two columns apart, moving to the start of the next row
/// when a choice would pass the right edge. Gives the next column, the row and
/// the area and text of each choice.
pub open spec fn priority_cells(labels: Seq<&str>, current: Option<usize>, width: int) -> (int, int, Seq<(Rect, Seq<char>)>)
    decreases labels.len(),
{
    if labels.len() == 0 {
        (min_int(9, width), 1, Seq::empty())
    } else {
        let (x, y, cells) = priority_cells(labels.drop_last(), current, width);
        let text = priority_text(labels.last()@, current == Some((labels.len() - 1) as usize));
        let w = cell_columns(text);
        let wrap = x > 0 && add16(x, w) > width;
        let x1 = if wrap { 0 } else { x };
        let y1 = if wrap { y + 1 } else { y };
        (add16(add16(x1, w), 2), y1, cells.push((Rect::placed(x1, y1, min_int(w, width), 1), text)))
    }
}

/// The kind of processor `cpu`, none when unknown.
pub open spec fn kind_of(kinds: Seq<Option<CpuCoreKind>>, cpu: int) -> Option<CpuCoreKind> {
    if 0 <= cpu < kinds.len() { kinds[cpu] } else { None }
}

/// The label of a processor kind.
pub open spec fn kind_text(kind: Option<CpuCoreKind>) -> Seq<char> {
    match kind {
        Some(CpuCoreKind::Performance) => "P"@,
        Some(CpuCoreKind::Efficiency) => "E"@,
        None => "Unknown"@,
    }
}

/// The checkbox of processor `cpu`: checked when the affinity mask holds it,
/// the processor's number in two columns and its kind.
pub open spec fn affinity_text(cpu: usize, mask: usize, kind: Option<CpuCoreKind>) -> Seq<char> {
    "["@ + (if mask & (1usize << cpu) != 0 { "x"@ } else { " "@ }) + "] CPU "@ + pad_start(decimal(cpu as nat), 2)
        + " ("@ + kind_text(kind) + ")"@
}

/// The checkbox texts of the processors in turn.
pub open spec fn affinity_texts(cpus: Seq<usize>, mask: usize, kinds: Seq<Option<CpuCoreKind>>) -> Seq<Seq<char>> {
    Seq::new(cpus.len(), |i: int| affinity_text(cpus[i], mask, kind_of(kinds, cpus[i] as int)))
}

/// Whether a checkbox and its two columns of padding can be counted in 16 bits.
pub open spec fn text_cell_fits(text: Seq<char>) -> bool {
    cell_columns(text) + 2 <= u16::MAX
}

/// The widest checkbox with its padding.
pub open spec fn widest_cell(texts: Seq<Seq<char>>) -> int
    decreases texts.len(),
{
    if texts.len() == 0 {
        0
    } else {
        max_int(widest_cell(texts.drop_last()), cell_columns(texts.last()) + 2)
    }
}

/// Width of a grid cell: the widest checkbox with padding (one column when
/// there is none), held to the width.
pub open spec fn grid_cell_width(texts: Seq<Seq<char>>, width: int) -> int {
    min_int(if texts.len() == 0 { 1 } else { widest_cell(texts) }, width)
}

/// Columns of the grid: as many cells as the width holds, at least one.
pub open spec fn grid_columns(cell_width: int, width: int) -> int {
    if width / cell_width >= 1 { width / cell_width } else { 1 }
}

/// The width the page lays out in: one column less than given, at least one.
pub open spec fn page_width(width: int) -> int {
    if width - 1 >= 1 { width - 1 } else { 1 }
}

/// The area of checkbox `j` in a grid of `columns` cells starting at row
/// `grid_start`.
pub open spec fn grid_area(j: int, columns: int, cell_width: int, grid_start: int) -> Rect {
    Rect::placed((j % columns) * cell_width, ((grid_start + j / columns) as u16) as int, cell_width, 1)
}

/// Rows of a grid of `n` cells in `columns` columns.
pub open spec fn grid_rows(n: int, columns: int) -> int {
    n / columns + if n % columns != 0 { 1int } else { 0 }
}

/// The text of a priority choice; see `priority_text`.
fn priority_string(label: &str, current: bool) -> (r: String)
    ensures
        r@ == priority_text(label@, current),
{
    let mut out = String::from_str("(");
    out.append(if current { "●" } else { " " });
    out.append(") ");
    out.append(label);
    out
}

/// The checkbox text of processor `cpu`; see `affinity_text`.
fn affinity_string(cpu: usize, mask: usize, kind: Option<CpuCoreKind>) -> (r: String)
    requires
        cpu < usize::BITS,
    ensures
        r@ == affinity_text(cpu, mask, kind),
{
    let mut out = String::from_str("[");
    out.append(if mask & (1usize << cpu) != 0 { "x" } else { " " });
    out.append("] CPU ");
    let digits = decimal_string(cpu as u128);
    let padded = pad_start_string(digits.as_str(), 2);
    out.append(padded.as_str());
    out.append(" (");
    out.append(
        match kind {
            Some(CpuCoreKind::Performance) => "P",
            Some(CpuCoreKind::Efficiency) => "E",
            None => "Unknown",
        },
    );
    out.append(")");
    out
}

/// Where the controls of the scheduling page stand in `width` columns (one
/// kept free for the scrollbar): the priority choices in rows from row 1 (see
/// `priority_cells`), the affinity heading two rows below them, and under it
/// a grid of processor checkboxes of equal cells (see `grid_cell_width`,
/// `grid_columns`, `grid_area`); the summary starts one row after the grid.
/// `current_priority` is the place of the current priority among the choices,
/// `kinds` the kind of each processor by number. None when a checkbox is too
/// wide to be counted in 16 bits.
pub fn scheduling_layout(
    priority_labels: &Vec<&str>,
    current_priority: Option<usize>,
    cpus: &Vec<usize>,
    kinds: &Vec<Option<CpuCoreKind>>,
    affinity_mask: usize,
    width: u16,
) -> (r: Option<SchedulingLayout>)
    requires
        priority_labels@.len() < u16::MAX - 1,
        cpus@.len() < u16::MAX,
        forall|i: int| 0 <= i < cpus@.len() ==> #[trigger] cpus@[i] < usize::BITS,
    ensures
        ({
            let w = page_width(width as int);
            let (px, py, pcells) = priority_cells(priority_labels@, current_priority, w);
            let texts = affinity_texts(cpus@, affinity_mask, kinds@);
            let cell_width = grid_cell_width(texts, w);
            let columns = grid_columns(cell_width, w);
            let grid_start = py + 3;
            match r {
                None => exists|j: int| 0 <= j < texts.len() && !text_cell_fits(#[trigger] texts[j]),
                Some(layout) => {
                    &&& forall|j: int| 0 <= j < texts.len() ==> text_cell_fits(#[trigger] texts[j])
                    &&& layout.cells@.len() == pcells.len() + texts.len()
                    &&& forall|i: int| 0 <= i < pcells.len() ==> {
                        &&& (#[trigger] layout.cells@[i]).control == SchedulingControl::Priority(i as usize)
                        &&& layout.cells@[i].area == pcells[i].0
                        &&& layout.cells@[i].text@ == pcells[i].1
                    }
                    &&& forall|j: int| 0 <= j < texts.len() ==> {
                        &&& (#[trigger] layout.cells@[pcells.len() + j]).control == SchedulingControl::Affinity(j as usize)
                        &&& layout.cells@[pcells.len() + j].area == grid_area(j, columns, cell_width, grid_start)
                        &&& layout.cells@[pcells.len() + j].text@ == texts[j]
                    }
                    &&& layout.affinity_heading == py + 2
                    &&& layout.summary_start == grid_start + grid_rows(texts.len() as int, columns) + 1
                    &&& layout_rows_fit(layout)
                },
            }
        }),
{
    let width: u16 = if width > 2 { width - 1 } else { 1 };
    let ghost w = width as int;
    let n = priority_labels.len();
    let mut cells: Vec<SchedulingCell> = Vec::new();
    let mut x: u16 = if width < 9 { width } else { 9 };
    let mut y: u16 = 1;
    let mut i: usize = 0;
    while i < n
        invariant
            i <= n == priority_labels@.len(),
            n < u16::MAX - 1,
            w == width,
            1 <= y <= 1 + i,
            x == priority_cells(priority_labels@.take(i as int), current_priority, w).0,
            y == priority_cells(priority_labels@.take(i as int), current_priority, w).1,
            cells@.len() == i,
            forall|k: int| 0 <= k < i ==> {
                &&& (#[trigger] cells@[k]).control == SchedulingControl::Priority(k as usize)
                &&& cells@[k].area == priority_cells(priority_labels@.take(i as int), current_priority, w).2[k].0
                &&& cells@[k].text@ == priority_cells(priority_labels@.take(i as int), current_priority, w).2[k].1
            },
        decreases n - i,
    {
        let ghost before = priority_cells(priority_labels@.take(i as int), current_priority, w);
        proof {
            lemma_priority_cells_len(priority_labels@.take(i as int), current_priority, w);
            assert(priority_labels@.take(i + 1).drop_last() =~= priority_labels@.take(i as int));
            assert(priority_labels@.take(i + 1).last() == priority_labels@[i as int]);
        }
        let current = match current_priority {
            Some(c) => c == i,
            None => false,
        };
        let text = priority_string(priority_labels[i], current);
        let cell_width = #[verifier::truncate] (str_line_width(text.as_str()) as u16);
        if x > 0 && x.saturating_add(cell_width) > width {
            x = 0;
            y = y + 1;
        }
        let shown = if cell_width < width { cell_width } else { width };
        cells.push(SchedulingCell { control: SchedulingControl::Priority(i), area: Rect::new(x, y, shown, 1), text });
        x = x.saturating_add(cell_width).saturating_add(2);
        proof {
            let after = priority_cells(priority_labels@.take(i + 1), current_priority, w);
            assert forall|k: int| 0 <= k < i implies after.2[k] == before.2[k] by {}
        }
        i = i + 1;
    }
    proof {
        assert(priority_labels@.take(n as int) =~= priority_labels@);
        lemma_priority_cells_len(priority_labels@, current_priority, w);
    }
    let affinity_heading: usize = (y as usize) + 2;
    let ghost texts = affinity_texts(cpus@, affinity_mask, kinds@);
    let m = cpus.len();
    let mut labels: Vec<String> = Vec::new();
    let mut widest: u16 = 0;
    let mut j: usize = 0;
    while j < m
        invariant
            j <= m == cpus@.len(),
            m < u16::MAX,
            forall|t: int| 0 <= t < cpus@.len() ==> #[trigger] cpus@[t] < usize::BITS,
            texts == affinity_texts(cpus@, affinity_mask, kinds@),
            labels@.len() == j,
            forall|t: int| 0 <= t < j ==> (#[trigger] labels@[t])@ == texts[t],
            forall|t: int| 0 <= t < j ==> text_cell_fits(#[trigger] texts[t]),
            widest == widest_cell(texts.take(j as int)),
        decreases m - j,
    {
        let cpu = cpus[j];
        let kind = if cpu < kinds.len() { kinds[cpu] } else { None };
        let text = affinity_string(cpu, affinity_mask, kind);
        assert(text@ == texts[j as int]);
        let columns_of = #[verifier::truncate] (str_line_width(text.as_str()) as u16);
        if columns_of > 65533 {
            return None;
        }
        let padded = columns_of + 2;
        proof {
            assert(texts.take(j + 1).drop_last() =~= texts.take(j as int));
            assert(texts.take(j + 1).last() == texts[j as int]);
        }
        if padded > widest {
            widest = padded;
        }
        labels.push(text);
        j = j + 1;
    }
    proof {
        assert(texts.take(m as int) =~= texts);
    }
    let wanted: u16 = if m == 0 { 1 } else { widest };
    let cell_width: u16 = if wanted < width { wanted } else { width };
    proof {
        if m > 0 {
            lemma_widest_cell_at_least_two(texts);
        }
    }
    assert(cell_width >= 1);
    let fitting = width / cell_width;
    let columns: usize = if fitting >= 1 { fitting as usize } else { 1 };
    let grid_start: usize = affinity_heading + 1;
    let ghost p = cells@.len();
    let mut k: usize = 0;
    while k < m
        invariant
            k <= m == labels@.len() == texts.len(),
            m < u16::MAX,
            p == n,
            cells@.len() == p + k,
            cell_width >= 1,
            cell_width == grid_cell_width(texts, w),
            columns == grid_columns(cell_width as int, w),
            w == width,
            grid_start < u16::MAX + 4,
            forall|t: int| 0 <= t < m ==> (#[trigger] labels@[t])@ == texts[t],
            forall|t: int| 0 <= t < p ==> {
                &&& (#[trigger] cells@[t]).control == SchedulingControl::Priority(t as usize)
                &&& cells@[t].area == priority_cells(priority_labels@, current_priority, w).2[t].0
                &&& cells@[t].text@ == priority_cells(priority_labels@, current_priority, w).2[t].1
            },
            forall|t: int| 0 <= t < k ==> {
                &&& (#[trigger] cells@[p + t]).control == SchedulingControl::Affinity(t as usize)
                &&& cells@[p + t].area == grid_area(t, columns as int, cell_width as int, grid_start as int)
                &&& cells@[p + t].text@ == texts[t]
            },
        decreases m - k,
    {
        let column = k % columns;
        proof {
            lemma_grid_column_fits(k as int, columns as int, cell_width as int, width as int);
        }
        let x = (column as u16) * cell_width;
        let row = #[verifier::truncate] ((grid_start + k / columns) as u16);
        cells.push(SchedulingCell {
            control: SchedulingControl::Affinity(k),
            area: Rect::new(x, row, cell_width, 1),
            text: labels[k].clone(),
        });
        k = k + 1;
    }
    let rows = m / columns + if m % columns != 0 { 1 } else { 0 };
    let layout = SchedulingLayout { cells, affinity_heading, summary_start: grid_start + rows + 1 };
    proof {
        lemma_priority_rows(priority_labels@, current_priority, w);
        assert forall|t: int| 0 <= t < layout.cells@.len() implies (#[trigger] layout.cells@[t]).area.y
            < layout.summary_start by {
            if t >= p {
                let j = t - p;
                assert(layout.cells@[p + j].area == grid_area(j, columns as int, cell_width as int, grid_start as int));
                lemma_grid_row_before_end(j, m as int, columns as int, grid_start as int);
            } else {
                assert(layout.cells@[t].area == priority_cells(priority_labels@, current_priority, w).2[t].0);
                assert(priority_cells(priority_labels@, current_priority, w).1 == y);
            }
        }
    }
    Some(layout)
}

/// Whether the rows of a laid-out page hold its headings and controls: the
/// affinity heading lies below the priority heading (row 1) and above the
/// summary, and each control lies above the summary.
pub open spec fn layout_rows_fit(layout: SchedulingLayout) -> bool {
    &&& 2 <= layout.affinity_heading < layout.summary_start
    &&& forall|i: int| 0 <= i < layout.cells@.len() ==> (#[trigger] layout.cells@[i]).area.y < layout.summary_start
}

/// The priority choices take rows 1 to the last row reached, which is at most
/// one row further per choice.
pub proof fn lemma_priority_rows(labels: Seq<&str>, current: Option<usize>, width: int)
    requires
        labels.len() < u16::MAX - 1,
    ensures
        1 <= priority_cells(labels, current, width).1 <= 1 + labels.len(),
        forall|i: int|
            0 <= i < priority_cells(labels, current, width).2.len() ==> (#[trigger] priority_cells(
                labels,
                current,
                width,
            ).2[i]).0.y <= priority_cells(labels, current, width).1,
    decreases labels.len(),
{
    lemma_priority_cells_len(labels, current, width);
    if labels.len() > 0 {
        lemma_priority_rows(labels.drop_last(), current, width);
        let (x, y, cells) = priority_cells(labels.drop_last(), current, width);
        let all = priority_cells(labels, current, width).2;
        assert forall|i: int| 0 <= i < all.len() implies (#[trigger] all[i]).0.y <= priority_cells(
            labels,
            current,
            width,
        ).1 by {
            if i < cells.len() {
                assert(all[i] == cells[i]);
            }
        }
    }
}

/// A checkbox of a grid of `n` lies above the row after the grid, its row cut
/// to 16 bits.
pub proof fn lemma_grid_row_before_end(j: int, n: int, columns: int, grid_start: int)
    requires
        0 <= j < n,
        columns >= 1,
        grid_start >= 0,
    ensures
        (((grid_start + j / columns) as u16) as int) < grid_start + grid_rows(n, columns),
{
    let q = j / columns;
    let big_q = n / columns;
    assert(q < big_q || (q == big_q && n % columns != 0)) by (nonlinear_arith)
        requires
            0 <= j < n,
            columns >= 1,
            q == j / columns,
            big_q == n / columns,
    {
        assert(j == q * columns + j % columns);
        assert(n == big_q * columns + n % columns);
        assert(0 <= j % columns < columns);
        assert(0 <= n % columns < columns);
        if q > big_q {
            assert(q * columns >= (big_q + 1) * columns);
        }
        if q == big_q && n % columns == 0 {
            assert(j >= n);
        }
    }
    let x = grid_start + q;
    if x <= u16::MAX {
        assert((x as u16) as int == x);
    }
}

/// There is one placed choice per label.
pub proof fn lemma_priority_cells_len(labels: Seq<&str>, current: Option<usize>, width: int)
    ensures
        priority_cells(labels, current, width).2.len() == labels.len(),
    decreases labels.len(),
{
    if labels.len() > 0 {
        lemma_priority_cells_len(labels.drop_last(), current, width);
    }
}

/// A nonempty grid's widest cell has at least its two columns of padding.
pub proof fn lemma_widest_cell_at_least_two(texts: Seq<Seq<char>>)
    requires
        texts.len() > 0,
    ensures
        widest_cell(texts) >= 2,
    decreases texts.len(),
{
    if texts.len() > 1 {
        lemma_widest_cell_at_least_two(texts.drop_last());
    }
}

/// A cell of the grid starts inside the width: its column times the cell
/// width stays at most the width.
pub proof fn lemma_grid_column_fits(k: int, columns: int, cell_width: int, width: int)
    requires
        0 <= k,
        1 <= cell_width,
        0 <= width,
        columns == grid_columns(cell_width, width),
    ensures
        0 <= (k % columns) * cell_width <= width,
        0 <= k % columns < columns,
{
    if width / cell_width >= 1 {
        assert((k % columns) * cell_width <= width) by (nonlinear_arith)
            requires
                columns == width / cell_width,
                columns >= 1,
                cell_width >= 1,
                k >= 0,
                0 <= width,
        {
            assert(0 <= k % columns < columns);
            assert((k % columns) * cell_width <= (columns - 1) * cell_width);
            assert(columns * cell_width <= width);
        }
        assert(0 <= (k % columns) * cell_width) by (nonlinear_arith)
            requires columns >= 1, cell_width >= 1, k >= 0;
    } else {
        assert(columns == 1);
        assert(k % 1 == 0);
    }
}

/// Each control of the page with its area, in the order `scheduling_layout`
/// places them.
pub open spec fn control_areas(
    labels: Seq<&str>,
    current: Option<usize>,
    cpus: Seq<usize>,
    mask: usize,
    kinds: Seq<Option<CpuCoreKind>>,
    width: int,
) -> Seq<(SchedulingControl, Rect)> {
    let w = page_width(width);
    let (_px, py, pcells) = priority_cells(labels, current, w);
    let texts = affinity_texts(cpus, mask, kinds);
    let cell_width = grid_cell_width(texts, w);
    let columns = grid_columns(cell_width, w);
    Seq::new(pcells.len(), |i: int| (SchedulingControl::Priority(i as usize), pcells[i].0)) + Seq::new(
        texts.len(),
        |j: int| (SchedulingControl::Affinity(j as usize), grid_area(j, columns, cell_width, py + 3)),
    )
}

/// Whether every checkbox of the page can be counted in 16 bits.
pub open spec fn checkboxes_fit(cpus: Seq<usize>, mask: usize, kinds: Seq<Option<CpuCoreKind>>) -> bool {
    forall|j: int| 0 <= j < cpus.len() ==> text_cell_fits(#[trigger] affinity_texts(cpus, mask, kinds)[j])
}

/// The control under the cell `(x, y)` of the page drawn in `area` and
/// scrolled by `scroll_offset` rows: the first control whose area holds the
/// point taken relative to the page (its row cut to 16 bits); none outside
/// the area, in the log view (which shows no controls), where the page cannot
/// be laid out, or where no control is hit.
pub fn scheduling_control_at(
    priority_labels: &Vec<&str>,
    current_priority: Option<usize>,
    cpus: &Vec<usize>,
    kinds: &Vec<Option<CpuCoreKind>>,
    affinity_mask: usize,
    log_view: bool,
    scroll_offset: usize,
    area: Rect,
    x: u16,
    y: u16,
) -> (r: Option<SchedulingControl>)
    requires
        priority_labels@.len() < u16::MAX - 1,
        cpus@.len() < u16::MAX,
        forall|i: int| 0 <= i < cpus@.len() ==> #[trigger] cpus@[i] < usize::BITS,
        scroll_offset + u16::MAX <= usize::MAX,
    ensures
        ({
            let cells = control_areas(priority_labels@, current_priority, cpus@, affinity_mask, kinds@, area.width as int);
            let px = x - area.x;
            let row = (#[verifier::truncate] ((scroll_offset + (y - area.y)) as u16)) as int;
            if !area.contains_spec(x as int, y as int) || log_view || !checkboxes_fit(cpus@, affinity_mask, kinds@) {
                r is None
            } else {
                match r {
                    Some(control) => exists|i: int|
                        0 <= i < cells.len() && (#[trigger] cells[i]).0 == control && cells[i].1.contains_spec(px, row)
                            && forall|j: int| 0 <= j < i ==> !(#[trigger] cells[j]).1.contains_spec(px, row),
                    None => forall|i: int| 0 <= i < cells.len() ==> !(#[trigger] cells[i]).1.contains_spec(px, row),
                }
            }
        }),
{
    if !(x >= area.x && x < area.right() && y >= area.y && y < area.bottom()) || log_view {
        return None;
    }
    let row = #[verifier::truncate] ((scroll_offset + ((y - area.y) as usize)) as u16);
    let px = x - area.x;
    let ghost cells = control_areas(priority_labels@, current_priority, cpus@, affinity_mask, kinds@, area.width as int);
    let found = scheduling_layout(priority_labels, current_priority, cpus, kinds, affinity_mask, area.width);
    match found {
        None => {
            proof {
                let texts = affinity_texts(cpus@, affinity_mask, kinds@);
                let j = choose|j: int| 0 <= j < texts.len() && !text_cell_fits(#[trigger] texts[j]);
                assert(!text_cell_fits(affinity_texts(cpus@, affinity_mask, kinds@)[j]));
            }
            None
        },
        Some(layout) => {
            proof {
                assert(checkboxes_fit(cpus@, affinity_mask, kinds@));
                let w = page_width(area.width as int);
                let pcells = priority_cells(priority_labels@, current_priority, w).2;
                assert(cells.len() == layout.cells@.len());
                assert forall|t: int| 0 <= t < cells.len() implies #[trigger] cells[t] == (
                    layout.cells@[t].control,
                    layout.cells@[t].area,
                ) by {
                    if t >= pcells.len() {
                        let j = t - pcells.len();
                        assert(layout.cells@[pcells.len() + j] == layout.cells@[t]);
                    }
                }
            }
            let mut i: usize = 0;
            while i < layout.cells.len()
                invariant
                    i <= layout.cells@.len() == cells.len(),
                    cells == control_areas(priority_labels@, current_priority, cpus@, affinity_mask, kinds@, area.width as int),
                    area.contains_spec(x as int, y as int),
                    !log_view,
                    checkboxes_fit(cpus@, affinity_mask, kinds@),
                    px == x - area.x,
                    row as int == ((scroll_offset + (y - area.y)) as u16) as int,
                    forall|t: int| 0 <= t < cells.len() ==> #[trigger] cells[t] == (
                        layout.cells@[t].control,
                        layout.cells@[t].area,
                    ),
                    forall|t: int| 0 <= t < i ==> !(#[trigger] cells[t]).1.contains_spec(px as int, row as int),
                decreases layout.cells@.len() - i,
            {
                let cell = &layout.cells[i];
                if px >= cell.area.x && px < cell.area.right() && row >= cell.area.y && row < cell.area.bottom() {
                    assert(cells[i as int].1.contains_spec(px as int, row as int));
                    return Some(cell.control);
                }
                i = i + 1;
            }
            None
        },
    }
}

/// The priority choices placed so far end within the page's columns.
pub proof fn lemma_priority_cells_within(labels: Seq<&str>, current: Option<usize>, w: int)
    requires
        1 <= w <= u16::MAX,
    ensures
        0 <= priority_cells(labels, current, w).0 <= u16::MAX,
        forall|i: int|
            0 <= i < priority_cells(labels, current, w).2.len() ==> (#[trigger] priority_cells(labels, current, w).2[i]).0.x
                + priority_cells(labels, current, w).2[i].0.width <= w,
    decreases labels.len(),
{
    if labels.len() > 0 {
        lemma_priority_cells_within(labels.drop_last(), current, w);
        let (x, y, cells) = priority_cells(labels.drop_last(), current, w);
        let text = priority_text(labels.last()@, current == Some((labels.len() - 1) as usize));
        let cw = cell_columns(text);
        let wrap = x > 0 && add16(x, cw) > w;
        let x1 = if wrap { 0 } else { x };
        let y1 = if wrap { y + 1 } else { y };
        let r = Rect::placed(x1, y1, min_int(cw, w), 1);
        assert(r.x + r.width <= w);
        let all = cells.push((r, text));
        assert forall|i: int| 0 <= i < all.len() implies (#[trigger] all[i]).0.x + all[i].0.width <= w by {
            if i < cells.len() {
                assert(all[i] == cells[i]);
            }
        }
    }
}

/// Every control of the scheduling page lies within the page's columns, so
/// that drawing never cuts one at the right edge of the page.
#[verifier::spinoff_prover]
pub proof fn controls_stay_within_the_page(
    labels: Seq<&str>,
    current: Option<usize>,
    cpus: Seq<usize>,
    mask: usize,
    kinds: Seq<Option<CpuCoreKind>>,
    width: int,
)
    requires
        0 <= width <= u16::MAX,
    ensures
        forall|i: int|
            0 <= i < control_areas(labels, current, cpus, mask, kinds, width).len() ==> (#[trigger] control_areas(
                labels,
                current,
                cpus,
                mask,
                kinds,
                width,
            )[i]).1.x + control_areas(labels, current, cpus, mask, kinds, width)[i].1.width <= page_width(width),
{
    let w = page_width(width);
    let (_px, py, pcells) = priority_cells(labels, current, w);
    let texts = affinity_texts(cpus, mask, kinds);
    let cell_width = grid_cell_width(texts, w);
    let columns = grid_columns(cell_width, w);
    let all = control_areas(labels, current, cpus, mask, kinds, width);
    lemma_priority_cells_within(labels, current, w);
    if texts.len() > 0 {
        lemma_widest_cell_at_least_two(texts);
    }
    assert forall|i: int| 0 <= i < all.len() implies (#[trigger] all[i]).1.x + all[i].1.width <= w by {
        if i < pcells.len() {
            assert(all[i].1 == pcells[i].0);
        } else {
            let j = i - pcells.len();
            assert(all[i].1 == grid_area(j, columns, cell_width, py + 3));
            lemma_grid_column_fits(j, columns, cell_width, w);
            if w / cell_width >= 1 {
                assert((j % columns) * cell_width + cell_width <= w) by (nonlinear_arith)
                    requires
                        columns == w / cell_width,
                        0 <= j % columns < columns,
                        cell_width >= 1,
                        w >= 0,
                {
                    assert((j % columns) * cell_width + cell_width == (j % columns + 1) * cell_width);
                    assert((j % columns + 1) * cell_width <= columns * cell_width);
                    assert(columns * cell_width <= w);
                }
            } else {
                assert(j % columns == 0);
            }
        }
    }
}

/// The control that has the focus: none unless the page's content has it;
/// otherwise the selected processor checkbox when the checkboxes have it, else
/// the selected priority choice.
pub fn focused_scheduling_control(
    content_focused: bool,
    affinity_focused: bool,
    selected: usize,
    affinity_selected: usize,
) -> (r: Option<SchedulingControl>)
    ensures
        r == if !content_focused {
            None
        } else if affinity_focused {
            Some(SchedulingControl::Affinity(affinity_selected))
        } else {
            Some(SchedulingControl::Priority(selected))
        },
{
    if !content_focused {
        None
    } else if affinity_focused {
        Some(SchedulingControl::Affinity(affinity_selected))
    } else {
        Some(SchedulingControl::Priority(selected))
    }
}

/// The role of a control's text: set off when it has the focus, body text
/// otherwise.
pub open spec fn cell_tone(control: SchedulingControl, focused: Option<SchedulingControl>) -> Tone {
    if focused == Some(control) {
        Tone::Focused
    } else {
        Tone::Text
    }
}

/// Cells a line of pieces takes, each piece measured as a span (the sum held
/// at the largest `usize`).
pub open spec fn pieces_width(line: Seq<(Tone, Seq<char>)>) -> int
    decreases line.len(),
{
    if line.len() == 0 {
        0
    } else {
        add_upto(pieces_width(line.drop_last()), span_width(line.last().1) as int, usize::MAX as int)
    }
}

/// The rows of the page before its controls are placed: as many as come
/// before the summary, the priority heading on row 1 and the affinity heading
/// on its row, the others empty.
pub open spec fn heading_rows(layout: SchedulingLayout) -> Seq<Seq<(Tone, Seq<char>)>> {
    Seq::new(
        layout.summary_start as nat,
        |i: int|
            if i == 1 {
                seq![(Tone::Title, "Priority "@)]
            } else if i == layout.affinity_heading {
                seq![(Tone::Title, "Affinity"@), (Tone::Plain, " (Group 0)"@)]
            } else {
                Seq::empty()
            },
    )
}

/// The rows with the controls placed in turn: each on its row, after spaces
/// up to its column (no spaces where the row already reaches it).
pub open spec fn placed_rows(
    rows: Seq<Seq<(Tone, Seq<char>)>>,
    cells: Seq<SchedulingCell>,
    focused: Option<SchedulingControl>,
) -> Seq<Seq<(Tone, Seq<char>)>>
    decreases cells.len(),
{
    if cells.len() == 0 {
        rows
    } else {
        let r = placed_rows(rows, cells.drop_last(), focused);
        let c = cells.last();
        let y = c.area.y as int;
        let gap = sub0(c.area.x as int, pieces_width(r[y]));
        r.update(y, r[y] + seq![(Tone::Plain, spaces(gap)), (cell_tone(c.control, focused), c.text@)])
    }
}

/// Messages wrapped at `width` cells, one line of a single piece in `tone`
/// per wrapped line, message after message.
pub open spec fn message_lines(messages: Seq<Seq<char>>, width: int, tone: Tone) -> Seq<Seq<(Tone, Seq<char>)>>
    decreases messages.len(),
{
    if messages.len() == 0 {
        Seq::empty()
    } else {
        let parts = wrapped(messages.last(), width);
        message_lines(messages.drop_last(), width, tone) + Seq::new(parts.len(), |i: int| single(tone, parts[i]))
    }
}

/// The plain messages under the controls: the current priority where it is
/// not one of the choices, then the errors.
pub open spec fn scheduling_notes(unselectable_priority: Option<Seq<char>>, errors: Seq<Seq<char>>) -> Seq<Seq<char>> {
    match unselectable_priority {
        Some(label) => seq!["Priority: "@ + label + " (not selectable)"@] + errors,
        None => errors,
    }
}

/// The scheduling page in `width` columns (one kept for the scrollbar, at
/// least one left): in the log view only a wrapped note that nothing was
/// recorded; otherwise the rows of headings and controls (see `heading_rows`,
/// `placed_rows`), then the notes wrapped (see `scheduling_notes`), then the
/// warnings wrapped in the warning role.
pub open spec fn scheduling_lines_spec(
    log_view: bool,
    layout: SchedulingLayout,
    focused: Option<SchedulingControl>,
    unselectable_priority: Option<Seq<char>>,
    errors: Seq<Seq<char>>,
    warnings: Seq<Seq<char>>,
    width: int,
) -> Seq<Seq<(Tone, Seq<char>)>> {
    let w = page_width(width);
    if log_view {
        message_lines(seq!["Not recorded in Log view."@], w, Tone::Plain)
    } else {
        placed_rows(heading_rows(layout), layout.cells@, focused) + message_lines(
            scheduling_notes(unselectable_priority, errors),
            w,
            Tone::Plain,
        ) + message_lines(warnings, w, Tone::Warning)
    }
}

/// Wrapping messages one after another gives their wrapped lines one after
/// another.
pub proof fn lemma_message_lines_append(a: Seq<Seq<char>>, b: Seq<Seq<char>>, width: int, tone: Tone)
    ensures
        message_lines(a + b, width, tone) == message_lines(a, width, tone) + message_lines(b, width, tone),
    decreases b.len(),
{
    if b.len() == 0 {
        assert(a + b =~= a);
    } else {
        lemma_message_lines_append(a, b.drop_last(), width, tone);
        assert((a + b).drop_last() =~= a + b.drop_last());
        assert((a + b).last() == b.last());
    }
}

/// Appends the wrapped lines of one message.
fn push_message(lines: &mut Vec<Vec<Piece>>, message: &str, width: usize, tone: Tone)
    ensures
        lines_view(final(lines)@) == lines_view(old(lines)@) + message_lines(seq![message@], width as int, tone),
{
    let parts = wrap_display(message, width);
    let ghost wanted = wrapped(message@, width as int);
    let ghost start = lines_view(lines@);
    let n = parts.len();
    let mut i: usize = 0;
    while i < n
        invariant
            i <= n == parts@.len() == wanted.len(),
            forall|k: int| 0 <= k < n ==> #[trigger] parts@[k]@ == wanted[k],
            lines_view(lines@) == start + Seq::new(i as nat, |k: int| single(tone, wanted[k])),
        decreases n - i,
    {
        let line = single_line(tone, parts[i].clone());
        push_line(lines, line);
        assert(lines_view(lines@) =~= start + Seq::new((i + 1) as nat, |k: int| single(tone, wanted[k])));
        i = i + 1;
    }
    assert(seq![message@].drop_last() =~= Seq::<Seq<char>>::empty());
    assert(seq![message@].last() == message@);
    assert(message_lines(Seq::<Seq<char>>::empty(), width as int, tone) =~= Seq::<Seq<(Tone, Seq<char>)>>::empty());
    assert(message_lines(seq![message@], width as int, tone) =~= Seq::new(n as nat, |k: int| single(tone, wanted[k])));
}

/// Appends the wrapped lines of each message in turn.
fn push_messages(lines: &mut Vec<Vec<Piece>>, messages: &Vec<String>, width: usize, tone: Tone)
    ensures
        lines_view(final(lines)@) == lines_view(old(lines)@) + message_lines(texts_of(messages@), width as int, tone),
{
    let ghost start = lines_view(lines@);
    let n = messages.len();
    let mut i: usize = 0;
    while i < n
        invariant
            i <= n == messages@.len(),
            lines_view(lines@) == start + message_lines(texts_of(messages@).take(i as int), width as int, tone),
        decreases n - i,
    {
        push_message(lines, messages[i].as_str(), width, tone);
        proof {
            let texts = texts_of(messages@);
            assert(texts.take(i + 1) =~= texts.take(i as int) + seq![messages@[i as int]@]);
            lemma_message_lines_append(texts.take(i as int), seq![messages@[i as int]@], width as int, tone);
        }
        i = i + 1;
    }
    assert(texts_of(messages@).take(n as int) =~= texts_of(messages@));
}

/// The lines of the scheduling page; see `scheduling_lines_spec`. `layout` is
/// the page laid out in one column more than the text (see
/// `scheduling_layout`), `focused` the control with the focus (see
/// `focused_scheduling_control`), `unselectable_priority` the label of the
/// current priority where it is not one of the choices, `errors` the messages
/// of failed or unconfirmed changes of priority and affinity, `warnings` why
/// changes are disabled and the last notice.
pub fn scheduling_lines(
    log_view: bool,
    layout: &SchedulingLayout,
    focused: Option<SchedulingControl>,
    unselectable_priority: Option<&str>,
    errors: &Vec<String>,
    warnings: &Vec<String>,
    width: u16,
) -> (r: Vec<Vec<Piece>>)
    requires
        layout_rows_fit(*layout),
    ensures
        lines_view(r@) == scheduling_lines_spec(
            log_view,
            *layout,
            focused,
            match unselectable_priority {
                Some(label) => Some(label@),
                None => None,
            },
            texts_of(errors@),
            texts_of(warnings@),
            width as int,
        ),
{
    let w: usize = if width >= 2 { (width - 1) as usize } else { 1 };
    let mut lines: Vec<Vec<Piece>> = Vec::new();
    if log_view {
        push_message(&mut lines, "Not recorded in Log view.", w, Tone::Plain);
        assert(lines_view(lines@) =~= message_lines(seq!["Not recorded in Log view."@], w as int, Tone::Plain));
        return lines;
    }
    let ghost heads = heading_rows(*layout);
    let n = layout.summary_start;
    let mut widths: Vec<usize> = Vec::new();
    let mut i: usize = 0;
    while i < n
        invariant
            i <= n == layout.summary_start,
            heads == heading_rows(*layout),
            2 <= layout.affinity_heading < layout.summary_start,
            lines_view(lines@) == heads.take(i as int),
            widths@.len() == i,
            forall|k: int| 0 <= k < i ==> #[trigger] widths@[k] == pieces_width(heads[k]),
        decreases n - i,
    {
        let ghost before = lines_view(lines@);
        if i == 1 {
            let row = vec![piece(Tone::Title, "Priority ")];
            let wide = str_width("Priority ");
            proof {
                let want = seq![(Tone::Title, "Priority "@)];
                assert(line_view(row@) =~= want);
                assert(heads[i as int] == want);
                assert(want.drop_last() =~= Seq::<(Tone, Seq<char>)>::empty());
                assert(want.last().1 == "Priority "@);
                assert(pieces_width(want.drop_last()) == 0);
                assert(pieces_width(want) == wide);
            }
            push_line(&mut lines, row);
            widths.push(wide);
        } else if i == layout.affinity_heading {
            let row = vec![piece(Tone::Title, "Affinity"), piece(Tone::Plain, " (Group 0)")];
            let wide = str_width("Affinity").saturating_add(str_width(" (Group 0)"));
            proof {
                let want = seq![(Tone::Title, "Affinity"@), (Tone::Plain, " (Group 0)"@)];
                assert(line_view(row@) =~= want);
                assert(heads[i as int] == want);
                assert(want.drop_last() =~= seq![(Tone::Title, "Affinity"@)]);
                assert(want.drop_last().drop_last() =~= Seq::<(Tone, Seq<char>)>::empty());
                assert(want.drop_last().last().1 == "Affinity"@);
                assert(want.last().1 == " (Group 0)"@);
                assert(pieces_width(want.drop_last().drop_last()) == 0);
                assert(pieces_width(want.drop_last()) == span_width("Affinity"@));
                assert(pieces_width(want) == wide);
            }
            push_line(&mut lines, row);
            widths.push(wide);
        } else {
            let row: Vec<Piece> = Vec::new();
            proof {
                assert(line_view(row@) =~= heads[i as int]);
            }
            push_line(&mut lines, row);
            widths.push(0);
        }
        proof {
            assert(lines_view(lines@) =~= heads.take(i + 1));
        }
        i = i + 1;
    }
    assert(heads.take(n as int) =~= heads);
    let cells = &layout.cells;
    let m = cells.len();
    let mut j: usize = 0;
    while j < m
        invariant
            j <= m == layout.cells@.len(),
            *cells == layout.cells,
            n == layout.summary_start,
            heads == heading_rows(*layout),
            layout_rows_fit(*layout),
            lines@.len() == n,
            widths@.len() == n,
            lines_view(lines@) == placed_rows(heads, layout.cells@.take(j as int), focused),
            forall|k: int| 0 <= k < n ==> #[trigger] widths@[k] == pieces_width(lines_view(lines@)[k]),
        decreases m - j,
    {
        let ghost before = lines_view(lines@);
        let cell = &cells[j];
        let y = cell.area.y as usize;
        assert(y < n);
        let gap = (cell.area.x as usize).saturating_sub(widths[y]);
        let pad = repeat_string(' ', gap);
        let pad_width = str_width(pad.as_str());
        let text = cell.text.clone();
        let text_width = str_width(text.as_str());
        let is_focused = match focused {
            Some(f) => f == cell.control,
            None => false,
        };
        let tone = if is_focused { Tone::Focused } else { Tone::Text };
        let mut row = lines.remove(y);
        let ghost old_row = row@;
        row.push(Piece { tone: Tone::Plain, text: pad });
        row.push(Piece { tone, text });
        lines.insert(y, row);
        let new_width = widths[y].saturating_add(pad_width).saturating_add(text_width);
        widths.set(y, new_width);
        proof {
            let c = layout.cells@[j as int];
            assert(layout.cells@.take(j + 1).drop_last() =~= layout.cells@.take(j as int));
            assert(layout.cells@.take(j + 1).last() == c);
            assert(tone == cell_tone(c.control, focused));
            let added = seq![(Tone::Plain, spaces(gap as int)), (cell_tone(c.control, focused), c.text@)];
            assert(line_view(lines@[y as int]@) =~= before[y as int] + added);
            assert(lines_view(lines@) =~= before.update(y as int, before[y as int] + added));
            let after = before[y as int] + added;
            assert(after.drop_last() =~= before[y as int].push(added[0]));
            assert(after.drop_last().drop_last() =~= before[y as int]);
            assert(after.last() == added[1]);
            assert(after.drop_last().last() == added[0]);
            assert(pad@ == spaces(gap as int));
            assert(pieces_width(after.drop_last()) == add_upto(pieces_width(before[y as int]), span_width(spaces(gap as int)) as int, usize::MAX as int));
            assert(pieces_width(after) == new_width);
            assert(lines_view(lines@)[y as int] == after);
            assert forall|k: int| 0 <= k < n implies #[trigger] widths@[k] == pieces_width(lines_view(lines@)[k]) by {
                if k != y {
                    assert(lines_view(lines@)[k] == before[k]);
                }
            }
        }
        j = j + 1;
    }
    assert(layout.cells@.take(m as int) =~= layout.cells@);
    let ghost grid = lines_view(lines@);
    match unselectable_priority {
        Some(label) => {
            let note = concat3("Priority: ", label, " (not selectable)");
            push_message(&mut lines, note.as_str(), w, Tone::Plain);
        },
        None => {},
    }
    push_messages(&mut lines, errors, w, Tone::Plain);
    proof {
        match unselectable_priority {
            Some(label) => {
                let note = "Priority: "@ + label@ + " (not selectable)"@;
                lemma_message_lines_append(seq![note], texts_of(errors@), w as int, Tone::Plain);
            },
            None => {},
        }
    }
    push_messages(&mut lines, warnings, w, Tone::Warning);
    lines
}

} // verus!

//! The graph reorder dialog.

use vstd::prelude::*;

use crate::ui::format::{decimal, decimal_string};
use crate::ui::help::{shortcut_width, shortcut_width_spec};
use crate::ui::rect::{add_upto, max_int, min_int, Rect};
use crate::ui::widgets::scrollable_modal::{ScrollableModal, ScrollableModalPlacement};

verus! {

/// Rows of the heading.
pub const HEADER_ROW_COUNT: usize = 1;
/// Characters of the slot field.
pub const SLOT_WIDTH: usize = 4;
/// Characters of the metric field.
pub const METRIC_WIDTH: usize = 18;

/// What a graph shows: a process, a system metric, or a GPU adapter.
pub enum GraphTarget {
    Process { name: String, pid: u32 },
    System { panel_label: String },
    Gpu { adapter_name: String },
}

/// The label of a graph's target: a process with its PID, a system metric by
/// its panel label, or a GPU adapter by name.
pub open spec fn target_label_spec(target: GraphTarget) -> Seq<char> {
    match target {
        GraphTarget::Process { name, pid } => name@ + " (PID "@ + decimal(pid as nat) + ")"@,
        GraphTarget::System { panel_label } => panel_label@,
        GraphTarget::Gpu { adapter_name } => adapter_name@,
    }
}

/// The label of a graph's target.
pub fn graph_target_label(target: &GraphTarget) -> (r: String)
    ensures
        r@ == target_label_spec(*target),
{
    match target {
        GraphTarget::Process { name, pid } => {
            let mut out = name.clone();
            out.append(" (PID ");
            let digits = decimal_string(*pid as u128);
            out.append(digits.as_str());
            out.append(")");
            out
        },
        GraphTarget::System { panel_label } => panel_label.clone(),
        GraphTarget::Gpu { adapter_name } => adapter_name.clone(),
    }
}

/// The footer shortcuts of the dialog.
pub fn shortcut_items() -> (r: Vec<(&'static str, &'static str)>)
    ensures
        r@.len() == 4,
        r@[0].0@ == "↑/↓"@ && r@[0].1@ == "Select"@,
        r@[1].0@ == "Shift+↑/↓"@ && r@[1].1@ == "Move"@,
        r@[2].0@ == "Enter"@ && r@[2].1@ == "Apply"@,
        r@[3].0@ == "Esc"@ && r@[3].1@ == "Cancel"@,
{
    let mut r = Vec::new();
    r.push(("↑/↓", "Select"));
    r.push(("Shift+↑/↓", "Move"));
    r.push(("Enter", "Apply"));
    r.push(("Esc", "Cancel"));
    r
}

/// Characters of a row for the graph at `index` (shown from one), its metric
/// label and its target label.
pub open spec fn reorder_row_width(index: int, metric_len: int, target_len: int) -> int {
    2 + max_int(decimal((index + 1) as nat).len() as int, SLOT_WIDTH as int) + 2 + max_int(metric_len, METRIC_WIDTH as int)
        + 2 + target_len
}

/// The widest row among graphs given as (metric label, target label), in
/// order.
pub open spec fn widest_reorder_row(rows: Seq<(String, String)>) -> int
    decreases rows.len(),
{
    if rows.len() == 0 {
        0
    } else {
        max_int(
            widest_reorder_row(rows.drop_last()),
            reorder_row_width(rows.len() - 1, rows.last().0@.len() as int, rows.last().1@.len() as int),
        )
    }
}

/// Characters of the dialog body: the heading (34), footer (51) or widest row,
/// held at sixteen bits.
pub open spec fn reorder_width_spec(rows: Seq<(String, String)>) -> u16 {
    min_int(max_int(max_int(34, 51), widest_reorder_row(rows)), u16::MAX as int) as u16
}

/// Characters of the dialog body for graphs given as (metric label, target
/// label), in order.
pub fn graph_reorder_content_width(rows: &Vec<(String, String)>) -> (r: u16)
    requires
        rows@.len() < usize::MAX,
        forall|i: int| 0 <= i < rows@.len() ==> reorder_row_width(i, #[trigger] rows@[i].0@.len() as int, rows@[i].1@.len() as int)
            <= usize::MAX,
    ensures
        r == reorder_width_spec(rows@),
{
    let items = shortcut_items();
    proof {
        reveal_strlit("↑/↓");
        reveal_strlit("Select");
        reveal_strlit("Shift+↑/↓");
        reveal_strlit("Move");
        reveal_strlit("Enter");
        reveal_strlit("Apply");
        reveal_strlit("Esc");
        reveal_strlit("Cancel");
        reveal_with_fuel(shortcut_width_spec, 5);
        assert(items@.drop_last().drop_last().drop_last().drop_last().len() == 0);
    }
    let shortcut = shortcut_width(&items);
    let header_width: usize = 2 + SLOT_WIDTH + 2 + METRIC_WIDTH + 2 + 6;
    let mut widest: usize = 0;
    let mut i: usize = 0;
    while i < rows.len()
        invariant
            i <= rows@.len() < usize::MAX,
            widest == widest_reorder_row(rows@.take(i as int)),
            forall|k: int| 0 <= k < rows@.len() ==> reorder_row_width(k, #[trigger] rows@[k].0@.len() as int, rows@[k].1@.len() as int)
                <= usize::MAX,
        decreases rows@.len() - i,
    {
        let digits = decimal_string((i + 1) as u128);
        let d = digits.as_str().unicode_len();
        let slot = if d > SLOT_WIDTH { d } else { SLOT_WIDTH };
        let m = rows[i].0.as_str().unicode_len();
        let metric = if m > METRIC_WIDTH { m } else { METRIC_WIDTH };
        proof {
            assert(rows@.take(i + 1).drop_last() =~= rows@.take(i as int));
            assert(reorder_row_width(i as int, rows@[i as int].0@.len() as int, rows@[i as int].1@.len() as int) <= usize::MAX);
        }
        let w = 2 + slot + 2 + metric + 2 + rows[i].1.as_str().unicode_len();
        if w > widest {
            widest = w;
        }
        i = i + 1;
    }
    assert(rows@.take(rows@.len() as int) =~= rows@);
    let a = if header_width > shortcut { header_width } else { shortcut };
    let b = if a > widest { a } else { widest };
    if b < 65535 {
        b as u16
    } else {
        65535
    }
}

/// The body row of the graph at `index`.
pub fn graph_reorder_row_for_index(index: usize) -> (r: usize)
    ensures
        r == add_upto(HEADER_ROW_COUNT as int, index as int, usize::MAX as int),
{
    HEADER_ROW_COUNT.saturating_add(index)
}

/// The dialog for graphs given as (metric label, target label), with
/// `total_rows` body rows held at sixteen bits.
pub fn graph_reorder_modal(rows: &Vec<(String, String)>, total_rows: usize) -> (r: ScrollableModal)
    requires
        rows@.len() < usize::MAX,
        forall|i: int| 0 <= i < rows@.len() ==> reorder_row_width(i, #[trigger] rows@[i].0@.len() as int, rows@[i].1@.len() as int)
            <= usize::MAX,
    ensures
        r.title@ == "REORDER GRAPHS"@,
        r.content_width == reorder_width_spec(rows@),
        r.content_height == min_int(total_rows as int, u16::MAX as int),
        r.footer_height == 1,
        r.placement == ScrollableModalPlacement::Centered,
{
    let h = if total_rows < 65535 { total_rows as u16 } else { 65535 };
    ScrollableModal::new("REORDER GRAPHS", graph_reorder_content_width(rows), h, 1)
}

/// The graph under the cell `(x, y)` of the dialog body scrolled by
/// `scroll_offset`: none outside the body, on the heading, or past the last of
/// `order_len` graphs.
pub fn graph_reorder_index_at(
    rows: &Vec<(String, String)>,
    total_rows: usize,
    order_len: usize,
    scroll_offset: usize,
    area: Rect,
    x: u16,
    y: u16,
) -> (r: Option<usize>)
    requires
        rows@.len() < usize::MAX,
        forall|i: int| 0 <= i < rows@.len() ==> reorder_row_width(i, #[trigger] rows@[i].0@.len() as int, rows@[i].1@.len() as int)
            <= usize::MAX,
    ensures
        ({
            let modal = ScrollableModal {
                title: "REORDER GRAPHS",
                content_width: reorder_width_spec(rows@),
                content_height: min_int(total_rows as int, u16::MAX as int) as u16,
                footer_height: 1,
                placement: ScrollableModalPlacement::Centered,
            };
            let content = modal.layout_in(area).content;
            let row = add_upto(y - content.y, scroll_offset as int, usize::MAX as int);
            if !content.contains_spec(x as int, y as int) || row < HEADER_ROW_COUNT || row - HEADER_ROW_COUNT >= order_len {
                r is None
            } else {
                r == Some((row - HEADER_ROW_COUNT) as usize)
            }
        }),
{
    let content = graph_reorder_modal(rows, total_rows).layout(area).content;
    if x < content.x || x >= content.right() || y < content.y || y >= content.bottom() {
        return None;
    }
    let row = ((y - content.y) as usize).saturating_add(scroll_offset);
    if row < HEADER_ROW_COUNT {
        return None;
    }
    let index = row - HEADER_ROW_COUNT;
    if index < order_len {
        Some(index)
    } else {
        None
    }
}

} // verus!

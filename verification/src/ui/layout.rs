//! Heights and widths of the main panels.

use vstd::prelude::*;
use ratatui::layout::{Constraint, Direction, Layout};

use crate::ui::format::{decimal, decimal_string};
use crate::ui::rect::{add16, add_upto, max_int, min_int, sub0, Rect};
use crate::ui::text::{line_width, str_line_width};

verus! {

/// Rows of the system panel.
pub const SYSTEM_PANEL_HEIGHT: u16 = 7;
/// Rows of the samples header.
pub const DETAILS_SAMPLES_HEADER_HEIGHT: u16 = 1;
/// Rows between the samples and their summary.
pub const DETAILS_SAMPLES_SUMMARY_SPACER_HEIGHT: u16 = 1;
/// Rows of the base summary of the samples.
pub const DETAILS_SAMPLES_BASE_SUMMARY_HEIGHT: u16 = 2;
/// Rows of the A/B summary.
pub const DETAILS_SAMPLES_AB_SUMMARY_HEIGHT: u16 = 3;
/// Rows of the A/B range summary.
pub const DETAILS_SAMPLES_AB_RANGE_SUMMARY_HEIGHT: u16 = 4;
/// Widest samples panel with its delta column.
pub const DETAILS_SAMPLES_MAX_WIDTH: u16 = 50;
/// Widest samples panel without its delta column.
pub const DETAILS_SAMPLES_MAX_WIDTH_NO_DELTA: u16 = 33;
/// Rows of the process table's border and header.
pub const PROCESS_TABLE_CHROME_HEIGHT: u16 = 3;
/// Most rows of the process table when sized automatically.
pub const PROCESS_TABLE_MAX_HEIGHT: u16 = 13;

/// How tall the process panel is.
#[derive(Clone, Copy, Debug, PartialEq, Eq, Structural)]
pub enum ProcessPanelHeight {
    Auto,
    Manual(u16),
}

/// How many columns the graph slots take.
#[derive(Clone, Copy, Debug, PartialEq, Eq, Structural)]
pub enum GraphSlotLayout {
    Auto,
    OneColumn,
    TwoColumns,
    ThreeColumns,
}

/// Rows of the process table: its chrome and its rows (one more for a
/// tracked total), at most the preferred rows: ten when automatic, otherwise
/// the chosen count (at least one).
pub open spec fn required_height_spec(visible_process_rows: int, has_tracked_total: bool, preference: ProcessPanelHeight) -> int {
    let content = add_usize(visible_process_rows, if has_tracked_total { 1 } else { 0 });
    let preferred = match preference {
        ProcessPanelHeight::Auto => (PROCESS_TABLE_MAX_HEIGHT - PROCESS_TABLE_CHROME_HEIGHT) as int,
        ProcessPanelHeight::Manual(rows) => max_int(rows as int, 1),
    };
    add_upto(PROCESS_TABLE_CHROME_HEIGHT as int, min_int(content, preferred), u16::MAX as int)
}

/// `a + b`, held at the largest `usize`.
pub open spec fn add_usize(a: int, b: int) -> int {
    if a + b > usize::MAX { usize::MAX as int } else { a + b }
}

/// Rows of the process table; see `required_height_spec`.
pub fn process_table_required_height(
    visible_process_rows: usize,
    has_tracked_total: bool,
    preference: ProcessPanelHeight,
) -> (r: u16)
    ensures
        r == required_height_spec(visible_process_rows as int, has_tracked_total, preference),
{
    let content_rows = visible_process_rows.saturating_add(if has_tracked_total { 1 } else { 0 });
    let preferred_rows: usize = match preference {
        ProcessPanelHeight::Auto => (PROCESS_TABLE_MAX_HEIGHT - PROCESS_TABLE_CHROME_HEIGHT) as usize,
        ProcessPanelHeight::Manual(rows) => if rows >= 1 { rows as usize } else { 1 },
    };
    let rendered_rows = if content_rows < preferred_rows { content_rows } else { preferred_rows };
    PROCESS_TABLE_CHROME_HEIGHT.saturating_add(rendered_rows as u16)
}

/// Columns of graph slots: one for a single slot, otherwise the layout's count,
/// at most the slots and at most as many as fit at `slot_min_width` each (at
/// least one).
pub open spec fn graph_columns_spec(layout: GraphSlotLayout, entry_count: int, width: int, slot_min_width: int) -> int {
    if entry_count <= 1 {
        1
    } else {
        let requested = match layout {
            GraphSlotLayout::OneColumn => 1,
            GraphSlotLayout::TwoColumns => 2,
            _ => 3,
        };
        min_int(min_int(requested, entry_count), max_int(width / slot_min_width, 1))
    }
}

/// The graph workspace never shows more columns than its layout asks for:
/// one with the one-column layout, at most two with the two-column layout, at
/// most three otherwise; never more than there are graphs or than fit at
/// `slot_min_width` cells each, and always at least one.
pub proof fn graph_columns_follow_the_layout(layout: GraphSlotLayout, entry_count: int, width: int, slot_min_width: int)
    requires
        slot_min_width > 0,
        width >= 0,
    ensures
        1 <= graph_columns_spec(layout, entry_count, width, slot_min_width) <= 3,
        layout == GraphSlotLayout::OneColumn ==> graph_columns_spec(layout, entry_count, width, slot_min_width) == 1,
        layout == GraphSlotLayout::TwoColumns ==> graph_columns_spec(layout, entry_count, width, slot_min_width) <= 2,
        entry_count <= 1 ==> graph_columns_spec(layout, entry_count, width, slot_min_width) == 1,
        graph_columns_spec(layout, entry_count, width, slot_min_width) <= entry_count
            || graph_columns_spec(layout, entry_count, width, slot_min_width) == 1,
        graph_columns_spec(layout, entry_count, width, slot_min_width) * slot_min_width <= width
            || graph_columns_spec(layout, entry_count, width, slot_min_width) == 1,
{
    let r = graph_columns_spec(layout, entry_count, width, slot_min_width);
    if entry_count > 1 && r > 1 {
        let q = width / slot_min_width;
        assert(r <= q);
        assert(q * slot_min_width <= width) by (nonlinear_arith)
            requires
                q == width / slot_min_width,
                slot_min_width > 0,
                width >= 0,
        ;
        assert(r * slot_min_width <= q * slot_min_width) by (nonlinear_arith)
            requires
                r <= q,
                slot_min_width > 0,
        ;
    }
}

/// Columns of graph slots; see `graph_columns_spec`.
pub fn effective_graph_columns(layout: GraphSlotLayout, entry_count: usize, width: u16, slot_min_width: u16) -> (r: usize)
    requires
        slot_min_width > 0,
    ensures
        r == graph_columns_spec(layout, entry_count as int, width as int, slot_min_width as int),
        1 <= r <= 3,
        layout == GraphSlotLayout::OneColumn ==> r == 1,
        layout == GraphSlotLayout::TwoColumns ==> r <= 2,
        entry_count <= 1 ==> r == 1,
        r <= entry_count || r == 1,
        r * slot_min_width <= width || r == 1,
{
    proof {
        graph_columns_follow_the_layout(layout, entry_count as int, width as int, slot_min_width as int);
    }
    if entry_count <= 1 {
        return 1;
    }
    let requested: usize = match layout {
        GraphSlotLayout::OneColumn => 1,
        GraphSlotLayout::TwoColumns => 2,
        GraphSlotLayout::Auto => 3,
        GraphSlotLayout::ThreeColumns => 3,
    };
    let a = if requested < entry_count { requested } else { entry_count };
    let fit0 = (width / slot_min_width) as usize;
    let fit = if fit0 >= 1 { fit0 } else { 1 };
    if a < fit {
        a
    } else {
        fit
    }
}

/// Widest samples panel, with or without its delta column.
pub fn details_samples_max_width(show_sample_delta: bool) -> (r: u16)
    ensures
        r == if show_sample_delta { DETAILS_SAMPLES_MAX_WIDTH } else { DETAILS_SAMPLES_MAX_WIDTH_NO_DELTA },
{
    if show_sample_delta {
        DETAILS_SAMPLES_MAX_WIDTH
    } else {
        DETAILS_SAMPLES_MAX_WIDTH_NO_DELTA
    }
}

/// How the samples panel spends its rows.
#[derive(Clone, Copy, Debug, PartialEq, Eq, Structural)]
pub struct DetailsSamplesContentLayout {
    pub row_capacity: usize,
    pub show_base_summary: bool,
    pub spacer_height: u16,
}

/// How the samples panel spends `inner_height` rows: the header and the
/// required A/B summaries first; the base summary only when it and a spacer
/// still fit after one sample row; a spacer when rows are left over the base
/// summary; the sample rows get the rest, at least one.
pub open spec fn samples_layout_spec(
    inner_height: int,
    show_ab_summary: bool,
    show_ab_range_summary: bool,
    request_base_summary: bool,
) -> DetailsSamplesContentLayout {
    let ab = if show_ab_summary { DETAILS_SAMPLES_AB_SUMMARY_HEIGHT as int } else { 0 };
    let ab_range = if show_ab_range_summary { DETAILS_SAMPLES_AB_RANGE_SUMMARY_HEIGHT as int } else { 0 };
    let required = ab + ab_range;
    let after = sub0(sub0(sub0(inner_height, DETAILS_SAMPLES_HEADER_HEIGHT as int), 1), required);
    let show_base = request_base_summary && after >= DETAILS_SAMPLES_BASE_SUMMARY_HEIGHT
        + DETAILS_SAMPLES_SUMMARY_SPACER_HEIGHT;
    let base = if show_base { DETAILS_SAMPLES_BASE_SUMMARY_HEIGHT as int } else { 0 };
    let spacer = if after > base { DETAILS_SAMPLES_SUMMARY_SPACER_HEIGHT as int } else { 0 };
    let rows = sub0(sub0(sub0(sub0(inner_height, DETAILS_SAMPLES_HEADER_HEIGHT as int), required), base), spacer);
    DetailsSamplesContentLayout {
        row_capacity: max_int(rows, 1) as usize,
        show_base_summary: show_base,
        spacer_height: spacer as u16,
    }
}

/// How the samples panel spends its rows; see `samples_layout_spec`.
pub fn details_samples_content_layout(
    inner_height: u16,
    show_ab_summary: bool,
    show_ab_range_summary: bool,
    request_base_summary: bool,
) -> (r: DetailsSamplesContentLayout)
    ensures
        r == samples_layout_spec(inner_height as int, show_ab_summary, show_ab_range_summary, request_base_summary),
{
    let ab = if show_ab_summary { DETAILS_SAMPLES_AB_SUMMARY_HEIGHT } else { 0 };
    let ab_range = if show_ab_range_summary { DETAILS_SAMPLES_AB_RANGE_SUMMARY_HEIGHT } else { 0 };
    let required_summary_height = ab + ab_range;
    let height_after_required_content = inner_height.saturating_sub(DETAILS_SAMPLES_HEADER_HEIGHT).saturating_sub(
        1,
    ).saturating_sub(required_summary_height);
    let show_base_summary = request_base_summary && height_after_required_content
        >= DETAILS_SAMPLES_BASE_SUMMARY_HEIGHT + DETAILS_SAMPLES_SUMMARY_SPACER_HEIGHT;
    let base_summary_height = if show_base_summary { DETAILS_SAMPLES_BASE_SUMMARY_HEIGHT } else { 0 };
    let spacer_height = if height_after_required_content > base_summary_height {
        DETAILS_SAMPLES_SUMMARY_SPACER_HEIGHT
    } else {
        0
    };
    let rows = inner_height.saturating_sub(DETAILS_SAMPLES_HEADER_HEIGHT).saturating_sub(
        required_summary_height,
    ).saturating_sub(base_summary_height).saturating_sub(spacer_height);
    DetailsSamplesContentLayout {
        row_capacity: if rows >= 1 { rows as usize } else { 1 },
        show_base_summary,
        spacer_height,
    }
}

/// Sample rows the samples panel has room for.
pub fn details_samples_row_capacity(
    inner_height: u16,
    show_ab_summary: bool,
    show_ab_range_summary: bool,
    show_base_summary: bool,
) -> (r: usize)
    ensures
        r == samples_layout_spec(inner_height as int, show_ab_summary, show_ab_range_summary, show_base_summary).row_capacity,
        r >= 1,
{
    details_samples_content_layout(inner_height, show_ab_summary, show_ab_range_summary, show_base_summary).row_capacity
}

/// The rows the samples panel spends never exceed its height once it has room
/// for the header, the required summaries and one sample row.
pub proof fn samples_layout_fits(
    inner_height: int,
    show_ab_summary: bool,
    show_ab_range_summary: bool,
    request_base_summary: bool,
)
    requires
        0 <= inner_height <= u16::MAX,
        inner_height >= DETAILS_SAMPLES_HEADER_HEIGHT + 1 + (if show_ab_summary {
            DETAILS_SAMPLES_AB_SUMMARY_HEIGHT as int
        } else {
            0
        }) + (if show_ab_range_summary { DETAILS_SAMPLES_AB_RANGE_SUMMARY_HEIGHT as int } else { 0 }),
    ensures
        ({
            let l = samples_layout_spec(inner_height, show_ab_summary, show_ab_range_summary, request_base_summary);
            DETAILS_SAMPLES_HEADER_HEIGHT + (if show_ab_summary {
                DETAILS_SAMPLES_AB_SUMMARY_HEIGHT as int
            } else {
                0
            }) + (if show_ab_range_summary { DETAILS_SAMPLES_AB_RANGE_SUMMARY_HEIGHT as int } else { 0 })
                + (if l.show_base_summary { DETAILS_SAMPLES_BASE_SUMMARY_HEIGHT as int } else { 0 })
                + l.spacer_height + l.row_capacity == inner_height
        }),
{
}

/// The title of the graph workspace: its slot count and time span.
pub fn graph_workspace_title_label(count: usize, span_seconds: u32) -> (r: String)
    ensures
        r@ == "GRAPHS · "@ + decimal(count as nat) + (if count == 1 { " Slot"@ } else { " Slots"@ })
            + " · Span "@ + decimal(span_seconds as nat) + "s"@,
{
    let mut out = String::from_str("GRAPHS · ");
    let c = decimal_string(count as u128);
    out.append(c.as_str());
    if count == 1 {
        out.append(" Slot");
    } else {
        out.append(" Slots");
    }
    out.append(" · Span ");
    let s = decimal_string(span_seconds as u128);
    out.append(s.as_str());
    out.append("s");
    out
}

/// Rows between the process table and the graph workspace kept for the
/// workspace at least.
pub const GRAPH_WORKSPACE_MIN_HEIGHT: u16 = 5;
/// Rows of the graph workspace's shared controls.
pub const DETAILS_SHARED_CONTROLS_HEIGHT: u16 = 1;

/// A size rule of one part of a split: a fixed size, or at least a size.
#[derive(Clone, Copy, Debug, PartialEq, Eq, Structural)]
pub enum SizeConstraint {
    Length(u16),
    Min(u16),
}

/// Whether `part` can be a part of a split of `area`: from top to bottom
/// (`vertical`) it spans the area's columns and lies within its rows; from
/// left to right it spans the area's rows and lies within its columns.
pub open spec fn part_fits(part: Rect, area: Rect, vertical: bool) -> bool {
    if vertical {
        &&& part.x == area.x
        &&& part.width == area.width
        &&& area.y <= part.y
        &&& part.y + part.height <= area.bottom_spec()
    } else {
        &&& part.y == area.y
        &&& part.height == area.height
        &&& area.x <= part.x
        &&& part.x + part.width <= area.right_spec()
    }
}

/// Whether `parts` can be a split of `area` into `count` parts; see
/// `part_fits`.
pub open spec fn split_fits(area: Rect, vertical: bool, count: int, parts: Seq<Rect>) -> bool {
    &&& parts.len() == count
    &&& forall|i: int| 0 <= i < parts.len() ==> part_fits(#[trigger] parts[i], area, vertical)
}

/// Cells a size rule asks for at least: the length, or the minimum.
pub open spec fn rule_floor(c: SizeConstraint) -> int {
    match c {
        SizeConstraint::Length(n) => n as int,
        SizeConstraint::Min(n) => n as int,
    }
}

/// The sum of a sequence of sizes.
pub open spec fn sizes_total(s: Seq<int>) -> int
    decreases s.len(),
{
    if s.len() == 0 {
        0
    } else {
        sizes_total(s.drop_last()) + s.last()
    }
}

/// How many of the rules are minimums.
pub open spec fn min_rule_count(cs: Seq<SizeConstraint>) -> nat
    decreases cs.len(),
{
    if cs.len() == 0 {
        0
    } else {
        min_rule_count(cs.drop_last()) + if cs.last() is Min { 1nat } else { 0nat }
    }
}

/// Where a split starts along its direction, and how many cells it has there.
pub open spec fn split_start(area: Rect, vertical: bool) -> int {
    if vertical { area.y as int } else { area.x as int }
}

/// See `split_start`.
pub open spec fn split_extent(area: Rect, vertical: bool) -> int {
    if vertical { area.height as int } else { area.width as int }
}

/// Cells of the gaps between `count` parts.
pub open spec fn gaps_total(count: int, spacing: int) -> int {
    if count <= 0 { 0 } else { spacing * (count - 1) }
}

/// Whether the rules of a split are met exactly: the area ends within
/// sixteen-bit coordinates, at most one rule is a minimum, and the lengths,
/// the minimum and the gaps fit in the area.
pub open spec fn split_is_exact(area: Rect, vertical: bool, cs: Seq<SizeConstraint>, spacing: int) -> bool {
    &&& split_start(area, vertical) + split_extent(area, vertical) <= u16::MAX
    &&& 0 <= spacing <= i16::MAX
    &&& min_rule_count(cs) <= 1
    &&& sizes_total(cs.map_values(|c: SizeConstraint| rule_floor(c))) + gaps_total(cs.len() as int, spacing)
        <= split_extent(area, vertical)
}

/// The size of each part of an exact split: each length as given; the part
/// with a minimum takes all the cells the lengths and the gaps leave.
pub open spec fn packed_sizes(area: Rect, vertical: bool, cs: Seq<SizeConstraint>, spacing: int) -> Seq<int> {
    let lengths = cs.map_values(|c: SizeConstraint| if c is Min { 0int } else { rule_floor(c) });
    let fill = split_extent(area, vertical) - gaps_total(cs.len() as int, spacing) - sizes_total(lengths);
    cs.map_values(|c: SizeConstraint| if c is Min { fill } else { rule_floor(c) })
}

/// The part of `area` from `start` with `size` cells along the split,
/// spanning the area across.
pub open spec fn part_at(area: Rect, vertical: bool, start: int, size: int) -> Rect {
    if vertical {
        Rect { x: area.x, y: start as u16, width: area.width, height: size as u16 }
    } else {
        Rect { x: start as u16, y: area.y, width: size as u16, height: area.height }
    }
}

/// The parts of an exact split: end to end from the area's start, `spacing`
/// cells apart, sized as `packed_sizes` says.
pub open spec fn packed_parts(area: Rect, vertical: bool, cs: Seq<SizeConstraint>, spacing: int) -> Seq<Rect> {
    let sizes = packed_sizes(area, vertical, cs, spacing);
    Seq::new(
        cs.len(),
        |i: int| part_at(area, vertical, split_start(area, vertical) + sizes_total(sizes.take(i)) + spacing * i, sizes[i]),
    )
}

/// Splits `area` into parts, from top to bottom or from left to right.
///
/// Calls `ratatui::layout::Layout::split` on a layout of the given direction,
/// constraints and spacing (default flex, no margin). Of every outcome the
/// contract states what the solver's required constraints fix: one area per
/// constraint, each lying within `area` along the split and spanning it
/// across. Where the rules can all be met (`split_is_exact`), it states the
/// parts too: the lengths and the gaps are met, the first part starts at the
/// area's start, and the one part with a minimum grows over all the cells
/// left, since growing it weighs more than the trailing gap and every other
/// rule weighs far more than either. Where the rules cannot all be met, or
/// two parts have minimums, how the solver trades them is left unsaid.
#[verifier::external_body]
fn split_area(area: Rect, vertical: bool, constraints: &Vec<SizeConstraint>, spacing: u16) -> (r: Vec<Rect>)
    ensures
        split_fits(area, vertical, constraints@.len() as int, r@),
        split_is_exact(area, vertical, constraints@, spacing as int) ==> r@ == packed_parts(
            area,
            vertical,
            constraints@,
            spacing as int,
        ),
{
    let rules: Vec<Constraint> = constraints.iter().map(|c| match c {
        SizeConstraint::Length(n) => Constraint::Length(*n),
        SizeConstraint::Min(n) => Constraint::Min(*n),
    }).collect();
    let direction = if vertical { Direction::Vertical } else { Direction::Horizontal };
    let whole = ratatui::layout::Rect { x: area.x, y: area.y, width: area.width, height: area.height };
    let parts = Layout::default().direction(direction).constraints(rules).spacing(spacing).split(whole);
    parts.iter().map(|r| Rect { x: r.x, y: r.y, width: r.width, height: r.height }).collect()
}

/// Splits `area` from top to bottom; see `split_area`.
pub fn split_rows(area: Rect, constraints: &Vec<SizeConstraint>) -> (r: Vec<Rect>)
    ensures
        split_fits(area, true, constraints@.len() as int, r@),
        split_is_exact(area, true, constraints@, 0) ==> r@ == packed_parts(area, true, constraints@, 0),
{
    split_area(area, true, constraints, 0)
}

/// Splits `area` from left to right with `spacing` cells between two parts;
/// see `split_area`.
pub fn split_columns(area: Rect, constraints: &Vec<SizeConstraint>, spacing: u16) -> (r: Vec<Rect>)
    ensures
        split_fits(area, false, constraints@.len() as int, r@),
        split_is_exact(area, false, constraints@, spacing as int) ==> r@ == packed_parts(
            area,
            false,
            constraints@,
            spacing as int,
        ),
{
    split_area(area, false, constraints, spacing)
}

/// The block of `height` rows of `area` from row `y`, spanning its columns.
pub open spec fn row_block(area: Rect, y: int, height: int) -> Rect {
    part_at(area, true, y, height)
}

/// Whether `area` has at least `rows` rows and ends within sixteen-bit rows.
pub open spec fn rows_fit(area: Rect, rows: int) -> bool {
    area.y + area.height <= u16::MAX && area.height >= rows
}

/// The rows of `area` as a block of `top` rows, the middle, and a block of
/// `bottom` rows.
pub open spec fn framed_rows(area: Rect, top: int, bottom: int) -> Seq<Rect> {
    seq![
        row_block(area, area.y as int, top),
        row_block(area, area.y + top, area.height - top - bottom),
        row_block(area, area.y + area.height - bottom, bottom),
    ]
}

/// The rows of `area` as a block of `top` rows and the rest.
pub open spec fn headed_rows(area: Rect, top: int) -> Seq<Rect> {
    seq![row_block(area, area.y as int, top), row_block(area, area.y + top, area.height - top)]
}

/// A fixed top block, a growing middle and a fixed bottom block that fit
/// split the rows exactly as `framed_rows` says.
pub proof fn lemma_framed_split(area: Rect, top: u16, least: u16, bottom: u16)
    requires
        rows_fit(area, top + least + bottom),
    ensures
        ({
            let cs = seq![SizeConstraint::Length(top), SizeConstraint::Min(least), SizeConstraint::Length(bottom)];
            split_is_exact(area, true, cs, 0) && packed_parts(area, true, cs, 0) == framed_rows(
                area,
                top as int,
                bottom as int,
            )
        }),
{
    let cs = seq![SizeConstraint::Length(top), SizeConstraint::Min(least), SizeConstraint::Length(bottom)];
    reveal_with_fuel(sizes_total, 4);
    reveal_with_fuel(min_rule_count, 4);
    assert(cs.drop_last() =~= seq![SizeConstraint::Length(top), SizeConstraint::Min(least)]);
    assert(cs.drop_last().drop_last() =~= seq![SizeConstraint::Length(top)]);
    assert(cs.drop_last().drop_last().drop_last() =~= Seq::<SizeConstraint>::empty());
    let floors = cs.map_values(|c: SizeConstraint| rule_floor(c));
    assert(floors.drop_last() =~= seq![top as int, least as int]);
    assert(floors.drop_last().drop_last() =~= seq![top as int]);
    assert(floors.drop_last().drop_last().drop_last() =~= Seq::<int>::empty());
    let lengths = cs.map_values(|c: SizeConstraint| if c is Min { 0int } else { rule_floor(c) });
    assert(lengths.drop_last() =~= seq![top as int, 0int]);
    assert(lengths.drop_last().drop_last() =~= seq![top as int]);
    assert(lengths.drop_last().drop_last().drop_last() =~= Seq::<int>::empty());
    let sizes = packed_sizes(area, true, cs, 0);
    let mid = area.height - top - bottom;
    assert(sizes =~= seq![top as int, mid, bottom as int]);
    assert(sizes.take(0) =~= Seq::<int>::empty());
    assert(sizes.take(1) =~= seq![top as int]);
    assert(sizes.take(1).drop_last() =~= Seq::<int>::empty());
    assert(sizes.take(2) =~= seq![top as int, mid]);
    assert(sizes.take(2).drop_last() =~= seq![top as int]);
    assert(packed_parts(area, true, cs, 0) =~= framed_rows(area, top as int, bottom as int));
}

/// A fixed top block and a growing rest that fit split the rows exactly as
/// `headed_rows` says.
pub proof fn lemma_headed_split(area: Rect, top: u16, least: u16)
    requires
        rows_fit(area, top + least),
    ensures
        ({
            let cs = seq![SizeConstraint::Length(top), SizeConstraint::Min(least)];
            split_is_exact(area, true, cs, 0) && packed_parts(area, true, cs, 0) == headed_rows(area, top as int)
        }),
{
    let cs = seq![SizeConstraint::Length(top), SizeConstraint::Min(least)];
    reveal_with_fuel(sizes_total, 3);
    reveal_with_fuel(min_rule_count, 3);
    assert(cs.drop_last() =~= seq![SizeConstraint::Length(top)]);
    assert(cs.drop_last().drop_last() =~= Seq::<SizeConstraint>::empty());
    let floors = cs.map_values(|c: SizeConstraint| rule_floor(c));
    assert(floors.drop_last() =~= seq![top as int]);
    assert(floors.drop_last().drop_last() =~= Seq::<int>::empty());
    let lengths = cs.map_values(|c: SizeConstraint| if c is Min { 0int } else { rule_floor(c) });
    assert(lengths.drop_last() =~= seq![top as int]);
    assert(lengths.drop_last().drop_last() =~= Seq::<int>::empty());
    let sizes = packed_sizes(area, true, cs, 0);
    assert(sizes =~= seq![top as int, area.height - top]);
    assert(sizes.take(0) =~= Seq::<int>::empty());
    assert(sizes.take(1) =~= seq![top as int]);
    assert(sizes.take(1).drop_last() =~= Seq::<int>::empty());
    assert(packed_parts(area, true, cs, 0) =~= headed_rows(area, top as int));
}

/// The screen's rows: the header row, the body (at least 18 rows) and the
/// two footer rows.
pub open spec fn screen_constraints() -> Seq<SizeConstraint> {
    seq![SizeConstraint::Length(1), SizeConstraint::Min(18), SizeConstraint::Length(2)]
}

/// The body's rows: the system panel and the panels under it (at least 8 rows).
pub open spec fn body_constraints() -> Seq<SizeConstraint> {
    seq![SizeConstraint::Length(SYSTEM_PANEL_HEIGHT), SizeConstraint::Min(8)]
}

/// The screen split into header, body and footer by `screen_constraints`.
pub fn screen_layout(area: Rect) -> (r: Vec<Rect>)
    ensures
        split_fits(area, true, 3, r@),
        screen_fits(area) ==> r@ == framed_rows(area, 1, 2),
{
    let constraints = vec![SizeConstraint::Length(1), SizeConstraint::Min(18), SizeConstraint::Length(2)];
    proof {
        assert(constraints@ =~= screen_constraints());
        if screen_fits(area) {
            lemma_framed_split(area, 1, 18, 2);
        }
    }
    split_rows(area, &constraints)
}

/// Whether the screen has rows for its header, its least body and its
/// footer, and ends within sixteen-bit rows.
pub open spec fn screen_fits(screen: Rect) -> bool {
    rows_fit(screen, 21)
}

/// The body of a screen that fits: below the header row, above the two
/// footer rows.
pub open spec fn screen_body(screen: Rect) -> Rect {
    row_block(screen, screen.y + 1, screen.height - 3)
}

/// The body split into the system panel and the panels under it by
/// `body_constraints`.
pub fn body_sections(body_area: Rect) -> (r: Vec<Rect>)
    ensures
        split_fits(body_area, true, 2, r@),
        rows_fit(body_area, SYSTEM_PANEL_HEIGHT + 8) ==> r@ == headed_rows(body_area, SYSTEM_PANEL_HEIGHT as int),
{
    let constraints = vec![SizeConstraint::Length(SYSTEM_PANEL_HEIGHT), SizeConstraint::Min(8)];
    proof {
        assert(constraints@ =~= body_constraints());
        if rows_fit(body_area, SYSTEM_PANEL_HEIGHT + 8) {
            lemma_headed_split(body_area, SYSTEM_PANEL_HEIGHT, 8);
        }
    }
    split_rows(body_area, &constraints)
}

/// Whether `space` can be the screen area below the header, where the dialogs
/// stand: the middle part of the screen's split.
pub open spec fn is_dialog_space(screen: Rect, space: Rect) -> bool {
    part_fits(space, screen, true)
}

/// A part of a part of an area split the same way is a part of the area.
pub proof fn lemma_part_fits_within(part: Rect, middle: Rect, area: Rect, vertical: bool)
    requires
        part_fits(part, middle, vertical),
        part_fits(middle, area, vertical),
    ensures
        part_fits(part, area, vertical),
{
}

/// The system panel's area on the screen: the top part of the body, itself
/// the middle part of the screen; it spans the screen's columns and lies
/// within its rows.
pub fn system_panel_area_for_screen(area: Rect) -> (r: Rect)
    ensures
        part_fits(r, area, true),
        screen_fits(area) ==> r == row_block(area, area.y + 1, SYSTEM_PANEL_HEIGHT as int),
{
    let layout = screen_layout(area);
    let sections = body_sections(layout[1]);
    proof {
        assert(part_fits(layout@[1], area, true));
        assert(part_fits(sections@[0], layout@[1], true));
    }
    sections[0]
}

/// The process table's area and how many process rows it shows.
#[derive(Clone, Copy, Debug, PartialEq, Eq, Structural)]
pub struct ProcessTableLayout {
    pub area: Rect,
    pub page_size: usize,
    pub body_capacity: usize,
    pub show_tracked_total: bool,
    pub resize_handle: Option<Rect>,
}

/// The panels of the body: the system panel, the process table and, while the
/// graphs are shown, the graph workspace.
#[derive(Clone, Copy, Debug, PartialEq, Eq, Structural)]
pub struct MainPanelAreas {
    pub system: Rect,
    pub processes: ProcessTableLayout,
    pub details: Option<Rect>,
}

/// Rows of a process table area left for process rows: its height without its
/// chrome.
pub fn process_table_page_size(area: Rect) -> (r: usize)
    ensures
        r == sub0(area.height as int, PROCESS_TABLE_CHROME_HEIGHT as int),
{
    area.height.saturating_sub(PROCESS_TABLE_CHROME_HEIGHT) as usize
}

/// The process table in `area`: its rows, the tracked total taking the last
/// one when there is one and room for it.
pub open spec fn process_table_layout_spec(area: Rect, has_tracked_total: bool, resize_handle: Option<Rect>) -> ProcessTableLayout {
    let capacity = sub0(area.height as int, PROCESS_TABLE_CHROME_HEIGHT as int);
    let show_total = has_tracked_total && capacity > 0;
    ProcessTableLayout {
        area,
        page_size: sub0(capacity, if show_total { 1 } else { 0 }) as usize,
        body_capacity: capacity as usize,
        show_tracked_total: show_total,
        resize_handle,
    }
}

/// The process table in `area`; see `process_table_layout_spec`.
pub fn process_table_layout(area: Rect, has_tracked_total: bool, resize_handle: Option<Rect>) -> (r: ProcessTableLayout)
    ensures
        r == process_table_layout_spec(area, has_tracked_total, resize_handle),
{
    let row_capacity = process_table_page_size(area);
    let show_tracked_total = has_tracked_total && row_capacity > 0;
    ProcessTableLayout {
        area,
        page_size: row_capacity.saturating_sub(if show_tracked_total { 1 } else { 0 }),
        body_capacity: row_capacity,
        show_tracked_total,
        resize_handle,
    }
}

/// The border row shared by the process table and the graphs under it, by
/// which the table is resized; none when either is empty.
pub open spec fn resize_handle_spec(processes: Rect, details: Rect) -> Option<Rect> {
    if processes.width == 0 || processes.height == 0 || details.width == 0 || details.height == 0 {
        None
    } else {
        Some(Rect::placed(processes.x as int, sub0(processes.bottom_spec(), 1), processes.width as int, 1))
    }
}

/// The border row shared by the process table and the graphs; see
/// `resize_handle_spec`.
pub fn process_resize_handle(processes: Rect, details: Rect) -> (r: Option<Rect>)
    ensures
        r == resize_handle_spec(processes, details),
{
    if !processes.is_empty() && !details.is_empty() {
        Some(Rect::new(processes.x, processes.bottom().saturating_sub(1), processes.width, 1))
    } else {
        None
    }
}

/// The row of the graph workspace's shared controls: its first row.
pub fn details_shared_controls_area(area: Rect) -> (r: Rect)
    ensures
        r == Rect::placed(area.x as int, area.y as int, area.width as int, min_int(DETAILS_SHARED_CONTROLS_HEIGHT as int, area.height as int)),
{
    Rect::new(area.x, area.y, area.width, if DETAILS_SHARED_CONTROLS_HEIGHT < area.height { DETAILS_SHARED_CONTROLS_HEIGHT } else { area.height })
}

/// The panels of the body from its two sections, the system row `system` and
/// the area `lower` under it: the process table takes its preferred height in
/// `lower` while the graph workspace is shown (leaving the workspace its least
/// height where it can), the workspace the rest; otherwise the table takes all
/// of `lower`.
pub open spec fn main_panels_from_sections_spec(
    system: Rect,
    lower: Rect,
    show_details: bool,
    visible_process_rows: int,
    has_tracked_total: bool,
    preference: ProcessPanelHeight,
) -> MainPanelAreas {
    if show_details {
        let preferred = required_height_spec(visible_process_rows, has_tracked_total, preference);
        let available = sub0(lower.height as int, GRAPH_WORKSPACE_MIN_HEIGHT as int);
        let height = min_int(min_int(preferred, available), lower.height as int);
        let processes = Rect::placed(lower.x as int, lower.y as int, lower.width as int, height);
        let details = Rect::placed(
            lower.x as int,
            add16(lower.y as int, height),
            lower.width as int,
            sub0(lower.height as int, height),
        );
        MainPanelAreas {
            system,
            processes: process_table_layout_spec(processes, has_tracked_total, resize_handle_spec(processes, details)),
            details: Some(details),
        }
    } else {
        MainPanelAreas { system, processes: process_table_layout_spec(lower, has_tracked_total, None), details: None }
    }
}

/// The panels of the body from its two sections; see
/// `main_panels_from_sections_spec`.
pub fn main_panels_from_sections(
    system: Rect,
    lower: Rect,
    show_details: bool,
    visible_process_rows: usize,
    has_tracked_total: bool,
    process_panel_height: ProcessPanelHeight,
) -> (r: MainPanelAreas)
    ensures
        r == main_panels_from_sections_spec(
            system,
            lower,
            show_details,
            visible_process_rows as int,
            has_tracked_total,
            process_panel_height,
        ),
{
    if show_details {
        let preferred = process_table_required_height(visible_process_rows, has_tracked_total, process_panel_height);
        let available = lower.height.saturating_sub(GRAPH_WORKSPACE_MIN_HEIGHT);
        let a = if preferred < available { preferred } else { available };
        let height = if a < lower.height { a } else { lower.height };
        let processes = Rect::new(lower.x, lower.y, lower.width, height);
        let details = Rect::new(lower.x, lower.y.saturating_add(height), lower.width, lower.height.saturating_sub(height));
        MainPanelAreas {
            system,
            processes: process_table_layout(processes, has_tracked_total, process_resize_handle(processes, details)),
            details: Some(details),
        }
    } else {
        MainPanelAreas { system, processes: process_table_layout(lower, has_tracked_total, None), details: None }
    }
}

/// The panels of the body on the screen `area`: the body split into the
/// system row and the area under it (each spanning the screen's columns
/// within its rows), then placed as `main_panels_from_sections_spec` says.
pub fn main_panel_areas_with_height(
    area: Rect,
    show_details: bool,
    visible_process_rows: usize,
    has_tracked_total: bool,
    process_panel_height: ProcessPanelHeight,
) -> (r: MainPanelAreas)
    ensures
        exists|system: Rect, lower: Rect|
            #![trigger main_panels_from_sections_spec(system, lower, show_details, visible_process_rows as int, has_tracked_total, process_panel_height)]
            part_fits(system, area, true) && part_fits(lower, area, true) && r == main_panels_from_sections_spec(
                system,
                lower,
                show_details,
                visible_process_rows as int,
                has_tracked_total,
                process_panel_height,
            ),
        screen_fits(area) ==> r == main_panels_from_sections_spec(
            row_block(area, area.y + 1, SYSTEM_PANEL_HEIGHT as int),
            row_block(area, area.y + 1 + SYSTEM_PANEL_HEIGHT, area.height - 3 - SYSTEM_PANEL_HEIGHT),
            show_details,
            visible_process_rows as int,
            has_tracked_total,
            process_panel_height,
        ),
{
    let screen = screen_layout(area);
    let sections = body_sections(screen[1]);
    let r = main_panels_from_sections(sections[0], sections[1], show_details, visible_process_rows, has_tracked_total, process_panel_height);
    proof {
        assert(part_fits(screen@[1], area, true));
        assert(part_fits(sections@[0], screen@[1], true));
        assert(part_fits(sections@[1], screen@[1], true));
        assert(r == main_panels_from_sections_spec(
            sections@[0],
            sections@[1],
            show_details,
            visible_process_rows as int,
            has_tracked_total,
            process_panel_height,
        ));
    }
    r
}

/// The panels of the body with the process table sized automatically; see
/// `main_panel_areas_with_height`.
pub fn main_panel_areas(area: Rect, show_details: bool, visible_process_rows: usize, has_tracked_total: bool) -> (r: MainPanelAreas)
    ensures
        exists|system: Rect, lower: Rect|
            #![trigger main_panels_from_sections_spec(system, lower, show_details, visible_process_rows as int, has_tracked_total, ProcessPanelHeight::Auto)]
            part_fits(system, area, true) && part_fits(lower, area, true) && r == main_panels_from_sections_spec(
                system,
                lower,
                show_details,
                visible_process_rows as int,
                has_tracked_total,
                ProcessPanelHeight::Auto,
            ),
        screen_fits(area) ==> r == main_panels_from_sections_spec(
            row_block(area, area.y + 1, SYSTEM_PANEL_HEIGHT as int),
            row_block(area, area.y + 1 + SYSTEM_PANEL_HEIGHT, area.height - 3 - SYSTEM_PANEL_HEIGHT),
            show_details,
            visible_process_rows as int,
            has_tracked_total,
            ProcessPanelHeight::Auto,
        ),
{
    main_panel_areas_with_height(area, show_details, visible_process_rows, has_tracked_total, ProcessPanelHeight::Auto)
}

/// Columns of the samples toggle.
pub const GRAPH_SAMPLES_TOGGLE_WIDTH: u16 = 15;
/// Columns of the delta toggle.
pub const GRAPH_DELTA_TOGGLE_WIDTH: u16 = 13;
/// Columns of the layout toggle.
pub const GRAPH_LAYOUT_TOGGLE_WIDTH: u16 = 15;
/// Columns of the all-samples toggle.
pub const GRAPH_ALL_SAMPLES_TOGGLE_WIDTH: u16 = 15;
/// Columns of the y-axis toggle.
pub const GRAPH_Y_AXIS_TOGGLE_WIDTH: u16 = 13;

/// Where the graph workspace's shared toggles stand; a toggle that finds no
/// room has none.
#[derive(Clone, Copy, Debug, PartialEq, Eq, Structural)]
pub struct GraphSharedControlAreas {
    pub samples: Option<Rect>,
    pub delta: Option<Rect>,
    pub layout: Option<Rect>,
    pub all_samples: Option<Rect>,
    pub y_axis: Option<Rect>,
}

/// A toggle `width` columns wide taken from the right of what is left of the
/// row: the new right edge, the columns left and the toggle's area; nothing
/// taken when it does not fit.
pub open spec fn reserve_spec(area: Rect, right: int, remaining: int, width: int) -> (int, int, Option<Rect>) {
    if remaining < width {
        (right, remaining, None)
    } else {
        let r = sub0(right, width);
        (r, sub0(remaining, width), Some(Rect::placed(r, area.y as int, width, min_int(area.height as int, 1))))
    }
}

/// The shared toggles placed from the right edge of `area` leftwards: y-axis,
/// all samples, layout, delta (only while the samples panel is shown), samples.
pub open spec fn shared_controls_spec(area: Rect, show_samples_panel: bool) -> GraphSharedControlAreas {
    let (r1, m1, y_axis) = reserve_spec(area, area.right_spec(), area.width as int, GRAPH_Y_AXIS_TOGGLE_WIDTH as int);
    let (r2, m2, all_samples) = reserve_spec(area, r1, m1, GRAPH_ALL_SAMPLES_TOGGLE_WIDTH as int);
    let (r3, m3, layout) = reserve_spec(area, r2, m2, GRAPH_LAYOUT_TOGGLE_WIDTH as int);
    let (r4, m4, delta) = if show_samples_panel {
        reserve_spec(area, r3, m3, GRAPH_DELTA_TOGGLE_WIDTH as int)
    } else {
        (r3, m3, None)
    };
    let (_r5, _m5, samples) = reserve_spec(area, r4, m4, GRAPH_SAMPLES_TOGGLE_WIDTH as int);
    GraphSharedControlAreas { samples, delta, layout, all_samples, y_axis }
}

/// A toggle taken from the right of what is left; see `reserve_spec`.
fn reserve(area: Rect, right: u16, remaining: u16, width: u16) -> (r: (u16, u16, Option<Rect>))
    ensures
        (r.0 as int, r.1 as int, r.2) == reserve_spec(area, right as int, remaining as int, width as int),
{
    if remaining < width {
        return (right, remaining, None);
    }
    let r = right.saturating_sub(width);
    (r, remaining.saturating_sub(width), Some(Rect::new(r, area.y, width, if area.height < 1 { area.height } else { 1 })))
}

/// Where the shared toggles stand; see `shared_controls_spec`.
pub fn graph_shared_control_areas(area: Rect, show_samples_panel: bool) -> (r: GraphSharedControlAreas)
    ensures
        r == shared_controls_spec(area, show_samples_panel),
{
    let (r1, m1, y_axis) = reserve(area, area.right(), area.width, GRAPH_Y_AXIS_TOGGLE_WIDTH);
    let (r2, m2, all_samples) = reserve(area, r1, m1, GRAPH_ALL_SAMPLES_TOGGLE_WIDTH);
    let (r3, m3, layout) = reserve(area, r2, m2, GRAPH_LAYOUT_TOGGLE_WIDTH);
    let (r4, m4, delta) = if show_samples_panel {
        reserve(area, r3, m3, GRAPH_DELTA_TOGGLE_WIDTH)
    } else {
        (r3, m3, None)
    };
    let (_r5, _m5, samples) = reserve(area, r4, m4, GRAPH_SAMPLES_TOGGLE_WIDTH);
    GraphSharedControlAreas { samples, delta, layout, all_samples, y_axis }
}

/// Part `index` of `area` cut into `count` parts along its height (or width):
/// equal parts, the first ones a row (or column) longer while the remainder
/// lasts.
pub open spec fn split_part(area: Rect, count: int, vertical: bool, index: int) -> Rect {
    let total = if vertical { area.height as int } else { area.width as int };
    let c = (count as u16) as int;
    let base = total / c;
    let extra = total % c;
    let i = (index as u16) as int;
    let offset = add16(min_int(base * i, u16::MAX as int), min_int(extra, i));
    let length = add16(base, if i < extra { 1 } else { 0 });
    if vertical {
        Rect::placed(area.x as int, add16(area.y as int, offset), area.width as int, length)
    } else {
        Rect::placed(add16(area.x as int, offset), area.y as int, length, area.height as int)
    }
}

/// `area` cut into `count` parts; see `split_part`.
pub open spec fn split_evenly_spec(area: Rect, count: int, vertical: bool) -> Seq<Rect> {
    Seq::new(count as nat, |i: int| split_part(area, count, vertical, i))
}

/// `area` cut into `count` parts along its height (`vertical`) or width; see
/// `split_part`.
pub fn split_evenly(area: Rect, count: usize, vertical: bool) -> (r: Vec<Rect>)
    requires
        count == 0 || count % 65536 != 0,
    ensures
        r@ == split_evenly_spec(area, count as int, vertical),
{
    let mut out: Vec<Rect> = Vec::new();
    if count == 0 {
        assert(out@ =~= split_evenly_spec(area, 0, vertical));
        return out;
    }
    let total = if vertical { area.height } else { area.width };
    let c = #[verifier::truncate] (count as u16);
    assert(c as int == count % 65536) by (bit_vector)
        requires c == #[verifier::truncate] (count as u16);
    let base = total / c;
    let extra = total % c;
    let mut index: usize = 0;
    while index < count
        invariant
            index <= count,
            c as int == (count as u16) as int,
            c > 0,
            base == total / c,
            extra == total % c,
            total == if vertical { area.height } else { area.width },
            out@ == split_evenly_spec(area, count as int, vertical).take(index as int),
        decreases count - index,
    {
        let i = #[verifier::truncate] (index as u16);
        assert((base as int) * (i as int) <= 65535 * 65535) by (nonlinear_arith)
            requires base <= 65535, i <= 65535;
        let product = (base as u32) * (i as u32);
        let scaled: u16 = if product > 65535 { 65535 } else { product as u16 };
        let offset = scaled.saturating_add(if extra < i { extra } else { i });
        let length = base.saturating_add(if i < extra { 1 } else { 0 });
        let part = if vertical {
            Rect::new(area.x, area.y.saturating_add(offset), area.width, length)
        } else {
            Rect::new(area.x.saturating_add(offset), area.y, length, area.height)
        };
        out.push(part);
        index = index + 1;
        assert(out@ =~= split_evenly_spec(area, count as int, vertical).take(index as int));
    }
    assert(split_evenly_spec(area, count as int, vertical).take(count as int) =~= split_evenly_spec(area, count as int, vertical));
    out
}

/// The title row of a graph card: its top row inside the side borders.
pub open spec fn slot_title_spec(area: Rect) -> Rect {
    Rect::placed(add16(area.x as int, 1), area.y as int, sub0(area.width as int, 2), if area.height > 0 { 1 } else { 0 })
}

/// The title row of a graph card; see `slot_title_spec`.
pub fn details_slot_title_area(area: Rect) -> (r: Rect)
    ensures
        r == slot_title_spec(area),
{
    Rect::new(area.x.saturating_add(1), area.y, area.width.saturating_sub(2), if area.height > 0 { 1 } else { 0 })
}

/// A graph card: its place among the graphs, its area, its title row with the
/// display-mode switch and the remove button at its right end, and its plot.
#[derive(Clone, Copy, Debug)]
pub struct GraphCardLayout {
    pub ordinal: usize,
    pub area: Rect,
    pub title: Rect,
    pub display_mode: Rect,
    pub remove: Rect,
    pub remove_label: &'static str,
    pub plot: Rect,
}

/// A graph card in `area`: the remove button takes the last five columns of
/// the title row (or all of it), the display-mode switch the seven before it
/// (or what is left), the plot the area inside the border.
pub open spec fn card_spec(area: Rect, ordinal: usize) -> GraphCardLayout {
    let title = slot_title_spec(area);
    let remove_width = min_int(5, title.width as int);
    let remove = Rect::placed(sub0(title.right_spec(), remove_width), title.y as int, remove_width, title.height as int);
    let mode_width = min_int(7, sub0(remove.x as int, title.x as int));
    GraphCardLayout {
        ordinal,
        area,
        title,
        display_mode: Rect::placed(sub0(remove.x as int, mode_width), title.y as int, mode_width, title.height as int),
        remove,
        remove_label: "[x]",
        plot: area.shrunk(1, 1),
    }
}

/// A graph card; see `card_spec`.
pub fn graph_card_layout(area: Rect, ordinal: usize) -> (r: GraphCardLayout)
    ensures
        r == card_spec(area, ordinal),
{
    let title = details_slot_title_area(area);
    let remove_width: u16 = if title.width < 5 { title.width } else { 5 };
    let remove = Rect::new(title.right().saturating_sub(remove_width), title.y, remove_width, title.height);
    let room = remove.x.saturating_sub(title.x);
    let mode_width: u16 = if room < 7 { room } else { 7 };
    GraphCardLayout {
        ordinal,
        area,
        title,
        display_mode: Rect::new(remove.x.saturating_sub(mode_width), title.y, mode_width, title.height),
        remove,
        remove_label: "[x]",
        plot: area.inner(1, 1),
    }
}

/// The cards of one row of the grid: one per cell whose graph exists, the
/// graph of cell `c` of row `row` being the `row * columns + c`-th.
pub open spec fn row_cards(cells: Seq<Rect>, row: int, columns: int, entry_count: int) -> Seq<GraphCardLayout>
    decreases cells.len(),
{
    if cells.len() == 0 {
        Seq::empty()
    } else {
        let index = add_usize(min_int(row * columns, usize::MAX as int), cells.len() - 1);
        row_cards(cells.drop_last(), row, columns, entry_count) + if index < entry_count {
            seq![card_spec(cells.last(), index as usize)]
        } else {
            Seq::empty()
        }
    }
}

/// The cards of the shown rows, from row `scroll_row` on, row by row.
pub open spec fn grid_cards(rows: Seq<Rect>, scroll_row: int, columns: int, entry_count: int) -> Seq<GraphCardLayout>
    decreases rows.len(),
{
    if rows.len() == 0 {
        Seq::empty()
    } else {
        grid_cards(rows.drop_last(), scroll_row, columns, entry_count) + row_cards(
            split_evenly_spec(rows.last(), columns, false),
            scroll_row + rows.len() - 1,
            columns,
            entry_count,
        )
    }
}

/// The graph cards shown in `area`: none without graphs, room or rows; when
/// compact, only the active graph's card (the first graph's when none is
/// active) filling the area; otherwise the shown rows split evenly, each
/// split evenly into `columns` cards.
pub open spec fn cards_spec(
    area: Rect,
    entry_count: int,
    active_index: Option<usize>,
    columns: int,
    scroll_row: int,
    visible_rows: int,
    compact: bool,
) -> Seq<GraphCardLayout> {
    if entry_count == 0 || area.width == 0 || area.height == 0 || visible_rows == 0 {
        Seq::empty()
    } else if compact {
        let index = match active_index {
            Some(i) => i as int,
            None => 0,
        };
        if index < entry_count { seq![card_spec(area, index as usize)] } else { Seq::empty() }
    } else {
        grid_cards(split_evenly_spec(area, visible_rows, true), scroll_row, columns, entry_count)
    }
}

/// The graph cards shown in `area`; see `cards_spec`.
pub fn graph_card_layouts(
    area: Rect,
    entry_count: usize,
    active_index: Option<usize>,
    columns: usize,
    scroll_row: usize,
    visible_rows: usize,
    compact: bool,
) -> (r: Vec<GraphCardLayout>)
    requires
        entry_count > 0 && area.width > 0 && area.height > 0 && visible_rows > 0 && !compact ==> {
            &&& visible_rows % 65536 != 0
            &&& columns == 0 || columns % 65536 != 0
            &&& scroll_row + visible_rows - 1 <= usize::MAX
        },
    ensures
        r@ == cards_spec(area, entry_count as int, active_index, columns as int, scroll_row as int, visible_rows as int, compact),
{
    let mut cards: Vec<GraphCardLayout> = Vec::new();
    if entry_count == 0 || area.is_empty() || visible_rows == 0 {
        return cards;
    }
    if compact {
        let index = match active_index {
            Some(i) => i,
            None => 0,
        };
        if index < entry_count {
            cards.push(graph_card_layout(area, index));
        }
        assert(cards@ =~= cards_spec(area, entry_count as int, active_index, columns as int, scroll_row as int, visible_rows as int, compact));
        return cards;
    }
    let row_rects = split_evenly(area, visible_rows, true);
    let ghost rows = row_rects@;
    let mut visible_row: usize = 0;
    while visible_row < visible_rows
        invariant
            visible_row <= visible_rows == rows.len(),
            rows == row_rects@,
            columns == 0 || columns % 65536 != 0,
            scroll_row + visible_rows - 1 <= usize::MAX,
            cards@ == grid_cards(rows.take(visible_row as int), scroll_row as int, columns as int, entry_count as int),
        decreases visible_rows - visible_row,
    {
        let row = scroll_row + visible_row;
        let column_rects = split_evenly(row_rects[visible_row], columns, false);
        let ghost cells = column_rects@;
        let ghost before = cards@;
        let mut column: usize = 0;
        while column < columns
            invariant
                column <= columns == cells.len(),
                cells == column_rects@,
                row == scroll_row + visible_row,
                cards@ == before + row_cards(cells.take(column as int), row as int, columns as int, entry_count as int),
            decreases columns - column,
        {
            proof {
                assert(cells.take(column + 1).drop_last() =~= cells.take(column as int));
                assert(cells.take(column + 1).last() == cells[column as int]);
            }
            let scaled = row.checked_mul(columns);
            let start = match scaled {
                Some(v) => v,
                None => usize::MAX,
            };
            let index = start.saturating_add(column);
            if index < entry_count {
                cards.push(graph_card_layout(column_rects[column], index));
            }
            column = column + 1;
            assert(cards@ =~= before + row_cards(cells.take(column as int), row as int, columns as int, entry_count as int));
        }
        proof {
            assert(cells.take(columns as int) =~= cells);
            assert(rows.take(visible_row + 1).drop_last() =~= rows.take(visible_row as int));
            assert(rows.take(visible_row + 1).last() == rows[visible_row as int]);
        }
        visible_row = visible_row + 1;
    }
    proof {
        assert(rows.take(visible_rows as int) =~= rows);
    }
    cards
}

/// Where the zoom buttons of the graph workspace stand.
#[derive(Clone, Copy, Debug, PartialEq, Eq, Structural)]
pub struct GraphSpanControlAreas {
    pub zoom_out: Option<Rect>,
    pub zoom_in: Option<Rect>,
}

/// The title of the graph workspace: its slot count and time span.
pub open spec fn workspace_title_spec(count: nat, span_seconds: nat) -> Seq<char> {
    "GRAPHS · "@ + decimal(count) + (if count == 1 { " Slot"@ } else { " Slots"@ }) + " · Span "@ + decimal(span_seconds)
        + "s"@
}

/// The zoom buttons on the title row of the graph workspace: three columns
/// each, two columns after the title, one column apart; none when the row has
/// no height or the buttons would pass its right edge.
pub open spec fn span_controls_spec(area: Rect, count: nat, span_seconds: nat) -> GraphSpanControlAreas {
    let none = GraphSpanControlAreas { zoom_out: None, zoom_in: None };
    if area.height == 0 {
        none
    } else {
        let title_width = (line_width(workspace_title_spec(count, span_seconds)) as u16) as int;
        let zoom_out_x = add16(add16(area.x as int, title_width), 2);
        let zoom_in_x = add16(add16(zoom_out_x, 3), 1);
        if add16(zoom_in_x, 3) > area.right_spec() {
            none
        } else {
            GraphSpanControlAreas {
                zoom_out: Some(Rect::placed(zoom_out_x, area.y as int, 3, 1)),
                zoom_in: Some(Rect::placed(zoom_in_x, area.y as int, 3, 1)),
            }
        }
    }
}

/// The zoom buttons of the graph workspace; see `span_controls_spec`.
pub fn graph_span_control_areas(area: Rect, count: usize, span_seconds: u32) -> (r: GraphSpanControlAreas)
    ensures
        r == span_controls_spec(area, count as nat, span_seconds as nat),
{
    if area.height == 0 {
        return GraphSpanControlAreas { zoom_out: None, zoom_in: None };
    }
    let title = graph_workspace_title_label(count, span_seconds);
    let title_width = #[verifier::truncate] (str_line_width(title.as_str()) as u16);
    let zoom_out_x = area.x.saturating_add(title_width).saturating_add(2);
    let zoom_in_x = zoom_out_x.saturating_add(3).saturating_add(1);
    if zoom_in_x.saturating_add(3) > area.right() {
        return GraphSpanControlAreas { zoom_out: None, zoom_in: None };
    }
    GraphSpanControlAreas {
        zoom_out: Some(Rect::new(zoom_out_x, area.y, 3, 1)),
        zoom_in: Some(Rect::new(zoom_in_x, area.y, 3, 1)),
    }
}

/// Where the samples panel stands beside the graphs.
#[derive(Clone, Copy, Debug, PartialEq, Eq, Structural)]
pub enum SamplesPlacement {
    Right,
    Bottom,
}

/// Rows the samples panel needs at least: more with a complete A/B range.
pub open spec fn samples_min_height(ab_complete: bool) -> int {
    if ab_complete { 11 } else { 8 }
}

/// The graph workspace's content split between the graph slots and the samples
/// panel: the samples at the right (behind a one-column divider) when the
/// content is tall enough and they get at least 30 columns while the slots
/// keep one slot's width and the inset; else at the bottom (a third of the
/// height, at least their least rows) when the content is wide and tall
/// enough; else no samples panel. No samples panel either when it is hidden,
/// there is no graph or no content.
pub open spec fn content_areas_spec(
    content: Rect,
    show_samples_panel: bool,
    entry_count: int,
    show_sample_delta: bool,
    ab_complete: bool,
    slot_min_width: int,
    slot_min_height: int,
) -> (Rect, Option<Rect>, Option<SamplesPlacement>) {
    if !show_samples_panel || entry_count == 0 || content.width == 0 || content.height == 0 {
        (content, None, None)
    } else {
        let max_width = if show_sample_delta { DETAILS_SAMPLES_MAX_WIDTH as int } else { DETAILS_SAMPLES_MAX_WIDTH_NO_DELTA as int };
        let min_height = samples_min_height(ab_complete);
        let available = sub0(content.width as int, 1);
        let slots_min_width = add16(slot_min_width, 2);
        let samples_width = min_int(max_width, sub0(available, slots_min_width));
        if content.height >= min_height && samples_width >= 30 {
            let graph_width = sub0(available, samples_width);
            (
                Rect::placed(content.x as int, content.y as int, graph_width, content.height as int),
                Some(Rect::placed(add16(add16(content.x as int, graph_width), 1), content.y as int, samples_width, content.height as int)),
                Some(SamplesPlacement::Right),
            )
        } else {
            let slots_min_height = add16(slot_min_height, 2);
            if content.width >= 30 && content.height >= add16(slots_min_height, min_height) {
                let samples_height = min_int(max_int(min_height, (content.height / 3) as int), sub0(content.height as int, slots_min_height));
                let graph_height = sub0(content.height as int, samples_height);
                (
                    Rect::placed(content.x as int, content.y as int, content.width as int, graph_height),
                    Some(Rect::placed(content.x as int, add16(content.y as int, graph_height), content.width as int, samples_height)),
                    Some(SamplesPlacement::Bottom),
                )
            } else {
                (content, None, None)
            }
        }
    }
}

/// The graph workspace's content split between slots and samples; see
/// `content_areas_spec`. `slot_min_width` and `slot_min_height` are the least
/// size of a graph slot.
pub fn graph_workspace_content_areas(
    content: Rect,
    show_samples_panel: bool,
    entry_count: usize,
    show_sample_delta: bool,
    ab_complete: bool,
    slot_min_width: u16,
    slot_min_height: u16,
) -> (r: (Rect, Option<Rect>, Option<SamplesPlacement>))
    ensures
        r == content_areas_spec(
            content,
            show_samples_panel,
            entry_count as int,
            show_sample_delta,
            ab_complete,
            slot_min_width as int,
            slot_min_height as int,
        ),
{
    if !show_samples_panel || entry_count == 0 || content.is_empty() {
        return (content, None, None);
    }
    let max_width = details_samples_max_width(show_sample_delta);
    let min_height: u16 = if ab_complete { 11 } else { 8 };
    let available = content.width.saturating_sub(1);
    let slots_min_width = slot_min_width.saturating_add(2);
    let room = available.saturating_sub(slots_min_width);
    let samples_width = if max_width < room { max_width } else { room };
    if content.height >= min_height && samples_width >= 30 {
        let graph_width = available.saturating_sub(samples_width);
        return (
            Rect::new(content.x, content.y, graph_width, content.height),
            Some(Rect::new(content.x.saturating_add(graph_width).saturating_add(1), content.y, samples_width, content.height)),
            Some(SamplesPlacement::Right),
        );
    }
    let slots_min_height = slot_min_height.saturating_add(2);
    if content.width >= 30 && content.height >= slots_min_height.saturating_add(min_height) {
        let third = content.height / 3;
        let wanted = if min_height > third { min_height } else { third };
        let most = content.height.saturating_sub(slots_min_height);
        let samples_height = if wanted < most { wanted } else { most };
        let graph_height = content.height.saturating_sub(samples_height);
        return (
            Rect::new(content.x, content.y, content.width, graph_height),
            Some(Rect::new(content.x, content.y.saturating_add(graph_height), content.width, samples_height)),
            Some(SamplesPlacement::Bottom),
        );
    }
    (content, None, None)
}

/// What the graph workspace holds and how it is set up: the number of graphs,
/// the active one, the column layout, the first shown row, the time span, the
/// samples panel's switches, whether both A/B points are set, and the least
/// size of a graph slot.
#[derive(Clone, Copy, Debug, PartialEq, Eq, Structural)]
pub struct GraphWorkspaceState {
    pub entry_count: usize,
    pub active_index: Option<usize>,
    pub slot_layout: GraphSlotLayout,
    pub scroll_row: usize,
    pub span_seconds: u32,
    pub show_samples_panel: bool,
    pub show_sample_delta: bool,
    pub ab_complete: bool,
    pub slot_min_width: u16,
    pub slot_min_height: u16,
}

/// The areas of the graph workspace: its shared controls, the slots' frame
/// with its zoom buttons, the viewport inside it, the cards shown, the
/// scrollbar, the samples panel; and its grid: columns, rows in all, rows
/// shown, the last first row, and whether only the active graph is shown.
#[derive(Clone, Debug)]
pub struct GraphWorkspaceLayout {
    pub controls: Rect,
    pub graph_slots: Rect,
    pub span_controls: GraphSpanControlAreas,
    pub graph_viewport: Rect,
    pub graph_cards: Vec<GraphCardLayout>,
    pub graph_scrollbar: Option<Rect>,
    pub samples: Option<Rect>,
    pub samples_placement: Option<SamplesPlacement>,
    pub columns: usize,
    pub total_rows: usize,
    pub visible_rows: usize,
    pub max_scroll_row: usize,
    pub compact: bool,
}

/// `n / d` rounded up.
pub open spec fn ceil_div(n: int, d: int) -> int {
    n / d + if n % d != 0 { 1int } else { 0 }
}

/// The workspace's row of shared controls.
pub open spec fn workspace_controls(area: Rect) -> Rect {
    Rect::placed(area.x as int, area.y as int, area.width as int, min_int(DETAILS_SHARED_CONTROLS_HEIGHT as int, area.height as int))
}

/// The workspace below its shared controls.
pub open spec fn workspace_content(area: Rect) -> Rect {
    let y = add16(area.y as int, workspace_controls(area).height as int);
    Rect::placed(area.x as int, y, area.width as int, sub0(area.bottom_spec(), y))
}

/// The workspace's content split between slots and samples.
pub open spec fn workspace_split(area: Rect, st: GraphWorkspaceState) -> (Rect, Option<Rect>, Option<SamplesPlacement>) {
    content_areas_spec(
        workspace_content(area),
        st.show_samples_panel,
        st.entry_count as int,
        st.show_sample_delta,
        st.ab_complete,
        st.slot_min_width as int,
        st.slot_min_height as int,
    )
}

/// The viewport of the slots: inside their frame.
pub open spec fn workspace_viewport(area: Rect, st: GraphWorkspaceState) -> Rect {
    workspace_split(area, st).0.shrunk(1, 1)
}

/// The grid of the slots: its columns, its rows in all, the rows shown, the
/// last first row and whether it is compact. Rows shown: none without graphs,
/// one when the viewport is lower than a slot (compact), else as many slots as
/// fit in height (at least one). When not all rows fit, a column is given up
/// to the scrollbar where needed and the rows are counted again.
pub open spec fn workspace_grid(area: Rect, st: GraphWorkspaceState) -> (int, int, int, int, bool) {
    grid_for(workspace_viewport(area, st), st)
}

/// The grid of the slots in `viewport`; see `workspace_grid`.
pub open spec fn grid_for(viewport: Rect, st: GraphWorkspaceState) -> (int, int, int, int, bool) {
    let n = st.entry_count as int;
    let smw = st.slot_min_width as int;
    let smh = st.slot_min_height as int;
    let c0 = graph_columns_spec(st.slot_layout, n, viewport.width as int, smw);
    let t0 = ceil_div(n, c0);
    let compact = n > 0 && viewport.height < smh;
    let capacity = if n == 0 { 0int } else if compact { 1int } else { max_int(viewport.height as int / smh, 1) };
    let v0 = min_int(t0, capacity);
    let m0 = sub0(t0, v0);
    if m0 > 0 {
        let c1 = min_int(c0, max_int(sub0(viewport.width as int, 1) / smw, 1));
        let t1 = ceil_div(n, c1);
        let v1 = min_int(t1, capacity);
        (c1, t1, v1, sub0(t1, v1), compact)
    } else {
        (c0, t0, v0, m0, compact)
    }
}

/// The workspace's scrollbar: the right column of the viewport while rows are
/// hidden.
pub open spec fn workspace_scrollbar(area: Rect, st: GraphWorkspaceState) -> Option<Rect> {
    let viewport = workspace_viewport(area, st);
    if workspace_grid(area, st).3 > 0 && viewport.height > 0 {
        Some(Rect::placed(sub0(viewport.right_spec(), 1), viewport.y as int, 1, viewport.height as int))
    } else {
        None
    }
}

/// Where the cards stand: the viewport, less the scrollbar's column.
pub open spec fn workspace_cards_area(area: Rect, st: GraphWorkspaceState) -> Rect {
    let viewport = workspace_viewport(area, st);
    if workspace_scrollbar(area, st) is Some {
        Rect::placed(viewport.x as int, viewport.y as int, sub0(viewport.width as int, 1), viewport.height as int)
    } else {
        viewport
    }
}

/// `n / d` rounded up.
fn div_ceil(n: usize, d: usize) -> (r: usize)
    requires
        d > 0,
    ensures
        r == ceil_div(n as int, d as int),
        r <= n,
{
    proof {
        vstd::arithmetic::div_mod::lemma_fundamental_div_mod(n as int, d as int);
        if n % d != 0 {
            assert((n / d) as int + 1 <= n) by (nonlinear_arith)
                requires
                    n as int == d * (n / d) as int + (n % d) as int,
                    (n % d) as int >= 1,
                    d >= 1,
                    (n / d) as int >= 0;
        } else {
            assert((n / d) as int <= n) by (nonlinear_arith)
                requires
                    n as int == d * (n / d) as int + (n % d) as int,
                    d >= 1,
                    (n / d) as int >= 0,
                    (n % d) as int >= 0;
        }
    }
    n / d + if n % d != 0 { 1 } else { 0 }
}

/// The grid of the slots in `viewport`; see `workspace_grid`.
fn slot_grid(viewport: Rect, st: GraphWorkspaceState) -> (r: (usize, usize, usize, usize, bool))
    requires
        st.slot_min_width > 0,
        st.slot_min_height > 0,
    ensures
        (r.0 as int, r.1 as int, r.2 as int, r.3 as int, r.4) == grid_for(viewport, st),
        1 <= r.0 <= 3,
        r.2 < 65536,
        r.1 == r.2 + r.3,
{
    let n = st.entry_count;
    let mut columns = effective_graph_columns(st.slot_layout, n, viewport.width, st.slot_min_width);
    let mut total_rows = div_ceil(n, columns);
    let compact = n > 0 && viewport.height < st.slot_min_height;
    let row_capacity: usize = if n == 0 {
        0
    } else if compact {
        1
    } else {
        let fit = viewport.height / st.slot_min_height;
        if fit >= 1 { fit as usize } else { 1 }
    };
    let mut visible_rows = if total_rows < row_capacity { total_rows } else { row_capacity };
    let mut max_scroll_row = total_rows - visible_rows;
    if max_scroll_row > 0 {
        let fit = viewport.width.saturating_sub(1) / st.slot_min_width;
        let most: usize = if fit >= 1 { fit as usize } else { 1 };
        columns = if columns < most { columns } else { most };
        total_rows = div_ceil(n, columns);
        visible_rows = if total_rows < row_capacity { total_rows } else { row_capacity };
        max_scroll_row = total_rows - visible_rows;
    }
    (columns, total_rows, visible_rows, max_scroll_row, compact)
}

/// The areas of the graph workspace in `area`; see `workspace_grid` and the
/// functions it builds on.
pub fn graph_workspace_layout(area: Rect, st: GraphWorkspaceState) -> (r: GraphWorkspaceLayout)
    requires
        st.slot_min_width > 0,
        st.slot_min_height > 0,
    ensures
        r.controls == workspace_controls(area),
        r.graph_slots == workspace_split(area, st).0,
        r.samples == workspace_split(area, st).1,
        r.samples_placement == workspace_split(area, st).2,
        r.span_controls == span_controls_spec(workspace_split(area, st).0, st.entry_count as nat, st.span_seconds as nat),
        r.graph_viewport == workspace_viewport(area, st),
        r.columns == workspace_grid(area, st).0,
        r.total_rows == workspace_grid(area, st).1,
        r.visible_rows == workspace_grid(area, st).2,
        r.max_scroll_row == workspace_grid(area, st).3,
        r.compact == workspace_grid(area, st).4,
        r.graph_scrollbar == workspace_scrollbar(area, st),
        r.graph_cards@ == cards_spec(
            workspace_cards_area(area, st),
            st.entry_count as int,
            st.active_index,
            workspace_grid(area, st).0,
            min_int(st.scroll_row as int, workspace_grid(area, st).3),
            workspace_grid(area, st).2,
            workspace_grid(area, st).4,
        ),
{
    let controls = details_shared_controls_area(area);
    let content_y = area.y.saturating_add(controls.height);
    let content = Rect::new(area.x, content_y, area.width, area.bottom().saturating_sub(content_y));
    let (graph_slots, samples, samples_placement) = graph_workspace_content_areas(
        content,
        st.show_samples_panel,
        st.entry_count,
        st.show_sample_delta,
        st.ab_complete,
        st.slot_min_width,
        st.slot_min_height,
    );
    let span_controls = graph_span_control_areas(graph_slots, st.entry_count, st.span_seconds);
    let viewport = graph_slots.inner(1, 1);
    let n = st.entry_count;
    let (columns, total_rows, visible_rows, max_scroll_row, compact) = slot_grid(viewport, st);
    let scroll_row = if st.scroll_row < max_scroll_row { st.scroll_row } else { max_scroll_row };
    let graph_scrollbar = if max_scroll_row > 0 && viewport.height > 0 {
        Some(Rect::new(viewport.right().saturating_sub(1), viewport.y, 1, viewport.height))
    } else {
        None
    };
    let cards_area = if graph_scrollbar.is_some() {
        Rect::new(viewport.x, viewport.y, viewport.width.saturating_sub(1), viewport.height)
    } else {
        viewport
    };
    let graph_cards = graph_card_layouts(cards_area, n, st.active_index, columns, scroll_row, visible_rows, compact);
    GraphWorkspaceLayout {
        controls,
        graph_slots,
        span_controls,
        graph_viewport: viewport,
        graph_cards,
        graph_scrollbar,
        samples,
        samples_placement,
        columns,
        total_rows,
        visible_rows,
        max_scroll_row,
        compact,
    }
}

/// The rows of a graph card's plot: a label row, the chart (at least 8 rows)
/// and the axis row.
pub open spec fn graph_row_constraints() -> Seq<SizeConstraint> {
    seq![SizeConstraint::Length(1), SizeConstraint::Min(8), SizeConstraint::Length(1)]
}

/// The rows of a graph card's plot, split by `graph_row_constraints`.
pub fn details_graph_rows(area: Rect) -> (r: Vec<Rect>)
    ensures
        split_fits(area, true, 3, r@),
        rows_fit(area, 10) ==> r@ == framed_rows(area, 1, 1),
{
    let constraints = vec![SizeConstraint::Length(1), SizeConstraint::Min(8), SizeConstraint::Length(1)];
    proof {
        assert(constraints@ =~= graph_row_constraints());
        if rows_fit(area, 10) {
            lemma_framed_split(area, 1, 8, 1);
        }
    }
    split_rows(area, &constraints)
}

/// The chart inside the middle row block `chart` of a graph card's plot: below
/// one row of headroom, moved right by the axis labels' width (leaving one
/// column).
pub open spec fn chart_area_spec(chart: Rect, left_padding: int) -> Rect {
    let pad = min_int(left_padding, sub0(chart.width as int, 1));
    Rect::placed(add16(chart.x as int, pad), add16(chart.y as int, 1), sub0(chart.width as int, pad), sub0(chart.height as int, 1))
}

/// The chart inside the middle row block of a plot; see `chart_area_spec`.
pub fn chart_area_in(chart: Rect, left_padding: u16) -> (r: Rect)
    ensures
        r == chart_area_spec(chart, left_padding as int),
{
    let room = chart.width.saturating_sub(1);
    let pad = if left_padding < room { left_padding } else { room };
    Rect::new(chart.x.saturating_add(pad), chart.y.saturating_add(1), chart.width.saturating_sub(pad), chart.height.saturating_sub(1))
}

/// The chart of a graph card's plot: the plot split into its rows, then the
/// chart placed in the middle block as `chart_area_spec` says.
pub fn details_graph_chart_area(area: Rect, left_padding: u16) -> (r: Option<Rect>)
    ensures
        exists|chart: Rect| #![trigger chart_area_spec(chart, left_padding as int)]
            part_fits(chart, area, true) && r == Some(chart_area_spec(chart, left_padding as int)),
        rows_fit(area, 10) ==> r == Some(
            chart_area_spec(row_block(area, area.y + 1, area.height - 2), left_padding as int),
        ),
{
    let rows = details_graph_rows(area);
    let r = chart_area_in(rows[1], left_padding);
    proof {
        assert(part_fits(rows@[1], area, true));
        assert(r == chart_area_spec(rows@[1], left_padding as int));
    }
    Some(r)
}

} // verus!

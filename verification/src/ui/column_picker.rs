//! The column picker dialog.

use vstd::prelude::*;

use crate::ui::graph_slot::{styled_seq, StyledText, TextStyle};
use crate::ui::help::{shortcut_width, shortcut_width_spec, styled_lines};
use crate::ui::rect::{add16, add_upto, max_int, min_int, sub0, Rect};
use crate::ui::text::{pad_end, pad_end_string};
use crate::ui::theme::Theme;
use crate::ui::widgets::scrollable_modal::{ScrollableModal, ScrollableModalPlacement};

verus! {

/// The heading of the dialog.
pub const HEADER_TITLE: &'static str = "Select process columns";
/// Rows of the heading and the blank row after it.
pub const HEADER_AND_GAP_LINE_COUNT: u16 = 2;
/// Characters of the column label field.
pub const LABEL_WIDTH: usize = 10;

/// The footer shortcuts of the dialog.
pub fn shortcut_items() -> (r: Vec<(&'static str, &'static str)>)
    ensures
        r@.len() == 3,
        r@[0].0@ == "↑/↓"@ && r@[0].1@ == "select"@,
        r@[1].0@ == "Space"@ && r@[1].1@ == "toggle"@,
        r@[2].0@ == "Enter/Esc"@ && r@[2].1@ == "close"@,
{
    let mut r = Vec::new();
    r.push(("↑/↓", "select"));
    r.push(("Space", "toggle"));
    r.push(("Enter/Esc", "close"));
    r
}

/// Characters of the footer.
pub fn column_picker_shortcut_width() -> (r: usize)
    ensures
        r == 41,
{
    let items = shortcut_items();
    proof {
        reveal_strlit("↑/↓");
        reveal_strlit("select");
        reveal_strlit("Space");
        reveal_strlit("toggle");
        reveal_strlit("Enter/Esc");
        reveal_strlit("close");
        reveal_with_fuel(shortcut_width_spec, 4);
        assert(items@.drop_last().drop_last().drop_last().len() == 0);
    }
    shortcut_width(&items)
}

/// Characters of the row of a column: cursor, box, label padded to its field,
/// a slash and the description.
pub open spec fn row_width_spec(label_len: int, description_len: int) -> int {
    6 + max_int(label_len, LABEL_WIDTH as int) + 3 + description_len
}

/// Characters of the row of a column with `label` and `description`.
pub fn column_picker_row_width(label: &str, description: &str) -> (r: usize)
    requires
        row_width_spec(label@.len() as int, description@.len() as int) <= usize::MAX,
    ensures
        r == row_width_spec(label@.len() as int, description@.len() as int),
{
    let l = label.unicode_len();
    let padded = if l > LABEL_WIDTH { l } else { LABEL_WIDTH };
    6 + padded + 3 + description.unicode_len()
}

/// The widest row among columns given as (label, description).
pub open spec fn widest_row(columns: Seq<(&'static str, &'static str)>) -> int
    decreases columns.len(),
{
    if columns.len() == 0 {
        0
    } else {
        max_int(widest_row(columns.drop_last()), row_width_spec(columns.last().0@.len() as int, columns.last().1@.len() as int))
    }
}

/// Characters of the dialog body: the heading, footer or widest row, cut to
/// sixteen bits.
pub open spec fn content_width_spec(columns: Seq<(&'static str, &'static str)>) -> u16 {
    max_int(max_int(22, 41), widest_row(columns)) as u16
}

/// Characters of the dialog body for the columns given as (label, description).
pub fn column_picker_content_width(columns: &Vec<(&'static str, &'static str)>) -> (r: u16)
    requires
        forall|i: int| 0 <= i < columns@.len() ==> row_width_spec(#[trigger] columns@[i].0@.len() as int, columns@[i].1@.len() as int)
            <= usize::MAX,
    ensures
        r == content_width_spec(columns@),
{
    proof {
        reveal_strlit("Select process columns");
    }
    let title = HEADER_TITLE.unicode_len();
    let shortcut = column_picker_shortcut_width();
    let mut widest: usize = if title > shortcut { title } else { shortcut };
    let mut rows: usize = 0;
    let mut i: usize = 0;
    while i < columns.len()
        invariant
            i <= columns@.len(),
            widest == 41,
            rows == widest_row(columns@.take(i as int)),
            forall|k: int| 0 <= k < columns@.len() ==> row_width_spec(#[trigger] columns@[k].0@.len() as int, columns@[k].1@.len() as int)
                <= usize::MAX,
        decreases columns@.len() - i,
    {
        let (label, description) = columns[i];
        let w = column_picker_row_width(label, description);
        proof {
            assert(columns@.take(i + 1).drop_last() =~= columns@.take(i as int));
        }
        if w > rows {
            rows = w;
        }
        i = i + 1;
    }
    assert(columns@.take(columns@.len() as int) =~= columns@);
    if rows > widest {
        widest = rows;
    }
    widest as u16
}

/// Rows of the dialog body: heading, gap and one per column, held at sixteen
/// bits.
pub fn column_picker_content_height(column_count: usize) -> (r: u16)
    ensures
        r == add16(HEADER_AND_GAP_LINE_COUNT as int, (column_count as u16) as int),
{
    HEADER_AND_GAP_LINE_COUNT.saturating_add(column_count as u16)
}

/// The body row of the column at `index`.
pub fn column_picker_row_for_index(index: usize) -> (r: usize)
    ensures
        r == add_upto(HEADER_AND_GAP_LINE_COUNT as int, index as int, usize::MAX as int),
{
    (HEADER_AND_GAP_LINE_COUNT as usize).saturating_add(index)
}

/// The dialog for columns given as (label, description).
pub fn column_picker_modal(columns: &Vec<(&'static str, &'static str)>) -> (r: ScrollableModal)
    requires
        forall|i: int| 0 <= i < columns@.len() ==> row_width_spec(#[trigger] columns@[i].0@.len() as int, columns@[i].1@.len() as int)
            <= usize::MAX,
    ensures
        r.title@ == "COLUMNS"@,
        r.content_width == content_width_spec(columns@),
        r.content_height == add16(HEADER_AND_GAP_LINE_COUNT as int, (columns@.len() as u16) as int),
        r.footer_height == 1,
        r.placement == ScrollableModalPlacement::Centered,
{
    ScrollableModal::new(
        "COLUMNS",
        column_picker_content_width(columns),
        column_picker_content_height(columns.len()),
        1,
    )
}

/// The largest scroll offset of the dialog body for pages of `page_size` rows.
pub fn column_picker_scroll_max_for_page_size(columns: &Vec<(&'static str, &'static str)>, page_size: usize) -> (r: usize)
    requires
        forall|i: int| 0 <= i < columns@.len() ==> row_width_spec(#[trigger] columns@[i].0@.len() as int, columns@[i].1@.len() as int)
            <= usize::MAX,
    ensures
        r == sub0(add16(HEADER_AND_GAP_LINE_COUNT as int, (columns@.len() as u16) as int), if page_size >= 1 {
            page_size as int
        } else {
            1
        }),
{
    column_picker_modal(columns).max_offset_for_page_size(page_size)
}

/// The column under the cell `(x, y)` of the dialog body scrolled by
/// `scroll_offset`: none outside the body, on the heading rows, or past the last
/// column.
pub fn column_picker_index_at(
    columns: &Vec<(&'static str, &'static str)>,
    area: Rect,
    x: u16,
    y: u16,
    scroll_offset: usize,
) -> (r: Option<usize>)
    requires
        forall|i: int| 0 <= i < columns@.len() ==> row_width_spec(#[trigger] columns@[i].0@.len() as int, columns@[i].1@.len() as int)
            <= usize::MAX,
    ensures
        ({
            let modal = ScrollableModal {
                title: "COLUMNS",
                content_width: content_width_spec(columns@),
                content_height: add16(HEADER_AND_GAP_LINE_COUNT as int, (columns@.len() as u16) as int) as u16,
                footer_height: 1,
                placement: ScrollableModalPlacement::Centered,
            };
            let content = modal.layout_in(area).content;
            if !content.contains_spec(x as int, y as int) {
                r is None
            } else {
                let row = add_upto(y - content.y, scroll_offset as int, usize::MAX as int);
                if row < HEADER_AND_GAP_LINE_COUNT || row - HEADER_AND_GAP_LINE_COUNT >= columns@.len() {
                    r is None
                } else {
                    r == Some((row - HEADER_AND_GAP_LINE_COUNT) as usize)
                }
            }
        }),
{
    let modal = column_picker_modal(columns);
    let content = modal.layout(area).content;
    if x < content.x || x >= content.right() || y < content.y || y >= content.bottom() {
        return None;
    }
    let row = ((y - content.y) as usize).saturating_add(scroll_offset);
    let header_rows = HEADER_AND_GAP_LINE_COUNT as usize;
    if row < header_rows {
        return None;
    }
    let index = row - header_rows;
    if index < columns.len() {
        Some(index)
    } else {
        None
    }
}

/// The look of the start of a column's row: raised under the cursor, body
/// text for a shown column, muted for a hidden one.
pub open spec fn row_style(is_cursor: bool, shown: bool, theme: Theme) -> TextStyle {
    if is_cursor {
        TextStyle { fg: Some(theme.text), bg: Some(theme.highlight), bold: true, underlined: false }
    } else if shown {
        TextStyle { fg: Some(theme.text), bg: None, bold: false, underlined: false }
    } else {
        TextStyle { fg: Some(theme.muted), bg: None, bold: false, underlined: false }
    }
}

/// The look of a column's description: raised under the cursor, muted for a
/// shown column, in the exited colour for a hidden one.
pub open spec fn description_style_spec(is_cursor: bool, shown: bool, theme: Theme) -> TextStyle {
    if is_cursor {
        TextStyle { fg: Some(theme.text), bg: Some(theme.highlight), bold: true, underlined: false }
    } else if shown {
        TextStyle { fg: Some(theme.muted), bg: None, bold: false, underlined: false }
    } else {
        TextStyle { fg: Some(theme.exited), bg: None, bold: false, underlined: false }
    }
}

/// The look of a column's description; see `description_style_spec`.
pub fn description_style(is_cursor: bool, shown: bool, theme: &Theme) -> (r: TextStyle)
    ensures
        r == description_style_spec(is_cursor, shown, *theme),
{
    if is_cursor {
        TextStyle { fg: Some(theme.text), bg: Some(theme.highlight), bold: true, underlined: false }
    } else if shown {
        TextStyle::fg(theme.muted)
    } else {
        TextStyle::fg(theme.exited)
    }
}

/// The row of a column: the cursor mark, the box (ticked when shown) and the
/// label padded to its field; a muted slash; the description.
pub open spec fn column_row_spec(label: Seq<char>, description: Seq<char>, is_cursor: bool, shown: bool, theme: Theme) -> Seq<(Seq<char>, TextStyle)> {
    seq![
        ((if is_cursor { ">"@ } else { " "@ }) + " "@ + (if shown { "[x]"@ } else { "[ ]"@ }) + " "@ + pad_end(
            label,
            LABEL_WIDTH as int,
        ), row_style(is_cursor, shown, theme)),
        (" / "@, TextStyle { fg: Some(theme.muted), bg: None, bold: false, underlined: false }),
        (description, description_style_spec(is_cursor, shown, theme)),
    ]
}

/// The body of the dialog: the bold heading, a blank row, then a row per
/// column (given as label and description) in turn, `shown` listing the
/// places of the columns the table shows and `cursor` the place under the
/// cursor.
pub open spec fn column_picker_lines_spec(
    columns: Seq<(&'static str, &'static str)>,
    shown: Seq<usize>,
    cursor: usize,
    theme: Theme,
) -> Seq<Seq<(Seq<char>, TextStyle)>> {
    seq![
        seq![(HEADER_TITLE@, TextStyle { fg: Some(theme.text), bg: None, bold: true, underlined: false })],
        Seq::empty(),
    ] + Seq::new(
        columns.len(),
        |i: int| column_row_spec(columns[i].0@, columns[i].1@, i == cursor, shown.contains(i as usize), theme),
    )
}

/// Whether `places` lists `index`.
fn lists(places: &Vec<usize>, index: usize) -> (r: bool)
    ensures
        r == places@.contains(index),
{
    let mut i: usize = 0;
    while i < places.len()
        invariant
            i <= places@.len(),
            forall|k: int| 0 <= k < i ==> places@[k] != index,
        decreases places@.len() - i,
    {
        if places[i] == index {
            assert(places@[i as int] == index);
            return true;
        }
        i = i + 1;
    }
    false
}

/// The body of the dialog; see `column_picker_lines_spec`.
pub fn column_picker_lines(
    columns: &Vec<(&'static str, &'static str)>,
    shown: &Vec<usize>,
    cursor: usize,
    theme: &Theme,
) -> (r: Vec<Vec<StyledText>>)
    ensures
        styled_lines(r@) == column_picker_lines_spec(columns@, shown@, cursor, *theme),
{
    let ghost want = column_picker_lines_spec(columns@, shown@, cursor, *theme);
    let heading = vec![StyledText {
        text: String::from_str(HEADER_TITLE),
        style: TextStyle { fg: Some(theme.text), bg: None, bold: true, underlined: false },
    }];
    proof {
        assert(styled_seq(heading@) =~= want[0]);
    }
    let blank: Vec<StyledText> = Vec::new();
    assert(styled_seq(blank@) =~= want[1]);
    let mut lines: Vec<Vec<StyledText>> = Vec::new();
    lines.push(heading);
    lines.push(blank);
    assert(styled_lines(lines@) =~= want.take(2));
    let n = columns.len();
    let mut i: usize = 0;
    while i < n
        invariant
            i <= n == columns@.len(),
            want == column_picker_lines_spec(columns@, shown@, cursor, *theme),
            want.len() == n + 2,
            styled_lines(lines@) == want.take(i + 2),
        decreases n - i,
    {
        let (label, description) = columns[i];
        let is_cursor = i == cursor;
        let is_shown = lists(shown, i);
        let mut head = String::from_str(if is_cursor { ">" } else { " " });
        head.append(" ");
        head.append(if is_shown { "[x]" } else { "[ ]" });
        head.append(" ");
        let padded = pad_end_string(label, LABEL_WIDTH);
        head.append(padded.as_str());
        let style = if is_cursor {
            TextStyle { fg: Some(theme.text), bg: Some(theme.highlight), bold: true, underlined: false }
        } else if is_shown {
            TextStyle::fg(theme.text)
        } else {
            TextStyle::fg(theme.muted)
        };
        let row = vec![
            StyledText { text: head, style },
            StyledText { text: String::from_str(" / "), style: TextStyle::fg(theme.muted) },
            StyledText { text: String::from_str(description), style: description_style(is_cursor, is_shown, theme) },
        ];
        proof {
            assert(styled_seq(row@) =~= want[i + 2]);
        }
        let ghost before = lines@;
        lines.push(row);
        assert(styled_lines(lines@) =~= styled_lines(before).push(want[i + 2]));
        assert(styled_lines(lines@) =~= want.take(i + 3));
        i = i + 1;
    }
    assert(want.take(n + 2) =~= want);
    lines
}

} // verus!

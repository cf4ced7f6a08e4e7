//! The main menu.

use vstd::prelude::*;

use crate::ui::graph_slot::{styled_view, StyledText, TextStyle};
use crate::ui::rect::{add16, max_int, min_int, Rect};
use crate::ui::text::{pad_end, pad_end_string, repeat_string, repeated};
use crate::ui::theme::Theme;
use crate::ui::widgets::scrollable_modal::{ScrollableModal, ScrollableModalPlacement};

verus! {

/// Rows of the header bar above the menu.
pub const HEADER_HEIGHT: u16 = 1;

/// Characters of a menu row: the cursor, two columns per level and its label.
pub open spec fn menu_row_width(depth: int, label_len: int) -> int {
    2 + depth * 2 + label_len
}

/// The widest row among rows given as (depth, label).
pub open spec fn widest_menu_row(rows: Seq<(u8, String)>) -> int
    decreases rows.len(),
{
    if rows.len() == 0 {
        0
    } else {
        max_int(widest_menu_row(rows.drop_last()), menu_row_width(rows.last().0 as int, rows.last().1@.len() as int))
    }
}

/// Characters of the menu for rows given as (depth, label): its widest row,
/// held at sixteen bits.
pub fn main_menu_content_width(rows: &Vec<(u8, String)>) -> (r: u16)
    requires
        forall|i: int| 0 <= i < rows@.len() ==> menu_row_width(#[trigger] rows@[i].0 as int, rows@[i].1@.len() as int) <= usize::MAX,
    ensures
        r == min_int(widest_menu_row(rows@), u16::MAX as int),
{
    let mut widest: usize = 0;
    let mut i: usize = 0;
    while i < rows.len()
        invariant
            i <= rows@.len(),
            widest == widest_menu_row(rows@.take(i as int)),
            forall|k: int| 0 <= k < rows@.len() ==> menu_row_width(#[trigger] rows@[k].0 as int, rows@[k].1@.len() as int)
                <= usize::MAX,
        decreases rows@.len() - i,
    {
        proof {
            assert(rows@.take(i + 1).drop_last() =~= rows@.take(i as int));
            assert(menu_row_width(rows@[i as int].0 as int, rows@[i as int].1@.len() as int) <= usize::MAX);
        }
        let w = 2 + (rows[i].0 as usize) * 2 + rows[i].1.as_str().unicode_len();
        if w > widest {
            widest = w;
        }
        i = i + 1;
    }
    assert(rows@.take(rows@.len() as int) =~= rows@);
    if widest < 65535 {
        widest as u16
    } else {
        65535
    }
}

/// The menu for rows given as (depth, label): anchored below the header, one
/// body row per menu row, no footer.
pub fn main_menu_modal(rows: &Vec<(u8, String)>) -> (r: ScrollableModal)
    requires
        forall|i: int| 0 <= i < rows@.len() ==> menu_row_width(#[trigger] rows@[i].0 as int, rows@[i].1@.len() as int) <= usize::MAX,
    ensures
        r.title@ == ""@,
        r.content_width == min_int(widest_menu_row(rows@), u16::MAX as int),
        r.content_height == min_int(rows@.len() as int, u16::MAX as int),
        r.footer_height == 0,
        r.placement == (ScrollableModalPlacement::TopLeft { top_offset: HEADER_HEIGHT }),
{
    let n = rows.len();
    let h = if n < 65535 { n as u16 } else { 65535 };
    ScrollableModal::new("", main_menu_content_width(rows), h, 0).with_top_left_placement(HEADER_HEIGHT)
}

/// The menu row under the cell `(x, y)`: none outside the menu body or past its
/// last row.
pub fn main_menu_index_at(rows: &Vec<(u8, String)>, area: Rect, x: u16, y: u16) -> (r: Option<usize>)
    requires
        forall|i: int| 0 <= i < rows@.len() ==> menu_row_width(#[trigger] rows@[i].0 as int, rows@[i].1@.len() as int) <= usize::MAX,
    ensures
        ({
            let modal = ScrollableModal {
                title: "",
                content_width: min_int(widest_menu_row(rows@), u16::MAX as int) as u16,
                content_height: min_int(rows@.len() as int, u16::MAX as int) as u16,
                footer_height: 0,
                placement: ScrollableModalPlacement::TopLeft { top_offset: HEADER_HEIGHT },
            };
            let content = modal.layout_in(area).content;
            if !content.contains_spec(x as int, y as int) || y - content.y >= rows@.len() {
                r is None
            } else {
                r == Some((y - content.y) as usize)
            }
        }),
{
    let content = main_menu_modal(rows).layout(area).content;
    if x < content.x || x >= content.right() || y < content.y || y >= content.bottom() {
        return None;
    }
    let index = (y - content.y) as usize;
    if index < rows.len() {
        Some(index)
    } else {
        None
    }
}

/// The body of the menu for rows given as (depth, label) in `area`.
pub open spec fn menu_content(rows: Seq<(u8, String)>, area: Rect) -> Rect {
    (ScrollableModal {
        title: "",
        content_width: min_int(widest_menu_row(rows), u16::MAX as int) as u16,
        content_height: min_int(rows.len() as int, u16::MAX as int) as u16,
        footer_height: 0,
        placement: ScrollableModalPlacement::TopLeft { top_offset: HEADER_HEIGHT },
    }).layout_in(area).content
}

/// The cells of menu row `index`: one row across the body, when the row
/// exists and the body reaches it.
pub fn main_menu_item_area(rows: &Vec<(u8, String)>, area: Rect, index: usize) -> (r: Option<Rect>)
    requires
        forall|i: int| 0 <= i < rows@.len() ==> menu_row_width(#[trigger] rows@[i].0 as int, rows@[i].1@.len() as int) <= usize::MAX,
    ensures
        r == if index < rows@.len() && index < menu_content(rows@, area).height {
            Some(Rect::placed(
                menu_content(rows@, area).x as int,
                add16(menu_content(rows@, area).y as int, (index as u16) as int),
                menu_content(rows@, area).width as int,
                1,
            ))
        } else {
            None
        },
{
    let content = main_menu_modal(rows).layout(area).content;
    if index < rows.len() && index < content.height as usize {
        Some(Rect::new(content.x, content.y.saturating_add(index as u16), content.width, 1))
    } else {
        None
    }
}

/// The text of a menu row: the cursor on the selected row, two columns per
/// level, the label, padded to the body's width.
pub open spec fn menu_row_text(depth: u8, label: Seq<char>, selected: bool, width: int) -> Seq<char> {
    pad_end((if selected { "> "@ } else { "  "@ }) + repeated(' ', 2 * depth) + label, width)
}

/// The look of a menu row: raised on the selection colour when selected, on
/// the focus colour when hovered, plain text otherwise.
pub open spec fn menu_row_style(selected: bool, hovered: bool, theme: Theme) -> TextStyle {
    if selected {
        TextStyle { fg: Some(theme.text), bg: Some(theme.table_selection_surface), bold: true, underlined: false }
    } else if hovered {
        TextStyle { fg: Some(theme.text), bg: Some(theme.focus_surface), bold: true, underlined: false }
    } else {
        TextStyle { fg: Some(theme.text), bg: None, bold: false, underlined: false }
    }
}

/// The lines of the menu, one per row given as (depth, label); `selected` is
/// the selected row and `hovered` the row under the pointer.
pub fn main_menu_lines(rows: &Vec<(u8, String)>, selected: usize, hovered: Option<usize>, theme: &Theme) -> (r: Vec<StyledText>)
    requires
        forall|i: int| 0 <= i < rows@.len() ==> menu_row_width(#[trigger] rows@[i].0 as int, rows@[i].1@.len() as int) <= usize::MAX,
    ensures
        r@.len() == rows@.len(),
        forall|i: int| 0 <= i < rows@.len() ==> #[trigger] styled_view(r@[i]) == (
            menu_row_text(rows@[i].0, rows@[i].1@, i == selected, min_int(widest_menu_row(rows@), u16::MAX as int)),
            menu_row_style(i == selected, hovered == Some(i as usize), *theme),
        ),
{
    let width = main_menu_content_width(rows) as usize;
    let mut out: Vec<StyledText> = Vec::new();
    let mut i: usize = 0;
    while i < rows.len()
        invariant
            i <= rows@.len(),
            width == min_int(widest_menu_row(rows@), u16::MAX as int),
            out@.len() == i,
            forall|k: int| 0 <= k < i ==> #[trigger] styled_view(out@[k]) == (
                menu_row_text(rows@[k].0, rows@[k].1@, k == selected, width as int),
                menu_row_style(k == selected, hovered == Some(k as usize), *theme),
            ),
        decreases rows@.len() - i,
    {
        let is_selected = i == selected;
        let mut text = String::from_str(if is_selected { "> " } else { "  " });
        let indent = repeat_string(' ', 2 * (rows[i].0 as usize));
        text.append(indent.as_str());
        text.append(rows[i].1.as_str());
        let padded = pad_end_string(text.as_str(), width);
        let style = if is_selected {
            TextStyle { fg: Some(theme.text), bg: Some(theme.table_selection_surface), bold: true, underlined: false }
        } else if hovered == Some(i) {
            TextStyle { fg: Some(theme.text), bg: Some(theme.focus_surface), bold: true, underlined: false }
        } else {
            TextStyle::fg(theme.text)
        };
        out.push(StyledText { text: padded, style });
        i = i + 1;
    }
    out
}

} // verus!

//! The process information dialog: the rows of its tab strip, the split of
//! its frame into tabs, body and footer, and the small texts of its pages.

use vstd::prelude::*;

use crate::ui::details_panel::{two_digit_string, two_digits};
use crate::ui::format::{decimal, decimal_string};
use crate::ui::layout::{is_dialog_space, screen_body, screen_fits, screen_layout};
use crate::ui::open_files::{list_scrollbar_fits, list_scrollbar_position, open_files_scrollbar_position};
use crate::ui::rect::{add16, add_upto, min_int, sub0, Rect};
use crate::ui::process_environment::{detail_lines, labelled_lines};
use crate::ui::process_modules::append_lines;
use crate::ui::styled::{line_view, lines_view, piece, push_line, single, single_line, Piece, Tone};
use crate::ui::text::{
    concat3, pad_end, pad_end_string, pad_start, pad_start_string, repeat_string, repeated, span_width, str_width,
    wrap_display, wrapped,
};
use crate::ui::widgets::scrollable_modal::{ScrollableModal, ScrollableModalPlacement};

verus! {

/// Blank columns around the label of a tab.
pub const TAB_HORIZONTAL_PADDING: u16 = 2;

/// The dialog's frame: a body of 138 by 20 cells over one footer row.
pub open spec fn process_info_modal_spec() -> ScrollableModal {
    ScrollableModal {
        title: "",
        content_width: 138,
        content_height: 20,
        footer_height: 1,
        placement: ScrollableModalPlacement::Centered,
    }
}

/// The dialog's frame; see `process_info_modal_spec`.
pub fn process_info_modal() -> (r: ScrollableModal)
    ensures
        r == process_info_modal_spec(),
{
    ScrollableModal::new("", 138, 20, 1)
}

/// Areas of the dialog: its frame, the tab strip, the page body and the footer.
#[derive(Clone, Copy, Debug, PartialEq, Eq, Structural)]
pub struct ProcessInfoDialogLayout {
    pub area: Rect,
    pub tabs: Rect,
    pub content: Rect,
    pub footer: Rect,
}

/// Columns a tab takes: its label with padding.
pub open spec fn tab_width(label: Seq<char>) -> int {
    label.len() + TAB_HORIZONTAL_PADDING
}

/// Columns all tabs take side by side.
pub open spec fn tabs_width(labels: Seq<&str>) -> int
    decreases labels.len(),
{
    if labels.len() == 0 {
        0
    } else {
        tabs_width(labels.drop_last()) + tab_width(labels.last()@)
    }
}

/// Rows of the tab strip: one when every tab fits side by side, else two.
pub open spec fn tab_rows_spec(width: int, labels: Seq<&str>) -> int {
    if width >= tabs_width(labels) { 1 } else { 2 }
}

/// The tabs of a prefix take no more columns than all of them.
pub proof fn lemma_tabs_width_prefix(labels: Seq<&str>, i: int)
    requires
        0 <= i <= labels.len(),
    ensures
        0 <= tabs_width(labels.take(i)) <= tabs_width(labels),
    decreases labels.len() - i,
{
    if i == labels.len() {
        assert(labels.take(i) =~= labels);
        lemma_tabs_width_nonnegative(labels);
    } else {
        lemma_tabs_width_prefix(labels, i + 1);
        assert(labels.take(i + 1).drop_last() =~= labels.take(i));
        lemma_tabs_width_nonnegative(labels.take(i));
    }
}

/// Tabs take a nonnegative number of columns.
pub proof fn lemma_tabs_width_nonnegative(labels: Seq<&str>)
    ensures
        tabs_width(labels) >= 0,
    decreases labels.len(),
{
    if labels.len() > 0 {
        lemma_tabs_width_nonnegative(labels.drop_last());
    }
}

/// Rows of the tab strip in `width` columns; see `tab_rows_spec`.
pub fn tab_row_count(width: u16, labels: &Vec<&str>) -> (r: u16)
    requires
        tabs_width(labels@) <= u16::MAX,
    ensures
        r == tab_rows_spec(width as int, labels@),
{
    let mut required: u16 = 0;
    let mut i: usize = 0;
    while i < labels.len()
        invariant
            i <= labels@.len(),
            tabs_width(labels@) <= u16::MAX,
            required == tabs_width(labels@.take(i as int)),
        decreases labels@.len() - i,
    {
        proof {
            lemma_tabs_width_prefix(labels@, i + 1);
            assert(labels@.take(i + 1).drop_last() =~= labels@.take(i as int));
            assert(labels@.take(i + 1).last() == labels@[i as int]);
        }
        let n = labels[i].unicode_len();
        required = required + (n as u16) + TAB_HORIZONTAL_PADDING;
        i = i + 1;
    }
    proof {
        assert(labels@.take(labels@.len() as int) =~= labels@);
    }
    if width >= required {
        1
    } else {
        2
    }
}

/// The empty rectangle at the origin.
pub open spec fn no_area() -> Rect {
    Rect { x: 0, y: 0, width: 0, height: 0 }
}

/// One tab placed at column `x` of row `row`: it moves to the start of the next
/// row when it would pass the right edge and a row is left; a tab that then
/// finds no room gets no area. Gives the next column, the row and the tab's
/// area.
pub open spec fn tab_step(area: Rect, x: int, row: int, label: Seq<char>) -> (int, int, Rect) {
    let desired = tab_width(label);
    let wrap = x > area.x && add16(x, desired) > area.right_spec() && add16(row, 1) < area.height;
    let row2 = if wrap { add16(row, 1) } else { row };
    let x2 = if wrap { area.x as int } else { x };
    if row2 >= area.height || x2 >= area.right_spec() {
        (x2, row2, no_area())
    } else {
        let width = min_int(desired, area.right_spec() - x2);
        (add16(x2, width), row2, Rect::placed(x2, add16(area.y as int, row2), width, 1))
    }
}

/// The tabs placed in turn from the top-left corner of `area`.
pub open spec fn tab_areas_state(area: Rect, labels: Seq<&str>) -> (int, int, Seq<Rect>)
    decreases labels.len(),
{
    if labels.len() == 0 {
        (area.x as int, 0, Seq::empty())
    } else {
        let (x, row, rects) = tab_areas_state(area, labels.drop_last());
        let (x2, row2, r) = tab_step(area, x, row, labels.last()@);
        (x2, row2, rects.push(r))
    }
}

/// The area of each tab in `area`; no area for any tab when `area` is empty.
pub open spec fn tab_areas_spec(area: Rect, labels: Seq<&str>) -> Seq<Rect> {
    if area.width == 0 || area.height == 0 {
        Seq::new(labels.len(), |_i: int| no_area())
    } else {
        tab_areas_state(area, labels).2
    }
}

/// The area of each tab in `area`; see `tab_areas_spec`.
pub fn tab_areas(area: Rect, labels: &Vec<&str>) -> (r: Vec<Rect>)
    requires
        forall|i: int| 0 <= i < labels@.len() ==> #[trigger] tab_width(labels@[i]@) <= u16::MAX,
    ensures
        r@ == tab_areas_spec(area, labels@),
{
    let mut out: Vec<Rect> = Vec::new();
    let n = labels.len();
    if area.is_empty() {
        let mut i: usize = 0;
        while i < n
            invariant
                i <= n == labels@.len(),
                out@ == Seq::new(i as nat, |_j: int| no_area()),
            decreases n - i,
        {
            out.push(Rect::zero());
            i = i + 1;
            assert(out@ =~= Seq::new(i as nat, |_j: int| no_area()));
        }
        return out;
    }
    let right = area.right();
    let mut x: u16 = area.x;
    let mut row: u16 = 0;
    let mut i: usize = 0;
    while i < n
        invariant
            i <= n == labels@.len(),
            area.width != 0 && area.height != 0,
            right == area.right_spec(),
            forall|j: int| 0 <= j < labels@.len() ==> #[trigger] tab_width(labels@[j]@) <= u16::MAX,
            x == tab_areas_state(area, labels@.take(i as int)).0,
            row == tab_areas_state(area, labels@.take(i as int)).1,
            out@ == tab_areas_state(area, labels@.take(i as int)).2,
        decreases n - i,
    {
        proof {
            assert(labels@.take(i + 1).drop_last() =~= labels@.take(i as int));
            assert(labels@.take(i + 1).last() == labels@[i as int]);
            assert(tab_width(labels@[i as int]@) <= u16::MAX);
        }
        let desired = (labels[i].unicode_len() as u16) + TAB_HORIZONTAL_PADDING;
        if x > area.x && x.saturating_add(desired) > right && row.saturating_add(1) < area.height {
            row = row.saturating_add(1);
            x = area.x;
        }
        if row >= area.height || x >= right {
            out.push(Rect::zero());
        } else {
            let room = right - x;
            let width = if desired < room { desired } else { room };
            out.push(Rect::new(x, area.y.saturating_add(row), width, 1));
            x = x.saturating_add(width);
        }
        i = i + 1;
    }
    proof {
        assert(labels@.take(n as int) =~= labels@);
    }
    out
}

/// The dialog in the screen area below the header: the frame's body split into
/// the tab strip (held to the body's height) and the page under it.
pub open spec fn dialog_layout_spec(available: Rect, labels: Seq<&str>) -> ProcessInfoDialogLayout {
    let modal = process_info_modal_spec().layout_in(available);
    let c = modal.content;
    let tab_height = min_int(tab_rows_spec(c.width as int, labels), c.height as int);
    let tabs = Rect::placed(c.x as int, c.y as int, c.width as int, tab_height);
    ProcessInfoDialogLayout {
        area: modal.area,
        tabs,
        content: Rect::placed(c.x as int, tabs.bottom_spec(), c.width as int, c.height - tab_height),
        footer: modal.footer,
    }
}

/// The dialog in the screen area below the header; see `dialog_layout_spec`.
pub fn process_info_dialog_layout(available: Rect, labels: &Vec<&str>) -> (r: ProcessInfoDialogLayout)
    requires
        tabs_width(labels@) <= u16::MAX,
    ensures
        r == dialog_layout_spec(available, labels@),
{
    let modal = process_info_modal().layout(available);
    let c = modal.content;
    let rows = tab_row_count(c.width, labels);
    let tab_height = if rows < c.height { rows } else { c.height };
    let tabs = Rect::new(c.x, c.y, c.width, tab_height);
    let content = Rect::new(c.x, tabs.bottom(), c.width, c.height - tab_height);
    ProcessInfoDialogLayout { area: modal.area, tabs, content, footer: modal.footer }
}

/// The dialog on the screen: placed in the area below the header (see
/// `is_dialog_space`) as `dialog_layout_spec` says.
pub fn process_info_dialog_layout_for_screen(screen: Rect, labels: &Vec<&str>) -> (r: ProcessInfoDialogLayout)
    requires
        tabs_width(labels@) <= u16::MAX,
    ensures
        exists|space: Rect| #![trigger dialog_layout_spec(space, labels@)]
            is_dialog_space(screen, space) && r == dialog_layout_spec(space, labels@),
        screen_fits(screen) ==> r == dialog_layout_spec(screen_body(screen), labels@),
{
    let regions = screen_layout(screen);
    let r = process_info_dialog_layout(regions[1], labels);
    proof {
        assert(is_dialog_space(screen, regions@[1]));
        assert(r == dialog_layout_spec(regions@[1], labels@));
    }
    r
}

/// The page body of the dialog on the screen; see
/// `process_info_dialog_layout_for_screen`.
pub fn process_info_content_area_for_screen(screen: Rect, labels: &Vec<&str>) -> (r: Rect)
    requires
        tabs_width(labels@) <= u16::MAX,
    ensures
        exists|space: Rect| #![trigger dialog_layout_spec(space, labels@)]
            is_dialog_space(screen, space) && r == dialog_layout_spec(space, labels@).content,
        screen_fits(screen) ==> r == dialog_layout_spec(screen_body(screen), labels@).content,
{
    let layout = process_info_dialog_layout_for_screen(screen, labels);
    proof {
        let space = choose|space: Rect| #![trigger dialog_layout_spec(space, labels@)]
            is_dialog_space(screen, space) && layout == dialog_layout_spec(space, labels@);
        assert(layout.content == dialog_layout_spec(space, labels@).content);
    }
    layout.content
}

/// Rows of a page shown at once in a page body of height `content_height`: the
/// height, at least one.
pub fn process_info_page_size(content_height: u16) -> (r: usize)
    ensures
        r == if content_height >= 1 { content_height as int } else { 1 },
{
    if content_height >= 1 {
        content_height as usize
    } else {
        1
    }
}

/// Rows of a page shown at once on the screen: the page body's height (see
/// `process_info_content_area_for_screen`), at least one.
pub fn process_info_page_size_for_screen(screen: Rect, labels: &Vec<&str>) -> (r: usize)
    requires
        tabs_width(labels@) <= u16::MAX,
    ensures
        exists|space: Rect| #![trigger dialog_layout_spec(space, labels@)]
            is_dialog_space(screen, space) && r == if dialog_layout_spec(space, labels@).content.height >= 1 {
                dialog_layout_spec(space, labels@).content.height as int
            } else {
                1
            },
        screen_fits(screen) ==> r == if dialog_layout_spec(screen_body(screen), labels@).content.height >= 1 {
            dialog_layout_spec(screen_body(screen), labels@).content.height as int
        } else {
            1
        },
{
    let content = process_info_content_area_for_screen(screen, labels);
    proof {
        let space = choose|space: Rect| #![trigger dialog_layout_spec(space, labels@)]
            is_dialog_space(screen, space) && content == dialog_layout_spec(space, labels@).content;
        assert(dialog_layout_spec(space, labels@).content == content);
    }
    process_info_page_size(content.height)
}

/// Whether the cell `(x, y)` lies in `area`.
pub fn contains_point(area: Rect, x: u16, y: u16) -> (r: bool)
    ensures
        r == area.contains_spec(x as int, y as int),
{
    x >= area.x && x < area.right() && y >= area.y && y < area.bottom()
}

/// The tab under the cell `(x, y)` among the tabs laid out on the strip
/// `tabs`, by its place in `labels`: the first tab whose area holds the
/// cell, none when no tab does.
pub open spec fn tab_hit_spec(tabs: Rect, labels: Seq<&str>, x: int, y: int, r: Option<usize>) -> bool {
    let areas = tab_areas_spec(tabs, labels);
    match r {
        Some(i) => i < areas.len() && areas[i as int].contains_spec(x, y)
            && forall|j: int| 0 <= j < i ==> !(#[trigger] areas[j]).contains_spec(x, y),
        None => forall|j: int| 0 <= j < areas.len() ==> !(#[trigger] areas[j]).contains_spec(x, y),
    }
}

/// The tab under the cell `(x, y)` on the tab strip `tabs`; see `tab_hit_spec`.
pub fn process_info_tab_in(tabs: Rect, labels: &Vec<&str>, x: u16, y: u16) -> (r: Option<usize>)
    requires
        tabs_width(labels@) <= u16::MAX,
    ensures
        tab_hit_spec(tabs, labels@, x as int, y as int, r),
{
    proof {
        assert forall|i: int| 0 <= i < labels@.len() implies #[trigger] tab_width(labels@[i]@) <= u16::MAX by {
            lemma_tabs_width_prefix(labels@, i + 1);
            lemma_tabs_width_prefix(labels@.take(i + 1), i);
            assert(labels@.take(i + 1).drop_last() =~= labels@.take(i));
            assert(labels@.take(i + 1).take(i) =~= labels@.take(i));
            assert(labels@.take(i + 1).last() == labels@[i]);
        }
    }
    let areas = tab_areas(tabs, labels);
    let mut i: usize = 0;
    while i < areas.len()
        invariant
            i <= areas@.len(),
            areas@ == tab_areas_spec(tabs, labels@),
            forall|j: int| 0 <= j < i ==> !(#[trigger] areas@[j]).contains_spec(x as int, y as int),
        decreases areas@.len() - i,
    {
        if contains_point(areas[i], x, y) {
            return Some(i);
        }
        i = i + 1;
    }
    None
}

/// The tab under the cell `(x, y)` of the dialog on the screen: the dialog
/// placed as `process_info_dialog_layout_for_screen` says, then the tab found
/// on its strip as `tab_hit_spec` says.
pub fn process_info_tab_at(screen: Rect, labels: &Vec<&str>, x: u16, y: u16) -> (r: Option<usize>)
    requires
        tabs_width(labels@) <= u16::MAX,
    ensures
        exists|space: Rect| #![trigger dialog_layout_spec(space, labels@)]
            is_dialog_space(screen, space) && tab_hit_spec(dialog_layout_spec(space, labels@).tabs, labels@, x as int, y as int, r),
        screen_fits(screen) ==> tab_hit_spec(
            dialog_layout_spec(screen_body(screen), labels@).tabs,
            labels@,
            x as int,
            y as int,
            r,
        ),
{
    let layout = process_info_dialog_layout_for_screen(screen, labels);
    let r = process_info_tab_in(layout.tabs, labels, x, y);
    proof {
        let space = choose|space: Rect| #![trigger dialog_layout_spec(space, labels@)]
            is_dialog_space(screen, space) && layout == dialog_layout_spec(space, labels@);
        assert(tab_hit_spec(dialog_layout_spec(space, labels@).tabs, labels@, x as int, y as int, r));
    }
    r
}

/// Where the scrollbar of a page stands: the right column of `area`, when the
/// area is not empty and the page has more rows than it shows (at least one).
pub open spec fn generic_scrollbar_spec(area: Rect, total: int, rows: int) -> Option<Rect> {
    if area.width == 0 || area.height == 0 || total <= (if rows >= 1 { rows } else { 1 }) {
        None
    } else {
        Some(Rect::placed(sub0(area.right_spec(), 1), area.y as int, 1, area.height as int))
    }
}

/// Where the scrollbar of a page stands; see `generic_scrollbar_spec`.
pub fn generic_scrollbar_area(area: Rect, total: usize, rows: usize) -> (r: Option<Rect>)
    ensures
        r == generic_scrollbar_spec(area, total as int, rows as int),
{
    let shown = if rows >= 1 { rows } else { 1 };
    if area.is_empty() || total <= shown {
        return None;
    }
    Some(Rect::new(area.right().saturating_sub(1), area.y, 1, area.height))
}

/// Position of the scrollbar for the page at `offset`; see
/// `list_scrollbar_position`.
pub fn scrollbar_position(total: usize, rows: usize, offset: usize) -> (r: usize)
    requires
        list_scrollbar_fits(total as int, rows as int, offset as int),
    ensures
        r == list_scrollbar_position(total as int, rows as int, offset as int),
{
    open_files_scrollbar_position(total, rows, offset)
}

/// A value wrapped at `max_width` cells (at least one), keeping all of it.
pub fn wrap_display_width(value: &str, max_width: usize) -> (lines: Vec<String>)
    ensures
        lines@.len() == wrapped(value@, max_width as int).len(),
        forall|i: int| 0 <= i < lines@.len() ==> #[trigger] lines@[i]@ == wrapped(value@, max_width as int)[i],
{
    wrap_display(value, max_width)
}

/// The text of an information value, `--` when there is none.
pub fn info_value(value: Option<&str>) -> (r: String)
    ensures
        r@ == match value {
            Some(text) => text@,
            None => "--"@,
        },
{
    match value {
        Some(text) => String::from_str(text),
        None => String::from_str("--"),
    }
}

/// The process part of the dialog title, as ` · name · PID pid`.
pub fn process_info_title_target(name: &str, pid: u32) -> (r: String)
    ensures
        r@ == " · "@ + name@ + " · PID "@ + decimal(pid as nat),
{
    let mut out = String::from_str(" · ");
    out.append(name);
    out.append(" · PID ");
    let number = decimal_string(pid as u128);
    out.append(number.as_str());
    out
}

/// The name and PID of a process, as `name / PID pid`.
pub fn format_process_identity(name: &str, pid: u32) -> (r: String)
    ensures
        r@ == name@ + " / PID "@ + decimal(pid as nat),
{
    let mut out = String::from_str(name);
    out.append(" / PID ");
    let digits = decimal_string(pid as u128);
    out.append(digits.as_str());
    out
}

/// A duration of whole seconds as hours, minutes and seconds, two digits each
/// at least: `HH:MM:SS`; a negative duration counts as zero.
pub open spec fn duration_spec(seconds: int) -> Seq<char> {
    let total = if seconds > 0 { seconds } else { 0 };
    two_digits((total / 3600) as nat) + ":"@ + two_digits(((total % 3600) / 60) as nat) + ":"@
        + two_digits((total % 60) as nat)
}

/// A duration of whole seconds; see `duration_spec`.
pub fn format_duration(seconds: i64) -> (r: String)
    ensures
        r@ == duration_spec(seconds as int),
{
    let total: u64 = if seconds > 0 { seconds as u64 } else { 0 };
    let h = two_digit_string(total / 3600);
    let m = two_digit_string((total % 3600) / 60);
    let s = two_digit_string(total % 60);
    let mut out = h;
    out.append(":");
    out.append(m.as_str());
    out.append(":");
    out.append(s.as_str());
    out
}

/// The tabs of the dialog.
#[derive(Clone, Copy, Debug, PartialEq, Eq, Structural)]
pub enum ProcessInfoTab {
    Metrics,
    Image,
    Files,
    Dlls,
    Environment,
}

/// Rows of the page of `tab`, given the rows of each page: the metric and
/// image lines, the open files, the DLL list and the environment list.
pub fn process_info_total_rows(
    tab: ProcessInfoTab,
    metrics_rows: usize,
    image_rows: usize,
    files_rows: usize,
    dll_rows: usize,
    environment_rows: usize,
) -> (r: usize)
    ensures
        r == match tab {
            ProcessInfoTab::Metrics => metrics_rows,
            ProcessInfoTab::Image => image_rows,
            ProcessInfoTab::Files => files_rows,
            ProcessInfoTab::Dlls => dll_rows,
            ProcessInfoTab::Environment => environment_rows,
        },
{
    match tab {
        ProcessInfoTab::Metrics => metrics_rows,
        ProcessInfoTab::Image => image_rows,
        ProcessInfoTab::Files => files_rows,
        ProcessInfoTab::Dlls => dll_rows,
        ProcessInfoTab::Environment => environment_rows,
    }
}

/// A shortcut of the footer: its key and what it does.
pub type Shortcut = (&'static str, &'static str);

/// The shortcuts the footer offers: for the tab strip, the tab keys (with
/// scrolling where the page takes no focus); in an open detail view, scrolling,
/// copying what the tab shows, going back and the tab keys; on a page, the
/// keys of that page.
pub open spec fn shortcut_items_spec(
    tabs_focused: bool,
    content_focusable: bool,
    detail_open: bool,
    tab: ProcessInfoTab,
) -> Seq<Shortcut> {
    if tabs_focused && !content_focusable {
        seq![("←/→", "tabs"), ("↑/↓", "scroll"), ("Esc", "close")]
    } else if tabs_focused {
        seq![("←/→", "tabs"), ("Tab", "next"), ("Esc", "close")]
    } else if detail_open {
        let copy_label = match tab {
            ProcessInfoTab::Dlls => "copy path",
            ProcessInfoTab::Environment => "copy variable",
            _ => "copy",
        };
        seq![("↑/↓", "scroll"), ("Ctrl+C", copy_label), ("Esc/Enter", "back"), ("Ctrl+←/→", "tabs"), ("Tab", "next")]
    } else {
        match tab {
            ProcessInfoTab::Metrics => seq![("↑/↓", "scroll"), ("Ctrl+←/→", "tabs"), ("Tab", "next"), ("Esc/Enter", "close")],
            ProcessInfoTab::Image => seq![
                ("↑/↓", "scroll"),
                ("Ctrl+U", "refresh"),
                ("Ctrl+←/→", "tabs"),
                ("Tab", "next"),
                ("Esc/Enter", "close"),
            ],
            ProcessInfoTab::Files => seq![
                ("↑/↓", "scroll"),
                ("Ctrl+U", "refresh"),
                ("Ctrl+C", "copy paths"),
                ("Ctrl+←/→", "tabs"),
                ("Tab", "next"),
                ("Esc/Enter", "close"),
            ],
            ProcessInfoTab::Dlls => seq![
                ("Enter", "details"),
                ("Ctrl+U", "refresh"),
                ("Ctrl+C", "copy path"),
                ("↑/↓", "select"),
                ("Ctrl+←/→", "tabs"),
                ("Tab", "next"),
                ("Esc", "close"),
            ],
            ProcessInfoTab::Environment => seq![
                ("Enter", "details"),
                ("Ctrl+U", "refresh"),
                ("Ctrl+C", "copy variable"),
                ("↑/↓", "select"),
                ("Ctrl+←/→", "tabs"),
                ("Tab", "next"),
                ("Esc", "close"),
            ],
        }
    }
}

/// The shortcuts the footer offers; see `shortcut_items_spec`.
pub fn shortcut_items(tabs_focused: bool, content_focusable: bool, detail_open: bool, tab: ProcessInfoTab) -> (r: Vec<Shortcut>)
    ensures
        r@ == shortcut_items_spec(tabs_focused, content_focusable, detail_open, tab),
{
    if tabs_focused && !content_focusable {
        vec![("←/→", "tabs"), ("↑/↓", "scroll"), ("Esc", "close")]
    } else if tabs_focused {
        vec![("←/→", "tabs"), ("Tab", "next"), ("Esc", "close")]
    } else if detail_open {
        let copy_label = match tab {
            ProcessInfoTab::Dlls => "copy path",
            ProcessInfoTab::Environment => "copy variable",
            _ => "copy",
        };
        vec![("↑/↓", "scroll"), ("Ctrl+C", copy_label), ("Esc/Enter", "back"), ("Ctrl+←/→", "tabs"), ("Tab", "next")]
    } else {
        match tab {
            ProcessInfoTab::Metrics => vec![("↑/↓", "scroll"), ("Ctrl+←/→", "tabs"), ("Tab", "next"), ("Esc/Enter", "close")],
            ProcessInfoTab::Image => vec![
                ("↑/↓", "scroll"),
                ("Ctrl+U", "refresh"),
                ("Ctrl+←/→", "tabs"),
                ("Tab", "next"),
                ("Esc/Enter", "close"),
            ],
            ProcessInfoTab::Files => vec![
                ("↑/↓", "scroll"),
                ("Ctrl+U", "refresh"),
                ("Ctrl+C", "copy paths"),
                ("Ctrl+←/→", "tabs"),
                ("Tab", "next"),
                ("Esc/Enter", "close"),
            ],
            ProcessInfoTab::Dlls => vec![
                ("Enter", "details"),
                ("Ctrl+U", "refresh"),
                ("Ctrl+C", "copy path"),
                ("↑/↓", "select"),
                ("Ctrl+←/→", "tabs"),
                ("Tab", "next"),
                ("Esc", "close"),
            ],
            ProcessInfoTab::Environment => vec![
                ("Enter", "details"),
                ("Ctrl+U", "refresh"),
                ("Ctrl+C", "copy variable"),
                ("↑/↓", "select"),
                ("Ctrl+←/→", "tabs"),
                ("Tab", "next"),
                ("Esc", "close"),
            ],
        }
    }
}

/// The text of a shortcut as the footer shows it: its key, a space, its label.
pub open spec fn shortcut_text(item: Shortcut) -> Seq<char> {
    item.0@ + " "@ + item.1@
}

/// The shortcuts kept in `width` columns, read in turn: one is kept when it
/// fits after those kept before and two columns between neighbours; one that
/// does not fit is left out and the next ones are still tried. Gives the kept
/// shortcuts and the columns they take.
pub open spec fn fit_shortcuts(items: Seq<Shortcut>, width: int) -> (Seq<Shortcut>, int)
    decreases items.len(),
{
    if items.len() == 0 {
        (Seq::empty(), 0)
    } else {
        let (kept, used) = fit_shortcuts(items.drop_last(), width);
        let separator = if kept.len() > 0 { 2int } else { 0 };
        let next = add_upto(add_upto(used, separator, usize::MAX as int), span_width(shortcut_text(items.last())) as int, usize::MAX as int);
        if next > width {
            (kept, used)
        } else {
            (kept.push(items.last()), next)
        }
    }
}

/// The shortcuts kept in `width` columns, in order; see `fit_shortcuts`.
pub fn fitted_shortcuts(items: &Vec<Shortcut>, width: u16) -> (r: Vec<Shortcut>)
    ensures
        r@ == fit_shortcuts(items@, width as int).0,
{
    let mut kept: Vec<Shortcut> = Vec::new();
    let mut used: usize = 0;
    let mut i: usize = 0;
    while i < items.len()
        invariant
            i <= items@.len(),
            kept@ == fit_shortcuts(items@.take(i as int), width as int).0,
            used == fit_shortcuts(items@.take(i as int), width as int).1,
        decreases items@.len() - i,
    {
        proof {
            assert(items@.take(i + 1).drop_last() =~= items@.take(i as int));
            assert(items@.take(i + 1).last() == items@[i as int]);
        }
        let (key, label) = items[i];
        let separator: usize = if kept.len() > 0 { 2 } else { 0 };
        let text = concat3(key, " ", label);
        let item_width = str_width(text.as_str());
        let next = used.saturating_add(separator).saturating_add(item_width);
        if next <= width as usize {
            kept.push((key, label));
            used = next;
        }
        i = i + 1;
    }
    proof {
        assert(items@.take(items@.len() as int) =~= items@);
    }
    kept
}

/// The shortcuts the footer shows in `width` columns, in order; see
/// `shortcut_items_spec` and `fit_shortcuts`.
pub fn shortcut_spans(
    tabs_focused: bool,
    content_focusable: bool,
    detail_open: bool,
    tab: ProcessInfoTab,
    width: u16,
) -> (r: Vec<Shortcut>)
    ensures
        r@ == fit_shortcuts(shortcut_items_spec(tabs_focused, content_focusable, detail_open, tab), width as int).0,
{
    let items = shortcut_items(tabs_focused, content_focusable, detail_open, tab);
    fitted_shortcuts(&items, width)
}

/// Columns a row of shortcuts takes: each shortcut's text, two columns
/// between neighbours.
pub open spec fn shortcuts_columns(kept: Seq<Shortcut>) -> int
    decreases kept.len(),
{
    if kept.len() == 0 {
        0
    } else if kept.len() == 1 {
        span_width(shortcut_text(kept[0])) as int
    } else {
        shortcuts_columns(kept.drop_last()) + 2 + span_width(shortcut_text(kept.last())) as int
    }
}

/// A footer never overflows: the shortcuts kept for `width` columns, with
/// two columns between neighbours, take exactly the columns counted and at
/// most `width`.
pub proof fn shortcuts_fit_width(items: Seq<Shortcut>, width: int)
    requires
        0 <= width <= u16::MAX,
    ensures
        fit_shortcuts(items, width).1 == shortcuts_columns(fit_shortcuts(items, width).0),
        0 <= fit_shortcuts(items, width).1 <= width,
    decreases items.len(),
{
    if items.len() > 0 {
        shortcuts_fit_width(items.drop_last(), width);
        let (kept, used) = fit_shortcuts(items.drop_last(), width);
        let separator = if kept.len() > 0 { 2int } else { 0 };
        let w = span_width(shortcut_text(items.last())) as int;
        let next = add_upto(add_upto(used, separator, usize::MAX as int), w, usize::MAX as int);
        if next <= width {
            assert(next == used + separator + w);
            let pushed = kept.push(items.last());
            assert(pushed.drop_last() =~= kept);
            if kept.len() == 0 {
                assert(pushed.len() == 1);
                assert(pushed[0] == items.last());
            }
        }
    }
}

/// Every tab of the strip lies inside the strip, or has no area.
pub open spec fn tabs_inside(area: Rect, rects: Seq<Rect>) -> bool {
    forall|i: int|
        0 <= i < rects.len() ==> {
            let r = #[trigger] rects[i];
            r == no_area() || (area.x <= r.x && r.x + r.width <= area.x + area.width && area.y <= r.y && r.y
                + r.height <= area.y + area.height)
        }
}

/// The tabs placed so far keep the column inside the strip and the row on it.
pub proof fn lemma_tab_state_inside(area: Rect, labels: Seq<&str>)
    requires
        area.x + area.width <= u16::MAX,
        area.y + area.height <= u16::MAX,
        area.width > 0,
        area.height > 0,
    ensures
        area.x <= tab_areas_state(area, labels).0,
        0 <= tab_areas_state(area, labels).1 < area.height,
        tabs_inside(area, tab_areas_state(area, labels).2),
        tab_areas_state(area, labels).2.len() == labels.len(),
    decreases labels.len(),
{
    if labels.len() > 0 {
        lemma_tab_state_inside(area, labels.drop_last());
        let (x, row, rects) = tab_areas_state(area, labels.drop_last());
        let (x2, row2, r) = tab_step(area, x, row, labels.last()@);
        assert forall|i: int| 0 <= i < rects.push(r).len() implies {
            let q = #[trigger] rects.push(r)[i];
            q == no_area() || (area.x <= q.x && q.x + q.width <= area.x + area.width && area.y <= q.y && q.y
                + q.height <= area.y + area.height)
        } by {
            if i < rects.len() {
                assert(rects.push(r)[i] == rects[i]);
            }
        }
    }
}

/// Tabs stay on their strip: every tab lies inside the strip's area, or has
/// no area when it finds no room.
pub proof fn tabs_stay_on_their_strip(area: Rect, labels: Seq<&str>)
    requires
        area.x + area.width <= u16::MAX,
        area.y + area.height <= u16::MAX,
    ensures
        tabs_inside(area, tab_areas_spec(area, labels)),
{
    if area.width > 0 && area.height > 0 {
        lemma_tab_state_inside(area, labels);
    }
}

/// Widest label column of the image page.
pub const IMAGE_LABEL_WIDTH: usize = 16;
/// Label column of the metrics page.
pub const METRIC_LABEL_WIDTH: usize = 22;
/// Value column of the metrics page.
pub const METRIC_VALUE_WIDTH: usize = 20;
/// Change column of the metrics page.
pub const METRIC_DELTA_WIDTH: usize = 24;
/// Narrowest page that shows the metrics in aligned columns.
pub const METRIC_WIDE_LAYOUT_WIDTH: u16 = 66;

/// A labelled value of the image page wrapped beside its label; nothing on a
/// page of no width.
pub fn labeled_wrapped_lines(label: &str, value: &str, width: u16) -> (r: Vec<Vec<Piece>>)
    ensures
        lines_view(r@) == if width == 0 {
            Seq::empty()
        } else {
            labelled_lines(label@, value@, width as int, IMAGE_LABEL_WIDTH as int)
        },
{
    if width == 0 {
        let empty: Vec<Vec<Piece>> = Vec::new();
        assert(lines_view(empty@) =~= Seq::<Seq<(Tone, Seq<char>)>>::empty());
        return empty;
    }
    detail_lines(label, value, width as usize, IMAGE_LABEL_WIDTH)
}

/// What the image page shows of a process, each value as text: who it is,
/// its user, architecture, .NET version, parent, start, executable, command
/// line, company, product, versions, modification time and file size.
#[derive(Clone, Debug)]
pub struct ProcessImageValues {
    pub process: String,
    pub user: String,
    pub architecture: String,
    pub dotnet_version: String,
    pub parent: String,
    pub started: String,
    pub executable: String,
    pub command_line: String,
    pub company: String,
    pub product: String,
    pub product_version: String,
    pub file_version: String,
    pub modified: String,
    pub size: String,
}

/// The labels of the image page and their values, in order.
pub open spec fn image_rows(v: ProcessImageValues) -> Seq<(Seq<char>, Seq<char>)> {
    seq![
        ("Process"@, v.process@),
        ("User"@, v.user@),
        ("Architecture"@, v.architecture@),
        (".NET version"@, v.dotnet_version@),
        ("Parent"@, v.parent@),
        ("Started"@, v.started@),
        ("Executable"@, v.executable@),
        ("Command line"@, v.command_line@),
        ("Company"@, v.company@),
        ("Product"@, v.product@),
        ("Product version"@, v.product_version@),
        ("File version"@, v.file_version@),
        ("Modified"@, v.modified@),
        ("Size"@, v.size@),
    ]
}

/// The lines of the first `n` rows of the image page.
pub open spec fn image_lines_upto(rows: Seq<(Seq<char>, Seq<char>)>, n: int, width: u16) -> Seq<Seq<(Tone, Seq<char>)>>
    decreases n,
{
    if n <= 0 || width == 0 {
        Seq::empty()
    } else {
        image_lines_upto(rows, n - 1, width) + labelled_lines(rows[n - 1].0, rows[n - 1].1, width as int, IMAGE_LABEL_WIDTH as int)
    }
}

/// The image page: each of its rows wrapped beside its label.
pub fn process_info_image_lines(values: &ProcessImageValues, width: u16) -> (r: Vec<Vec<Piece>>)
    ensures
        lines_view(r@) == image_lines_upto(image_rows(*values), 14, width),
{
    let rows: Vec<(&str, &str)> = vec![
        ("Process", values.process.as_str()),
        ("User", values.user.as_str()),
        ("Architecture", values.architecture.as_str()),
        (".NET version", values.dotnet_version.as_str()),
        ("Parent", values.parent.as_str()),
        ("Started", values.started.as_str()),
        ("Executable", values.executable.as_str()),
        ("Command line", values.command_line.as_str()),
        ("Company", values.company.as_str()),
        ("Product", values.product.as_str()),
        ("Product version", values.product_version.as_str()),
        ("File version", values.file_version.as_str()),
        ("Modified", values.modified.as_str()),
        ("Size", values.size.as_str()),
    ];
    let ghost want = image_rows(*values);
    assert(rows@.len() == 14);
    assert(forall|i: int| 0 <= i < 14 ==> #[trigger] rows@[i].0@ == want[i].0 && rows@[i].1@ == want[i].1);
    let mut out: Vec<Vec<Piece>> = Vec::new();
    let mut i: usize = 0;
    while i < rows.len()
        invariant
            i <= rows@.len() == 14,
            want == image_rows(*values),
            forall|k: int| 0 <= k < 14 ==> #[trigger] rows@[k].0@ == want[k].0 && rows@[k].1@ == want[k].1,
            lines_view(out@) == image_lines_upto(want, i as int, width),
        decreases rows@.len() - i,
    {
        let (label, value) = rows[i];
        append_lines(&mut out, labeled_wrapped_lines(label, value, width));
        i = i + 1;
        assert(lines_view(out@) =~= image_lines_upto(want, i as int, width));
    }
    out
}

/// Spaces to fill `width` after `taken` bytes, none when they reach it.
pub open spec fn fill_after_bytes(width: int, taken: int) -> Seq<char> {
    repeated(' ', sub0(width, taken))
}

/// The heading of the metrics page: in aligned columns on a wide page (the
/// value and change headings right-aligned by their bytes), otherwise one
/// after the other.
pub open spec fn metric_header_spec(value_heading: Seq<char>, delta_heading: Option<Seq<char>>, width: u16) -> Seq<(Tone, Seq<char>)> {
    if width >= METRIC_WIDE_LAYOUT_WIDTH {
        seq![
            (Tone::TextHeading, "Metrics"@),
            (Tone::Plain, repeated(' ', 15)),
            (Tone::Plain, fill_after_bytes(METRIC_VALUE_WIDTH as int, (vstd::utf8::encode_utf8(value_heading).len() as usize) as int)),
            (Tone::TextHeading, value_heading),
        ] + match delta_heading {
            Some(d) => seq![
                (Tone::Plain, fill_after_bytes(METRIC_DELTA_WIDTH as int, (vstd::utf8::encode_utf8(d).len() as usize) as int)),
                (Tone::TextHeading, d),
            ],
            None => Seq::empty(),
        }
    } else {
        seq![(Tone::TextHeading, "Metrics"@), (Tone::Plain, "  "@), (Tone::TextHeading, value_heading)] + match delta_heading {
            Some(d) => seq![(Tone::Plain, " / "@), (Tone::TextHeading, d)],
            None => Seq::empty(),
        }
    }
}

/// The heading of the metrics page; see `metric_header_spec`.
pub fn metric_header_line(value_heading: &str, delta_heading: Option<&str>, width: u16) -> (r: Vec<Piece>)
    ensures
        line_view(r@) == metric_header_spec(
            value_heading@,
            match delta_heading {
                Some(d) => Some(d@),
                None => None,
            },
            width,
        ),
{
    let mut out: Vec<Piece> = Vec::new();
    out.push(piece(Tone::TextHeading, "Metrics"));
    if width >= METRIC_WIDE_LAYOUT_WIDTH {
        out.push(Piece { tone: Tone::Plain, text: repeat_string(' ', 15) });
        out.push(Piece { tone: Tone::Plain, text: repeat_string(' ', METRIC_VALUE_WIDTH.saturating_sub(value_heading.len())) });
        out.push(piece(Tone::TextHeading, value_heading));
        if let Some(d) = delta_heading {
            out.push(Piece { tone: Tone::Plain, text: repeat_string(' ', METRIC_DELTA_WIDTH.saturating_sub(d.len())) });
            out.push(piece(Tone::TextHeading, d));
        }
    } else {
        out.push(piece(Tone::Plain, "  "));
        out.push(piece(Tone::TextHeading, value_heading));
        if let Some(d) = delta_heading {
            out.push(piece(Tone::Plain, " / "));
            out.push(piece(Tone::TextHeading, d));
        }
    }
    assert(line_view(out@) =~= metric_header_spec(
        value_heading@,
        match delta_heading {
            Some(d) => Some(d@),
            None => None,
        },
        width,
    ));
    out
}

/// A row of the metrics page: on a wide page the label, the value and the
/// change in brackets in their columns; otherwise the label in its column,
/// then the value and the change.
pub open spec fn metric_value_spec(label: Seq<char>, value: Seq<char>, delta: Option<Seq<char>>, width: u16) -> Seq<char> {
    let head = pad_end(label, METRIC_LABEL_WIDTH as int);
    if width >= METRIC_WIDE_LAYOUT_WIDTH {
        head + pad_start(value, METRIC_VALUE_WIDTH as int) + match delta {
            Some(d) => pad_start("("@ + d + ")"@, METRIC_DELTA_WIDTH as int),
            None => Seq::empty(),
        }
    } else {
        head + value + match delta {
            Some(d) => " ("@ + d + ")"@,
            None => Seq::empty(),
        }
    }
}

/// A row of the metrics page; see `metric_value_spec`.
pub fn metric_value_line(label: &str, value: &str, delta: Option<&str>, width: u16) -> (r: Vec<Piece>)
    ensures
        line_view(r@) == single(
            Tone::Text,
            metric_value_spec(
                label@,
                value@,
                match delta {
                    Some(d) => Some(d@),
                    None => None,
                },
                width,
            ),
        ),
{
    let mut text = pad_end_string(label, METRIC_LABEL_WIDTH);
    if width >= METRIC_WIDE_LAYOUT_WIDTH {
        let v = pad_start_string(value, METRIC_VALUE_WIDTH);
        text.append(v.as_str());
        if let Some(d) = delta {
            let mut bracketed = String::from_str("(");
            bracketed.append(d);
            bracketed.append(")");
            let padded = pad_start_string(bracketed.as_str(), METRIC_DELTA_WIDTH);
            text.append(padded.as_str());
        }
    } else {
        text.append(value);
        if let Some(d) = delta {
            text.append(" (");
            text.append(d);
            text.append(")");
        }
    }
    proof {
        reveal_strlit("");
    }
    assert(text@ =~= metric_value_spec(
        label@,
        value@,
        match delta {
            Some(d) => Some(d@),
            None => None,
        },
        width,
    ));
    single_line(Tone::Text, text)
}

/// A row of the metrics page: its label, its value and its change where one
/// is shown.
#[derive(Clone, Debug)]
pub struct MetricRowText {
    pub label: String,
    pub value: String,
    pub delta: Option<String>,
}

/// The metrics of a process as the page shows them: the range they cover,
/// the headings of the value and change columns, and the rows.
#[derive(Clone, Debug)]
pub struct ProcessMetricsView {
    pub range: String,
    pub value_heading: String,
    pub delta_heading: Option<String>,
    pub rows: Vec<MetricRowText>,
}

/// The metrics page: a note when nothing is known, otherwise the range, the
/// heading and a line per row.
pub open spec fn metrics_lines_spec(view: Option<ProcessMetricsView>, width: u16) -> Seq<Seq<(Tone, Seq<char>)>> {
    match view {
        None => seq![single(Tone::Muted, "Metrics --"@)],
        Some(v) => seq![
            single(Tone::Accent, v.range@),
            metric_header_spec(
                v.value_heading@,
                match v.delta_heading {
                    Some(d) => Some(d@),
                    None => None,
                },
                width,
            ),
        ] + Seq::new(
            v.rows@.len(),
            |i: int| single(
                Tone::Text,
                metric_value_spec(
                    v.rows@[i].label@,
                    v.rows@[i].value@,
                    match v.rows@[i].delta {
                        Some(d) => Some(d@),
                        None => None,
                    },
                    width,
                ),
            ),
        ),
    }
}

/// The metrics page; see `metrics_lines_spec`.
pub fn process_info_metrics_lines(view: &Option<ProcessMetricsView>, width: u16) -> (r: Vec<Vec<Piece>>)
    ensures
        lines_view(r@) == metrics_lines_spec(*view, width),
{
    let mut out: Vec<Vec<Piece>> = Vec::new();
    let v = match view {
        None => {
            push_line(&mut out, single_line(Tone::Muted, String::from_str("Metrics --")));
            assert(lines_view(out@) =~= metrics_lines_spec(*view, width));
            return out;
        },
        Some(v) => v,
    };
    push_line(&mut out, single_line(Tone::Accent, String::from_str(v.range.as_str())));
    let delta_heading = match &v.delta_heading {
        Some(d) => Some(d.as_str()),
        None => None,
    };
    push_line(&mut out, metric_header_line(v.value_heading.as_str(), delta_heading, width));
    let ghost head = lines_view(out@);
    let ghost rows_spec = Seq::new(
        v.rows@.len(),
        |i: int| single(
            Tone::Text,
            metric_value_spec(
                v.rows@[i].label@,
                v.rows@[i].value@,
                match v.rows@[i].delta {
                    Some(d) => Some(d@),
                    None => None,
                },
                width,
            ),
        ),
    );
    let mut i: usize = 0;
    while i < v.rows.len()
        invariant
            i <= v.rows@.len(),
            rows_spec.len() == v.rows@.len(),
            forall|k: int| 0 <= k < v.rows@.len() ==> #[trigger] rows_spec[k] == single(
                Tone::Text,
                metric_value_spec(
                    v.rows@[k].label@,
                    v.rows@[k].value@,
                    match v.rows@[k].delta {
                        Some(d) => Some(d@),
                        None => None,
                    },
                    width,
                ),
            ),
            lines_view(out@) == head + rows_spec.take(i as int),
        decreases v.rows@.len() - i,
    {
        let row = &v.rows[i];
        let delta = match &row.delta {
            Some(d) => Some(d.as_str()),
            None => None,
        };
        push_line(&mut out, metric_value_line(row.label.as_str(), row.value.as_str(), delta, width));
        i = i + 1;
        assert(lines_view(out@) =~= head + rows_spec.take(i as int));
    }
    assert(rows_spec.take(v.rows@.len() as int) =~= rows_spec);
    assert(lines_view(out@) =~= metrics_lines_spec(*view, width));
    out
}

/// Where the scrollbar of the dialog's page stands: the page has
/// `total_rows` lines, `page_size` of which show.
pub fn process_info_scrollbar_area_for_screen(screen: Rect, labels: &Vec<&str>, total_rows: usize, page_size: usize) -> (r: Option<Rect>)
    requires
        tabs_width(labels@) <= u16::MAX,
    ensures
        exists|space: Rect| #![trigger dialog_layout_spec(space, labels@)]
            is_dialog_space(screen, space) && r == generic_scrollbar_spec(
                dialog_layout_spec(space, labels@).content,
                total_rows as int,
                page_size as int,
            ),
        screen_fits(screen) ==> r == generic_scrollbar_spec(
            dialog_layout_spec(screen_body(screen), labels@).content,
            total_rows as int,
            page_size as int,
        ),
{
    let content = process_info_content_area_for_screen(screen, labels);
    let r = generic_scrollbar_area(content, total_rows, page_size);
    proof {
        let space = choose|space: Rect| #![trigger dialog_layout_spec(space, labels@)]
            is_dialog_space(screen, space) && content == dialog_layout_spec(space, labels@).content;
        assert(r == generic_scrollbar_spec(dialog_layout_spec(space, labels@).content, total_rows as int, page_size as int));
    }
    r
}

} // verus!

//! A centred (or top-left anchored) modal dialog with a scrollable body, a
//! footer row and a vertical scrollbar, and the scrolling state behind it.

use vstd::prelude::*;

use crate::ui::rect::{add16, add_upto, min_int, sub0, Rect, COORD_MAX};

verus! {

/// Blank columns between the frame and the body on each side.
pub const HORIZONTAL_CONTENT_PADDING: u16 = 1;
/// Blank rows between the body and a footer.
pub const FOOTER_GAP_HEIGHT: u16 = 1;

/// Where the dialog stands on the screen.
#[derive(Clone, Copy, Debug, PartialEq, Eq, Structural)]
pub enum ScrollableModalPlacement {
    Centered,
    TopLeft { top_offset: u16 },
}

/// A modal dialog: its title and the size of what it shows.
#[derive(Clone, Copy, Debug)]
pub struct ScrollableModal {
    pub title: &'static str,
    pub content_width: u16,
    pub content_height: u16,
    pub footer_height: u16,
    pub placement: ScrollableModalPlacement,
}

/// The screen areas of a dialog: its frame, its body and its footer.
#[derive(Clone, Copy, Debug, PartialEq, Eq, Structural)]
pub struct ScrollableModalLayout {
    pub area: Rect,
    pub content: Rect,
    pub footer: Rect,
}

/// Scrolling state of a dialog body.
#[derive(Clone, Copy, Debug, PartialEq, Eq, Structural)]
pub struct ScrollableModalState {
    pub offset: usize,
    pub page_size: usize,
    pub dragging: bool,
    pub grab_offset: usize,
}

/// The thumb of a scrollbar: its first cell on the track and its length.
#[derive(Clone, Copy, Debug, PartialEq, Eq, Structural)]
pub struct ScrollbarThumb {
    pub start: usize,
    pub len: usize,
}

/// Rows between the body and the footer.
pub open spec fn footer_gap(footer_height: int) -> int {
    if footer_height > 0 { FOOTER_GAP_HEIGHT as int } else { 0 }
}

impl ScrollableModal {
    /// A centred dialog.
    pub fn new(title: &'static str, content_width: u16, content_height: u16, footer_height: u16) -> (r: ScrollableModal)
        ensures
            r.title == title,
            r.content_width == content_width,
            r.content_height == content_height,
            r.footer_height == footer_height,
            r.placement == ScrollableModalPlacement::Centered,
    {
        ScrollableModal {
            title,
            content_width,
            content_height,
            footer_height,
            placement: ScrollableModalPlacement::Centered,
        }
    }

    /// The same dialog anchored at the top-left corner, `top_offset` rows down.
    pub fn with_top_left_placement(self, top_offset: u16) -> (r: ScrollableModal)
        ensures
            r.title == self.title,
            r.content_width == self.content_width,
            r.content_height == self.content_height,
            r.footer_height == self.footer_height,
            r.placement == (ScrollableModalPlacement::TopLeft { top_offset }),
    {
        let mut modal = self;
        modal.placement = ScrollableModalPlacement::TopLeft { top_offset };
        modal
    }

    /// Rows of `area` left out above the dialog.
    pub open spec fn top_offset_in(self, area: Rect) -> int {
        match self.placement {
            ScrollableModalPlacement::Centered => 0,
            ScrollableModalPlacement::TopLeft { top_offset } => min_int(
                top_offset as int,
                area.height as int,
            ),
        }
    }

    /// Width of the frame: the body, its padding and two border columns, at most
    /// the width of `area`.
    pub open spec fn frame_width(self, area: Rect) -> int {
        min_int(
            add16(add16(self.content_width as int, 2 * HORIZONTAL_CONTENT_PADDING), 2),
            area.width as int,
        )
    }

    /// Height of the frame: the body, the gap and footer, two border rows, at
    /// most what `area` has below the top offset.
    pub open spec fn frame_height(self, area: Rect) -> int {
        min_int(
            add16(
                add16(
                    add16(self.content_height as int, footer_gap(self.footer_height as int)),
                    self.footer_height as int,
                ),
                2,
            ),
            area.height - self.top_offset_in(area),
        )
    }

    /// The frame of the dialog inside `area`.
    pub open spec fn frame_in(self, area: Rect) -> Rect {
        let width = self.frame_width(area);
        let height = self.frame_height(area);
        match self.placement {
            ScrollableModalPlacement::Centered => Rect::placed(
                add16(area.x as int, (area.width - width) / 2),
                add16(area.y as int, (area.height - height) / 2),
                width,
                height,
            ),
            ScrollableModalPlacement::TopLeft { .. } => Rect::placed(
                area.x as int,
                add16(area.y as int, self.top_offset_in(area)),
                width,
                height,
            ),
        }
    }

    /// The areas of the dialog inside `area`.
    pub open spec fn layout_in(self, area: Rect) -> ScrollableModalLayout {
        let popup = self.frame_in(area);
        let gap = footer_gap(self.footer_height as int);
        let inner = popup.shrunk(1, 1);
        let content = Rect::placed(
            add16(inner.x as int, HORIZONTAL_CONTENT_PADDING as int),
            inner.y as int,
            sub0(inner.width as int, 2 * HORIZONTAL_CONTENT_PADDING),
            sub0(inner.height as int, add16(self.footer_height as int, gap)),
        );
        let footer_height = min_int(self.footer_height as int, inner.height as int);
        let footer = Rect::placed(
            inner.x as int,
            sub0(inner.bottom_spec(), footer_height),
            inner.width as int,
            footer_height,
        );
        ScrollableModalLayout { area: popup, content, footer }
    }

    /// The areas of the dialog inside `area`.
    pub fn layout(self, area: Rect) -> (r: ScrollableModalLayout)
        ensures
            r == self.layout_in(area),
    {
        let footer_gap_height = if self.footer_height > 0 {
            FOOTER_GAP_HEIGHT
        } else {
            0
        };
        let width_wanted = self.content_width.saturating_add(2 * HORIZONTAL_CONTENT_PADDING).saturating_add(2);
        let width = if width_wanted < area.width { width_wanted } else { area.width };
        let top_offset = match self.placement {
            ScrollableModalPlacement::Centered => 0,
            ScrollableModalPlacement::TopLeft { top_offset } => if top_offset < area.height {
                top_offset
            } else {
                area.height
            },
        };
        let available_height = area.height - top_offset;
        let height_wanted = self.content_height.saturating_add(footer_gap_height).saturating_add(
            self.footer_height,
        ).saturating_add(2);
        let height = if height_wanted < available_height {
            height_wanted
        } else {
            available_height
        };
        let popup = match self.placement {
            ScrollableModalPlacement::Centered => Rect::new(
                area.x.saturating_add((area.width - width) / 2),
                area.y.saturating_add((area.height - height) / 2),
                width,
                height,
            ),
            ScrollableModalPlacement::TopLeft { .. } => Rect::new(
                area.x,
                area.y.saturating_add(top_offset),
                width,
                height,
            ),
        };
        let inner = popup.inner(1, 1);
        let content_width = inner.width.saturating_sub(2 * HORIZONTAL_CONTENT_PADDING);
        let content = Rect::new(
            inner.x.saturating_add(HORIZONTAL_CONTENT_PADDING),
            inner.y,
            content_width,
            inner.height.saturating_sub(self.footer_height.saturating_add(footer_gap_height)),
        );
        let footer_height = if self.footer_height < inner.height {
            self.footer_height
        } else {
            inner.height
        };
        let footer = Rect::new(
            inner.x,
            inner.bottom().saturating_sub(footer_height),
            inner.width,
            footer_height,
        );
        ScrollableModalLayout { area: popup, content, footer }
    }

    /// Rows of the body that fit on one page inside `area`, at least one.
    pub fn page_size(self, area: Rect) -> (r: usize)
        ensures
            r == if self.layout_in(area).content.height >= 1 {
                self.layout_in(area).content.height as int
            } else {
                1
            },
    {
        let h = self.layout(area).content.height;
        if h >= 1 {
            h as usize
        } else {
            1
        }
    }

    /// The largest scroll offset of the body for pages of `page_size` rows.
    pub fn max_offset_for_page_size(self, page_size: usize) -> (r: usize)
        ensures
            r == sub0(self.content_height as int, if page_size >= 1 { page_size as int } else { 1 }),
    {
        let rows = if page_size >= 1 { page_size } else { 1 };
        (self.content_height as usize).saturating_sub(rows)
    }

    /// The column of the scrollbar inside `area`, present when the body does not
    /// fit on one page of `page_size` rows and has some area.
    pub fn scrollbar_area(self, area: Rect, page_size: usize) -> (r: Option<Rect>)
        ensures
            ({
                let layout = self.layout_in(area);
                let rows = if page_size >= 1 { page_size as int } else { 1 };
                if self.content_height <= rows || layout.content.width == 0
                    || layout.content.height == 0 {
                    r is None
                } else {
                    r == Some(
                        Rect::placed(
                            min_int(
                                layout.content.right_spec(),
                                sub0(layout.area.right_spec(), 2),
                            ),
                            layout.content.y as int,
                            1,
                            layout.content.height as int,
                        ),
                    )
                }
            }),
    {
        let layout = self.layout(area);
        let rows = if page_size >= 1 { page_size } else { 1 };
        if self.content_height as usize <= rows || layout.content.is_empty() {
            return None;
        }
        let content_right = layout.content.right();
        let frame_right = layout.area.right().saturating_sub(2);
        Some(
            Rect::new(
                if content_right < frame_right { content_right } else { frame_right },
                layout.content.y,
                1,
                layout.content.height,
            ),
        )
    }
}


/// The rows of a page: `page_size`, at least one.
pub open spec fn page_rows(page_size: int) -> int {
    if page_size >= 1 { page_size } else { 1 }
}

impl ScrollableModalState {
    /// The largest offset at which a page still ends inside `total` rows.
    pub open spec fn max_offset_spec(self, total: int) -> int {
        sub0(total, page_rows(self.page_size as int))
    }

    /// The state with its offset held at the largest offset for `total` rows.
    pub open spec fn clamped(self, total: int) -> ScrollableModalState {
        ScrollableModalState {
            offset: min_int(self.offset as int, self.max_offset_spec(total)) as usize,
            ..self
        }
    }

    /// The state back at the top, with no drag under way.
    pub open spec fn reset_spec(self) -> ScrollableModalState {
        ScrollableModalState { offset: 0, dragging: false, grab_offset: 0, ..self }
    }

    /// The state with pages of `page_size` rows (at least one) over `total` rows.
    pub open spec fn with_page_size(self, page_size: int, total: int) -> ScrollableModalState {
        ScrollableModalState { page_size: page_rows(page_size) as usize, ..self }.clamped(total)
    }

    /// The state `amount` rows further up, stopping at the top.
    pub open spec fn scrolled_up(self, amount: int) -> ScrollableModalState {
        ScrollableModalState { offset: sub0(self.offset as int, amount) as usize, ..self }
    }

    /// The state `amount` rows further down, stopping at the last page of
    /// `total` rows.
    pub open spec fn scrolled_down(self, amount: int, total: int) -> ScrollableModalState {
        ScrollableModalState {
            offset: add_upto(self.offset as int, amount, usize::MAX as int) as usize,
            ..self
        }.clamped(total)
    }

    /// The state with `row` inside the page, moving as little as it can, then
    /// held at the last page of `total` rows.
    pub open spec fn showing(self, row: int, total: int) -> ScrollableModalState {
        let rows = page_rows(self.page_size as int);
        let offset = if row < self.offset {
            row
        } else if row >= add_upto(self.offset as int, rows, usize::MAX as int) {
            sub0(add_upto(row, 1, usize::MAX as int), rows)
        } else {
            self.offset as int
        };
        ScrollableModalState { offset: offset as usize, ..self }.clamped(total)
    }

    /// Back to the top, with no drag under way.
    pub fn reset(&mut self)
        ensures
            *final(self) == old(self).reset_spec(),
    {
        self.offset = 0;
        self.dragging = false;
        self.grab_offset = 0;
    }

    /// Pages of `page_size` rows (at least one) over `total` rows.
    pub fn set_page_size(&mut self, page_size: usize, total: usize)
        ensures
            *final(self) == old(self).with_page_size(page_size as int, total as int),
    {
        self.page_size = if page_size >= 1 { page_size } else { 1 };
        self.clamp(total);
    }

    /// Up by `amount` rows, stopping at the top.
    pub fn scroll_up(&mut self, amount: usize)
        ensures
            *final(self) == old(self).scrolled_up(amount as int),
    {
        self.offset = self.offset.saturating_sub(amount);
    }

    /// Down by `amount` rows, stopping at the last page of `total` rows.
    pub fn scroll_down(&mut self, amount: usize, total: usize)
        ensures
            *final(self) == old(self).scrolled_down(amount as int, total as int),
    {
        self.offset = self.offset.saturating_add(amount);
        self.clamp(total);
    }

    /// To the top.
    pub fn scroll_home(&mut self)
        ensures
            *final(self) == (ScrollableModalState { offset: 0, ..*old(self) }),
    {
        self.offset = 0;
    }

    /// To the last page of `total` rows.
    pub fn scroll_end(&mut self, total: usize)
        ensures
            *final(self) == (ScrollableModalState {
                offset: old(self).max_offset_spec(total as int) as usize,
                ..*old(self)
            }),
    {
        self.offset = self.max_offset(total);
    }

    /// Moves the page as little as needed for `row` to show on it, then holds it
    /// at the last page of `total` rows.
    pub fn ensure_visible(&mut self, row: usize, total: usize)
        ensures
            *final(self) == old(self).showing(row as int, total as int),
    {
        let rows = if self.page_size >= 1 { self.page_size } else { 1 };
        if row < self.offset {
            self.offset = row;
        } else if row >= self.offset.saturating_add(rows) {
            self.offset = row.saturating_add(1).saturating_sub(rows);
        }
        self.clamp(total);
    }

    /// Ends a scrollbar drag.
    pub fn stop_drag(&mut self)
        ensures
            *final(self) == (ScrollableModalState {
                dragging: false,
                grab_offset: 0,
                ..*old(self)
            }),
    {
        self.dragging = false;
        self.grab_offset = 0;
    }

    /// The largest offset at which a page still ends inside `total` rows.
    pub fn max_offset(self, total: usize) -> (r: usize)
        ensures
            r == self.max_offset_spec(total as int),
    {
        let rows = if self.page_size >= 1 { self.page_size } else { 1 };
        total.saturating_sub(rows)
    }

    /// Holds the offset at the largest offset for `total` rows.
    pub fn clamp(&mut self, total: usize)
        ensures
            *final(self) == old(self).clamped(total as int),
    {
        let max = self.max_offset(total);
        if max < self.offset {
            self.offset = max;
        }
    }
}


/// `pos` of `from` mapped onto `to`, rounded to the nearest step.
pub open spec fn scaled(pos: int, from: int, to: int) -> int {
    (pos * to + from / 2) / from
}

/// Whether `pos * to + from / 2` fits in a `usize`.
pub open spec fn scale_fits(pos: int, from: int, to: int) -> bool {
    pos * to + from / 2 <= usize::MAX
}

/// Position of the scrollbar for a page starting at `offset` among `total`
/// rows, on the scale `0..total` that the terminal scrollbar uses.
pub open spec fn scrollbar_position_spec(total: int, rows: int, offset: int) -> int {
    let max_offset = sub0(total, rows);
    if max_offset == 0 {
        0
    } else {
        scaled(min_int(offset, max_offset), max_offset, sub0(total, 1))
    }
}

/// Position of the scrollbar; see `scrollbar_position_spec`.
pub fn scrollbar_position(total: usize, rows: usize, offset: usize) -> (r: usize)
    requires
        scale_fits(min_int(offset as int, sub0(total as int, rows as int)), sub0(total as int, rows as int), sub0(total as int, 1)),
    ensures
        r == scrollbar_position_spec(total as int, rows as int, offset as int),
{
    let max_offset = total.saturating_sub(rows);
    if max_offset == 0 {
        return 0;
    }
    let max_scrollbar_position = total.saturating_sub(1);
    let pos = if offset < max_offset { offset } else { max_offset };
    (pos * max_scrollbar_position + max_offset / 2) / max_offset
}

/// Rows shown per page for a scrollbar: `rows`, at least one, at most `total`.
pub open spec fn shown_rows(rows: int, total: int) -> int {
    min_int(page_rows(rows), total)
}

/// Length of the thumb on a track of `track_len` cells: the shown share of the
/// track, rounded, at least one cell and at most the track.
pub open spec fn thumb_len_spec(total: int, rows: int, track_len: int) -> int {
    let len = (shown_rows(rows, total) * track_len + total / 2) / total;
    min_int(if len >= 1 { len } else { 1 }, track_len)
}

/// Whether the arithmetic of the thumb fits in a `usize`.
pub open spec fn thumb_fits(total: int, rows: int, offset: int, track_len: int) -> bool {
    let shown = shown_rows(rows, total);
    let max_offset = total - shown;
    &&& shown * track_len + total / 2 <= usize::MAX
    &&& (total > shown && track_len > 0) ==> scale_fits(
        min_int(offset, max_offset),
        max_offset,
        track_len - thumb_len_spec(total, rows, track_len),
    )
}

/// The thumb of a scrollbar, absent when everything fits on one page or the
/// track has no cell.
pub open spec fn thumb_spec(total: int, rows: int, offset: int, track_len: int) -> Option<ScrollbarThumb> {
    let shown = shown_rows(rows, total);
    if total == 0 || total <= shown || track_len == 0 {
        None
    } else {
        let max_offset = total - shown;
        let len = thumb_len_spec(total, rows, track_len);
        let max_start = track_len - len;
        Some(ScrollbarThumb {
            start: min_int(scaled(min_int(offset, max_offset), max_offset, max_start), max_start) as usize,
            len: len as usize,
        })
    }
}

/// The thumb of a scrollbar; see `thumb_spec`.
pub fn scrollbar_thumb(total: usize, rows: usize, offset: usize, track_len: usize) -> (r: Option<ScrollbarThumb>)
    requires
        thumb_fits(total as int, rows as int, offset as int, track_len as int),
    ensures
        r == thumb_spec(total as int, rows as int, offset as int, track_len as int),
{
    if total == 0 {
        return None;
    }
    let rows1 = if rows >= 1 { rows } else { 1 };
    let rows = if rows1 < total { rows1 } else { total };
    if total <= rows || track_len == 0 {
        return None;
    }
    let max_offset = total - rows;
    let len0 = (rows * track_len + total / 2) / total;
    let len1 = if len0 >= 1 { len0 } else { 1 };
    let thumb_len = if len1 < track_len { len1 } else { track_len };
    let max_thumb_start = track_len - thumb_len;
    let pos = if offset < max_offset { offset } else { max_offset };
    let start0 = (pos * max_thumb_start + max_offset / 2) / max_offset;
    let thumb_start = if start0 < max_thumb_start { start0 } else { max_thumb_start };
    Some(ScrollbarThumb { start: thumb_start, len: thumb_len })
}

/// Cells of the scrollbar track: the column without its two arrow cells.
pub open spec fn track_len_spec(area: Rect) -> int {
    sub0(area.height as int, 2)
}

/// Cells of the scrollbar track, absent when there is none.
pub fn scrollbar_track_len(area: Rect) -> (r: Option<usize>)
    ensures
        r == if track_len_spec(area) > 0 { Some(track_len_spec(area) as usize) } else { None },
{
    let track_len = area.height.saturating_sub(2);
    if track_len > 0 {
        Some(track_len as usize)
    } else {
        None
    }
}

/// The track cell under row `y`: the first cell at or above the top arrow, the
/// last cell at or below the bottom arrow.
pub open spec fn track_position_spec(area: Rect, y: int) -> Option<usize> {
    let track_len = track_len_spec(area);
    let track_end = sub0(area.bottom_spec(), 2);
    if track_len <= 0 {
        None
    } else if y <= area.y {
        Some(0)
    } else if y >= track_end {
        Some((track_len - 1) as usize)
    } else {
        Some(min_int(y - area.y - 1, track_len - 1) as usize)
    }
}

/// The track cell under row `y`; see `track_position_spec`.
pub fn scrollbar_track_position(area: Rect, y: u16) -> (r: Option<usize>)
    ensures
        r == track_position_spec(area, y as int),
{
    let track_len = match scrollbar_track_len(area) {
        Some(len) => len,
        None => return None,
    };
    let track_end = area.y.saturating_add(area.height).saturating_sub(2);
    if y <= area.y {
        return Some(0);
    }
    if y >= track_end {
        return Some(track_len - 1);
    }
    let cell = (y - area.y - 1) as usize;
    Some(if cell < track_len - 1 { cell } else { track_len - 1 })
}

/// Where on the thumb a drag starting at row `y` holds it: the cell under the
/// pointer when it is on the thumb, its middle otherwise.
pub open spec fn grab_offset_spec(area: Rect, y: int, total: int, rows: int, offset: int) -> Option<usize> {
    let track_len = track_len_spec(area);
    match track_position_spec(area, y) {
        None => None,
        Some(position) => match thumb_spec(total, rows, offset, track_len) {
            None => None,
            Some(thumb) => if thumb.start <= position < add_upto(
                thumb.start as int,
                thumb.len as int,
                usize::MAX as int,
            ) {
                Some((position - thumb.start) as usize)
            } else {
                Some((thumb.len / 2) as usize)
            },
        },
    }
}

/// Where on the thumb a drag starting at row `y` holds it.
pub fn scrollbar_grab_offset_at(area: Rect, y: u16, total: usize, rows: usize, offset: usize) -> (r: Option<usize>)
    requires
        thumb_fits(total as int, rows as int, offset as int, track_len_spec(area)),
    ensures
        r == grab_offset_spec(area, y as int, total as int, rows as int, offset as int),
{
    let track_len = match scrollbar_track_len(area) {
        Some(len) => len,
        None => return None,
    };
    let position = match scrollbar_track_position(area, y) {
        Some(p) => p,
        None => return None,
    };
    let thumb = match scrollbar_thumb(total, rows, offset, track_len) {
        Some(t) => t,
        None => return None,
    };
    let thumb_end = thumb.start.saturating_add(thumb.len);
    if position >= thumb.start && position < thumb_end {
        Some(position - thumb.start)
    } else {
        Some(thumb.len / 2)
    }
}

/// Whether the arithmetic of a drag to row `y` fits in a `usize`.
pub open spec fn drag_fits(area: Rect, y: int, total: int, rows: int, grab_offset: int) -> bool {
    let track_len = track_len_spec(area);
    let shown = shown_rows(rows, total);
    &&& shown * track_len + total / 2 <= usize::MAX
    &&& (total > shown && track_len > 0) ==> {
        let max_start = track_len - thumb_len_spec(total, rows, track_len);
        let position = track_position_spec(area, y)->0 as int;
        scale_fits(min_int(sub0(position, grab_offset), max_start), max_start, total - shown)
    }
}

/// The offset for the thumb dragged to row `y` and held `grab_offset` cells
/// from its start; absent when the body fits on one page or there is no track.
pub open spec fn drag_offset_spec(area: Rect, y: int, total: int, rows: int, grab_offset: int) -> Option<usize> {
    let shown = shown_rows(rows, total);
    let track_len = track_len_spec(area);
    if total == 0 || total <= shown || track_len <= 0 {
        None
    } else {
        let position = track_position_spec(area, y)->0 as int;
        let max_offset = total - shown;
        let max_start = track_len - thumb_len_spec(total, rows, track_len);
        if max_start == 0 {
            Some(0)
        } else {
            Some(min_int(
                scaled(min_int(sub0(position, grab_offset), max_start), max_start, max_offset),
                max_offset,
            ) as usize)
        }
    }
}

/// The offset for the thumb dragged to row `y`; see `drag_offset_spec`.
pub fn scrollbar_offset_at(area: Rect, y: u16, total: usize, rows: usize, grab_offset: usize) -> (r: Option<usize>)
    requires
        drag_fits(area, y as int, total as int, rows as int, grab_offset as int),
    ensures
        r == drag_offset_spec(area, y as int, total as int, rows as int, grab_offset as int),
{
    if total == 0 {
        return None;
    }
    let rows1 = if rows >= 1 { rows } else { 1 };
    let rows = if rows1 < total { rows1 } else { total };
    if total <= rows {
        return None;
    }
    let track_len = match scrollbar_track_len(area) {
        Some(len) => len,
        None => return None,
    };
    let position = match scrollbar_track_position(area, y) {
        Some(p) => p,
        None => return None,
    };
    let max_offset = total - rows;
    let len0 = (rows * track_len + total / 2) / total;
    let len1 = if len0 >= 1 { len0 } else { 1 };
    let thumb_len = if len1 < track_len { len1 } else { track_len };
    let max_thumb_start = track_len - thumb_len;
    if max_thumb_start == 0 {
        return Some(0);
    }
    let thumb_start = position.saturating_sub(grab_offset);
    let pos = if thumb_start < max_thumb_start { thumb_start } else { max_thumb_start };
    let offset = (pos * max_offset + max_thumb_start / 2) / max_thumb_start;
    Some(if offset < max_offset { offset } else { max_offset })
}

impl ScrollableModalState {
    /// The state once a drag starts at row `y` of the scrollbar in `area`.
    pub open spec fn drag_started(self, area: Rect, y: int, total: int) -> ScrollableModalState {
        ScrollableModalState {
            dragging: true,
            grab_offset: match grab_offset_spec(area, y, total, self.page_size as int, self.offset as int) {
                Some(g) => g,
                None => 0,
            },
            ..self
        }
    }

    /// The state once the thumb is dragged to row `y`.
    pub open spec fn dragged_to(self, area: Rect, y: int, total: int) -> ScrollableModalState {
        match drag_offset_spec(area, y, total, self.page_size as int, self.grab_offset as int) {
            Some(offset) => ScrollableModalState { offset, ..self }.clamped(total),
            None => self,
        }
    }

    /// Starts a drag at row `y` of the scrollbar in `area`.
    pub fn start_drag(&mut self, area: Rect, y: u16, total: usize)
        requires
            thumb_fits(total as int, old(self).page_size as int, old(self).offset as int, track_len_spec(area)),
        ensures
            *final(self) == old(self).drag_started(area, y as int, total as int),
    {
        self.dragging = true;
        self.grab_offset = match scrollbar_grab_offset_at(area, y, total, self.page_size, self.offset) {
            Some(g) => g,
            None => 0,
        };
    }

    /// Moves the thumb to row `y` of the scrollbar in `area`.
    pub fn drag_to(&mut self, area: Rect, y: u16, total: usize)
        requires
            drag_fits(area, y as int, total as int, old(self).page_size as int, old(self).grab_offset as int),
        ensures
            *final(self) == old(self).dragged_to(area, y as int, total as int),
    {
        match scrollbar_offset_at(area, y, total, self.page_size, self.grab_offset) {
            Some(offset) => {
                self.offset = offset;
                self.clamp(total);
            },
            None => {},
        }
    }
}


/// Every operation that holds the offset leaves it at most the largest offset
/// for the rows it was given: setting the page size, scrolling down, showing a
/// row, and dragging; scrolling up keeps a held offset held.
pub proof fn offset_stays_in_range(state: ScrollableModalState, amount: int, row: int, page_size: int, total: int)
    requires
        0 <= amount,
        0 <= row <= usize::MAX,
        0 <= page_size <= usize::MAX,
        0 <= total <= usize::MAX,
    ensures
        state.clamped(total).offset <= state.clamped(total).max_offset_spec(total),
        state.with_page_size(page_size, total).offset
            <= state.with_page_size(page_size, total).max_offset_spec(total),
        state.scrolled_down(amount, total).offset <= state.scrolled_down(amount, total).max_offset_spec(total),
        state.showing(row, total).offset <= state.showing(row, total).max_offset_spec(total),
        state.offset <= state.max_offset_spec(total) ==> state.scrolled_up(amount).offset
            <= state.scrolled_up(amount).max_offset_spec(total),
{
}

/// After `ensure_visible(row, total)` with `row < total`, the page holds `row`.
pub proof fn showing_keeps_row_on_page(state: ScrollableModalState, row: int, total: int)
    requires
        0 <= row < total <= usize::MAX,
    ensures
        state.showing(row, total).offset <= row,
        row < state.showing(row, total).offset + page_rows(state.page_size as int),
{
}

/// Scrolling up by the amount just scrolled down returns to the same state,
/// when the scroll down did not reach the last page.
pub proof fn scroll_up_undoes_scroll_down(state: ScrollableModalState, amount: int, total: int)
    requires
        0 <= amount,
        total <= usize::MAX,
        state.offset + amount <= state.max_offset_spec(total),
    ensures
        state.scrolled_down(amount, total).scrolled_up(amount) == state,
{
    let down = state.scrolled_down(amount, total);
    assert(down.offset == state.offset + amount);
    assert(down.scrolled_up(amount).offset == state.offset);
}

/// Dragging the thumb never scrolls past the last page.
pub proof fn drag_stays_in_range(state: ScrollableModalState, area: Rect, y: int, total: int)
    requires
        0 <= total <= usize::MAX,
        state.offset <= state.max_offset_spec(total),
    ensures
        state.dragged_to(area, y, total).offset <= state.dragged_to(area, y, total).max_offset_spec(total),
{
}

/// The scrollbar starts at the first position at the top, reaches the last
/// position on the last page, and never passes it.
pub proof fn scrollbar_position_spans_track(total: int, rows: int, offset: int)
    requires
        0 <= rows < total,
        0 <= offset,
    ensures
        scrollbar_position_spec(total, rows, 0) == 0,
        scrollbar_position_spec(total, rows, total - rows) == total - 1,
        offset >= total - rows ==> scrollbar_position_spec(total, rows, offset) == total - 1,
        scrollbar_position_spec(total, rows, offset) <= total - 1,
{
    let m = total - rows;
    if m > 0 {
        let p = min_int(offset, m);
        assert(p * (total - 1) <= m * (total - 1)) by (nonlinear_arith)
            requires 0 <= p <= m, total >= 1;
        assert((m * (total - 1) + m / 2) / m == total - 1) by (nonlinear_arith)
            requires m > 0, total >= 1;
        assert((p * (total - 1) + m / 2) / m <= (m * (total - 1) + m / 2) / m) by (nonlinear_arith)
            requires m > 0, p * (total - 1) <= m * (total - 1);
        assert((0 * (total - 1) + m / 2) / m == 0) by (nonlinear_arith)
            requires m > 0;
    }
}

/// The scrollbar position never moves up when the page moves down.
pub proof fn scrollbar_position_is_monotonic(total: int, rows: int, a: int, b: int)
    requires
        0 <= rows,
        1 <= total,
        0 <= a <= b,
    ensures
        scrollbar_position_spec(total, rows, a) <= scrollbar_position_spec(total, rows, b),
{
    let m = sub0(total, rows);
    if m > 0 {
        let pa = min_int(a, m);
        let pb = min_int(b, m);
        assert(pa * (total - 1) <= pb * (total - 1)) by (nonlinear_arith)
            requires 0 <= pa <= pb, total >= 1;
        assert((pa * (total - 1) + m / 2) / m <= (pb * (total - 1) + m / 2) / m) by (nonlinear_arith)
            requires m > 0, pa * (total - 1) <= pb * (total - 1);
    }
}

/// The thumb has at least one cell and lies on the track.
pub proof fn thumb_lies_on_track(total: int, rows: int, offset: int, track_len: int)
    requires
        0 <= rows,
        0 <= offset,
        0 <= track_len <= usize::MAX,
        0 <= total,
    ensures
        thumb_spec(total, rows, offset, track_len) matches Some(thumb) ==> {
            &&& 1 <= thumb.len
            &&& thumb.start + thumb.len <= track_len
        },
{
    let shown = shown_rows(rows, total);
    if !(total == 0 || total <= shown || track_len == 0) {
        let max_offset = total - shown;
        let len = thumb_len_spec(total, rows, track_len);
        let max_start = track_len - len;
        let pos = min_int(offset, max_offset);
        assert(0 <= (shown * track_len + total / 2) / total) by (nonlinear_arith)
            requires shown >= 0, track_len >= 0, total > 0;
        assert(0 <= scaled(pos, max_offset, max_start)) by (nonlinear_arith)
            requires pos >= 0, max_offset > 0, max_start >= 0;
    }
}

/// The frame of a centred dialog lies inside the area it is placed in, and its
/// body lies inside the frame, when the area has room for the frame's border.
pub proof fn centered_frame_lies_in_area(modal: ScrollableModal, area: Rect)
    requires
        modal.placement == ScrollableModalPlacement::Centered,
        area.width >= 2,
        area.height >= 2,
        area.x + area.width <= COORD_MAX,
        area.y + area.height <= COORD_MAX,
    ensures
        area.x <= modal.layout_in(area).area.x,
        modal.layout_in(area).area.right_spec() <= area.right_spec(),
        area.y <= modal.layout_in(area).area.y,
        modal.layout_in(area).area.bottom_spec() <= area.bottom_spec(),
        modal.layout_in(area).area.x <= modal.layout_in(area).content.x,
        modal.layout_in(area).content.right_spec() <= modal.layout_in(area).area.right_spec(),
        modal.layout_in(area).area.y <= modal.layout_in(area).content.y,
        modal.layout_in(area).content.bottom_spec() <= modal.layout_in(area).area.bottom_spec(),
{
}

} // verus!

//! The dialog that finds the processes holding a file open: its frame, the
//! rows of its body, the cells of its result table and its status text.

use vstd::prelude::*;

use crate::ui::format::{decimal, decimal_string};
use crate::ui::layout::add_usize;
use crate::ui::network::{is_control, shown_char};
use crate::ui::process_info_dialog::Shortcut;
use crate::ui::layout::{is_dialog_space, screen_body, screen_fits, screen_layout};
use crate::ui::rect::{add16, min_int, sub0, Rect};
use crate::ui::graph_slot::TextStyle;
use crate::ui::theme::Theme;
use crate::ui::text::{
    byte_len, char_count_before, chars_of, fit_count, fitting_prefix, is_char_boundary_at,
    lemma_char_index_unique, push_range, repeat_string, reversed_chars, span_width, spaces,
    str_width, string_from_chars, wrap_display, wrapped, CellMeasure,
};
use crate::ui::widgets::scrollable_modal::{ScrollableModal, ScrollableModalLayout, ScrollableModalPlacement};

verus! {

/// The dialog's frame: a body of 160 by 24 cells over two footer rows.
pub open spec fn browser_spec() -> ScrollableModal {
    ScrollableModal {
        title: "FIND FILE USERS",
        content_width: 160,
        content_height: 24,
        footer_height: 2,
        placement: ScrollableModalPlacement::Centered,
    }
}

/// The dialog's frame; see `browser_spec`.
pub fn browser() -> (r: ScrollableModal)
    ensures
        r == browser_spec(),
{
    ScrollableModal::new("FIND FILE USERS", 160, 24, 2)
}

/// The dialog's areas on the screen: placed in the area below the header
/// (see `is_dialog_space`) as `browser_spec().layout_in` says.
pub fn browser_layout(screen: Rect) -> (r: ScrollableModalLayout)
    ensures
        exists|space: Rect| #![trigger browser_spec().layout_in(space)]
            is_dialog_space(screen, space) && r == browser_spec().layout_in(space),
        screen_fits(screen) ==> r == browser_spec().layout_in(screen_body(screen)),
{
    let regions = screen_layout(screen);
    let r = browser().layout(regions[1]);
    proof {
        assert(is_dialog_space(screen, regions@[1]));
        assert(r == browser_spec().layout_in(regions@[1]));
    }
    r
}

/// Rows of the dialog's body: the query, the search mode, the status, the
/// progress, a notice, the table header and the result rows.
#[derive(Clone, Copy, Debug, PartialEq, Eq, Structural)]
pub struct FileUsersContentLayout {
    pub query: Rect,
    pub mode: Rect,
    pub status: Rect,
    pub progress: Rect,
    pub notice: Rect,
    pub header: Rect,
    pub rows: Rect,
}

/// The body row `offset` rows down, held to the body's bottom; no height when
/// the body has no such row.
pub open spec fn body_row(area: Rect, offset: int) -> Rect {
    Rect::placed(
        area.x as int,
        min_int(add16(area.y as int, offset), area.bottom_spec()),
        area.width as int,
        if offset < area.height { 1 } else { 0 },
    )
}

/// The rows of the body; the result rows take what is left below six rows.
pub open spec fn content_layout_spec(area: Rect) -> FileUsersContentLayout {
    FileUsersContentLayout {
        query: body_row(area, 0),
        mode: body_row(area, 1),
        status: body_row(area, 2),
        progress: body_row(area, 3),
        notice: body_row(area, 4),
        header: body_row(area, 5),
        rows: Rect::placed(
            area.x as int,
            min_int(add16(area.y as int, 6), area.bottom_spec()),
            area.width as int,
            sub0(area.height as int, 6),
        ),
    }
}

/// The body row `offset` rows down; see `body_row`.
fn row_at(area: Rect, offset: u16) -> (r: Rect)
    ensures
        r == body_row(area, offset as int),
{
    let y = area.y.saturating_add(offset);
    let bottom = area.bottom();
    Rect::new(area.x, if y < bottom { y } else { bottom }, area.width, if offset < area.height { 1 } else { 0 })
}

/// The rows of the body; see `content_layout_spec`.
pub fn content_layout(area: Rect) -> (r: FileUsersContentLayout)
    ensures
        r == content_layout_spec(area),
{
    let y = area.y.saturating_add(6);
    let bottom = area.bottom();
    FileUsersContentLayout {
        query: row_at(area, 0),
        mode: row_at(area, 1),
        status: row_at(area, 2),
        progress: row_at(area, 3),
        notice: row_at(area, 4),
        header: row_at(area, 5),
        rows: Rect::new(area.x, if y < bottom { y } else { bottom }, area.width, area.height.saturating_sub(6)),
    }
}

/// Where the scrollbar stands: the right column of the rows shown (the whole
/// area in the detail view, the result rows otherwise) when there are more
/// lines than those rows.
pub open spec fn scrollbar_spec(area: Rect, detail: bool, detail_lines: int, matches: int) -> Option<Rect> {
    let rows = if detail { area } else { content_layout_spec(area).rows };
    let total = if detail { detail_lines } else { matches };
    if rows.width > 0 && rows.height > 0 && total > rows.height {
        Some(Rect::placed(rows.right_spec() - 1, rows.y as int, 1, rows.height as int))
    } else {
        None
    }
}

/// Where the scrollbar stands; see `scrollbar_spec`. `detail_lines` counts the
/// lines of the detail view, `matches` the result rows.
pub fn scrollbar_area(area: Rect, detail: bool, detail_lines: usize, matches: usize) -> (r: Option<Rect>)
    ensures
        r == scrollbar_spec(area, detail, detail_lines as int, matches as int),
{
    let rows = if detail { area } else { content_layout(area).rows };
    let total = if detail { detail_lines } else { matches };
    if rows.width > 0 && rows.height > 0 && total > rows.height as usize {
        Some(Rect::new(rows.right() - 1, rows.y, 1, rows.height))
    } else {
        None
    }
}

/// The status line: what the search is doing (verifying the owner, searching,
/// the label of how it ended, or ready), a note when only part of the scope was
/// searched, and the number of matches. `end` is the label of how the search
/// ended and whether it ran to completion.
pub open spec fn status_spec(
    verifying: bool,
    searching: bool,
    end: Option<(&str, bool)>,
    incomplete: bool,
    matches: int,
) -> Seq<char> {
    let state = if verifying {
        "Verifying owner"@
    } else if searching {
        "Searching"@
    } else {
        match end {
            Some((label, _)) => label@,
            None => "Ready"@,
        }
    };
    let partial = incomplete || match end {
        Some((_, complete)) => !complete,
        None => false,
    };
    state + (if partial { " (partial scope)"@ } else { ""@ }) + " · "@ + decimal(matches as nat)
        + " matches"@
}

/// The status line; see `status_spec`.
pub fn status(
    verifying: bool,
    searching: bool,
    end: Option<(&str, bool)>,
    incomplete: bool,
    matches: usize,
) -> (r: String)
    ensures
        r@ == status_spec(verifying, searching, end, incomplete, matches as int),
{
    let mut out = if verifying {
        String::from_str("Verifying owner")
    } else if searching {
        String::from_str("Searching")
    } else {
        match end {
            Some((label, _)) => String::from_str(label),
            None => String::from_str("Ready"),
        }
    };
    let partial = incomplete || match end {
        Some((_, complete)) => !complete,
        None => false,
    };
    if partial {
        out.append(" (partial scope)");
    }
    proof {
        reveal_strlit("");
    }
    out.append(" · ");
    let digits = decimal_string(matches as u128);
    out.append(digits.as_str());
    out.append(" matches");
    out
}

/// A text with its control characters shown as spaces.
pub open spec fn shown_text(text: Seq<char>) -> Seq<char> {
    text.map_values(|c: char| shown_char(c))
}

/// A cell of `width` cells: the text padded with spaces when it fits; else as
/// much of its start (or, with `tail`, of its end) as stays under the width,
/// marked with `…` on the cut side and padded; nothing when the width is zero.
pub open spec fn fit_spec(text: Seq<char>, width: int, tail: bool) -> Seq<char> {
    let t = shown_text(text);
    if span_width(t) <= width {
        t + spaces(width - span_width(t))
    } else if width == 0 {
        Seq::empty()
    } else {
        let src = if tail { t.reverse() } else { t };
        let kept = src.take(fit_count(src, 0, width - 1, CellMeasure::Span));
        let cut = if tail { seq!['…'] + kept.reverse() } else { kept.push('…') };
        cut + spaces(sub0(width, span_width(cut) as int))
    }
}

/// The text with its control characters shown as spaces.
fn shown_chars(text: &str) -> (r: Vec<char>)
    ensures
        r@ == shown_text(text@),
{
    let src = chars_of(text);
    let mut out: Vec<char> = Vec::new();
    let mut i: usize = 0;
    while i < src.len()
        invariant
            i <= src@.len(),
            src@ == text@,
            out@ == text@.take(i as int).map_values(|c: char| shown_char(c)),
        decreases src@.len() - i,
    {
        let c = src[i];
        out.push(if is_control(c) { ' ' } else { c });
        i = i + 1;
        assert(out@ =~= text@.take(i as int).map_values(|c: char| shown_char(c)));
    }
    assert(text@.take(src@.len() as int) =~= text@);
    out
}

/// `text`, whose measured width is `text_width`, followed by spaces to make
/// up `width` cells.
pub fn pad_cell(text: String, text_width: usize, width: usize) -> (r: String)
    ensures
        r@ == text@ + spaces(sub0(width as int, text_width as int)),
{
    let pad = if text_width < width { width - text_width } else { 0 };
    let mut out = text;
    let tail = repeat_string(' ', pad);
    out.append(tail.as_str());
    out
}

/// The part of a cell before its padding, from the shown text `t`, its
/// measured width `t_width` and the widths `ws` of its characters: the text
/// when it fits in `width`, nothing when the width is zero, otherwise as many
/// characters of its start (or, with `tail`, of its end) as fit in `width - 1`
/// cells, marked with `…` on the cut side.
pub open spec fn fit_cut_spec(t: Seq<char>, ws: Seq<int>, t_width: int, width: int, tail: bool) -> Seq<char> {
    if t_width <= width {
        t
    } else if width == 0 {
        Seq::empty()
    } else {
        let src = if tail { t.reverse() } else { t };
        let kept = src.take(crate::ui::text::fit_count_widths(if tail { ws.reverse() } else { ws }, 0, width - 1));
        if tail { seq!['…'] + kept.reverse() } else { kept.push('…') }
    }
}

/// The part of a cell before its padding; see `fit_cut_spec`.
pub fn fit_cut(t: &Vec<char>, widths: &Vec<usize>, t_width: usize, width: usize, tail: bool) -> (r: Vec<char>)
    requires
        widths@.len() == t@.len(),
    ensures
        r@ == fit_cut_spec(t@, crate::ui::text::as_widths(widths@), t_width as int, width as int, tail),
{
    if t_width <= width {
        let mut out: Vec<char> = Vec::new();
        push_range(&mut out, t, 0, t.len());
        assert(out@ =~= t@);
        return out;
    }
    if width == 0 {
        let out: Vec<char> = Vec::new();
        assert(out@ =~= Seq::<char>::empty());
        return out;
    }
    let src = if tail { reversed_chars(t) } else { t.clone() };
    let ws = if tail { crate::ui::text::reversed_widths(widths) } else { widths.clone() };
    assert(crate::ui::text::as_widths(ws@) =~= if tail {
        crate::ui::text::as_widths(widths@).reverse()
    } else {
        crate::ui::text::as_widths(widths@)
    });
    let k = crate::ui::text::fitting_count(&ws, width - 1);
    let mut kept: Vec<char> = Vec::new();
    push_range(&mut kept, &src, 0, k);
    assert(kept@ =~= src@.take(k as int));
    let mut cut: Vec<char> = Vec::new();
    if tail {
        cut.push('…');
        let back = reversed_chars(&kept);
        push_range(&mut cut, &back, 0, back.len());
        assert(back@.subrange(0, back@.len() as int) =~= back@);
        assert(cut@ =~= seq!['…'] + kept@.reverse());
    } else {
        cut = kept;
        cut.push('…');
    }
    cut
}

/// A cell of `width` cells; see `fit_spec`: the text's control characters
/// shown as spaces, its widths measured, cut as `fit_cut` says, then padded
/// by its measured width (see `pad_cell`).
pub fn fit(text: &str, width: usize, tail: bool) -> (r: String)
    ensures
        r@ == fit_spec(text@, width as int, tail),
{
    let shown = shown_chars(text);
    let widths = crate::ui::text::measured_widths(&shown, CellMeasure::Span);
    let t = string_from_chars(&shown);
    let t_width = str_width(t.as_str());
    proof {
        if width >= 1 {
            crate::ui::text::lemma_fit_count_widths(shown@, 0, width - 1, CellMeasure::Span);
            crate::ui::text::lemma_fit_count_widths(shown@.reverse(), 0, width - 1, CellMeasure::Span);
            crate::ui::text::lemma_char_widths_reverse(shown@, CellMeasure::Span);
        }
    }
    let cut = fit_cut(&shown, &widths, t_width, width, tail);
    let s = string_from_chars(&cut);
    let s_width = str_width(s.as_str());
    let r = pad_cell(s, s_width, width);
    proof {
        if width == 0 && t_width > width {
            assert(r@ =~= Seq::<char>::empty());
        }
    }
    r
}

/// Widths of the result table's columns in `width` cells: the PID (up to 8),
/// the process (a quarter of the width within 8 to 24, held to what is left),
/// the handle count (up to 7) and the path (the rest), with a space between
/// neighbours.
pub open spec fn table_widths(width: int) -> (int, int, int, int) {
    let pid = min_int(8, width);
    let quarter = width / 4;
    let clamped = if quarter < 8 { 8 } else if quarter > 24 { 24 } else { quarter };
    let process = min_int(clamped, sub0(width, pid + 2));
    let count = min_int(7, sub0(width, pid + process + 3));
    let path = sub0(width, pid + process + count + 3);
    (pid, process, count, path)
}

/// A row of the result table: the cells side by side, the path cut from its
/// start so that its end stays in sight.
pub open spec fn table_line_spec(pid: Seq<char>, process: Seq<char>, count: Seq<char>, path: Seq<char>, width: int) -> Seq<char> {
    let (pw, rw, cw, aw) = table_widths(width);
    fit_spec(pid, pw, false) + " "@ + fit_spec(process, rw, false) + " "@ + fit_spec(count, cw, false) + " "@
        + fit_spec(path, aw, true)
}

/// A row of the result table; see `table_line_spec`.
pub fn table_line(pid: &str, process: &str, count: &str, path: &str, width: usize) -> (r: String)
    ensures
        r@ == table_line_spec(pid@, process@, count@, path@, width as int),
{
    let pid_width: usize = if width < 8 { width } else { 8 };
    let quarter = width / 4;
    let clamped: usize = if quarter < 8 { 8 } else if quarter > 24 { 24 } else { quarter };
    let left = width.saturating_sub(pid_width + 2);
    let process_width = if clamped < left { clamped } else { left };
    let count_room = width.saturating_sub(pid_width + process_width + 3);
    let count_width: usize = if count_room < 7 { count_room } else { 7 };
    let path_width = width.saturating_sub(pid_width + process_width + count_width + 3);
    let mut out = fit(pid, pid_width, false);
    out.append(" ");
    let b = fit(process, process_width, false);
    out.append(b.as_str());
    out.append(" ");
    let c = fit(count, count_width, false);
    out.append(c.as_str());
    out.append(" ");
    let d = fit(path, path_width, true);
    out.append(d.as_str());
    out
}

/// The first character from `s` on from which the text up to the cursor `k`
/// takes fewer than `width` cells.
pub open spec fn window_start(v: Seq<char>, s: int, k: int, width: int) -> int
    decreases k - s,
{
    if s >= k || span_width(v.subrange(s, k)) < width {
        s
    } else {
        window_start(v, s + 1, k, width)
    }
}

/// The query field `width` cells wide with the cursor after `k` characters:
/// the text from the first character that keeps the cursor inside the field,
/// fitted to the field, and the cursor's column in it.
pub open spec fn query_window_spec(draft: Seq<char>, k: int, width: int) -> (Seq<char>, int) {
    if width == 0 {
        (Seq::empty(), 0)
    } else {
        let s = window_start(draft, 0, k, width);
        (fit_spec(draft.skip(s), width, false), span_width(draft.subrange(s, k)) as int)
    }
}

/// The characters `from..to` of `chars` as a string.
fn slice_string(chars: &Vec<char>, from: usize, to: usize) -> (r: String)
    requires
        from <= to <= chars@.len(),
    ensures
        r@ == chars@.subrange(from as int, to as int),
{
    let mut out: Vec<char> = Vec::new();
    push_range(&mut out, chars, from, to);
    assert(out@ =~= chars@.subrange(from as int, to as int));
    string_from_chars(&out)
}

/// The query field `width` cells wide with the cursor at byte `cursor` of
/// `draft`; see `query_window_spec`.
pub fn query_window(draft: &str, cursor: usize, width: usize) -> (r: (String, usize))
    requires
        byte_len(draft@) <= usize::MAX,
        cursor <= byte_len(draft@),
        is_char_boundary_at(draft@, cursor as int),
    ensures
        forall|k: int|
            0 <= k <= draft@.len() && #[trigger] byte_len(draft@.take(k)) == cursor ==> (r.0@, r.1 as int)
                == query_window_spec(draft@, k, width as int),
{
    if width == 0 {
        proof {
            reveal_strlit("");
        }
        return (String::from_str(""), 0);
    }
    let k = char_count_before(draft, cursor);
    let chars = chars_of(draft);
    let n = chars.len();
    let mut s: usize = 0;
    while s < k
        invariant
            s <= k <= n == chars@.len(),
            chars@ == draft@,
            width > 0,
            window_start(draft@, 0, k as int, width as int) == window_start(draft@, s as int, k as int, width as int),
        ensures
            s <= k,
            window_start(draft@, 0, k as int, width as int) == s,
        decreases k - s,
    {
        let before = slice_string(&chars, s, k);
        let w = str_width(before.as_str());
        if w < width {
            break;
        }
        s = s + 1;
    }
    let rest = slice_string(&chars, s, n);
    assert(chars@.subrange(s as int, n as int) =~= draft@.skip(s as int));
    let shown = fit(rest.as_str(), width, false);
    let before = slice_string(&chars, s, k);
    let column = str_width(before.as_str());
    proof {
        assert forall|j: int| 0 <= j <= draft@.len() && #[trigger] byte_len(draft@.take(j)) == cursor implies j
            == k by {
            lemma_char_index_unique(draft@, j, k as int);
        }
    }
    (shown, column)
}

/// The selected result of a search: the file's path, the PID and name of the
/// process holding it, and how many of its handles matched.
#[derive(Clone, Debug)]
pub struct FileUserMatch {
    pub path: String,
    pub pid: u32,
    pub process_name: String,
    pub handle_count: u64,
}

/// What a search got through.
#[derive(Clone, Copy, Debug, PartialEq, Eq, Structural)]
pub struct FileSearchProgress {
    pub total_processes: u64,
    pub inspected_processes: u64,
    pub denied_processes: u64,
    pub exited_processes: u64,
    pub unavailable_processes: u64,
    pub total_handles: u64,
    pub inspected_handles: u64,
    pub unreadable_handles: u64,
    pub unnamed_disk_handles: u64,
    pub skipped_handles: u64,
}

/// The limits every search keeps to.
pub open spec fn limits_line() -> Seq<char> {
    "Limits: 30s overall, 5s without progress, 500,000 inspected handles, 5,000 result rows or 8 MiB."@
}

/// What a search covers and what it cannot tell.
pub open spec fn coverage_line() -> Seq<char> {
    "Coverage: disk-file handles only. Memory-mapped-only use and file aliases are not resolved. An open handle does not necessarily block deletion."@
}

/// The lines of the search's counts.
pub open spec fn progress_lines(p: FileSearchProgress) -> Seq<Seq<char>> {
    seq![
        "Processes in handle table: "@ + decimal(p.total_processes as nat),
        "Processes inspected: "@ + decimal(p.inspected_processes as nat),
        "Processes denied access: "@ + decimal(p.denied_processes as nat),
        "Processes exited during scan: "@ + decimal(p.exited_processes as nat),
        "Processes unavailable or unverified: "@ + decimal(p.unavailable_processes as nat),
        "Handles in table: "@ + decimal(p.total_handles as nat),
        "Handles inspected: "@ + decimal(p.inspected_handles as nat),
        "Handles unreadable: "@ + decimal(p.unreadable_handles as nat),
        "Disk-file handles without a readable path: "@ + decimal(p.unnamed_disk_handles as nat),
        "Handles skipped with unavailable processes: "@ + decimal(p.skipped_handles as nat),
        "Handles not reached: "@ + decimal(
            sub0(p.total_handles as int, p.inspected_handles + p.skipped_handles) as nat,
        ),
    ]
}

/// The lines of the detail view before wrapping: the selected result (its
/// path, owner and matched handles, then a blank line), the status, the query
/// searched for (its mode and text), the counts, the error of a failed search,
/// a warning left by the cleanup, the limits and the coverage.
pub open spec fn detail_source_lines(
    selected: Option<(Seq<char>, u32, Seq<char>, u64)>,
    status: Seq<char>,
    searched: Option<(Seq<char>, Seq<char>)>,
    progress: FileSearchProgress,
    failure: Option<Seq<char>>,
    cleanup_warning: Option<Seq<char>>,
) -> Seq<Seq<char>> {
    let head = match selected {
        Some((path, pid, name, handles)) => seq![
            path,
            "PID: "@ + decimal(pid as nat) + "  Process: "@ + name,
            "Matched handles: "@ + decimal(handles as nat),
            Seq::empty(),
        ],
        None => Seq::empty(),
    };
    let query = match searched {
        Some((mode, text)) => seq![mode + ": "@ + text],
        None => Seq::empty(),
    };
    let error = match failure {
        Some(e) => seq!["Error: "@ + e],
        None => Seq::empty(),
    };
    let warning = match cleanup_warning {
        Some(w) => seq![w],
        None => Seq::empty(),
    };
    head + seq![status] + query + progress_lines(progress) + error + warning + seq![limits_line(), coverage_line()]
}

/// Each line wrapped in turn, the wrapped lines one after another.
pub open spec fn wrap_all(lines: Seq<Seq<char>>, width: int) -> Seq<Seq<char>>
    decreases lines.len(),
{
    if lines.len() == 0 {
        Seq::empty()
    } else {
        wrap_all(lines.drop_last(), width) + wrapped(lines.last(), width)
    }
}

/// `label` followed by the decimal digits of `n`.
fn labeled_count(label: &str, n: u64) -> (r: String)
    ensures
        r@ == label@ + decimal(n as nat),
{
    let mut out = String::from_str(label);
    let digits = decimal_string(n as u128);
    out.append(digits.as_str());
    out
}

/// The lines of the detail view `width` columns wide: `detail_source_lines`,
/// each wrapped to one column less than the width (at least one).
pub fn detail_lines(
    selected: Option<&FileUserMatch>,
    status: &str,
    searched: Option<(&str, &str)>,
    progress: FileSearchProgress,
    failure: Option<&str>,
    cleanup_warning: Option<&str>,
    width: u16,
) -> (r: Vec<String>)
    requires
        progress.inspected_handles + progress.skipped_handles <= u64::MAX,
    ensures
        ({
            let want = wrap_all(
                detail_source_lines(
                    match selected {
                        Some(m) => Some((m.path@, m.pid, m.process_name@, m.handle_count)),
                        None => None,
                    },
                    status@,
                    match searched {
                        Some((mode, text)) => Some((mode@, text@)),
                        None => None,
                    },
                    progress,
                    match failure {
                        Some(e) => Some(e@),
                        None => None,
                    },
                    match cleanup_warning {
                        Some(w) => Some(w@),
                        None => None,
                    },
                ),
                if width >= 2 { width - 1 } else { 1 },
            );
            r@.len() == want.len() && forall|i: int| 0 <= i < r@.len() ==> #[trigger] r@[i]@ == want[i]
        }),
{
    let ghost sel = match selected {
        Some(m) => Some((m.path@, m.pid, m.process_name@, m.handle_count)),
        None => None,
    };
    let ghost srch = match searched {
        Some((mode, text)) => Some((mode@, text@)),
        None => None,
    };
    let ghost fail = match failure {
        Some(e) => Some(e@),
        None => None,
    };
    let ghost warn = match cleanup_warning {
        Some(w) => Some(w@),
        None => None,
    };
    let ghost source = detail_source_lines(sel, status@, srch, progress, fail, warn);
    let mut lines: Vec<String> = Vec::new();
    match selected {
        Some(entry) => {
            lines.push(entry.path.clone());
            let mut owner = labeled_count("PID: ", entry.pid as u64);
            owner.append("  Process: ");
            owner.append(entry.process_name.as_str());
            lines.push(owner);
            lines.push(labeled_count("Matched handles: ", entry.handle_count));
            lines.push(String::from_str(""));
            proof {
                reveal_strlit("");
            }
        },
        None => {},
    }
    lines.push(String::from_str(status));
    match searched {
        Some((mode, text)) => {
            let mut q = String::from_str(mode);
            q.append(": ");
            q.append(text);
            lines.push(q);
        },
        None => {},
    }
    let p = progress;
    lines.push(labeled_count("Processes in handle table: ", p.total_processes));
    lines.push(labeled_count("Processes inspected: ", p.inspected_processes));
    lines.push(labeled_count("Processes denied access: ", p.denied_processes));
    lines.push(labeled_count("Processes exited during scan: ", p.exited_processes));
    lines.push(labeled_count("Processes unavailable or unverified: ", p.unavailable_processes));
    lines.push(labeled_count("Handles in table: ", p.total_handles));
    lines.push(labeled_count("Handles inspected: ", p.inspected_handles));
    lines.push(labeled_count("Handles unreadable: ", p.unreadable_handles));
    lines.push(labeled_count("Disk-file handles without a readable path: ", p.unnamed_disk_handles));
    lines.push(labeled_count("Handles skipped with unavailable processes: ", p.skipped_handles));
    lines.push(labeled_count("Handles not reached: ", p.total_handles.saturating_sub(p.inspected_handles + p.skipped_handles)));
    match failure {
        Some(e) => {
            let mut line = String::from_str("Error: ");
            line.append(e);
            lines.push(line);
        },
        None => {},
    }
    match cleanup_warning {
        Some(w) => {
            lines.push(String::from_str(w));
        },
        None => {},
    }
    lines.push(String::from_str(
        "Limits: 30s overall, 5s without progress, 500,000 inspected handles, 5,000 result rows or 8 MiB.",
    ));
    lines.push(String::from_str(
        "Coverage: disk-file handles only. Memory-mapped-only use and file aliases are not resolved. An open handle does not necessarily block deletion.",
    ));
    assert(lines@.len() == source.len());
    assert forall|i: int| 0 <= i < lines@.len() implies #[trigger] lines@[i]@ == source[i] by {}
    let wrap_width: usize = if width >= 2 { (width - 1) as usize } else { 1 };
    let mut out: Vec<String> = Vec::new();
    let mut i: usize = 0;
    while i < lines.len()
        invariant
            i <= lines@.len() == source.len(),
            forall|j: int| 0 <= j < lines@.len() ==> #[trigger] lines@[j]@ == source[j],
            out@.len() == wrap_all(source.take(i as int), wrap_width as int).len(),
            forall|j: int| 0 <= j < out@.len() ==> #[trigger] out@[j]@ == wrap_all(source.take(i as int), wrap_width as int)[j],
        decreases lines@.len() - i,
    {
        let pieces = wrap_display(lines[i].as_str(), wrap_width);
        proof {
            assert(source.take(i + 1).drop_last() =~= source.take(i as int));
            assert(source.take(i + 1).last() == source[i as int]);
        }
        let ghost before = out@;
        let mut j: usize = 0;
        while j < pieces.len()
            invariant
                j <= pieces@.len(),
                out@.len() == before.len() + j,
                forall|t: int| 0 <= t < before.len() ==> #[trigger] out@[t] == before[t],
                forall|t: int| 0 <= t < j ==> #[trigger] out@[before.len() + t] == pieces@[t],
            decreases pieces@.len() - j,
        {
            out.push(pieces[j].clone());
            j = j + 1;
        }
        proof {
            let w = wrap_width as int;
            assert(wrap_all(source.take(i + 1), w) == wrap_all(source.take(i as int), w) + wrapped(source[i as int], w));
            assert forall|t: int| 0 <= t < out@.len() implies #[trigger] out@[t]@ == wrap_all(source.take(i + 1), w)[t] by {
                if t >= before.len() {
                    let u = t - before.len();
                    assert(out@[before.len() + u] == pieces@[u]);
                }
            }
        }
        i = i + 1;
    }
    proof {
        assert(source.take(source.len() as int) =~= source);
    }
    out
}

/// Which control of the dialog has the focus.
#[derive(Clone, Copy, Debug, PartialEq, Eq, Structural)]
pub enum FileUsersFocus {
    Query,
    Mode,
    Results,
}

/// The notice row: the dialog's own notice, else the cleanup warning, else
/// the error of a failed search, else a reminder when the query was changed
/// after the last search, else nothing.
pub open spec fn notice_spec(
    notice: Option<Seq<char>>,
    cleanup_warning: Option<Seq<char>>,
    failure: Option<Seq<char>>,
    query_changed: bool,
) -> Seq<char> {
    match notice {
        Some(n) => n,
        None => match cleanup_warning {
            Some(w) => w,
            None => match failure {
                Some(e) => e,
                None => if query_changed { "Query changed; start a search to update results"@ } else { ""@ },
            },
        },
    }
}

/// The notice row; see `notice_spec`.
pub fn notice_text(notice: Option<&str>, cleanup_warning: Option<&str>, failure: Option<&str>, query_changed: bool) -> (r: String)
    ensures
        r@ == notice_spec(
            match notice {
                Some(n) => Some(n@),
                None => None,
            },
            match cleanup_warning {
                Some(w) => Some(w@),
                None => None,
            },
            match failure {
                Some(e) => Some(e@),
                None => None,
            },
            query_changed,
        ),
{
    match notice {
        Some(n) => String::from_str(n),
        None => match cleanup_warning {
            Some(w) => String::from_str(w),
            None => match failure {
                Some(e) => String::from_str(e),
                None => if query_changed {
                    String::from_str("Query changed; start a search to update results")
                } else {
                    String::from_str("")
                },
            },
        },
    }
}

/// What the result rows say when there is no match: how to start, that none
/// was found yet while searching, or that none was found.
pub fn empty_results_text(searched: bool, pending: bool) -> (r: &'static str)
    ensures
        r == if !searched {
            "Enter a filename or path, then start a search."
        } else if pending {
            "No matches yet in the inspected scope."
        } else {
            "No matches found in the inspected scope."
        },
{
    if !searched {
        "Enter a filename or path, then start a search."
    } else if pending {
        "No matches yet in the inspected scope."
    } else {
        "No matches found in the inspected scope."
    }
}

/// The progress row: processes and handles inspected out of all.
pub fn progress_text(progress: FileSearchProgress) -> (r: String)
    ensures
        r@ == "Processes "@ + decimal(progress.inspected_processes as nat) + "/"@ + decimal(progress.total_processes as nat)
            + "  Handles "@ + decimal(progress.inspected_handles as nat) + "/"@ + decimal(progress.total_handles as nat),
{
    let mut out = String::from_str("Processes ");
    let a = decimal_string(progress.inspected_processes as u128);
    out.append(a.as_str());
    out.append("/");
    let b = decimal_string(progress.total_processes as u128);
    out.append(b.as_str());
    out.append("  Handles ");
    let c = decimal_string(progress.inspected_handles as u128);
    out.append(c.as_str());
    out.append("/");
    let d = decimal_string(progress.total_handles as u128);
    out.append(d.as_str());
    out
}

/// The two footer rows of shortcuts: what Enter and Esc do now (going back
/// from the details, searching, switching the mode or opening the process,
/// cancelling a search or closing), then the keys of the focused control.
pub open spec fn footer_spec(detail: bool, focus: FileUsersFocus, pending: bool) -> (Seq<Shortcut>, Seq<Shortcut>) {
    let enter = if detail {
        "back"
    } else {
        match focus {
            FileUsersFocus::Query => "search",
            FileUsersFocus::Mode => "mode",
            FileUsersFocus::Results => "info",
        }
    };
    let escape = if detail { "back" } else if pending { "cancel" } else { "close" };
    let first = seq![("Enter", enter), ("Esc", escape), ("Tab", "focus"), ("Ctrl+U", "search")];
    let second = if detail {
        seq![("↑/↓", "scroll"), ("PgUp/PgDn", "page"), ("Ctrl+C", "copy")]
    } else {
        match focus {
            FileUsersFocus::Query => seq![("←/→", "cursor"), ("Backspace/Delete", "edit")],
            FileUsersFocus::Mode => seq![("←/→", "mode"), ("Tab", "results")],
            FileUsersFocus::Results => seq![("↑/↓", "select"), ("Space", "details"), ("Ctrl+C", "copy")],
        }
    };
    (first, second)
}

/// The two footer rows of shortcuts; see `footer_spec`.
pub fn footer_shortcuts(detail: bool, focus: FileUsersFocus, pending: bool) -> (r: (Vec<Shortcut>, Vec<Shortcut>))
    ensures
        r.0@ == footer_spec(detail, focus, pending).0,
        r.1@ == footer_spec(detail, focus, pending).1,
{
    let enter = if detail {
        "back"
    } else {
        match focus {
            FileUsersFocus::Query => "search",
            FileUsersFocus::Mode => "mode",
            FileUsersFocus::Results => "info",
        }
    };
    let escape = if detail { "back" } else if pending { "cancel" } else { "close" };
    let first = vec![("Enter", enter), ("Esc", escape), ("Tab", "focus"), ("Ctrl+U", "search")];
    let second = if detail {
        vec![("↑/↓", "scroll"), ("PgUp/PgDn", "page"), ("Ctrl+C", "copy")]
    } else {
        match focus {
            FileUsersFocus::Query => vec![("←/→", "cursor"), ("Backspace/Delete", "edit")],
            FileUsersFocus::Mode => vec![("←/→", "mode"), ("Tab", "results")],
            FileUsersFocus::Results => vec![("↑/↓", "select"), ("Space", "details"), ("Ctrl+C", "copy")],
        }
    };
    (first, second)
}

/// The result rows shown: from the scroll offset on, as many as the rows
/// hold, within the results. Gives the first and the past-the-last index.
pub fn shown_results(total: usize, offset: usize, rows: u16) -> (r: (usize, usize))
    ensures
        r.0 == min_int(offset as int, total as int),
        r.1 == min_int(total as int, add_usize(r.0 as int, rows as int)),
{
    let first = if offset < total { offset } else { total };
    let end = first.saturating_add(rows as usize);
    (first, if end < total { end } else { total })
}

/// Position of the scrollbar for the lines from `offset` on, `rows` shown of
/// `total`: the offset (held to the last page) scaled to the lines, rounded
/// down; zero when nothing scrolls.
pub open spec fn browser_scroll_position_spec(total: int, rows: int, offset: int) -> int {
    let max_offset = sub0(total, rows);
    if max_offset == 0 { 0 } else { min_int(offset, max_offset) * sub0(total, 1) / max_offset }
}

/// Position of the scrollbar; see `browser_scroll_position_spec`.
pub fn browser_scroll_position(total: usize, rows: usize, offset: usize) -> (r: usize)
    requires
        min_int(offset as int, sub0(total as int, rows as int)) * sub0(total as int, 1) <= usize::MAX,
    ensures
        r == browser_scroll_position_spec(total as int, rows as int, offset as int),
{
    let max_offset = total.saturating_sub(rows);
    let shown = if offset < max_offset { offset } else { max_offset };
    let scaled = shown * total.saturating_sub(1);
    if max_offset == 0 {
        0
    } else {
        scaled / max_offset
    }
}

/// The dialog's body text: the theme's text on the raised surface.
pub open spec fn body_style(theme: Theme) -> TextStyle {
    TextStyle { fg: Some(theme.text), bg: Some(theme.panel_alt), bold: false, underlined: false }
}

/// Whether a part of the dialog shows the focus: it holds the focus and no
/// process dialog stands over this one.
pub open spec fn shows_focus(focused: bool, dialog_open: bool) -> bool {
    focused && !dialog_open
}

/// The look of the query and mode controls: body text, on the focus surface
/// and bold while the control shows the focus.
pub fn control_style(focused: bool, dialog_open: bool, theme: &Theme) -> (r: TextStyle)
    ensures
        r == if shows_focus(focused, dialog_open) {
            TextStyle { fg: Some(theme.text), bg: Some(theme.focus_surface), bold: true, underlined: false }
        } else {
            body_style(*theme)
        },
{
    if focused && !dialog_open {
        TextStyle { fg: Some(theme.text), bg: Some(theme.focus_surface), bold: true, underlined: false }
    } else {
        TextStyle { fg: Some(theme.text), bg: Some(theme.panel_alt), bold: false, underlined: false }
    }
}

/// The look of a result row: the selected row bold on the focus surface
/// while the results show the focus, else on the table's selection surface;
/// the other rows in body text.
pub fn result_row_style(is_selected: bool, results_focused: bool, dialog_open: bool, theme: &Theme) -> (r: TextStyle)
    ensures
        r == if !is_selected {
            body_style(*theme)
        } else if shows_focus(results_focused, dialog_open) {
            TextStyle { fg: Some(theme.text), bg: Some(theme.focus_surface), bold: true, underlined: false }
        } else {
            TextStyle { fg: Some(theme.text), bg: Some(theme.table_selection_surface), bold: true, underlined: false }
        },
{
    if !is_selected {
        TextStyle { fg: Some(theme.text), bg: Some(theme.panel_alt), bold: false, underlined: false }
    } else if results_focused && !dialog_open {
        TextStyle { fg: Some(theme.text), bg: Some(theme.focus_surface), bold: true, underlined: false }
    } else {
        TextStyle { fg: Some(theme.text), bg: Some(theme.table_selection_surface), bold: true, underlined: false }
    }
}

/// Where the query row shows the text cursor: only while the query shows the
/// focus and its row has room past the `Query: ` label, at the label's end
/// plus the cursor's column in the shown window.
pub open spec fn query_cursor_spec(query: Rect, cursor: u16, focused: bool, dialog_open: bool) -> Option<(int, int)> {
    if shows_focus(focused, dialog_open) && query.width > 7 && query.height > 0 {
        Some((query.x + 7 + cursor, query.y as int))
    } else {
        None
    }
}

/// The text cursor's cell in the query row; see `query_cursor_spec`. The
/// cursor's column is taken as a `u16` (its low bits).
pub fn query_cursor_position(query: Rect, cursor: usize, focused: bool, dialog_open: bool) -> (r: Option<(u16, u16)>)
    requires
        shows_focus(focused, dialog_open) && query.width > 7 && query.height > 0 ==> query.x + 7 + (cursor as u16)
            <= u16::MAX,
    ensures
        query_cursor_spec(query, cursor as u16, focused, dialog_open) == match r {
            Some((x, y)) => Some((x as int, y as int)),
            None => None,
        },
{
    if focused && !dialog_open && query.width > 7 && query.height > 0 {
        let column: u16 = cursor as u16;
        Some((query.x + 7 + column, query.y))
    } else {
        None
    }
}

} // verus!

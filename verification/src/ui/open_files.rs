//! The open-files tab of the process information dialog.

use vstd::prelude::*;

use crate::ui::format::{decimal, decimal_string};
use crate::ui::header::ellipsis3;
use crate::ui::styled::{line_view, lines_view, piece, push_line, single, single_line, Piece, Tone};
use crate::ui::investigation_profiles::{input_window, truncate, truncate_spec, cursor_char_of};
use crate::ui::process_environment::{filter_cursor_at, filter_cursor_spec};
use crate::ui::process_info_dialog::{generic_scrollbar_area, generic_scrollbar_spec};
use crate::ui::rect::{min_int, sub0, Rect};
use crate::ui::text::{
    byte_len, char_count_before, chars_of, contains_seq, filter_terms, is_char_boundary_at,
    lowercase, lowercase_words, pad_end, pad_end_string, pad_start, pad_start_string, push_range, push_repeated, repeated,
    str_contains, string_from_chars, to_lowercase,
};
use crate::ui::widgets::scrollable_modal::{scale_fits, scaled};

verus! {

/// Width of the count column.
pub const COUNT_COLUMN_WIDTH: usize = 5;
/// Width of the file-name column.
pub const FILE_COLUMN_WIDTH: usize = 38;
/// Width of the directory column.
pub const DIRECTORY_COLUMN_WIDTH: usize = 92;

/// What the tab needs to know of an open-files report.
#[derive(Clone, Copy, Debug, PartialEq, Eq, Structural)]
pub struct OpenFilesSummary {
    pub has_error: bool,
    pub inaccessible_handles: usize,
    pub unnamed_file_handles: usize,
}

/// Position of the scrollbar for the page at `offset`: the top at the first
/// page, the last position on the last page.
pub open spec fn list_scrollbar_position(total: int, rows: int, offset: int) -> int {
    let shown = min_int(if rows >= 1 { rows } else { 1 }, total);
    let max_offset = sub0(total, shown);
    if total == 0 || max_offset == 0 {
        0
    } else {
        scaled(min_int(offset, max_offset), max_offset, sub0(total, 1))
    }
}

/// Whether the arithmetic of `list_scrollbar_position` fits in a `usize`.
pub open spec fn list_scrollbar_fits(total: int, rows: int, offset: int) -> bool {
    let shown = min_int(if rows >= 1 { rows } else { 1 }, total);
    let max_offset = sub0(total, shown);
    scale_fits(min_int(offset, max_offset), max_offset, sub0(total, 1))
}

/// The list scrollbar (shared by the open files, the samples and the process
/// information pages): it is 0 when the list needs no scrolling or the page
/// is at the top, reaches the last position `total - 1` on the last page,
/// never passes it, and never moves up when the page moves down.
pub proof fn list_scrollbar_spans_track_in_order(total: int, rows: int, a: int, b: int)
    requires
        0 <= total,
        0 <= a <= b,
    ensures
        0 <= list_scrollbar_position(total, rows, a) <= list_scrollbar_position(total, rows, b),
        list_scrollbar_position(total, rows, b) <= if total >= 1 { total - 1 } else { 0 },
        list_scrollbar_position(total, rows, 0) == 0,
        sub0(total, min_int(if rows >= 1 { rows } else { 1 }, total)) == 0 ==> list_scrollbar_position(total, rows, b) == 0,
        ({
            let m = sub0(total, min_int(if rows >= 1 { rows } else { 1 }, total));
            m > 0 && b >= m ==> list_scrollbar_position(total, rows, b) == total - 1
        }),
{
    let shown = min_int(if rows >= 1 { rows } else { 1 }, total);
    let m = sub0(total, shown);
    if total > 0 && m > 0 {
        let pa = min_int(a, m);
        let pb = min_int(b, m);
        assert(pa * (total - 1) <= pb * (total - 1)) by (nonlinear_arith)
            requires 0 <= pa <= pb, total >= 1;
        assert((pa * (total - 1) + m / 2) / m <= (pb * (total - 1) + m / 2) / m) by (nonlinear_arith)
            requires m > 0, pa * (total - 1) <= pb * (total - 1);
        assert(0 <= (pa * (total - 1) + m / 2) / m) by (nonlinear_arith)
            requires m > 0, pa >= 0, total >= 1;
        assert(pb * (total - 1) <= m * (total - 1)) by (nonlinear_arith)
            requires 0 <= pb <= m, total >= 1;
        assert((m * (total - 1) + m / 2) / m == total - 1) by (nonlinear_arith)
            requires m > 0, total >= 1;
        assert((pb * (total - 1) + m / 2) / m <= (m * (total - 1) + m / 2) / m) by (nonlinear_arith)
            requires m > 0, pb * (total - 1) <= m * (total - 1);
        assert((0 * (total - 1) + m / 2) / m == 0) by (nonlinear_arith)
            requires m > 0;
    }
}

/// Position of the scrollbar; see `list_scrollbar_position`.
pub fn open_files_scrollbar_position(total: usize, rows: usize, offset: usize) -> (r: usize)
    requires
        list_scrollbar_fits(total as int, rows as int, offset as int),
    ensures
        r == list_scrollbar_position(total as int, rows as int, offset as int),
{
    let rows1 = if rows >= 1 { rows } else { 1 };
    let rows = if rows1 < total { rows1 } else { total };
    let max_offset = total.saturating_sub(rows);
    if total == 0 || max_offset == 0 {
        return 0;
    }
    let max_scrollbar_position = total.saturating_sub(1);
    let pos = if offset < max_offset { offset } else { max_offset };
    (pos * max_scrollbar_position + max_offset / 2) / max_offset
}

/// Rows of the tab: one line in log view, without a report or on an error;
/// otherwise three lines, one per diagnostic and one per listed entry.
pub open spec fn total_rows_spec(log_view: bool, report: Option<OpenFilesSummary>, listed: int) -> int {
    if log_view {
        1
    } else {
        match report {
            None => 1,
            Some(summary) => if summary.has_error {
                1
            } else {
                3 + (if summary.inaccessible_handles > 0 { 1int } else { 0 }) + (if summary.unnamed_file_handles
                    > 0 {
                    1int
                } else {
                    0
                }) + listed
            },
        }
    }
}

/// Rows of the tab; `listed` is the number of entries the filter keeps.
pub fn open_files_total_rows(log_view: bool, report: Option<OpenFilesSummary>, listed: usize) -> (r: usize)
    requires
        listed + 5 <= usize::MAX,
    ensures
        r == total_rows_spec(log_view, report, listed as int),
{
    if log_view {
        return 1;
    }
    match report {
        Some(summary) => {
            if summary.has_error {
                return 1;
            }
            let diagnostics = (if summary.inaccessible_handles > 0 { 1usize } else { 0 }) + (if summary.unnamed_file_handles
                > 0 {
                1usize
            } else {
                0
            });
            3 + diagnostics + listed
        },
        None => 1,
    }
}

/// Whether a path passes the filter words: no words, or one of them occurs in
/// the lower-cased path.
pub open spec fn path_passes(path: Seq<char>, terms: Seq<Seq<char>>) -> bool {
    terms.len() == 0 || exists|t: int| 0 <= t < terms.len() && contains_seq(lowercase(path), #[trigger] terms[t])
}

/// The indices below `n` for which `keep` holds, in order.
pub open spec fn indices_where(keep: spec_fn(int) -> bool, n: int) -> Seq<usize>
    decreases n,
{
    if n <= 0 {
        Seq::empty()
    } else if keep(n - 1) {
        indices_where(keep, n - 1).push((n - 1) as usize)
    } else {
        indices_where(keep, n - 1)
    }
}

/// `indices_where` reads `keep` below `n` only.
pub proof fn lemma_indices_where_agree(a: spec_fn(int) -> bool, b: spec_fn(int) -> bool, n: int)
    requires
        forall|i: int| 0 <= i < n ==> #[trigger] a(i) == b(i),
    ensures
        indices_where(a, n) == indices_where(b, n),
    decreases n,
{
    if n > 0 {
        lemma_indices_where_agree(a, b, n - 1);
    }
}

/// The indices kept lie below `n`.
pub proof fn lemma_indices_where_below(keep: spec_fn(int) -> bool, n: int)
    ensures
        forall|m: int| 0 <= m < indices_where(keep, n).len() ==> #[trigger] indices_where(keep, n)[m] < n,
        indices_where(keep, n).len() <= if n > 0 { n } else { 0 },
    decreases n,
{
    if n > 0 {
        lemma_indices_where_below(keep, n - 1);
    }
}

/// Whether some term occurs in `hay`.
pub fn any_term_in(hay: &str, terms: &Vec<String>) -> (r: bool)
    ensures
        r == exists|t: int| 0 <= t < terms@.len() && contains_seq(hay@, #[trigger] terms@[t]@),
{
    let mut i: usize = 0;
    while i < terms.len()
        invariant
            i <= terms@.len(),
            forall|t: int| 0 <= t < i ==> !contains_seq(hay@, #[trigger] terms@[t]@),
        decreases terms@.len() - i,
    {
        if str_contains(hay, terms[i].as_str()) {
            return true;
        }
        i = i + 1;
    }
    false
}

/// The indices of the entries whose path passes the filter, in order.
pub fn filtered_entries(paths: &Vec<String>, filter: &str) -> (r: Vec<usize>)
    ensures
        r@ == indices_where(|i: int| path_passes(paths@[i]@, lowercase_words(filter@)), paths@.len() as int),
{
    let terms = filter_terms(filter);
    let ghost words = lowercase_words(filter@);
    let ghost keep = |i: int| path_passes(paths@[i]@, words);
    let mut out: Vec<usize> = Vec::new();
    let mut i: usize = 0;
    while i < paths.len()
        invariant
            i <= paths@.len(),
            terms@.len() == words.len(),
            forall|k: int| 0 <= k < terms@.len() ==> #[trigger] terms@[k]@ == words[k],
            keep == (|i: int| path_passes(paths@[i]@, words)),
            out@ == indices_where(keep, i as int),
        decreases paths@.len() - i,
    {
        let keep_it = if terms.len() == 0 {
            true
        } else {
            let lower = to_lowercase(paths[i].as_str());
            let r = any_term_in(lower.as_str(), &terms);
            proof {
                if r {
                    let t = choose|t: int| 0 <= t < terms@.len() && contains_seq(lower@, #[trigger] terms@[t]@);
                    assert(contains_seq(lowercase(paths@[i as int]@), words[t]));
                } else {
                    assert forall|t: int| 0 <= t < words.len() implies !contains_seq(
                        lowercase(paths@[i as int]@),
                        #[trigger] words[t],
                    ) by {
                        assert(terms@[t]@ == words[t]);
                    }
                }
            }
            r
        };
        assert(keep_it == keep(i as int));
        if keep_it {
            out.push(i);
        }
        i = i + 1;
    }
    out
}

/// Width of the filter label.
pub fn filter_label_width() -> (r: usize)
    ensures
        r == 8,
{
    8
}

/// Characters left for the filter text after its label, at least one.
pub fn filter_input_width(width: usize) -> (r: usize)
    ensures
        r == if width > 9 { width - 8 } else { 1 },
{
    let w = width.saturating_sub(filter_label_width());
    if w >= 1 {
        w
    } else {
        1
    }
}

/// The visible window of the filter text, at least one character wide, and the
/// cursor's column in it.
pub open spec fn filter_window(value: Seq<char>, cursor_char: int, width: int) -> (Seq<char>, int) {
    let w = if width >= 1 { width } else { 1 };
    let start = sub0(cursor_char, w - 1);
    let end = min_int(start + w, value.len() as int);
    (value.subrange(start, if end >= start { end } else { start }), min_int(cursor_char - start, w - 1))
}

/// The visible part of the filter text and the cursor's column in it; `cursor`
/// is a byte offset into `value`.
pub fn filter_input_view(value: &str, cursor: usize, width: usize) -> (r: (String, usize))
    requires
        byte_len(value@) <= usize::MAX,
        cursor >= byte_len(value@) || is_char_boundary_at(value@, cursor as int),
    ensures
        exists|k: int|
            cursor_char_of(value@, cursor as int, k) && r.0@ == filter_window(value@, k, width as int).0
                && r.1 == filter_window(value@, k, width as int).1,
{
    let width = if width >= 1 { width } else { 1 };
    let cursor_char = char_count_before(value, cursor);
    let chars = chars_of(value);
    let n = chars.len();
    let start_char = cursor_char.saturating_sub(width - 1);
    let end0 = start_char.saturating_add(width);
    let end = if end0 < n { end0 } else { n };
    let mut out: Vec<char> = Vec::new();
    if start_char <= end {
        push_range(&mut out, &chars, start_char, end);
    }
    let x0 = cursor_char - start_char;
    let cursor_x = if x0 < width - 1 { x0 } else { width - 1 };
    assert(out@ =~= filter_window(value@, cursor_char as int, width as int).0);
    assert(cursor_char_of(value@, cursor as int, cursor_char as int));
    (string_from_chars(&out), cursor_x)
}

/// The visible part of the filter text after its label in a row of `width`.
pub fn filter_input_text(filter: &str, cursor: usize, width: usize) -> (r: String)
    requires
        byte_len(filter@) <= usize::MAX,
        cursor >= byte_len(filter@) || is_char_boundary_at(filter@, cursor as int),
    ensures
        exists|k: int|
            cursor_char_of(filter@, cursor as int, k) && r@ == filter_window(
                filter@,
                k,
                if width > 9 { width - 8 } else { 1 },
            ).0,
{
    filter_input_view(filter, cursor, filter_input_width(width)).0
}

/// Whether a character separates path segments.
pub open spec fn is_path_separator(c: char) -> bool {
    c == '\\' || c == '/'
}

/// Index of the last path separator in `s` before `end`, or -1.
pub open spec fn last_separator_before(s: Seq<char>, end: int) -> int
    decreases end,
{
    if end <= 0 {
        -1
    } else if is_path_separator(s[end - 1]) {
        end - 1
    } else {
        last_separator_before(s, end - 1)
    }
}

/// The last separator before `end` lies before `end`.
pub proof fn lemma_last_separator_bounds(s: Seq<char>, end: int)
    requires
        0 <= end <= s.len(),
    ensures
        -1 <= last_separator_before(s, end) < end,
    decreases end,
{
    if end > 0 && !is_path_separator(s[end - 1]) {
        lemma_last_separator_bounds(s, end - 1);
    }
}

/// Index of the last path separator in `s`, if any.
pub fn last_separator(s: &Vec<char>) -> (r: Option<usize>)
    ensures
        match r {
            Some(i) => i as int == last_separator_before(s@, s@.len() as int),
            None => last_separator_before(s@, s@.len() as int) < 0,
        },
        last_separator_before(s@, s@.len() as int) < s@.len(),
{
    let mut end = s.len();
    proof {
        lemma_last_separator_bounds(s@, s@.len() as int);
    }
    while end > 0
        invariant
            end <= s@.len(),
            last_separator_before(s@, s@.len() as int) == last_separator_before(s@, end as int),
        decreases end,
    {
        proof {
            lemma_last_separator_bounds(s@, end as int);
        }
        if s[end - 1] == '\\' || s[end - 1] == '/' {
            return Some(end - 1);
        }
        end = end - 1;
    }
    None
}

/// The last segment of a path: what follows its last separator.
pub open spec fn file_name_spec(path: Seq<char>) -> Seq<char> {
    path.skip(last_separator_before(path, path.len() as int) + 1)
}

/// The part of a path before its last separator; empty without one.
pub open spec fn directory_spec(path: Seq<char>) -> Seq<char> {
    path.take(if last_separator_before(path, path.len() as int) < 0 {
        0
    } else {
        last_separator_before(path, path.len() as int)
    })
}

/// The last segment of a path: what follows its last separator.
pub fn file_name(path: &str) -> (r: &str)
    ensures
        r@ == file_name_spec(path@),
{
    let chars = chars_of(path);
    let n = chars.len();
    proof {
        lemma_last_separator_bounds(path@, path@.len() as int);
    }
    match last_separator(&chars) {
        Some(i) => {
            let r = path.substring_char(i + 1, n);
            assert(r@ =~= path@.skip(i + 1));
            r
        },
        None => {
            let r = path.substring_char(0, n);
            assert(r@ =~= path@.skip(0));
            r
        },
    }
}

/// The part of a path before its last separator; empty without one.
pub fn directory_name(path: &str) -> (r: &str)
    ensures
        r@ == directory_spec(path@),
{
    let chars = chars_of(path);
    match last_separator(&chars) {
        Some(i) => {
            let r = path.substring_char(0, i);
            assert(r@ =~= path@.take(i as int));
            r
        },
        None => {
            let r = path.substring_char(0, 0);
            assert(r@ =~= path@.take(0));
            r
        },
    }
}

/// `value` cut at its end to at most `width` characters.
pub fn truncate_end(value: &str, width: usize) -> (r: String)
    ensures
        r@ == truncate_spec(value@, width as int),
        r@.len() == min_int(value@.len() as int, width as int),
{
    truncate(value, width)
}

/// `path` cut at its start to at most `width` characters: kept whole when it
/// fits, all dots when the width leaves no room for text, otherwise three dots
/// and its tail.
pub open spec fn truncate_start_spec(path: Seq<char>, width: int) -> Seq<char> {
    if path.len() <= width {
        path
    } else if width <= 3 {
        repeated('.', width)
    } else {
        ellipsis3() + path.skip(path.len() - (width - 3))
    }
}

/// `path` cut at its start to at most `width` characters.
pub fn truncate_path_start(path: &str, width: usize) -> (r: String)
    ensures
        r@ == truncate_start_spec(path@, width as int),
        r@.len() == min_int(path@.len() as int, width as int),
{
    let chars = chars_of(path);
    let n = chars.len();
    if n <= width {
        return String::from_str(path);
    }
    let mut out: Vec<char> = Vec::new();
    if width <= 3 {
        push_repeated(&mut out, '.', width);
    } else {
        push_repeated(&mut out, '.', 3);
        push_range(&mut out, &chars, n - (width - 3), n);
    }
    assert(out@ =~= truncate_start_spec(path@, width as int));
    string_from_chars(&out)
}

/// A cell of `width` characters: the value cut at its end, then padded.
pub fn fit_cell(value: &str, width: usize) -> (r: String)
    ensures
        r@ == pad_end(truncate_spec(value@, width as int), width as int),
        r@.len() == width,
{
    let cut = truncate_end(value, width);
    pad_end_string(cut.as_str(), width)
}

/// A cell of `width` characters: the path cut at its start, then padded.
pub fn fit_cell_start(value: &str, width: usize) -> (r: String)
    ensures
        r@ == pad_end(truncate_start_spec(value@, width as int), width as int),
        r@.len() == width,
{
    let cut = truncate_path_start(value, width);
    pad_end_string(cut.as_str(), width)
}

/// An open file of a report: how many handles name it, and its path.
#[derive(Clone, Debug)]
pub struct OpenFileEntry {
    pub handle_count: usize,
    pub path: String,
}

/// A report of a process's open files: whose, the message of the error that
/// stopped it where one did, the handle counts, and the named files.
#[derive(Clone, Debug)]
pub struct OpenFilesReport {
    pub process_name: String,
    pub pid: u32,
    pub error: Option<String>,
    pub total_handles: usize,
    pub file_handles: usize,
    pub inaccessible_handles: usize,
    pub unnamed_file_handles: usize,
    pub entries: Vec<OpenFileEntry>,
}

/// `value` cut at its end and padded to `width` characters.
pub open spec fn fit_end_spec(value: Seq<char>, width: int) -> Seq<char> {
    pad_end(truncate_spec(value, width), width)
}

/// `value` cut at its start and padded to `width` characters.
pub open spec fn fit_start_spec(value: Seq<char>, width: int) -> Seq<char> {
    pad_end(truncate_start_spec(value, width), width)
}

/// The entries of `report` the filter keeps, by index, in order.
pub open spec fn kept_entries(entries: Seq<OpenFileEntry>, filter: Seq<char>) -> Seq<usize> {
    indices_where(|i: int| path_passes(entries[i].path@, lowercase_words(filter)), entries.len() as int)
}

/// The heading of the list: the count, file and directory column names.
pub open spec fn open_files_header() -> Seq<(Tone, Seq<char>)> {
    seq![
        (Tone::ColumnHeading, fit_end_spec("Count"@, COUNT_COLUMN_WIDTH as int)),
        (Tone::Plain, " "@),
        (Tone::ColumnHeading, fit_end_spec("File"@, FILE_COLUMN_WIDTH as int)),
        (Tone::Plain, " "@),
        (Tone::ColumnHeading, fit_end_spec("Directory"@, DIRECTORY_COLUMN_WIDTH as int)),
    ]
}

/// The row of an open file: its handle count right-aligned, its name and its
/// directory, both cut at their start.
pub open spec fn open_files_row(entry: OpenFileEntry) -> Seq<(Tone, Seq<char>)> {
    seq![
        (Tone::Accent, pad_start(decimal(entry.handle_count as nat), COUNT_COLUMN_WIDTH as int)),
        (Tone::Plain, " "@),
        (Tone::Text, fit_start_spec(file_name_spec(entry.path@), FILE_COLUMN_WIDTH as int)),
        (Tone::Plain, " "@),
        (Tone::Muted, fit_start_spec(directory_spec(entry.path@), DIRECTORY_COLUMN_WIDTH as int)),
    ]
}

/// The first line of a report: whose it is, whether the process is gone, the
/// handle counts, the listed paths (of all, while a filter is set) and whether
/// a refresh runs.
pub open spec fn open_files_title(report: OpenFilesReport, live: bool, refreshing: bool, filter: Seq<char>, kept: nat) -> Seq<char> {
    report.process_name@ + " / PID "@ + decimal(report.pid as nat) + (if live { ""@ } else { " · process exited"@ })
        + "  handles "@ + decimal(report.total_handles as nat) + "  file handles "@ + decimal(
        report.file_handles as nat,
    ) + "  "@ + (if filter.len() == 0 {
        "paths "@ + decimal(report.entries@.len())
    } else {
        "shown "@ + decimal(kept) + "/"@ + decimal(report.entries@.len())
    }) + (if refreshing { "  refreshing..."@ } else { ""@ })
}

/// The lines of the open-files tab: a note in log view or while no report is
/// in; the error with whose report it is; otherwise the title, the filter
/// (`filter_text` is its visible part), a line per diagnostic, and the list of
/// kept files under its heading or a note that none is kept.
pub open spec fn open_files_lines_spec(
    log_view: bool,
    report: Option<OpenFilesReport>,
    live: bool,
    refreshing: bool,
    filter: Seq<char>,
    filter_text: Seq<char>,
) -> Seq<Seq<(Tone, Seq<char>)>> {
    if log_view {
        seq![single(Tone::Muted, "Not recorded in Log view."@)]
    } else {
        match report {
            None => seq![single(Tone::Muted, "Loading..."@)],
            Some(r) => match r.error {
                Some(message) => seq![
                    single(
                        Tone::Danger,
                        message@ + " ("@ + r.process_name@ + " / PID "@ + decimal(r.pid as nat) + ")"@,
                    ),
                ],
                None => {
                    let kept = kept_entries(r.entries@, filter);
                    let head = seq![
                        single(Tone::Title, open_files_title(r, live, refreshing, filter, kept.len())),
                        seq![(Tone::Muted, "Filter: "@), (Tone::Text, filter_text)],
                    ] + (if r.inaccessible_handles > 0 {
                        seq![single(Tone::Warning, decimal(r.inaccessible_handles as nat) + " handles could not be inspected"@)]
                    } else {
                        Seq::empty()
                    }) + (if r.unnamed_file_handles > 0 {
                        seq![single(Tone::Warning, decimal(r.unnamed_file_handles as nat) + " file handles had no path"@)]
                    } else {
                        Seq::empty()
                    });
                    if kept.len() == 0 {
                        head.push(single(
                            Tone::Muted,
                            if filter.len() == 0 { "No named disk file handles."@ } else { "No matching paths."@ },
                        ))
                    } else {
                        head.push(open_files_header()) + Seq::new(
                            kept.len(),
                            |j: int| open_files_row(r.entries@[kept[j] as int]),
                        )
                    }
                },
            },
        }
    }
}

/// The heading of the list; see `open_files_header`.
pub fn open_files_table_header() -> (r: Vec<Piece>)
    ensures
        line_view(r@) == open_files_header(),
{
    let r = vec![
        Piece { tone: Tone::ColumnHeading, text: fit_cell("Count", COUNT_COLUMN_WIDTH) },
        piece(Tone::Plain, " "),
        Piece { tone: Tone::ColumnHeading, text: fit_cell("File", FILE_COLUMN_WIDTH) },
        piece(Tone::Plain, " "),
        Piece { tone: Tone::ColumnHeading, text: fit_cell("Directory", DIRECTORY_COLUMN_WIDTH) },
    ];
    assert(line_view(r@) =~= open_files_header());
    r
}

/// The row of an open file; see `open_files_row`.
pub fn open_files_table_row(entry: &OpenFileEntry) -> (r: Vec<Piece>)
    ensures
        line_view(r@) == open_files_row(*entry),
{
    let count = decimal_string(entry.handle_count as u128);
    let r = vec![
        Piece { tone: Tone::Accent, text: pad_start_string(count.as_str(), COUNT_COLUMN_WIDTH) },
        piece(Tone::Plain, " "),
        Piece { tone: Tone::Text, text: fit_cell_start(file_name(entry.path.as_str()), FILE_COLUMN_WIDTH) },
        piece(Tone::Plain, " "),
        Piece { tone: Tone::Muted, text: fit_cell_start(directory_name(entry.path.as_str()), DIRECTORY_COLUMN_WIDTH) },
    ];
    assert(line_view(r@) =~= open_files_row(*entry));
    r
}

/// The entries of a report the filter keeps; see `kept_entries`.
pub fn kept_open_files(entries: &Vec<OpenFileEntry>, filter: &str) -> (r: Vec<usize>)
    ensures
        r@ == kept_entries(entries@, filter@),
{
    let mut paths: Vec<String> = Vec::new();
    let mut i: usize = 0;
    while i < entries.len()
        invariant
            i <= entries@.len(),
            paths@.len() == i,
            forall|k: int| 0 <= k < i ==> #[trigger] paths@[k]@ == entries@[k].path@,
        decreases entries@.len() - i,
    {
        paths.push(String::from_str(entries[i].path.as_str()));
        i = i + 1;
    }
    let r = filtered_entries(&paths, filter);
    let ghost words = lowercase_words(filter@);
    proof {
        lemma_indices_where_agree(
            |k: int| path_passes(paths@[k]@, words),
            |k: int| path_passes(entries@[k].path@, words),
            entries@.len() as int,
        );
    }
    r
}

/// The lines of the open-files tab; see `open_files_lines_spec`. `live` tells
/// whether the process still runs, `refreshing` whether a new report is being
/// taken, and `cursor` is the filter's cursor as a byte offset.
#[verifier::spinoff_prover]
#[verifier::rlimit(40)]
pub fn open_files_lines(
    log_view: bool,
    report: &Option<OpenFilesReport>,
    live: bool,
    refreshing: bool,
    filter: &str,
    cursor: usize,
    width: usize,
) -> (r: Vec<Vec<Piece>>)
    requires
        byte_len(filter@) <= usize::MAX,
        cursor >= byte_len(filter@) || is_char_boundary_at(filter@, cursor as int),
    ensures
        exists|k: int|
            cursor_char_of(filter@, cursor as int, k) && lines_view(r@) == open_files_lines_spec(
                log_view,
                *report,
                live,
                refreshing,
                filter@,
                filter_window(filter@, k, if width > 9 { width - 8 } else { 1 }).0,
            ),
{
    let filter_text = filter_input_text(filter, cursor, width);
    let ghost k = choose|k: int|
        cursor_char_of(filter@, cursor as int, k) && filter_text@ == filter_window(
            filter@,
            k,
            if width > 9 { width - 8 } else { 1 },
        ).0;
    let mut lines: Vec<Vec<Piece>> = Vec::new();
    if log_view {
        push_line(&mut lines, single_line(Tone::Muted, String::from_str("Not recorded in Log view.")));
        assert(lines_view(lines@) =~= open_files_lines_spec(log_view, *report, live, refreshing, filter@, filter_text@));
        return lines;
    }
    let r = match report {
        Some(r) => r,
        None => {
            push_line(&mut lines, single_line(Tone::Muted, String::from_str("Loading...")));
            assert(lines_view(lines@) =~= open_files_lines_spec(log_view, *report, live, refreshing, filter@, filter_text@));
            return lines;
        },
    };
    let pid = decimal_string(r.pid as u128);
    if let Some(message) = &r.error {
        let mut text = String::from_str(message.as_str());
        text.append(" (");
        text.append(r.process_name.as_str());
        text.append(" / PID ");
        text.append(pid.as_str());
        text.append(")");
        push_line(&mut lines, single_line(Tone::Danger, text));
        assert(lines_view(lines@) =~= open_files_lines_spec(log_view, *report, live, refreshing, filter@, filter_text@));
        return lines;
    }
    let kept = kept_open_files(&r.entries, filter);
    let total = decimal_string(r.entries.len() as u128);
    let filtered = filter.unicode_len() > 0;
    let mut title = String::from_str(r.process_name.as_str());
    title.append(" / PID ");
    title.append(pid.as_str());
    if !live {
        title.append(" · process exited");
    }
    title.append("  handles ");
    let handles = decimal_string(r.total_handles as u128);
    title.append(handles.as_str());
    title.append("  file handles ");
    let file_handles = decimal_string(r.file_handles as u128);
    title.append(file_handles.as_str());
    title.append("  ");
    if filtered {
        title.append("shown ");
        let shown = decimal_string(kept.len() as u128);
        title.append(shown.as_str());
        title.append("/");
    } else {
        title.append("paths ");
    }
    title.append(total.as_str());
    if refreshing {
        title.append("  refreshing...");
    }
    proof {
        reveal_strlit("");
        assert(title@ =~= open_files_title(*r, live, refreshing, filter@, kept@.len()));
    }
    push_line(&mut lines, single_line(Tone::Title, title));
    let filter_line = vec![piece(Tone::Muted, "Filter: "), Piece { tone: Tone::Text, text: filter_text }];
    assert(line_view(filter_line@) =~= seq![(Tone::Muted, "Filter: "@), (Tone::Text, filter_text@)]);
    push_line(&mut lines, filter_line);
    if r.inaccessible_handles > 0 {
        let mut text = decimal_string(r.inaccessible_handles as u128);
        text.append(" handles could not be inspected");
        push_line(&mut lines, single_line(Tone::Warning, text));
    }
    if r.unnamed_file_handles > 0 {
        let mut text = decimal_string(r.unnamed_file_handles as u128);
        text.append(" file handles had no path");
        push_line(&mut lines, single_line(Tone::Warning, text));
    }
    let ghost head = lines_view(lines@);
    assert(head =~= seq![
        single(Tone::Title, open_files_title(*r, live, refreshing, filter@, kept@.len())),
        seq![(Tone::Muted, "Filter: "@), (Tone::Text, filter_text@)],
    ] + (if r.inaccessible_handles > 0 {
        seq![single(Tone::Warning, decimal(r.inaccessible_handles as nat) + " handles could not be inspected"@)]
    } else {
        Seq::empty()
    }) + (if r.unnamed_file_handles > 0 {
        seq![single(Tone::Warning, decimal(r.unnamed_file_handles as nat) + " file handles had no path"@)]
    } else {
        Seq::empty()
    }));
    if kept.len() == 0 {
        let note = if filtered { "No matching paths." } else { "No named disk file handles." };
        push_line(&mut lines, single_line(Tone::Muted, String::from_str(note)));
        assert(lines_view(lines@) =~= open_files_lines_spec(log_view, *report, live, refreshing, filter@, filter_text@));
        return lines;
    }
    push_line(&mut lines, open_files_table_header());
    proof {
        lemma_indices_where_below(|i: int| path_passes(r.entries@[i].path@, lowercase_words(filter@)), r.entries@.len() as int);
    }
    let ghost with_header = lines_view(lines@);
    let mut j: usize = 0;
    while j < kept.len()
        invariant
            j <= kept@.len(),
            kept@ == kept_entries(r.entries@, filter@),
            forall|m: int| 0 <= m < kept@.len() ==> #[trigger] kept@[m] < r.entries@.len(),
            lines_view(lines@) == with_header + Seq::new(j as nat, |m: int| open_files_row(r.entries@[kept@[m] as int])),
        decreases kept@.len() - j,
    {
        let row = open_files_table_row(&r.entries[kept[j]]);
        push_line(&mut lines, row);
        j = j + 1;
        assert(lines_view(lines@) =~= with_header + Seq::new(j as nat, |m: int| open_files_row(r.entries@[kept@[m] as int])));
    }
    assert(lines_view(lines@) =~= open_files_lines_spec(log_view, *report, live, refreshing, filter@, filter_text@));
    lines
}

/// Where the scrollbar of the open-files tab stands: `total_rows` lines, of
/// which `page_size` show.
pub fn open_files_scrollbar_area(area: Rect, total_rows: usize, page_size: usize) -> (r: Option<Rect>)
    ensures
        r == generic_scrollbar_spec(area, total_rows as int, page_size as int),
{
    generic_scrollbar_area(area, total_rows, page_size)
}

/// Where the terminal cursor stands in the open-files tab's filter: only while
/// the content has the focus and a report without error shows.
pub fn open_files_filter_cursor(
    area: Rect,
    content_focused: bool,
    report_listed: bool,
    line_count: usize,
    offset: usize,
    filter: &str,
    cursor: usize,
) -> (r: Option<(u16, u16)>)
    requires
        byte_len(filter@) <= usize::MAX,
        cursor >= byte_len(filter@) || is_char_boundary_at(filter@, cursor as int),
    ensures
        !content_focused || !report_listed ==> r is None,
        content_focused && report_listed ==> exists|k: int|
            cursor_char_of(filter@, cursor as int, k) && r == filter_cursor_spec(
                area,
                line_count as int,
                offset as int,
                filter_window(filter@, k, if area.width > 9 { area.width - 8 } else { 1 }).1,
            ),
{
    if !content_focused || !report_listed {
        return None;
    }
    let (_, cursor_x) = filter_input_view(filter, cursor, filter_input_width(area.width as usize));
    filter_cursor_at(area, line_count, offset, cursor_x)
}

/// A filter keeps exactly the entries that pass it, each once, in their
/// order: an index is kept if and only if it is below `n` and passes, and
/// the kept indices rise.
pub proof fn filter_keeps_exactly_the_matches(keep: spec_fn(int) -> bool, n: int)
    requires
        n <= usize::MAX,
    ensures
        forall|i: int| (exists|j: int| 0 <= j < indices_where(keep, n).len() && indices_where(keep, n)[j] == i)
            <==> (0 <= i < n && #[trigger] keep(i)),
        forall|a: int, b: int|
            0 <= a < b < indices_where(keep, n).len() ==> indices_where(keep, n)[a] < indices_where(keep, n)[b],
    decreases n,
{
    if n <= 0 {
        assert(indices_where(keep, n).len() == 0);
    } else {
        filter_keeps_exactly_the_matches(keep, n - 1);
        lemma_indices_where_below(keep, n - 1);
        let prev = indices_where(keep, n - 1);
        if keep(n - 1) {
            let cur = prev.push((n - 1) as usize);
            assert(indices_where(keep, n) == cur);
            assert forall|i: int| (exists|j: int| 0 <= j < cur.len() && cur[j] == i) <==> (0 <= i < n && #[trigger] keep(i)) by {
                if 0 <= i < n && keep(i) {
                    if i == n - 1 {
                        assert(cur[prev.len() as int] == i);
                    } else {
                        let j = choose|j: int| 0 <= j < prev.len() && prev[j] == i;
                        assert(cur[j] == i);
                    }
                }
                if exists|j: int| 0 <= j < cur.len() && cur[j] == i {
                    let j = choose|j: int| 0 <= j < cur.len() && cur[j] == i;
                    if j < prev.len() {
                        assert(prev[j] == i);
                    }
                }
            }
        } else {
            assert(indices_where(keep, n) == prev);
            assert forall|i: int| (exists|j: int| 0 <= j < prev.len() && prev[j] == i) <==> (0 <= i < n && #[trigger] keep(i)) by {
                if exists|j: int| 0 <= j < prev.len() && prev[j] == i {
                    let j = choose|j: int| 0 <= j < prev.len() && prev[j] == i;
                    assert(prev[j] < n - 1);
                }
            }
        }
    }
}

} // verus!

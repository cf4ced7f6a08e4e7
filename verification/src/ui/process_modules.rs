//! The modules tab of the process information dialog.

use vstd::prelude::*;

use crate::ui::header::ellipsis3;
use crate::ui::styled::{line_view, lines_view, piece, push_line, single, single_line, Piece, Tone};
use crate::ui::investigation_profiles::cursor_char_of;
use crate::ui::open_files::indices_where;
use crate::ui::process_environment::{
    captured_title, captured_title_text, detail_lines, environment_filter_cursor, filter_cursor_spec, fit_cells_spec,
    labelled_lines, list_index_at, list_index_at_spec, truncate_cells_spec, window_of,
};
use crate::ui::process_info_dialog::{generic_scrollbar_area, generic_scrollbar_spec};
use crate::ui::rect::{max_int, sub0, Rect};
use crate::ui::text::{
    byte_len, chars_of, contains_seq, filter_terms, fit_count, fitting_prefix,
    is_char_boundary_at, lowercase, lowercase_words, push_range, push_repeated, repeated,
    reversed_chars, spaces, span_width, str_contains, str_width, string_from_chars, to_lowercase,
    wrapped, CellMeasure, as_widths, fit_count_widths, fitting_count, lemma_char_widths_reverse,
    lemma_fit_count_widths, measured_widths, reversed_widths,
};

verus! {

/// A module loaded by a process: its path, its file name, the company,
/// versions and modification time its file states (as shown), and its
/// directory.
#[derive(Clone, Debug)]
pub struct ModuleEntry {
    pub path: String,
    pub dll_name: String,
    pub company_name: String,
    pub product_version: String,
    pub file_version: String,
    pub modified: String,
    pub directory: String,
}

/// The loaded modules of a process: whose, when they were listed (as the
/// local clock time shown for it), and the modules.
#[derive(Clone, Debug)]
pub struct ModulesReport {
    pub process_name: String,
    pub pid: u32,
    pub captured_at: String,
    pub entries: Vec<ModuleEntry>,
}

/// Widest label column of a module shown whole.
pub const MODULE_LABEL_WIDTH: usize = 18;

/// `value` cut to at most `width` cells: kept whole when it fits, all dots when
/// the width leaves no room for text, otherwise three dots at the cut end and
/// the characters of the other end that fit in `width - 3` cells.
pub open spec fn truncate_display_spec(value: Seq<char>, width: int, from_start: bool) -> Seq<char> {
    if span_width(value) <= width {
        value
    } else if width <= 3 {
        repeated('.', width)
    } else if from_start {
        let k = fit_count(value.reverse(), 0, width - 3, CellMeasure::SpanAtLeastOne);
        ellipsis3() + value.skip(value.len() - k)
    } else {
        value.take(fit_count(value, 0, width - 3, CellMeasure::SpanAtLeastOne)) + ellipsis3()
    }
}

/// `value` cut to at most `width` cells, from its measured width
/// `value_width` and the widths `ws` of its characters: kept whole when it
/// fits, all dots when the width leaves no room for text, otherwise three
/// dots at the cut end and the characters of the other end whose widths fit
/// in `width - 3` cells.
pub open spec fn truncate_measured_spec(value: Seq<char>, ws: Seq<int>, value_width: int, width: int, from_start: bool) -> Seq<char> {
    if value_width <= width {
        value
    } else if width <= 3 {
        repeated('.', width)
    } else if from_start {
        ellipsis3() + value.skip(value.len() - fit_count_widths(ws.reverse(), 0, width - 3))
    } else {
        value.take(fit_count_widths(ws, 0, width - 3)) + ellipsis3()
    }
}

/// `value` cut to at most `width` cells from its measured widths; see
/// `truncate_measured_spec`.
pub fn truncate_measured(value: &str, widths: &Vec<usize>, value_width: usize, width: usize, from_start: bool) -> (r: String)
    requires
        widths@.len() == value@.len(),
    ensures
        r@ == truncate_measured_spec(value@, as_widths(widths@), value_width as int, width as int, from_start),
{
    if value_width <= width {
        return String::from_str(value);
    }
    let mut out: Vec<char> = Vec::new();
    if width <= 3 {
        push_repeated(&mut out, '.', width);
    } else {
        let chars = chars_of(value);
        let n = chars.len();
        if from_start {
            let back = reversed_widths(widths);
            let k = fitting_count(&back, width - 3);
            push_repeated(&mut out, '.', 3);
            push_range(&mut out, &chars, n - k, n);
        } else {
            let k = fitting_count(widths, width - 3);
            push_range(&mut out, &chars, 0, k);
            push_repeated(&mut out, '.', 3);
        }
    }
    assert(out@ =~= truncate_measured_spec(value@, as_widths(widths@), value_width as int, width as int, from_start));
    string_from_chars(&out)
}

/// `value` cut to at most `width` cells, at its start or at its end: its
/// widths measured, then cut as `truncate_measured` says.
pub fn truncate_display(value: &str, width: usize, from_start: bool) -> (r: String)
    ensures
        r@ == truncate_display_spec(value@, width as int, from_start),
{
    let chars = chars_of(value);
    let widths = measured_widths(&chars, CellMeasure::SpanAtLeastOne);
    let value_width = str_width(value);
    proof {
        lemma_fit_count_widths(value@, 0, width - 3, CellMeasure::SpanAtLeastOne);
        lemma_fit_count_widths(value@.reverse(), 0, width - 3, CellMeasure::SpanAtLeastOne);
        lemma_char_widths_reverse(value@, CellMeasure::SpanAtLeastOne);
    }
    truncate_measured(value, &widths, value_width, width, from_start)
}

/// `value` cut at its end to at most `width` cells.
pub fn truncate_end(value: &str, width: usize) -> (r: String)
    ensures
        r@ == truncate_display_spec(value@, width as int, false),
        r@ == truncate_cells_spec(value@, width as int),
{
    truncate_display(value, width, false)
}

/// A cell of `width` cells: the value cut at its end, then padded with spaces
/// up to the width.
pub fn fit_cell(value: &str, width: usize) -> (r: String)
    ensures
        r@ == truncate_cells_spec(value@, width as int) + spaces(
            sub0(width as int, span_width(truncate_cells_spec(value@, width as int)) as int),
        ),
{
    let cut = truncate_end(value, width);
    let pad = width.saturating_sub(str_width(cut.as_str()));
    let mut out = cut;
    let tail = crate::ui::text::repeat_string(' ', pad);
    out.append(tail.as_str());
    out
}

/// A value wrapped at `width` cells, at least one.
pub fn wrap_display(value: &str, width: usize) -> (lines: Vec<String>)
    ensures
        lines@.len() == wrapped(value@, width as int).len(),
        forall|i: int| 0 <= i < lines@.len() ==> #[trigger] lines@[i]@ == wrapped(value@, width as int)[i],
{
    crate::ui::text::wrap_display(value, width)
}

/// The visible part of the filter text and the cursor's column in it; `cursor`
/// is a byte offset into `value`.
pub fn filter_input_view(value: &str, cursor: usize, width: usize) -> (r: (String, usize))
    requires
        byte_len(value@) <= usize::MAX,
        cursor >= byte_len(value@) || is_char_boundary_at(value@, cursor as int),
    ensures
        exists|k: int|
            cursor_char_of(value@, cursor as int, k) && r.0@ == window_of(value@, k, width as int).0
                && r.1 == window_of(value@, k, width as int).1,
{
    crate::ui::process_environment::filter_input_view(value, cursor, width)
}

/// The visible part of the filter text after its label in a row of `width`.
pub fn filter_input_text(filter: &str, cursor: usize, width: usize) -> (r: String)
    requires
        byte_len(filter@) <= usize::MAX,
        cursor >= byte_len(filter@) || is_char_boundary_at(filter@, cursor as int),
    ensures
        exists|k: int|
            cursor_char_of(filter@, cursor as int, k) && r@ == window_of(
                filter@,
                k,
                max_int(sub0(width as int, 8), 1),
            ).0,
{
    let w0 = width.saturating_sub(8);
    filter_input_view(filter, cursor, if w0 >= 1 { w0 } else { 1 }).0
}

/// Whether a module passes the filter words: every word occurs in its
/// lower-cased path.
pub open spec fn module_passes(path: Seq<char>, terms: Seq<Seq<char>>) -> bool {
    forall|t: int| 0 <= t < terms.len() ==> contains_seq(lowercase(path), #[trigger] terms[t])
}

/// The indices of the modules that pass the filter, in order.
pub fn filtered_entries(entries: &Vec<ModuleEntry>, filter: &str) -> (r: Vec<usize>)
    ensures
        r@ == indices_where(|i: int| module_passes(entries@[i].path@, lowercase_words(filter@)), entries@.len() as int),
{
    let terms = filter_terms(filter);
    let ghost words = lowercase_words(filter@);
    let ghost keep = |i: int| module_passes(entries@[i].path@, words);
    let mut out: Vec<usize> = Vec::new();
    let mut i: usize = 0;
    while i < entries.len()
        invariant
            i <= entries@.len(),
            terms@.len() == words.len(),
            forall|k: int| 0 <= k < terms@.len() ==> #[trigger] terms@[k]@ == words[k],
            keep == (|i: int| module_passes(entries@[i].path@, words)),
            out@ == indices_where(keep, i as int),
        decreases entries@.len() - i,
    {
        let hay = to_lowercase(entries[i].path.as_str());
        let mut all = true;
        let mut t: usize = 0;
        while t < terms.len()
            invariant
                t <= terms@.len() == words.len(),
                forall|k: int| 0 <= k < terms@.len() ==> #[trigger] terms@[k]@ == words[k],
                hay@ == lowercase(entries@[i as int].path@),
                all == forall|k: int| 0 <= k < t ==> contains_seq(hay@, #[trigger] words[k]),
            decreases terms@.len() - t,
        {
            if !str_contains(hay.as_str(), terms[t].as_str()) {
                all = false;
            }
            t = t + 1;
        }
        assert(all == keep(i as int));
        if all {
            out.push(i);
        }
        i = i + 1;
    }
    out
}

/// The entry at position `selected` of the filtered list, if there is one.
pub fn selected_entry(filtered: &Vec<usize>, selected: usize) -> (r: Option<usize>)
    ensures
        r == if selected < filtered@.len() { Some(filtered@[selected as int]) } else { None::<usize> },
{
    if selected < filtered.len() {
        Some(filtered[selected])
    } else {
        None
    }
}

/// Rows above the first module: three, one more for an error.
pub fn entry_row_prefix(has_error: bool) -> (r: usize)
    ensures
        r == 3 + if has_error { 1int } else { 0 },
{
    3 + if has_error { 1usize } else { 0 }
}

/// The modules the filter keeps, by index, in order.
pub open spec fn kept_modules(entries: Seq<ModuleEntry>, filter: Seq<char>) -> Seq<usize> {
    indices_where(|i: int| module_passes(entries[i].path@, lowercase_words(filter)), entries.len() as int)
}

/// A module shown whole: a note when none is selected, otherwise a heading and
/// its path, file name, company, product and file versions, modification time
/// and directory.
pub open spec fn module_detail_spec(entry: Option<ModuleEntry>, width: int) -> Seq<Seq<(Tone, Seq<char>)>> {
    let cap = MODULE_LABEL_WIDTH as int;
    match entry {
        None => seq![single(Tone::Muted, "No DLL selected."@)],
        Some(e) => seq![single(Tone::ColumnHeading, "DLL details"@)] + labelled_lines("Path"@, e.path@, width, cap)
            + labelled_lines("DLL file"@, e.dll_name@, width, cap) + labelled_lines("Company"@, e.company_name@, width, cap)
            + labelled_lines("Product Version"@, e.product_version@, width, cap) + labelled_lines(
            "File Version"@,
            e.file_version@,
            width,
            cap,
        ) + labelled_lines("Modified"@, e.modified@, width, cap) + labelled_lines("Directory"@, e.directory@, width, cap),
    }
}

/// The row of a module: its path across the row, marked when selected.
pub open spec fn module_row(entry: ModuleEntry, selected: bool, width: int) -> Seq<(Tone, Seq<char>)> {
    single(if selected { Tone::SelectedText } else { Tone::RowText }, fit_cells_spec(entry.path@, max_int(width, 1)))
}

/// The lines of the modules tab: a note in log view; while no list is in, the
/// error or that it loads; the selected module whole when asked; otherwise the
/// title, the filter (`filter_text` is its visible part), the last error where
/// there is one, and the kept modules under their heading (the `selected`-th
/// marked) or a note that none is kept.
pub open spec fn module_lines_spec(
    log_view: bool,
    report: Option<ModulesReport>,
    error: Option<String>,
    show_detail: bool,
    selected: int,
    live: bool,
    refreshing: bool,
    filter: Seq<char>,
    filter_text: Seq<char>,
    width: int,
) -> Seq<Seq<(Tone, Seq<char>)>> {
    if log_view {
        seq![single(Tone::Muted, "Not recorded in Log view."@)]
    } else {
        match report {
            None => match error {
                Some(e) => seq![single(Tone::Danger, e@)],
                None => seq![single(Tone::Muted, "Loading..."@)],
            },
            Some(r) => {
                let kept = kept_modules(r.entries@, filter);
                if show_detail {
                    module_detail_spec(
                        if 0 <= selected < kept.len() { Some(r.entries@[kept[selected] as int]) } else { None },
                        width,
                    )
                } else {
                    let head = seq![
                        single(
                            Tone::Title,
                            captured_title(
                                r.process_name@,
                                r.pid,
                                r.captured_at@,
                                live,
                                refreshing,
                                filter,
                                "DLLs "@,
                                kept.len(),
                                r.entries@.len(),
                            ),
                        ),
                        seq![(Tone::Muted, "Filter: "@), (Tone::Text, filter_text)],
                    ] + match error {
                        Some(e) => seq![single(Tone::Warning, "Last refresh failed: "@ + e@)],
                        None => Seq::empty(),
                    };
                    if kept.len() == 0 {
                        head.push(single(
                            Tone::Muted,
                            if filter.len() == 0 { "No loaded DLLs."@ } else { "No matching DLLs."@ },
                        ))
                    } else {
                        head.push(single(Tone::ColumnHeading, fit_cells_spec("DLL path"@, max_int(width, 1))))
                            + Seq::new(kept.len(), |j: int| module_row(r.entries@[kept[j] as int], j == selected, width))
                    }
                }
            },
        }
    }
}

/// Appends `more` to `lines`.
pub fn append_lines(lines: &mut Vec<Vec<Piece>>, more: Vec<Vec<Piece>>)
    ensures
        lines_view(final(lines)@) == lines_view(old(lines)@) + lines_view(more@),
{
    let ghost before = lines@;
    let ghost tail = more@;
    let mut more = more;
    lines.append(&mut more);
    assert(lines@ =~= before + tail);
    assert(lines_view(lines@) =~= lines_view(before) + lines_view(tail));
}

/// A module shown whole; see `module_detail_spec`.
pub fn process_module_detail_lines(entry: Option<&ModuleEntry>, width: usize) -> (lines: Vec<Vec<Piece>>)
    ensures
        lines_view(lines@) == module_detail_spec(
            match entry {
                Some(e) => Some(*e),
                None => None,
            },
            width as int,
        ),
{
    let mut lines: Vec<Vec<Piece>> = Vec::new();
    match entry {
        None => {
            push_line(&mut lines, single_line(Tone::Muted, String::from_str("No DLL selected.")));
        },
        Some(e) => {
            push_line(&mut lines, single_line(Tone::ColumnHeading, String::from_str("DLL details")));
            append_lines(&mut lines, detail_lines("Path", e.path.as_str(), width, MODULE_LABEL_WIDTH));
            append_lines(&mut lines, detail_lines("DLL file", e.dll_name.as_str(), width, MODULE_LABEL_WIDTH));
            append_lines(&mut lines, detail_lines("Company", e.company_name.as_str(), width, MODULE_LABEL_WIDTH));
            append_lines(&mut lines, detail_lines("Product Version", e.product_version.as_str(), width, MODULE_LABEL_WIDTH));
            append_lines(&mut lines, detail_lines("File Version", e.file_version.as_str(), width, MODULE_LABEL_WIDTH));
            append_lines(&mut lines, detail_lines("Modified", e.modified.as_str(), width, MODULE_LABEL_WIDTH));
            append_lines(&mut lines, detail_lines("Directory", e.directory.as_str(), width, MODULE_LABEL_WIDTH));
        },
    }
    assert(lines_view(lines@) =~= module_detail_spec(
        match entry {
            Some(e) => Some(*e),
            None => None,
        },
        width as int,
    ));
    lines
}

/// The rows of the kept modules, the `selected`-th of them marked.
pub fn module_rows(entries: &Vec<ModuleEntry>, kept: &Vec<usize>, selected: usize, width: usize) -> (lines: Vec<Vec<Piece>>)
    requires
        forall|m: int| 0 <= m < kept@.len() ==> #[trigger] kept@[m] < entries@.len(),
    ensures
        lines_view(lines@) == Seq::new(kept@.len(), |j: int| module_row(entries@[kept@[j] as int], j == selected, width as int)),
{
    let ghost want = Seq::new(kept@.len(), |j: int| module_row(entries@[kept@[j] as int], j == selected, width as int));
    let cell = if width >= 1 { width } else { 1 };
    let mut lines: Vec<Vec<Piece>> = Vec::new();
    let mut j: usize = 0;
    while j < kept.len()
        invariant
            j <= kept@.len(),
            forall|m: int| 0 <= m < kept@.len() ==> #[trigger] kept@[m] < entries@.len(),
            cell == max_int(width as int, 1),
            want == Seq::new(kept@.len(), |j: int| module_row(entries@[kept@[j] as int], j == selected, width as int)),
            lines_view(lines@) == want.take(j as int),
        decreases kept@.len() - j,
    {
        let tone = if j == selected { Tone::SelectedText } else { Tone::RowText };
        let row = single_line(tone, fit_cell(entries[kept[j]].path.as_str(), cell));
        push_line(&mut lines, row);
        j = j + 1;
        assert(lines_view(lines@) =~= want.take(j as int));
    }
    assert(want.take(kept@.len() as int) =~= want);
    lines
}

/// The lines of the modules tab; see `module_lines_spec`. `error` is the
/// message of the last failed listing, `live` tells whether the process still
/// runs, `refreshing` whether a listing is being taken, and `cursor` is the
/// filter's cursor as a byte offset.
pub fn process_module_lines(
    log_view: bool,
    report: &Option<ModulesReport>,
    error: &Option<String>,
    show_detail: bool,
    selected: usize,
    live: bool,
    refreshing: bool,
    filter: &str,
    cursor: usize,
    width: usize,
) -> (r: Vec<Vec<Piece>>)
    requires
        byte_len(filter@) <= usize::MAX,
        cursor >= byte_len(filter@) || is_char_boundary_at(filter@, cursor as int),
    ensures
        exists|k: int|
            cursor_char_of(filter@, cursor as int, k) && lines_view(r@) == module_lines_spec(
                log_view,
                *report,
                *error,
                show_detail,
                selected as int,
                live,
                refreshing,
                filter@,
                window_of(filter@, k, max_int(sub0(width as int, 8), 1)).0,
                width as int,
            ),
{
    let filter_text = filter_input_text(filter, cursor, width);
    let ghost shown = filter_text@;
    let ghost k = choose|k: int|
        cursor_char_of(filter@, cursor as int, k) && filter_text@ == window_of(filter@, k, max_int(sub0(width as int, 8), 1)).0;
    let ghost want = module_lines_spec(
        log_view,
        *report,
        *error,
        show_detail,
        selected as int,
        live,
        refreshing,
        filter@,
        shown,
        width as int,
    );
    let mut lines: Vec<Vec<Piece>> = Vec::new();
    if log_view {
        push_line(&mut lines, single_line(Tone::Muted, String::from_str("Not recorded in Log view.")));
        assert(lines_view(lines@) =~= want);
        return lines;
    }
    let r = match report {
        Some(r) => r,
        None => {
            match error {
                Some(e) => push_line(&mut lines, single_line(Tone::Danger, String::from_str(e.as_str()))),
                None => push_line(&mut lines, single_line(Tone::Muted, String::from_str("Loading..."))),
            }
            assert(lines_view(lines@) =~= want);
            return lines;
        },
    };
    let kept = filtered_entries(&r.entries, filter);
    proof {
        crate::ui::open_files::lemma_indices_where_below(
            |i: int| module_passes(r.entries@[i].path@, lowercase_words(filter@)),
            r.entries@.len() as int,
        );
    }
    if show_detail {
        let chosen = match selected_entry(&kept, selected) {
            Some(i) => Some(&r.entries[i]),
            None => None,
        };
        return process_module_detail_lines(chosen, width);
    }
    let title = captured_title_text(
        r.process_name.as_str(),
        r.pid,
        r.captured_at.as_str(),
        live,
        refreshing,
        filter,
        "DLLs ",
        kept.len(),
        r.entries.len(),
    );
    push_line(&mut lines, single_line(Tone::Title, title));
    let filter_line = vec![piece(Tone::Muted, "Filter: "), Piece { tone: Tone::Text, text: filter_text }];
    assert(line_view(filter_line@) =~= seq![(Tone::Muted, "Filter: "@), (Tone::Text, shown)]);
    push_line(&mut lines, filter_line);
    if let Some(e) = error {
        let mut text = String::from_str("Last refresh failed: ");
        text.append(e.as_str());
        push_line(&mut lines, single_line(Tone::Warning, text));
    }
    if kept.len() == 0 {
        let note = if filter.unicode_len() > 0 { "No matching DLLs." } else { "No loaded DLLs." };
        push_line(&mut lines, single_line(Tone::Muted, String::from_str(note)));
        assert(lines_view(lines@) =~= want);
        return lines;
    }
    let cell = if width >= 1 { width } else { 1 };
    push_line(&mut lines, single_line(Tone::ColumnHeading, fit_cell("DLL path", cell)));
    append_lines(&mut lines, module_rows(&r.entries, &kept, selected, width));
    assert(lines_view(lines@) =~= want);
    lines
}

/// The module under the cell `(x, y)` of the modules tab: `count` modules are
/// kept, the list is scrolled to `offset`, and an error adds a line above it.
pub fn process_module_index_at(
    area: Rect,
    x: u16,
    y: u16,
    show_detail: bool,
    count: usize,
    offset: usize,
    has_error: bool,
) -> (r: Option<usize>)
    ensures
        r == list_index_at_spec(
            area,
            x as int,
            y as int,
            show_detail,
            count as int,
            offset as int,
            3 + if has_error { 1int } else { 0 },
        ),
{
    list_index_at(area, x, y, show_detail, count, offset, entry_row_prefix(has_error))
}

/// Where the scrollbar of the modules tab stands: `total_rows` lines, of which
/// `page_size` show.
pub fn process_modules_scrollbar_area(area: Rect, total_rows: usize, page_size: usize) -> (r: Option<Rect>)
    ensures
        r == generic_scrollbar_spec(area, total_rows as int, page_size as int),
{
    generic_scrollbar_area(area, total_rows, page_size)
}

/// Lines of the modules tab; see `module_lines_spec`.
pub fn process_modules_total_rows(
    log_view: bool,
    report: &Option<ModulesReport>,
    error: &Option<String>,
    show_detail: bool,
    selected: usize,
    live: bool,
    refreshing: bool,
    filter: &str,
    cursor: usize,
    width: u16,
) -> (r: usize)
    requires
        byte_len(filter@) <= usize::MAX,
        cursor >= byte_len(filter@) || is_char_boundary_at(filter@, cursor as int),
    ensures
        exists|k: int|
            cursor_char_of(filter@, cursor as int, k) && r == module_lines_spec(
                log_view,
                *report,
                *error,
                show_detail,
                selected as int,
                live,
                refreshing,
                filter@,
                window_of(filter@, k, max_int(sub0(width as int, 8), 1)).0,
                width as int,
            ).len(),
{
    let lines = process_module_lines(log_view, report, error, show_detail, selected, live, refreshing, filter, cursor, width as usize);
    lines.len()
}

/// Where the terminal cursor stands in the modules tab's filter: only while
/// the content has the focus and the list of a listing shows.
pub fn modules_filter_cursor(
    area: Rect,
    content_focused: bool,
    show_detail: bool,
    has_report: bool,
    line_count: usize,
    offset: usize,
    filter: &str,
    cursor: usize,
) -> (r: Option<(u16, u16)>)
    requires
        byte_len(filter@) <= usize::MAX,
        cursor >= byte_len(filter@) || is_char_boundary_at(filter@, cursor as int),
    ensures
        !content_focused || show_detail || !has_report ==> r is None,
        content_focused && !show_detail && has_report ==> exists|k: int|
            cursor_char_of(filter@, cursor as int, k) && r == filter_cursor_spec(
                area,
                line_count as int,
                offset as int,
                window_of(filter@, k, max_int(sub0(area.width as int, 8), 1)).1,
            ),
{
    environment_filter_cursor(area, content_focused, show_detail, has_report, line_count, offset, filter, cursor)
}

} // verus!

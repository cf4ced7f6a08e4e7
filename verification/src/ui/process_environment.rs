//! The environment tab of the process information dialog.

use vstd::prelude::*;

use crate::ui::format::{decimal, decimal_string};
use crate::ui::header::ellipsis3;
use crate::ui::styled::{line_view, lines_view, piece, push_line, single, single_line, Piece, Tone};
use crate::ui::investigation_profiles::cursor_char_of;
use crate::ui::open_files::{any_term_in, filter_keeps_exactly_the_matches, indices_where, lemma_indices_where_agree};
use crate::ui::process_info_dialog::{generic_scrollbar_area, generic_scrollbar_spec};
use crate::ui::rect::{add16, add_upto, max_int, min_int, sub0, Rect};
use crate::ui::text::{
    byte_len, char_count_before, chars_of, contains_seq, filter_terms, fit_count, fitting_prefix,
    is_char_boundary_at, lowercase, lowercase_words, pad_end, pad_end_string, push_range, push_repeated, repeated, spaces,
    span_width, str_width, string_from_chars, to_lowercase, wrapped, CellMeasure,
};

verus! {

/// Narrowest name column.
pub const NAME_MIN_WIDTH: usize = 12;
/// Widest name column.
pub const NAME_PREFERRED_WIDTH: usize = 32;
/// Widest label column of a variable shown whole.
pub const ENV_LABEL_WIDTH: usize = 10;

/// A variable of a process environment.
#[derive(Clone, Debug)]
pub struct EnvironmentEntry {
    pub name: String,
    pub value: String,
}

/// Widths of the name and value columns in a row of `width`: one column goes
/// to the separator, the name takes up to its preferred width and at least the
/// smaller of its minimum and half the room, the value the rest (at least one).
pub open spec fn column_widths_spec(width: int) -> (int, int) {
    let available = max_int(sub0(width, 1), 2);
    let name = max_int(min_int(NAME_PREFERRED_WIDTH as int, available - 1), min_int(NAME_MIN_WIDTH as int, available / 2));
    (name, max_int(sub0(available, name), 1))
}

/// Widths of the name and value columns; see `column_widths_spec`.
pub fn column_widths(width: usize) -> (r: (usize, usize))
    ensures
        r.0 == column_widths_spec(width as int).0,
        r.1 == column_widths_spec(width as int).1,
{
    let a0 = width.saturating_sub(1);
    let available = if a0 > 2 { a0 } else { 2 };
    let pref = if NAME_PREFERRED_WIDTH < available - 1 { NAME_PREFERRED_WIDTH } else { available - 1 };
    let least = if NAME_MIN_WIDTH < available / 2 { NAME_MIN_WIDTH } else { available / 2 };
    let name = if pref > least { pref } else { least };
    let v = available.saturating_sub(name);
    (name, if v > 1 { v } else { 1 })
}

/// A row of `width` holds both columns and the separator when it has room for
/// the narrowest name column: the widths add up to the row.
pub proof fn column_widths_fill_row(width: int)
    requires
        width >= 2 * NAME_MIN_WIDTH + 2,
    ensures
        column_widths_spec(width).0 >= NAME_MIN_WIDTH,
        column_widths_spec(width).1 > 0,
        column_widths_spec(width).0 + column_widths_spec(width).1 + 1 == width,
{
}

/// `value` cut at its end to at most `width` cells: kept whole when it fits,
/// all dots when the width leaves no room for text, otherwise the characters
/// that fit in `width - 3` cells and three dots.
pub open spec fn truncate_cells_spec(value: Seq<char>, width: int) -> Seq<char> {
    if span_width(value) <= width {
        value
    } else if width <= 3 {
        repeated('.', width)
    } else {
        value.take(fit_count(value, 0, width - 3, CellMeasure::SpanAtLeastOne)) + ellipsis3()
    }
}

/// `value` cut at its end to at most `width` cells.
pub fn truncate_end(value: &str, width: usize) -> (r: String)
    ensures
        r@ == truncate_cells_spec(value@, width as int),
{
    if str_width(value) <= width {
        return String::from_str(value);
    }
    let mut out: Vec<char> = Vec::new();
    if width <= 3 {
        push_repeated(&mut out, '.', width);
    } else {
        let chars = chars_of(value);
        let k = fitting_prefix(&chars, width - 3, CellMeasure::SpanAtLeastOne);
        push_range(&mut out, &chars, 0, k);
        push_repeated(&mut out, '.', 3);
    }
    assert(out@ =~= truncate_cells_spec(value@, width as int));
    string_from_chars(&out)
}

/// A cell of `width` cells: the value cut at its end, then padded with spaces
/// up to the width.
pub open spec fn fit_cells_spec(value: Seq<char>, width: int) -> Seq<char> {
    let cut = truncate_cells_spec(value, width);
    cut + spaces(sub0(width, span_width(cut) as int))
}

/// A cell of `width` cells.
pub fn fit_cell(value: &str, width: usize) -> (r: String)
    ensures
        r@ == fit_cells_spec(value@, width as int),
{
    let cut = truncate_end(value, width);
    let w = str_width(cut.as_str());
    let pad = width.saturating_sub(w);
    let mut out = cut;
    let tail = crate::ui::text::repeat_string(' ', pad);
    out.append(tail.as_str());
    out
}

/// A value wrapped at `width` cells.
pub fn wrap_display(value: &str, width: usize) -> (lines: Vec<String>)
    ensures
        lines@.len() == wrapped(value@, width as int).len(),
        forall|i: int| 0 <= i < lines@.len() ==> #[trigger] lines@[i]@ == wrapped(value@, width as int)[i],
{
    crate::ui::text::wrap_display(value, width)
}

/// The visible window of an edited filter of `width` characters and the
/// cursor's column in it.
pub open spec fn window_of(value: Seq<char>, cursor_char: int, width: int) -> (Seq<char>, int) {
    let start = sub0(cursor_char, sub0(width, 1));
    let end = min_int(start + width, value.len() as int);
    (value.subrange(start, if end >= start { end } else { start }), min_int(cursor_char - start, sub0(width, 1)))
}

/// The visible part of the filter text and the cursor's column in it; `cursor`
/// is a byte offset into `value`.
pub fn filter_input_view(value: &str, cursor: usize, width: usize) -> (r: (String, usize))
    requires
        byte_len(value@) <= usize::MAX,
        cursor >= byte_len(value@) || is_char_boundary_at(value@, cursor as int),
    ensures
        exists|k: int|
            cursor_char_of(value@, cursor as int, k) && r.0@ == window_of(value@, k, width as int).0
                && r.1 == window_of(value@, k, width as int).1,
{
    let cursor_char = char_count_before(value, cursor);
    let chars = chars_of(value);
    let n = chars.len();
    let start = cursor_char.saturating_sub(width.saturating_sub(1));
    let end0 = start.saturating_add(width);
    let end = if end0 < n { end0 } else { n };
    let mut out: Vec<char> = Vec::new();
    if start <= end {
        push_range(&mut out, &chars, start, end);
    }
    let x0 = cursor_char - start;
    let last = width.saturating_sub(1);
    assert(out@ =~= window_of(value@, cursor_char as int, width as int).0);
    assert(cursor_char_of(value@, cursor as int, cursor_char as int));
    (string_from_chars(&out), if x0 < last { x0 } else { last })
}

/// The visible part of the filter text after its label in a row of `width`.
pub fn filter_input_text(filter: &str, cursor: usize, width: usize) -> (r: String)
    requires
        byte_len(filter@) <= usize::MAX,
        cursor >= byte_len(filter@) || is_char_boundary_at(filter@, cursor as int),
    ensures
        exists|k: int|
            cursor_char_of(filter@, cursor as int, k) && r@ == window_of(
                filter@,
                k,
                max_int(sub0(width as int, 8), 1),
            ).0,
{
    let w0 = width.saturating_sub(8);
    filter_input_view(filter, cursor, if w0 >= 1 { w0 } else { 1 }).0
}

/// Whether a variable passes the filter words: no words, or one of them occurs
/// in its lower-cased name or value.
pub open spec fn entry_passes(name: Seq<char>, value: Seq<char>, terms: Seq<Seq<char>>) -> bool {
    terms.len() == 0 || exists|t: int|
        0 <= t < terms.len() && (contains_seq(lowercase(name), #[trigger] terms[t]) || contains_seq(
            lowercase(value),
            terms[t],
        ))
}

/// The indices of the variables that pass the filter, in order.
pub fn filtered_entries(entries: &Vec<EnvironmentEntry>, filter: &str) -> (r: Vec<usize>)
    ensures
        r@ == indices_where(
            |i: int| entry_passes(entries@[i].name@, entries@[i].value@, lowercase_words(filter@)),
            entries@.len() as int,
        ),
        r@ == kept_variables(entries@, filter@),
{
    let terms = filter_terms(filter);
    let ghost words = lowercase_words(filter@);
    let ghost keep = |i: int| entry_passes(entries@[i].name@, entries@[i].value@, words);
    let mut out: Vec<usize> = Vec::new();
    let mut i: usize = 0;
    while i < entries.len()
        invariant
            i <= entries@.len(),
            terms@.len() == words.len(),
            forall|k: int| 0 <= k < terms@.len() ==> #[trigger] terms@[k]@ == words[k],
            keep == (|i: int| entry_passes(entries@[i].name@, entries@[i].value@, words)),
            out@ == indices_where(keep, i as int),
        decreases entries@.len() - i,
    {
        let keep_it = if terms.len() == 0 {
            true
        } else {
            let name = to_lowercase(entries[i].name.as_str());
            let value = to_lowercase(entries[i].value.as_str());
            let mut found = false;
            let mut t: usize = 0;
            while t < terms.len()
                invariant
                    t <= terms@.len() == words.len(),
                    forall|k: int| 0 <= k < terms@.len() ==> #[trigger] terms@[k]@ == words[k],
                    name@ == lowercase(entries@[i as int].name@),
                    value@ == lowercase(entries@[i as int].value@),
                    found ==> entry_passes(entries@[i as int].name@, entries@[i as int].value@, words),
                    !found ==> forall|k: int|
                        0 <= k < t ==> !contains_seq(name@, #[trigger] words[k]) && !contains_seq(value@, words[k]),
                decreases terms@.len() - t,
            {
                if crate::ui::text::str_contains(name.as_str(), terms[t].as_str())
                    || crate::ui::text::str_contains(value.as_str(), terms[t].as_str()) {
                    found = true;
                }
                t = t + 1;
            }
            found
        };
        assert(keep_it == keep(i as int));
        if keep_it {
            out.push(i);
        }
        i = i + 1;
    }
    out
}

/// The entry at position `selected` of the filtered list, if there is one.
pub fn selected_entry(filtered: &Vec<usize>, selected: usize) -> (r: Option<usize>)
    ensures
        r == if selected < filtered@.len() { Some(filtered@[selected as int]) } else { None::<usize> },
{
    if selected < filtered.len() {
        Some(filtered[selected])
    } else {
        None
    }
}

/// Rows above the first variable: three, one more for an error, one more when
/// some entries could not be read.
pub fn entry_row_prefix(has_error: bool, malformed_entries: Option<usize>) -> (r: usize)
    ensures
        r == 3 + (if has_error { 1int } else { 0 }) + match malformed_entries {
            Some(m) => if m > 0 { 1int } else { 0 },
            None => 0,
        },
{
    let malformed = match malformed_entries {
        Some(m) => if m > 0 { 1usize } else { 0 },
        None => 0,
    };
    3 + (if has_error { 1usize } else { 0 }) + malformed
}

/// A captured process environment: whose, when (as the local clock time shown
/// for it), its variables, and how many entries could not be read.
#[derive(Clone, Debug)]
pub struct EnvironmentReport {
    pub process_name: String,
    pub pid: u32,
    pub captured_at: String,
    pub entries: Vec<EnvironmentEntry>,
    pub malformed_entries: usize,
}

/// The variables the filter keeps, by index, in order.
pub open spec fn kept_variables(entries: Seq<EnvironmentEntry>, filter: Seq<char>) -> Seq<usize> {
    indices_where(|i: int| entry_passes(entries[i].name@, entries[i].value@, lowercase_words(filter)), entries.len() as int)
}

/// Whether position `i` is among the kept variables.
pub open spec fn is_kept(entries: Seq<EnvironmentEntry>, filter: Seq<char>, i: int) -> bool {
    exists|j: int| 0 <= j < kept_variables(entries, filter).len() && kept_variables(entries, filter)[j] == i
}

/// The environment filter keeps a variable as soon as any one of the filter's
/// words occurs in its lower-cased name or value: the words are alternatives,
/// not all required.
pub proof fn environment_filter_keeps_any_matching_word(entries: Seq<EnvironmentEntry>, filter: Seq<char>, i: int, t: int)
    requires
        entries.len() <= usize::MAX,
        0 <= i < entries.len(),
        0 <= t < lowercase_words(filter).len(),
        contains_seq(lowercase(entries[i].name@), lowercase_words(filter)[t]) || contains_seq(
            lowercase(entries[i].value@),
            lowercase_words(filter)[t],
        ),
    ensures
        is_kept(entries, filter, i),
{
    let keep = |k: int| entry_passes(entries[k].name@, entries[k].value@, lowercase_words(filter));
    filter_keeps_exactly_the_matches(keep, entries.len() as int);
    lemma_indices_where_agree(
        keep,
        |k: int| entry_passes(entries[k].name@, entries[k].value@, lowercase_words(filter)),
        entries.len() as int,
    );
    assert(kept_variables(entries, filter) == indices_where(keep, entries.len() as int));
    assert(keep(i));
}

/// The environment filter drops a variable in whose lower-cased name and
/// value none of the filter's words occurs, when there are words.
pub proof fn environment_filter_drops_variables_without_a_word(entries: Seq<EnvironmentEntry>, filter: Seq<char>, i: int)
    requires
        entries.len() <= usize::MAX,
        0 <= i < entries.len(),
        lowercase_words(filter).len() > 0,
        forall|t: int|
            0 <= t < lowercase_words(filter).len() ==> !contains_seq(
                lowercase(entries[i].name@),
                #[trigger] lowercase_words(filter)[t],
            ) && !contains_seq(lowercase(entries[i].value@), lowercase_words(filter)[t]),
    ensures
        !is_kept(entries, filter, i),
{
    let keep = |k: int| entry_passes(entries[k].name@, entries[k].value@, lowercase_words(filter));
    filter_keeps_exactly_the_matches(keep, entries.len() as int);
    assert(kept_variables(entries, filter) == indices_where(keep, entries.len() as int));
    assert(!keep(i));
}

/// Without filter words every variable is kept.
pub proof fn environment_filter_without_words_keeps_all(entries: Seq<EnvironmentEntry>, filter: Seq<char>, i: int)
    requires
        entries.len() <= usize::MAX,
        0 <= i < entries.len(),
        lowercase_words(filter).len() == 0,
    ensures
        is_kept(entries, filter, i),
{
    let keep = |k: int| entry_passes(entries[k].name@, entries[k].value@, lowercase_words(filter));
    filter_keeps_exactly_the_matches(keep, entries.len() as int);
    lemma_indices_where_agree(
        keep,
        |k: int| entry_passes(entries[k].name@, entries[k].value@, lowercase_words(filter)),
        entries.len() as int,
    );
    assert(kept_variables(entries, filter) == indices_where(keep, entries.len() as int));
    assert(keep(i));
}

/// Width of the label column of a detail: `label_cap` cells, held inside the
/// row.
pub open spec fn detail_label_width(width: int, label_cap: int) -> int {
    max_int(min_int(label_cap, sub0(width, 1)), 1)
}

/// A labelled value wrapped beside its label, in a label column of at most
/// `label_cap` cells: the label on the first line, blanks under it.
pub open spec fn labelled_lines(label: Seq<char>, value: Seq<char>, width: int, label_cap: int) -> Seq<Seq<(Tone, Seq<char>)>> {
    let lw = detail_label_width(width, label_cap);
    let parts = wrapped(value, max_int(sub0(width, lw), 1));
    Seq::new(
        parts.len(),
        |i: int| seq![(Tone::Muted, pad_end(if i == 0 { label } else { Seq::empty() }, lw)), (Tone::Text, parts[i])],
    )
}

/// A labelled value wrapped beside its label; see `labelled_lines`.
pub fn detail_lines(label: &str, value: &str, width: usize, label_cap: usize) -> (r: Vec<Vec<Piece>>)
    ensures
        lines_view(r@) == labelled_lines(label@, value@, width as int, label_cap as int),
{
    let lw0 = if label_cap < width.saturating_sub(1) { label_cap } else { width.saturating_sub(1) };
    let label_width = if lw0 >= 1 { lw0 } else { 1 };
    let vw0 = width.saturating_sub(label_width);
    let parts = wrap_display(value, if vw0 >= 1 { vw0 } else { 1 });
    let ghost want = labelled_lines(label@, value@, width as int, label_cap as int);
    let mut out: Vec<Vec<Piece>> = Vec::new();
    let mut i: usize = 0;
    while i < parts.len()
        invariant
            i <= parts@.len() == want.len(),
            label_width == detail_label_width(width as int, label_cap as int),
            forall|k: int| 0 <= k < parts@.len() ==> #[trigger] parts@[k]@ == wrapped(value@, max_int(sub0(width as int, label_width as int), 1))[k],
            want == labelled_lines(label@, value@, width as int, label_cap as int),
            lines_view(out@) == want.take(i as int),
        decreases parts@.len() - i,
    {
        let head = if i == 0 { pad_end_string(label, label_width) } else { pad_end_string("", label_width) };
        proof {
            reveal_strlit("");
        }
        let line = vec![Piece { tone: Tone::Muted, text: head }, piece(Tone::Text, parts[i].as_str())];
        assert(line_view(line@) =~= want[i as int]);
        push_line(&mut out, line);
        i = i + 1;
        assert(lines_view(out@) =~= want.take(i as int));
    }
    assert(want.take(parts@.len() as int) =~= want);
    out
}

/// The lines of the environment tab when one variable is shown whole: a note
/// when none is selected, otherwise a heading, its name and its value.
pub open spec fn environment_detail_spec(entry: Option<EnvironmentEntry>, width: int) -> Seq<Seq<(Tone, Seq<char>)>> {
    match entry {
        None => seq![single(Tone::Muted, "No environment variable selected."@)],
        Some(e) => seq![single(Tone::ColumnHeading, "Environment variable details"@)] + labelled_lines(
            "Name"@,
            e.name@,
            width,
            ENV_LABEL_WIDTH as int,
        ) + labelled_lines("Value"@, e.value@, width, ENV_LABEL_WIDTH as int),
    }
}

/// The first line of a captured environment: whose it is, when it was taken,
/// whether the process is gone, the variables (listed of all, while a filter
/// is set) and whether a refresh runs.
pub open spec fn environment_title(report: EnvironmentReport, live: bool, refreshing: bool, filter: Seq<char>, kept: nat) -> Seq<char> {
    captured_title(
        report.process_name@,
        report.pid,
        report.captured_at@,
        live,
        refreshing,
        filter,
        "variables "@,
        kept,
        report.entries@.len(),
    )
}

/// The first line of a capture: whose it is, when it was taken, whether the
/// process is gone, how many items it holds (`noun` names them; while a filter
/// is set, how many are kept of all) and whether a refresh runs.
pub open spec fn captured_title(
    name: Seq<char>,
    pid: u32,
    captured: Seq<char>,
    live: bool,
    refreshing: bool,
    filter: Seq<char>,
    noun: Seq<char>,
    kept: nat,
    total: nat,
) -> Seq<char> {
    name + " / PID "@ + decimal(pid as nat) + "  Captured "@ + captured + (if live {
        ""@
    } else {
        " · process exited"@
    }) + "  "@ + (if filter.len() == 0 {
        noun + decimal(total)
    } else {
        "shown "@ + decimal(kept) + "/"@ + decimal(total)
    }) + (if refreshing { "  refreshing..."@ } else { ""@ })
}

/// The first line of a capture; see `captured_title`.
pub fn captured_title_text(
    name: &str,
    pid: u32,
    captured: &str,
    live: bool,
    refreshing: bool,
    filter: &str,
    noun: &str,
    kept: usize,
    total: usize,
) -> (r: String)
    ensures
        r@ == captured_title(name@, pid, captured@, live, refreshing, filter@, noun@, kept as nat, total as nat),
{
    let pid_text = decimal_string(pid as u128);
    let total_text = decimal_string(total as u128);
    let mut title = String::from_str(name);
    title.append(" / PID ");
    title.append(pid_text.as_str());
    title.append("  Captured ");
    title.append(captured);
    if !live {
        title.append(" · process exited");
    }
    title.append("  ");
    if filter.unicode_len() > 0 {
        title.append("shown ");
        let count = decimal_string(kept as u128);
        title.append(count.as_str());
        title.append("/");
    } else {
        title.append(noun);
    }
    title.append(total_text.as_str());
    if refreshing {
        title.append("  refreshing...");
    }
    proof {
        reveal_strlit("");
        assert(title@ =~= captured_title(name@, pid, captured@, live, refreshing, filter@, noun@, kept as nat, total as nat));
    }
    title
}

/// The row of a variable: its name and value in their columns, marked when it
/// is the selected one.
pub open spec fn environment_row(entry: EnvironmentEntry, selected: bool, width: int) -> Seq<(Tone, Seq<char>)> {
    let (nw, vw) = column_widths_spec(width);
    seq![
        (if selected { Tone::SelectedAccent } else { Tone::RowAccent }, fit_cells_spec(entry.name@, nw)),
        (if selected { Tone::SelectedText } else { Tone::RowText }, " "@),
        (if selected { Tone::SelectedText } else { Tone::RowText }, fit_cells_spec(entry.value@, vw)),
    ]
}

/// The lines of the environment tab: a note in log view; while no capture is
/// in, the error or that it loads; the selected variable whole when asked;
/// otherwise the title, the filter (`filter_text` is its visible part), the
/// last error and the unread entries where there are any, and the kept
/// variables under their heading (the `selected`-th of them marked) or a note
/// that none is kept.
pub open spec fn environment_lines_spec(
    log_view: bool,
    report: Option<EnvironmentReport>,
    error: Option<String>,
    show_detail: bool,
    selected: int,
    live: bool,
    refreshing: bool,
    filter: Seq<char>,
    filter_text: Seq<char>,
    width: int,
) -> Seq<Seq<(Tone, Seq<char>)>> {
    if log_view {
        seq![single(Tone::Muted, "Not recorded in Log view."@)]
    } else {
        match report {
            None => match error {
                Some(e) => seq![single(Tone::Danger, e@)],
                None => seq![single(Tone::Muted, "Loading..."@)],
            },
            Some(r) => {
                let kept = kept_variables(r.entries@, filter);
                if show_detail {
                    environment_detail_spec(
                        if 0 <= selected < kept.len() { Some(r.entries@[kept[selected] as int]) } else { None },
                        width,
                    )
                } else {
                    let head = environment_head_spec(r, error, live, refreshing, filter, filter_text, kept.len());
                    if kept.len() == 0 {
                        head.push(single(
                            Tone::Muted,
                            if filter.len() == 0 {
                                "No environment variables."@
                            } else {
                                "No matching environment variables."@
                            },
                        ))
                    } else {
                        head.push(environment_heading_spec(width)) + environment_rows_spec(r.entries@, kept, selected, width)
                    }
                }
            },
        }
    }
}

/// The lines above the list: the title, the filter (`filter_text` is its
/// visible part), the last error and the unread entries where there are any.
pub open spec fn environment_head_spec(
    r: EnvironmentReport,
    error: Option<String>,
    live: bool,
    refreshing: bool,
    filter: Seq<char>,
    filter_text: Seq<char>,
    kept: nat,
) -> Seq<Seq<(Tone, Seq<char>)>> {
    seq![
        single(Tone::Title, environment_title(r, live, refreshing, filter, kept)),
        seq![(Tone::Muted, "Filter: "@), (Tone::Text, filter_text)],
    ] + (match error {
        Some(e) => seq![single(Tone::Warning, "Last refresh failed: "@ + e@)],
        None => Seq::empty(),
    }) + (if r.malformed_entries > 0 {
        seq![single(Tone::Warning, decimal(r.malformed_entries as nat) + " malformed entries skipped"@)]
    } else {
        Seq::empty()
    })
}

/// The heading of the list: the name and value column names.
pub open spec fn environment_heading_spec(width: int) -> Seq<(Tone, Seq<char>)> {
    seq![
        (Tone::ColumnHeading, fit_cells_spec("Name"@, column_widths_spec(width).0)),
        (Tone::Plain, " "@),
        (Tone::ColumnHeading, fit_cells_spec("Value"@, column_widths_spec(width).1)),
    ]
}

/// The rows of the kept variables, the `selected`-th of them marked.
pub open spec fn environment_rows_spec(entries: Seq<EnvironmentEntry>, kept: Seq<usize>, selected: int, width: int) -> Seq<Seq<(Tone, Seq<char>)>> {
    Seq::new(kept.len(), |j: int| environment_row(entries[kept[j] as int], j == selected, width))
}

/// The lines above the list; see `environment_head_spec`.
pub fn environment_head(
    r: &EnvironmentReport,
    error: &Option<String>,
    live: bool,
    refreshing: bool,
    filter: &str,
    filter_text: String,
    kept: usize,
) -> (lines: Vec<Vec<Piece>>)
    ensures
        lines_view(lines@) == environment_head_spec(*r, *error, live, refreshing, filter@, filter_text@, kept as nat),
{
    let ghost shown = filter_text@;
    let mut lines: Vec<Vec<Piece>> = Vec::new();
    let title = captured_title_text(
        r.process_name.as_str(),
        r.pid,
        r.captured_at.as_str(),
        live,
        refreshing,
        filter,
        "variables ",
        kept,
        r.entries.len(),
    );
    push_line(&mut lines, single_line(Tone::Title, title));
    let filter_line = vec![piece(Tone::Muted, "Filter: "), Piece { tone: Tone::Text, text: filter_text }];
    assert(line_view(filter_line@) =~= seq![(Tone::Muted, "Filter: "@), (Tone::Text, shown)]);
    push_line(&mut lines, filter_line);
    if let Some(e) = error {
        let mut text = String::from_str("Last refresh failed: ");
        text.append(e.as_str());
        push_line(&mut lines, single_line(Tone::Warning, text));
    }
    if r.malformed_entries > 0 {
        let mut text = decimal_string(r.malformed_entries as u128);
        text.append(" malformed entries skipped");
        push_line(&mut lines, single_line(Tone::Warning, text));
    }
    assert(lines_view(lines@) =~= environment_head_spec(*r, *error, live, refreshing, filter@, shown, kept as nat));
    lines
}

/// The rows of the kept variables; see `environment_rows_spec`.
pub fn environment_rows(entries: &Vec<EnvironmentEntry>, kept: &Vec<usize>, selected: usize, width: usize) -> (lines: Vec<Vec<Piece>>)
    requires
        forall|m: int| 0 <= m < kept@.len() ==> #[trigger] kept@[m] < entries@.len(),
    ensures
        lines_view(lines@) == environment_rows_spec(entries@, kept@, selected as int, width as int),
{
    let (name_width, value_width) = column_widths(width);
    let mut lines: Vec<Vec<Piece>> = Vec::new();
    let mut j: usize = 0;
    while j < kept.len()
        invariant
            j <= kept@.len(),
            forall|m: int| 0 <= m < kept@.len() ==> #[trigger] kept@[m] < entries@.len(),
            name_width == column_widths_spec(width as int).0,
            value_width == column_widths_spec(width as int).1,
            lines_view(lines@) == environment_rows_spec(entries@, kept@, selected as int, width as int).take(j as int),
        decreases kept@.len() - j,
    {
        let entry = &entries[kept[j]];
        let mark = j == selected;
        let row = vec![
            Piece { tone: if mark { Tone::SelectedAccent } else { Tone::RowAccent }, text: fit_cell(entry.name.as_str(), name_width) },
            piece(if mark { Tone::SelectedText } else { Tone::RowText }, " "),
            Piece { tone: if mark { Tone::SelectedText } else { Tone::RowText }, text: fit_cell(entry.value.as_str(), value_width) },
        ];
        assert(line_view(row@) =~= environment_row(entries@[kept@[j as int] as int], j == selected, width as int));
        push_line(&mut lines, row);
        j = j + 1;
        assert(lines_view(lines@) =~= environment_rows_spec(entries@, kept@, selected as int, width as int).take(j as int));
    }
    assert(environment_rows_spec(entries@, kept@, selected as int, width as int).take(kept@.len() as int)
        =~= environment_rows_spec(entries@, kept@, selected as int, width as int));
    lines
}

/// The lines of the tab when one variable is shown whole; see
/// `environment_detail_spec`.
pub fn process_environment_detail_lines(entry: Option<&EnvironmentEntry>, width: usize) -> (lines: Vec<Vec<Piece>>)
    ensures
        lines_view(lines@) == environment_detail_spec(
            match entry {
                Some(e) => Some(*e),
                None => None,
            },
            width as int,
        ),
{
    let mut lines: Vec<Vec<Piece>> = Vec::new();
    match entry {
        None => {
            push_line(&mut lines, single_line(Tone::Muted, String::from_str("No environment variable selected.")));
            assert(lines_view(lines@) =~= seq![single(Tone::Muted, "No environment variable selected."@)]);
        },
        Some(e) => {
            push_line(&mut lines, single_line(Tone::ColumnHeading, String::from_str("Environment variable details")));
            let ghost first = lines_view(lines@);
            let mut name_lines = detail_lines("Name", e.name.as_str(), width, ENV_LABEL_WIDTH);
            let mut value_lines = detail_lines("Value", e.value.as_str(), width, ENV_LABEL_WIDTH);
            let ghost a = lines_view(name_lines@);
            let ghost b = lines_view(value_lines@);
            let ghost before = lines@;
            let ghost na = name_lines@;
            let ghost va = value_lines@;
            lines.append(&mut name_lines);
            lines.append(&mut value_lines);
            assert(lines@ =~= before + na + va);
            assert(lines_view(lines@) =~= first + a + b);
        },
    }
    lines
}

/// The lines of the environment tab; see `environment_lines_spec`. `error`
/// is the message of the last failed capture, `live` tells whether the process
/// still runs, `refreshing` whether a capture is being taken, and `cursor` is
/// the filter's cursor as a byte offset.
pub fn environment_lines(
    log_view: bool,
    report: &Option<EnvironmentReport>,
    error: &Option<String>,
    show_detail: bool,
    selected: usize,
    live: bool,
    refreshing: bool,
    filter: &str,
    cursor: usize,
    width: usize,
) -> (r: Vec<Vec<Piece>>)
    requires
        byte_len(filter@) <= usize::MAX,
        cursor >= byte_len(filter@) || is_char_boundary_at(filter@, cursor as int),
    ensures
        exists|k: int|
            cursor_char_of(filter@, cursor as int, k) && lines_view(r@) == environment_lines_spec(
                log_view,
                *report,
                *error,
                show_detail,
                selected as int,
                live,
                refreshing,
                filter@,
                window_of(filter@, k, max_int(sub0(width as int, 8), 1)).0,
                width as int,
            ),
{
    let filter_text = filter_input_text(filter, cursor, width);
    let ghost k = choose|k: int|
        cursor_char_of(filter@, cursor as int, k) && filter_text@ == window_of(filter@, k, max_int(sub0(width as int, 8), 1)).0;
    let ghost want = environment_lines_spec(
        log_view,
        *report,
        *error,
        show_detail,
        selected as int,
        live,
        refreshing,
        filter@,
        filter_text@,
        width as int,
    );
    let mut lines: Vec<Vec<Piece>> = Vec::new();
    if log_view {
        push_line(&mut lines, single_line(Tone::Muted, String::from_str("Not recorded in Log view.")));
        assert(lines_view(lines@) =~= want);
        return lines;
    }
    let r = match report {
        Some(r) => r,
        None => {
            match error {
                Some(e) => push_line(&mut lines, single_line(Tone::Danger, String::from_str(e.as_str()))),
                None => push_line(&mut lines, single_line(Tone::Muted, String::from_str("Loading..."))),
            }
            assert(lines_view(lines@) =~= want);
            return lines;
        },
    };
    let kept = filtered_entries(&r.entries, filter);
    proof {
        crate::ui::open_files::lemma_indices_where_below(
            |i: int| entry_passes(r.entries@[i].name@, r.entries@[i].value@, lowercase_words(filter@)),
            r.entries@.len() as int,
        );
    }
    if show_detail {
        let chosen = match selected_entry(&kept, selected) {
            Some(i) => Some(&r.entries[i]),
            None => None,
        };
        let lines = process_environment_detail_lines(chosen, width);
        return lines;
    }
    let mut lines = environment_head(r, error, live, refreshing, filter, filter_text, kept.len());
    if kept.len() == 0 {
        let note = if filter.unicode_len() > 0 { "No matching environment variables." } else { "No environment variables." };
        push_line(&mut lines, single_line(Tone::Muted, String::from_str(note)));
        assert(lines_view(lines@) =~= want);
        return lines;
    }
    let (name_width, value_width) = column_widths(width);
    let heading = vec![
        Piece { tone: Tone::ColumnHeading, text: fit_cell("Name", name_width) },
        piece(Tone::Plain, " "),
        Piece { tone: Tone::ColumnHeading, text: fit_cell("Value", value_width) },
    ];
    assert(line_view(heading@) =~= environment_heading_spec(width as int));
    push_line(&mut lines, heading);
    let ghost before = lines@;
    let mut rows = environment_rows(&r.entries, &kept, selected, width);
    let ghost rows_seq = rows@;
    lines.append(&mut rows);
    assert(lines@ =~= before + rows_seq);
    assert(lines_view(lines@) =~= lines_view(before) + lines_view(rows_seq));
    assert(lines_view(lines@) =~= want);
    lines
}

/// The entry under the cell `(x, y)` of a list tab scrolled to `offset`, when
/// `prefix` lines stand above the first of `count` entries: none while one
/// entry is shown whole, off the area, without entries, or off the entries.
pub open spec fn list_index_at_spec(area: Rect, x: int, y: int, show_detail: bool, count: int, offset: int, prefix: int) -> Option<usize> {
    if show_detail || !area.contains_spec(x, y) || count == 0 {
        None
    } else {
        let line = add_upto(offset, y - area.y, usize::MAX as int);
        if line < prefix || line - prefix >= count {
            None
        } else {
            Some((line - prefix) as usize)
        }
    }
}

/// The entry under the cell `(x, y)` of a list tab; see `list_index_at_spec`.
pub fn list_index_at(area: Rect, x: u16, y: u16, show_detail: bool, count: usize, offset: usize, prefix: usize) -> (r: Option<usize>)
    ensures
        r == list_index_at_spec(area, x as int, y as int, show_detail, count as int, offset as int, prefix as int),
{
    if show_detail || x < area.x || x >= area.right() || y < area.y || y >= area.bottom() {
        return None;
    }
    if count == 0 {
        return None;
    }
    let line = offset.saturating_add((y - area.y) as usize);
    if line < prefix {
        return None;
    }
    let index = line - prefix;
    if index < count {
        Some(index)
    } else {
        None
    }
}

/// The variable under the cell `(x, y)` of the environment tab: `count`
/// variables are kept, the list is scrolled to `offset`, and an error and
/// unread entries each add a line above it.
pub fn process_environment_index_at(
    area: Rect,
    x: u16,
    y: u16,
    show_detail: bool,
    count: usize,
    offset: usize,
    has_error: bool,
    malformed_entries: Option<usize>,
) -> (r: Option<usize>)
    ensures
        r == list_index_at_spec(
            area,
            x as int,
            y as int,
            show_detail,
            count as int,
            offset as int,
            3 + (if has_error { 1int } else { 0 }) + match malformed_entries {
                Some(m) => if m > 0 { 1int } else { 0 },
                None => 0,
            },
        ),
{
    list_index_at(area, x, y, show_detail, count, offset, entry_row_prefix(has_error, malformed_entries))
}

/// Where the scrollbar of the environment tab stands: `total_rows` lines, of
/// which `page_size` show.
pub fn process_environment_scrollbar_area(area: Rect, total_rows: usize, page_size: usize) -> (r: Option<Rect>)
    ensures
        r == generic_scrollbar_spec(area, total_rows as int, page_size as int),
{
    generic_scrollbar_area(area, total_rows, page_size)
}

/// Lines of the environment tab; see `environment_lines_spec`.
pub fn process_environment_total_rows(
    log_view: bool,
    report: &Option<EnvironmentReport>,
    error: &Option<String>,
    show_detail: bool,
    selected: usize,
    live: bool,
    refreshing: bool,
    filter: &str,
    cursor: usize,
    width: u16,
) -> (r: usize)
    requires
        byte_len(filter@) <= usize::MAX,
        cursor >= byte_len(filter@) || is_char_boundary_at(filter@, cursor as int),
    ensures
        exists|k: int|
            cursor_char_of(filter@, cursor as int, k) && r == environment_lines_spec(
                log_view,
                *report,
                *error,
                show_detail,
                selected as int,
                live,
                refreshing,
                filter@,
                window_of(filter@, k, max_int(sub0(width as int, 8), 1)).0,
                width as int,
            ).len(),
{
    let lines = environment_lines(log_view, report, error, show_detail, selected, live, refreshing, filter, cursor, width as usize);
    lines.len()
}

/// Where the terminal cursor stands in the filter row (the second line) of a
/// list tab of `line_count` lines scrolled to `offset`, with the cursor
/// `cursor_x` columns into the filter text: after the label, held inside the
/// area; none when the filter row is scrolled out of sight.
pub open spec fn filter_cursor_spec(area: Rect, line_count: int, offset: int, cursor_x: int) -> Option<(u16, u16)> {
    let rows = if area.height >= 1 { area.height as int } else { 1 };
    let top = min_int(offset, sub0(line_count, rows));
    if 1 < top || 1 >= add_upto(top, rows, usize::MAX as int) {
        None
    } else {
        Some((
            min_int(add16(area.x as int, ((8 + cursor_x) as u16) as int), sub0(area.right_spec(), 1)) as u16,
            add16(area.y as int, 1 - top) as u16,
        ))
    }
}

/// Where the terminal cursor stands in the filter row; see
/// `filter_cursor_spec`.
pub fn filter_cursor_at(area: Rect, line_count: usize, offset: usize, cursor_x: usize) -> (r: Option<(u16, u16)>)
    requires
        cursor_x <= usize::MAX - 8,
    ensures
        r == filter_cursor_spec(area, line_count as int, offset as int, cursor_x as int),
{
    let rows = if area.height >= 1 { area.height as usize } else { 1 };
    let room = line_count.saturating_sub(rows);
    let top = if offset < room { offset } else { room };
    if 1 < top || 1 >= top.saturating_add(rows) {
        return None;
    }
    let x = area.x.saturating_add((8 + cursor_x) as u16);
    let last = area.right().saturating_sub(1);
    Some((if x < last { x } else { last }, area.y.saturating_add((1 - top) as u16)))
}

/// Where the terminal cursor stands in the environment tab's filter: only
/// while the content has the focus and the list of a capture shows.
pub fn environment_filter_cursor(
    area: Rect,
    content_focused: bool,
    show_detail: bool,
    has_report: bool,
    line_count: usize,
    offset: usize,
    filter: &str,
    cursor: usize,
) -> (r: Option<(u16, u16)>)
    requires
        byte_len(filter@) <= usize::MAX,
        cursor >= byte_len(filter@) || is_char_boundary_at(filter@, cursor as int),
    ensures
        !content_focused || show_detail || !has_report ==> r is None,
        content_focused && !show_detail && has_report ==> exists|k: int|
            cursor_char_of(filter@, cursor as int, k) && r == filter_cursor_spec(
                area,
                line_count as int,
                offset as int,
                window_of(filter@, k, max_int(sub0(area.width as int, 8), 1)).1,
            ),
{
    if !content_focused || show_detail || !has_report {
        return None;
    }
    let w0 = (area.width as usize).saturating_sub(8);
    let (_, cursor_x) = filter_input_view(filter, cursor, if w0 >= 1 { w0 } else { 1 });
    filter_cursor_at(area, line_count, offset, cursor_x)
}

} // verus!

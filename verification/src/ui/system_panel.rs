//! Values of the system panel.

use vstd::prelude::*;

use crate::ui::cpu_panel::{styled_line_view, text_fg, StyledLine};
use crate::ui::format::{decimal, decimal_string, format_integer, grouped};
use crate::ui::graph_slot::{
    graph_value_style, graph_value_style_spec, styled_seq, styled_view, GraphSourceState, StyledText, TextStyle,
};
use crate::ui::help::styled_lines;
use crate::ui::rect::{add16, add_upto, max_int, min_int, sub0, Rect};
use crate::ui::widgets::confirm_dialog::{centered_dialog_rect, centered_dialog_spec, centered_fits};
use crate::ui::text::{chars_of, pad_end, pad_end_string, string_from_chars};
use crate::ui::theme::Theme;

verus! {

/// A count with thousands separators; `--` when unknown.
pub fn format_optional_integer(value: Option<u64>) -> (r: String)
    ensures
        r@ == match value {
            Some(v) => grouped(v as nat),
            None => "--"@,
        },
{
    match value {
        Some(v) => format_integer(v),
        None => String::from_str("--"),
    }
}

/// Whether `c` is an ASCII digit.
pub open spec fn is_ascii_digit_char(c: char) -> bool {
    '0' <= c <= '9'
}

/// Whether `c` is ASCII white space: space, tab, line feed, form feed or
/// carriage return.
pub open spec fn is_ascii_whitespace_char(c: char) -> bool {
    c == ' ' || c == '\t' || c == '\n' || c == '\x0C' || c == '\r'
}

/// Whether `current_char` starts a number in a line of text: a digit or a
/// point at the start of the line or after white space or one of `( [ / :`.
pub open spec fn starts_numeric_spec(previous_char: Option<char>, current_char: char) -> bool {
    (is_ascii_digit_char(current_char) || current_char == '.') && match previous_char {
        None => true,
        Some(ch) => is_ascii_whitespace_char(ch) || ch == '(' || ch == '[' || ch == '/' || ch == ':',
    }
}

/// Whether `current_char` starts a number; see `starts_numeric_spec`.
pub fn starts_numeric_value_span(previous_char: Option<char>, current_char: char) -> (r: bool)
    ensures
        r == starts_numeric_spec(previous_char, current_char),
{
    let numeric = ('0' <= current_char && current_char <= '9') || current_char == '.';
    numeric && match previous_char {
        None => true,
        Some(ch) => ch == ' ' || ch == '\t' || ch == '\n' || ch == '\x0C' || ch == '\r' || ch == '('
            || ch == '[' || ch == '/' || ch == ':',
    }
}

/// Whether `c` carries on a number: a digit, a point or a thousands comma.
pub open spec fn continues_numeric(c: char) -> bool {
    is_ascii_digit_char(c) || c == '.' || c == ','
}

/// A value read so far, split into runs: the finished runs with whether each
/// is a number, the run under way and whether it is a number (none before
/// the first character). A number starts where `starts_numeric_spec` says
/// and goes on while `continues_numeric`; anything else starts a new run.
pub open spec fn value_runs_state(s: Seq<char>) -> (Seq<(Seq<char>, bool)>, Seq<char>, Option<bool>)
    decreases s.len(),
{
    if s.len() == 0 {
        (Seq::empty(), Seq::empty(), None)
    } else {
        let (done, current, kind) = value_runs_state(s.drop_last());
        let c = s.last();
        let previous = if s.len() >= 2 { Some(s[s.len() - 2]) } else { None };
        let numeric = if kind == Some(true) { continues_numeric(c) } else { starts_numeric_spec(previous, c) };
        if kind == Some(numeric) {
            (done, current.push(c), kind)
        } else {
            (if current.len() > 0 { done.push((current, kind == Some(true))) } else { done }, seq![c], Some(numeric))
        }
    }
}

/// A value split into runs of numbers and of other text, in order.
pub open spec fn value_runs(s: Seq<char>) -> Seq<(Seq<char>, bool)> {
    let (done, current, kind) = value_runs_state(s);
    if current.len() > 0 {
        done.push((current, kind == Some(true)))
    } else {
        done
    }
}

/// The pieces of a measured value: its numbers in the text colour, the rest
/// (units, separators) muted.
pub open spec fn value_spans_spec(value: Seq<char>, theme: Theme) -> Seq<(Seq<char>, TextStyle)> {
    let runs = value_runs(value);
    Seq::new(runs.len(), |i: int| (runs[i].0, text_fg(if runs[i].1 { theme.text } else { theme.muted })))
}

/// The texts of runs, one after another.
pub open spec fn runs_text(runs: Seq<(Seq<char>, bool)>) -> Seq<char>
    decreases runs.len(),
{
    if runs.len() == 0 {
        Seq::empty()
    } else {
        runs_text(runs.drop_last()) + runs.last().0
    }
}

/// Reading a value loses and adds nothing: the finished runs and the run under
/// way give the text read, and a kind is known once a character was read.
pub proof fn lemma_value_runs_state(s: Seq<char>)
    ensures
        runs_text(value_runs_state(s).0) + value_runs_state(s).1 == s,
        s.len() > 0 ==> value_runs_state(s).1.len() > 0 && value_runs_state(s).2 is Some,
        s.len() == 0 ==> value_runs_state(s).1.len() == 0,
    decreases s.len(),
{
    if s.len() > 0 {
        lemma_value_runs_state(s.drop_last());
        let (done, current, kind) = value_runs_state(s.drop_last());
        let c = s.last();
        assert(s =~= s.drop_last().push(c));
        if current.len() > 0 {
            let pushed = done.push((current, kind == Some(true)));
            assert(pushed.drop_last() =~= done);
            assert(runs_text(pushed) == runs_text(done) + current);
        }
        assert((runs_text(done) + current).push(c) =~= runs_text(done) + current.push(c));
        assert(runs_text(done) + current + seq![c] =~= (runs_text(done) + current).push(c));
    }
}

/// A measured value split into runs reads, run after run, as the value.
pub proof fn value_runs_keep_the_text(s: Seq<char>)
    ensures
        runs_text(value_runs(s)) == s,
{
    lemma_value_runs_state(s);
    let (done, current, kind) = value_runs_state(s);
    if current.len() > 0 {
        let pushed = done.push((current, kind == Some(true)));
        assert(pushed.drop_last() =~= done);
    } else {
        assert(runs_text(done) + current =~= runs_text(done));
    }
}

/// The finished run as a piece of text in its colour.
fn run_piece(current: &Vec<char>, numeric: bool, theme: &Theme) -> (r: StyledText)
    ensures
        styled_view(r) == (current@, text_fg(if numeric { theme.text } else { theme.muted })),
{
    StyledText { text: string_from_chars(current), style: TextStyle::fg(if numeric { theme.text } else { theme.muted }) }
}

/// The pieces of a measured value; see `value_spans_spec`.
pub fn summary_info_value_spans(value: &str, theme: &Theme) -> (r: Vec<StyledText>)
    ensures
        styled_seq(r@) == value_spans_spec(value@, *theme),
{
    let chars = chars_of(value);
    let n = chars.len();
    let ghost to_spans = |runs: Seq<(Seq<char>, bool)>|
        Seq::new(runs.len(), |k: int| (runs[k].0, text_fg(if runs[k].1 { theme.text } else { theme.muted })));
    let mut out: Vec<StyledText> = Vec::new();
    let mut current: Vec<char> = Vec::new();
    let mut kind: Option<bool> = None;
    let mut previous: Option<char> = None;
    let mut i: usize = 0;
    while i < n
        invariant
            i <= n == chars@.len(),
            chars@ == value@,
            styled_seq(out@) == to_spans(value_runs_state(value@.take(i as int)).0),
            current@ == value_runs_state(value@.take(i as int)).1,
            kind == value_runs_state(value@.take(i as int)).2,
            previous == if i >= 1 { Some(value@[i - 1]) } else { None::<char> },
            to_spans == (|runs: Seq<(Seq<char>, bool)>|
                Seq::new(runs.len(), |k: int| (runs[k].0, text_fg(if runs[k].1 { theme.text } else { theme.muted })))),
        decreases n - i,
    {
        let c = chars[i];
        proof {
            let t = value@.take(i + 1);
            assert(t.drop_last() =~= value@.take(i as int));
            assert(t.last() == c);
            if i >= 1 {
                assert(t[t.len() - 2] == value@[i - 1]);
            }
        }
        let numeric = match kind {
            Some(true) => ('0' <= c && c <= '9') || c == '.' || c == ',',
            _ => starts_numeric_value_span(previous, c),
        };
        let same = match kind {
            Some(k) => k == numeric,
            None => false,
        };
        if same {
            current.push(c);
        } else {
            if current.len() > 0 {
                let was_numeric = match kind {
                    Some(k) => k,
                    None => false,
                };
                let piece = run_piece(&current, was_numeric, theme);
                let ghost before = out@;
                out.push(piece);
                proof {
                    let runs = value_runs_state(value@.take(i as int)).0;
                    let grown = runs.push((value_runs_state(value@.take(i as int)).1, kind == Some(true)));
                    assert(styled_seq(out@) =~= styled_seq(before).push(styled_view(piece)));
                    assert(to_spans(grown) =~= to_spans(runs).push(styled_view(piece)));
                }
            }
            current = Vec::new();
            current.push(c);
            assert(current@ =~= seq![c]);
            kind = Some(numeric);
        }
        previous = Some(c);
        i = i + 1;
    }
    assert(value@.take(n as int) =~= value@);
    if current.len() > 0 {
        let was_numeric = match kind {
            Some(k) => k,
            None => false,
        };
        let piece = run_piece(&current, was_numeric, theme);
        let ghost before = out@;
        out.push(piece);
        proof {
            let runs = value_runs_state(value@).0;
            let grown = runs.push((value_runs_state(value@).1, kind == Some(true)));
            assert(styled_seq(out@) =~= styled_seq(before).push(styled_view(piece)));
            assert(to_spans(grown) =~= to_spans(runs).push(styled_view(piece)));
        }
    }
    out
}

/// Characters of the label field of the memory rows.
pub const SUMMARY_ROW_LABEL_WIDTH: usize = 17;
/// Characters of the label field of the system information rows.
pub const SYSTEM_INFO_LABEL_WIDTH: usize = 17;
/// Characters of the label field of the GPU rows.
pub const GPU_ROW_LABEL_WIDTH: usize = 10;
/// Characters of the label field of the network and disk rows.
pub const ACTIVITY_LABEL_WIDTH: usize = 8;
/// Columns between the two memory columns.
pub const MEMORY_COLUMN_GAP: u16 = 1;

/// How a system information value is shown: as one piece of body text, or
/// split into numbers and muted units.
#[derive(Clone, Copy, Debug, PartialEq, Eq, Structural)]
pub enum SummaryInfoStyle {
    Plain,
    Measurement,
}

/// A row of the system information dialog: the title padded to `label_width`
/// and a space, muted, then the value (see `SummaryInfoStyle`).
pub open spec fn summary_info_line_spec(
    title: Seq<char>,
    label_width: int,
    value: Seq<char>,
    style: SummaryInfoStyle,
    theme: Theme,
) -> Seq<(Seq<char>, TextStyle)> {
    seq![(pad_end(title, label_width) + " "@, text_fg(theme.muted))] + match style {
        SummaryInfoStyle::Plain => seq![(value, text_fg(theme.text))],
        SummaryInfoStyle::Measurement => value_spans_spec(value, theme),
    }
}

/// A row of the system information dialog; see `summary_info_line_spec`.
pub fn summary_info_line(title: &str, label_width: usize, value: &str, style: SummaryInfoStyle, theme: &Theme) -> (r: Vec<StyledText>)
    ensures
        styled_seq(r@) == summary_info_line_spec(title@, label_width as int, value@, style, *theme),
{
    let mut head = pad_end_string(title, label_width);
    head.append(" ");
    let mut out = vec![StyledText { text: head, style: TextStyle::fg(theme.muted) }];
    let ghost first = styled_seq(out@);
    match style {
        SummaryInfoStyle::Plain => {
            out.push(StyledText { text: String::from_str(value), style: TextStyle::fg(theme.text) });
        },
        SummaryInfoStyle::Measurement => {
            let mut spans = summary_info_value_spans(value, theme);
            let ghost tail = spans@;
            out.append(&mut spans);
            assert(styled_seq(out@) =~= first + styled_seq(tail));
        },
    }
    assert(styled_seq(out@) =~= summary_info_line_spec(title@, label_width as int, value@, style, *theme));
    out
}

/// The rows of the system information dialog, one per field given as label,
/// value and how the value is shown.
pub fn system_info_dialog_lines(fields: &Vec<(String, String, SummaryInfoStyle)>, theme: &Theme) -> (r: Vec<Vec<StyledText>>)
    ensures
        styled_lines(r@) == Seq::new(
            fields@.len(),
            |i: int| summary_info_line_spec(fields@[i].0@, SYSTEM_INFO_LABEL_WIDTH as int, fields@[i].1@, fields@[i].2, *theme),
        ),
{
    let ghost want = Seq::new(
        fields@.len(),
        |i: int| summary_info_line_spec(fields@[i].0@, SYSTEM_INFO_LABEL_WIDTH as int, fields@[i].1@, fields@[i].2, *theme),
    );
    let mut out: Vec<Vec<StyledText>> = Vec::new();
    let mut i: usize = 0;
    while i < fields.len()
        invariant
            i <= fields@.len(),
            want == Seq::new(
                fields@.len(),
                |k: int| summary_info_line_spec(fields@[k].0@, SYSTEM_INFO_LABEL_WIDTH as int, fields@[k].1@, fields@[k].2, *theme),
            ),
            styled_lines(out@) == want.take(i as int),
        decreases fields@.len() - i,
    {
        let field = &fields[i];
        let line = summary_info_line(field.0.as_str(), SYSTEM_INFO_LABEL_WIDTH, field.1.as_str(), field.2, theme);
        let ghost before = out@;
        out.push(line);
        assert(styled_lines(out@) =~= styled_lines(before).push(want[i as int]));
        assert(styled_lines(out@) =~= want.take(i + 1));
        i = i + 1;
    }
    assert(want.take(fields@.len() as int) =~= want);
    out
}

/// The system information dialog: 100 by 21 cells centred in `area`, held to
/// its size.
pub fn system_info_dialog_area(area: Rect) -> (r: Rect)
    requires
        centered_fits(area, 100, 21),
    ensures
        r == centered_dialog_spec(area, 100, 21),
{
    centered_dialog_rect(area, 100, 21)
}

/// The look of a value that may feed a graph: body text, marked while it
/// does (see `graph_value_style_spec`).
pub open spec fn marked_value_style(state: Option<GraphSourceState>, theme: Theme) -> TextStyle {
    graph_value_style_spec(text_fg(theme.text), state, theme)
}

/// A row holding one value: the label padded to `label_width`, muted, then
/// the value in `marked_value_style`.
pub open spec fn value_line_spec(
    state: Option<GraphSourceState>,
    label: Seq<char>,
    label_width: int,
    value: Seq<char>,
    theme: Theme,
) -> Seq<(Seq<char>, TextStyle)> {
    seq![(pad_end(label, label_width), text_fg(theme.muted)), (value, marked_value_style(state, theme))]
}

/// A row holding one value; see `value_line_spec`.
pub fn summary_value_line(
    state: Option<GraphSourceState>,
    label: &str,
    label_width: usize,
    value: &str,
    theme: &Theme,
) -> (r: Vec<StyledText>)
    ensures
        styled_seq(r@) == value_line_spec(state, label@, label_width as int, value@, *theme),
{
    let out = vec![
        StyledText { text: pad_end_string(label, label_width), style: TextStyle::fg(theme.muted) },
        StyledText { text: String::from_str(value), style: graph_value_style(TextStyle::fg(theme.text), state, theme) },
    ];
    assert(styled_seq(out@) =~= value_line_spec(state, label@, label_width as int, value@, *theme));
    out
}

/// The amounts of a memory row, as already formatted: used and total apart by
/// a slash, the used amount alone, `--` for an unknown used amount, or `--`.
pub open spec fn stats_text(used: Option<Seq<char>>, total: Option<Seq<char>>) -> Seq<char> {
    match (used, total) {
        (Some(u), Some(t)) => u + " / "@ + t,
        (Some(u), None) => u,
        (None, Some(t)) => "-- / "@ + t,
        (None, None) => "--"@,
    }
}

/// A memory row: the title padded to `label_width`, muted, the amounts (see
/// `stats_text`) in `value_style`, and a muted suffix after a space when
/// there is a nonempty one.
pub open spec fn summary_line_spec(
    title: Seq<char>,
    label_width: int,
    used: Option<Seq<char>>,
    total: Option<Seq<char>>,
    suffix: Option<Seq<char>>,
    value_style: TextStyle,
    theme: Theme,
) -> Seq<(Seq<char>, TextStyle)> {
    let head = seq![(pad_end(title, label_width), text_fg(theme.muted)), (stats_text(used, total), value_style)];
    match suffix {
        Some(x) => if x.len() > 0 {
            head + seq![(" "@, TextStyle { fg: None, bg: None, bold: false, underlined: false }), (x, text_fg(theme.muted))]
        } else {
            head
        },
        None => head,
    }
}

/// The text of an optional string slice.
pub open spec fn opt_view(s: Option<&str>) -> Option<Seq<char>> {
    match s {
        Some(x) => Some(x@),
        None => None,
    }
}

/// A memory row; see `summary_line_spec`. `used` and `total` are the amounts
/// as formatted in megabytes.
pub fn summary_line(
    title: &str,
    label_width: usize,
    used: Option<&str>,
    total: Option<&str>,
    suffix: Option<&str>,
    value_style: TextStyle,
    theme: &Theme,
) -> (r: Vec<StyledText>)
    ensures
        styled_seq(r@) == summary_line_spec(title@, label_width as int, opt_view(used), opt_view(total), opt_view(suffix), value_style, *theme),
{
    let stats = match (used, total) {
        (Some(u), Some(t)) => {
            let mut x = String::from_str(u);
            x.append(" / ");
            x.append(t);
            x
        },
        (Some(u), None) => String::from_str(u),
        (None, Some(t)) => {
            let mut x = String::from_str("-- / ");
            x.append(t);
            x
        },
        (None, None) => String::from_str("--"),
    };
    let mut out = vec![
        StyledText { text: pad_end_string(title, label_width), style: TextStyle::fg(theme.muted) },
        StyledText { text: stats, style: value_style },
    ];
    match suffix {
        Some(x) => {
            if x.unicode_len() > 0 {
                out.push(StyledText { text: String::from_str(" "), style: TextStyle::plain() });
                out.push(StyledText { text: String::from_str(x), style: TextStyle::fg(theme.muted) });
            }
        },
        None => {},
    }
    assert(styled_seq(out@) =~= summary_line_spec(
        title@,
        label_width as int,
        opt_view(used),
        opt_view(total),
        opt_view(suffix),
        value_style,
        *theme,
    ));
    out
}

/// A GPU engine row: the label padded to its field, muted, the usage (as
/// formatted) in `marked_value_style`, and the muted engine suffix (as
/// formatted, possibly empty).
pub open spec fn gpu_percent_line_spec(
    label: Seq<char>,
    value: Seq<char>,
    suffix: Seq<char>,
    state: Option<GraphSourceState>,
    theme: Theme,
) -> Seq<(Seq<char>, TextStyle)> {
    seq![
        (pad_end(label, GPU_ROW_LABEL_WIDTH as int), text_fg(theme.muted)),
        (value, marked_value_style(state, theme)),
        (suffix, text_fg(theme.muted)),
    ]
}

/// A GPU engine row; see `gpu_percent_line_spec`.
pub fn gpu_percent_line(label: &str, value: &str, suffix: &str, state: Option<GraphSourceState>, theme: &Theme) -> (r: Vec<StyledText>)
    ensures
        styled_seq(r@) == gpu_percent_line_spec(label@, value@, suffix@, state, *theme),
{
    let out = vec![
        StyledText { text: pad_end_string(label, GPU_ROW_LABEL_WIDTH), style: TextStyle::fg(theme.muted) },
        StyledText { text: String::from_str(value), style: graph_value_style(TextStyle::fg(theme.text), state, theme) },
        StyledText { text: String::from_str(suffix), style: TextStyle::fg(theme.muted) },
    ];
    assert(styled_seq(out@) =~= gpu_percent_line_spec(label@, value@, suffix@, state, *theme));
    out
}

/// The title of the GPU panel: the adapter shown and the adapter count.
pub fn gpu_title(page: usize, count: usize) -> (r: String)
    ensures
        r@ == "GPU "@ + decimal(page as nat) + "/"@ + decimal(count as nat),
{
    let mut out = String::from_str("GPU ");
    let p = decimal_string(page as u128);
    out.append(p.as_str());
    out.append("/");
    let c = decimal_string(count as u128);
    out.append(c.as_str());
    out
}

/// The own look of a panel row: on the selection colour while it is the
/// selected row of the focused panel.
pub open spec fn row_base(selected: bool, theme: Theme) -> TextStyle {
    if selected {
        TextStyle { fg: None, bg: Some(theme.table_selection_surface), bold: false, underlined: false }
    } else {
        TextStyle { fg: None, bg: None, bold: false, underlined: false }
    }
}

/// The own look of a panel row; see `row_base`.
fn row_base_style(selected: bool, theme: &Theme) -> (r: TextStyle)
    ensures
        r == row_base(selected, *theme),
{
    if selected {
        TextStyle { fg: None, bg: Some(theme.table_selection_surface), bold: false, underlined: false }
    } else {
        TextStyle::plain()
    }
}

/// The labels of the network and disk rows.
pub open spec fn activity_label(i: int) -> Seq<char> {
    if i == 0 {
        "Net Rx"@
    } else if i == 1 {
        "Net Tx"@
    } else if i == 2 {
        "Disk R"@
    } else if i == 3 {
        "Disk W"@
    } else {
        "Disk Q"@
    }
}

/// The network and disk rows: received and sent network rates, disk read and
/// write rates and the disk queue, each a value row (see `value_line_spec`)
/// with its formatted value and graph state, the row at `selected` (the
/// selected metric of the focused panel) on the selection colour.
pub open spec fn system_activity_lines_spec(
    values: Seq<Seq<char>>,
    states: Seq<Option<GraphSourceState>>,
    selected: Option<usize>,
    theme: Theme,
) -> Seq<(TextStyle, Seq<(Seq<char>, TextStyle)>)> {
    Seq::new(
        5,
        |i: int|
            (
                row_base(selected == Some(i as usize), theme),
                value_line_spec(states[i], activity_label(i), ACTIVITY_LABEL_WIDTH as int, values[i], theme),
            ),
    )
}

/// The rows as their own looks and pieces.
pub open spec fn styled_rows(lines: Seq<StyledLine>) -> Seq<(TextStyle, Seq<(Seq<char>, TextStyle)>)> {
    Seq::new(lines.len(), |i: int| styled_line_view(lines[i]))
}

/// The label of a network or disk row; see `activity_label`.
fn activity_label_str(i: usize) -> (r: &'static str)
    requires
        i < 5,
    ensures
        r@ == activity_label(i as int),
{
    if i == 0 {
        "Net Rx"
    } else if i == 1 {
        "Net Tx"
    } else if i == 2 {
        "Disk R"
    } else if i == 3 {
        "Disk W"
    } else {
        "Disk Q"
    }
}

/// The network and disk rows; see `system_activity_lines_spec`. `values` are
/// the five values as formatted, `states` their graph states.
pub fn system_activity_lines(
    values: &Vec<String>,
    states: &Vec<Option<GraphSourceState>>,
    selected: Option<usize>,
    theme: &Theme,
) -> (r: Vec<StyledLine>)
    requires
        values@.len() == 5,
        states@.len() == 5,
    ensures
        styled_rows(r@) == system_activity_lines_spec(
            Seq::new(5, |i: int| values@[i]@),
            states@,
            selected,
            *theme,
        ),
{
    let ghost texts = Seq::new(5, |i: int| values@[i]@);
    let ghost want = system_activity_lines_spec(texts, states@, selected, *theme);
    let mut out: Vec<StyledLine> = Vec::new();
    let mut i: usize = 0;
    while i < 5
        invariant
            i <= 5,
            values@.len() == 5,
            states@.len() == 5,
            texts == Seq::new(5, |k: int| values@[k]@),
            want == system_activity_lines_spec(texts, states@, selected, *theme),
            styled_rows(out@) == want.take(i as int),
        decreases 5 - i,
    {
        let label = activity_label_str(i);
        let spans = summary_value_line(states[i], label, ACTIVITY_LABEL_WIDTH, values[i].as_str(), theme);
        let is_selected = match selected {
            Some(k) => k == i,
            None => false,
        };
        let line = StyledLine { base: row_base_style(is_selected, theme), spans };
        let ghost before = out@;
        out.push(line);
        assert(styled_rows(out@) =~= styled_rows(before).push(want[i as int]));
        assert(styled_rows(out@) =~= want.take(i + 1));
        i = i + 1;
    }
    assert(want.take(5) =~= want);
    out
}

/// The labels of the memory rows: the overview column, then the pressure
/// column.
pub open spec fn memory_label(i: int) -> Seq<char> {
    if i == 0 {
        "In use"@
    } else if i == 1 {
        "Modified"@
    } else if i == 2 {
        "Standby"@
    } else if i == 3 {
        "Free + Zeroed"@
    } else if i == 4 {
        "Commit charge"@
    } else if i == 5 {
        "Paged Pool"@
    } else if i == 6 {
        "Nonpaged Pool"@
    } else if i == 7 {
        "Pages In/s"@
    } else {
        "Pages Out/s"@
    }
}

/// The label of a memory row; see `memory_label`.
fn memory_label_str(i: usize) -> (r: &'static str)
    requires
        i < 9,
    ensures
        r@ == memory_label(i as int),
{
    if i == 0 {
        "In use"
    } else if i == 1 {
        "Modified"
    } else if i == 2 {
        "Standby"
    } else if i == 3 {
        "Free + Zeroed"
    } else if i == 4 {
        "Commit charge"
    } else if i == 5 {
        "Paged Pool"
    } else if i == 6 {
        "Nonpaged Pool"
    } else if i == 7 {
        "Pages In/s"
    } else {
        "Pages Out/s"
    }
}

/// A count with thousands separators, `--` when unknown; see
/// `format_optional_integer`.
pub open spec fn optional_integer_text(value: Option<u64>) -> Seq<char> {
    match value {
        Some(v) => grouped(v as nat),
        None => "--"@,
    }
}

/// The amounts of a memory row, as formatted texts.
pub open spec fn stats_view(stats: (Option<String>, Option<String>)) -> (Option<Seq<char>>, Option<Seq<char>>) {
    (
        match stats.0 {
            Some(u) => Some(u@),
            None => None,
        },
        match stats.1 {
            Some(t) => Some(t@),
            None => None,
        },
    )
}

/// Memory row `i` (see `memory_label`): rows 0 to 6 show amounts (see
/// `summary_line_spec`), rows 7 and 8 the pages read and written per second
/// (see `value_line_spec`); all with labels padded to the memory field, the
/// row at `selected` on the selection colour.
pub open spec fn memory_row_spec(
    i: int,
    stats: Seq<(Option<String>, Option<String>)>,
    pages: (Option<u64>, Option<u64>),
    states: Seq<Option<GraphSourceState>>,
    selected: Option<usize>,
    theme: Theme,
) -> (TextStyle, Seq<(Seq<char>, TextStyle)>) {
    let w = SUMMARY_ROW_LABEL_WIDTH as int;
    (
        row_base(selected == Some(i as usize), theme),
        if i < 7 {
            summary_line_spec(
                memory_label(i),
                w,
                stats_view(stats[i]).0,
                stats_view(stats[i]).1,
                None,
                marked_value_style(states[i], theme),
                theme,
            )
        } else {
            value_line_spec(
                states[i],
                memory_label(i),
                w,
                optional_integer_text(if i == 7 { pages.0 } else { pages.1 }),
                theme,
            )
        },
    )
}

/// One memory row; see `memory_row_spec`.
fn memory_row(
    i: usize,
    stats: &Vec<(Option<String>, Option<String>)>,
    pages: (Option<u64>, Option<u64>),
    states: &Vec<Option<GraphSourceState>>,
    selected: Option<usize>,
    theme: &Theme,
) -> (r: StyledLine)
    requires
        i < 9,
        stats@.len() == 7,
        states@.len() == 9,
    ensures
        styled_line_view(r) == memory_row_spec(i as int, stats@, pages, states@, selected, *theme),
{
    let label = memory_label_str(i);
    let spans = if i < 7 {
        let row = &stats[i];
        let used = match &row.0 {
            Some(u) => Some(u.as_str()),
            None => None,
        };
        let total = match &row.1 {
            Some(t) => Some(t.as_str()),
            None => None,
        };
        let style = graph_value_style(TextStyle::fg(theme.text), states[i], theme);
        summary_line(label, SUMMARY_ROW_LABEL_WIDTH, used, total, None, style, theme)
    } else {
        let count = format_optional_integer(if i == 7 { pages.0 } else { pages.1 });
        summary_value_line(states[i], label, SUMMARY_ROW_LABEL_WIDTH, count.as_str(), theme)
    };
    let is_selected = match selected {
        Some(k) => k == i,
        None => false,
    };
    StyledLine { base: row_base_style(is_selected, theme), spans }
}

/// The two memory columns; see `memory_row_spec`: rows 0 to 4 in the
/// overview column, rows 5 to 8 in the pressure column. `stats` are the
/// amounts of rows 0 to 6 as formatted in megabytes, `pages` the pages read
/// and written per second, `states` the graph states of the nine rows.
pub fn memory_usage_columns(
    stats: &Vec<(Option<String>, Option<String>)>,
    pages: (Option<u64>, Option<u64>),
    states: &Vec<Option<GraphSourceState>>,
    selected: Option<usize>,
    theme: &Theme,
) -> (r: (Vec<StyledLine>, Vec<StyledLine>))
    requires
        stats@.len() == 7,
        states@.len() == 9,
    ensures
        styled_rows(r.0@) == Seq::new(5, |i: int| memory_row_spec(i, stats@, pages, states@, selected, *theme)),
        styled_rows(r.1@) == Seq::new(4, |i: int| memory_row_spec(i + 5, stats@, pages, states@, selected, *theme)),
{
    let ghost all = Seq::new(9, |i: int| memory_row_spec(i, stats@, pages, states@, selected, *theme));
    let mut left: Vec<StyledLine> = Vec::new();
    let mut right: Vec<StyledLine> = Vec::new();
    let mut i: usize = 0;
    while i < 9
        invariant
            i <= 9,
            stats@.len() == 7,
            states@.len() == 9,
            all == Seq::new(9, |k: int| memory_row_spec(k, stats@, pages, states@, selected, *theme)),
            styled_rows(left@) == all.take(min_int(i as int, 5)),
            styled_rows(right@) == all.subrange(5, max_int(i as int, 5)),
        decreases 9 - i,
    {
        let line = memory_row(i, stats, pages, states, selected, theme);
        if i < 5 {
            let ghost before = left@;
            left.push(line);
            assert(styled_rows(left@) =~= styled_rows(before).push(all[i as int]));
            assert(styled_rows(left@) =~= all.take(i + 1));
        } else {
            let ghost before = right@;
            right.push(line);
            assert(styled_rows(right@) =~= styled_rows(before).push(all[i as int]));
            assert(styled_rows(right@) =~= all.subrange(5, i + 1));
        }
        i = i + 1;
    }
    assert(styled_rows(left@) =~= Seq::new(5, |k: int| memory_row_spec(k, stats@, pages, states@, selected, *theme)));
    assert(styled_rows(right@) =~= Seq::new(4, |k: int| memory_row_spec(k + 5, stats@, pages, states@, selected, *theme)));
    (left, right)
}

/// The labels of the GPU rows.
pub open spec fn gpu_label(i: int) -> Seq<char> {
    if i == 0 {
        "Usage"@
    } else if i == 1 {
        "Encode"@
    } else if i == 2 {
        "Decode"@
    } else if i == 3 {
        "Dedicated"@
    } else {
        "Shared"@
    }
}

/// The label of a GPU row; see `gpu_label`.
fn gpu_label_str(i: usize) -> (r: &'static str)
    requires
        i < 5,
    ensures
        r@ == gpu_label(i as int),
{
    if i == 0 {
        "Usage"
    } else if i == 1 {
        "Encode"
    } else if i == 2 {
        "Decode"
    } else if i == 3 {
        "Dedicated"
    } else {
        "Shared"
    }
}

/// GPU row `i` (see `gpu_label`): rows 0 to 2 show engine usage (see
/// `gpu_percent_line_spec`), rows 3 and 4 dedicated and shared memory (see
/// `summary_line_spec`, with the GPU label field); the row at `selected` on
/// the selection colour.
pub open spec fn gpu_row_spec(
    i: int,
    percents: Seq<String>,
    suffixes: Seq<String>,
    memory: Seq<(Option<String>, Option<String>)>,
    states: Seq<Option<GraphSourceState>>,
    selected: Option<usize>,
    theme: Theme,
) -> (TextStyle, Seq<(Seq<char>, TextStyle)>) {
    (
        row_base(selected == Some(i as usize), theme),
        if i < 3 {
            gpu_percent_line_spec(gpu_label(i), percents[i]@, suffixes[i]@, states[i], theme)
        } else {
            summary_line_spec(
                gpu_label(i),
                GPU_ROW_LABEL_WIDTH as int,
                stats_view(memory[i - 3]).0,
                stats_view(memory[i - 3]).1,
                None,
                marked_value_style(states[i], theme),
                theme,
            )
        },
    )
}

/// The GPU rows; see `gpu_row_spec`. `percents` and `suffixes` are the
/// usage and engine texts of the three engine rows as formatted, `memory` the
/// used and total amounts of the two memory rows as formatted in megabytes,
/// `states` the graph states of the five rows.
pub fn gpu_usage_lines(
    percents: &Vec<String>,
    suffixes: &Vec<String>,
    memory: &Vec<(Option<String>, Option<String>)>,
    states: &Vec<Option<GraphSourceState>>,
    selected: Option<usize>,
    theme: &Theme,
) -> (r: Vec<StyledLine>)
    requires
        percents@.len() == 3,
        suffixes@.len() == 3,
        memory@.len() == 2,
        states@.len() == 5,
    ensures
        styled_rows(r@) == Seq::new(
            5,
            |i: int| gpu_row_spec(i, percents@, suffixes@, memory@, states@, selected, *theme),
        ),
{
    let ghost want = Seq::new(5, |i: int| gpu_row_spec(i, percents@, suffixes@, memory@, states@, selected, *theme));
    let mut out: Vec<StyledLine> = Vec::new();
    let mut i: usize = 0;
    while i < 5
        invariant
            i <= 5,
            percents@.len() == 3,
            suffixes@.len() == 3,
            memory@.len() == 2,
            states@.len() == 5,
            want == Seq::new(5, |k: int| gpu_row_spec(k, percents@, suffixes@, memory@, states@, selected, *theme)),
            styled_rows(out@) == want.take(i as int),
        decreases 5 - i,
    {
        let label = gpu_label_str(i);
        let spans = if i < 3 {
            gpu_percent_line(label, percents[i].as_str(), suffixes[i].as_str(), states[i], theme)
        } else {
            let row = &memory[i - 3];
            let used = match &row.0 {
                Some(u) => Some(u.as_str()),
                None => None,
            };
            let total = match &row.1 {
                Some(t) => Some(t.as_str()),
                None => None,
            };
            let style = graph_value_style(TextStyle::fg(theme.text), states[i], theme);
            summary_line(label, GPU_ROW_LABEL_WIDTH, used, total, None, style, theme)
        };
        let is_selected = match selected {
            Some(k) => k == i,
            None => false,
        };
        let line = StyledLine { base: row_base_style(is_selected, theme), spans };
        let ghost before = out@;
        out.push(line);
        assert(styled_rows(out@) =~= styled_rows(before).push(want[i as int]));
        assert(styled_rows(out@) =~= want.take(i + 1));
        i = i + 1;
    }
    assert(want.take(5) =~= want);
    out
}

/// Characters of a row's pieces, held at the largest `usize`.
pub open spec fn row_chars(spans: Seq<(Seq<char>, TextStyle)>) -> int
    decreases spans.len(),
{
    if spans.len() == 0 {
        0
    } else {
        add_upto(row_chars(spans.drop_last()), spans.last().0.len() as int, usize::MAX as int)
    }
}

/// Characters of the widest of some rows, none for no rows.
pub open spec fn widest_chars(rows: Seq<(TextStyle, Seq<(Seq<char>, TextStyle)>)>) -> int
    decreases rows.len(),
{
    if rows.len() == 0 {
        0
    } else {
        max_int(widest_chars(rows.drop_last()), row_chars(rows.last().1))
    }
}

/// Characters of the widest row, one when there are no rows.
pub open spec fn widest_or_one(rows: Seq<(TextStyle, Seq<(Seq<char>, TextStyle)>)>) -> int {
    if rows.len() == 0 {
        1
    } else {
        widest_chars(rows)
    }
}

/// Characters of a row.
fn line_chars(line: &StyledLine) -> (r: usize)
    ensures
        r == row_chars(styled_line_view(*line).1),
{
    let ghost view = styled_seq(line.spans@);
    let mut total: usize = 0;
    let mut i: usize = 0;
    while i < line.spans.len()
        invariant
            i <= line.spans@.len(),
            view == styled_seq(line.spans@),
            total == row_chars(view.take(i as int)),
        decreases line.spans@.len() - i,
    {
        let n = line.spans[i].text.as_str().unicode_len();
        proof {
            assert(view.take(i + 1).drop_last() =~= view.take(i as int));
            assert(view.take(i + 1).last() == view[i as int]);
        }
        total = total.saturating_add(n);
        i = i + 1;
    }
    assert(view.take(line.spans@.len() as int) =~= view);
    total
}

/// Characters of the widest row, one when there are no rows.
pub fn widest_line(lines: &Vec<StyledLine>) -> (r: usize)
    ensures
        r == widest_or_one(styled_rows(lines@)),
{
    let ghost rows = styled_rows(lines@);
    let mut widest: usize = 0;
    let mut i: usize = 0;
    while i < lines.len()
        invariant
            i <= lines@.len(),
            rows == styled_rows(lines@),
            widest == widest_chars(rows.take(i as int)),
        decreases lines@.len() - i,
    {
        let w = line_chars(&lines[i]);
        proof {
            assert(rows.take(i + 1).drop_last() =~= rows.take(i as int));
            assert(rows.take(i + 1).last() == rows[i as int]);
        }
        if w > widest {
            widest = w;
        }
        i = i + 1;
    }
    assert(rows.take(lines@.len() as int) =~= rows);
    if lines.len() == 0 {
        1
    } else {
        widest
    }
}

/// The width a panel asks for: its widest row cut to sixteen bits, with its
/// two border columns, at least `minimum`.
pub open spec fn desired_width_spec(rows: Seq<(TextStyle, Seq<(Seq<char>, TextStyle)>)>, minimum: int) -> int {
    max_int(add16((widest_or_one(rows) as u16) as int, 2), minimum)
}

/// The width a panel asks for; see `desired_width_spec`.
pub fn desired_panel_width(lines: &Vec<StyledLine>, minimum: u16) -> (r: u16)
    ensures
        r == desired_width_spec(styled_rows(lines@), minimum as int),
{
    let widest = #[verifier::truncate] (widest_line(lines) as u16);
    let w = widest.saturating_add(2);
    if w >= minimum {
        w
    } else {
        minimum
    }
}

/// The width the memory panel asks for: its two columns' widest rows, each cut
/// to sixteen bits, the gap between them and the two border columns, at least
/// `minimum`.
pub open spec fn desired_memory_width_spec(
    left: Seq<(TextStyle, Seq<(Seq<char>, TextStyle)>)>,
    right: Seq<(TextStyle, Seq<(Seq<char>, TextStyle)>)>,
    minimum: int,
) -> int {
    let content = ((widest_or_one(left) as u16) as int) + ((widest_or_one(right) as u16) as int);
    max_int(add16(add16(content, MEMORY_COLUMN_GAP as int), 2), minimum)
}

/// The width the memory panel asks for; see `desired_memory_width_spec`.
pub fn desired_memory_panel_width(left: &Vec<StyledLine>, right: &Vec<StyledLine>, minimum: u16) -> (r: u16)
    requires
        ((widest_or_one(styled_rows(left@)) as u16) as int) + ((widest_or_one(styled_rows(right@)) as u16) as int)
            <= u16::MAX,
    ensures
        r == desired_memory_width_spec(styled_rows(left@), styled_rows(right@), minimum as int),
{
    let l = #[verifier::truncate] (widest_line(left) as u16);
    let r = #[verifier::truncate] (widest_line(right) as u16);
    let w = (l + r).saturating_add(MEMORY_COLUMN_GAP).saturating_add(2);
    if w >= minimum {
        w
    } else {
        minimum
    }
}

/// The two memory columns inside the panel: the left one as wide as its
/// widest row (held to the panel), one column of gap where it fits, the
/// right one taking the rest.
pub open spec fn memory_columns_spec(inner: Rect, left_widest: int) -> (Rect, Rect) {
    let left_width = min_int((left_widest as u16) as int, inner.width as int);
    let gap = min_int(MEMORY_COLUMN_GAP as int, inner.width - left_width);
    let right_x = add16(add16(inner.x as int, left_width), gap);
    (
        Rect::placed(inner.x as int, inner.y as int, left_width, inner.height as int),
        Rect::placed(right_x, inner.y as int, sub0(inner.right_spec(), right_x), inner.height as int),
    )
}

/// The two memory columns inside the panel; see `memory_columns_spec`.
pub fn memory_column_areas(inner: Rect, left: &Vec<StyledLine>) -> (r: (Rect, Rect))
    ensures
        r == memory_columns_spec(inner, widest_or_one(styled_rows(left@))),
{
    let widest = #[verifier::truncate] (widest_line(left) as u16);
    let left_width = if widest < inner.width { widest } else { inner.width };
    let room = inner.width - left_width;
    let gap = if MEMORY_COLUMN_GAP < room { MEMORY_COLUMN_GAP } else { room };
    let right_x = inner.x.saturating_add(left_width).saturating_add(gap);
    (
        Rect::new(inner.x, inner.y, left_width, inner.height),
        Rect::new(right_x, inner.y, inner.right().saturating_sub(right_x), inner.height),
    )
}

/// The four system panels side by side in `area`, from the left: memory, GPU,
/// network and disk, CPU. When every panel's asked width fits, memory and GPU
/// get theirs; otherwise only the chosen one of the two is shown (held to the
/// area). Network and disk get their asked width from what is left once the
/// CPU panel has its own; the CPU panel takes the rest.
pub open spec fn top_panels_spec(area: Rect, memory: int, gpu: int, activity: int, cpu: int, memory_chosen: bool) -> (
    Rect,
    Rect,
    Rect,
    Rect,
) {
    let w = area.width as int;
    let wide = add16(add16(add16(memory, gpu), activity), cpu) <= w;
    let mw = if wide { memory } else if memory_chosen { min_int(memory, w) } else { 0 };
    let gw = if wide { gpu } else if memory_chosen { 0 } else { min_int(gpu, w) };
    let remaining = sub0(sub0(w, mw), gw);
    let aw = min_int(activity, sub0(remaining, min_int(cpu, remaining)));
    let cw = sub0(remaining, aw);
    let x1 = add16(area.x as int, mw);
    let x2 = add16(x1, gw);
    let x3 = add16(x2, aw);
    (
        Rect::placed(area.x as int, area.y as int, mw, area.height as int),
        Rect::placed(x1, area.y as int, gw, area.height as int),
        Rect::placed(x2, area.y as int, aw, area.height as int),
        Rect::placed(x3, area.y as int, cw, area.height as int),
    )
}

/// The four system panels; see `top_panels_spec`. The asked widths come from
/// `desired_memory_panel_width` (at least 28) and `desired_panel_width` (at
/// least 28 for the GPU, 14 for network and disk, 24 for the CPU);
/// `memory_chosen` says which of memory and GPU is shown when both cannot be.
pub fn top_panel_areas(area: Rect, memory: u16, gpu: u16, activity: u16, cpu: u16, memory_chosen: bool) -> (r: (
    Rect,
    Rect,
    Rect,
    Rect,
))
    ensures
        r == top_panels_spec(area, memory as int, gpu as int, activity as int, cpu as int, memory_chosen),
{
    let wide = memory.saturating_add(gpu).saturating_add(activity).saturating_add(cpu) <= area.width;
    let (memory_width, gpu_width) = if wide {
        (memory, gpu)
    } else if memory_chosen {
        (if memory < area.width { memory } else { area.width }, 0)
    } else {
        (0, if gpu < area.width { gpu } else { area.width })
    };
    let remaining = area.width.saturating_sub(memory_width).saturating_sub(gpu_width);
    let cpu_part = if cpu < remaining { cpu } else { remaining };
    let left = remaining - cpu_part;
    let activity_width = if activity < left { activity } else { left };
    let cpu_width = remaining - activity_width;
    let x1 = area.x.saturating_add(memory_width);
    let x2 = x1.saturating_add(gpu_width);
    let x3 = x2.saturating_add(activity_width);
    (
        Rect::new(area.x, area.y, memory_width, area.height),
        Rect::new(x1, area.y, gpu_width, area.height),
        Rect::new(x2, area.y, activity_width, area.height),
        Rect::new(x3, area.y, cpu_width, area.height),
    )
}

/// The system panels share their row without gaps or overlap: each starts
/// where the one before ends, the first at the row's start, and the CPU panel
/// ends at the row's end; all take the row's height. Stated for rows that end
/// on the grid and asked widths that add up within sixteen bits.
pub proof fn system_panels_tile_the_row(area: Rect, memory: int, gpu: int, activity: int, cpu: int, memory_chosen: bool)
    requires
        area.x + area.width <= u16::MAX,
        area.y + area.height <= u16::MAX,
        0 <= memory,
        0 <= gpu,
        0 <= activity,
        0 <= cpu,
        memory + gpu + activity + cpu <= u16::MAX,
    ensures
        ({
            let (m, g, a, c) = top_panels_spec(area, memory, gpu, activity, cpu, memory_chosen);
            &&& m.x == area.x
            &&& g.x == m.x + m.width
            &&& a.x == g.x + g.width
            &&& c.x == a.x + a.width
            &&& c.x + c.width == area.x + area.width
            &&& m.y == area.y && g.y == area.y && a.y == area.y && c.y == area.y
            &&& m.height == area.height && g.height == area.height && a.height == area.height
            &&& c.height == area.height
        }),
{
}

/// The memory cell under the cell `(x, y)` of the panel `panel`, as column (0
/// for the overview, 1 for pressure) and row: none when the panel has no
/// inside, above the inside, outside both columns, or past the column's
/// `overview_rows` or `pressure_rows` rows. `left_widest` is the width of the
/// overview column's widest row.
pub open spec fn memory_cell_spec(
    panel: Rect,
    left_widest: int,
    overview_rows: int,
    pressure_rows: int,
    x: int,
    y: int,
) -> Option<(usize, usize)> {
    if panel.width < 2 || panel.height < 2 {
        None
    } else {
        let inner = panel.shrunk(1, 1);
        if y < inner.y {
            None
        } else {
            let row = y - inner.y;
            let (overview, pressure) = memory_columns_spec(inner, left_widest);
            if overview.contains_spec(x, y) {
                if row < overview_rows {
                    Some((0usize, row as usize))
                } else {
                    None
                }
            } else if pressure.contains_spec(x, y) {
                if row < pressure_rows {
                    Some((1usize, row as usize))
                } else {
                    None
                }
            } else {
                None
            }
        }
    }
}

/// The memory cell under a point; see `memory_cell_spec`. `left` are the
/// overview column's rows.
pub fn memory_cell_at(
    panel: Rect,
    left: &Vec<StyledLine>,
    overview_rows: usize,
    pressure_rows: usize,
    x: u16,
    y: u16,
) -> (r: Option<(usize, usize)>)
    ensures
        r == memory_cell_spec(
            panel,
            widest_or_one(styled_rows(left@)),
            overview_rows as int,
            pressure_rows as int,
            x as int,
            y as int,
        ),
{
    if panel.width < 2 || panel.height < 2 {
        return None;
    }
    let inner = panel.inner(1, 1);
    if y < inner.y {
        return None;
    }
    let row = (y - inner.y) as usize;
    let (overview, pressure) = memory_column_areas(inner, left);
    if x >= overview.x && x < overview.right() && y >= overview.y && y < overview.bottom() {
        if row < overview_rows {
            Some((0, row))
        } else {
            None
        }
    } else if x >= pressure.x && x < pressure.right() && y >= pressure.y && y < pressure.bottom() {
        if row < pressure_rows {
            Some((1, row))
        } else {
            None
        }
    } else {
        None
    }
}

} // verus!

//! Values of the CPU panel.

use vstd::prelude::*;

use crate::ui::cpu_core_dialog::CpuCoreKind;
use crate::ui::format::{decimal, decimal_string, format_integer, grouped};
use crate::ui::graph_slot::{
    graph_value_spans, graph_value_spans_spec, styled_seq, styled_view, GraphSourceState, StyledText, TextStyle,
};
use crate::ui::rect::{add16, min_int, Rect};
use crate::ui::theme::{Color, Theme};
use crate::ui::text::{pad_end, pad_end_string, pad_start, pad_start_string};

verus! {

/// An average CPU usage in three columns and a percent sign, held at 100; `--`
/// in three columns when unknown.
pub fn format_cpu_average(value: Option<u8>) -> (r: String)
    ensures
        r@ == match value {
            Some(v) => pad_start(decimal(min_int(v as int, 100) as nat), 3) + "%"@,
            None => " --"@,
        },
{
    match value {
        Some(v) => {
            let v = if v < 100 { v } else { 100 };
            let digits = decimal_string(v as u128);
            let mut out = pad_start_string(digits.as_str(), 3);
            out.append("%");
            out
        },
        None => String::from_str(" --"),
    }
}

/// A CPU usage with a percent sign, held at 100; `--` when unknown.
pub fn format_cpu_part(value: Option<u8>) -> (r: String)
    ensures
        r@ == match value {
            Some(v) => decimal(min_int(v as int, 100) as nat) + "%"@,
            None => "--"@,
        },
{
    match value {
        Some(v) => {
            let v = if v < 100 { v } else { 100 };
            let mut out = decimal_string(v as u128);
            out.append("%");
            out
        },
        None => String::from_str("--"),
    }
}

/// A CPU frequency in MHz; `--` when unknown.
pub fn format_cpu_panel_frequency_mhz(value: Option<u64>) -> (r: String)
    ensures
        r@ == match value {
            Some(v) => decimal(v as nat) + " MHz"@,
            None => "--"@,
        },
{
    match value {
        Some(v) => {
            let mut out = decimal_string(v as u128);
            out.append(" MHz");
            out
        },
        None => String::from_str("--"),
    }
}

/// Columns of a metric's label.
pub const LABEL_WIDTH: usize = 11;
/// Body row of the usage.
pub const USAGE_ROW: u16 = 0;
/// Body row of the thread count.
pub const THREADS_ROW: u16 = 2;
/// Body row of the process count.
pub const PROCESSES_ROW: u16 = 3;
/// Body row of the per-core button.
pub const PER_CORE_ROW: u16 = 4;
/// The per-core button.
pub const PER_CORE_BUTTON_LABEL: &'static str = "[Per-core Usage (P/E)]";

/// A metric of the CPU panel that a pointer or the keyboard can pick.
#[derive(Clone, Copy, Debug, PartialEq, Eq, Structural)]
pub enum CpuMetric {
    CpuAverage,
    ThreadCount,
    ProcessCount,
}

/// The metric under the cell `(x, y)` of the panel: by the body row, none off
/// the body or on a row without a metric.
pub open spec fn cpu_metric_at_spec(panel: Rect, x: int, y: int) -> Option<CpuMetric> {
    let inner = panel.shrunk(1, 1);
    if !inner.contains_spec(x, y) {
        None
    } else if y - inner.y == USAGE_ROW {
        Some(CpuMetric::CpuAverage)
    } else if y - inner.y == THREADS_ROW {
        Some(CpuMetric::ThreadCount)
    } else if y - inner.y == PROCESSES_ROW {
        Some(CpuMetric::ProcessCount)
    } else {
        None
    }
}

/// The metric under the cell `(x, y)`; see `cpu_metric_at_spec`.
pub fn cpu_metric_at_position(panel: Rect, x: u16, y: u16) -> (r: Option<CpuMetric>)
    ensures
        r == cpu_metric_at_spec(panel, x as int, y as int),
{
    let inner = panel.inner(1, 1);
    if !(x >= inner.x && x < inner.right() && y >= inner.y && y < inner.bottom()) {
        return None;
    }
    let row = y - inner.y;
    if row == USAGE_ROW {
        Some(CpuMetric::CpuAverage)
    } else if row == THREADS_ROW {
        Some(CpuMetric::ThreadCount)
    } else if row == PROCESSES_ROW {
        Some(CpuMetric::ProcessCount)
    } else {
        None
    }
}

/// The per-core button: on the fifth body row, as wide as its label where the
/// body allows; none when the body has no such row or no width.
pub open spec fn per_core_button_spec(panel: Rect) -> Option<Rect> {
    let inner = panel.shrunk(1, 1);
    if inner.height <= PER_CORE_ROW || inner.width == 0 {
        None
    } else {
        Some(Rect::placed(
            inner.x as int,
            add16(inner.y as int, PER_CORE_ROW as int),
            min_int(PER_CORE_BUTTON_LABEL@.len() as int, inner.width as int),
            1,
        ))
    }
}

/// The per-core button; see `per_core_button_spec`.
pub fn cpu_per_core_button_area(panel: Rect) -> (r: Option<Rect>)
    ensures
        r == per_core_button_spec(panel),
{
    let inner = panel.inner(1, 1);
    if inner.height <= PER_CORE_ROW || inner.width == 0 {
        return None;
    }
    proof {
        reveal_strlit("[Per-core Usage (P/E)]");
    }
    let label = PER_CORE_BUTTON_LABEL.unicode_len() as u16;
    Some(Rect::new(inner.x, inner.y.saturating_add(PER_CORE_ROW), if label < inner.width { label } else { inner.width }, 1))
}

/// What the CPU panel shows of a snapshot: the usage (in all, by user and by
/// kernel code), the kind of each logical processor where known, the
/// frequencies of the performance and efficiency cores and the current one,
/// and the thread and process counts.
#[derive(Clone, Debug)]
pub struct CpuSnapshot {
    pub usage_percent: Option<u8>,
    pub user_percent: Option<u8>,
    pub kernel_percent: Option<u8>,
    pub core_kinds: Vec<Option<CpuCoreKind>>,
    pub p_core_mhz: Option<u64>,
    pub current_mhz: Option<u64>,
    pub e_core_mhz: Option<u64>,
    pub thread_count: Option<u64>,
    pub process_count: u64,
}

/// What the CPU panel shows of the screen's state: which of its values feed
/// graphs, whether it has the focus, the metric picked (none for the
/// per-core button), and whether that button is hovered or picked.
#[derive(Clone, Copy, Debug)]
pub struct CpuPanelState {
    pub usage_graph: Option<GraphSourceState>,
    pub threads_graph: Option<GraphSourceState>,
    pub processes_graph: Option<GraphSourceState>,
    pub focused: bool,
    pub selected_metric: Option<CpuMetric>,
    pub per_core_hovered: bool,
    pub per_core_selected: bool,
}

/// A line of the panel: its own look, under the looks of its pieces.
#[derive(Clone, Debug)]
pub struct StyledLine {
    pub base: TextStyle,
    pub spans: Vec<StyledText>,
}

/// A line of the panel as values.
pub open spec fn styled_line_view(l: StyledLine) -> (TextStyle, Seq<(Seq<char>, TextStyle)>) {
    (l.base, styled_seq(l.spans@))
}

/// The label of a metric, padded to its column, muted.
pub open spec fn metric_label_spec(label: Seq<char>, theme: Theme) -> (Seq<char>, TextStyle) {
    (pad_end(label, LABEL_WIDTH as int), text_fg(theme.muted))
}

/// Text in colour `c`.
pub open spec fn text_fg(c: Color) -> TextStyle {
    TextStyle { fg: Some(c), bg: None, bold: false, underlined: false }
}

/// The label of a metric; see `metric_label_spec`.
pub fn metric_label(label: &str, theme: &Theme) -> (r: StyledText)
    ensures
        styled_view(r) == metric_label_spec(label@, *theme),
{
    StyledText { text: pad_end_string(label, LABEL_WIDTH), style: TextStyle::fg(theme.muted) }
}

/// The usage line: the average (marked where it feeds a graph) and the user
/// and kernel parts.
pub open spec fn cpu_usage_spec(snap: CpuSnapshot, state: Option<GraphSourceState>, theme: Theme) -> Seq<(Seq<char>, TextStyle)> {
    seq![metric_label_spec("Usage"@, theme)] + graph_value_spans_spec(
        cpu_average_text(snap.usage_percent),
        text_fg(theme.text),
        state,
        theme,
    ) + seq![
        (
            " (U "@ + cpu_part_text(snap.user_percent) + ", K "@ + cpu_part_text(snap.kernel_percent) + ")"@,
            text_fg(theme.muted),
        ),
    ]
}

/// See `format_cpu_average`.
pub open spec fn cpu_average_text(value: Option<u8>) -> Seq<char> {
    match value {
        Some(v) => pad_start(decimal(min_int(v as int, 100) as nat), 3) + "%"@,
        None => " --"@,
    }
}

/// See `format_cpu_part`.
pub open spec fn cpu_part_text(value: Option<u8>) -> Seq<char> {
    match value {
        Some(v) => decimal(min_int(v as int, 100) as nat) + "%"@,
        None => "--"@,
    }
}

/// See `format_cpu_panel_frequency_mhz`.
pub open spec fn frequency_text(value: Option<u64>) -> Seq<char> {
    match value {
        Some(v) => decimal(v as nat) + " MHz"@,
        None => "--"@,
    }
}

/// Appends `more` to `out`.
pub fn append_styled(out: &mut Vec<StyledText>, more: Vec<StyledText>)
    ensures
        styled_seq(final(out)@) == styled_seq(old(out)@) + styled_seq(more@),
{
    let ghost before = out@;
    let ghost tail = more@;
    let mut more = more;
    out.append(&mut more);
    assert(out@ =~= before + tail);
    assert(styled_seq(out@) =~= styled_seq(before) + styled_seq(tail));
}

/// The usage line; see `cpu_usage_spec`.
pub fn cpu_usage_line(snap: &CpuSnapshot, state: Option<GraphSourceState>, theme: &Theme) -> (r: Vec<StyledText>)
    ensures
        styled_seq(r@) == cpu_usage_spec(*snap, state, *theme),
{
    let mut out = vec![metric_label("Usage", theme)];
    let average = format_cpu_average(snap.usage_percent);
    append_styled(&mut out, graph_value_spans(average.as_str(), TextStyle::fg(theme.text), state, theme));
    let mut parts = String::from_str(" (U ");
    let user = format_cpu_part(snap.user_percent);
    parts.append(user.as_str());
    parts.append(", K ");
    let kernel = format_cpu_part(snap.kernel_percent);
    parts.append(kernel.as_str());
    parts.append(")");
    let ghost before = out@;
    out.push(StyledText { text: parts, style: TextStyle::fg(theme.muted) });
    assert(styled_seq(out@) =~= styled_seq(before).push(styled_view(out@.last())));
    assert(styled_seq(out@) =~= cpu_usage_spec(*snap, state, *theme));
    out
}

/// Whether some logical processor is an efficiency core.
pub open spec fn has_efficiency_core(kinds: Seq<Option<CpuCoreKind>>) -> bool {
    exists|i: int| 0 <= i < kinds.len() && kinds[i] == Some(CpuCoreKind::Efficiency)
}

/// The frequency line: the performance cores' frequency (the current one
/// where that is unknown), and the efficiency cores' frequency when the CPU
/// has efficiency cores.
pub open spec fn cpu_frequency_spec(snap: CpuSnapshot, theme: Theme) -> Seq<(Seq<char>, TextStyle)> {
    let primary = match snap.p_core_mhz {
        Some(v) => Some(v),
        None => snap.current_mhz,
    };
    seq![
        metric_label_spec("Freq(P/E)"@, theme),
        (
            if has_efficiency_core(snap.core_kinds@) {
                frequency_text(primary) + " / "@ + frequency_text(snap.e_core_mhz)
            } else {
                frequency_text(primary)
            },
            text_fg(theme.text),
        ),
    ]
}

/// The frequency line; see `cpu_frequency_spec`.
pub fn cpu_frequency_line(snap: &CpuSnapshot, theme: &Theme) -> (r: Vec<StyledText>)
    ensures
        styled_seq(r@) == cpu_frequency_spec(*snap, *theme),
{
    let mut has_e_core = false;
    let mut i: usize = 0;
    while i < snap.core_kinds.len()
        invariant
            i <= snap.core_kinds@.len(),
            has_e_core == exists|j: int| 0 <= j < i && snap.core_kinds@[j] == Some(CpuCoreKind::Efficiency),
        decreases snap.core_kinds@.len() - i,
    {
        if snap.core_kinds[i] == Some(CpuCoreKind::Efficiency) {
            has_e_core = true;
        }
        i = i + 1;
    }
    let primary = match snap.p_core_mhz {
        Some(v) => Some(v),
        None => snap.current_mhz,
    };
    let mut value = format_cpu_panel_frequency_mhz(primary);
    if has_e_core {
        value.append(" / ");
        let e = format_cpu_panel_frequency_mhz(snap.e_core_mhz);
        value.append(e.as_str());
    }
    let out = vec![metric_label("Freq(P/E)", theme), StyledText { text: value, style: TextStyle::fg(theme.text) }];
    assert(styled_seq(out@) =~= cpu_frequency_spec(*snap, *theme));
    out
}

/// A count line: its label and the count (`--` when unknown), marked where
/// it feeds a graph.
pub open spec fn cpu_count_spec(label: Seq<char>, value: Option<Seq<char>>, state: Option<GraphSourceState>, theme: Theme) -> Seq<(Seq<char>, TextStyle)> {
    seq![metric_label_spec(label, theme)] + graph_value_spans_spec(
        match value {
            Some(v) => v,
            None => "--"@,
        },
        text_fg(theme.text),
        state,
        theme,
    )
}

/// A count line; see `cpu_count_spec`.
pub fn cpu_count_line(label: &str, value: Option<String>, state: Option<GraphSourceState>, theme: &Theme) -> (r: Vec<StyledText>)
    ensures
        styled_seq(r@) == cpu_count_spec(
            label@,
            match value {
                Some(v) => Some(v@),
                None => None,
            },
            state,
            *theme,
        ),
{
    let shown = match value {
        Some(v) => v,
        None => String::from_str("--"),
    };
    let mut out = vec![metric_label(label, theme)];
    append_styled(&mut out, graph_value_spans(shown.as_str(), TextStyle::fg(theme.text), state, theme));
    out
}

/// The look of the per-core button: raised while hovered, on the selection
/// colour while picked in the focused panel, plain otherwise.
pub open spec fn per_core_style(state: CpuPanelState, theme: Theme) -> TextStyle {
    if state.per_core_hovered {
        TextStyle { fg: Some(theme.text), bg: Some(theme.focus_surface), bold: true, underlined: false }
    } else if state.focused && state.per_core_selected {
        TextStyle { fg: Some(theme.text), bg: Some(theme.table_selection_surface), bold: false, underlined: false }
    } else {
        text_fg(theme.text)
    }
}

/// The per-core button's line.
pub fn per_core_button_line(state: &CpuPanelState, theme: &Theme) -> (r: Vec<StyledText>)
    ensures
        styled_seq(r@) == seq![(PER_CORE_BUTTON_LABEL@, per_core_style(*state, *theme))],
{
    let style = if state.per_core_hovered {
        TextStyle { fg: Some(theme.text), bg: Some(theme.focus_surface), bold: true, underlined: false }
    } else if state.focused && state.per_core_selected {
        TextStyle { fg: Some(theme.text), bg: Some(theme.table_selection_surface), bold: false, underlined: false }
    } else {
        TextStyle::fg(theme.text)
    };
    let out = vec![StyledText { text: String::from_str(PER_CORE_BUTTON_LABEL), style }];
    assert(styled_seq(out@) =~= seq![(PER_CORE_BUTTON_LABEL@, per_core_style(*state, *theme))]);
    out
}

/// The row of the picked metric, or of the per-core button when none is.
pub open spec fn selected_row_spec(metric: Option<CpuMetric>) -> u16 {
    match metric {
        Some(CpuMetric::ThreadCount) => THREADS_ROW,
        Some(CpuMetric::ProcessCount) => PROCESSES_ROW,
        Some(_) => USAGE_ROW,
        None => PER_CORE_ROW,
    }
}

/// The lines of the CPU panel, at most `height`: usage, frequency, threads,
/// processes and the per-core button; in the focused panel the row of the
/// picked metric lies on the selection colour.
pub open spec fn cpu_panel_lines_spec(snap: CpuSnapshot, state: CpuPanelState, theme: Theme, height: int) -> Seq<(TextStyle, Seq<(Seq<char>, TextStyle)>)> {
    let plain = TextStyle { fg: None, bg: None, bold: false, underlined: false };
    let marked = TextStyle { fg: None, bg: Some(theme.table_selection_surface), bold: false, underlined: false };
    let row = selected_row_spec(state.selected_metric);
    let base = |i: int| if state.focused && row != PER_CORE_ROW && i == row { marked } else { plain };
    let all = seq![
        (base(0), cpu_usage_spec(snap, state.usage_graph, theme)),
        (base(1), cpu_frequency_spec(snap, theme)),
        (base(2), cpu_count_spec("Threads"@, match snap.thread_count {
            Some(t) => Some(grouped(t as nat)),
            None => None,
        }, state.threads_graph, theme)),
        (base(3), cpu_count_spec("Processes"@, Some(grouped(snap.process_count as nat)), state.processes_graph, theme)),
        (base(4), seq![(PER_CORE_BUTTON_LABEL@, per_core_style(state, theme))]),
    ];
    all.take(min_int(height, 5))
}

/// The lines of the CPU panel; see `cpu_panel_lines_spec`.
pub fn cpu_panel_lines(snap: &CpuSnapshot, state: &CpuPanelState, theme: &Theme, height: u16) -> (r: Vec<StyledLine>)
    ensures
        r@.len() == min_int(height as int, 5),
        forall|i: int| 0 <= i < r@.len() ==> #[trigger] styled_line_view(r@[i]) == cpu_panel_lines_spec(*snap, *state, *theme, height as int)[i],
{
    let row = match state.selected_metric {
        Some(CpuMetric::ThreadCount) => THREADS_ROW,
        Some(CpuMetric::ProcessCount) => PROCESSES_ROW,
        Some(_) => USAGE_ROW,
        None => PER_CORE_ROW,
    };
    let threads = match snap.thread_count {
        Some(t) => Some(format_integer(t)),
        None => None,
    };
    let processes = format_integer(snap.process_count);
    let marked = TextStyle { fg: None, bg: Some(theme.table_selection_surface), bold: false, underlined: false };
    let focused_row = state.focused && row != PER_CORE_ROW;
    let mut out: Vec<StyledLine> = Vec::new();
    out.push(StyledLine {
        base: if focused_row && row == 0 { marked } else { TextStyle::plain() },
        spans: cpu_usage_line(snap, state.usage_graph, theme),
    });
    out.push(StyledLine {
        base: if focused_row && row == 1 { marked } else { TextStyle::plain() },
        spans: cpu_frequency_line(snap, theme),
    });
    out.push(StyledLine {
        base: if focused_row && row == 2 { marked } else { TextStyle::plain() },
        spans: cpu_count_line("Threads", threads, state.threads_graph, theme),
    });
    out.push(StyledLine {
        base: if focused_row && row == 3 { marked } else { TextStyle::plain() },
        spans: cpu_count_line("Processes", Some(processes), state.processes_graph, theme),
    });
    out.push(StyledLine { base: TextStyle::plain(), spans: per_core_button_line(state, theme) });
    out.truncate(height as usize);
    out
}

} // verus!

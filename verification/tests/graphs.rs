use winproc_tui::ui::cpu_core_dialog::CpuCoreKind;
use winproc_tui::ui::cpu_panel::{
    cpu_count_line, cpu_frequency_line, cpu_metric_at_position, cpu_panel_lines, cpu_per_core_button_area,
    cpu_usage_line, CpuMetric, CpuPanelState, CpuSnapshot,
};
use winproc_tui::ui::graph_slot::{graph_value_spans, graph_value_style, GraphSourceState, TextStyle};
use winproc_tui::ui::rect::Rect;
use winproc_tui::ui::theme::themes;

#[test]
fn registered_values_use_underlining_with_bold_reserved_for_the_active_graph() {
    for theme in themes() {
        let base = TextStyle { fg: None, bg: Some(theme.focus_surface), bold: true, underlined: false };
        let inactive = graph_value_style(base, Some(GraphSourceState { ordinal: 0, active: false }), &theme);
        let active = graph_value_style(base, Some(GraphSourceState { ordinal: 1, active: true }), &theme);

        assert_eq!(inactive.fg, Some(theme.active_series));
        assert_eq!(inactive.bg, Some(theme.focus_surface));
        assert!(inactive.underlined);
        assert!(!inactive.bold);
        assert_eq!(active.fg, Some(theme.active_series));
        assert_eq!(active.bg, Some(theme.focus_surface));
        assert!(active.underlined);
        assert!(active.bold);
    }
}

#[test]
fn unregistered_value_keeps_its_base_style() {
    for theme in themes() {
        let base = TextStyle { fg: Some(theme.text), bg: Some(theme.panel_alt), bold: false, underlined: true };
        let style = graph_value_style(base, None, &theme);

        assert_eq!(style, base);
    }
}

#[test]
fn graph_value_spans_exclude_alignment_padding_from_registration_style() {
    for theme in themes() {
        let base = TextStyle { fg: Some(theme.text), bg: Some(theme.table_selection_surface), bold: false, underlined: false };
        let spans = graph_value_spans("  -- ", base, Some(GraphSourceState { ordinal: 0, active: false }), &theme);

        assert_eq!(spans.len(), 3);
        assert_eq!(spans[0].text, "  ");
        assert_eq!(spans[0].style, base);
        assert_eq!(spans[1].text, "--");
        assert_eq!(spans[1].style.fg, Some(theme.active_series));
        assert_eq!(spans[1].style.bg, Some(theme.table_selection_surface));
        assert!(spans[1].style.underlined);
        assert_eq!(spans[2].text, " ");
        assert_eq!(spans[2].style, base);
    }
}

#[test]
fn blank_value_stays_whole() {
    let theme = themes()[0];
    let spans = graph_value_spans("   ", TextStyle::plain(), None, &theme);
    assert_eq!(spans.len(), 1);
    assert_eq!(spans[0].text, "   ");
    let spans = graph_value_spans("42", TextStyle::plain(), None, &theme);
    assert_eq!(spans.len(), 1);
    assert_eq!(spans[0].text, "42");
}

fn snapshot_with_cores(has_e_core: bool) -> CpuSnapshot {
    CpuSnapshot {
        usage_percent: Some(42),
        user_percent: Some(31),
        kernel_percent: Some(11),
        core_kinds: if has_e_core { vec![Some(CpuCoreKind::Efficiency)] } else { Vec::new() },
        p_core_mhz: Some(3_200),
        current_mhz: Some(3_000),
        e_core_mhz: Some(1_800),
        thread_count: Some(4_335),
        process_count: 214,
    }
}

fn join(spans: &[winproc_tui::ui::graph_slot::StyledText]) -> String {
    spans.iter().map(|s| s.text.as_str()).collect::<String>()
}

#[test]
fn cpu_frequency_omits_e_segment_without_e_cores() {
    let theme = themes()[0];
    let without_e = cpu_frequency_line(&snapshot_with_cores(false), &theme);
    let with_e = cpu_frequency_line(&snapshot_with_cores(true), &theme);
    assert_eq!(join(&without_e), "Freq(P/E)  3200 MHz");
    assert_eq!(join(&with_e), "Freq(P/E)  3200 MHz / 1800 MHz");
}

#[test]
fn cpu_lines_show_usage_and_counts() {
    let theme = themes()[0];
    let snap = snapshot_with_cores(false);
    assert_eq!(join(&cpu_usage_line(&snap, None, &theme)), "Usage       42% (U 31%, K 11%)");
    assert_eq!(join(&cpu_count_line("Threads", None, None, &theme)), "Threads    --");
    let state = CpuPanelState {
        usage_graph: None,
        threads_graph: None,
        processes_graph: None,
        focused: true,
        selected_metric: Some(CpuMetric::ThreadCount),
        per_core_hovered: false,
        per_core_selected: false,
    };
    let lines = cpu_panel_lines(&snap, &state, &theme, 10);
    assert_eq!(lines.len(), 5);
    assert_eq!(join(&lines[2].spans), "Threads    4,335");
    assert_eq!(join(&lines[3].spans), "Processes  214");
    assert_eq!(join(&lines[4].spans), "[Per-core Usage (P/E)]");
    assert_eq!(lines[2].base.bg, Some(theme.table_selection_surface));
    assert_eq!(lines[0].base.bg, None);
    assert_eq!(cpu_panel_lines(&snap, &state, &theme, 3).len(), 3);
}

#[test]
fn cpu_panel_pointer_targets() {
    let panel = Rect::new(0, 0, 40, 8);
    assert_eq!(cpu_metric_at_position(panel, 5, 1), Some(CpuMetric::CpuAverage));
    assert_eq!(cpu_metric_at_position(panel, 5, 2), None);
    assert_eq!(cpu_metric_at_position(panel, 5, 3), Some(CpuMetric::ThreadCount));
    assert_eq!(cpu_metric_at_position(panel, 5, 4), Some(CpuMetric::ProcessCount));
    assert_eq!(cpu_metric_at_position(panel, 0, 1), None);
    assert_eq!(cpu_per_core_button_area(panel), Some(Rect::new(1, 5, 22, 1)));
    assert_eq!(cpu_per_core_button_area(Rect::new(0, 0, 10, 8)), Some(Rect::new(1, 5, 8, 1)));
    assert_eq!(cpu_per_core_button_area(Rect::new(0, 0, 40, 6)), None);
}

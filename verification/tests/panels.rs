use winproc_tui::ui::cpu_core_dialog::{
    cpu_core_dialog_lines, cpu_core_dialog_modal, cpu_core_dialog_total_rows, cpu_core_line, footer_width, CpuCoreKind,
};
use winproc_tui::ui::styled::Tone;
use winproc_tui::ui::cpu_panel::{format_cpu_average, format_cpu_panel_frequency_mhz, format_cpu_part};
use winproc_tui::ui::format::{format_integer, format_signed_integer};
use winproc_tui::ui::header::{activity_label, truncate_middle, AppActivity};
use winproc_tui::ui::layout::{
    details_samples_content_layout, details_samples_max_width, details_samples_row_capacity,
    effective_graph_columns, graph_workspace_title_label, process_table_required_height,
    GraphSlotLayout, ProcessPanelHeight,
};
use winproc_tui::ui::cpu_panel::StyledLine;
use winproc_tui::ui::graph_slot::{GraphSourceState, StyledText, TextStyle};
use winproc_tui::ui::rect::Rect;
use winproc_tui::ui::system_panel::{
    desired_memory_panel_width, desired_panel_width, format_optional_integer, gpu_title, gpu_usage_lines,
    memory_cell_at, memory_column_areas, memory_usage_columns, starts_numeric_value_span, summary_info_line,
    summary_info_value_spans, summary_line, system_activity_lines, system_info_dialog_area, system_info_dialog_lines,
    top_panel_areas, SummaryInfoStyle,
};
use winproc_tui::ui::theme::{theme_index_by_name, themes, Color};

#[test]
fn cpu_percent_formats_are_compact() {
    assert_eq!(format_cpu_average(Some(42)), " 42%");
    assert_eq!(format_cpu_part(Some(31)), "31%");
    assert_eq!(format_cpu_part(None), "--");
}

#[test]
fn cpu_values_are_held_at_one_hundred_percent() {
    assert_eq!(format_cpu_average(Some(250)), "100%");
    assert_eq!(format_cpu_average(None), " --");
    assert_eq!(format_cpu_part(Some(101)), "100%");
    assert_eq!(format_cpu_panel_frequency_mhz(Some(3200)), "3200 MHz");
    assert_eq!(format_cpu_panel_frequency_mhz(None), "--");
}

#[test]
fn logical_cpu_row_uses_index_kind_and_percent() {
    let (a, b, c) = cpu_core_line(7, 2, 42, Some(CpuCoreKind::Efficiency));
    let text = format!("{a}{b}{c}");

    assert_eq!(text, "CPU  7 (E)   42%");
}

#[test]
fn cpu_core_dialog_sizes_follow_the_core_count() {
    assert_eq!(footer_width(), 58);
    assert_eq!(cpu_core_dialog_total_rows(0), 1);
    assert_eq!(cpu_core_dialog_total_rows(16), 16);
    let modal = cpu_core_dialog_modal(16);
    assert_eq!(modal.content_width, 58);
    assert_eq!(modal.content_height, 16);
    let (a, b, c) = cpu_core_line(3, 1, 7, None);
    assert_eq!(format!("{a}{b}{c}"), "CPU 3 (-)    7%");
    let (a, b, c) = cpu_core_line(12, 2, 100, Some(CpuCoreKind::Performance));
    assert_eq!(format!("{a}{b}{c}"), "CPU 12 (P)  100%");
}

#[test]
fn integers_use_thousands_separators() {
    assert_eq!(format_integer(0), "0");
    assert_eq!(format_integer(999), "999");
    assert_eq!(format_integer(1_000), "1,000");
    assert_eq!(format_integer(12_345_678), "12,345,678");
    assert_eq!(format_integer(1_000_005), "1,000,005");
    assert_eq!(format_signed_integer(123), "+123");
    assert_eq!(format_signed_integer(-30), "-30");
    assert_eq!(format_signed_integer(-1_234_567), "-1,234,567");
    assert_eq!(format_optional_integer(Some(4_335)), "4,335");
    assert_eq!(format_optional_integer(None), "--");
}

#[test]
fn sample_metric_value_column_uses_metric_max_width() {
    const SAMPLE_METRIC_VALUE_WIDTH: usize = winproc_tui::ui::details_panel::SAMPLE_METRIC_VALUE_WIDTH;
    const SAMPLE_DELTA_WIDTH: usize = winproc_tui::ui::details_panel::SAMPLE_DELTA_WIDTH;
    assert_eq!(SAMPLE_METRIC_VALUE_WIDTH, 15);
    assert_eq!(
        format!(
            "{:>SAMPLE_METRIC_VALUE_WIDTH$}",
            format_integer(999_999_999_999)
        )
        .chars()
        .count(),
        SAMPLE_METRIC_VALUE_WIDTH
    );
    assert_eq!(
        format!(
            "{:>SAMPLE_DELTA_WIDTH$}",
            format_signed_integer(99_999_999_999)
        )
        .chars()
        .count(),
        SAMPLE_DELTA_WIDTH
    );
}

#[test]
fn header_labels_and_middle_truncation() {
    assert_eq!(activity_label(AppActivity::Live), "LIVE");
    assert_eq!(activity_label(AppActivity::Recording), "REC");
    assert_eq!(activity_label(AppActivity::LogView), "LOG");
    assert_eq!(truncate_middle("profile", 10), "profile");
    assert_eq!(truncate_middle("investigation-profile", 12), "inv...rofile");
    assert_eq!(truncate_middle("investigation-profile", 3), "...");
    assert_eq!(truncate_middle("investigation-profile", 4), "...le");
}

#[test]
fn short_samples_layout_keeps_one_row_and_the_complete_ab_range_summary() {
    let layout = details_samples_content_layout(9, true, true, true);

    assert_eq!(layout.row_capacity, 1);
    assert!(!layout.show_base_summary);
    assert_eq!(layout.spacer_height, 0);
}

#[test]
fn tall_samples_layout_restores_base_summary_and_spacing() {
    let layout = details_samples_content_layout(14, true, true, true);

    assert_eq!(layout.row_capacity, 3);
    assert!(layout.show_base_summary);
    assert_eq!(layout.spacer_height, 1);
}

#[test]
fn panel_sizes_follow_preferences() {
    assert_eq!(process_table_required_height(4, false, ProcessPanelHeight::Auto), 7);
    assert_eq!(process_table_required_height(40, true, ProcessPanelHeight::Auto), 13);
    assert_eq!(process_table_required_height(40, false, ProcessPanelHeight::Manual(20)), 23);
    assert_eq!(process_table_required_height(40, false, ProcessPanelHeight::Manual(0)), 4);
    assert_eq!(effective_graph_columns(GraphSlotLayout::Auto, 1, 200, 40), 1);
    assert_eq!(effective_graph_columns(GraphSlotLayout::Auto, 5, 200, 40), 3);
    assert_eq!(effective_graph_columns(GraphSlotLayout::TwoColumns, 5, 200, 40), 2);
    assert_eq!(effective_graph_columns(GraphSlotLayout::ThreeColumns, 5, 70, 40), 1);
    assert_eq!(details_samples_max_width(true), 50);
    assert_eq!(details_samples_max_width(false), 33);
    assert_eq!(details_samples_row_capacity(14, true, true, true), 3);
    assert_eq!(graph_workspace_title_label(1, 60), "GRAPHS · 1 Slot · Span 60s");
    assert_eq!(graph_workspace_title_label(3, 300), "GRAPHS · 3 Slots · Span 300s");
}

#[test]
fn numeric_spans_start_after_separators() {
    assert!(starts_numeric_value_span(None, '4'));
    assert!(starts_numeric_value_span(Some(' '), '.'));
    assert!(starts_numeric_value_span(Some('('), '1'));
    assert!(!starts_numeric_value_span(Some('x'), '1'));
    assert!(!starts_numeric_value_span(None, 'a'));
}

#[test]
fn built_in_themes_are_four_dark_color_schemes() {
    let all = themes();
    assert_eq!(all.len(), 4);
    assert_eq!(
        all.iter().map(|theme| theme.name).collect::<Vec<_>>(),
        ["Green", "Yellow", "Orange", "Cyan"]
    );
    for theme in all {
        assert_eq!(theme.background, Color::Rgb(12, 13, 14));
        assert_eq!(theme.panel, Color::Rgb(17, 19, 21));
        assert_eq!(theme.text, Color::Rgb(230, 226, 218));
    }
}

#[test]
fn built_in_themes_separate_focus_selection_and_semantic_status_colors() {
    for theme in themes() {
        assert_ne!(theme.focus_border, theme.active_series);
        assert_ne!(theme.key_hint, theme.focus_border);
        assert_ne!(theme.table_multi_selection_surface, theme.panel);
        assert_ne!(
            theme.table_multi_selection_surface,
            theme.table_column_surface
        );
        assert_ne!(theme.table_selection_surface, theme.table_column_surface);
        assert_ne!(
            theme.table_selection_surface,
            theme.table_intersection_surface
        );
        assert_ne!(theme.table_column_surface, theme.table_intersection_surface);
        assert_ne!(theme.warning, theme.tracked_color);
    }

    for theme in themes() {
        assert_eq!(theme.active_series, theme.tracked_color);
    }
}

#[test]
fn theme_lookup_keeps_legacy_names_compatible() {
    assert_eq!(theme_index_by_name("Green"), 0);
    assert_eq!(theme_index_by_name("yellow"), 1);
    assert_eq!(theme_index_by_name("ORANGE"), 2);
    assert_eq!(theme_index_by_name("Cyan"), 3);
    assert_eq!(theme_index_by_name("Multi"), 3);
    assert_eq!(theme_index_by_name("Dark"), 0);
    assert_eq!(theme_index_by_name("Light"), 0);
    assert_eq!(theme_index_by_name("Neutral Light"), 0);
    assert_eq!(theme_index_by_name("Ocean Pop"), 0);
    assert_eq!(theme_index_by_name("unknown"), 0);
}

#[test]
fn cpu_core_dialog_lists_each_core_or_says_why_not() {
    let cores: Vec<(u8, Option<CpuCoreKind>)> = (0..11).map(|i| (i as u8 * 12, Some(CpuCoreKind::Performance))).collect();
    let lines = cpu_core_dialog_lines(&cores, false);
    assert_eq!(lines.len(), 11);
    let text: Vec<String> = lines.iter().map(|line| line.iter().map(|piece| piece.text.as_str()).collect()).collect();
    assert_eq!(text[0], "CPU  0 (P)    0%");
    assert_eq!(text[10], "CPU 10 (P)  100%");
    assert_eq!(lines[3][1].tone, Tone::Muted);
    let none = cpu_core_dialog_lines(&vec![], true);
    assert_eq!(none.len(), 1);
    assert_eq!(none[0][0].text, "Per-core usage is not recorded in logs.");
    assert_eq!(none[0][0].tone, Tone::Muted);
    assert_eq!(cpu_core_dialog_lines(&vec![], false)[0][0].text, "Per-core usage is unavailable.");
}

fn joined(spans: &[StyledText]) -> String {
    spans.iter().map(|span| span.text.as_str()).collect()
}

#[test]
fn cache_and_standby_lines_show_single_value_without_empty_total() {
    let theme = themes()[0];
    let line = summary_line("Cache", 17, Some("1,714 MB"), None, None, TextStyle::fg(theme.text), &theme);
    let text = joined(&line);
    assert_eq!(text.trim(), "Cache            1,714 MB");
    assert!(!text.contains('/'));
}

#[test]
fn memory_value_with_commas_uses_one_text_color_span() {
    let theme = themes()[0];
    let line = summary_line(
        "Physical Memory",
        17,
        Some("14,915 MB"),
        Some("34,089 MB"),
        None,
        TextStyle::fg(theme.text),
        &theme,
    );
    assert_eq!(line[1].text, "14,915 MB / 34,089 MB");
    assert_eq!(line[1].style.fg, Some(theme.text));
}

#[test]
fn summary_lines_show_unknown_amounts_and_suffixes() {
    let theme = themes()[0];
    let style = TextStyle::fg(theme.text);
    assert_eq!(joined(&summary_line("Commit", 8, None, Some("9 MB"), None, style, &theme)), "Commit  -- / 9 MB");
    assert_eq!(joined(&summary_line("Commit", 8, None, None, Some(""), style, &theme)), "Commit  --");
    let with_suffix = summary_line("Pool", 6, Some("3 MB"), None, Some("peak"), style, &theme);
    assert_eq!(joined(&with_suffix), "Pool  3 MB peak");
    assert_eq!(with_suffix[3].style.fg, Some(theme.muted));
}

#[test]
fn measured_values_split_numbers_from_units() {
    let theme = themes()[0];
    let spans = summary_info_value_spans("16 GB (2 x 8,192.5 MB)", &theme);
    let parts: Vec<(&str, bool)> =
        spans.iter().map(|span| (span.text.as_str(), span.style.fg == Some(theme.text))).collect();
    assert_eq!(
        parts,
        vec![("16", true), (" GB (", false), ("2", true), (" x ", false), ("8,192.5", true), (" MB)", false)]
    );
    assert_eq!(joined(&spans), "16 GB (2 x 8,192.5 MB)");
    let glued = summary_info_value_spans("v1.2 x64", &theme);
    assert_eq!(glued.len(), 1);
    assert_eq!(glued[0].style.fg, Some(theme.muted));
    assert!(summary_info_value_spans("", &theme).is_empty());
}

#[test]
fn system_info_rows_pad_labels_and_style_values() {
    let theme = themes()[0];
    let plain = summary_info_line("Host", 7, "DESK-1", SummaryInfoStyle::Plain, &theme);
    assert_eq!(plain[0].text, "Host    ");
    assert_eq!(plain[1].text, "DESK-1");
    assert_eq!(plain[1].style.fg, Some(theme.text));
    let fields = vec![("Memory".to_string(), "32 GB".to_string(), SummaryInfoStyle::Measurement)];
    let lines = system_info_dialog_lines(&fields, &theme);
    assert_eq!(lines.len(), 1);
    assert_eq!(lines[0][0].text, "Memory            ");
    assert_eq!(lines[0][1].text, "32");
    assert_eq!(lines[0][2].text, " GB");
    assert_eq!(system_info_dialog_area(Rect::new(0, 0, 180, 40)), Rect::new(40, 9, 100, 21));
    assert_eq!(system_info_dialog_area(Rect::new(5, 2, 60, 10)), Rect::new(5, 2, 60, 10));
}

#[test]
fn activity_rows_mark_graphs_and_selection() {
    let theme = themes()[0];
    let values: Vec<String> = vec![" 240 Mbps", " 320 Mbps", "  10 MB/s", "  20 MB/s", "   2"]
        .into_iter()
        .map(String::from)
        .collect();
    let states = vec![None, None, None, None, Some(GraphSourceState { ordinal: 0, active: true })];
    let lines = system_activity_lines(&values, &states, Some(2), &theme);
    let texts: Vec<String> = lines.iter().map(|line| joined(&line.spans)).collect();
    assert_eq!(texts, vec!["Net Rx   240 Mbps", "Net Tx   320 Mbps", "Disk R    10 MB/s", "Disk W    20 MB/s", "Disk Q     2"]);
    assert_eq!(lines[2].base.bg, Some(theme.table_selection_surface));
    assert_eq!(lines[1].base.bg, None);
    assert_eq!(lines[4].spans[1].style.fg, Some(theme.active_series));
    assert!(lines[4].spans[1].style.underlined);
}

fn memory_stats() -> Vec<(Option<String>, Option<String>)> {
    vec![
        (Some("14,915 MB".to_string()), Some("34,089 MB".to_string())),
        (Some("512 MB".to_string()), None),
        (None, None),
        (Some("1,024 MB".to_string()), None),
        (Some("20,000 MB".to_string()), Some("40,000 MB".to_string())),
        (Some("2,769 MB".to_string()), None),
        (Some("2,097 MB".to_string()), None),
    ]
}

#[test]
fn memory_columns_align_their_values() {
    let theme = themes()[0];
    let (left, right) = memory_usage_columns(&memory_stats(), (Some(25), Some(15)), &vec![None; 9], Some(6), &theme);
    let left_texts: Vec<String> = left.iter().map(|line| joined(&line.spans)).collect();
    let right_texts: Vec<String> = right.iter().map(|line| joined(&line.spans)).collect();
    assert_eq!(left_texts[0], "In use           14,915 MB / 34,089 MB");
    assert_eq!(left_texts[2], "Standby          --");
    assert_eq!(left_texts[3], "Free + Zeroed    1,024 MB");
    assert_eq!(right_texts[0], "Paged Pool       2,769 MB");
    assert_eq!(right_texts[2], "Pages In/s       25");
    assert_eq!(right_texts[3], "Pages Out/s      15");
    let column = right_texts[0].find("2,769").unwrap();
    assert_eq!(right_texts[1].find("2,097").unwrap(), column);
    assert_eq!(right_texts[2].find("25").unwrap(), column);
    assert_eq!(right[1].base.bg, Some(theme.table_selection_surface));
    assert_eq!(left[0].base.bg, None);
}

#[test]
fn gpu_rows_align_engine_and_memory_values() {
    let theme = themes()[0];
    let percents: Vec<String> = vec![" 56%", " 12%", " 18%"].into_iter().map(String::from).collect();
    let suffixes: Vec<String> = vec!["", " max  34% 1E", " max  24% 1E"].into_iter().map(String::from).collect();
    let memory = vec![
        (Some("821 MB".to_string()), Some("8,406 MB".to_string())),
        (Some("54 MB".to_string()), Some("17,044 MB".to_string())),
    ];
    let lines = gpu_usage_lines(&percents, &suffixes, &memory, &vec![None; 5], None, &theme);
    let texts: Vec<String> = lines.iter().map(|line| joined(&line.spans)).collect();
    let column = texts[1].find(" 12%").unwrap();
    assert_eq!(texts[2].find(" 18%").unwrap(), column);
    assert_eq!(texts[3].find("821 MB").unwrap(), column);
    assert_eq!(texts[4].find("54 MB").unwrap(), column);
    assert_eq!(texts[1], "Encode     12% max  34% 1E");
    assert_eq!(gpu_title(1, 2), "GPU 1/2");
}

fn line_of(text: &str) -> StyledLine {
    StyledLine { base: TextStyle::plain(), spans: vec![StyledText { text: text.to_string(), style: TextStyle::plain() }] }
}

#[test]
fn system_panels_take_their_asked_widths_when_all_fit() {
    let lines = vec![line_of("In use           14,915 MB"), line_of("abc")];
    assert_eq!(desired_panel_width(&lines, 14), 28);
    assert_eq!(desired_panel_width(&vec![], 14), 14);
    assert_eq!(desired_memory_panel_width(&lines, &vec![line_of("Paged Pool       2,769 MB")], 28), 54);
    let area = Rect::new(0, 3, 180, 7);
    let (memory, gpu, activity, cpu) = top_panel_areas(area, 55, 40, 20, 30, true);
    assert_eq!(memory, Rect::new(0, 3, 55, 7));
    assert_eq!(gpu, Rect::new(55, 3, 40, 7));
    assert_eq!(activity, Rect::new(95, 3, 20, 7));
    assert_eq!(cpu, Rect::new(115, 3, 65, 7));
    let (memory, gpu, activity, cpu) = top_panel_areas(Rect::new(0, 3, 100, 7), 55, 40, 20, 30, false);
    assert_eq!(memory.width, 0);
    assert_eq!(gpu, Rect::new(0, 3, 40, 7));
    assert_eq!(activity, Rect::new(40, 3, 20, 7));
    assert_eq!(cpu, Rect::new(60, 3, 40, 7));
    let (_, _, activity, cpu) = top_panel_areas(Rect::new(0, 0, 60, 7), 55, 40, 20, 30, true);
    assert_eq!(activity.width, 0);
    assert_eq!(cpu, Rect::new(55, 0, 5, 7));
}

#[test]
fn memory_cells_are_found_by_column_and_row() {
    let left = vec![line_of("In use           14,915 MB"), line_of("Modified         512 MB")];
    let inner = Rect::new(1, 4, 60, 5);
    let (overview, pressure) = memory_column_areas(inner, &left);
    assert_eq!(overview, Rect::new(1, 4, 26, 5));
    assert_eq!(pressure, Rect::new(28, 4, 33, 5));
    let panel = Rect::new(0, 3, 62, 7);
    assert_eq!(memory_cell_at(panel, &left, 5, 4, 3, 5), Some((0, 1)));
    assert_eq!(memory_cell_at(panel, &left, 5, 4, 30, 7), Some((1, 3)));
    assert_eq!(memory_cell_at(panel, &left, 5, 4, 30, 8), None);
    assert_eq!(memory_cell_at(panel, &left, 5, 4, 27, 5), None);
    assert_eq!(memory_cell_at(panel, &left, 5, 4, 3, 3), None);
    assert_eq!(memory_cell_at(Rect::new(0, 0, 1, 9), &left, 5, 4, 0, 1), None);
}

use winproc_tui::ui::network::{
    content_layout as network_content_layout, detail_lines, empty_text, filter_window, mode_label,
    notice_text, rows_offset, scrollbar_area as network_scrollbar_area, secondary_shortcuts,
    shortcut_line, shortcuts, status_text, EndpointDetail,
};
use winproc_tui::ui::process_modules::truncate_end as module_truncate_end;
use winproc_tui::ui::process_table::{
    active_filter_query, compact_path_start, metric_column_render_width,
    process_metric_overflow_indicator, process_name_matches_query, process_table_state_segments,
    process_table_visible_column_count, process_table_visible_metric_range,
    process_tracked_only_label, process_tree_disclosure_offset, process_view_mode_label,
    text_width, tracked_symbol, visible_metric_columns, ProcessTitleSegmentKind,
    TABLE_BORDER_WIDTH, TABLE_COLUMN_SPACING, TRACKED_COLUMN_WIDTH, TRUNCATION_MARKER,
};
use winproc_tui::ui::rect::Rect;

/// Width of the PID column.
const PID_WIDTH: u16 = 6;
/// Width of the process name column.
const NAME_WIDTH: u16 = 24;

/// Widths of the 24 metric columns of the table, in their order: CPU, the
/// memory sizes, the object counts, GPU use, the .NET heaps, the allocation
/// rate, GPU memory, the I/O rates and the full path.
fn metric_widths() -> Vec<u16> {
    vec![
        7, 11, 11, 11, 11, 9, 9, 9, 9, 7, 11, 11, 11, 11, 11, 11, 11, 11, 13, 11, 11, 13, 13, 30,
    ]
}

#[test]
fn metric_overflow_indicator_reports_selected_column_window() {
    let all = (0..24).collect::<Vec<usize>>();
    let leading = all[..3].to_vec();
    let offset = all[9..12].to_vec();

    assert_eq!(process_metric_overflow_indicator(&all, 24), None);
    assert_eq!(
        process_metric_overflow_indicator(&leading, 24).as_deref(),
        Some("‹ 1–3/24 ›")
    );
    assert_eq!(
        process_metric_overflow_indicator(&offset, 24).as_deref(),
        Some("‹ 10–12/24 ›")
    );
    assert_eq!(
        process_metric_overflow_indicator(&Vec::new(), 24).as_deref(),
        Some("‹ 0/24 ›")
    );
}

#[test]
fn visible_metric_columns_keep_pid_and_process_width_reserved() {
    let widths = metric_widths();

    let visible = visible_metric_columns(100, &widths, 0, PID_WIDTH, NAME_WIDTH);

    assert!(!visible.is_empty());
    let metric_width = visible
        .iter()
        .map(|index| metric_column_render_width(widths[*index]))
        .sum::<u16>();
    let total_columns = 3 + visible.len() as u16;
    let total_width = TRACKED_COLUMN_WIDTH
        + PID_WIDTH
        + NAME_WIDTH
        + metric_width
        + TABLE_COLUMN_SPACING.saturating_mul(total_columns.saturating_sub(1));
    assert!(total_width <= 100 - TABLE_BORDER_WIDTH);
}

#[test]
fn visible_metric_columns_drop_metrics_when_fixed_columns_need_space() {
    let widths = metric_widths();

    let visible = visible_metric_columns(35, &widths, 0, PID_WIDTH, NAME_WIDTH);

    assert!(visible.is_empty());
    assert!(PID_WIDTH >= 5);
}

#[test]
fn visible_metric_columns_start_at_requested_offset() {
    let widths = metric_widths();
    let offset = widths.len() - 2;

    let visible = visible_metric_columns(72, &widths, offset, PID_WIDTH, NAME_WIDTH);

    assert!(!visible.is_empty());
    assert_eq!(visible.first().copied(), Some(offset));
}

#[test]
fn custom_widths_change_the_visible_metric_range() {
    let default_widths = metric_widths();
    let default_visible = visible_metric_columns(72, &default_widths, 0, PID_WIDTH, NAME_WIDTH);
    let mut custom_widths = metric_widths();
    custom_widths[1] += 20;

    let custom_visible = visible_metric_columns(72, &custom_widths, 0, PID_WIDTH, NAME_WIDTH);

    assert!(custom_visible.len() < default_visible.len());
    assert_eq!(custom_visible.first(), default_visible.first());
}

#[test]
fn rendering_at_different_widths_does_not_mutate_saved_widths() {
    let mut widths = metric_widths();
    widths[1] = 80;

    let _ = visible_metric_columns(40, &widths, 0, PID_WIDTH, NAME_WIDTH);
    let _ = visible_metric_columns(160, &widths, 0, PID_WIDTH, NAME_WIDTH);

    assert_eq!(widths[1], 80);
}

#[test]
fn visible_range_and_column_count_follow_the_shown_metrics() {
    let widths = metric_widths();
    // 72 columns leave 37 for metrics: CPU (8) and two memory columns (12 each).
    assert_eq!(visible_metric_columns(72, &widths, 0, PID_WIDTH, NAME_WIDTH), vec![0, 1, 2]);
    assert_eq!(process_table_visible_metric_range(72, &widths, 0, PID_WIDTH, NAME_WIDTH), (0, 3));
    assert_eq!(process_table_visible_column_count(72, &widths, 0, PID_WIDTH, NAME_WIDTH), 5);
    assert_eq!(process_table_visible_metric_range(35, &widths, 4, PID_WIDTH, NAME_WIDTH), (4, 4));
    assert_eq!(visible_metric_columns(72, &widths, 99, PID_WIDTH, NAME_WIDTH), Vec::<usize>::new());
    assert_eq!(visible_metric_columns(72, &Vec::new(), 0, PID_WIDTH, NAME_WIDTH), Vec::<usize>::new());
}

#[test]
fn path_truncation_keeps_path_start() {
    assert_eq!(
        module_truncate_end(r"C:\very\long\path\module.dll", 16),
        "C:\\very\\long\\..."
    );
}

#[test]
fn truncation_marker_uses_one_terminal_cell() {
    assert_eq!(text_width(TRUNCATION_MARKER), 1);
    assert_eq!(ratatui::text::Line::from(TRUNCATION_MARKER).width(), 1);
}

#[test]
fn compact_path_keeps_the_path_tail() {
    assert_eq!(
        compact_path_start(r"C:\very\long\workspace\target\debug\app.exe", 18),
        r"⋯get\debug\app.exe"
    );
    assert_eq!(compact_path_start("short.exe", 18), "short.exe");
    assert_eq!(compact_path_start("abc", 0), "");
}

#[test]
fn process_name_cells_and_tree_offsets() {
    assert_eq!(tracked_symbol(true), "T");
    assert_eq!(tracked_symbol(false), " ");
    assert_eq!(process_tree_disclosure_offset(3, 40), 6);
    assert_eq!(process_tree_disclosure_offset(30, 10), 8);
    assert_eq!(process_tree_disclosure_offset(3, 1), 0);
    assert!(process_name_matches_query("WinProc-TUI.exe", "proc-t"));
    assert!(!process_name_matches_query("cargo.exe", "rustc"));
}

#[test]
fn filter_query_is_trimmed() {
    assert_eq!(active_filter_query("  cargo \t"), Some("cargo".to_string()));
    assert_eq!(active_filter_query("a b"), Some("a b".to_string()));
    assert_eq!(active_filter_query(" \u{3000}\n"), None);
    assert_eq!(active_filter_query(""), None);
}

#[test]
fn title_segments_describe_the_table_state() {
    assert_eq!(process_view_mode_label(true, "Tree"), "Flat (Tree unavailable in LOG)");
    assert_eq!(process_view_mode_label(false, "Tree"), "Tree(v)");
    assert_eq!(process_tracked_only_label(true), "☑ Tracked-only(Shift+T)");
    assert_eq!(process_tracked_only_label(false), "☐ Tracked-only(Shift+T)");

    let plain = process_table_state_segments(false, "", 3, 120, false, "Flat", false);
    assert_eq!(plain.len(), 3);
    assert_eq!(plain[0].kind, ProcessTitleSegmentKind::VisibleCount);
    assert_eq!(plain[0].label, "120 visible");
    assert_eq!(plain[1].label, "Flat(v)");
    assert_eq!(plain[2].kind, ProcessTitleSegmentKind::TrackedOnly);

    let filtered = process_table_state_segments(true, "car", 1, 4, false, "Tree", true);
    assert_eq!(filtered.len(), 4);
    assert_eq!(filtered[0].label, "1 match · 4 visible");
    assert_eq!(filtered[2].label, "☑ Tracked-only(Shift+T)");
    assert_eq!(filtered[3].kind, ProcessTitleSegmentKind::Filter);
    assert_eq!(filtered[3].label, "Filter \"car\"");

    let many = process_table_state_segments(true, "c", 2, 9, false, "Tree", false);
    assert_eq!(many[0].label, "2 matches · 9 visible");
    let same = process_table_state_segments(true, "c", 9, 9, false, "Tree", false);
    assert_eq!(same[0].label, "9 visible");
}

#[test]
fn network_body_rows_and_scrollbar() {
    let layout = network_content_layout(Rect::new(0, 0, 100, 20));
    assert_eq!(layout.status, Rect::new(0, 0, 100, 1));
    assert_eq!(layout.filter, Rect::new(0, 1, 81, 1));
    assert_eq!(layout.mode, Rect::new(81, 1, 19, 1));
    assert_eq!(layout.rows, Rect::new(0, 4, 100, 16));
    let narrow = network_content_layout(Rect::new(0, 0, 10, 2));
    assert_eq!(narrow.filter, Rect::new(0, 1, 0, 1));
    assert_eq!(narrow.mode, Rect::new(0, 1, 10, 1));
    assert_eq!(narrow.header, Rect::new(0, 3, 10, 0));
    assert_eq!(
        network_scrollbar_area(Rect::new(0, 0, 100, 20), false, 0, 17),
        Some(Rect::new(99, 4, 1, 16))
    );
    assert_eq!(network_scrollbar_area(Rect::new(0, 0, 100, 20), false, 0, 16), None);
}

#[test]
fn network_filter_and_shortcuts() {
    assert_eq!(filter_window("abcdef", 6, 4), ("def".to_string(), 3));
    assert_eq!(filter_window("abcdef", 0, 4), ("abc…".to_string(), 0));
    assert_eq!(filter_window("abcdef", 6, 0), (String::new(), 0));
    assert_eq!(
        shortcuts(true, false, true, 200),
        vec![("Enter/Esc", "done"), ("Ctrl+U", "clear"), ("←/→", "cursor")]
    );
    assert_eq!(shortcuts(false, false, true, 9), vec![("Esc", "close")]);
    assert_eq!(
        shortcut_line(&vec![("Longer", "shortcut"), ("Esc", "close")], 12),
        vec![("Esc", "close")]
    );
}

#[test]
fn network_texts_follow_the_capture() {
    assert_eq!(mode_label(true, true), "[Alt+A] All");
    assert_eq!(mode_label(true, false), "[Alt+A] Listen+UDP");
    assert_eq!(mode_label(false, true), "[a] All endpoints");
    assert_eq!(mode_label(false, false), "[a] Listen + UDP");
    let failures = vec!["tcp6".to_string(), "udp".to_string()];
    assert_eq!(notice_text(None, true, &failures, 0, 200, false), "Partial: tcp6; udp");
    assert_eq!(notice_text(None, true, &Vec::new(), 3, 200, false), "3 owners unavailable or unverified");
    assert_eq!(
        notice_text(None, false, &Vec::new(), 3, 100, true),
        "Enter: full endpoint details (remote address included)"
    );
    assert_eq!(
        notice_text(None, true, &Vec::new(), 0, 100, false),
        "Space: full endpoint details (remote address included)"
    );
    assert_eq!(notice_text(None, false, &Vec::new(), 0, 120, false), "");
    assert_eq!(notice_text(Some("note"), true, &failures, 3, 100, false), "note");
    assert_eq!(empty_text(true), "No matching endpoints in the available tables (partial capture).");
    assert_eq!(empty_text(false), "No matching endpoints.");
    assert_eq!(status_text(true, false, "12:00:01", 5, 4), "Captured 12:00:01 · 5 endpoints · 4/4 tables");
    assert_eq!(status_text(true, true, "12:00:01", 5, 3), "Updating · 12:00:01 · 5 endpoints · 3/4 tables");
    assert_eq!(status_text(false, true, "", 0, 0), "Loading endpoints...");
    assert_eq!(status_text(false, false, "", 0, 0), "No capture available");
    assert_eq!(secondary_shortcuts(false, false).len(), 4);
    assert_eq!(secondary_shortcuts(true, true)[0], ("Backspace/Delete", "edit"));
    assert_eq!(rows_offset(50, 20, 10), 10);
    assert_eq!(rows_offset(3, 20, 0), 3);
}

#[test]
fn network_details_list_the_endpoint_and_capture() {
    let endpoint = EndpointDetail {
        protocol: "TCP".to_string(),
        local: "127.0.0.1:80".to_string(),
        remote: None,
        state: "LISTEN".to_string(),
        pid: 4,
        process_name: "System".to_string(),
        owner_verified: true,
    };
    let lines = detail_lines(
        Some(&endpoint),
        Some(("2024-01-01 10:00:00.000", "10:00:01.000")),
        &vec!["udp6".to_string()],
        Some("note"),
        200,
    );
    assert_eq!(
        lines,
        vec![
            "Protocol: TCP",
            "Local: 127.0.0.1:80",
            "Remote: --",
            "State: LISTEN",
            "PID: 4",
            "Process: System",
            "Owner: Verified during capture",
            "Capture: 2024-01-01 10:00:00.000 - 10:00:01.000",
            "Partial: udp6",
            "note",
        ]
    );
    let narrow = detail_lines(Some(&endpoint), None, &Vec::new(), None, 6);
    assert_eq!(narrow[0], "Proto");
    assert_eq!(narrow[12], "PID: ");
    assert_eq!(narrow[13], "4");
    assert_eq!(detail_lines(None, None, &Vec::new(), None, 200), vec!["No endpoint selected."]);
}

use winproc_tui::ui::column_picker::{
    column_picker_content_height, column_picker_content_width, column_picker_index_at,
    column_picker_modal, column_picker_row_for_index, column_picker_row_width,
    column_picker_scroll_max_for_page_size, column_picker_shortcut_width, column_picker_lines, description_style,
};
use winproc_tui::ui::file_users::{
    browser_layout as file_users_layout, browser_scroll_position, content_layout, detail_lines,
    empty_results_text, fit, footer_shortcuts, notice_text, progress_text, query_window,
    scrollbar_area, shown_results, status, table_line, FileSearchProgress, FileUserMatch,
    FileUsersFocus,
};
use winproc_tui::ui::graph_reorder::{
    graph_reorder_content_width, graph_reorder_index_at, graph_reorder_modal,
    graph_reorder_row_for_index, graph_target_label, GraphTarget,
};
use winproc_tui::ui::help::{
    column_line_count, column_max_width, help_content_line_count, help_content_width, help_hint, help_lines,
    help_title, render_column, section_header_row, shortcut_row, ColumnRow,
    render_column_widths, section_header_width, section_key_width, shortcut_width, HelpItem,
    HelpSection,
};
use winproc_tui::ui::main_menu::{
    main_menu_content_width, main_menu_index_at, main_menu_item_area, main_menu_lines, main_menu_modal,
};
use winproc_tui::ui::theme::themes;
use winproc_tui::ui::process_info_dialog::{
    contains_point, format_duration, format_process_identity, generic_scrollbar_area,
    info_value, process_info_dialog_layout, process_info_title_target, process_info_total_rows, process_info_page_size_for_screen, process_info_tab_at,
    scrollbar_position, shortcut_spans, tab_areas, tab_row_count, wrap_display_width,
    ProcessInfoTab,
};
use winproc_tui::ui::cpu_core_dialog::CpuCoreKind;
use winproc_tui::ui::process_table::process_table_focused;
use winproc_tui::ui::rect::Rect;
use winproc_tui::ui::scheduling::{
    focused_scheduling_control, scheduling_control_at, scheduling_layout, scheduling_lines, SchedulingControl,
};
use winproc_tui::ui::styled::{Piece, Tone};
use winproc_tui::ui::widgets::confirm_dialog::centered_dialog_rect;

const TABS: [&str; 5] = ["Metrics", "Image", "Files", "DLLs", "Environment"];

fn tabs() -> Vec<&'static str> {
    TABS.to_vec()
}

#[test]
fn wrapped_image_value_keeps_all_text() {
    assert_eq!(wrap_display_width("abcdefghij", 4), ["abcd", "efgh", "ij"]);
}

#[test]
fn tab_strip_wraps_when_the_labels_do_not_fit() {
    let labels = tabs();
    // 7 + 5 + 5 + 4 + 11 characters and two columns of padding each.
    assert_eq!(tab_row_count(42, &labels), 1);
    assert_eq!(tab_row_count(41, &labels), 2);
    let areas = tab_areas(Rect::new(10, 5, 42, 2), &labels);
    assert_eq!(areas[0], Rect::new(10, 5, 9, 1));
    assert_eq!(areas[1], Rect::new(19, 5, 7, 1));
    assert_eq!(areas[4], Rect::new(39, 5, 13, 1));
    let wrapped = tab_areas(Rect::new(0, 0, 20, 2), &labels);
    assert_eq!(wrapped[0], Rect::new(0, 0, 9, 1));
    assert_eq!(wrapped[1], Rect::new(9, 0, 7, 1));
    assert_eq!(wrapped[2], Rect::new(0, 1, 7, 1));
    assert_eq!(wrapped[3], Rect::new(7, 1, 6, 1));
    assert_eq!(wrapped[4], Rect::new(13, 1, 7, 1));
    assert_eq!(tab_areas(Rect::new(0, 0, 0, 2), &labels), vec![Rect::new(0, 0, 0, 0); 5]);
}

#[test]
fn dialog_splits_its_body_into_tabs_and_page() {
    let labels = tabs();
    let layout = process_info_dialog_layout(Rect::new(0, 1, 200, 58), &labels);
    assert_eq!(layout.area, Rect::new(29, 18, 142, 24));
    assert_eq!(layout.tabs, Rect::new(31, 19, 138, 1));
    assert_eq!(layout.content, Rect::new(31, 20, 138, 19));
    assert_eq!(layout.footer, Rect::new(30, 40, 140, 1));
    assert!(layout.tabs.bottom() <= layout.content.y);
    assert_eq!(layout.content.bottom() + 1, layout.footer.y);
    let screen = Rect::new(0, 0, 200, 60);
    assert_eq!(process_info_page_size_for_screen(screen, &labels), 19);
    assert_eq!(process_info_tab_at(screen, &labels, 31, 18), Some(0));
    assert_eq!(process_info_tab_at(screen, &labels, 41, 18), Some(1));
    assert_eq!(process_info_tab_at(screen, &labels, 41, 19), None);
}

#[test]
fn page_scrollbar_and_points() {
    let area = Rect::new(2, 3, 10, 4);
    assert!(contains_point(area, 2, 3));
    assert!(!contains_point(area, 12, 3));
    assert_eq!(generic_scrollbar_area(area, 5, 4), Some(Rect::new(11, 3, 1, 4)));
    assert_eq!(generic_scrollbar_area(area, 4, 4), None);
    assert_eq!(generic_scrollbar_area(area, 2, 0), Some(Rect::new(11, 3, 1, 4)));
    assert_eq!(generic_scrollbar_area(Rect::new(0, 0, 0, 4), 50, 4), None);
    assert_eq!(scrollbar_position(100, 10, 0), 0);
    assert_eq!(scrollbar_position(100, 10, 45), 50);
    assert_eq!(scrollbar_position(100, 10, 90), 99);
}

#[test]
fn info_texts_and_durations() {
    assert_eq!(info_value(Some("x64")), "x64");
    assert_eq!(info_value(None), "--");
    assert_eq!(format_process_identity("app.exe", 4242), "app.exe / PID 4242");
    assert_eq!(format_duration(3_725), "01:02:05");
    assert_eq!(format_duration(-5), "00:00:00");
    assert_eq!(format_duration(360_000), "100:00:00");
}

#[test]
fn footer_keeps_the_shortcuts_that_fit() {
    let all = shortcut_spans(false, true, false, ProcessInfoTab::Metrics, 200);
    assert_eq!(
        all,
        vec![("↑/↓", "scroll"), ("Ctrl+←/→", "tabs"), ("Tab", "next"), ("Esc/Enter", "close")]
    );
    // "↑/↓ scroll" takes 10 columns, "Ctrl+←/→ tabs" 13 more and two between.
    let narrow = shortcut_spans(false, true, false, ProcessInfoTab::Metrics, 26);
    assert_eq!(narrow, vec![("↑/↓", "scroll"), ("Ctrl+←/→", "tabs")]);
    let skipping = shortcut_spans(false, true, false, ProcessInfoTab::Metrics, 35);
    assert_eq!(skipping, vec![("↑/↓", "scroll"), ("Ctrl+←/→", "tabs"), ("Tab", "next")]);
    let tabs = shortcut_spans(true, false, false, ProcessInfoTab::Image, 200);
    assert_eq!(tabs, vec![("←/→", "tabs"), ("↑/↓", "scroll"), ("Esc", "close")]);
    let detail = shortcut_spans(false, true, true, ProcessInfoTab::Environment, 200);
    assert_eq!(detail[1], ("Ctrl+C", "copy variable"));
}

#[test]
fn file_user_cells_fit_their_columns() {
    assert_eq!(fit("abc", 5, false), "abc  ");
    assert_eq!(fit("abcdef", 4, false), "abc…");
    assert_eq!(fit("abcdef", 4, true), "…def");
    assert_eq!(fit("abcdef", 0, true), "");
    assert_eq!(fit("a\tb", 3, false), "a b");
    assert_eq!(
        table_line("42", "app.exe", "3", r"C:\data\file.txt", 40),
        format!("{:<8} {:<10} {:<7} {}", "42", "app.exe", "3", "…ta\\file.txt")
    );
}

#[test]
fn file_user_query_keeps_the_cursor_in_sight() {
    assert_eq!(query_window("abcdef", 6, 4), ("def ".to_string(), 3));
    assert_eq!(query_window("abcdef", 2, 4), ("abc…".to_string(), 2));
    assert_eq!(query_window("abc", 3, 0), (String::new(), 0));
    assert_eq!(query_window("héllo", 3, 10), ("héllo     ".to_string(), 2));
}

#[test]
fn file_user_body_rows_and_status() {
    let area = Rect::new(5, 10, 60, 20);
    let layout = content_layout(area);
    assert_eq!(layout.query, Rect::new(5, 10, 60, 1));
    assert_eq!(layout.header, Rect::new(5, 15, 60, 1));
    assert_eq!(layout.rows, Rect::new(5, 16, 60, 14));
    let short = content_layout(Rect::new(0, 0, 10, 3));
    assert_eq!(short.progress, Rect::new(0, 3, 10, 0));
    assert_eq!(short.rows, Rect::new(0, 3, 10, 0));
    assert_eq!(scrollbar_area(area, false, 0, 15), Some(Rect::new(64, 16, 1, 14)));
    assert_eq!(scrollbar_area(area, false, 0, 14), None);
    assert_eq!(scrollbar_area(area, true, 21, 0), Some(Rect::new(64, 10, 1, 20)));
    assert_eq!(status(false, false, None, false, 0), "Ready · 0 matches");
    assert_eq!(status(true, true, None, false, 3), "Verifying owner · 3 matches");
    assert_eq!(
        status(false, false, Some(("Stopped at limit", false)), false, 5000),
        "Stopped at limit (partial scope) · 5000 matches"
    );
    assert_eq!(status(false, true, None, true, 1), "Searching (partial scope) · 1 matches");
    let modal = file_users_layout(Rect::new(0, 0, 200, 53));
    assert_eq!(modal.area, Rect::new(18, 11, 164, 29));
}

#[test]
fn file_user_details_list_the_selection_and_counts() {
    let selected = FileUserMatch {
        path: r"C:\data\file.txt".to_string(),
        pid: 42,
        process_name: "app.exe".to_string(),
        handle_count: 2,
    };
    let progress = FileSearchProgress {
        total_processes: 10,
        inspected_processes: 9,
        denied_processes: 1,
        exited_processes: 0,
        unavailable_processes: 0,
        total_handles: 1_000,
        inspected_handles: 900,
        unreadable_handles: 3,
        unnamed_disk_handles: 4,
        skipped_handles: 50,
    };
    let lines = detail_lines(
        Some(&selected),
        "Ready · 1 matches",
        Some(("Path", "file.txt")),
        progress,
        None,
        Some("cleanup failed"),
        200,
    );
    assert_eq!(lines[0], r"C:\data\file.txt");
    assert_eq!(lines[1], "PID: 42  Process: app.exe");
    assert_eq!(lines[2], "Matched handles: 2");
    assert_eq!(lines[3], "");
    assert_eq!(lines[4], "Ready · 1 matches");
    assert_eq!(lines[5], "Path: file.txt");
    assert_eq!(lines[6], "Processes in handle table: 10");
    assert_eq!(lines[16], "Handles not reached: 50");
    assert_eq!(lines[17], "cleanup failed");
    assert!(lines[18].starts_with("Limits: 30s overall"));
    assert_eq!(lines.len(), 20);
    let narrow = detail_lines(None, "Ready · 0 matches", None, progress, Some("denied"), None, 11);
    assert_eq!(narrow[0], "Ready · 0 ");
    assert_eq!(narrow[1], "matches");
    assert!(narrow.iter().all(|line| line.chars().count() <= 10));
    assert!(narrow.iter().any(|line| line == "Error: den"));
}

#[test]
fn column_picker_sizes_follow_its_columns() {
    let columns = vec![("CPU", "Processor time"), ("Private", "Private bytes")];
    assert_eq!(column_picker_shortcut_width(), 41);
    assert_eq!(column_picker_row_width("CPU", "Processor time"), 33);
    assert_eq!(column_picker_row_width("Very long label", "x"), 25);
    assert_eq!(column_picker_content_width(&columns), 41);
    assert_eq!(column_picker_content_height(24), 26);
    assert_eq!(column_picker_row_for_index(3), 5);
    let modal = column_picker_modal(&columns);
    assert_eq!(modal.content_height, 4);
    assert_eq!(column_picker_scroll_max_for_page_size(&columns, 1), 3);
    let area = Rect::new(0, 0, 100, 40);
    assert_eq!(column_picker_index_at(&columns, area, 30, 17, 0), None);
    assert_eq!(column_picker_index_at(&columns, area, 30, 18, 1), Some(0));
}

#[test]
fn help_sizes_follow_its_sections() {
    let navigation = HelpSection {
        title: "Navigation",
        focus_hint: Some("table"),
        rows: vec![
            HelpItem { key: "↑/↓", label: "move" },
            HelpItem { key: "PgUp", label: "page up" },
        ],
    };
    let other = HelpSection {
        title: "Other",
        focus_hint: None,
        rows: vec![HelpItem { key: "q", label: "quit" }],
    };
    assert_eq!(section_key_width(&navigation), 4);
    assert_eq!(section_header_width(&navigation), 19);
    assert_eq!(section_header_width(&other), 5);
    let left = vec![navigation, other];
    assert_eq!(render_column_widths(&left), 19);
    assert_eq!(column_line_count(&left), 6);
    assert_eq!(shortcut_width(&vec![("Esc", "close"), ("?", "help")]), 17);
    let right: Vec<HelpSection> = Vec::new();
    assert_eq!(help_content_line_count(&left, &right), 9);
    assert_eq!(help_content_width(&left, &right, "Title", "Hint", &vec![("Esc", "close")]), 24);
    assert_eq!(
        help_hint(1_200, 3_600),
        "Footer: focused actions. History: 1,200/3,600 normal/tracked. Scheme colors mark active items; T marks tracked."
    );
    assert_eq!(help_title("1.2.3"), "winproc-tui 1.2.3 · Keyboard shortcuts");
}

#[test]
fn graph_reorder_sizes_follow_its_rows() {
    assert_eq!(
        graph_target_label(&GraphTarget::Process { name: "worker.exe".to_string(), pid: 42 }),
        "worker.exe (PID 42)"
    );
    assert_eq!(
        graph_target_label(&GraphTarget::System { panel_label: "CPU".to_string() }),
        "CPU"
    );
    let short = vec![("CPU".to_string(), "System".to_string())];
    assert_eq!(graph_reorder_content_width(&short), 51);
    let long = vec![("Private bytes".to_string(), "x".repeat(40))];
    assert_eq!(graph_reorder_content_width(&long), 68);
    assert_eq!(graph_reorder_row_for_index(2), 3);
    let modal = graph_reorder_modal(&short, 2);
    assert_eq!(modal.content_height, 2);
    assert_eq!(modal.footer_height, 1);
    let area = Rect::new(0, 0, 100, 40);
    assert_eq!(graph_reorder_index_at(&short, 2, 1, 0, area, 50, 17), None);
    assert_eq!(graph_reorder_index_at(&short, 2, 1, 0, area, 50, 18), None);
    assert_eq!(graph_reorder_index_at(&short, 2, 1, 0, area, 50, 19), Some(0));
    assert_eq!(graph_reorder_index_at(&short, 2, 1, 1, area, 50, 19), None);
}

#[test]
fn main_menu_rows_and_hits() {
    let rows = vec![(0u8, "File".to_string()), (1u8, "Open recording".to_string())];
    assert_eq!(main_menu_content_width(&rows), 18);
    let modal = main_menu_modal(&rows);
    assert_eq!(modal.content_width, 18);
    assert_eq!(modal.content_height, 2);
    let area = Rect::new(0, 0, 80, 24);
    assert_eq!(main_menu_index_at(&rows, area, 5, 2), Some(0));
    assert_eq!(main_menu_index_at(&rows, area, 5, 3), Some(1));
    assert_eq!(main_menu_index_at(&rows, area, 5, 4), None);
    assert_eq!(main_menu_index_at(&rows, area, 0, 2), None);
}

#[test]
fn confirm_dialog_is_centred_and_held_to_the_area() {
    assert_eq!(centered_dialog_rect(Rect::new(0, 0, 100, 40), 50, 10), Rect::new(25, 15, 50, 10));
    assert_eq!(centered_dialog_rect(Rect::new(10, 5, 30, 8), 50, 10), Rect::new(10, 5, 30, 8));
    assert_eq!(centered_dialog_rect(Rect::new(0, 0, 11, 11), 4, 4), Rect::new(3, 3, 4, 4));
}

fn priority_labels() -> Vec<&'static str> {
    vec!["Idle", "Below normal", "Normal", "Above normal", "High"]
}

fn cpu_kinds() -> Vec<Option<CpuCoreKind>> {
    vec![Some(CpuCoreKind::Performance), Some(CpuCoreKind::Performance), Some(CpuCoreKind::Efficiency)]
}

#[test]
fn scheduling_controls_flow_and_form_a_grid() {
    let labels = priority_labels();
    let layout = scheduling_layout(&labels, Some(2), &vec![0, 1, 2, 3], &cpu_kinds(), 0b0101, 40).unwrap();
    let areas: Vec<Rect> = layout.cells.iter().map(|cell| cell.area).collect();
    assert_eq!(layout.cells[0].text, "( ) Idle");
    assert_eq!(layout.cells[2].text, "(●) Normal");
    assert_eq!(areas[0], Rect::new(9, 1, 8, 1));
    assert_eq!(areas[1], Rect::new(19, 1, 16, 1));
    assert_eq!(areas[2], Rect::new(0, 2, 10, 1));
    assert_eq!(areas[4], Rect::new(30, 2, 8, 1));
    assert_eq!(layout.affinity_heading, 4);
    assert_eq!(layout.cells[5].control, SchedulingControl::Affinity(0));
    assert_eq!(layout.cells[5].text, "[x] CPU  0 (P)");
    assert_eq!(layout.cells[6].text, "[ ] CPU  1 (P)");
    assert_eq!(layout.cells[8].text, "[ ] CPU  3 (Unknown)");
    assert_eq!(areas[5], Rect::new(0, 5, 22, 1));
    assert_eq!(areas[8], Rect::new(0, 8, 22, 1));
    assert_eq!(layout.summary_start, 10);

    let wide = scheduling_layout(&labels, None, &vec![0, 1, 2, 3], &cpu_kinds(), 0, 60).unwrap();
    assert_eq!(wide.cells[2].area, Rect::new(37, 1, 10, 1));
    assert_eq!(wide.cells[3].area, Rect::new(0, 2, 16, 1));
    assert_eq!(wide.cells[6].area, Rect::new(22, 5, 22, 1));
    assert_eq!(wide.cells[7].area, Rect::new(0, 6, 22, 1));
    assert_eq!(wide.summary_start, 8);
}

#[test]
fn scheduling_hits_find_the_control_under_the_pointer() {
    let labels = priority_labels();
    let cpus = vec![0, 1, 2, 3];
    let kinds = cpu_kinds();
    let area = Rect::new(10, 20, 60, 10);
    assert_eq!(
        scheduling_control_at(&labels, None, &cpus, &kinds, 0, false, 0, area, 33, 25),
        Some(SchedulingControl::Affinity(1))
    );
    assert_eq!(
        scheduling_control_at(&labels, None, &cpus, &kinds, 0, false, 0, area, 19, 21),
        Some(SchedulingControl::Priority(0))
    );
    assert_eq!(
        scheduling_control_at(&labels, None, &cpus, &kinds, 0, false, 4, area, 10, 21),
        Some(SchedulingControl::Affinity(0))
    );
    assert_eq!(scheduling_control_at(&labels, None, &cpus, &kinds, 0, true, 0, area, 19, 21), None);
    assert_eq!(scheduling_control_at(&labels, None, &cpus, &kinds, 0, false, 0, area, 5, 21), None);
    assert_eq!(scheduling_control_at(&labels, None, &cpus, &kinds, 0, false, 0, area, 68, 25), None);
}

#[test]
fn file_user_browser_texts_follow_the_search() {
    assert_eq!(notice_text(Some("n"), Some("w"), None, true), "n");
    assert_eq!(notice_text(None, Some("w"), Some("e"), true), "w");
    assert_eq!(notice_text(None, None, Some("e"), false), "e");
    assert_eq!(notice_text(None, None, None, true), "Query changed; start a search to update results");
    assert_eq!(notice_text(None, None, None, false), "");
    assert_eq!(empty_results_text(false, true), "Enter a filename or path, then start a search.");
    assert_eq!(empty_results_text(true, true), "No matches yet in the inspected scope.");
    assert_eq!(empty_results_text(true, false), "No matches found in the inspected scope.");
    let progress = FileSearchProgress {
        total_processes: 10,
        inspected_processes: 9,
        denied_processes: 1,
        exited_processes: 0,
        unavailable_processes: 0,
        total_handles: 1_000,
        inspected_handles: 900,
        unreadable_handles: 3,
        unnamed_disk_handles: 4,
        skipped_handles: 50,
    };
    assert_eq!(progress_text(progress), "Processes 9/10  Handles 900/1000");
    let (first, second) = footer_shortcuts(false, FileUsersFocus::Query, false);
    assert_eq!(first, vec![("Enter", "search"), ("Esc", "close"), ("Tab", "focus"), ("Ctrl+U", "search")]);
    assert_eq!(second, vec![("←/→", "cursor"), ("Backspace/Delete", "edit")]);
    let (first, second) = footer_shortcuts(true, FileUsersFocus::Results, true);
    assert_eq!((first[0], first[1]), (("Enter", "back"), ("Esc", "back")));
    assert_eq!(second[0], ("↑/↓", "scroll"));
    let (first, second) = footer_shortcuts(false, FileUsersFocus::Results, true);
    assert_eq!((first[0], first[1]), (("Enter", "info"), ("Esc", "cancel")));
    assert_eq!(second[1], ("Space", "details"));
    assert_eq!(shown_results(10, 3, 4), (3, 7));
    assert_eq!(shown_results(10, 8, 4), (8, 10));
    assert_eq!(shown_results(10, 20, 4), (10, 10));
    assert_eq!(browser_scroll_position(100, 10, 45), 49);
    assert_eq!(browser_scroll_position(100, 10, 90), 99);
    assert_eq!(browser_scroll_position(5, 10, 3), 0);
}

#[test]
fn main_menu_item_cells_and_lines() {
    let rows = vec![(0u8, "File".to_string()), (1u8, "Open recording".to_string())];
    let area = Rect::new(0, 0, 80, 24);
    assert_eq!(main_menu_item_area(&rows, area, 1).map(|r| (r.y, r.width, r.height)), Some((3, 18, 1)));
    assert_eq!(main_menu_item_area(&rows, area, 2), None);
    let theme = themes()[0];
    let lines = main_menu_lines(&rows, 1, Some(0), &theme);
    assert_eq!(lines.len(), 2);
    assert_eq!(lines[0].text, "  File            ");
    assert_eq!(lines[1].text, ">   Open recording");
    assert_eq!(lines[0].style.bg, Some(theme.focus_surface));
    assert_eq!(lines[1].style.bg, Some(theme.table_selection_surface));
    assert!(lines[1].style.bold);
}

fn help_sections() -> (Vec<HelpSection>, Vec<HelpSection>) {
    let navigation = HelpSection {
        title: "Navigation",
        focus_hint: Some("table"),
        rows: vec![HelpItem { key: "↑/↓", label: "move" }, HelpItem { key: "PgUp", label: "page up" }],
    };
    let other = HelpSection { title: "Other", focus_hint: None, rows: vec![HelpItem { key: "q", label: "quit" }] };
    let right = HelpSection { title: "Graphs", focus_hint: None, rows: vec![HelpItem { key: "g", label: "graph" }] };
    (vec![navigation, other], vec![right])
}

fn joined(spans: &[winproc_tui::ui::graph_slot::StyledText]) -> String {
    spans.iter().map(|s| s.text.as_str()).collect()
}

#[test]
fn help_columns_render_side_by_side() {
    let theme = themes()[0];
    let (left, right) = help_sections();
    let rows = render_column(&left, &theme);
    assert_eq!(rows.len(), 6);
    assert_eq!(joined(&rows[0].spans), "Navigation  (table)");
    assert_eq!(rows[0].width, 19);
    assert_eq!(joined(&rows[1].spans), "↑/↓   move");
    assert_eq!(rows[1].width, 10);
    assert_eq!(rows[3].width, 0);
    assert!(rows[3].spans.is_empty());
    assert_eq!(column_max_width(&rows), 19);
    assert_eq!(rows[1].spans[0].style.fg, Some(theme.key_hint));
    assert_eq!(joined(&section_header_row(&right[0], &theme).spans), "Graphs");
    assert_eq!(joined(&shortcut_row(&HelpItem { key: "q", label: "quit" }, 3, &theme).spans), "q    quit");
    assert_eq!(ColumnRow::blank().width, 0);

    let lines = help_lines(&left, &right, "1.2.3", 1_200, 3_600, &theme);
    assert_eq!(lines.len(), 9);
    assert_eq!(joined(&lines[0]), "winproc-tui 1.2.3 · Keyboard shortcuts");
    assert!(lines[0][0].style.bold);
    assert_eq!(joined(&lines[2]), "");
    assert_eq!(joined(&lines[3]), "Navigation  (table)  │  Graphs");
    assert_eq!(joined(&lines[4]), format!("{:<19}  │  g  graph", "↑/↓   move"));
    assert_eq!(joined(&lines[8]), format!("{:<19}  │  ", "q  quit"));
}

fn piece_rows(lines: &[Vec<Piece>]) -> Vec<Vec<(Tone, String)>> {
    lines.iter().map(|line| line.iter().map(|piece| (piece.tone, piece.text.clone())).collect()).collect()
}

fn owned(row: &[(Tone, &str)]) -> Vec<(Tone, String)> {
    row.iter().map(|(tone, text)| (*tone, text.to_string())).collect()
}

#[test]
fn scheduling_lines_place_controls_on_their_rows() {
    let labels = priority_labels();
    let layout = scheduling_layout(&labels, Some(2), &vec![0, 1, 2, 3], &cpu_kinds(), 0b0101, 40).unwrap();
    let focused = focused_scheduling_control(true, false, 2, 0);
    assert_eq!(focused, Some(SchedulingControl::Priority(2)));
    let warnings = vec!["Run the monitor as administrator to change these".to_string()];
    let lines = scheduling_lines(false, &layout, focused, Some("Realtime"), &vec![], &warnings, 39);
    let rows = piece_rows(&lines);
    assert_eq!(rows.len(), 13);
    assert!(rows[0].is_empty());
    assert_eq!(
        rows[1],
        owned(&[
            (Tone::Title, "Priority "),
            (Tone::Plain, ""),
            (Tone::Text, "( ) Idle"),
            (Tone::Plain, "  "),
            (Tone::Text, "( ) Below normal"),
        ])
    );
    assert_eq!(
        rows[2],
        owned(&[
            (Tone::Plain, ""),
            (Tone::Focused, "(●) Normal"),
            (Tone::Plain, "  "),
            (Tone::Text, "( ) Above normal"),
            (Tone::Plain, "  "),
            (Tone::Text, "( ) High"),
        ])
    );
    assert!(rows[3].is_empty());
    assert_eq!(rows[4], owned(&[(Tone::Title, "Affinity"), (Tone::Plain, " (Group 0)")]));
    assert_eq!(rows[5], owned(&[(Tone::Plain, ""), (Tone::Text, "[x] CPU  0 (P)")]));
    assert_eq!(rows[8], owned(&[(Tone::Plain, ""), (Tone::Text, "[ ] CPU  3 (Unknown)")]));
    assert!(rows[9].is_empty());
    assert_eq!(rows[10], owned(&[(Tone::Plain, "Priority: Realtime (not selectable)")]));
    assert_eq!(rows[11], owned(&[(Tone::Warning, "Run the monitor as administrator to ch")]));
    assert_eq!(rows[12], owned(&[(Tone::Warning, "ange these")]));
}

#[test]
fn scheduling_lines_in_the_log_view_only_say_so() {
    let labels = priority_labels();
    let layout = scheduling_layout(&labels, None, &vec![0], &cpu_kinds(), 0, 20).unwrap();
    let lines = scheduling_lines(true, &layout, None, None, &vec!["failed".to_string()], &vec![], 12);
    assert_eq!(
        piece_rows(&lines),
        vec![
            owned(&[(Tone::Plain, "Not recorde")]),
            owned(&[(Tone::Plain, "d in Log vi")]),
            owned(&[(Tone::Plain, "ew.")]),
        ]
    );
    assert_eq!(focused_scheduling_control(false, true, 1, 3), None);
    assert_eq!(focused_scheduling_control(true, true, 1, 3), Some(SchedulingControl::Affinity(3)));
}

#[test]
fn column_picker_rows_mark_shown_columns_and_cursor() {
    let theme = themes()[0];
    let columns = vec![("CPU", "Processor use"), ("Private", "Private bytes"), ("Path", "Full image path")];
    let lines = column_picker_lines(&columns, &vec![0, 2], 1, &theme);
    assert_eq!(lines.len(), 5);
    assert_eq!(lines[0][0].text, "Select process columns");
    assert!(lines[0][0].style.bold);
    assert!(lines[1].is_empty());
    assert_eq!(lines[2][0].text, "  [x] CPU       ");
    assert_eq!(lines[2][1].text, " / ");
    assert_eq!(lines[2][2].text, "Processor use");
    assert_eq!(lines[2][2].style, description_style(false, true, &theme));
    assert_eq!(lines[2][2].style.fg, Some(theme.muted));
    assert_eq!(lines[3][0].text, "> [ ] Private   ");
    assert_eq!(lines[3][0].style.bg, Some(theme.highlight));
    assert_eq!(lines[3][2].style.bg, Some(theme.highlight));
    assert_eq!(lines[4][0].text, "  [x] Path      ");
    let hidden = column_picker_lines(&columns, &vec![], 9, &theme);
    assert_eq!(hidden[2][0].style.fg, Some(theme.muted));
    assert_eq!(hidden[2][2].style.fg, Some(theme.exited));
}

#[test]
fn process_info_title_names_the_process() {
    assert_eq!(process_info_title_target("notepad.exe", 4242), " · notepad.exe · PID 4242");
}

#[test]
fn process_table_takes_the_focus_while_typing_outside_dialogs() {
    assert!(process_table_focused(true, false, false, true));
    assert!(process_table_focused(false, true, false, false));
    assert!(process_table_focused(false, false, true, false));
    assert!(!process_table_focused(false, true, true, true));
    assert!(!process_table_focused(false, false, false, false));
}

#[test]
fn process_info_rows_follow_the_open_tab() {
    assert_eq!(process_info_total_rows(ProcessInfoTab::Metrics, 1, 2, 3, 4, 5), 1);
    assert_eq!(process_info_total_rows(ProcessInfoTab::Image, 1, 2, 3, 4, 5), 2);
    assert_eq!(process_info_total_rows(ProcessInfoTab::Files, 1, 2, 3, 4, 5), 3);
    assert_eq!(process_info_total_rows(ProcessInfoTab::Dlls, 1, 2, 3, 4, 5), 4);
    assert_eq!(process_info_total_rows(ProcessInfoTab::Environment, 1, 2, 3, 4, 5), 5);
}

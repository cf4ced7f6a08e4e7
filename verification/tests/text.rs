use winproc_tui::ui::investigation_profiles::{
    graph_layout_label, input_view, on_off, profile_row_text, startup_description, truncate,
    InvestigationStartup,
};
use winproc_tui::ui::open_files::{
    directory_name, file_name, filter_input_text, filter_input_view, filtered_entries, fit_cell,
    fit_cell_start, open_files_scrollbar_position, open_files_total_rows, truncate_end,
    truncate_path_start, OpenFilesSummary,
};
use winproc_tui::ui::process_environment::{column_widths, wrap_display, EnvironmentEntry, NAME_MIN_WIDTH};
use winproc_tui::ui::recording_dialog::{compact_path, path_input_view};
use winproc_tui::ui::text::filter_terms;

#[test]
fn file_name_uses_last_path_segment() {
    assert_eq!(file_name(r"C:\tmp\app.log"), "app.log");
    assert_eq!(file_name("/tmp/app.log"), "app.log");
}

#[test]
fn directory_name_keeps_the_path_before_the_file() {
    assert_eq!(directory_name(r"C:\tmp\app.log"), r"C:\tmp");
    assert_eq!(directory_name("app.log"), "");
    assert_eq!(file_name("app.log"), "app.log");
}

#[test]
fn truncate_path_start_keeps_file_name_side() {
    assert_eq!(
        truncate_path_start(r"C:\very\long\path\app.log", 14),
        r"...ath\app.log"
    );
}

#[test]
fn open_files_scrollbar_position_reaches_end_at_last_viewport() {
    assert_eq!(open_files_scrollbar_position(100, 10, 0), 0);
    assert_eq!(open_files_scrollbar_position(100, 10, 90), 99);
    assert_eq!(open_files_scrollbar_position(100, 10, 900), 99);
}

#[test]
fn open_files_cells_fit_their_columns() {
    assert_eq!(truncate_end("abcdef", 6), "abcdef");
    assert_eq!(truncate_end("abcdefg", 6), "abc...");
    assert_eq!(truncate_end("abcdefg", 2), "..");
    assert_eq!(fit_cell("ab", 4), "ab  ");
    assert_eq!(fit_cell_start("abcdefgh", 6), "...fgh");
    assert_eq!(
        open_files_total_rows(
            false,
            Some(OpenFilesSummary {
                has_error: false,
                inaccessible_handles: 2,
                unnamed_file_handles: 0
            }),
            7
        ),
        11
    );
    assert_eq!(open_files_total_rows(true, None, 7), 1);
}

#[test]
fn open_files_filter_keeps_paths_with_any_word() {
    let paths = vec![
        r"C:\Temp\App.log".to_string(),
        r"C:\Data\notes.txt".to_string(),
        r"D:\cache\blob.bin".to_string(),
    ];
    assert_eq!(filtered_entries(&paths, "app NOTES"), vec![0, 1]);
    assert_eq!(filtered_entries(&paths, "   "), vec![0, 1, 2]);
    assert_eq!(filtered_entries(&paths, "zzz"), Vec::<usize>::new());
    assert_eq!(filter_terms("  Foo\tBAR  "), vec!["foo".to_string(), "bar".to_string()]);
}

#[test]
fn filter_views_keep_the_cursor_in_sight() {
    assert_eq!(filter_input_view("abcdef", 6, 4), ("def".to_string(), 3));
    assert_eq!(filter_input_view("abcdef", 2, 4), ("abcd".to_string(), 2));
    assert_eq!(filter_input_view("abc", 99, 0), (String::new(), 0));
    assert_eq!(filter_input_view("abc", 2, 0), ("c".to_string(), 0));
    assert_eq!(filter_input_text("abcdef", 6, 12), "def");
    assert_eq!(filter_input_view("héllo", 3, 10), ("héllo".to_string(), 2));
}

#[test]
fn narrow_environment_table_keeps_name_and_value_columns() {
    let (name, value) = column_widths(30);
    assert!(name >= NAME_MIN_WIDTH);
    assert!(value > 0);
    assert_eq!(name + value + 1, 30);
}

#[test]
fn long_values_are_wrapped_without_loss() {
    assert_eq!(wrap_display("abcdefghij", 4), ["abcd", "efgh", "ij"]);
}

#[test]
fn environment_filter_matches_names_or_values() {
    let entries = vec![
        EnvironmentEntry { name: "PATH".to_string(), value: r"C:\bin".to_string() },
        EnvironmentEntry { name: "HOME".to_string(), value: "/home/user".to_string() },
    ];
    assert_eq!(
        winproc_tui::ui::process_environment::filtered_entries(&entries, "path"),
        vec![0]
    );
    assert_eq!(
        winproc_tui::ui::process_environment::filtered_entries(&entries, "USER"),
        vec![1]
    );
    assert_eq!(winproc_tui::ui::process_environment::entry_row_prefix(true, Some(2)), 5);
    assert_eq!(
        winproc_tui::ui::process_environment::selected_entry(&vec![4, 9], 1),
        Some(9)
    );
}

#[test]
fn profile_rows_keep_their_suffix() {
    assert_eq!(truncate("investigation", 8), "inves...");
    assert_eq!(truncate("abc", 8), "abc");
    assert_eq!(
        profile_row_text(">", "Default", 3, 12, true, 50),
        format!("> {:<14}   3 tracked  12 Graphs  [current]", "Default")
    );
    assert_eq!(graph_layout_label(2), "2 cols");
    assert_eq!(graph_layout_label(9), "Auto");
    assert_eq!(on_off(true), "On");
    assert_eq!(startup_description(InvestigationStartup::StartEmpty), "Use default investigation settings");
    assert_eq!(input_view("abcdef", 6, 4), ("def".to_string(), 3));
}

#[test]
fn recording_path_views_and_compact_paths() {
    assert_eq!(path_input_view("abcdef", 6, 0), (String::new(), 0));
    assert_eq!(path_input_view("abcdef", 6, 4), ("def".to_string(), 3));
    assert_eq!(compact_path("C:/logs/recording.csv", 12), "C:/...ng.csv");
    assert_eq!(compact_path("short", 12), "short");
}

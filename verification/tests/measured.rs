use winproc_tui::ui::file_users::{fit_cut, pad_cell};
use winproc_tui::ui::graph_slot::{StyledText, TextStyle};
use winproc_tui::ui::layout::{main_panels_from_sections, ProcessPanelHeight};
use winproc_tui::ui::process_modules::truncate_measured;
use winproc_tui::ui::process_table::{
    compact_path_measured, compact_path_start, format_kb_per_sec, format_process_column, process_metric_alignment, truncate_line_measured,
    CellAlignment, MetricColumn, ProcessColumnValues,
};
use winproc_tui::ui::rect::Rect;
use winproc_tui::ui::text::fitting_count;
use winproc_tui::ui::theme::themes;

#[test]
fn fitting_count_takes_widths_while_they_fit() {
    assert_eq!(fitting_count(&vec![2, 1, 3], 3), 2);
    assert_eq!(fitting_count(&vec![2, 1, 3], 1), 0);
    assert_eq!(fitting_count(&vec![2, 1, 3], 9), 3);
}

#[test]
fn truncation_follows_the_measured_widths() {
    let ones = vec![1; 8];
    assert_eq!(truncate_measured("abcdefgh", &ones, 8, 8, false), "abcdefgh");
    assert_eq!(truncate_measured("abcdefgh", &ones, 8, 6, false), "abc...");
    assert_eq!(truncate_measured("abcdefgh", &ones, 8, 6, true), "...fgh");
    assert_eq!(truncate_measured("abcdefgh", &ones, 8, 2, true), "..");
    let twos = vec![2; 8];
    assert_eq!(truncate_measured("abcdefgh", &twos, 16, 7, false), "ab...");
}

#[test]
fn compacted_paths_keep_the_tail_that_fits() {
    let path = "C:/dir/file.exe";
    let ones = vec![1; path.chars().count()];
    assert_eq!(compact_path_measured(path, &ones, 15, 1, 6), "⋯e.exe");
    assert_eq!(compact_path_measured(path, &ones, 15, 1, 20), path);
    assert_eq!(compact_path_measured(path, &ones, 15, 2, 1), "");
}

#[test]
fn fitted_cells_cut_and_pad_by_measured_widths() {
    let text: Vec<char> = "report.txt".chars().collect();
    let ones = vec![1; text.len()];
    let head: String = fit_cut(&text, &ones, 10, 5, false).into_iter().collect();
    assert_eq!(head, "repo…");
    let tail: String = fit_cut(&text, &ones, 10, 5, true).into_iter().collect();
    assert_eq!(tail, "….txt");
    let whole: String = fit_cut(&text, &ones, 10, 12, false).into_iter().collect();
    assert_eq!(pad_cell(whole, 10, 12), "report.txt  ");
    assert!(fit_cut(&text, &ones, 10, 0, false).is_empty());
}

#[test]
fn lines_cut_piece_by_piece_by_measured_widths() {
    let theme = themes()[0];
    let first = TextStyle::fg(theme.text);
    let second = TextStyle::fg(theme.accent);
    let marker = TextStyle::fg(theme.muted);
    let line = vec![
        StyledText { text: "abc".to_string(), style: first },
        StyledText { text: "defg".to_string(), style: second },
    ];
    let cut = truncate_line_measured(line.clone(), &vec![vec![1; 3], vec![1; 4]], &vec![3, 4], 7, 1, 5, marker);
    let parts: Vec<(&str, TextStyle)> = cut.iter().map(|piece| (piece.text.as_str(), piece.style)).collect();
    assert_eq!(parts, vec![("abc", first), ("d", second), ("⋯", marker)]);
    let whole = truncate_line_measured(line.clone(), &vec![vec![1; 3], vec![1; 4]], &vec![3, 4], 7, 1, 7, marker);
    assert_eq!(whole.len(), 2);
    assert!(truncate_line_measured(line, &vec![vec![1; 3], vec![1; 4]], &vec![3, 4], 7, 2, 1, marker).is_empty());
}

#[test]
fn main_panels_split_the_lower_section() {
    let system = Rect::new(0, 1, 120, 8);
    let lower = Rect::new(0, 9, 120, 30);
    let shown = main_panels_from_sections(system, lower, true, 20, false, ProcessPanelHeight::Auto);
    assert_eq!(shown.system, system);
    assert_eq!(shown.processes.area, Rect::new(0, 9, 120, 13));
    assert_eq!(shown.processes.page_size, 10);
    assert_eq!(shown.processes.resize_handle, Some(Rect::new(0, 21, 120, 1)));
    assert_eq!(shown.details, Some(Rect::new(0, 22, 120, 17)));
    let hidden = main_panels_from_sections(system, lower, false, 20, true, ProcessPanelHeight::Auto);
    assert_eq!(hidden.processes.area, lower);
    assert_eq!(hidden.processes.page_size, 26);
    assert!(hidden.processes.show_tracked_total);
    assert_eq!(hidden.details, None);
}

#[test]
fn full_path_column_is_left_aligned_and_keeps_path_tail() {
    assert_eq!(process_metric_alignment(MetricColumn::FullPath), CellAlignment::Left);
    assert_eq!(compact_path_start(r"C:\very\long\workspace\target\debug\app.exe", 18), r"⋯get\debug\app.exe");
}

fn no_values() -> ProcessColumnValues {
    ProcessColumnValues {
        thread_count: None,
        handle_count: None,
        user_object_count: None,
        gdi_object_count: None,
        io_read_bytes_per_sec: None,
        io_write_bytes_per_sec: None,
        executable_path: None,
    }
}

#[test]
fn process_cells_show_counts_paths_and_formatted_values() {
    assert_eq!(process_metric_alignment(MetricColumn::HandleCount), CellAlignment::Right);
    let mut values = no_values();
    values.handle_count = Some(12_345);
    assert_eq!(format_process_column(MetricColumn::HandleCount, &values, None, 8), "12,345");
    assert_eq!(format_process_column(MetricColumn::ThreadCount, &values, None, 8), "--");
    assert_eq!(format_process_column(MetricColumn::FullPath, &values, None, 9), "--");
    values.executable_path = Some(r"C:\apps\tool.exe".to_string());
    assert_eq!(format_process_column(MetricColumn::FullPath, &values, None, 9), r"⋯tool.exe");
    assert_eq!(
        format_process_column(MetricColumn::CpuPercent, &values, Some("12.5%".to_string()), 8),
        "12.5%"
    );
    assert_eq!(format_process_column(MetricColumn::PrivateBytes, &values, None, 8), "--");
}

#[test]
fn process_io_columns_use_decimal_kilobytes_per_second() {
    let mut values = no_values();
    values.io_read_bytes_per_sec = Some(12_345_678);
    values.io_write_bytes_per_sec = Some(98_765_432);
    assert_eq!(format_process_column(MetricColumn::IoReadBytesPerSec, &values, None, 12), "12,346 KB/s");
    assert_eq!(format_process_column(MetricColumn::IoWriteBytesPerSec, &values, None, 12), "98,765 KB/s");
}

#[test]
fn kilobyte_rates_round_to_the_nearest_kilobyte() {
    assert_eq!(format_kb_per_sec(0), "0 KB/s");
    assert_eq!(format_kb_per_sec(499), "0 KB/s");
    assert_eq!(format_kb_per_sec(500), "1 KB/s");
    assert_eq!(format_kb_per_sec(1_234_567_890), "1,234,568 KB/s");
    let mut values = no_values();
    values.io_read_bytes_per_sec = Some(1_500);
    assert_eq!(format_process_column(MetricColumn::IoWriteBytesPerSec, &values, None, 12), "--");
    assert_eq!(format_process_column(MetricColumn::IoReadBytesPerSec, &values, None, 12), "2 KB/s");
}

#[test]
fn unknown_cells_read_dashes_at_any_width() {
    let values = no_values();
    for column in [
        MetricColumn::CpuPercent,
        MetricColumn::PrivateBytes,
        MetricColumn::ThreadCount,
        MetricColumn::GdiObjectCount,
        MetricColumn::IoReadBytesPerSec,
        MetricColumn::IoWriteBytesPerSec,
        MetricColumn::FullPath,
        MetricColumn::DotNetAllocationBytesPerSec,
    ] {
        assert_eq!(format_process_column(column, &values, None, 3), "--");
        assert_eq!(format_process_column(column, &values, None, 40), "--");
    }
}

#[test]
fn only_the_path_cell_changes_with_the_width() {
    let mut values = no_values();
    values.thread_count = Some(1_234_567);
    values.io_write_bytes_per_sec = Some(2_000);
    values.executable_path = Some(r"C:\apps\tool.exe".to_string());
    for column in [MetricColumn::ThreadCount, MetricColumn::IoWriteBytesPerSec, MetricColumn::GpuPercent] {
        assert_eq!(
            format_process_column(column, &values, Some("3.0%".to_string()), 4),
            format_process_column(column, &values, Some("3.0%".to_string()), 30)
        );
    }
    assert_ne!(
        format_process_column(MetricColumn::FullPath, &values, None, 9),
        format_process_column(MetricColumn::FullPath, &values, None, 30)
    );
}

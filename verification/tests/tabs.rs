use winproc_tui::ui::open_files::{
    open_files_filter_cursor, open_files_lines, open_files_scrollbar_area, OpenFileEntry, OpenFilesReport,
};
use winproc_tui::ui::process_environment::{
    environment_filter_cursor, environment_lines, process_environment_index_at,
    process_environment_scrollbar_area, process_environment_total_rows, EnvironmentEntry, EnvironmentReport,
};
use winproc_tui::ui::process_modules::{
    process_module_index_at, process_module_lines, process_modules_total_rows, ModuleEntry, ModulesReport,
};
use winproc_tui::ui::process_info_dialog::{
    labeled_wrapped_lines, metric_header_line, metric_value_line, process_info_image_lines, process_info_metrics_lines,
    MetricRowText, ProcessImageValues, ProcessMetricsView,
};
use winproc_tui::ui::rect::Rect;
use winproc_tui::ui::styled::{Piece, Tone};

fn texts(line: &[Piece]) -> Vec<String> {
    line.iter().map(|p| p.text.clone()).collect()
}

fn tones(line: &[Piece]) -> Vec<Tone> {
    line.iter().map(|p| p.tone).collect()
}

fn files_report() -> OpenFilesReport {
    OpenFilesReport {
        process_name: "app.exe".to_string(),
        pid: 42,
        error: None,
        total_handles: 100,
        file_handles: 10,
        inaccessible_handles: 2,
        unnamed_file_handles: 0,
        entries: vec![
            OpenFileEntry { handle_count: 3, path: r"C:\dir\a.txt".to_string() },
            OpenFileEntry { handle_count: 1, path: r"C:\other\b.log".to_string() },
        ],
    }
}

#[test]
fn open_files_lines_in_log_view_and_while_loading() {
    let lines = open_files_lines(true, &Some(files_report()), true, false, "", 0, 80);
    assert_eq!(lines.len(), 1);
    assert_eq!(texts(&lines[0]), vec!["Not recorded in Log view."]);
    assert_eq!(tones(&lines[0]), vec![Tone::Muted]);
    let lines = open_files_lines(false, &None, true, false, "", 0, 80);
    assert_eq!(texts(&lines[0]), vec!["Loading..."]);
}

#[test]
fn open_files_lines_list_the_report() {
    let lines = open_files_lines(false, &Some(files_report()), false, true, "", 0, 80);
    assert_eq!(lines.len(), 6);
    assert_eq!(
        texts(&lines[0]),
        vec!["app.exe / PID 42 · process exited  handles 100  file handles 10  paths 2  refreshing..."]
    );
    assert_eq!(tones(&lines[0]), vec![Tone::Title]);
    assert_eq!(texts(&lines[1]), vec!["Filter: ", ""]);
    assert_eq!(texts(&lines[2]), vec!["2 handles could not be inspected"]);
    assert_eq!(tones(&lines[2]), vec![Tone::Warning]);
    assert_eq!(lines[3][0].text, "Count");
    assert_eq!(lines[3][2].text, format!("{:<38}", "File"));
    assert_eq!(lines[4][0].text, "    3");
    assert_eq!(lines[4][2].text, format!("{:<38}", "a.txt"));
    assert_eq!(lines[4][4].text, format!("{:<92}", r"C:\dir"));
    assert_eq!(tones(&lines[4]), vec![Tone::Accent, Tone::Plain, Tone::Text, Tone::Plain, Tone::Muted]);
}

#[test]
fn open_files_filter_keeps_matching_paths() {
    let lines = open_files_lines(false, &Some(files_report()), true, false, "B.LOG", 5, 80);
    assert_eq!(lines.len(), 5);
    assert_eq!(texts(&lines[0]), vec!["app.exe / PID 42  handles 100  file handles 10  shown 1/2"]);
    assert_eq!(texts(&lines[1]), vec!["Filter: ", "B.LOG"]);
    assert_eq!(lines[4][2].text, format!("{:<38}", "b.log"));
    let lines = open_files_lines(false, &Some(files_report()), true, false, "zzz", 3, 80);
    assert_eq!(texts(&lines[lines.len() - 1]), vec!["No matching paths."]);
}

#[test]
fn open_files_error_names_the_process() {
    let mut report = files_report();
    report.error = Some("Access denied".to_string());
    let lines = open_files_lines(false, &Some(report), true, false, "", 0, 80);
    assert_eq!(lines.len(), 1);
    assert_eq!(texts(&lines[0]), vec!["Access denied (app.exe / PID 42)"]);
    assert_eq!(tones(&lines[0]), vec![Tone::Danger]);
}

#[test]
fn open_files_cursor_and_scrollbar() {
    let area = Rect::new(10, 5, 60, 20);
    assert_eq!(open_files_filter_cursor(area, true, true, 6, 0, "ab", 2), Some((20, 6)));
    assert_eq!(open_files_filter_cursor(area, false, true, 6, 0, "ab", 2), None);
    assert_eq!(open_files_filter_cursor(area, true, true, 40, 3, "ab", 2), None);
    assert_eq!(open_files_scrollbar_area(area, 30, 20), Some(Rect::new(69, 5, 1, 20)));
    assert_eq!(open_files_scrollbar_area(area, 20, 20), None);
}

fn environment() -> EnvironmentReport {
    EnvironmentReport {
        process_name: "svc".to_string(),
        pid: 7,
        captured_at: "2024-01-02 03:04:05".to_string(),
        entries: vec![
            EnvironmentEntry { name: "PATH".to_string(), value: r"C:\bin".to_string() },
            EnvironmentEntry { name: "HOME".to_string(), value: "/home/user".to_string() },
        ],
        malformed_entries: 1,
    }
}

#[test]
fn environment_lines_list_the_variables() {
    let lines = environment_lines(false, &Some(environment()), &None, false, 1, true, false, "", 0, 60);
    assert_eq!(lines.len(), 6);
    assert_eq!(texts(&lines[0]), vec!["svc / PID 7  Captured 2024-01-02 03:04:05  variables 2"]);
    assert_eq!(texts(&lines[2]), vec!["1 malformed entries skipped"]);
    assert_eq!(lines[3][0].text, format!("{:<32}", "Name"));
    assert_eq!(lines[3][2].text, format!("{:<27}", "Value"));
    assert_eq!(lines[4][0].text, format!("{:<32}", "PATH"));
    assert_eq!(tones(&lines[4]), vec![Tone::RowAccent, Tone::RowText, Tone::RowText]);
    assert_eq!(tones(&lines[5]), vec![Tone::SelectedAccent, Tone::SelectedText, Tone::SelectedText]);
    assert_eq!(process_environment_total_rows(false, &Some(environment()), &None, false, 1, true, false, "", 0, 60), 6);
}

#[test]
fn environment_detail_and_filter() {
    let lines = environment_lines(false, &Some(environment()), &None, true, 0, true, false, "", 0, 60);
    assert_eq!(lines.len(), 3);
    assert_eq!(texts(&lines[0]), vec!["Environment variable details"]);
    assert_eq!(texts(&lines[1]), vec!["Name      ", "PATH"]);
    assert_eq!(texts(&lines[2]), vec!["Value     ", r"C:\bin"]);
    let lines = environment_lines(false, &Some(environment()), &None, true, 5, true, false, "", 0, 60);
    assert_eq!(texts(&lines[0]), vec!["No environment variable selected."]);
    let lines = environment_lines(false, &Some(environment()), &Some("Boom".to_string()), false, 0, true, false, "home", 4, 60);
    assert_eq!(texts(&lines[0]), vec!["svc / PID 7  Captured 2024-01-02 03:04:05  shown 1/2"]);
    assert_eq!(texts(&lines[2]), vec!["Last refresh failed: Boom"]);
    assert_eq!(lines.len(), 6);
    let lines = environment_lines(false, &None, &Some("Access is denied.".to_string()), false, 0, true, false, "", 0, 60);
    assert_eq!(texts(&lines[0]), vec!["Access is denied."]);
    assert_eq!(tones(&lines[0]), vec![Tone::Danger]);
}

#[test]
fn environment_pointer_cursor_and_scrollbar() {
    let area = Rect::new(0, 0, 60, 20);
    assert_eq!(process_environment_index_at(area, 5, 5, false, 2, 0, false, Some(1)), Some(1));
    assert_eq!(process_environment_index_at(area, 5, 3, false, 2, 0, false, Some(1)), None);
    assert_eq!(process_environment_index_at(area, 5, 6, false, 2, 0, false, Some(1)), None);
    assert_eq!(process_environment_index_at(area, 5, 5, true, 2, 0, false, Some(1)), None);
    assert_eq!(environment_filter_cursor(Rect::new(10, 5, 60, 20), true, false, true, 6, 0, "ab", 2), Some((20, 6)));
    assert_eq!(environment_filter_cursor(Rect::new(10, 5, 60, 20), true, true, true, 6, 0, "ab", 2), None);
    assert_eq!(process_environment_scrollbar_area(area, 30, 20), Some(Rect::new(59, 0, 1, 20)));
    assert_eq!(process_environment_scrollbar_area(area, 20, 20), None);
}

fn modules() -> ModulesReport {
    ModulesReport {
        process_name: "x".to_string(),
        pid: 1,
        captured_at: "T".to_string(),
        entries: vec![ModuleEntry {
            path: r"C:\Windows\System32\kernel32.dll".to_string(),
            dll_name: "kernel32.dll".to_string(),
            company_name: "Microsoft Corporation".to_string(),
            product_version: "10.0".to_string(),
            file_version: "10.0.1".to_string(),
            modified: "2024-01-01 00:00:00".to_string(),
            directory: r"C:\Windows\System32".to_string(),
        }],
    }
}

#[test]
fn module_lines_list_and_detail() {
    let lines = process_module_lines(false, &Some(modules()), &None, false, 0, true, false, "", 0, 40);
    assert_eq!(lines.len(), 4);
    assert_eq!(texts(&lines[0]), vec!["x / PID 1  Captured T  DLLs 1"]);
    assert_eq!(texts(&lines[2]), vec![format!("{:<40}", "DLL path")]);
    assert_eq!(texts(&lines[3]), vec![format!("{:<40}", r"C:\Windows\System32\kernel32.dll")]);
    assert_eq!(tones(&lines[3]), vec![Tone::SelectedText]);
    let lines = process_module_lines(false, &Some(modules()), &None, true, 0, true, false, "", 0, 40);
    assert_eq!(lines.len(), 9);
    assert_eq!(texts(&lines[1]), vec![format!("{:<18}", "Path"), r"C:\Windows\System32\ke".to_string()]);
    assert_eq!(texts(&lines[2]), vec![" ".repeat(18), "rnel32.dll".to_string()]);
    assert_eq!(process_modules_total_rows(false, &Some(modules()), &None, true, 0, true, false, "", 0, 40), 9);
}

#[test]
fn module_filter_needs_every_word() {
    let lines = process_module_lines(false, &Some(modules()), &None, false, 0, true, false, "kernel sys", 10, 40);
    assert_eq!(lines.len(), 4);
    let lines = process_module_lines(false, &Some(modules()), &None, false, 0, true, false, "kernel zzz", 10, 40);
    assert_eq!(texts(&lines[lines.len() - 1]), vec!["No matching DLLs."]);
    assert_eq!(process_module_index_at(Rect::new(0, 0, 40, 10), 1, 3, false, 1, 0, false), Some(0));
    assert_eq!(process_module_index_at(Rect::new(0, 0, 40, 10), 1, 3, false, 1, 0, true), None);
}

fn image_values() -> ProcessImageValues {
    let dash = || "--".to_string();
    ProcessImageValues {
        process: "app.exe / PID 4".to_string(),
        user: dash(),
        architecture: "x64".to_string(),
        dotnet_version: dash(),
        parent: dash(),
        started: dash(),
        executable: dash(),
        command_line: dash(),
        company: dash(),
        product: dash(),
        product_version: dash(),
        file_version: dash(),
        modified: dash(),
        size: dash(),
    }
}

#[test]
fn image_page_wraps_values_beside_labels() {
    let lines = labeled_wrapped_lines("Process", "app.exe / PID 4", 40);
    assert_eq!(lines.len(), 1);
    assert_eq!(texts(&lines[0]), vec![format!("{:<16}", "Process"), "app.exe / PID 4".to_string()]);
    assert_eq!(tones(&lines[0]), vec![Tone::Muted, Tone::Text]);
    assert!(labeled_wrapped_lines("Process", "x", 0).is_empty());
    let lines = process_info_image_lines(&image_values(), 40);
    assert_eq!(lines.len(), 14);
    assert_eq!(texts(&lines[2]), vec![format!("{:<16}", "Architecture"), "x64".to_string()]);
    assert_eq!(texts(&lines[13]), vec![format!("{:<16}", "Size"), "--".to_string()]);
    let narrow = process_info_image_lines(&image_values(), 20);
    assert_eq!(texts(&narrow[0]), vec![format!("{:<16}", "Process"), "app.".to_string()]);
}

#[test]
fn metrics_page_aligns_columns_when_wide() {
    let wide = metric_header_line("Value", Some("Change"), 80);
    assert_eq!(
        texts(&wide),
        vec!["Metrics".to_string(), " ".repeat(15), " ".repeat(15), "Value".to_string(), " ".repeat(18), "Change".to_string()]
    );
    let narrow = metric_header_line("Value", Some("Change"), 40);
    assert_eq!(texts(&narrow), vec!["Metrics", "  ", "Value", " / ", "Change"]);
    let row = metric_value_line("CPU", "5%", Some("+1%"), 80);
    assert_eq!(texts(&row), vec![format!("{:<22}{:>20}{:>24}", "CPU", "5%", "(+1%)")]);
    let row = metric_value_line("CPU", "5%", Some("+1%"), 40);
    assert_eq!(texts(&row), vec![format!("{:<22}5% (+1%)", "CPU")]);
    assert_eq!(texts(&process_info_metrics_lines(&None, 80)[0]), vec!["Metrics --"]);
    let view = ProcessMetricsView {
        range: "Last 60 s".to_string(),
        value_heading: "Value".to_string(),
        delta_heading: None,
        rows: vec![MetricRowText { label: "CPU".to_string(), value: "5%".to_string(), delta: None }],
    };
    let lines = process_info_metrics_lines(&Some(view), 80);
    assert_eq!(lines.len(), 3);
    assert_eq!(texts(&lines[0]), vec!["Last 60 s"]);
    assert_eq!(texts(&lines[2]), vec![format!("{:<22}{:>20}", "CPU", "5%")]);
}

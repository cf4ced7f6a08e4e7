use chrono::{Local, TimeZone};
use winproc_tui::ui::details_panel::{
    axis_tick_positions, ceil_to_multiple, format_elapsed_delta, graph_axis_x_offset, graph_bounds,
    moving_average_label, nice_axis_max, pad_y_axis_labels, pow10_u64, sample_age_seconds,
    sample_index_at_age_seconds, sample_index_nearest_age_seconds, sample_viewport_bounds,
    samples_scrollbar_position, synced_sample_viewport_offset, write_axis_label,
    y_axis_label_width, y_axis_tick_positions, ab_point_x, age_point_x, axis_tick_label_line, delta_style,
    graph_button_style, graph_series_style, graph_tick_offsets, graph_top_label_line, sample_ab_marker,
    sample_age_seconds_at_time, sample_index_at_time, sample_index_nearest_time, samples_inspector_title,
    write_label_slots, graph_layout_mode_spans, graph_slot_title_line, graph_toggle_spans, graph_workspace_title,
    AbComparison,
};
use winproc_tui::ui::layout::GraphSpanControlAreas;
use winproc_tui::ui::graph_slot::StyledText;
use winproc_tui::ui::rect::Rect;
use winproc_tui::ui::theme::{themes, Color};

fn nanos(time: chrono::DateTime<Local>) -> i64 {
    time.timestamp_nanos_opt().expect("time in range")
}

#[test]
fn nice_axis_max_rounds_up_to_readable_value() {
    assert_eq!(nice_axis_max(5_335_224_320), 5_400_000_000);
    assert_eq!(nice_axis_max(3_178_864_640), 3_200_000_000);
}

#[test]
fn nice_axis_max_keeps_small_values() {
    assert_eq!(nice_axis_max(0), 1);
    assert_eq!(nice_axis_max(7), 7);
    assert_eq!(nice_axis_max(10), 10);
    assert_eq!(nice_axis_max(11), 11);
    assert_eq!(nice_axis_max(123), 130);
    assert_eq!(ceil_to_multiple(101, 10), 110);
    assert_eq!(ceil_to_multiple(100, 10), 100);
    assert_eq!(pow10_u64(0), 1);
    assert_eq!(pow10_u64(5), 100_000);
}

#[test]
fn axis_tick_positions_are_evenly_spaced() {
    let positions = axis_tick_positions(81, 14);
    assert_eq!(positions, vec![13, 30, 47, 63, 80]);

    let gaps = positions.windows(2).map(|pair| pair[1] - pair[0]);
    let min_gap = gaps.clone().min().expect("tick gaps should exist");
    let max_gap = gaps.max().expect("tick gaps should exist");
    assert!(max_gap - min_gap <= 1);
}

#[test]
fn axis_ticks_on_an_empty_axis() {
    assert!(axis_tick_positions(0, 14).is_empty());
    assert_eq!(graph_axis_x_offset(10, 14), 9);
    assert_eq!(graph_axis_x_offset(81, 0), 0);
    assert_eq!(graph_bounds(60, 0), (-60, 0));
    assert_eq!(graph_bounds(0, 30), (-31, -30));
}

#[test]
fn y_axis_middle_tick_matches_chart_label_row() {
    assert_eq!(y_axis_tick_positions(17), [0, 8, 16]);
    assert_eq!(y_axis_tick_positions(18), [0, 9, 17]);
}

#[test]
fn axis_labels_are_written_around_their_tick() {
    let mut row = vec![' '; 10];
    write_axis_label(&mut row, "abc", 4);
    assert_eq!(row.iter().collect::<String>(), "   abc    ");
    let mut row = vec![' '; 10];
    write_axis_label(&mut row, "abc", 8);
    assert_eq!(row.iter().collect::<String>(), "       abc");
    let mut row: Vec<char> = Vec::new();
    write_axis_label(&mut row, "abc", 0);
    assert!(row.is_empty());
}

#[test]
fn y_axis_labels_are_padded_to_one_width() {
    let labels = vec!["0".to_string(), "1.5%".to_string(), String::new()];
    assert_eq!(y_axis_label_width(&labels), 5);
    assert_eq!(
        pad_y_axis_labels(labels, 5),
        vec!["   0".to_string(), "1.5%".to_string(), String::new()]
    );
    assert_eq!(y_axis_label_width(&Vec::new()), 1);
}

#[test]
fn moving_average_label_shows_the_interval() {
    assert_eq!(moving_average_label(Some(10)), "MA5 (5×10s avg)");
    assert_eq!(moving_average_label(None), "MA5");
}

#[test]
fn format_elapsed_delta_uses_signed_compact_units() {
    assert_eq!(format_elapsed_delta(5), "+5s");
    assert_eq!(format_elapsed_delta(-65), "-1m05s");
    assert_eq!(format_elapsed_delta(3_725), "+1h02m05s");
}

#[test]
fn sample_viewport_uses_explicit_offset() {
    assert_eq!(sample_viewport_bounds(20, 0, 5), (0, 5));
    assert_eq!(sample_viewport_bounds(20, 3, 5), (3, 8));
    assert_eq!(sample_viewport_bounds(20, 18, 5), (15, 20));
}

#[test]
fn synced_sample_viewport_keeps_selected_time_on_same_visible_row() {
    assert_eq!(synced_sample_viewport_offset(20, 5, 10, 7, 5), 8);
    assert_eq!(synced_sample_viewport_offset(20, 5, 1, 7, 5), 0);
    assert_eq!(synced_sample_viewport_offset(20, 5, 19, 7, 5), 15);
}

#[test]
fn sample_index_nearest_age_prefers_latest_row_when_age_ties() {
    let base = Local.with_ymd_and_hms(2026, 5, 10, 10, 0, 0).unwrap();
    let samples = [
        nanos(base),
        nanos(base + chrono::Duration::milliseconds(400)),
        nanos(base + chrono::Duration::milliseconds(800)),
    ];
    let refs = samples.to_vec();

    assert_eq!(sample_index_nearest_age_seconds(&refs, 0), Some(2));
}

#[test]
fn sample_index_at_age_requires_exact_sample_time() {
    let now = chrono::Local::now();
    let samples = [
        nanos(now - chrono::Duration::seconds(30)),
        nanos(now),
    ];
    let refs = samples.to_vec();

    assert_eq!(sample_index_at_age_seconds(&refs, 30), Some(0));
    assert_eq!(sample_index_at_age_seconds(&refs, 15), None);
    assert_eq!(sample_index_nearest_age_seconds(&refs, 15), Some(1));
}

#[test]
fn sample_ages_count_whole_seconds_back_from_the_latest() {
    let samples = vec![0, 1_500_000_000, 4_000_000_000];
    assert_eq!(sample_age_seconds(&samples, 0), Some(4));
    assert_eq!(sample_age_seconds(&samples, 1), Some(2));
    assert_eq!(sample_age_seconds(&samples, 2), Some(0));
    assert_eq!(sample_age_seconds(&samples, 3), None);
    assert_eq!(sample_index_nearest_age_seconds(&Vec::new(), 3), None);
}

#[test]
fn samples_scrollbar_position_reaches_end_at_last_viewport() {
    assert_eq!(samples_scrollbar_position(100, 10, 0), 0);
    assert_eq!(samples_scrollbar_position(100, 10, 90), 99);
}

const SECOND: i64 = 1_000_000_000;

#[test]
fn graph_tick_offsets_spread_over_the_span() {
    assert_eq!(graph_tick_offsets((-240, 0)), vec![-240, -180, -120, -60, 0]);
    assert_eq!(graph_tick_offsets((-10, -10)), vec![-10, -10, -9, -9, -9]);
}

#[test]
fn sample_index_at_time_requires_exact_timestamp_but_nearest_can_center_viewport() {
    let base = 1_000_000 * SECOND;
    let samples = vec![base, base + 2 * SECOND, base + 4 * SECOND];

    assert_eq!(sample_index_at_time(&samples, base + 2 * SECOND), Some(1));
    assert_eq!(sample_index_at_time(&samples, base + 3 * SECOND), None);
    assert_eq!(sample_index_nearest_time(&samples, base + 3 * SECOND), Some(2));
    assert_eq!(sample_index_nearest_time(&Vec::new(), base), None);
}

#[test]
fn sample_age_at_time_never_goes_below_zero() {
    assert_eq!(sample_age_seconds_at_time(Some(10 * SECOND), 7 * SECOND + SECOND / 2), Some(2));
    assert_eq!(sample_age_seconds_at_time(Some(7 * SECOND), 10 * SECOND), Some(0));
    assert_eq!(sample_age_seconds_at_time(None, 10 * SECOND), None);
}

#[test]
fn sample_ab_marker_matches_point_times() {
    let now = 1_700_000_000 * SECOND;
    let comparison = AbComparison { a: Some(now), b: Some(now) };

    assert_eq!(sample_ab_marker(Some(comparison), now), "AB");
    assert_eq!(sample_ab_marker(Some(comparison), now + SECOND), "");
    assert_eq!(sample_ab_marker(Some(AbComparison { a: Some(now), b: None }), now), "A");
    assert_eq!(sample_ab_marker(Some(AbComparison { a: None, b: Some(now) }), now), "B");
    assert_eq!(sample_ab_marker(None, now), "");
}

#[test]
fn graph_looks_follow_their_state() {
    let theme = themes()[0];
    assert_eq!(graph_series_style(&theme, true).fg, Some(theme.active_series));
    assert_eq!(graph_series_style(&theme, false).fg, Some(theme.graph_line));
    assert_eq!(delta_style(true, true, true, &theme).fg, Some(theme.text));
    assert_eq!(delta_style(true, false, true, &theme).fg, Some(theme.muted));
    assert_eq!(delta_style(true, true, false, &theme).fg, Some(theme.muted));
    assert_eq!(graph_button_style(&theme, true, false).fg, Some(theme.border));
    assert_eq!(graph_button_style(&theme, true, true).bg, Some(theme.focus_surface));
    assert_eq!(graph_button_style(&theme, false, true).fg, Some(theme.muted));
}

fn joined(spans: &[StyledText]) -> String {
    spans.iter().map(|s| s.text.as_str()).collect()
}

#[test]
fn samples_title_shows_process_name_only_when_it_fits() {
    let theme = themes()[0];
    let wide = samples_inspector_title(1, Some("app.exe"), 32, &theme);
    let narrow = samples_inspector_title(1, Some("app.exe"), 23, &theme);

    assert_eq!(joined(&wide), "SAMPLES · Slot#2 · app.exe");
    assert_eq!(joined(&narrow), "SAMPLES · Slot#2");
    assert_eq!(wide[2].style.fg, Some(theme.active_series));
    assert!(wide[2].style.bold);
}

#[test]
fn samples_title_does_not_add_a_process_name_to_system_graphs() {
    let theme = themes()[0];
    let line = samples_inspector_title(0, None, 80, &theme);
    assert_eq!(joined(&line), "SAMPLES · Slot#1");
}

#[test]
fn points_map_to_plot_columns() {
    let area = Rect::new(0, 0, 40, 1);
    assert_eq!(age_point_x(area, 5, (-60, 0), 30), Some(22));
    assert_eq!(age_point_x(area, 5, (-60, 0), 61), None);
    assert_eq!(age_point_x(area, 5, (-60, 0), 0), Some(39));
    assert_eq!(age_point_x(Rect::new(0, 0, 0, 1), 5, (-60, 0), 0), None);
    assert_eq!(ab_point_x(area, 5, (-60, 0), 100 * SECOND, 70 * SECOND), Some(22));
}

#[test]
fn label_slots_center_labels_and_stay_inside() {
    let mut labels: Vec<Option<(String, Color)>> = vec![None; 10];
    write_label_slots(&mut labels, "abc", 5, Color::Rgb(1, 2, 3));
    let text: String = labels.iter().map(|l| l.as_ref().map(|(t, _)| t.as_str()).unwrap_or(".")).collect();
    assert_eq!(text, "....abc...");
    write_label_slots(&mut labels, "xyz", 8, Color::Rgb(1, 2, 3));
    let text: String = labels.iter().map(|l| l.as_ref().map(|(t, _)| t.as_str()).unwrap_or(".")).collect();
    assert_eq!(text, "....abcxyz");
    let mut empty: Vec<Option<(String, Color)>> = Vec::new();
    write_label_slots(&mut empty, "abc", 0, Color::Rgb(1, 2, 3));
    assert!(empty.is_empty());
}

#[test]
fn top_label_and_axis_rows() {
    let theme = themes()[0];
    let top = graph_top_label_line(40, 5, (-60, 0), Some(30), Some("42"), &theme);
    assert_eq!(top.len(), 40);
    assert_eq!(top[21].text, "4");
    assert_eq!(top[22].text, "2");
    assert_eq!(top[21].style.fg, Some(theme.accent));
    assert_eq!(top[0].text, " ");
    assert_eq!(top[0].style.bg, Some(theme.panel));
    assert_eq!(joined(&graph_top_label_line(10, 5, (-60, 0), None, Some("42"), &theme)), " ".repeat(10));
    let labels: Vec<String> = ["A", "B", "C", "D", "E"].iter().map(|s| s.to_string()).collect();
    let axis = axis_tick_label_line(40, 5, &labels, &theme);
    let mut expected = vec![' '; 40];
    for (c, p) in ['A', 'B', 'C', 'D', 'E'].iter().zip([4usize, 13, 22, 30, 39]) {
        expected[p] = *c;
    }
    assert_eq!(axis.text, expected.into_iter().collect::<String>());
    assert_eq!(axis.style.fg, Some(theme.muted));
}

#[test]
fn graph_tick_labels_use_clock_time() {
    let latest = chrono::Local.with_ymd_and_hms(2026, 1, 1, 10, 14, 0).unwrap();
    let labels: Vec<String> = graph_tick_offsets((-240, 0))
        .into_iter()
        .map(|offset| (latest + chrono::Duration::seconds(offset)).format("%H:%M:%S").to_string())
        .collect();
    assert_eq!(labels, vec!["10:10:00", "10:11:00", "10:12:00", "10:13:00", "10:14:00"]);
}

fn texts(spans: &[StyledText]) -> Vec<&str> {
    spans.iter().map(|span| span.text.as_str()).collect()
}

#[test]
fn graph_workspace_title_shows_zoom_buttons_when_placed() {
    let theme = themes()[0];
    let placed = GraphSpanControlAreas { zoom_out: Some(Rect::new(30, 0, 3, 1)), zoom_in: Some(Rect::new(34, 0, 3, 1)) };
    let title = graph_workspace_title(2, 120, &theme, true, placed, false, true, false, true);
    assert_eq!(texts(&title), vec!["GRAPHS · 2 Slots · Span 120s", "  ", "[-]", " ", "[+]"]);
    assert_eq!(title[0].style.fg, Some(theme.focus_border));
    assert!(title[0].style.bold);
    assert_eq!(title[2].style, graph_button_style(&theme, false, false));
    assert_eq!(title[4].style, graph_button_style(&theme, true, true));
    assert_eq!(title[4].style.bg, Some(theme.focus_surface));

    let unplaced = GraphSpanControlAreas { zoom_out: None, zoom_in: Some(Rect::new(34, 0, 3, 1)) };
    let title = graph_workspace_title(1, 60, &theme, false, unplaced, false, false, true, true);
    assert_eq!(texts(&title), vec!["GRAPHS · 1 Slot · Span 60s"]);
    assert_eq!(title[0].style.fg, Some(theme.border));
    assert!(!title[0].style.bold);
}

#[test]
fn graph_controls_show_key_and_state() {
    let theme = themes()[0];
    let on = graph_toggle_spans(true, "a", "Average", &theme);
    assert_eq!(texts(&on), vec!["☑", "  ", "a", ":", " Average"]);
    assert_eq!(on[0].style.fg, Some(theme.accent));
    assert_eq!(on[2].style.fg, Some(theme.key_hint));
    let off = graph_toggle_spans(false, "m", "Max", &theme);
    assert_eq!(off[0].text, "☐");
    assert_eq!(off[0].style.fg, Some(theme.muted));
    let mode = graph_layout_mode_spans("Grid", &theme);
    assert_eq!(texts(&mode), vec!["  ", "l", ":", " Grid"]);
    assert_eq!(mode[3].style.bg, Some(theme.panel));
}

#[test]
fn graph_slot_title_names_slot_metric_target_and_delta() {
    let theme = themes()[0];
    let title = graph_slot_title_line(2, "CPU", Some("notepad.exe"), "+1.5%".to_string(), true, &theme);
    assert_eq!(texts(&title), vec!["Slot#3", " · ", "CPU", " · ", "notepad.exe", " · B-A: ", "+1.5%"]);
    assert_eq!(title[0].style.fg, Some(theme.active_series));
    assert!(title[0].style.bold);
    assert_eq!(title[2].style.fg, Some(theme.text));
    assert_eq!(title[5].style.fg, Some(theme.accent));
    let quiet = graph_slot_title_line(0, "Memory", None, "--".to_string(), false, &theme);
    assert_eq!(texts(&quiet), vec!["Slot#1", " · ", "Memory", " · B-A: ", "--"]);
    assert!(quiet.iter().all(|span| span.style.fg == Some(theme.muted) && !span.style.bold));
}

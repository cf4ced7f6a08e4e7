use winproc_tui::ui::graph_slot::{graph_value_style, GraphSourceState, StyledText, TextStyle};
use winproc_tui::ui::layout::SizeConstraint;
use winproc_tui::ui::process_table::{
    full_path_column_render_width, header_cell_style, header_label, highlighted_match_line,
    highlighted_match_line_at, highlighted_process_name_line, process_fixed_cell_background,
    process_metric_column_index_at, process_row_style, process_table_column_rects, process_table_constraints,
    process_table_state_segments, process_text_style, process_title_control_area,
    process_tracked_only_control_area, process_tree_disclosure_hit_test, process_view_mode_control_area,
    tracked_cell, tracked_marker_style, tracked_symbol, truncate_line_end, ProcessTitleSegmentKind, SortDirection,
    filter_title_spans, jump_title_spans, process_table_title, process_title_segment_style,
    process_tracked_only_title_spans, process_view_mode_title_spans, title_separator, ProcessTitleState,
    process_name_line, process_tree_prefix,
};
use winproc_tui::ui::theme::themes;
use winproc_tui::ui::rect::Rect;

fn widths() -> Vec<u16> {
    vec![8, 10]
}

#[test]
fn column_cells_follow_the_widths() {
    let rects = process_table_column_rects(Rect::new(0, 0, 60, 10), &vec![0, 1], &widths(), None, 6, 24);
    assert_eq!(
        rects,
        vec![
            Rect::new(1, 1, 1, 8),
            Rect::new(3, 1, 6, 8),
            Rect::new(10, 1, 24, 8),
            Rect::new(35, 1, 8, 8),
            Rect::new(44, 1, 10, 8),
        ]
    );
}

#[test]
fn metric_column_index_under_the_pointer() {
    let area = Rect::new(0, 0, 60, 10);
    let at = |x: u16, offset: usize| process_metric_column_index_at(area, x, &widths(), offset, None, 6, 24);
    assert_eq!(at(0, 0), None);
    assert_eq!(at(1, 0), None);
    assert_eq!(at(4, 0), Some(0));
    assert_eq!(at(9, 0), None);
    assert_eq!(at(12, 0), Some(1));
    assert_eq!(at(36, 0), Some(2));
    assert_eq!(at(45, 0), Some(3));
    assert_eq!(at(55, 0), None);
    assert_eq!(at(36, 1), Some(3));
}

#[test]
fn disclosure_mark_is_hit_only_on_its_cell() {
    let area = Rect::new(0, 0, 60, 10);
    let hit = |x: u16, tree: bool, state: Option<(usize, bool)>| {
        process_tree_disclosure_hit_test(area, x, tree, state, &widths(), 0, None, 6, 24)
    };
    assert!(hit(14, true, Some((2, true))));
    assert!(!hit(13, true, Some((2, true))));
    assert!(!hit(14, true, Some((2, false))));
    assert!(!hit(14, false, Some((2, true))));
    assert!(!hit(14, true, None));
    assert!(hit(10, true, Some((0, true))));
}

#[test]
fn full_path_cell_width() {
    let rects = vec![
        Rect::new(1, 1, 1, 8),
        Rect::new(3, 1, 6, 8),
        Rect::new(10, 1, 24, 8),
        Rect::new(35, 1, 8, 8),
        Rect::new(44, 1, 10, 8),
    ];
    assert_eq!(full_path_column_render_width(&vec![0, 1], Some(1), &rects), Some(10));
    assert_eq!(full_path_column_render_width(&vec![0, 1], Some(5), &rects), None);
    assert_eq!(full_path_column_render_width(&vec![0, 1], None, &rects), None);
}

#[test]
fn title_controls_stand_after_their_labels() {
    let segments = process_table_state_segments(false, "", 0, 12, false, "Flat", false);
    let area = Rect::new(0, 5, 100, 10);
    assert_eq!(
        process_title_control_area(area, false, &vec![0, 1], 2, &segments, ProcessTitleSegmentKind::ViewMode),
        Some(Rect::new(26, 5, 7, 1))
    );
    assert_eq!(process_view_mode_control_area(area, false, false, &vec![0, 1], 2, &segments), Some(Rect::new(26, 5, 7, 1)));
    assert_eq!(process_view_mode_control_area(area, true, false, &vec![0, 1], 2, &segments), None);
    assert_eq!(process_view_mode_control_area(area, false, true, &vec![0, 1], 2, &segments), None);
    assert_eq!(process_tracked_only_control_area(area, false, &vec![0, 1], 2, &segments).map(|r| r.x), Some(36));
}

#[test]
fn title_controls_stop_before_the_overflow_mark() {
    let segments = process_table_state_segments(false, "", 0, 12, false, "Flat", false);
    let area = Rect::new(0, 5, 30, 10);
    assert_eq!(
        process_title_control_area(area, false, &vec![0], 3, &segments, ProcessTitleSegmentKind::ViewMode),
        None
    );
    assert_eq!(
        process_title_control_area(area, false, &vec![0], 3, &segments, ProcessTitleSegmentKind::VisibleCount),
        Some(Rect::new(13, 5, 7, 1))
    );
}

fn line_text(line: &[StyledText]) -> String {
    line.iter().map(|s| s.text.as_str()).collect()
}

#[test]
fn header_label_underlines_name_but_not_sort_direction() {
    for (direction, expected) in [
        (Some(SortDirection::Asc), "CPU% ↑"),
        (Some(SortDirection::Desc), "CPU% ↓"),
        (None, "CPU%"),
    ] {
        let line = header_label("CPU%", direction);
        assert_eq!(line_text(&line), expected);
        assert!(line[0].style.underlined);
        assert!(line[1..].iter().all(|span| !span.style.underlined));
    }
}

#[test]
fn header_cells_use_the_column_selection_surface() {
    let theme = themes()[0];
    let ordinary_style = header_cell_style(false, &theme);
    let focused_style = header_cell_style(true, &theme);

    assert_eq!(ordinary_style.bg, Some(theme.panel));
    assert_eq!(focused_style.bg, Some(theme.table_column_surface));
    assert!(!ordinary_style.underlined);
    assert!(!ordinary_style.bold);
    assert!(!focused_style.underlined);
    assert!(!focused_style.bold);
}

#[test]
fn graphed_process_values_use_green_with_bold_reserved_for_the_active_graph() {
    for theme in themes() {
        let inactive = graph_value_style(TextStyle::plain(), Some(GraphSourceState { ordinal: 0, active: false }), &theme);
        let active = graph_value_style(TextStyle::plain(), Some(GraphSourceState { ordinal: 1, active: true }), &theme);

        assert_eq!(inactive.fg, Some(theme.active_series));
        assert!(!inactive.bold);
        assert_eq!(active.fg, Some(theme.active_series));
        assert!(active.bold);
    }
}

#[test]
fn multi_selected_rows_use_the_process_table_selection_surface() {
    let theme = themes()[0];

    assert_eq!(process_row_style(false, true, &theme).bg, Some(theme.table_multi_selection_surface));
    assert!(!process_row_style(false, true, &theme).bold);
}

#[test]
fn current_row_uses_table_selection_surface_without_bold() {
    let theme = themes()[0];
    let style = process_row_style(true, false, &theme);

    assert_eq!(style.bg, Some(theme.table_selection_surface));
    assert!(!style.bold);
}

#[test]
fn row_and_text_styles_follow_the_process_state() {
    let theme = themes()[0];
    assert_eq!(process_row_style(false, false, &theme).bg, Some(theme.panel));
    assert_eq!(process_text_style(true, false, &theme).fg, Some(theme.exited));
    assert_eq!(process_text_style(false, true, &theme).fg, Some(theme.muted));
    assert_eq!(process_text_style(false, false, &theme).fg, Some(theme.text));
    assert_eq!(process_fixed_cell_background(true, true, &theme), Some(theme.table_intersection_surface));
    assert_eq!(process_fixed_cell_background(true, false, &theme), Some(theme.table_column_surface));
    assert_eq!(process_fixed_cell_background(false, false, &theme), None);
}

#[test]
fn tracked_cell_uses_t_for_tracked_rows_only() {
    assert_eq!(tracked_symbol(true), "T");
    assert_eq!(tracked_symbol(false), " ");
    for theme in themes() {
        let style = tracked_marker_style(false, &theme);
        assert_eq!(style.fg, Some(theme.background));
        assert_eq!(style.bg, Some(theme.tracked_color));
        assert!(!style.bold);

        let exited_style = tracked_marker_style(true, &theme);
        assert_eq!(exited_style.fg, Some(theme.background));
        assert_eq!(exited_style.bg, Some(theme.exited));
        assert!(!exited_style.bold);
    }
    let theme = themes()[0];
    assert_eq!(tracked_cell(false, false, false, &theme).text, " ");
    assert_eq!(tracked_cell(true, true, false, &theme).style.fg, Some(theme.muted));
    assert_eq!(tracked_cell(true, false, false, &theme).style.bg, Some(theme.tracked_color));
}

#[test]
fn process_name_marker_is_added_only_when_the_line_is_truncated() {
    let style = TextStyle::plain();
    let exact = truncate_line_end(vec![StyledText { text: "app.exe".to_string(), style }], 7, style);
    let truncated = truncate_line_end(vec![StyledText { text: "app.exe".to_string(), style }], 6, style);

    assert_eq!(line_text(&exact), "app.exe");
    assert_eq!(line_text(&truncated), "app.e⋯");
    assert_eq!(truncated.iter().map(|s| s.text.chars().count()).sum::<usize>(), 6);
}

#[test]
fn process_name_truncation_preserves_visible_filter_highlighting() {
    let theme = themes()[0];
    let base_style = TextStyle::fg(theme.text);
    let line = highlighted_match_line_at("winproc-tui.exe", 0, 3, base_style, &theme);

    let truncated = truncate_line_end(line, 8, base_style);

    assert_eq!(line_text(&truncated), "winproc⋯");
    assert_eq!(truncated.iter().map(|s| s.text.chars().count()).sum::<usize>(), 8);
    assert_eq!(truncated[0].style.fg, Some(theme.warning));
    assert_eq!(truncated.last().unwrap().text, "⋯");
    assert_eq!(truncated.last().unwrap().style, base_style);
}

#[test]
fn filter_match_is_highlighted_case_insensitively() {
    let theme = themes()[0];
    let base = TextStyle::fg(theme.text);
    let line = highlighted_process_name_line("WinProc.exe", "proc", base, &theme);
    assert_eq!(line.iter().map(|s| s.text.as_str()).collect::<Vec<_>>(), vec!["Win", "Proc", ".exe"]);
    assert_eq!(line[1].style.fg, Some(theme.warning));
    let plain = highlighted_match_line("app.exe", "zzz", base, &theme);
    assert_eq!(plain.len(), 1);
    assert_eq!(plain[0].text, "app.exe");
    let too_narrow = truncate_line_end(vec![StyledText { text: "app".to_string(), style: base }], 0, base);
    assert!(too_narrow.is_empty());
}

#[test]
fn full_path_column_takes_extra_width_when_visible() {
    let visible = vec![0, 1];
    let widths = vec![11u16, 30];
    let rects = process_table_column_rects(Rect::new(0, 0, 140, 3), &visible, &widths, Some(1), 6, 24);

    assert_eq!(
        process_table_constraints(&visible, &widths, Some(1), 6, 24),
        vec![
            SizeConstraint::Length(1),
            SizeConstraint::Length(6),
            SizeConstraint::Length(24),
            SizeConstraint::Length(11),
            SizeConstraint::Min(30),
        ]
    );
    assert_eq!(full_path_column_render_width(&visible, Some(1), &rects), Some(30 + 62));
}

#[test]
fn process_column_uses_resolved_width_when_full_path_is_hidden() {
    let visible = vec![0];
    let widths = vec![11u16];
    let rects = process_table_column_rects(Rect::new(0, 0, 140, 3), &visible, &widths, None, 6, 24);

    assert_eq!(
        process_table_constraints(&visible, &widths, None, 6, 24),
        vec![
            SizeConstraint::Length(1),
            SizeConstraint::Length(6),
            SizeConstraint::Length(24),
            SizeConstraint::Length(11),
        ]
    );
    assert_eq!(full_path_column_render_width(&visible, None, &rects), None);
}

#[test]
fn custom_process_width_is_fixed_while_full_path_keeps_flexible_extra_space() {
    let visible = vec![0, 1];
    let widths = vec![11u16, 60];
    let rects = process_table_column_rects(Rect::new(0, 0, 180, 3), &visible, &widths, Some(1), 6, 28);

    assert_eq!(
        process_table_constraints(&visible, &widths, Some(1), 6, 28),
        vec![
            SizeConstraint::Length(1),
            SizeConstraint::Length(6),
            SizeConstraint::Length(28),
            SizeConstraint::Length(11),
            SizeConstraint::Min(60),
        ]
    );
    assert_eq!(full_path_column_render_width(&visible, Some(1), &rects), Some(128));

    let without_full_path = vec![0];
    assert_eq!(
        process_table_constraints(&without_full_path, &widths, Some(1), 6, 28),
        vec![
            SizeConstraint::Length(1),
            SizeConstraint::Length(6),
            SizeConstraint::Length(28),
            SizeConstraint::Length(11),
        ]
    );
}

fn title_state(watch_enabled: bool) -> ProcessTitleState {
    ProcessTitleState {
        log_view: false,
        tree_mode: false,
        watch_enabled,
        view_mode_hovered: false,
        filter_editing: false,
        jump_editing: false,
    }
}

#[test]
fn process_title_shows_the_active_view_state() {
    let theme = themes()[0];
    let segments = process_table_state_segments(false, "target", 1, 1, false, "Flat", true);
    let title = process_table_title("target", "", &title_state(true), &segments, "Flat", &theme);
    assert_eq!(
        line_text(&title),
        "PROCESSES · 1 visible · Flat(v) · ☑ Tracked-only(Shift+T) · Filter \"target\""
    );
    let tick = title.iter().find(|s| s.text == "☑").unwrap();
    assert_eq!(tick.style.fg, Some(theme.tracked_color));
    assert!(!tick.style.bold);
    let label = title.iter().find(|s| s.text == " Tracked-only").unwrap();
    assert_eq!(label.style.fg, Some(theme.text));
    let filter = title.iter().find(|s| s.text.starts_with("Filter")).unwrap();
    assert_eq!(filter.style.fg, Some(theme.warning));
    assert!(title[0].style.bold);

    let segments = process_table_state_segments(false, "", 0, 1, false, "Flat", false);
    let title = process_table_title("", "", &title_state(false), &segments, "Flat", &theme);
    assert_eq!(line_text(&title), "PROCESSES · 1 visible · Flat(v) · ☐ Tracked-only(Shift+T)");
}

#[test]
fn process_title_shows_typed_filter_and_jump() {
    let theme = themes()[0];
    let mut editing = title_state(false);
    editing.filter_editing = true;
    let title = process_table_title("ta", "", &editing, &Vec::new(), "Flat", &theme);
    assert_eq!(line_text(&title), "PROCESSES · Filter  ta_");
    let spans = filter_title_spans("ta", &theme);
    assert_eq!(spans[0].style.bg, Some(theme.warning));
    assert_eq!(spans[0].style.fg, Some(theme.background));
    assert_eq!(spans[2].style.fg, Some(theme.warning));
    assert_eq!(spans[2].style.bg, Some(theme.panel_alt));
    assert!(spans[2].style.bold);
    assert_eq!(spans[3].style.bg, Some(theme.warning));
    let mut jumping = title_state(false);
    jumping.jump_editing = true;
    let title = process_table_title("", "wor", &jumping, &Vec::new(), "Flat", &theme);
    assert_eq!(line_text(&title), "PROCESSES · Jump wor_");
    assert_eq!(jump_title_spans("wor", &theme)[0].style.bg, Some(theme.accent));
    assert_eq!(title_separator(&theme).style.fg, Some(theme.muted));
}

#[test]
fn view_mode_switch_is_raised_while_hovered() {
    let theme = themes()[0];
    let mut st = title_state(false);
    st.tree_mode = true;
    assert_eq!(process_title_segment_style(ProcessTitleSegmentKind::ViewMode, &st, &theme).fg, Some(theme.accent));
    st.view_mode_hovered = true;
    let spans = process_view_mode_title_spans(&st, "Tree", &theme);
    assert_eq!(spans[0].text, "Tree(v)");
    assert_eq!(spans[0].style.bg, Some(theme.focus_surface));
    st.log_view = true;
    let spans = process_view_mode_title_spans(&st, "Tree", &theme);
    assert_eq!(spans[0].text, "Flat (Tree unavailable in LOG)");
    assert_eq!(spans[0].style.fg, Some(theme.muted));
    assert_eq!(process_tracked_only_title_spans(&title_state(false), &theme)[0].style.fg, Some(theme.muted));
}

#[test]
fn tree_prefix_indents_and_marks_rows_with_children() {
    let theme = themes()[0];
    let base = TextStyle::fg(theme.text);
    let prefix = process_tree_prefix(true, false, 2, true, true, true, false, 24, base, &theme);
    assert_eq!(line_text(&prefix), "    ▾ ");
    assert_eq!(prefix[1].style, base);
    let closed = process_tree_prefix(true, false, 0, true, false, true, true, 24, base, &theme);
    assert_eq!(line_text(&closed), "▸ ");
    assert_eq!(closed[0].style.bg, Some(theme.focus_surface));
    let frozen = process_tree_prefix(true, false, 1, true, false, false, true, 24, base, &theme);
    assert_eq!(frozen[1].style.fg, Some(theme.muted));
    let leaf = process_tree_prefix(true, false, 1, false, false, true, false, 24, base, &theme);
    assert_eq!(line_text(&leaf), "    ");
    assert!(process_tree_prefix(false, false, 2, true, true, true, false, 24, base, &theme).is_empty());
    assert!(process_tree_prefix(true, true, 2, true, true, true, false, 24, base, &theme).is_empty());
}

#[test]
fn name_line_highlights_cuts_and_keeps_exit_time() {
    let theme = themes()[0];
    let base = TextStyle::fg(theme.text);
    let line = process_name_line("target.exe", None, 24, Vec::new(), false, "", " target ", base, &theme);
    assert_eq!(line_text(&line), "target.exe");
    let hit = line.iter().find(|s| s.text == "target").unwrap();
    assert_eq!(hit.style.fg, Some(theme.warning));
    let exited = process_name_line("target.exe", Some("12:00:00"), 24, Vec::new(), false, "", "", base, &theme);
    assert_eq!(line_text(&exited), "target.exe(12:00:00)");
    let narrow = process_name_line("target.exe", Some("12:00:00"), 8, Vec::new(), false, "", "", base, &theme);
    assert_eq!(line_text(&narrow), "target.⋯");
    let prefix = process_tree_prefix(true, false, 1, true, true, true, false, 12, base, &theme);
    let jumped = process_name_line("worker.exe", None, 12, prefix, true, "ork", "zzz", base, &theme);
    assert_eq!(line_text(&jumped), "  ▾ worker.⋯");
}

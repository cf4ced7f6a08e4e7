use winproc_tui::ui::layout::{body_sections, details_graph_rows, screen_layout, split_columns, split_rows, SizeConstraint};
use winproc_tui::ui::process_table::process_table_column_rects;
use winproc_tui::ui::file_users::{control_style, query_cursor_position, result_row_style};
use winproc_tui::ui::graph_slot::TextStyle;
use winproc_tui::ui::layout::chart_area_in;
use winproc_tui::ui::process_info_dialog::{process_info_page_size, process_info_tab_in};
use winproc_tui::ui::process_table::{disclosure_hit_in, metric_column_index_in};
use winproc_tui::ui::rect::Rect;
use winproc_tui::ui::theme::themes;

fn cells() -> Vec<Rect> {
    vec![
        Rect::new(1, 1, 1, 8),
        Rect::new(3, 1, 6, 8),
        Rect::new(10, 1, 24, 8),
        Rect::new(35, 1, 8, 8),
        Rect::new(44, 1, 10, 8),
    ]
}

#[test]
fn metric_column_under_the_pointer_in_given_cells() {
    let area = Rect::new(0, 0, 60, 10);
    let visible = vec![4, 7];
    let at = |x: u16| metric_column_index_in(area, &cells(), &visible, x);
    assert_eq!(at(0), None);
    assert_eq!(at(1), None);
    assert_eq!(at(4), Some(0));
    assert_eq!(at(12), Some(1));
    assert_eq!(at(36), Some(6));
    assert_eq!(at(45), Some(9));
    assert_eq!(at(43), None);
    assert_eq!(at(59), None);
}

#[test]
fn disclosure_mark_in_a_given_name_cell() {
    let name = Rect::new(10, 1, 24, 8);
    assert!(disclosure_hit_in(name, 14, true, Some((2, true))));
    assert!(!disclosure_hit_in(name, 13, true, Some((2, true))));
    assert!(!disclosure_hit_in(name, 14, true, Some((2, false))));
    assert!(!disclosure_hit_in(name, 14, false, Some((2, true))));
    assert!(!disclosure_hit_in(name, 14, true, None));
    assert!(disclosure_hit_in(Rect::new(10, 1, 4, 1), 12, true, Some((9, true))));
}

#[test]
fn chart_sits_below_the_label_row_past_the_padding() {
    assert_eq!(chart_area_in(Rect::new(0, 1, 40, 18), 6), Rect::new(6, 2, 34, 17));
    assert_eq!(chart_area_in(Rect::new(0, 0, 5, 3), 9), Rect::new(4, 1, 1, 2));
    assert_eq!(chart_area_in(Rect::new(3, 3, 0, 0), 2), Rect::new(3, 4, 0, 0));
}

#[test]
fn tab_under_the_pointer_on_a_given_strip() {
    let labels = vec!["Metrics", "Image", "Files", "DLLs", "Environment"];
    let strip = Rect::new(10, 5, 42, 2);
    assert_eq!(process_info_tab_in(strip, &labels, 12, 5), Some(0));
    assert_eq!(process_info_tab_in(strip, &labels, 20, 5), Some(1));
    assert_eq!(process_info_tab_in(strip, &labels, 51, 5), Some(4));
    assert_eq!(process_info_tab_in(strip, &labels, 12, 6), None);
    assert_eq!(process_info_tab_in(strip, &labels, 9, 5), None);
}

#[test]
fn page_size_is_the_body_height_at_least_one() {
    assert_eq!(process_info_page_size(0), 1);
    assert_eq!(process_info_page_size(1), 1);
    assert_eq!(process_info_page_size(17), 17);
}

#[test]
fn focused_control_is_raised_and_bold() {
    let theme = themes()[0];
    let body = TextStyle { fg: Some(theme.text), bg: Some(theme.panel_alt), bold: false, underlined: false };
    let raised = TextStyle { fg: Some(theme.text), bg: Some(theme.focus_surface), bold: true, underlined: false };
    assert_eq!(control_style(true, false, &theme), raised);
    assert_eq!(control_style(true, true, &theme), body);
    assert_eq!(control_style(false, false, &theme), body);
}

#[test]
fn selected_result_row_shows_whether_the_results_have_the_focus() {
    let theme = themes()[0];
    let body = TextStyle { fg: Some(theme.text), bg: Some(theme.panel_alt), bold: false, underlined: false };
    assert_eq!(result_row_style(false, true, false, &theme), body);
    assert_eq!(result_row_style(true, true, false, &theme).bg, Some(theme.focus_surface));
    assert_eq!(result_row_style(true, false, false, &theme).bg, Some(theme.table_selection_surface));
    assert_eq!(result_row_style(true, true, true, &theme).bg, Some(theme.table_selection_surface));
    assert!(result_row_style(true, false, false, &theme).bold);
}

#[test]
fn query_cursor_stands_after_the_label() {
    let query = Rect::new(2, 3, 20, 1);
    assert_eq!(query_cursor_position(query, 4, true, false), Some((13, 3)));
    assert_eq!(query_cursor_position(query, 0, true, false), Some((9, 3)));
    assert_eq!(query_cursor_position(query, 4, false, false), None);
    assert_eq!(query_cursor_position(query, 4, true, true), None);
    assert_eq!(query_cursor_position(Rect::new(2, 3, 7, 1), 0, true, false), None);
    assert_eq!(query_cursor_position(Rect::new(2, 3, 20, 0), 0, true, false), None);
}

#[test]
fn exact_splits_pack_lengths_and_give_the_rest_to_the_minimum() {
    assert_eq!(
        split_rows(Rect::new(0, 2, 10, 10), &vec![SizeConstraint::Length(5), SizeConstraint::Min(0)]),
        vec![Rect::new(0, 2, 10, 5), Rect::new(0, 7, 10, 5)]
    );
    assert_eq!(
        split_columns(
            Rect::new(3, 1, 20, 2),
            &vec![SizeConstraint::Length(4), SizeConstraint::Min(2), SizeConstraint::Length(3)],
            1
        ),
        vec![Rect::new(3, 1, 4, 2), Rect::new(8, 1, 11, 2), Rect::new(20, 1, 3, 2)]
    );
    assert_eq!(
        split_columns(Rect::new(0, 0, 20, 1), &vec![SizeConstraint::Length(4), SizeConstraint::Length(3)], 2),
        vec![Rect::new(0, 0, 4, 1), Rect::new(6, 0, 3, 1)]
    );
    assert_eq!(
        screen_layout(Rect::new(0, 0, 80, 30)),
        vec![Rect::new(0, 0, 80, 1), Rect::new(0, 1, 80, 27), Rect::new(0, 28, 80, 2)]
    );
    assert_eq!(body_sections(Rect::new(0, 1, 80, 27)), vec![Rect::new(0, 1, 80, 7), Rect::new(0, 8, 80, 20)]);
    assert_eq!(
        details_graph_rows(Rect::new(2, 4, 30, 12)),
        vec![Rect::new(2, 4, 30, 1), Rect::new(2, 5, 30, 10), Rect::new(2, 15, 30, 1)]
    );
}

#[test]
fn full_path_column_takes_the_width_left() {
    let rects = process_table_column_rects(Rect::new(0, 0, 60, 10), &vec![0, 1], &vec![8, 10], Some(1), 6, 24);
    assert_eq!(
        rects,
        vec![
            Rect::new(1, 1, 1, 8),
            Rect::new(3, 1, 6, 8),
            Rect::new(10, 1, 24, 8),
            Rect::new(35, 1, 8, 8),
            Rect::new(44, 1, 15, 8),
        ]
    );
}

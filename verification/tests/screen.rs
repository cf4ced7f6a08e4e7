use winproc_tui::ui::layout::{
    body_sections, details_graph_chart_area, graph_card_layout, graph_shared_control_areas,
    graph_workspace_layout, main_panel_areas, main_panel_areas_with_height, screen_layout,
    split_evenly, system_panel_area_for_screen, GraphSlotLayout, GraphWorkspaceState,
    ProcessPanelHeight, GRAPH_WORKSPACE_MIN_HEIGHT, PROCESS_TABLE_CHROME_HEIGHT,
    PROCESS_TABLE_MAX_HEIGHT, SYSTEM_PANEL_HEIGHT,
};
use winproc_tui::ui::process_info_dialog::process_info_dialog_layout_for_screen;
use winproc_tui::ui::rect::Rect;

fn tab_labels() -> Vec<&'static str> {
    vec!["Metrics", "Image", "Files", "DLLs", "Environment"]
}

#[test]
fn footer_reserves_one_content_row() {
    let layout = screen_layout(Rect::new(0, 0, 100, 45));

    assert_eq!(layout[2].height, 2);
}

#[test]
fn process_table_area_matches_body_sections_without_details() {
    let screen = Rect::new(0, 0, 100, 43);
    let body = screen_layout(screen)[1];
    let sections = body_sections(body);

    assert_eq!(main_panel_areas(screen, false, 0, false).processes.area, sections[1]);
}

#[test]
fn system_panel_height_removes_empty_rows() {
    let body = Rect::new(0, 1, 100, 40);
    let sections = body_sections(body);

    assert_eq!(sections[0].height, SYSTEM_PANEL_HEIGHT);
    assert_eq!(system_panel_area_for_screen(Rect::new(0, 0, 100, 43)), Rect::new(0, 1, 100, 7));
}

#[test]
fn dynamic_process_height_matches_rendered_rows_and_caps_at_existing_maximum() {
    let screen = Rect::new(0, 0, 120, 60);
    let cases = [
        (0, false, 3, 0, false),
        (1, false, 4, 1, false),
        (4, false, 7, 4, false),
        (20, false, PROCESS_TABLE_MAX_HEIGHT, 10, false),
        (0, true, 4, 0, true),
        (1, true, 5, 1, true),
        (4, true, 8, 4, true),
        (20, true, PROCESS_TABLE_MAX_HEIGHT, 9, true),
    ];

    for (visible, has_total, height, page_size, show_total) in cases {
        let panels = main_panel_areas(screen, true, visible, has_total);
        assert_eq!(panels.processes.area.height, height, "visible={visible}");
        assert_eq!(panels.processes.page_size, page_size, "visible={visible}");
        assert_eq!(panels.processes.show_tracked_total, show_total, "visible={visible}");
        assert_eq!(panels.details.unwrap().y, panels.processes.area.bottom(), "visible={visible}");
    }
}

#[test]
fn hidden_graphs_keep_full_height_process_layout() {
    let screen = Rect::new(0, 0, 120, 60);
    let empty = main_panel_areas(screen, false, 0, false);
    let overflowing = main_panel_areas(screen, false, 100, true);

    assert_eq!(empty.processes.area, overflowing.processes.area);
    assert!(empty.details.is_none());
    assert!(overflowing.details.is_none());
}

#[test]
fn resizing_gives_all_reclaimed_height_to_graphs() {
    let short = main_panel_areas(Rect::new(0, 0, 120, 45), true, 2, false);
    let tall = main_panel_areas(Rect::new(0, 0, 120, 60), true, 2, false);

    assert_eq!(short.processes.area.height, 5);
    assert_eq!(tall.processes.area.height, 5);
    assert_eq!(short.details.unwrap().y, tall.details.unwrap().y);
    assert_eq!(tall.details.unwrap().height - short.details.unwrap().height, 15);
}

#[test]
fn manual_process_height_can_exceed_the_automatic_cap() {
    let screen = Rect::new(0, 0, 120, 60);
    let automatic = main_panel_areas(screen, true, 30, false);
    let manual = main_panel_areas_with_height(screen, true, 30, false, ProcessPanelHeight::Manual(20));

    assert_eq!(automatic.processes.body_capacity, 10);
    assert_eq!(manual.processes.body_capacity, 20);
    assert_eq!(manual.processes.area.height, PROCESS_TABLE_CHROME_HEIGHT + 20);
    assert!(manual.details.unwrap().height >= GRAPH_WORKSPACE_MIN_HEIGHT);
}

#[test]
fn manual_process_height_does_not_create_blank_body_rows() {
    let panels = main_panel_areas_with_height(
        Rect::new(0, 0, 120, 60),
        true,
        2,
        false,
        ProcessPanelHeight::Manual(20),
    );

    assert_eq!(panels.processes.body_capacity, 2);
    assert_eq!(panels.processes.page_size, 2);
}

#[test]
fn manual_process_height_clamps_without_changing_the_preference() {
    let preference = ProcessPanelHeight::Manual(20);
    let short = main_panel_areas_with_height(Rect::new(0, 0, 120, 25), true, 30, false, preference);
    let tall = main_panel_areas_with_height(Rect::new(0, 0, 120, 60), true, 30, false, preference);

    assert_eq!(short.details.unwrap().height, GRAPH_WORKSPACE_MIN_HEIGHT);
    assert!(short.processes.body_capacity < 20);
    assert_eq!(tall.processes.body_capacity, 20);
}

#[test]
fn preferred_body_capacity_includes_the_tracked_total_row() {
    let panels = main_panel_areas_with_height(
        Rect::new(0, 0, 120, 60),
        true,
        3,
        true,
        ProcessPanelHeight::Manual(3),
    );

    assert_eq!(panels.processes.body_capacity, 3);
    assert_eq!(panels.processes.page_size, 2);
    assert!(panels.processes.show_tracked_total);
}

#[test]
fn process_resize_handle_is_the_shared_bottom_border() {
    let panels = main_panel_areas(Rect::new(0, 0, 120, 60), true, 30, false);
    let handle = panels
        .processes
        .resize_handle
        .expect("visible Graphs should expose the shared resize border");

    assert_eq!(handle.x, panels.processes.area.x);
    assert_eq!(handle.width, panels.processes.area.width);
    assert_eq!(handle.y, panels.processes.area.bottom() - 1);
    assert_eq!(panels.details.unwrap().y, panels.processes.area.bottom());
    assert!(main_panel_areas(Rect::new(0, 0, 120, 60), false, 30, false)
        .processes
        .resize_handle
        .is_none());
}

#[test]
fn shared_graph_controls_use_the_same_order_with_or_without_delta() {
    let area = Rect::new(0, 0, 120, 1);
    let with_delta = graph_shared_control_areas(area, true);
    let without_delta = graph_shared_control_areas(area, false);

    assert!(with_delta.samples.unwrap().x < with_delta.delta.unwrap().x);
    assert!(with_delta.delta.unwrap().x < with_delta.layout.unwrap().x);
    assert!(with_delta.layout.unwrap().x < with_delta.all_samples.unwrap().x);
    assert!(with_delta.all_samples.unwrap().x < with_delta.y_axis.unwrap().x);
    assert!(without_delta.delta.is_none());
    assert!(without_delta.samples.unwrap().x > with_delta.samples.unwrap().x);
}

#[test]
fn shared_graph_controls_drop_what_does_not_fit() {
    let narrow = graph_shared_control_areas(Rect::new(10, 3, 30, 2), true);
    assert_eq!(narrow.y_axis, Some(Rect::new(27, 3, 13, 1)));
    assert_eq!(narrow.all_samples, Some(Rect::new(12, 3, 15, 1)));
    assert_eq!(narrow.layout, None);
    assert_eq!(narrow.delta, None);
    assert_eq!(narrow.samples, None);
}

#[test]
fn large_screen_uses_centered_maximum_outer_size_below_header() {
    let layout = process_info_dialog_layout_for_screen(Rect::new(0, 0, 200, 60), &tab_labels());

    assert_eq!(layout.area.width, 142);
    assert_eq!(layout.area.height, 24);
    assert!(layout.area.y >= 1);
    assert_eq!(layout.area.x, 29);
}

#[test]
fn narrow_or_short_screen_shrinks_only_that_dimension() {
    let narrow = process_info_dialog_layout_for_screen(Rect::new(0, 0, 100, 60), &tab_labels());
    assert_eq!((narrow.area.width, narrow.area.height), (100, 24));

    let short = process_info_dialog_layout_for_screen(Rect::new(0, 0, 200, 24), &tab_labels());
    assert_eq!((short.area.width, short.area.height), (142, 21));
}

#[test]
fn small_screen_keeps_tabs_content_and_shortcuts_separate() {
    let screen = Rect::new(0, 0, 60, 12);
    let layout = process_info_dialog_layout_for_screen(screen, &tab_labels());

    assert!(layout.tabs.bottom() <= layout.content.y);
    assert_eq!(layout.content.bottom() + 1, layout.footer.y);
    assert_eq!(layout.footer.height, 1);
}

#[test]
fn even_splits_give_the_remainder_to_the_first_parts() {
    assert_eq!(
        split_evenly(Rect::new(1, 12, 98, 27), 2, true),
        vec![Rect::new(1, 12, 98, 14), Rect::new(1, 26, 98, 13)]
    );
    assert_eq!(
        split_evenly(Rect::new(1, 12, 98, 14), 3, false),
        vec![Rect::new(1, 12, 33, 14), Rect::new(34, 12, 33, 14), Rect::new(67, 12, 32, 14)]
    );
    assert_eq!(split_evenly(Rect::new(0, 0, 10, 10), 0, false), Vec::<Rect>::new());
}

#[test]
fn graph_cards_place_title_buttons_and_plot() {
    let card = graph_card_layout(Rect::new(1, 26, 33, 13), 3);
    assert_eq!(card.ordinal, 3);
    assert_eq!(card.title, Rect::new(2, 26, 31, 1));
    assert_eq!(card.remove, Rect::new(28, 26, 5, 1));
    assert_eq!(card.display_mode, Rect::new(21, 26, 7, 1));
    assert_eq!(card.remove_label, "[x]");
    assert_eq!(card.plot, Rect::new(2, 27, 31, 11));
    assert_eq!(details_graph_chart_area(Rect::new(0, 0, 40, 20), 6), Some(Rect::new(6, 2, 34, 17)));
}

fn workspace(entry_count: usize, scroll_row: usize) -> GraphWorkspaceState {
    GraphWorkspaceState {
        entry_count,
        active_index: Some(1),
        slot_layout: GraphSlotLayout::Auto,
        scroll_row,
        span_seconds: 300,
        show_samples_panel: false,
        show_sample_delta: false,
        ab_complete: false,
        slot_min_width: 30,
        slot_min_height: 8,
    }
}

#[test]
fn graph_workspace_lays_out_a_grid_of_cards() {
    let layout = graph_workspace_layout(Rect::new(0, 10, 100, 30), workspace(4, 0));
    assert_eq!(layout.controls, Rect::new(0, 10, 100, 1));
    assert_eq!(layout.graph_slots, Rect::new(0, 11, 100, 29));
    assert_eq!(layout.span_controls.zoom_out, Some(Rect::new(30, 11, 3, 1)));
    assert_eq!(layout.span_controls.zoom_in, Some(Rect::new(34, 11, 3, 1)));
    assert_eq!(layout.graph_viewport, Rect::new(1, 12, 98, 27));
    assert_eq!((layout.columns, layout.total_rows, layout.visible_rows, layout.max_scroll_row), (3, 2, 2, 0));
    assert!(!layout.compact);
    assert_eq!(layout.graph_scrollbar, None);
    let ordinals: Vec<usize> = layout.graph_cards.iter().map(|card| card.ordinal).collect();
    assert_eq!(ordinals, vec![0, 1, 2, 3]);
    assert_eq!(layout.graph_cards[3].area, Rect::new(1, 26, 33, 13));
}

#[test]
fn graph_workspace_scrolls_rows_that_do_not_fit() {
    let layout = graph_workspace_layout(Rect::new(0, 10, 100, 20), workspace(10, 5));
    assert_eq!((layout.columns, layout.total_rows, layout.visible_rows, layout.max_scroll_row), (3, 4, 2, 2));
    assert_eq!(layout.graph_scrollbar, Some(Rect::new(98, 12, 1, 17)));
    let ordinals: Vec<usize> = layout.graph_cards.iter().map(|card| card.ordinal).collect();
    assert_eq!(ordinals, vec![6, 7, 8, 9]);
    assert_eq!(layout.graph_cards[0].area, Rect::new(1, 12, 33, 9));
}

#[test]
fn graph_workspace_shows_only_the_active_graph_when_short() {
    let layout = graph_workspace_layout(Rect::new(0, 10, 100, 8), workspace(4, 0));
    assert!(layout.compact);
    assert_eq!(layout.visible_rows, 1);
    assert_eq!(layout.graph_cards.len(), 1);
    assert_eq!(layout.graph_cards[0].ordinal, 1);
    assert_eq!(layout.graph_cards[0].area, Rect::new(1, 12, 97, 5));
    let empty = graph_workspace_layout(Rect::new(0, 10, 100, 30), workspace(0, 0));
    assert!(empty.graph_cards.is_empty());
    assert_eq!(empty.visible_rows, 0);
}

#[test]
fn graph_workspace_puts_samples_beside_or_below() {
    let mut state = workspace(2, 0);
    state.show_samples_panel = true;
    state.show_sample_delta = true;
    let wide = graph_workspace_layout(Rect::new(0, 0, 120, 30), state);
    assert_eq!(wide.graph_slots, Rect::new(0, 1, 69, 29));
    assert_eq!(wide.samples, Some(Rect::new(70, 1, 50, 29)));
    let narrow = graph_workspace_layout(Rect::new(0, 0, 60, 31), state);
    assert_eq!(narrow.graph_slots, Rect::new(0, 1, 60, 20));
    assert_eq!(narrow.samples, Some(Rect::new(0, 21, 60, 10)));
}

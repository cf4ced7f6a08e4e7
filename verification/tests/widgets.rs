use winproc_tui::ui::rect::Rect;
use winproc_tui::ui::theme::{themes, Color};
use winproc_tui::ui::widgets::modal_scrim::{blend_channel, blend_toward, ModalScrimStrength};
use winproc_tui::ui::widgets::scrollable_modal::{
    scrollbar_position, scrollbar_thumb, ScrollableModal, ScrollableModalState,
};

#[test]
fn state_drag_maps_scrollbar_track_to_offsets() {
    let area = Rect::new(10, 5, 1, 12);
    let mut state = ScrollableModalState {
        offset: 0,
        page_size: 10,
        dragging: false,
        grab_offset: 0,
    };

    state.start_drag(area, 5, 100);
    state.drag_to(area, 10, 100);

    assert_eq!(state.offset, 40);

    state.drag_to(area, 16, 100);
    assert_eq!(state.offset, 90);
}

#[test]
fn layout_keeps_one_blank_row_between_content_and_footer() {
    let modal = ScrollableModal::new("TEST", 20, 5, 1);
    let layout = modal.layout(Rect::new(0, 0, 80, 30));

    assert_eq!(layout.area.height, 9);
    assert_eq!(layout.content.height, 5);
    assert_eq!(layout.footer.height, 1);
    assert_eq!(layout.footer.y, layout.content.bottom() + 1);
    assert_eq!(layout.area.x, 28);
    assert_eq!(layout.area.y, 10);
}

#[test]
fn top_left_placement_reserves_the_requested_top_offset() {
    let modal = ScrollableModal::new("TEST", 20, 5, 1).with_top_left_placement(1);
    let layout = modal.layout(Rect::new(4, 7, 80, 30));

    assert_eq!(layout.area.x, 4);
    assert_eq!(layout.area.y, 8);
    assert_eq!(layout.area.height, 9);
}

#[test]
fn stronger_scrims_move_colors_closer_to_the_background() {
    let theme = themes()[0];
    let color = Color::Rgb(200, 180, 160);
    let menu = blend_toward(
        Some(color),
        theme.background,
        ModalScrimStrength::Menu.percent(),
        theme.muted,
    );
    let priority = blend_toward(
        Some(color),
        theme.background,
        ModalScrimStrength::Priority.percent(),
        theme.muted,
    );

    let Color::Rgb(menu_red, _, _) = menu else { panic!("blended colours keep their channels") };
    let Color::Rgb(priority_red, _, _) = priority else { panic!("blended colours keep their channels") };
    assert!(priority_red < menu_red);
}

#[test]
fn blend_channel_rounds_to_the_nearest_step() {
    assert_eq!(blend_channel(200, 12, 25), 153);
    assert_eq!(blend_channel(200, 12, 0), 200);
    assert_eq!(blend_channel(200, 12, 100), 12);
    assert_eq!(blend_channel(200, 12, 250), 12);
}

#[test]
fn non_rgb_colors_fall_back_when_dimmed() {
    let theme = themes()[0];
    assert_eq!(
        blend_toward(None, theme.background, 52, theme.muted),
        theme.muted
    );
    assert_eq!(blend_toward(Some(Color::Black), theme.background, 52, theme.muted), theme.muted);
}

#[test]
fn scroll_state_stays_inside_the_rows() {
    let mut state = ScrollableModalState {
        offset: 0,
        page_size: 0,
        dragging: false,
        grab_offset: 0,
    };
    state.set_page_size(10, 25);
    assert_eq!(state.page_size, 10);
    state.scroll_down(7, 25);
    assert_eq!(state.offset, 7);
    state.scroll_down(100, 25);
    assert_eq!(state.offset, 15);
    state.scroll_up(3);
    assert_eq!(state.offset, 12);
    state.scroll_home();
    assert_eq!(state.offset, 0);
    state.scroll_end(25);
    assert_eq!(state.offset, 15);
    state.ensure_visible(2, 25);
    assert_eq!(state.offset, 2);
    state.ensure_visible(20, 25);
    assert_eq!(state.offset, 11);
    state.ensure_visible(24, 25);
    assert_eq!(state.offset, 15);
    state.reset();
    assert_eq!(state.offset, 0);
    assert!(!state.dragging);
}

#[test]
fn scroll_down_then_up_returns_to_the_same_row() {
    let mut state = ScrollableModalState {
        offset: 3,
        page_size: 5,
        dragging: false,
        grab_offset: 0,
    };
    state.scroll_down(4, 40);
    state.scroll_up(4);
    assert_eq!(state.offset, 3);
}

#[test]
fn modal_scrollbar_and_thumb_span_the_track() {
    assert_eq!(scrollbar_position(100, 10, 0), 0);
    assert_eq!(scrollbar_position(100, 10, 90), 99);
    assert_eq!(scrollbar_position(100, 10, 45), 50);
    assert_eq!(scrollbar_position(10, 10, 3), 0);
    let thumb = scrollbar_thumb(100, 10, 90, 10).unwrap();
    assert_eq!(thumb.len, 1);
    assert_eq!(thumb.start, 9);
    assert!(scrollbar_thumb(10, 10, 0, 10).is_none());
    assert!(scrollbar_thumb(0, 10, 0, 10).is_none());
}

#[test]
fn modal_scrollbar_area_follows_the_content() {
    let modal = ScrollableModal::new("TEST", 20, 50, 1);
    let area = Rect::new(0, 0, 80, 30);
    let layout = modal.layout(area);
    let bar = modal.scrollbar_area(area, modal.page_size(area)).unwrap();
    assert_eq!(bar.y, layout.content.y);
    assert_eq!(bar.height, layout.content.height);
    assert_eq!(bar.width, 1);
    assert!(ScrollableModal::new("TEST", 20, 5, 1)
        .scrollbar_area(area, 10)
        .is_none());
    assert_eq!(modal.max_offset_for_page_size(20), 30);
    assert_eq!(modal.max_offset_for_page_size(0), 49);
}

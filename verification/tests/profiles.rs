use winproc_tui::ui::investigation_profiles::{
    browse_layout, investigation_profile_index_at, investigation_profile_startup_at_for_screen,
    investigation_profile_startup_link_at_for_screen, investigation_profiles_page_size_for_screen,
    report_list_area, startup_dialog_area,
};
use winproc_tui::ui::rect::Rect;
use winproc_tui::ui::recording_dialog::{
    recording_interval_line, recording_interval_option_at, recording_interval_selector_area,
    recording_overwrite_dialog_area, recording_path_input_area,
};
use winproc_tui::ui::styled::Tone;

#[test]
fn profiles_dialog_places_list_and_rows() {
    let layout = browse_layout(Rect::new(0, 0, 120, 40), 3);
    assert_eq!(layout.popup, Rect::new(16, 9, 88, 21));
    assert_eq!(layout.content, Rect::new(17, 10, 86, 19));
    assert_eq!(layout.list, Rect::new(17, 14, 86, 3));
    assert_eq!(layout.summary_label_row, 8);
    assert_eq!(layout.summary_row, 9);
    assert_eq!(layout.startup_row, 15);
    assert_eq!(layout.navigation_shortcut_row, 17);
    assert_eq!(layout.management_shortcut_row, 18);
}

#[test]
fn profiles_list_holds_one_to_six_rows() {
    assert_eq!(browse_layout(Rect::new(0, 0, 120, 40), 0).list.height, 1);
    assert_eq!(browse_layout(Rect::new(0, 0, 120, 40), 40).list.height, 6);
}

#[test]
fn profiles_page_size_follows_the_shown_list() {
    let area = Rect::new(0, 0, 120, 40);
    assert_eq!(investigation_profiles_page_size_for_screen(area, false, 3), 3);
    assert_eq!(investigation_profiles_page_size_for_screen(area, true, 3), 15);
    assert_eq!(investigation_profiles_page_size_for_screen(Rect::new(0, 0, 120, 5), false, 3), 1);
}

#[test]
fn report_list_is_cut_to_its_dialog() {
    assert_eq!(report_list_area(Rect::new(1, 1, 50, 10)), Rect::new(1, 5, 50, 6));
    assert_eq!(report_list_area(Rect::new(1, 1, 50, 30)), Rect::new(1, 5, 50, 15));
}

#[test]
fn profile_index_at_reads_the_scrolled_list() {
    let area = Rect::new(0, 0, 120, 40);
    assert_eq!(investigation_profile_index_at(area, 20, 15, 0, 3), Some(1));
    assert_eq!(investigation_profile_index_at(area, 20, 17, 0, 3), None);
    assert_eq!(investigation_profile_index_at(area, 20, 15, 2, 3), None);
    assert_eq!(investigation_profile_index_at(area, 20, 15, 1, 5), Some(3));
}

#[test]
fn startup_choice_and_link_under_the_pointer() {
    let area = Rect::new(0, 0, 120, 40);
    assert_eq!(startup_dialog_area(area), Rect::new(24, 14, 72, 12));
    assert_eq!(investigation_profile_startup_at_for_screen(area, 30, 19, 3), Some(1));
    assert_eq!(investigation_profile_startup_at_for_screen(area, 30, 21, 3), None);
    assert_eq!(investigation_profile_startup_at_for_screen(area, 24, 19, 3), None);
    assert!(investigation_profile_startup_link_at_for_screen(area, 20, 25, 3));
    assert!(!investigation_profile_startup_link_at_for_screen(area, 20, 24, 3));
}

#[test]
fn recording_dialog_fields_and_choices() {
    let area = Rect::new(0, 0, 120, 40);
    assert_eq!(recording_path_input_area(area), Rect::new(22, 17, 76, 1));
    assert_eq!(recording_interval_selector_area(area), Rect::new(37, 19, 61, 1));
    let options = vec![1u64, 5, 10];
    assert_eq!(recording_interval_option_at(area, 40, 19, &options), Some(0));
    assert_eq!(recording_interval_option_at(area, 44, 19, &options), None);
    assert_eq!(recording_interval_option_at(area, 53, 19, &options), Some(2));
    assert_eq!(recording_interval_option_at(area, 40, 18, &options), None);
    assert_eq!(recording_overwrite_dialog_area(area), Rect::new(36, 16, 48, 7));
}

#[test]
fn recording_interval_line_marks_the_choice() {
    let line = recording_interval_line(&vec![1, 5, 10], 1, false);
    let texts: Vec<&str> = line.iter().map(|p| p.text.as_str()).collect();
    assert_eq!(texts, vec!["( ) 1s", "  ", "(*) 5s", "  ", "( ) 10s"]);
    let tones: Vec<Tone> = line.iter().map(|p| p.tone).collect();
    assert_eq!(tones, vec![Tone::Text, Tone::Plain, Tone::Chosen, Tone::Plain, Tone::Text]);
    let focused = recording_interval_line(&vec![1, 5, 10], 1, true);
    assert_eq!(focused[2].tone, Tone::Focused);
}

use winproc_tui::ui::investigation_profiles::moving_average_mode;
use winproc_tui::ui::investigation_profiles::{profile_summary, ProfileSummary};
use winproc_tui::ui::details_panel::samples_padding_rows;
use winproc_tui::ui::graph_slot::TextStyle;
use winproc_tui::ui::investigation_profiles::{current_profile_label, profile_is_active, profile_row_style};
use winproc_tui::ui::recording_dialog::tracking_list_text;
use winproc_tui::ui::theme::themes;

#[test]
fn current_profile_line_names_the_profile_or_says_unsaved() {
    assert_eq!(current_profile_label(Some("Leak hunt"), false), "Profile: Leak hunt");
    assert_eq!(current_profile_label(Some("Leak hunt"), true), "Profile: Leak hunt (modified)");
    assert_eq!(current_profile_label(None, true), "Not saved as a Profile");
}

#[test]
fn active_profile_matches_without_ascii_case() {
    assert!(profile_is_active(Some("Leak Hunt"), "leak hunt"));
    assert!(!profile_is_active(Some("Leak Hunt"), "leak hunter"));
    assert!(!profile_is_active(None, "leak hunt"));
    assert!(!profile_is_active(Some("Äpfel"), "äpfel"));
}

#[test]
fn profile_rows_raise_the_cursor_and_mark_the_active_one() {
    let theme = themes()[0];
    assert_eq!(profile_row_style(true, true, &theme).bg, Some(theme.highlight));
    assert_eq!(profile_row_style(false, true, &theme).bg, Some(theme.selection));
    assert!(profile_row_style(false, true, &theme).bold);
    assert_eq!(profile_row_style(false, false, &theme), TextStyle::fg(theme.text));
}

#[test]
fn tracking_list_size_uses_singular_and_plural() {
    assert_eq!(tracking_list_text(1), "1 entry (fixed while recording)");
    assert_eq!(tracking_list_text(0), "0 entries (fixed while recording)");
    assert_eq!(tracking_list_text(12), "12 entries (fixed while recording)");
}

#[test]
fn samples_list_pads_up_to_its_summary() {
    assert_eq!(samples_padding_rows(3, 1, 2, 10), (4, 1));
    assert_eq!(samples_padding_rows(8, 1, 2, 10), (0, 0));
    assert_eq!(samples_padding_rows(7, 2, 2, 10), (0, 1));
}

#[test]
fn moving_average_modes_ignore_case_and_surrounding_blanks() {
    assert!(moving_average_mode("ma"));
    assert!(moving_average_mode("  MA5 "));
    assert!(moving_average_mode("Moving_Average_5"));
    assert!(!moving_average_mode("raw"));
    assert!(!moving_average_mode("m a"));
    assert!(!moving_average_mode("   "));
}

#[test]
fn selected_profile_summary_lines() {
    let profile = ProfileSummary {
        name: "Leak hunt".to_string(),
        tracked_count: 1,
        tracked_only: true,
        process_view: "Tree".to_string(),
        column_count: 4,
        sort_by: "Private".to_string(),
        sort_order: "desc".to_string(),
        graph_display_modes: vec!["raw".to_string(), " MA ".to_string(), "ma5".to_string()],
        graph_columns: 2,
        graph_time_span_seconds: 60,
        samples: true,
        delta: false,
        y_axis_zero_min: false,
        recording_interval_seconds: 5,
    };
    let (label, lines) = profile_summary(Some(&profile));
    assert_eq!(label, "SELECTED PROFILE · Leak hunt");
    assert_eq!(
        lines,
        vec![
            "Tracking    1 name    Tracked-only On    View Tree".to_string(),
            "Processes   4 columns    Sort Private desc".to_string(),
            "Graphs      3 (1 Raw / 2 MA5)    Layout 2 cols    Span 60s".to_string(),
            "Inspector   Samples On    Delta Off    Y min data".to_string(),
            "Recording   5s".to_string(),
        ]
    );
    let mut other = profile.clone();
    other.tracked_count = 3;
    other.y_axis_zero_min = true;
    other.graph_columns = 0;
    let (_, lines) = profile_summary(Some(&other));
    assert_eq!(lines[0], "Tracking    3 names    Tracked-only On    View Tree");
    assert_eq!(lines[2], "Graphs      3 (1 Raw / 2 MA5)    Layout Auto    Span 60s");
    assert_eq!(lines[3], "Inspector   Samples On    Delta Off    Y min 0");
    let (label, lines) = profile_summary(None);
    assert_eq!(label, "SELECTED PROFILE");
    assert_eq!(lines, vec!["No saved Profiles. Press s to save the current investigation.".to_string()]);
}

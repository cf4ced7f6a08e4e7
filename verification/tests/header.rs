use winproc_tui::ui::graph_slot::TextStyle;
use winproc_tui::ui::header::{header_line, header_menu_area, header_menu_style, header_part_style, AppActivity, HeaderPart};
use winproc_tui::ui::rect::Rect;
use winproc_tui::ui::theme::{themes, Color};

fn texts(line: &winproc_tui::ui::header::HeaderLine) -> Vec<String> {
    line.segments.iter().map(|segment| segment.text.clone()).collect()
}

#[test]
fn recording_header_lists_badges_log_name_and_product() {
    let line = header_line(
        Rect::new(0, 0, 80, 1),
        AppActivity::Recording,
        Some(5),
        None,
        false,
        1,
        None,
        Some("Default"),
        true,
        Some("run.csv"),
        "1.2.3",
    );
    assert_eq!(
        texts(&line),
        vec!["[MENU]", "  ", " REC ", " · ", "5s AVG", " ", "/", "  ", "PF: Default*", "  ", "run.csv"]
    );
    assert_eq!(line.segments[0].part, HeaderPart::Menu);
    assert_eq!(line.segments[4].part, HeaderPart::Interval);
    assert_eq!(line.segments[6].part, HeaderPart::Spinner);
    assert_eq!(line.segments[10].part, HeaderPart::LogName);
    assert_eq!(line.product_text, "winproc-tui 1.2.3");
    assert_eq!(line.product_area, Some(Rect::new(63, 0, 17, 1)));
}

#[test]
fn narrow_header_drops_the_product_then_shortens_the_log_name() {
    let narrow = header_line(
        Rect::new(0, 0, 40, 1),
        AppActivity::Recording,
        Some(5),
        None,
        false,
        1,
        None,
        Some("Default"),
        true,
        Some("run.csv"),
        "1.2.3",
    );
    assert_eq!(narrow.product_area, None);
    assert_eq!(narrow.segments.len(), 9);
    let medium = header_line(
        Rect::new(0, 0, 45, 1),
        AppActivity::Recording,
        Some(5),
        None,
        false,
        1,
        None,
        Some("Default"),
        true,
        Some("run.csv"),
        "1.2.3",
    );
    assert_eq!(medium.product_area, None);
    assert_eq!(medium.segments.last().unwrap().text, "...sv");
}

#[test]
fn log_view_header_shows_interval_staleness_and_no_profile() {
    let line = header_line(
        Rect::new(0, 0, 100, 1),
        AppActivity::LogView,
        None,
        Some(1),
        true,
        0,
        Some(12),
        Some("Default"),
        false,
        None,
        "1.2.3",
    );
    assert_eq!(
        texts(&line),
        vec!["[MENU]", "  ", " LOG ", " · ", "1s", " · STALE 12s", "  ", "PF: --"]
    );
    let paused = header_line(
        Rect::new(0, 0, 100, 1),
        AppActivity::Live,
        None,
        None,
        true,
        0,
        None,
        None,
        false,
        None,
        "1.2.3",
    );
    assert_eq!(texts(&paused), vec!["[MENU]", "  ", " LIVE ", "  ", " DISPLAY PAUSED ", "  ", "PF: none"]);
}

#[test]
fn menu_button_needs_room_beside_the_badge() {
    assert_eq!(header_menu_area(Rect::new(2, 0, 15, 1), AppActivity::Live), Some(Rect::new(2, 0, 6, 1)));
    assert_eq!(header_menu_area(Rect::new(2, 0, 13, 1), AppActivity::Live), None);
    assert_eq!(header_menu_area(Rect::new(2, 0, 13, 1), AppActivity::Recording), Some(Rect::new(2, 0, 6, 1)));
    assert_eq!(header_menu_area(Rect::new(2, 0, 80, 0), AppActivity::Live), None);
}

#[test]
fn header_pieces_take_their_looks() {
    let theme = themes()[0];
    assert_eq!(header_menu_style(true, false, &theme).bg, Some(theme.table_selection_surface));
    assert_eq!(header_menu_style(false, true, &theme).bg, Some(theme.focus_surface));
    assert_eq!(header_menu_style(false, false, &theme).fg, Some(theme.key_hint));
    assert!(header_menu_style(false, false, &theme).bold);
    let mode = header_part_style(HeaderPart::Mode, AppActivity::Recording, false, false, &theme);
    assert_eq!(mode.bg, Some(theme.danger));
    assert_eq!(mode.fg, Some(theme.background));
    assert_eq!(header_part_style(HeaderPart::Mode, AppActivity::Live, false, false, &theme).bg, Some(theme.active_series));
    assert_eq!(header_part_style(HeaderPart::Paused, AppActivity::Live, false, false, &theme).bg, Some(theme.warning));
    assert_eq!(header_part_style(HeaderPart::Profile, AppActivity::Live, false, false, &theme).fg, Some(Color::Black));
    assert_eq!(header_part_style(HeaderPart::LogName, AppActivity::Recording, false, false, &theme).fg, Some(theme.warning));
    assert_eq!(header_part_style(HeaderPart::LogName, AppActivity::LogView, false, false, &theme).fg, Some(theme.text));
    assert_eq!(header_part_style(HeaderPart::Gap, AppActivity::Live, true, true, &theme), TextStyle::plain());
}

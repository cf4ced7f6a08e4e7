//! The built-in color schemes.

use vstd::prelude::*;

use crate::ui::process_table::{ascii_lowercase, ascii_lowercase_chars};

verus! {

/// A terminal color: one given by its red, green and blue channels, or the
/// terminal's own black.
#[derive(Clone, Copy, Debug, PartialEq, Eq, Structural)]
pub enum Color {
    Rgb(u8, u8, u8),
    Black,
}

/// A color scheme: a name and the color of each role on screen.
#[derive(Clone, Copy, Debug)]
pub struct Theme {
    pub name: &'static str,
    pub background: Color,
    pub panel: Color,
    pub panel_alt: Color,
    pub border: Color,
    pub text: Color,
    pub muted: Color,
    pub accent: Color,
    pub focus_border: Color,
    pub focus_surface: Color,
    pub key_hint: Color,
    pub table_selection_surface: Color,
    pub table_multi_selection_surface: Color,
    pub table_column_surface: Color,
    pub table_intersection_surface: Color,
    pub graph_line: Color,
    pub active_series: Color,
    pub cursor_guide: Color,
    pub success: Color,
    pub warning: Color,
    pub danger: Color,
    pub tracked_color: Color,
    pub exited: Color,
    pub highlight: Color,
    pub selection: Color,
}

/// A dark scheme: neutral surfaces shared by all dark schemes, with its own
/// accent, focus, hint, table, series, warning and tracked colors.
pub open spec fn dark_theme_spec(
    name: &'static str,
    accent: Color,
    focus_border: Color,
    key_hint: Color,
    table_selection_surface: Color,
    table_column_surface: Color,
    table_intersection_surface: Color,
    active_series: Color,
    warning: Color,
    tracked_color: Color,
) -> Theme {
    Theme {
        name,
        background: Color::Rgb(12, 13, 14),
        panel: Color::Rgb(17, 19, 21),
        panel_alt: Color::Rgb(26, 29, 32),
        border: Color::Rgb(53, 58, 64),
        text: Color::Rgb(230, 226, 218),
        muted: Color::Rgb(154, 152, 146),
        accent,
        focus_border,
        focus_surface: Color::Rgb(48, 52, 58),
        key_hint,
        table_selection_surface,
        table_multi_selection_surface: Color::Rgb(45, 48, 52),
        table_column_surface,
        table_intersection_surface,
        graph_line: Color::Rgb(139, 144, 150),
        active_series,
        cursor_guide: Color::Rgb(101, 106, 112),
        success: Color::Rgb(120, 194, 139),
        warning,
        danger: Color::Rgb(224, 108, 117),
        tracked_color,
        exited: Color::Rgb(109, 114, 122),
        highlight: Color::Rgb(34, 37, 41),
        selection: Color::Rgb(27, 30, 33),
    }
}

/// A dark scheme; see `dark_theme_spec`.
pub fn dark_theme(
    name: &'static str,
    accent: Color,
    focus_border: Color,
    key_hint: Color,
    table_selection_surface: Color,
    table_column_surface: Color,
    table_intersection_surface: Color,
    active_series: Color,
    warning: Color,
    tracked_color: Color,
) -> (r: Theme)
    ensures
        r == dark_theme_spec(
            name,
            accent,
            focus_border,
            key_hint,
            table_selection_surface,
            table_column_surface,
            table_intersection_surface,
            active_series,
            warning,
            tracked_color,
        ),
{
    Theme {
        name,
        background: Color::Rgb(12, 13, 14),
        panel: Color::Rgb(17, 19, 21),
        panel_alt: Color::Rgb(26, 29, 32),
        border: Color::Rgb(53, 58, 64),
        text: Color::Rgb(230, 226, 218),
        muted: Color::Rgb(154, 152, 146),
        accent,
        focus_border,
        focus_surface: Color::Rgb(48, 52, 58),
        key_hint,
        table_selection_surface,
        table_multi_selection_surface: Color::Rgb(45, 48, 52),
        table_column_surface,
        table_intersection_surface,
        graph_line: Color::Rgb(139, 144, 150),
        active_series,
        cursor_guide: Color::Rgb(101, 106, 112),
        success: Color::Rgb(120, 194, 139),
        warning,
        danger: Color::Rgb(224, 108, 117),
        tracked_color,
        exited: Color::Rgb(109, 114, 122),
        highlight: Color::Rgb(34, 37, 41),
        selection: Color::Rgb(27, 30, 33),
    }
}

/// The four built-in schemes, in order: Green, Yellow, Orange, Cyan.
pub open spec fn themes_spec() -> Seq<Theme> {
    seq![
        dark_theme_spec(
            "Green",
            Color::Rgb(201, 206, 214),
            Color::Rgb(104, 196, 164),
            Color::Rgb(83, 151, 128),
            Color::Rgb(19, 51, 48),
            Color::Rgb(39, 49, 54),
            Color::Rgb(32, 79, 73),
            Color::Rgb(72, 190, 151),
            Color::Rgb(214, 170, 94),
            Color::Rgb(72, 190, 151),
        ),
        dark_theme_spec(
            "Yellow",
            Color::Rgb(226, 200, 111),
            Color::Rgb(239, 209, 116),
            Color::Rgb(169, 144, 77),
            Color::Rgb(63, 54, 28),
            Color::Rgb(55, 51, 41),
            Color::Rgb(92, 77, 33),
            Color::Rgb(224, 196, 108),
            Color::Rgb(229, 139, 82),
            Color::Rgb(224, 196, 108),
        ),
        dark_theme_spec(
            "Orange",
            Color::Rgb(238, 157, 99),
            Color::Rgb(242, 163, 111),
            Color::Rgb(181, 111, 67),
            Color::Rgb(67, 39, 25),
            Color::Rgb(56, 46, 40),
            Color::Rgb(97, 54, 31),
            Color::Rgb(229, 139, 82),
            Color::Rgb(214, 170, 94),
            Color::Rgb(229, 139, 82),
        ),
        dark_theme_spec(
            "Cyan",
            Color::Rgb(121, 216, 232),
            Color::Rgb(116, 220, 235),
            Color::Rgb(84, 167, 181),
            Color::Rgb(23, 58, 64),
            Color::Rgb(41, 54, 58),
            Color::Rgb(32, 88, 97),
            Color::Rgb(69, 199, 214),
            Color::Rgb(214, 170, 94),
            Color::Rgb(69, 199, 214),
        ),
    ]
}

/// The four built-in schemes.
pub fn themes() -> (r: Vec<Theme>)
    ensures
        r@ == themes_spec(),
{
    let mut r: Vec<Theme> = Vec::new();
    r.push(
        dark_theme(
            "Green",
            Color::Rgb(201, 206, 214),
            Color::Rgb(104, 196, 164),
            Color::Rgb(83, 151, 128),
            Color::Rgb(19, 51, 48),
            Color::Rgb(39, 49, 54),
            Color::Rgb(32, 79, 73),
            Color::Rgb(72, 190, 151),
            Color::Rgb(214, 170, 94),
            Color::Rgb(72, 190, 151),
        ),
    );
    r.push(
        dark_theme(
            "Yellow",
            Color::Rgb(226, 200, 111),
            Color::Rgb(239, 209, 116),
            Color::Rgb(169, 144, 77),
            Color::Rgb(63, 54, 28),
            Color::Rgb(55, 51, 41),
            Color::Rgb(92, 77, 33),
            Color::Rgb(224, 196, 108),
            Color::Rgb(229, 139, 82),
            Color::Rgb(224, 196, 108),
        ),
    );
    r.push(
        dark_theme(
            "Orange",
            Color::Rgb(238, 157, 99),
            Color::Rgb(242, 163, 111),
            Color::Rgb(181, 111, 67),
            Color::Rgb(67, 39, 25),
            Color::Rgb(56, 46, 40),
            Color::Rgb(97, 54, 31),
            Color::Rgb(229, 139, 82),
            Color::Rgb(214, 170, 94),
            Color::Rgb(229, 139, 82),
        ),
    );
    r.push(
        dark_theme(
            "Cyan",
            Color::Rgb(121, 216, 232),
            Color::Rgb(116, 220, 235),
            Color::Rgb(84, 167, 181),
            Color::Rgb(23, 58, 64),
            Color::Rgb(41, 54, 58),
            Color::Rgb(32, 88, 97),
            Color::Rgb(69, 199, 214),
            Color::Rgb(214, 170, 94),
            Color::Rgb(69, 199, 214),
        ),
    );
    assert(r@ =~= themes_spec());
    r
}

/// Every built-in scheme keeps its roles apart: focus from the active series,
/// hints from focus, each table surface from the others and multi-selection
/// from the panel, warnings from tracked names; and it draws the active series
/// in its tracked color.
pub proof fn themes_separate_roles(i: int)
    requires
        0 <= i < 4,
    ensures
        themes_spec()[i].focus_border != themes_spec()[i].active_series,
        themes_spec()[i].key_hint != themes_spec()[i].focus_border,
        themes_spec()[i].table_multi_selection_surface != themes_spec()[i].panel,
        themes_spec()[i].table_multi_selection_surface != themes_spec()[i].table_column_surface,
        themes_spec()[i].table_selection_surface != themes_spec()[i].table_column_surface,
        themes_spec()[i].table_selection_surface != themes_spec()[i].table_intersection_surface,
        themes_spec()[i].table_column_surface != themes_spec()[i].table_intersection_surface,
        themes_spec()[i].warning != themes_spec()[i].tracked_color,
        themes_spec()[i].active_series == themes_spec()[i].tracked_color,
{
}

/// Whether two texts are equal when ASCII letters are compared without case.
pub open spec fn eq_ignore_ascii_case(a: Seq<char>, b: Seq<char>) -> bool {
    ascii_lowercase(a) == ascii_lowercase(b)
}

/// Whether two texts are equal when ASCII letters are compared without case.
pub fn str_eq_ignore_ascii_case(a: &str, b: &str) -> (r: bool)
    ensures
        r == eq_ignore_ascii_case(a@, b@),
{
    let x = ascii_lowercase_chars(a);
    let y = ascii_lowercase_chars(b);
    if x.len() != y.len() {
        assert(x@.len() != y@.len());
        return false;
    }
    let mut i: usize = 0;
    while i < x.len()
        invariant
            i <= x@.len() == y@.len(),
            x@ == ascii_lowercase(a@),
            y@ == ascii_lowercase(b@),
            forall|j: int| 0 <= j < i ==> x@[j] == y@[j],
        decreases x@.len() - i,
    {
        if x[i] != y[i] {
            assert(x@[i as int] != y@[i as int]);
            assert(x@ != y@);
            return false;
        }
        i = i + 1;
    }
    assert(x@ =~= y@);
    true
}

/// The scheme for a saved name, letters compared without case: `Multi` (an
/// older name) gives the fourth scheme, a built-in name its scheme, any other
/// name the first.
pub open spec fn theme_index_spec(name: Seq<char>) -> int {
    if eq_ignore_ascii_case("Multi"@, name) {
        3
    } else if eq_ignore_ascii_case(themes_spec()[0].name@, name) {
        0
    } else if eq_ignore_ascii_case(themes_spec()[1].name@, name) {
        1
    } else if eq_ignore_ascii_case(themes_spec()[2].name@, name) {
        2
    } else if eq_ignore_ascii_case(themes_spec()[3].name@, name) {
        3
    } else {
        0
    }
}

/// The scheme for a saved name; see `theme_index_spec`.
pub fn theme_index_by_name(name: &str) -> (r: usize)
    ensures
        r == theme_index_spec(name@),
        r < 4,
{
    if str_eq_ignore_ascii_case("Multi", name) {
        return 3;
    }
    let all = themes();
    let mut i: usize = 0;
    while i < all.len()
        invariant
            i <= 4,
            all@ == themes_spec(),
            forall|j: int| 0 <= j < i ==> !eq_ignore_ascii_case(themes_spec()[j].name@, name@),
            !eq_ignore_ascii_case("Multi"@, name@),
        decreases 4 - i,
    {
        if str_eq_ignore_ascii_case(all[i].name, name) {
            return i;
        }
        i = i + 1;
    }
    0
}

} // verus!

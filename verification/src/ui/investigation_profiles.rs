//! Rows and labels of the investigation profiles dialog.

use vstd::prelude::*;

use crate::ui::format::{decimal, decimal_string};
use crate::ui::header::ellipsis3;
use crate::ui::process_table::{active_filter_query, ascii_lowercase, ascii_lowercase_chars, trimmed};
use crate::ui::rect::{add16, add_upto, max_int, min_int, sub0, Rect};
use crate::ui::widgets::confirm_dialog::{centered_dialog_rect, centered_dialog_spec, centered_fits};
use crate::ui::text::{
    char_count_before, chars_of, is_char_boundary_at, byte_len, pad_end, pad_end_string,
    pad_start, pad_start_string, push_range, push_repeated, repeated, string_from_chars,
};

verus! {

/// What happens at start-up.
#[derive(Clone, Copy, Debug, PartialEq, Eq, Structural)]
pub enum InvestigationStartup {
    ResumeLast,
    ChooseProfile,
    StartEmpty,
}

/// `value` cut at its end to at most `width` characters: kept whole when it
/// fits, all dots when the width leaves no room for text, otherwise its head and
/// three dots.
pub open spec fn truncate_spec(value: Seq<char>, width: int) -> Seq<char> {
    if value.len() <= width {
        value
    } else if width <= 3 {
        repeated('.', width)
    } else {
        value.take(width - 3) + ellipsis3()
    }
}

/// `value` cut at its end to at most `width` characters.
pub fn truncate(value: &str, width: usize) -> (r: String)
    ensures
        r@ == truncate_spec(value@, width as int),
        r@.len() == if value@.len() <= width { value@.len() as int } else { width as int },
{
    let chars = chars_of(value);
    let n = chars.len();
    if n <= width {
        return String::from_str(value);
    }
    let mut out: Vec<char> = Vec::new();
    if width <= 3 {
        push_repeated(&mut out, '.', width);
    } else {
        push_range(&mut out, &chars, 0, width - 3);
        push_repeated(&mut out, '.', 3);
    }
    assert(out@ =~= truncate_spec(value@, width as int));
    string_from_chars(&out)
}

/// The label of a graph layout with `columns` columns.
pub fn graph_layout_label(columns: u8) -> (r: &'static str)
    ensures
        r@ == if columns == 1 {
            "1 col"@
        } else if columns == 2 {
            "2 cols"@
        } else if columns == 3 {
            "3 cols"@
        } else {
            "Auto"@
        },
{
    match columns {
        1 => "1 col",
        2 => "2 cols",
        3 => "3 cols",
        _ => "Auto",
    }
}

/// `On` or `Off`.
pub fn on_off(value: bool) -> (r: &'static str)
    ensures
        r@ == if value { "On"@ } else { "Off"@ },
{
    if value {
        "On"
    } else {
        "Off"
    }
}

/// What a start-up choice does, in words.
pub fn startup_description(startup: InvestigationStartup) -> (r: &'static str)
    ensures
        r@ == match startup {
            InvestigationStartup::ResumeLast => "Restore the last investigation"@,
            InvestigationStartup::ChooseProfile => "Ask which Profile to load"@,
            InvestigationStartup::StartEmpty => "Use default investigation settings"@,
        },
{
    match startup {
        InvestigationStartup::ResumeLast => "Restore the last investigation",
        InvestigationStartup::ChooseProfile => "Ask which Profile to load",
        InvestigationStartup::StartEmpty => "Use default investigation settings",
    }
}

/// The visible window of an edited text and the cursor's column in it.
///
/// The window ends at the cursor or later, shows at most `width` characters
/// and starts as early as it can while the cursor stays in its last column.
pub open spec fn input_window(value: Seq<char>, cursor_char: int, width: int) -> (Seq<char>, int) {
    let start = sub0(cursor_char, sub0(width, 1));
    let end = if start + width < value.len() { start + width } else { value.len() as int };
    (value.subrange(start, if end >= start { end } else { start }), cursor_char - start)
}

/// The character index of byte offset `cursor`, held at the end of the text.
pub open spec fn cursor_char_of(value: Seq<char>, cursor: int, k: int) -> bool {
    0 <= k <= value.len() && byte_len(value.take(k)) == if cursor >= byte_len(value) {
        byte_len(value)
    } else {
        cursor
    }
}

/// The visible part of an edited text of `width` characters and the cursor's
/// column in it; `cursor` is a byte offset into `value`.
pub fn input_view(value: &str, cursor: usize, width: usize) -> (r: (String, usize))
    requires
        byte_len(value@) <= usize::MAX,
        cursor >= byte_len(value@) || is_char_boundary_at(value@, cursor as int),
    ensures
        exists|k: int|
            cursor_char_of(value@, cursor as int, k) && r.0@ == input_window(value@, k, width as int).0
                && r.1 == input_window(value@, k, width as int).1,
{
    let cursor_char = char_count_before(value, cursor);
    let chars = chars_of(value);
    let char_count = chars.len();
    let start_char = cursor_char.saturating_sub(width.saturating_sub(1));
    let end_char0 = start_char.saturating_add(width);
    let end_char = if end_char0 < char_count { end_char0 } else { char_count };
    let mut out: Vec<char> = Vec::new();
    let stop = if end_char >= start_char { end_char } else { start_char };
    if start_char <= char_count {
        push_range(&mut out, &chars, start_char, stop);
    }
    assert(out@ =~= input_window(value@, cursor_char as int, width as int).0);
    assert(cursor_char_of(value@, cursor as int, cursor_char as int));
    (string_from_chars(&out), cursor_char - start_char)
}

/// The suffix of a profile row: its counts of tracked names and graphs, and a
/// mark on the current profile.
pub open spec fn profile_suffix(tracked_count: nat, graph_count: nat, active: bool) -> Seq<char> {
    "  "@ + pad_start(decimal(tracked_count), 2) + " tracked  "@ + pad_start(decimal(graph_count), 2)
        + " Graphs"@ + if active { "  [current]"@ } else { Seq::empty() }
}

/// A row of the profile list: the cursor, the name cut and padded to the room
/// left by the suffix, then the suffix.
pub open spec fn profile_row_spec(
    cursor: Seq<char>,
    name: Seq<char>,
    tracked_count: nat,
    graph_count: nat,
    active: bool,
    width: int,
) -> Seq<char> {
    let suffix = profile_suffix(tracked_count, graph_count, active);
    let used = cursor.len() + 1 + suffix.len();
    let name_width = if width > used { width - used } else { 0 };
    cursor + " "@ + pad_end(truncate_spec(name, name_width), name_width) + suffix
}

/// A row of the profile list.
pub fn profile_row_text(
    cursor: &str,
    name: &str,
    tracked_count: usize,
    graph_count: usize,
    active: bool,
    width: usize,
) -> (r: String)
    requires
        cursor@.len() + 1 + profile_suffix(tracked_count as nat, graph_count as nat, active).len()
            <= usize::MAX,
    ensures
        r@ == profile_row_spec(cursor@, name@, tracked_count as nat, graph_count as nat, active, width as int),
{
    let mut suffix = String::from_str("  ");
    let tracked_digits = decimal_string(tracked_count as u128);
    let tracked_digits = pad_start_string(tracked_digits.as_str(), 2);
    suffix.append(tracked_digits.as_str());
    suffix.append(" tracked  ");
    let graphs = decimal_string(graph_count as u128);
    let graphs = pad_start_string(graphs.as_str(), 2);
    suffix.append(graphs.as_str());
    suffix.append(" Graphs");
    if active {
        suffix.append("  [current]");
    }
    proof {
        assert(suffix@ =~= profile_suffix(tracked_count as nat, graph_count as nat, active));
    }
    let used = cursor.unicode_len() + 1 + suffix.as_str().unicode_len();
    let name_width = width.saturating_sub(used);
    let cut = truncate(name, name_width);
    let padded = pad_end_string(cut.as_str(), name_width);
    let mut out = String::from_str(cursor);
    out.append(" ");
    out.append(padded.as_str());
    out.append(suffix.as_str());
    out
}

/// Columns of the profiles dialog.
pub const DIALOG_WIDTH: u16 = 88;
/// Row of the profile list in the dialog's body.
pub const LIST_ROW: u16 = 4;
/// Most rows of the profile list.
pub const MAX_LIST_HEIGHT: u16 = 6;
/// Row of the load report's list in its body.
pub const REPORT_LIST_ROW: u16 = 4;
/// Most rows of the load report's list.
pub const REPORT_LIST_HEIGHT: u16 = 15;
/// Rows of the load report dialog.
pub const REPORT_DIALOG_HEIGHT: u16 = 25;
/// Columns of the startup dialog.
pub const STARTUP_DIALOG_WIDTH: u16 = 72;
/// Rows of the startup dialog.
pub const STARTUP_DIALOG_HEIGHT: u16 = 12;
/// Row of the first startup choice in its body.
pub const STARTUP_OPTION_ROW: u16 = 3;

/// Where the parts of the profiles dialog stand: its frame, its body, the
/// list, and the rows of the summary label, the summary, the startup link and
/// the two shortcut rows.
#[derive(Clone, Copy, Debug, PartialEq, Eq, Structural)]
pub struct BrowseLayout {
    pub popup: Rect,
    pub content: Rect,
    pub list: Rect,
    pub summary_label_row: u16,
    pub summary_row: u16,
    pub startup_row: u16,
    pub navigation_shortcut_row: u16,
    pub management_shortcut_row: u16,
}

/// Rows of the profile list: one per profile, from one to six.
pub open spec fn list_height_spec(profile_count: int) -> int {
    let c = (profile_count as u16) as int;
    if c < 1 { 1 } else if c > MAX_LIST_HEIGHT { MAX_LIST_HEIGHT as int } else { c }
}

/// The profiles dialog in `area`: the list under its label, a blank row, the
/// summary label and six summary rows, the startup link, a blank row and two
/// shortcut rows, all in a centred frame 88 columns wide.
pub open spec fn browse_layout_spec(area: Rect, profile_count: int) -> BrowseLayout {
    let list_height = list_height_spec(profile_count);
    let summary_label_row = add16(add16(LIST_ROW as int, list_height), 1);
    let summary_row = add16(summary_label_row, 1);
    let startup_row = add16(summary_row, 6);
    let navigation = add16(startup_row, 2);
    let management = add16(navigation, 1);
    let popup = centered_dialog_spec(area, DIALOG_WIDTH as int, add16(management, 3));
    let content = popup.shrunk(1, 1);
    BrowseLayout {
        popup,
        content,
        list: Rect::placed(
            content.x as int,
            add16(content.y as int, LIST_ROW as int),
            content.width as int,
            min_int(list_height, sub0(content.height as int, LIST_ROW as int)),
        ),
        summary_label_row: summary_label_row as u16,
        summary_row: summary_row as u16,
        startup_row: startup_row as u16,
        navigation_shortcut_row: navigation as u16,
        management_shortcut_row: management as u16,
    }
}

/// Rows of the profiles dialog's frame; see `browse_layout_spec`.
pub open spec fn browse_frame_height(profile_count: int) -> int {
    let list_height = list_height_spec(profile_count);
    let summary_label_row = add16(add16(LIST_ROW as int, list_height), 1);
    let summary_row = add16(summary_label_row, 1);
    let startup_row = add16(summary_row, 6);
    let navigation = add16(startup_row, 2);
    let management = add16(navigation, 1);
    add16(management, 3)
}

/// Whether the profiles dialog's corner can be counted in sixteen bits.
pub open spec fn browse_fits(area: Rect, profile_count: int) -> bool {
    centered_fits(area, DIALOG_WIDTH as int, browse_frame_height(profile_count))
}

/// The profiles dialog in `area`; see `browse_layout_spec`.
pub fn browse_layout(area: Rect, profile_count: usize) -> (r: BrowseLayout)
    requires
        browse_fits(area, profile_count as int),
    ensures
        r == browse_layout_spec(area, profile_count as int),
{
    let count = #[verifier::truncate] (profile_count as u16);
    let list_height: u16 = if count < 1 { 1 } else if count > MAX_LIST_HEIGHT { MAX_LIST_HEIGHT } else { count };
    let summary_label_row = LIST_ROW.saturating_add(list_height).saturating_add(1);
    let summary_row = summary_label_row.saturating_add(1);
    let startup_row = summary_row.saturating_add(6);
    let navigation_shortcut_row = startup_row.saturating_add(2);
    let management_shortcut_row = navigation_shortcut_row.saturating_add(1);
    let popup = centered_dialog_rect(area, DIALOG_WIDTH, management_shortcut_row.saturating_add(3));
    let content = popup.inner(1, 1);
    let room = content.height.saturating_sub(LIST_ROW);
    let list = Rect::new(
        content.x,
        content.y.saturating_add(LIST_ROW),
        content.width,
        if list_height < room { list_height } else { room },
    );
    BrowseLayout {
        popup,
        content,
        list,
        summary_label_row,
        summary_row,
        startup_row,
        navigation_shortcut_row,
        management_shortcut_row,
    }
}

/// The load report dialog: centred, 88 by 25 cells at most.
pub fn report_dialog_area(area: Rect) -> (r: Rect)
    requires
        centered_fits(area, DIALOG_WIDTH as int, REPORT_DIALOG_HEIGHT as int),
    ensures
        r == centered_dialog_spec(area, DIALOG_WIDTH as int, REPORT_DIALOG_HEIGHT as int),
{
    centered_dialog_rect(area, DIALOG_WIDTH, REPORT_DIALOG_HEIGHT)
}

/// The startup dialog: centred, 72 by 12 cells at most.
pub fn startup_dialog_area(area: Rect) -> (r: Rect)
    requires
        centered_fits(area, STARTUP_DIALOG_WIDTH as int, STARTUP_DIALOG_HEIGHT as int),
    ensures
        r == centered_dialog_spec(area, STARTUP_DIALOG_WIDTH as int, STARTUP_DIALOG_HEIGHT as int),
{
    centered_dialog_rect(area, STARTUP_DIALOG_WIDTH, STARTUP_DIALOG_HEIGHT)
}

/// The load report's list: from its fifth body row, fifteen rows at most.
pub open spec fn report_list_spec(content: Rect) -> Rect {
    Rect::placed(
        content.x as int,
        add16(content.y as int, REPORT_LIST_ROW as int),
        content.width as int,
        min_int(REPORT_LIST_HEIGHT as int, sub0(content.height as int, REPORT_LIST_ROW as int)),
    )
}

/// The load report's list; see `report_list_spec`.
pub fn report_list_area(content: Rect) -> (r: Rect)
    ensures
        r == report_list_spec(content),
{
    let room = content.height.saturating_sub(REPORT_LIST_ROW);
    Rect::new(
        content.x,
        content.y.saturating_add(REPORT_LIST_ROW),
        content.width,
        if REPORT_LIST_HEIGHT < room { REPORT_LIST_HEIGHT } else { room },
    )
}

/// Body row `offset` of a dialog: one row across the body.
pub fn row(content: Rect, offset: u16) -> (r: Rect)
    ensures
        r == Rect::placed(content.x as int, add16(content.y as int, offset as int), content.width as int, 1),
{
    Rect::new(content.x, content.y.saturating_add(offset), content.width, 1)
}

/// Rows of the list shown at once: the report's list while the load report
/// shows, the profile list otherwise; at least one.
pub fn investigation_profiles_page_size_for_screen(area: Rect, report_shown: bool, profile_count: usize) -> (r: usize)
    requires
        if report_shown {
            centered_fits(area, DIALOG_WIDTH as int, REPORT_DIALOG_HEIGHT as int)
        } else {
            browse_fits(area, profile_count as int)
        },
    ensures
        r == max_int(
            if report_shown {
                report_list_spec(centered_dialog_spec(area, DIALOG_WIDTH as int, REPORT_DIALOG_HEIGHT as int).shrunk(1, 1)).height as int
            } else {
                browse_layout_spec(area, profile_count as int).list.height as int
            },
            1,
        ),
{
    let h = if report_shown {
        let popup = report_dialog_area(area);
        report_list_area(popup.inner(1, 1)).height
    } else {
        browse_layout(area, profile_count).list.height
    };
    if h >= 1 { h as usize } else { 1 }
}

/// The profile under the cell `(x, y)` of the list scrolled by
/// `scroll_offset`: none outside the list or past the last profile.
pub fn investigation_profile_index_at(area: Rect, x: u16, y: u16, scroll_offset: usize, profile_count: usize) -> (r: Option<usize>)
    requires
        browse_fits(area, profile_count as int),
    ensures
        ({
            let list = browse_layout_spec(area, profile_count as int).list;
            let index = add_upto(scroll_offset as int, y - list.y, usize::MAX as int);
            if !list.contains_spec(x as int, y as int) || index >= profile_count {
                r is None
            } else {
                r == Some(index as usize)
            }
        }),
{
    let list = browse_layout(area, profile_count).list;
    if !(x >= list.x && x < list.right() && y >= list.y && y < list.bottom()) {
        return None;
    }
    let index = scroll_offset.saturating_add((y - list.y) as usize);
    if index < profile_count {
        Some(index)
    } else {
        None
    }
}

/// The startup choice under the cell `(x, y)`, by its place among
/// `option_count` choices on consecutive rows from the fourth body row.
pub fn investigation_profile_startup_at_for_screen(area: Rect, x: u16, y: u16, option_count: usize) -> (r: Option<usize>)
    requires
        centered_fits(area, STARTUP_DIALOG_WIDTH as int, STARTUP_DIALOG_HEIGHT as int),
        option_count < 65536 - STARTUP_OPTION_ROW,
    ensures
        ({
            let content = centered_dialog_spec(area, STARTUP_DIALOG_WIDTH as int, STARTUP_DIALOG_HEIGHT as int).shrunk(1, 1);
            match r {
                Some(i) => i < option_count && Rect::placed(
                    content.x as int,
                    add16(content.y as int, STARTUP_OPTION_ROW + i),
                    content.width as int,
                    1,
                ).contains_spec(x as int, y as int) && forall|j: int|
                    0 <= j < i ==> !#[trigger] Rect::placed(
                        content.x as int,
                        add16(content.y as int, STARTUP_OPTION_ROW + j),
                        content.width as int,
                        1,
                    ).contains_spec(x as int, y as int),
                None => forall|j: int|
                    0 <= j < option_count ==> !#[trigger] Rect::placed(
                        content.x as int,
                        add16(content.y as int, STARTUP_OPTION_ROW + j),
                        content.width as int,
                        1,
                    ).contains_spec(x as int, y as int),
            }
        }),
{
    let popup = startup_dialog_area(area);
    let content = popup.inner(1, 1);
    let mut index: usize = 0;
    while index < option_count
        invariant
            index <= option_count < 65536 - STARTUP_OPTION_ROW,
            content == centered_dialog_spec(area, STARTUP_DIALOG_WIDTH as int, STARTUP_DIALOG_HEIGHT as int).shrunk(1, 1),
            forall|j: int|
                0 <= j < index ==> !#[trigger] Rect::placed(
                    content.x as int,
                    add16(content.y as int, STARTUP_OPTION_ROW + j),
                    content.width as int,
                    1,
                ).contains_spec(x as int, y as int),
        decreases option_count - index,
    {
        let choice = row(content, STARTUP_OPTION_ROW + index as u16);
        if x >= choice.x && x < choice.right() && y >= choice.y && y < choice.bottom() {
            return Some(index);
        }
        index = index + 1;
    }
    None
}

/// Whether the cell `(x, y)` is on the startup link of the profiles dialog.
pub fn investigation_profile_startup_link_at_for_screen(area: Rect, x: u16, y: u16, profile_count: usize) -> (r: bool)
    requires
        browse_fits(area, profile_count as int),
    ensures
        r == Rect::placed(
            browse_layout_spec(area, profile_count as int).content.x as int,
            add16(
                browse_layout_spec(area, profile_count as int).content.y as int,
                browse_layout_spec(area, profile_count as int).startup_row as int,
            ),
            browse_layout_spec(area, profile_count as int).content.width as int,
            1,
        ).contains_spec(x as int, y as int),
{
    let layout = browse_layout(area, profile_count);
    let link = row(layout.content, layout.startup_row);
    x >= link.x && x < link.right() && y >= link.y && y < link.bottom()
}

/// The line naming the current investigation: its profile (marked when
/// modified), or that it is not saved as one.
pub open spec fn current_profile_spec(active: Option<Seq<char>>, modified: bool) -> Seq<char> {
    match active {
        Some(name) => "Profile: "@ + name + (if modified { " (modified)"@ } else { ""@ }),
        None => "Not saved as a Profile"@,
    }
}

/// The line naming the current investigation; see `current_profile_spec`.
pub fn current_profile_label(active: Option<&str>, modified: bool) -> (r: String)
    ensures
        r@ == current_profile_spec(
            match active {
                Some(a) => Some(a@),
                None => None,
            },
            modified,
        ),
{
    match active {
        Some(name) => {
            let mut out = String::from_str("Profile: ");
            out.append(name);
            if modified {
                out.append(" (modified)");
            }
            proof {
                reveal_strlit("");
            }
            assert(out@ =~= "Profile: "@ + name@ + (if modified { " (modified)"@ } else { ""@ }));
            out
        },
        None => String::from_str("Not saved as a Profile"),
    }
}

/// Whether a saved profile is the active one: its name equals the active
/// profile's, ASCII letters compared without case.
pub fn profile_is_active(active: Option<&str>, name: &str) -> (r: bool)
    ensures
        r == match active {
            Some(a) => crate::ui::process_table::ascii_lowercase(a@) == crate::ui::process_table::ascii_lowercase(name@),
            None => false,
        },
{
    match active {
        Some(a) => {
            let x = crate::ui::process_table::ascii_lowercase_chars(a);
            let y = crate::ui::process_table::ascii_lowercase_chars(name);
            if x.len() != y.len() {
                return false;
            }
            let mut i: usize = 0;
            while i < x.len()
                invariant
                    i <= x@.len() == y@.len(),
                    active == Some(a),
                    x@ == crate::ui::process_table::ascii_lowercase(a@),
                    y@ == crate::ui::process_table::ascii_lowercase(name@),
                    forall|k: int| 0 <= k < i ==> x@[k] == y@[k],
                decreases x@.len() - i,
            {
                if x[i] != y[i] {
                    assert(x@[i as int] != y@[i as int]);
                    assert(x@ != y@);
                    return false;
                }
                i = i + 1;
            }
            assert(x@ =~= y@);
            true
        },
        None => false,
    }
}

/// The look of a saved profile's row: raised under the cursor, marked while
/// it is the active profile, body text otherwise.
pub fn profile_row_style(is_selected: bool, active: bool, theme: &crate::ui::theme::Theme) -> (r: crate::ui::graph_slot::TextStyle)
    ensures
        r == if is_selected {
            crate::ui::graph_slot::TextStyle { fg: Some(theme.text), bg: Some(theme.highlight), bold: true, underlined: false }
        } else if active {
            crate::ui::graph_slot::TextStyle { fg: Some(theme.text), bg: Some(theme.selection), bold: true, underlined: false }
        } else {
            crate::ui::graph_slot::TextStyle { fg: Some(theme.text), bg: None, bold: false, underlined: false }
        },
{
    if is_selected {
        crate::ui::graph_slot::TextStyle { fg: Some(theme.text), bg: Some(theme.highlight), bold: true, underlined: false }
    } else if active {
        crate::ui::graph_slot::TextStyle { fg: Some(theme.text), bg: Some(theme.selection), bold: true, underlined: false }
    } else {
        crate::ui::graph_slot::TextStyle::fg(theme.text)
    }
}

/// A graph display mode that shows the five-sample moving average: `ma`,
/// `ma5` or `moving_average_5`, in any ASCII case and with surrounding
/// whitespace.
pub open spec fn is_moving_average_mode(mode: Seq<char>) -> bool {
    match trimmed(mode) {
        Some(t) => {
            let l = ascii_lowercase(t);
            l == "ma"@ || l == "ma5"@ || l == "moving_average_5"@
        },
        None => false,
    }
}

/// Whether a graph display mode shows the moving average; see
/// `is_moving_average_mode`.
pub fn moving_average_mode(mode: &str) -> (r: bool)
    ensures
        r == is_moving_average_mode(mode@),
{
    match active_filter_query(mode) {
        None => false,
        Some(t) => {
            let l = string_from_chars(&ascii_lowercase_chars(t.as_str()));
            l == String::from_str("ma") || l == String::from_str("ma5") || l == String::from_str("moving_average_5")
        },
    }
}

/// How many of the display modes show the moving average.
pub open spec fn moving_average_count(modes: Seq<Seq<char>>) -> nat
    decreases modes.len(),
{
    if modes.len() == 0 {
        0
    } else {
        moving_average_count(modes.drop_last()) + if is_moving_average_mode(modes.last()) { 1nat } else { 0nat }
    }
}

/// The texts of a sequence of strings.
pub open spec fn texts(v: Seq<String>) -> Seq<Seq<char>> {
    v.map_values(|t: String| t@)
}

/// How many of the display modes show the moving average; see
/// `moving_average_count`.
pub fn count_moving_average_modes(modes: &Vec<String>) -> (r: usize)
    ensures
        r == moving_average_count(texts(modes@)),
        r <= modes@.len(),
{
    let mut n: usize = 0;
    let mut i: usize = 0;
    while i < modes.len()
        invariant
            i <= modes@.len(),
            n <= i,
            n == moving_average_count(texts(modes@).take(i as int)),
        decreases modes@.len() - i,
    {
        let hit = moving_average_mode(modes[i].as_str());
        proof {
            assert(texts(modes@).take(i + 1).drop_last() =~= texts(modes@).take(i as int));
            assert(texts(modes@).take(i + 1).last() == modes@[i as int]@);
        }
        if hit {
            n = n + 1;
        }
        i = i + 1;
    }
    proof {
        assert(texts(modes@).take(modes@.len() as int) =~= texts(modes@));
    }
    n
}

/// What the dialog shows of the selected saved profile.
#[derive(Clone, Debug)]
pub struct ProfileSummary {
    pub name: String,
    pub tracked_count: usize,
    pub tracked_only: bool,
    pub process_view: String,
    pub column_count: usize,
    pub sort_by: String,
    pub sort_order: String,
    pub graph_display_modes: Vec<String>,
    pub graph_columns: u8,
    pub graph_time_span_seconds: u64,
    pub samples: bool,
    pub delta: bool,
    pub y_axis_zero_min: bool,
    pub recording_interval_seconds: u64,
}

/// `On` or `Off`.
pub open spec fn on_off_text(value: bool) -> Seq<char> {
    if value { "On"@ } else { "Off"@ }
}

/// The label of a graph layout with `columns` columns.
pub open spec fn layout_label_text(columns: u8) -> Seq<char> {
    if columns == 1 {
        "1 col"@
    } else if columns == 2 {
        "2 cols"@
    } else if columns == 3 {
        "3 cols"@
    } else {
        "Auto"@
    }
}

/// The section label and lines of the selected profile: its name in the
/// label; then what it tracks (`name` or `names` by the count), its process
/// columns and sort, its graphs split into raw and moving-average ones with
/// the layout and the time span, the inspector's switches (the y axis from
/// `0` or from the `data`), and the recording interval. Without a selected
/// profile, the bare label and a hint to save one.
pub open spec fn profile_summary_spec(profile: Option<ProfileSummary>) -> (Seq<char>, Seq<Seq<char>>) {
    match profile {
        None => (
            "SELECTED PROFILE"@,
            seq!["No saved Profiles. Press s to save the current investigation."@],
        ),
        Some(p) => {
            let graphs = p.graph_display_modes@.len();
            let ma = moving_average_count(texts(p.graph_display_modes@));
            (
                "SELECTED PROFILE · "@ + p.name@,
                seq![
                    "Tracking    "@ + decimal(p.tracked_count as nat) + " name"@ + (if p.tracked_count == 1 { ""@ } else { "s"@ })
                        + "    Tracked-only "@ + on_off_text(p.tracked_only) + "    View "@ + p.process_view@,
                    "Processes   "@ + decimal(p.column_count as nat) + " columns    Sort "@ + p.sort_by@ + " "@ + p.sort_order@,
                    "Graphs      "@ + decimal(graphs) + " ("@ + decimal((graphs - ma) as nat) + " Raw / "@ + decimal(ma)
                        + " MA5)    Layout "@ + layout_label_text(p.graph_columns) + "    Span "@ + decimal(
                        p.graph_time_span_seconds as nat,
                    ) + "s"@,
                    "Inspector   Samples "@ + on_off_text(p.samples) + "    Delta "@ + on_off_text(p.delta)
                        + "    Y min "@ + (if p.y_axis_zero_min { "0"@ } else { "data"@ }),
                    "Recording   "@ + decimal(p.recording_interval_seconds as nat) + "s"@,
                ],
            )
        },
    }
}

/// The section label and lines of the selected profile; see
/// `profile_summary_spec`.
pub fn profile_summary(profile: Option<&ProfileSummary>) -> (r: (String, Vec<String>))
    ensures
        r.0@ == profile_summary_spec(
            match profile {
                Some(p) => Some(*p),
                None => None,
            },
        ).0,
        texts(r.1@) == profile_summary_spec(
            match profile {
                Some(p) => Some(*p),
                None => None,
            },
        ).1,
{
    match profile {
        None => {
            let lines = vec![String::from_str("No saved Profiles. Press s to save the current investigation.")];
            assert(texts(lines@) =~= profile_summary_spec(None).1);
            (String::from_str("SELECTED PROFILE"), lines)
        },
        Some(p) => {
            let mut label = String::from_str("SELECTED PROFILE · ");
            label.append(p.name.as_str());

            let mut tracking = String::from_str("Tracking    ");
            tracking.append(decimal_string(p.tracked_count as u128).as_str());
            tracking.append(" name");
            tracking.append(if p.tracked_count == 1 { "" } else { "s" });
            tracking.append("    Tracked-only ");
            tracking.append(on_off(p.tracked_only));
            tracking.append("    View ");
            tracking.append(p.process_view.as_str());

            let mut processes = String::from_str("Processes   ");
            processes.append(decimal_string(p.column_count as u128).as_str());
            processes.append(" columns    Sort ");
            processes.append(p.sort_by.as_str());
            processes.append(" ");
            processes.append(p.sort_order.as_str());

            let graphs = p.graph_display_modes.len();
            let ma = count_moving_average_modes(&p.graph_display_modes);
            let mut graph_line = String::from_str("Graphs      ");
            graph_line.append(decimal_string(graphs as u128).as_str());
            graph_line.append(" (");
            graph_line.append(decimal_string((graphs - ma) as u128).as_str());
            graph_line.append(" Raw / ");
            graph_line.append(decimal_string(ma as u128).as_str());
            graph_line.append(" MA5)    Layout ");
            graph_line.append(graph_layout_label(p.graph_columns));
            graph_line.append("    Span ");
            graph_line.append(decimal_string(p.graph_time_span_seconds as u128).as_str());
            graph_line.append("s");

            let mut inspector = String::from_str("Inspector   Samples ");
            inspector.append(on_off(p.samples));
            inspector.append("    Delta ");
            inspector.append(on_off(p.delta));
            inspector.append("    Y min ");
            inspector.append(if p.y_axis_zero_min { "0" } else { "data" });

            let mut recording = String::from_str("Recording   ");
            recording.append(decimal_string(p.recording_interval_seconds as u128).as_str());
            recording.append("s");

            let lines = vec![tracking, processes, graph_line, inspector, recording];
            assert(texts(lines@) =~= profile_summary_spec(Some(*p)).1);
            (label, lines)
        },
    }
}

} // verus!

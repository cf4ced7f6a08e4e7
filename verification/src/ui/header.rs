//! Labels of the top header bar.

use vstd::prelude::*;

use crate::ui::format::{decimal, decimal_string};
use crate::ui::graph_slot::TextStyle;
use crate::ui::layout::{add_usize, part_fits, row_block, screen_fits, screen_layout};
use crate::ui::rect::{add16, min_int, sub0, Rect};
use crate::ui::text::{chars_of, push_range, push_repeated, repeated, string_from_chars};
use crate::ui::theme::{Color, Theme};

verus! {

/// What the application is doing: sampling live, recording, or showing a log.
#[derive(Clone, Copy, Debug, PartialEq, Eq, Structural)]
pub enum AppActivity {
    Live,
    Recording,
    LogView,
}

/// The header badge for an activity.
pub fn activity_label(activity: AppActivity) -> (r: &'static str)
    ensures
        r@ == match activity {
            AppActivity::Live => "LIVE"@,
            AppActivity::Recording => "REC"@,
            AppActivity::LogView => "LOG"@,
        },
{
    match activity {
        AppActivity::Live => "LIVE",
        AppActivity::Recording => "REC",
        AppActivity::LogView => "LOG",
    }
}

/// The three dots that mark left-out text.
pub open spec fn ellipsis3() -> Seq<char> {
    repeated('.', 3)
}

/// `value` shortened in the middle to at most `max_width` characters: kept whole
/// when it fits, all dots when the width leaves no room for text, otherwise its
/// head, three dots, and a tail of half the width.
pub open spec fn truncate_middle_spec(value: Seq<char>, max_width: int) -> Seq<char> {
    let n = value.len() as int;
    if n <= max_width {
        value
    } else if max_width <= 3 {
        repeated('.', max_width)
    } else {
        let tail_len = if max_width / 2 >= 1 { max_width / 2 } else { 1 };
        let head_len = if max_width >= tail_len + 3 { max_width - (tail_len + 3) } else { 0 };
        value.take(head_len) + ellipsis3() + value.skip(n - tail_len)
    }
}

/// `value` shortened in the middle to at most `max_width` characters.
pub fn truncate_middle(value: &str, max_width: u16) -> (r: String)
    ensures
        r@ == truncate_middle_spec(value@, max_width as int),
        r@.len() == if value@.len() <= max_width {
            value@.len() as int
        } else if max_width == 4 {
            5
        } else {
            max_width as int
        },
{
    let max_width = max_width as usize;
    let chars = chars_of(value);
    let n = chars.len();
    if n <= max_width {
        return String::from_str(value);
    }
    let mut out: Vec<char> = Vec::new();
    if max_width <= 3 {
        push_repeated(&mut out, '.', max_width);
        assert(out@ =~= truncate_middle_spec(value@, max_width as int));
        return string_from_chars(&out);
    }
    let tail_len = if max_width / 2 >= 1 { max_width / 2 } else { 1 };
    let head_len = if max_width >= tail_len + 3 { max_width - (tail_len + 3) } else { 0 };
    push_range(&mut out, &chars, 0, head_len);
    push_repeated(&mut out, '.', 3);
    push_range(&mut out, &chars, n - tail_len, n);
    assert(out@ =~= truncate_middle_spec(value@, max_width as int));
    string_from_chars(&out)
}

/// Columns between header items.
pub const HEADER_ITEM_GAP: usize = 2;
/// The menu button of the header.
pub const HEADER_MENU_LABEL: &'static str = "[MENU]";
/// Most characters of the profile badge.
pub const PROFILE_LABEL_MAX_WIDTH: u16 = 28;

/// Whether the header row `area` has room for the menu button beside the
/// activity badge.
pub open spec fn menu_fits(area: Rect, activity: AppActivity) -> bool {
    let badge = add16(activity_label_spec(activity).len() as int, 2);
    area.height > 0 && add16(add16(6, HEADER_ITEM_GAP as int), badge) <= area.width
}

/// The badge text of an activity.
pub open spec fn activity_label_spec(activity: AppActivity) -> Seq<char> {
    match activity {
        AppActivity::Live => "LIVE"@,
        AppActivity::Recording => "REC"@,
        AppActivity::LogView => "LOG"@,
    }
}

/// The menu button's cells: the start of the header row, when it fits.
pub fn header_menu_area(area: Rect, activity: AppActivity) -> (r: Option<Rect>)
    ensures
        r == if menu_fits(area, activity) { Some(Rect::placed(area.x as int, area.y as int, 6, 1)) } else { None },
{
    let label = activity_label(activity);
    proof {
        reveal_strlit("LIVE");
        reveal_strlit("REC");
        reveal_strlit("LOG");
        reveal_strlit("[MENU]");
    }
    let badge_width = (label.unicode_len() as u16).saturating_add(2);
    let width = HEADER_MENU_LABEL.unicode_len() as u16;
    let required_width = width.saturating_add(HEADER_ITEM_GAP as u16).saturating_add(badge_width);
    if area.height > 0 && required_width <= area.width {
        Some(Rect::new(area.x, area.y, width, 1))
    } else {
        None
    }
}

/// The menu button's cells in the header row `header`: at its start, when it
/// fits beside the activity badge.
pub open spec fn header_menu_spec(header: Rect, activity: AppActivity) -> Option<Rect> {
    if menu_fits(header, activity) {
        Some(Rect::placed(header.x as int, header.y as int, 6, 1))
    } else {
        None
    }
}

/// The menu button's cells on the screen: the screen split into its rows,
/// then the button placed in the header row (the top part, spanning the
/// screen's columns within its rows) as `header_menu_spec` says.
pub fn header_menu_area_for_screen(screen: Rect, activity: AppActivity) -> (r: Option<Rect>)
    ensures
        exists|header: Rect| #![trigger header_menu_spec(header, activity)]
            part_fits(header, screen, true) && r == header_menu_spec(header, activity),
        screen_fits(screen) ==> r == header_menu_spec(row_block(screen, screen.y as int, 1), activity),
{
    let regions = screen_layout(screen);
    let r = header_menu_area(regions[0], activity);
    proof {
        assert(part_fits(regions@[0], screen, true));
        assert(r == header_menu_spec(regions@[0], activity));
    }
    r
}

/// What a piece of the header shows, for its style.
#[derive(Clone, Copy, Debug, PartialEq, Eq, Structural)]
pub enum HeaderPart {
    Menu,
    Gap,
    Mode,
    Interval,
    Spinner,
    Stale,
    Paused,
    Profile,
    LogName,
}

/// A piece of the header line.
#[derive(Clone, Debug)]
pub struct HeaderSegment {
    pub part: HeaderPart,
    pub text: String,
}

/// The header line: its pieces from the left, and the product name with its
/// version at the right end with the cells it takes, when it fits.
#[derive(Clone, Debug)]
pub struct HeaderLine {
    pub segments: Vec<HeaderSegment>,
    pub product_text: String,
    pub product_area: Option<Rect>,
}

/// The pieces of a header line as kinds and texts.
pub open spec fn segments_view(v: Seq<HeaderSegment>) -> Seq<(HeaderPart, Seq<char>)> {
    Seq::new(v.len(), |i: int| (v[i].part, v[i].text@))
}

/// The sampling interval: averaged over several seconds, or one second.
pub open spec fn interval_text(seconds: u64) -> Seq<char> {
    if seconds > 1 { decimal(seconds as nat) + "s AVG"@ } else { "1s"@ }
}

/// The spinner character for a turn.
pub open spec fn spinner_char(index: usize) -> char {
    let k = index % 4;
    if k == 0 {
        '|'
    } else if k == 1 {
        '/'
    } else if k == 2 {
        '-'
    } else {
        '\\'
    }
}

/// The text of the profile badge: none in the log view, the active profile
/// (marked when modified) or none while sampling.
pub open spec fn profile_label_spec(activity: AppActivity, profile: Option<Seq<char>>, modified: bool) -> Seq<char> {
    match activity {
        AppActivity::LogView => "PF: --"@,
        _ => match profile {
            None => "PF: none"@,
            Some(name) => "PF: "@ + name + (if modified { "*"@ } else { ""@ }),
        },
    }
}

/// The pieces of the header before the log name: the menu button when it
/// fits; the activity badge; while recording, the averaging interval (when
/// longer than a second) and the spinner (unless the display is paused); in
/// the log view, the log's interval; a staleness mark; the paused mark (not in
/// the log view); and the profile badge, shortened in the middle.
pub open spec fn header_parts(
    area: Rect,
    activity: AppActivity,
    recording_interval: Option<u64>,
    log_view_interval: Option<u64>,
    display_paused: bool,
    spinner_index: usize,
    stale_age: Option<u64>,
    profile: Option<Seq<char>>,
    profile_modified: bool,
) -> Seq<(HeaderPart, Seq<char>)> {
    menu_parts(area, activity) + mode_parts(activity) + activity_parts(
        activity,
        recording_interval,
        log_view_interval,
        display_paused,
        spinner_index,
    ) + stale_parts(stale_age) + paused_parts(activity, display_paused) + badge_parts(activity, profile, profile_modified)
}

/// The menu button and a gap, when they fit.
pub open spec fn menu_parts(area: Rect, activity: AppActivity) -> Seq<(HeaderPart, Seq<char>)> {
    if menu_fits(area, activity) {
        seq![(HeaderPart::Menu, "[MENU]"@), (HeaderPart::Gap, "  "@)]
    } else {
        Seq::empty()
    }
}

/// The activity badge.
pub open spec fn mode_parts(activity: AppActivity) -> Seq<(HeaderPart, Seq<char>)> {
    seq![(HeaderPart::Mode, " "@ + activity_label_spec(activity) + " "@)]
}

/// What follows the badge for the activity: while recording, the averaging
/// interval when longer than a second and the spinner unless paused; in the
/// log view, the log's interval.
pub open spec fn activity_parts(
    activity: AppActivity,
    recording_interval: Option<u64>,
    log_view_interval: Option<u64>,
    display_paused: bool,
    spinner_index: usize,
) -> Seq<(HeaderPart, Seq<char>)> {
    match activity {
        AppActivity::Live => Seq::empty(),
        AppActivity::Recording => (match recording_interval {
            Some(s) => if s > 1 {
                seq![(HeaderPart::Gap, " · "@), (HeaderPart::Interval, interval_text(s))]
            } else {
                Seq::empty()
            },
            None => Seq::empty(),
        }) + (if !display_paused {
            seq![(HeaderPart::Gap, " "@), (HeaderPart::Spinner, seq![spinner_char(spinner_index)])]
        } else {
            Seq::empty()
        }),
        AppActivity::LogView => match log_view_interval {
            Some(s) => seq![(HeaderPart::Gap, " · "@), (HeaderPart::Interval, interval_text(s))],
            None => Seq::empty(),
        },
    }
}

/// The staleness mark of the samples.
pub open spec fn stale_parts(stale_age: Option<u64>) -> Seq<(HeaderPart, Seq<char>)> {
    match stale_age {
        Some(age) => seq![(HeaderPart::Stale, " · STALE "@ + decimal(age as nat) + "s"@)],
        None => Seq::empty(),
    }
}

/// The paused mark, not in the log view.
pub open spec fn paused_parts(activity: AppActivity, display_paused: bool) -> Seq<(HeaderPart, Seq<char>)> {
    if display_paused && activity != AppActivity::LogView {
        seq![(HeaderPart::Gap, "  "@), (HeaderPart::Paused, " DISPLAY PAUSED "@)]
    } else {
        Seq::empty()
    }
}

/// Whether none of the pieces is the paused mark.
pub open spec fn no_paused_mark(parts: Seq<(HeaderPart, Seq<char>)>) -> bool {
    forall|k: int| 0 <= k < parts.len() ==> (#[trigger] parts[k]).0 != HeaderPart::Paused
}

/// The header shows ` DISPLAY PAUSED ` exactly while the display is paused
/// outside the log view, live or recording alike; otherwise no piece of it is
/// the paused mark.
pub proof fn header_marks_a_paused_display(
    area: Rect,
    activity: AppActivity,
    recording_interval: Option<u64>,
    log_view_interval: Option<u64>,
    display_paused: bool,
    spinner_index: usize,
    stale_age: Option<u64>,
    profile: Option<Seq<char>>,
    profile_modified: bool,
)
    ensures
        ({
            let parts = header_parts(
                area,
                activity,
                recording_interval,
                log_view_interval,
                display_paused,
                spinner_index,
                stale_age,
                profile,
                profile_modified,
            );
            &&& display_paused && activity != AppActivity::LogView ==> exists|k: int|
                0 <= k < parts.len() && parts[k] == (HeaderPart::Paused, " DISPLAY PAUSED "@)
            &&& !(display_paused && activity != AppActivity::LogView) ==> no_paused_mark(parts)
        }),
{
    let before = menu_parts(area, activity) + mode_parts(activity) + activity_parts(
        activity,
        recording_interval,
        log_view_interval,
        display_paused,
        spinner_index,
    ) + stale_parts(stale_age);
    let paused = paused_parts(activity, display_paused);
    let badge = badge_parts(activity, profile, profile_modified);
    let parts = header_parts(
        area,
        activity,
        recording_interval,
        log_view_interval,
        display_paused,
        spinner_index,
        stale_age,
        profile,
        profile_modified,
    );
    assert(parts == before + paused + badge);
    if display_paused && activity != AppActivity::LogView {
        let k: int = before.len() as int + 1;
        assert(parts[k] == paused[1]);
    } else {
        let a = menu_parts(area, activity);
        let b = mode_parts(activity);
        let c = activity_parts(activity, recording_interval, log_view_interval, display_paused, spinner_index);
        let d = stale_parts(stale_age);
        assert(no_paused_mark(a));
        assert(no_paused_mark(b));
        assert(no_paused_mark(c)) by {
            match activity {
                AppActivity::Recording => {
                    let x: Seq<(HeaderPart, Seq<char>)> = match recording_interval {
                        Some(s) => if s > 1 {
                            seq![(HeaderPart::Gap, " · "@), (HeaderPart::Interval, interval_text(s))]
                        } else {
                            Seq::empty()
                        },
                        None => Seq::empty(),
                    };
                    let y: Seq<(HeaderPart, Seq<char>)> = if !display_paused {
                        seq![(HeaderPart::Gap, " "@), (HeaderPart::Spinner, seq![spinner_char(spinner_index)])]
                    } else {
                        Seq::empty()
                    };
                    assert(c == x + y);
                    assert(no_paused_mark(x));
                    assert(no_paused_mark(y));
                    assert forall|k: int| 0 <= k < c.len() implies (#[trigger] c[k]).0 != HeaderPart::Paused by {
                        if k < x.len() {
                            assert(c[k] == x[k]);
                        } else {
                            assert(c[k] == y[k - x.len()]);
                        }
                    }
                },
                _ => {},
            }
        }
        assert(no_paused_mark(d));
        assert(no_paused_mark(badge));
        assert(paused.len() == 0);
        assert forall|k: int| 0 <= k < parts.len() implies (#[trigger] parts[k]).0 != HeaderPart::Paused by {
            if k < a.len() {
                assert(parts[k] == a[k]);
            } else if k < a.len() + b.len() {
                assert(parts[k] == b[k - a.len()]);
            } else if k < a.len() + b.len() + c.len() {
                assert(parts[k] == c[k - a.len() - b.len()]);
            } else if k < a.len() + b.len() + c.len() + d.len() {
                assert(parts[k] == d[k - a.len() - b.len() - c.len()]);
            } else {
                assert(parts[k] == badge[k - before.len()]);
            }
        }
    }
}

/// A gap and the profile badge, shortened in the middle.
pub open spec fn badge_parts(activity: AppActivity, profile: Option<Seq<char>>, modified: bool) -> Seq<(HeaderPart, Seq<char>)> {
    seq![
        (HeaderPart::Gap, "  "@),
        (HeaderPart::Profile, truncate_middle_spec(profile_label_spec(activity, profile, modified), PROFILE_LABEL_MAX_WIDTH as int)),
    ]
}

/// Characters of the pieces, held at the largest `usize`.
pub open spec fn parts_chars(parts: Seq<(HeaderPart, Seq<char>)>) -> int
    decreases parts.len(),
{
    if parts.len() == 0 {
        0
    } else {
        add_usize(parts_chars(parts.drop_last()), parts.last().1.len() as int)
    }
}

/// The product name and version shown at the right end.
pub open spec fn product_spec(version: Seq<char>) -> Seq<char> {
    "winproc-tui "@ + version
}

/// Whether the product name fits after the left pieces and the log name.
pub open spec fn product_fits(parts: Seq<(HeaderPart, Seq<char>)>, log_name: Option<Seq<char>>, version: Seq<char>, width: int) -> bool {
    let left = add_usize(
        parts_chars(parts),
        match log_name {
            Some(n) => add_usize(HEADER_ITEM_GAP as int, n.len() as int),
            None => 0,
        },
    );
    add_usize(add_usize(left, HEADER_ITEM_GAP as int), product_spec(version).len() as int) <= width
}

/// The log name piece: the name shortened in the middle to the columns left
/// of the left part of the header after a gap; nothing when none are left.
pub open spec fn log_name_parts(
    parts: Seq<(HeaderPart, Seq<char>)>,
    log_name: Option<Seq<char>>,
    left_width: int,
) -> Seq<(HeaderPart, Seq<char>)> {
    match log_name {
        None => Seq::empty(),
        Some(name) => {
            let room = sub0(left_width, add_usize(parts_chars(parts), HEADER_ITEM_GAP as int));
            if room == 0 {
                Seq::empty()
            } else {
                seq![(HeaderPart::Gap, "  "@), (HeaderPart::LogName, truncate_middle_spec(name, min_int(room, u16::MAX as int)))]
            }
        },
    }
}

/// Columns of the header's left part: all of it, or what the product name and
/// a gap leave.
pub open spec fn left_width_spec(width: int, show_product: bool, product_width: int) -> int {
    if show_product {
        sub0(sub0(width, (product_width as u16) as int), HEADER_ITEM_GAP as int)
    } else {
        width
    }
}

/// Appends a piece to the header.
fn push_segment(out: &mut Vec<HeaderSegment>, part: HeaderPart, text: String)
    ensures
        segments_view(final(out)@) == segments_view(old(out)@).push((part, text@)),
{
    let ghost t = text@;
    out.push(HeaderSegment { part, text });
    assert(segments_view(out@) =~= segments_view(old(out)@).push((part, t)));
}

/// The text of the profile badge; see `profile_label_spec`.
fn profile_label(activity: AppActivity, profile: Option<&str>, modified: bool) -> (r: String)
    ensures
        r@ == profile_label_spec(
            activity,
            match profile {
                Some(p) => Some(p@),
                None => None,
            },
            modified,
        ),
{
    match activity {
        AppActivity::LogView => String::from_str("PF: --"),
        _ => match profile {
            None => String::from_str("PF: none"),
            Some(name) => {
                let mut out = String::from_str("PF: ");
                out.append(name);
                if modified {
                    out.append("*");
                }
                proof {
                    reveal_strlit("");
                }
                out
            },
        },
    }
}

/// The sampling interval; see `interval_text`.
fn interval_string(seconds: u64) -> (r: String)
    ensures
        r@ == interval_text(seconds),
{
    if seconds > 1 {
        let mut out = decimal_string(seconds as u128);
        out.append("s AVG");
        out
    } else {
        String::from_str("1s")
    }
}

/// The header line on the header row `area`; see `header_parts`,
/// `product_fits`, `left_width_spec` and `log_name_parts`. `version` is the
/// program's version.
#[verifier::spinoff_prover]
pub fn header_line(
    area: Rect,
    activity: AppActivity,
    recording_interval: Option<u64>,
    log_view_interval: Option<u64>,
    display_paused: bool,
    spinner_index: usize,
    stale_age: Option<u64>,
    profile: Option<&str>,
    profile_modified: bool,
    log_name: Option<&str>,
    version: &str,
) -> (r: HeaderLine)
    ensures
        ({
            let parts = header_parts(
                area,
                activity,
                recording_interval,
                log_view_interval,
                display_paused,
                spinner_index,
                stale_age,
                match profile {
                    Some(p) => Some(p@),
                    None => None,
                },
                profile_modified,
            );
            let name = match log_name {
                Some(n) => Some(n@),
                None => None,
            };
            let product_width = product_spec(version@).len() as int;
            let show = product_fits(parts, name, version@, area.width as int);
            &&& r.product_text@ == product_spec(version@)
            &&& segments_view(r.segments@) == parts + log_name_parts(parts, name, left_width_spec(area.width as int, show, product_width))
            &&& r.product_area == if show {
                Some(Rect::placed(
                    add16(area.x as int, sub0(area.width as int, (product_width as u16) as int)),
                    area.y as int,
                    (product_width as u16) as int,
                    area.height as int,
                ))
            } else {
                None
            }
        }),
        display_paused && activity != AppActivity::LogView ==> exists|k: int|
            0 <= k < segments_view(r.segments@).len() && segments_view(r.segments@)[k] == (
                HeaderPart::Paused,
                " DISPLAY PAUSED "@,
            ),
{
    let ghost profile_view = match profile {
        Some(p) => Some(p@),
        None => None,
    };
    let mut out: Vec<HeaderSegment> = Vec::new();
    append_menu(&mut out, area, activity);
    append_mode(&mut out, activity);
    append_activity(&mut out, activity, recording_interval, log_view_interval, display_paused, spinner_index);
    append_stale(&mut out, stale_age);
    append_paused(&mut out, activity, display_paused);
    append_badge(&mut out, activity, profile, profile_modified);
    let ghost parts = header_parts(
        area,
        activity,
        recording_interval,
        log_view_interval,
        display_paused,
        spinner_index,
        stale_age,
        profile_view,
        profile_modified,
    );
    assert(segments_view(out@) =~= parts);
    proof {
        header_marks_a_paused_display(
            area,
            activity,
            recording_interval,
            log_view_interval,
            display_paused,
            spinner_index,
            stale_age,
            profile_view,
            profile_modified,
        );
    }
    let used = segments_chars(&out);
    let mut product = String::from_str("winproc-tui ");
    product.append(version);
    let product_width = product.unicode_len();
    let name_extra = match log_name {
        Some(name) => HEADER_ITEM_GAP.saturating_add(name.unicode_len()),
        None => 0,
    };
    let left_content_width = used.saturating_add(name_extra);
    let show = left_content_width.saturating_add(HEADER_ITEM_GAP).saturating_add(product_width) <= area.width as usize;
    let product_cells = #[verifier::truncate] (product_width as u16);
    let left_width: u16 = if show {
        area.width.saturating_sub(product_cells).saturating_sub(HEADER_ITEM_GAP as u16)
    } else {
        area.width
    };
    match log_name {
        Some(name) => {
            let room = (left_width as usize).saturating_sub(used.saturating_add(HEADER_ITEM_GAP));
            if room > 0 {
                push_segment(&mut out, HeaderPart::Gap, String::from_str("  "));
                let shown: u16 = if room < 65535 { room as u16 } else { 65535 };
                push_segment(&mut out, HeaderPart::LogName, truncate_middle(name, shown));
            }
        },
        None => {},
    }
    let product_area = if show {
        Some(Rect::new(area.x.saturating_add(area.width.saturating_sub(product_cells)), area.y, product_cells, area.height))
    } else {
        None
    };
    proof {
        if display_paused && activity != AppActivity::LogView {
            let k = choose|k: int| 0 <= k < parts.len() && parts[k] == (HeaderPart::Paused, " DISPLAY PAUSED "@);
            assert(segments_view(out@)[k] == parts[k]);
        }
    }
    HeaderLine { segments: out, product_text: product, product_area }
}

/// Characters of the header's pieces, held at the largest `usize`.
fn segments_chars(segments: &Vec<HeaderSegment>) -> (r: usize)
    ensures
        r == parts_chars(segments_view(segments@)),
{
    let mut total: usize = 0;
    let mut i: usize = 0;
    while i < segments.len()
        invariant
            i <= segments@.len(),
            total == parts_chars(segments_view(segments@).take(i as int)),
        decreases segments@.len() - i,
    {
        proof {
            assert(segments_view(segments@).take(i + 1).drop_last() =~= segments_view(segments@).take(i as int));
        }
        total = total.saturating_add(segments[i].text.unicode_len());
        i = i + 1;
    }
    proof {
        assert(segments_view(segments@).take(segments@.len() as int) =~= segments_view(segments@));
    }
    total
}

/// Appends the menu button and a gap, when they fit; see `menu_parts`.
fn append_menu(out: &mut Vec<HeaderSegment>, area: Rect, activity: AppActivity)
    ensures
        segments_view(final(out)@) == segments_view(old(out)@) + menu_parts(area, activity),
{
    let ghost start = segments_view(out@);
    if header_menu_area(area, activity).is_some() {
        push_segment(out, HeaderPart::Menu, String::from_str(HEADER_MENU_LABEL));
        push_segment(out, HeaderPart::Gap, String::from_str("  "));
    }
    assert(segments_view(out@) =~= start + menu_parts(area, activity));
}

/// Appends the activity badge; see `mode_parts`.
fn append_mode(out: &mut Vec<HeaderSegment>, activity: AppActivity)
    ensures
        segments_view(final(out)@) == segments_view(old(out)@) + mode_parts(activity),
{
    let ghost start = segments_view(out@);
    let mut mode = String::from_str(" ");
    mode.append(activity_label(activity));
    mode.append(" ");
    push_segment(out, HeaderPart::Mode, mode);
    assert(segments_view(out@) =~= start + mode_parts(activity));
}

/// Appends what follows the badge; see `activity_parts`.
fn append_activity(
    out: &mut Vec<HeaderSegment>,
    activity: AppActivity,
    recording_interval: Option<u64>,
    log_view_interval: Option<u64>,
    display_paused: bool,
    spinner_index: usize,
)
    ensures
        segments_view(final(out)@) == segments_view(old(out)@) + activity_parts(
            activity,
            recording_interval,
            log_view_interval,
            display_paused,
            spinner_index,
        ),
{
    let ghost start = segments_view(out@);
    match activity {
        AppActivity::Live => {},
        AppActivity::Recording => {
            match recording_interval {
                Some(s) => {
                    if s > 1 {
                        push_segment(out, HeaderPart::Gap, String::from_str(" · "));
                        push_segment(out, HeaderPart::Interval, interval_string(s));
                    }
                },
                None => {},
            }
            if !display_paused {
                push_segment(out, HeaderPart::Gap, String::from_str(" "));
                let k = spinner_index % 4;
                let c = if k == 0 {
                    "|"
                } else if k == 1 {
                    "/"
                } else if k == 2 {
                    "-"
                } else {
                    "\\"
                };
                proof {
                    reveal_strlit("|");
                    reveal_strlit("/");
                    reveal_strlit("-");
                    reveal_strlit("\\");
                }
                push_segment(out, HeaderPart::Spinner, String::from_str(c));
                assert(segments_view(out@)[segments_view(out@).len() - 1].1 =~= seq![spinner_char(spinner_index)]);
            }
        },
        AppActivity::LogView => {
            match log_view_interval {
                Some(s) => {
                    push_segment(out, HeaderPart::Gap, String::from_str(" · "));
                    push_segment(out, HeaderPart::Interval, interval_string(s));
                },
                None => {},
            }
        },
    }
    assert(segments_view(out@) =~= start + activity_parts(activity, recording_interval, log_view_interval, display_paused, spinner_index));
}

/// Appends the staleness mark; see `stale_parts`.
fn append_stale(out: &mut Vec<HeaderSegment>, stale_age: Option<u64>)
    ensures
        segments_view(final(out)@) == segments_view(old(out)@) + stale_parts(stale_age),
{
    let ghost start = segments_view(out@);
    match stale_age {
        Some(age) => {
            let mut text = String::from_str(" · STALE ");
            let digits = decimal_string(age as u128);
            text.append(digits.as_str());
            text.append("s");
            push_segment(out, HeaderPart::Stale, text);
        },
        None => {},
    }
    assert(segments_view(out@) =~= start + stale_parts(stale_age));
}

/// Appends the paused mark; see `paused_parts`.
fn append_paused(out: &mut Vec<HeaderSegment>, activity: AppActivity, display_paused: bool)
    ensures
        segments_view(final(out)@) == segments_view(old(out)@) + paused_parts(activity, display_paused),
{
    let ghost start = segments_view(out@);
    if display_paused && activity != AppActivity::LogView {
        push_segment(out, HeaderPart::Gap, String::from_str("  "));
        push_segment(out, HeaderPart::Paused, String::from_str(" DISPLAY PAUSED "));
    }
    assert(segments_view(out@) =~= start + paused_parts(activity, display_paused));
}

/// Appends a gap and the profile badge; see `badge_parts`.
fn append_badge(out: &mut Vec<HeaderSegment>, activity: AppActivity, profile: Option<&str>, modified: bool)
    ensures
        segments_view(final(out)@) == segments_view(old(out)@) + badge_parts(
            activity,
            match profile {
                Some(p) => Some(p@),
                None => None,
            },
            modified,
        ),
{
    let ghost start = segments_view(out@);
    push_segment(out, HeaderPart::Gap, String::from_str("  "));
    let label = profile_label(activity, profile, modified);
    push_segment(out, HeaderPart::Profile, truncate_middle(label.as_str(), PROFILE_LABEL_MAX_WIDTH));
    assert(segments_view(out@) =~= start + badge_parts(
        activity,
        match profile {
            Some(p) => Some(p@),
            None => None,
        },
        modified,
    ));
}

/// The look of the menu label: on the selection colour while the menu is
/// open, on the focus colour while hovered, otherwise the hint colour on the
/// panel; always bold.
pub open spec fn header_menu_style_spec(menu_open: bool, hovered: bool, theme: Theme) -> TextStyle {
    if menu_open {
        TextStyle { fg: Some(theme.text), bg: Some(theme.table_selection_surface), bold: true, underlined: false }
    } else if hovered {
        TextStyle { fg: Some(theme.text), bg: Some(theme.focus_surface), bold: true, underlined: false }
    } else {
        TextStyle { fg: Some(theme.key_hint), bg: Some(theme.panel), bold: true, underlined: false }
    }
}

/// The look of the menu label; see `header_menu_style_spec`.
pub fn header_menu_style(menu_open: bool, hovered: bool, theme: &Theme) -> (r: TextStyle)
    ensures
        r == header_menu_style_spec(menu_open, hovered, *theme),
{
    if menu_open {
        TextStyle { fg: Some(theme.text), bg: Some(theme.table_selection_surface), bold: true, underlined: false }
    } else if hovered {
        TextStyle { fg: Some(theme.text), bg: Some(theme.focus_surface), bold: true, underlined: false }
    } else {
        TextStyle { fg: Some(theme.key_hint), bg: Some(theme.panel), bold: true, underlined: false }
    }
}

/// The look of a badge: the background colour on `color`, bold.
pub open spec fn mode_style(color: Color, theme: Theme) -> TextStyle {
    TextStyle { fg: Some(theme.background), bg: Some(color), bold: true, underlined: false }
}

/// The colour of the activity badge: the series colour live, the danger
/// colour while recording, the warning colour in a log.
pub open spec fn activity_color(activity: AppActivity, theme: Theme) -> Color {
    match activity {
        AppActivity::Live => theme.active_series,
        AppActivity::Recording => theme.danger,
        AppActivity::LogView => theme.warning,
    }
}

/// The look of each piece of the header: the menu label as
/// `header_menu_style_spec` says, gaps plain, the activity badge and the
/// paused mark as badges, the interval muted, the spinner in the danger
/// colour, the staleness mark in the warning colour (those three bold), the
/// profile badge black on the muted colour, and the log name in the warning
/// colour while recording, in body text otherwise.
pub open spec fn header_part_style_spec(part: HeaderPart, activity: AppActivity, menu_open: bool, menu_hovered: bool, theme: Theme) -> TextStyle {
    match part {
        HeaderPart::Menu => header_menu_style_spec(menu_open, menu_hovered, theme),
        HeaderPart::Gap => TextStyle { fg: None, bg: None, bold: false, underlined: false },
        HeaderPart::Mode => mode_style(activity_color(activity, theme), theme),
        HeaderPart::Interval => TextStyle { fg: Some(theme.muted), bg: None, bold: true, underlined: false },
        HeaderPart::Spinner => TextStyle { fg: Some(theme.danger), bg: None, bold: true, underlined: false },
        HeaderPart::Stale => TextStyle { fg: Some(theme.warning), bg: None, bold: true, underlined: false },
        HeaderPart::Paused => mode_style(theme.warning, theme),
        HeaderPart::Profile => TextStyle { fg: Some(Color::Black), bg: Some(theme.muted), bold: false, underlined: false },
        HeaderPart::LogName => TextStyle {
            fg: Some(if activity == AppActivity::Recording { theme.warning } else { theme.text }),
            bg: None,
            bold: false,
            underlined: false,
        },
    }
}

/// The look of a piece of the header; see `header_part_style_spec`.
pub fn header_part_style(part: HeaderPart, activity: AppActivity, menu_open: bool, menu_hovered: bool, theme: &Theme) -> (r: TextStyle)
    ensures
        r == header_part_style_spec(part, activity, menu_open, menu_hovered, *theme),
{
    match part {
        HeaderPart::Menu => header_menu_style(menu_open, menu_hovered, theme),
        HeaderPart::Gap => TextStyle::plain(),
        HeaderPart::Mode => {
            let color = match activity {
                AppActivity::Live => theme.active_series,
                AppActivity::Recording => theme.danger,
                AppActivity::LogView => theme.warning,
            };
            TextStyle { fg: Some(theme.background), bg: Some(color), bold: true, underlined: false }
        },
        HeaderPart::Interval => TextStyle { fg: Some(theme.muted), bg: None, bold: true, underlined: false },
        HeaderPart::Spinner => TextStyle { fg: Some(theme.danger), bg: None, bold: true, underlined: false },
        HeaderPart::Stale => TextStyle { fg: Some(theme.warning), bg: None, bold: true, underlined: false },
        HeaderPart::Paused => TextStyle { fg: Some(theme.background), bg: Some(theme.warning), bold: true, underlined: false },
        HeaderPart::Profile => TextStyle { fg: Some(Color::Black), bg: Some(theme.muted), bold: false, underlined: false },
        HeaderPart::LogName => TextStyle {
            fg: Some(if activity == AppActivity::Recording { theme.warning } else { theme.text }),
            bg: None,
            bold: false,
            underlined: false,
        },
    }
}

} // verus!

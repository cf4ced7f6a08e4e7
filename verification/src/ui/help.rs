//! Sizes of the keyboard help dialog.

use vstd::prelude::*;

use crate::ui::format::{format_integer, grouped};
use crate::ui::graph_slot::{styled_seq, styled_view, StyledText, TextStyle};
use crate::ui::rect::{max_int, sub0};
use crate::ui::text::{repeat_string, repeated};
use crate::ui::theme::{Color, Theme};
use crate::ui::widgets::scrollable_modal::ScrollableModal;

verus! {

/// Blank columns between a key and its label.
pub const KEY_LABEL_GAP: usize = 2;
/// Characters of the separator between the two help columns.
pub const COLUMN_SEPARATOR_WIDTH: usize = 5;

/// A shortcut and what it does.
#[derive(Clone, Copy, Debug)]
pub struct HelpItem {
    pub key: &'static str,
    pub label: &'static str,
}

/// A titled group of shortcuts, with an optional note on where they apply.
#[derive(Debug)]
pub struct HelpSection {
    pub title: &'static str,
    pub focus_hint: Option<&'static str>,
    pub rows: Vec<HelpItem>,
}

/// Characters of the longest key among `rows`.
pub open spec fn key_width_spec(rows: Seq<HelpItem>) -> int
    decreases rows.len(),
{
    if rows.len() == 0 {
        0
    } else {
        max_int(key_width_spec(rows.drop_last()), rows.last().key@.len() as int)
    }
}

/// Characters of the longest key of a section.
pub fn section_key_width(section: &HelpSection) -> (r: usize)
    ensures
        r == key_width_spec(section.rows@),
{
    let mut width: usize = 0;
    let mut i: usize = 0;
    while i < section.rows.len()
        invariant
            i <= section.rows@.len(),
            width == key_width_spec(section.rows@.take(i as int)),
        decreases section.rows@.len() - i,
    {
        let len = section.rows[i].key.unicode_len();
        proof {
            assert(section.rows@.take(i + 1).drop_last() =~= section.rows@.take(i as int));
        }
        if len > width {
            width = len;
        }
        i = i + 1;
    }
    assert(section.rows@.take(section.rows@.len() as int) =~= section.rows@);
    width
}

/// Characters of a section heading: its title, and its note in brackets after
/// two spaces.
pub open spec fn header_width_spec(section: HelpSection) -> int {
    section.title@.len() + match section.focus_hint {
        Some(hint) => 4 + hint@.len() as int,
        None => 0int,
    }
}

/// Characters of a section heading.
pub fn section_header_width(section: &HelpSection) -> (r: usize)
    requires
        header_width_spec(*section) <= usize::MAX,
    ensures
        r == header_width_spec(*section),
{
    let mut width = section.title.unicode_len();
    match section.focus_hint {
        Some(hint) => {
            width = width + 2 + 1 + hint.unicode_len() + 1;
        },
        None => {},
    }
    width
}

/// Characters of a footer of shortcuts: each key, a space and its label, two
/// spaces between shortcuts.
pub open spec fn shortcut_width_spec(items: Seq<(&'static str, &'static str)>) -> int
    decreases items.len(),
{
    if items.len() == 0 {
        0
    } else {
        shortcut_width_spec(items.drop_last()) + (if items.len() > 1 { 2int } else { 0 })
            + items.last().0@.len() + 1 + items.last().1@.len()
    }
}

/// Characters of a footer of shortcuts.
pub fn shortcut_width(items: &Vec<(&'static str, &'static str)>) -> (r: usize)
    requires
        shortcut_width_spec(items@) <= usize::MAX,
    ensures
        r == shortcut_width_spec(items@),
{
    let mut total: usize = 0;
    let mut i: usize = 0;
    while i < items.len()
        invariant
            i <= items@.len(),
            total == shortcut_width_spec(items@.take(i as int)),
            shortcut_width_spec(items@) <= usize::MAX,
        decreases items@.len() - i,
    {
        proof {
            assert(items@.take(i + 1).drop_last() =~= items@.take(i as int));
            lemma_shortcut_width_prefix(items@, i + 1);
        }
        let (key, label) = items[i];
        total = total + (if i > 0 { 2 } else { 0 }) + key.unicode_len() + 1 + label.unicode_len();
        i = i + 1;
    }
    assert(items@.take(items@.len() as int) =~= items@);
    total
}

/// A footer's prefix is no wider than the footer.
pub proof fn lemma_shortcut_width_prefix(items: Seq<(&'static str, &'static str)>, k: int)
    requires
        0 <= k <= items.len(),
    ensures
        shortcut_width_spec(items.take(k)) <= shortcut_width_spec(items),
    decreases items.len() - k,
{
    if k < items.len() {
        lemma_shortcut_width_prefix(items, k + 1);
        assert(items.take(k + 1).drop_last() =~= items.take(k));
    } else {
        assert(items.take(k) =~= items);
    }
}

/// Characters of the widest line of a section: its heading or a row of its
/// longest key, the gap and a label.
pub open spec fn section_width_spec(section: HelpSection) -> int {
    max_int(header_width_spec(section), rows_width_spec(section.rows@, key_width_spec(section.rows@)))
}

/// Characters of the widest row, keys padded to `key_width`.
pub open spec fn rows_width_spec(rows: Seq<HelpItem>, key_width: int) -> int
    decreases rows.len(),
{
    if rows.len() == 0 {
        0
    } else {
        max_int(rows_width_spec(rows.drop_last(), key_width), key_width + KEY_LABEL_GAP + rows.last().label@.len())
    }
}

/// Characters of the widest line of a column of sections.
pub open spec fn column_width_spec(sections: Seq<HelpSection>) -> int
    decreases sections.len(),
{
    if sections.len() == 0 {
        0
    } else {
        max_int(column_width_spec(sections.drop_last()), section_width_spec(sections.last()))
    }
}

/// Whether the widths of a column of sections fit in a `usize`.
pub open spec fn column_fits(sections: Seq<HelpSection>) -> bool {
    forall|s: int| 0 <= s < sections.len() ==> {
        &&& header_width_spec(#[trigger] sections[s]) <= usize::MAX
        &&& forall|r: int| 0 <= r < sections[s].rows@.len() ==> key_width_spec(sections[s].rows@) + KEY_LABEL_GAP
            + (#[trigger] sections[s].rows@[r]).label@.len() <= usize::MAX
    }
}

/// Characters of the widest line of a column of sections.
pub fn render_column_widths(sections: &Vec<HelpSection>) -> (r: usize)
    requires
        column_fits(sections@),
    ensures
        r == column_width_spec(sections@),
{
    let mut max_width: usize = 0;
    let mut s: usize = 0;
    while s < sections.len()
        invariant
            s <= sections@.len(),
            column_fits(sections@),
            max_width == column_width_spec(sections@.take(s as int)),
        decreases sections@.len() - s,
    {
        let section = &sections[s];
        let header_width = section_header_width(section);
        let key_width = section_key_width(section);
        let mut rows_width: usize = 0;
        let mut r: usize = 0;
        while r < section.rows.len()
            invariant
                r <= section.rows@.len(),
                section == &sections@[s as int],
                column_fits(sections@),
                s < sections@.len(),
                key_width == key_width_spec(section.rows@),
                rows_width == rows_width_spec(section.rows@.take(r as int), key_width as int),
            decreases section.rows@.len() - r,
        {
            proof {
                assert(section.rows@.take(r + 1).drop_last() =~= section.rows@.take(r as int));
                assert(key_width_spec(sections@[s as int].rows@) + KEY_LABEL_GAP + sections@[s as int].rows@[r as int].label@.len() <= usize::MAX);
            }
            let row_width = key_width + KEY_LABEL_GAP + section.rows[r].label.unicode_len();
            if row_width > rows_width {
                rows_width = row_width;
            }
            r = r + 1;
        }
        proof {
            assert(section.rows@.take(section.rows@.len() as int) =~= section.rows@);
            assert(sections@.take(s + 1).drop_last() =~= sections@.take(s as int));
        }
        let width = if header_width > rows_width { header_width } else { rows_width };
        if width > max_width {
            max_width = width;
        }
        s = s + 1;
    }
    assert(sections@.take(sections@.len() as int) =~= sections@);
    max_width
}

/// Lines of a column of sections: a heading and rows per section, one blank
/// line between sections.
pub open spec fn column_lines_spec(sections: Seq<HelpSection>) -> int
    decreases sections.len(),
{
    if sections.len() == 0 {
        0
    } else {
        column_lines_spec(sections.drop_last()) + (if sections.len() > 1 { 1int } else { 0 }) + 1
            + sections.last().rows@.len()
    }
}

/// Lines of a column of sections.
pub fn column_line_count(sections: &Vec<HelpSection>) -> (r: usize)
    requires
        column_lines_spec(sections@) <= usize::MAX,
    ensures
        r == column_lines_spec(sections@),
{
    let mut lines: usize = 0;
    let mut s: usize = 0;
    while s < sections.len()
        invariant
            s <= sections@.len(),
            lines == column_lines_spec(sections@.take(s as int)),
            column_lines_spec(sections@) <= usize::MAX,
        decreases sections@.len() - s,
    {
        proof {
            assert(sections@.take(s + 1).drop_last() =~= sections@.take(s as int));
            lemma_column_lines_prefix(sections@, s + 1);
        }
        lines = lines + (if s > 0 { 1 } else { 0 }) + 1 + sections[s].rows.len();
        s = s + 1;
    }
    assert(sections@.take(sections@.len() as int) =~= sections@);
    lines
}

/// A column's prefix has no more lines than the column.
pub proof fn lemma_column_lines_prefix(sections: Seq<HelpSection>, k: int)
    requires
        0 <= k <= sections.len(),
    ensures
        column_lines_spec(sections.take(k)) <= column_lines_spec(sections),
    decreases sections.len() - k,
{
    if k < sections.len() {
        lemma_column_lines_prefix(sections, k + 1);
        assert(sections.take(k + 1).drop_last() =~= sections.take(k));
    } else {
        assert(sections.take(k) =~= sections);
    }
}

/// Characters of the help body: both columns and their separator, or the title,
/// hint or footer when one of them is wider, cut to sixteen bits.
pub open spec fn help_width_spec(
    left: Seq<HelpSection>,
    right: Seq<HelpSection>,
    title: Seq<char>,
    hint: Seq<char>,
    footer: Seq<(&'static str, &'static str)>,
) -> u16 {
    let title_width = max_int(max_int(title.len() as int, hint.len() as int), shortcut_width_spec(footer));
    let body = column_width_spec(left) + COLUMN_SEPARATOR_WIDTH + column_width_spec(right);
    max_int(body, title_width) as u16
}

/// Characters of the help body; see `help_width_spec`.
pub fn help_content_width(
    left: &Vec<HelpSection>,
    right: &Vec<HelpSection>,
    title: &str,
    hint: &str,
    footer: &Vec<(&'static str, &'static str)>,
) -> (r: u16)
    requires
        column_fits(left@),
        column_fits(right@),
        shortcut_width_spec(footer@) <= usize::MAX,
        column_width_spec(left@) + COLUMN_SEPARATOR_WIDTH + column_width_spec(right@) <= usize::MAX,
    ensures
        r == help_width_spec(left@, right@, title@, hint@, footer@),
{
    let l = render_column_widths(left);
    let rw = render_column_widths(right);
    let t = title.unicode_len();
    let h = hint.unicode_len();
    let f = shortcut_width(footer);
    let th = if t > h { t } else { h };
    let title_width = if th > f { th } else { f };
    let body = l + COLUMN_SEPARATOR_WIDTH + rw;
    let w = if body > title_width { body } else { title_width };
    w as u16
}

/// Lines of the help body: the title, hint and a blank line, then the longer
/// column, cut to sixteen bits.
pub fn help_content_line_count(left: &Vec<HelpSection>, right: &Vec<HelpSection>) -> (r: u16)
    requires
        column_lines_spec(left@) <= usize::MAX - 3,
        column_lines_spec(right@) <= usize::MAX - 3,
    ensures
        r == (3 + max_int(column_lines_spec(left@), column_lines_spec(right@))) as u16,
{
    let l = column_line_count(left);
    let rc = column_line_count(right);
    let m = if l > rc { l } else { rc };
    (3 + m) as u16
}

/// The help dialog for its two columns of sections, title, hint and footer.
pub fn help_modal(
    left: &Vec<HelpSection>,
    right: &Vec<HelpSection>,
    title: &str,
    hint: &str,
    footer: &Vec<(&'static str, &'static str)>,
) -> (r: ScrollableModal)
    requires
        column_fits(left@),
        column_fits(right@),
        shortcut_width_spec(footer@) <= usize::MAX,
        column_width_spec(left@) + COLUMN_SEPARATOR_WIDTH + column_width_spec(right@) <= usize::MAX,
        column_lines_spec(left@) <= usize::MAX - 3,
        column_lines_spec(right@) <= usize::MAX - 3,
    ensures
        r.title@ == "HELP"@,
        r.content_width == help_width_spec(left@, right@, title@, hint@, footer@),
        r.content_height == (3 + max_int(column_lines_spec(left@), column_lines_spec(right@))) as u16,
        r.footer_height == 1,
        r.placement == crate::ui::widgets::scrollable_modal::ScrollableModalPlacement::Centered,
{
    ScrollableModal::new(
        "HELP",
        help_content_width(left, right, title, hint, footer),
        help_content_line_count(left, right),
        1,
    )
}

/// The largest scroll offset of the help body for pages of `page_size` rows.
pub fn help_scroll_max_for_page_size(
    left: &Vec<HelpSection>,
    right: &Vec<HelpSection>,
    title: &str,
    hint: &str,
    footer: &Vec<(&'static str, &'static str)>,
    page_size: usize,
) -> (r: usize)
    requires
        column_fits(left@),
        column_fits(right@),
        shortcut_width_spec(footer@) <= usize::MAX,
        column_width_spec(left@) + COLUMN_SEPARATOR_WIDTH + column_width_spec(right@) <= usize::MAX,
        column_lines_spec(left@) <= usize::MAX - 3,
        column_lines_spec(right@) <= usize::MAX - 3,
    ensures
        r == crate::ui::rect::sub0(
            ((3 + max_int(column_lines_spec(left@), column_lines_spec(right@))) as u16) as int,
            if page_size >= 1 { page_size as int } else { 1 },
        ),
{
    help_modal(left, right, title, hint, footer).max_offset_for_page_size(page_size)
}

/// The hint under the help title: what the footer, the history sizes of
/// ordinary and tracked processes and the colours mean.
pub open spec fn help_hint_spec(general_capacity: nat, tracked_capacity: nat) -> Seq<char> {
    "Footer: focused actions. History: "@ + grouped(general_capacity) + "/"@ + grouped(tracked_capacity)
        + " normal/tracked. Scheme colors mark active items; T marks tracked."@
}

/// The hint under the help title; see `help_hint_spec`. The capacities are the
/// samples kept per ordinary and per tracked process.
pub fn help_hint(general_capacity: u64, tracked_capacity: u64) -> (r: String)
    ensures
        r@ == help_hint_spec(general_capacity as nat, tracked_capacity as nat),
{
    let mut out = String::from_str("Footer: focused actions. History: ");
    let a = format_integer(general_capacity);
    out.append(a.as_str());
    out.append("/");
    let b = format_integer(tracked_capacity);
    out.append(b.as_str());
    out.append(" normal/tracked. Scheme colors mark active items; T marks tracked.");
    out
}

/// The title of the help dialog, with the program's version.
pub fn help_title(version: &str) -> (r: String)
    ensures
        r@ == "winproc-tui "@ + version@ + " · Keyboard shortcuts"@,
{
    let mut out = String::from_str("winproc-tui ");
    out.append(version);
    out.append(" · Keyboard shortcuts");
    out
}

/// What stands between the two help columns.
pub const COLUMN_SEPARATOR: &'static str = "  │  ";

/// A line of a help column: its pieces and the characters they take.
#[derive(Clone, Debug)]
pub struct ColumnRow {
    pub spans: Vec<StyledText>,
    pub width: usize,
}

impl ColumnRow {
    /// An empty line.
    pub fn blank() -> (r: ColumnRow)
        ensures
            r.spans@.len() == 0,
            r.width == 0,
    {
        ColumnRow { spans: Vec::new(), width: 0 }
    }
}

/// A line of a help column as values.
pub open spec fn row_view(row: ColumnRow) -> (Seq<(Seq<char>, TextStyle)>, int) {
    (styled_seq(row.spans@), row.width as int)
}

/// Text in colour `c`, optionally bold.
pub open spec fn colored(c: Color, bold: bool) -> TextStyle {
    TextStyle { fg: Some(c), bg: None, bold, underlined: false }
}

/// The heading of a section: its title in bold accent, then its note in
/// brackets, muted, after two spaces.
pub open spec fn header_row_spec(section: HelpSection, theme: Theme) -> (Seq<(Seq<char>, TextStyle)>, int) {
    let title = seq![(section.title@, colored(theme.accent, true))];
    match section.focus_hint {
        Some(hint) => (
            title + seq![
                ("  "@, TextStyle { fg: None, bg: None, bold: false, underlined: false }),
                ("("@ + hint@ + ")"@, colored(theme.muted, false)),
            ],
            header_width_spec(section),
        ),
        None => (title, header_width_spec(section)),
    }
}

/// The heading of a section; see `header_row_spec`.
pub fn section_header_row(section: &HelpSection, theme: &Theme) -> (r: ColumnRow)
    requires
        header_width_spec(*section) <= usize::MAX,
    ensures
        row_view(r) == header_row_spec(*section, *theme),
{
    let width = section_header_width(section);
    let mut spans = vec![StyledText {
        text: String::from_str(section.title),
        style: TextStyle { fg: Some(theme.accent), bg: None, bold: true, underlined: false },
    }];
    if let Some(hint) = section.focus_hint {
        let mut hint_text = String::from_str("(");
        hint_text.append(hint);
        hint_text.append(")");
        spans.push(StyledText { text: String::from_str("  "), style: TextStyle::plain() });
        spans.push(StyledText { text: hint_text, style: TextStyle::fg(theme.muted) });
    }
    let r = ColumnRow { spans, width };
    assert(row_view(r).0 =~~= header_row_spec(*section, *theme).0);
    r
}

/// A shortcut line: the key in the hint colour, spaces up to `key_width`
/// and the gap, then the label.
pub open spec fn shortcut_row_spec(item: HelpItem, key_width: int, theme: Theme) -> (Seq<(Seq<char>, TextStyle)>, int) {
    let pad = sub0(key_width, item.key@.len() as int) + KEY_LABEL_GAP;
    (
        seq![
            (item.key@, colored(theme.key_hint, false)),
            (repeated(' ', pad), TextStyle { fg: None, bg: None, bold: false, underlined: false }),
            (item.label@, colored(theme.text, false)),
        ],
        item.key@.len() + pad + item.label@.len(),
    )
}

/// A shortcut line; see `shortcut_row_spec`.
pub fn shortcut_row(item: &HelpItem, key_width: usize, theme: &Theme) -> (r: ColumnRow)
    requires
        max_int(key_width as int, item.key@.len() as int) + KEY_LABEL_GAP + item.label@.len() <= usize::MAX,
    ensures
        row_view(r) == shortcut_row_spec(*item, key_width as int, *theme),
{
    let key_len = item.key.unicode_len();
    let pad = key_width.saturating_sub(key_len) + KEY_LABEL_GAP;
    let label_len = item.label.unicode_len();
    let width = key_len + pad + label_len;
    let spans = vec![
        StyledText { text: String::from_str(item.key), style: TextStyle::fg(theme.key_hint) },
        StyledText { text: repeat_string(' ', pad), style: TextStyle::plain() },
        StyledText { text: String::from_str(item.label), style: TextStyle::fg(theme.text) },
    ];
    let r = ColumnRow { spans, width };
    assert(row_view(r).0 =~~= shortcut_row_spec(*item, key_width as int, *theme).0);
    r
}

/// The lines of one section: its heading and a line per shortcut.
pub open spec fn section_rows_spec(section: HelpSection, theme: Theme) -> Seq<(Seq<(Seq<char>, TextStyle)>, int)> {
    seq![header_row_spec(section, theme)] + Seq::new(
        section.rows@.len(),
        |i: int| shortcut_row_spec(section.rows@[i], key_width_spec(section.rows@), theme),
    )
}

/// The lines of a column: each section's lines, a blank line between two
/// sections.
pub open spec fn column_rows_spec(sections: Seq<HelpSection>, theme: Theme) -> Seq<(Seq<(Seq<char>, TextStyle)>, int)>
    decreases sections.len(),
{
    if sections.len() == 0 {
        Seq::empty()
    } else {
        column_rows_spec(sections.drop_last(), theme) + (if sections.len() > 1 {
            seq![(Seq::<(Seq<char>, TextStyle)>::empty(), 0int)]
        } else {
            Seq::empty()
        }) + section_rows_spec(sections.last(), theme)
    }
}

/// The lines of a row of shortcuts as values.
pub open spec fn rows_view(rows: Seq<ColumnRow>) -> Seq<(Seq<(Seq<char>, TextStyle)>, int)> {
    Seq::new(rows.len(), |i: int| row_view(rows[i]))
}

/// A key's characters stay within its section's widest key.
pub proof fn lemma_key_width_bounds(rows: Seq<HelpItem>, i: int)
    requires
        0 <= i < rows.len(),
    ensures
        rows[i].key@.len() <= key_width_spec(rows),
    decreases rows.len(),
{
    if i < rows.len() - 1 {
        lemma_key_width_bounds(rows.drop_last(), i);
    }
}

/// The lines of one section; see `section_rows_spec`.
pub fn section_rows(section: &HelpSection, theme: &Theme, out: &mut Vec<ColumnRow>)
    requires
        header_width_spec(*section) <= usize::MAX,
        forall|r: int| 0 <= r < section.rows@.len() ==> key_width_spec(section.rows@) + KEY_LABEL_GAP
            + (#[trigger] section.rows@[r]).label@.len() <= usize::MAX,
    ensures
        rows_view(final(out)@) == rows_view(old(out)@) + section_rows_spec(*section, *theme),
{
    let ghost start = rows_view(out@);
    out.push(section_header_row(section, theme));
    let key_width = section_key_width(section);
    let ghost rows = Seq::new(
        section.rows@.len(),
        |i: int| shortcut_row_spec(section.rows@[i], key_width_spec(section.rows@), *theme),
    );
    assert(rows_view(out@) =~~= start + seq![header_row_spec(*section, *theme)] + rows.take(0));
    let mut i: usize = 0;
    while i < section.rows.len()
        invariant
            i <= section.rows@.len(),
            key_width == key_width_spec(section.rows@),
            forall|r: int| 0 <= r < section.rows@.len() ==> key_width_spec(section.rows@) + KEY_LABEL_GAP
                + (#[trigger] section.rows@[r]).label@.len() <= usize::MAX,
            rows == Seq::new(
                section.rows@.len(),
                |i: int| shortcut_row_spec(section.rows@[i], key_width_spec(section.rows@), *theme),
            ),
            rows_view(out@) == start + seq![header_row_spec(*section, *theme)] + rows.take(i as int),
        decreases section.rows@.len() - i,
    {
        proof {
            lemma_key_width_bounds(section.rows@, i as int);
            assert(key_width_spec(section.rows@) + KEY_LABEL_GAP + section.rows@[i as int].label@.len() <= usize::MAX);
        }
        let row = shortcut_row(&section.rows[i], key_width, theme);
        assert(row_view(row) == rows[i as int]);
        let ghost before = rows_view(out@);
        out.push(row);
        assert(rows_view(out@) =~= before.push(rows[i as int]));
        assert(rows.take(i + 1) =~= rows.take(i as int).push(rows[i as int]));
        i = i + 1;
    }
    assert(rows.take(section.rows@.len() as int) =~~= rows);
    assert(rows_view(out@) =~~= start + section_rows_spec(*section, *theme));
}

/// The lines of a column; see `column_rows_spec`.
pub fn render_column(sections: &Vec<HelpSection>, theme: &Theme) -> (r: Vec<ColumnRow>)
    requires
        column_fits(sections@),
    ensures
        rows_view(r@) == column_rows_spec(sections@, *theme),
{
    let mut rows: Vec<ColumnRow> = Vec::new();
    let mut s: usize = 0;
    assert(rows_view(rows@) =~~= column_rows_spec(sections@.take(0), *theme));
    while s < sections.len()
        invariant
            s <= sections@.len(),
            column_fits(sections@),
            rows_view(rows@) == column_rows_spec(sections@.take(s as int), *theme),
        decreases sections@.len() - s,
    {
        proof {
            assert(sections@.take(s + 1).drop_last() =~~= sections@.take(s as int));
            assert(header_width_spec(sections@[s as int]) <= usize::MAX);
        }
        if s > 0 {
            let ghost before = rows_view(rows@);
            rows.push(ColumnRow::blank());
            assert(rows_view(rows@) =~~= before + seq![(Seq::<(Seq<char>, TextStyle)>::empty(), 0int)]);
        }
        section_rows(&sections[s], theme, &mut rows);
        s = s + 1;
        assert(rows_view(rows@) =~~= column_rows_spec(sections@.take(s as int), *theme));
    }
    assert(sections@.take(sections@.len() as int) =~~= sections@);
    rows
}

/// The widest of some lines, zero without any.
pub open spec fn widest_row(rows: Seq<(Seq<(Seq<char>, TextStyle)>, int)>) -> int
    decreases rows.len(),
{
    if rows.len() == 0 {
        0
    } else {
        max_int(widest_row(rows.drop_last()), rows.last().1)
    }
}

/// The widest of some lines; see `widest_row`.
pub fn column_max_width(rows: &Vec<ColumnRow>) -> (r: usize)
    ensures
        r == widest_row(rows_view(rows@)),
{
    let mut widest: usize = 0;
    let mut i: usize = 0;
    while i < rows.len()
        invariant
            i <= rows@.len(),
            widest == widest_row(rows_view(rows@).take(i as int)),
        decreases rows@.len() - i,
    {
        proof {
            assert(rows_view(rows@).take(i + 1).drop_last() =~~= rows_view(rows@).take(i as int));
        }
        if rows[i].width > widest {
            widest = rows[i].width;
        }
        i = i + 1;
    }
    assert(rows_view(rows@).take(rows@.len() as int) =~~= rows_view(rows@));
    widest
}

/// A line of the help body: the left column's line padded to the left
/// column's width, the muted separator, then the right column's line; a
/// missing line counts as blank.
pub open spec fn body_line_spec(
    left: Seq<(Seq<(Seq<char>, TextStyle)>, int)>,
    right: Seq<(Seq<(Seq<char>, TextStyle)>, int)>,
    i: int,
    theme: Theme,
) -> Seq<(Seq<char>, TextStyle)> {
    let l = if i < left.len() { left[i] } else { (Seq::empty(), 0int) };
    let r = if i < right.len() { right[i] } else { (Seq::empty(), 0int) };
    let pad = sub0(widest_row(left), l.1);
    l.0 + (if pad > 0 {
        seq![(repeated(' ', pad), TextStyle { fg: None, bg: None, bold: false, underlined: false })]
    } else {
        Seq::empty()
    }) + seq![(COLUMN_SEPARATOR@, colored(theme.muted, false))] + r.0
}

/// The lines of the help dialog: the title in bold, the hint muted, a blank
/// line, then the two columns side by side.
pub open spec fn help_lines_spec(
    left: Seq<HelpSection>,
    right: Seq<HelpSection>,
    title: Seq<char>,
    hint: Seq<char>,
    theme: Theme,
) -> Seq<Seq<(Seq<char>, TextStyle)>> {
    let l = column_rows_spec(left, theme);
    let r = column_rows_spec(right, theme);
    seq![seq![(title, colored(theme.text, true))], seq![(hint, colored(theme.muted, false))], seq![
        (Seq::<char>::empty(), TextStyle { fg: None, bg: None, bold: false, underlined: false }),
    ]] + Seq::new(max_int(l.len() as int, r.len() as int) as nat, |i: int| body_line_spec(l, r, i, theme))
}

/// Lines of pieces as values.
pub open spec fn styled_lines(lines: Seq<Vec<StyledText>>) -> Seq<Seq<(Seq<char>, TextStyle)>> {
    Seq::new(lines.len(), |i: int| styled_seq(lines[i]@))
}

/// The lines of the help dialog; see `help_lines_spec`. `version` is the
/// program's version and the capacities are the samples kept per ordinary and
/// per tracked process.
pub fn help_lines(
    left: &Vec<HelpSection>,
    right: &Vec<HelpSection>,
    version: &str,
    general_capacity: u64,
    tracked_capacity: u64,
    theme: &Theme,
) -> (r: Vec<Vec<StyledText>>)
    requires
        column_fits(left@),
        column_fits(right@),
    ensures
        styled_lines(r@) == help_lines_spec(
            left@,
            right@,
            "winproc-tui "@ + version@ + " · Keyboard shortcuts"@,
            help_hint_spec(general_capacity as nat, tracked_capacity as nat),
            *theme,
        ),
{
    let title = help_title(version);
    let hint = help_hint(general_capacity, tracked_capacity);
    let ghost title_text = title@;
    let ghost hint_text = hint@;
    let mut lines: Vec<Vec<StyledText>> = Vec::new();
    lines.push(vec![StyledText { text: title, style: TextStyle { fg: Some(theme.text), bg: None, bold: true, underlined: false } }]);
    lines.push(vec![StyledText { text: hint, style: TextStyle::fg(theme.muted) }]);
    lines.push(vec![StyledText { text: String::new(), style: TextStyle::plain() }]);
    let left_rows = render_column(left, theme);
    let right_rows = render_column(right, theme);
    let left_width = column_max_width(&left_rows);
    let n = if left_rows.len() > right_rows.len() { left_rows.len() } else { right_rows.len() };
    let ghost l = column_rows_spec(left@, *theme);
    let ghost rr = column_rows_spec(right@, *theme);
    let ghost head = seq![seq![(title_text, colored(theme.text, true))], seq![(hint_text, colored(theme.muted, false))], seq![
        (Seq::<char>::empty(), TextStyle { fg: None, bg: None, bold: false, underlined: false }),
    ]];
    assert(styled_lines(lines@) =~~= head);
    let mut i: usize = 0;
    while i < n
        invariant
            i <= n == max_int(l.len() as int, rr.len() as int),
            rows_view(left_rows@) == l,
            rows_view(right_rows@) == rr,
            left_width == widest_row(l),
            styled_lines(lines@) == head + Seq::new(i as nat, |k: int| body_line_spec(l, rr, k, *theme)),
        decreases n - i,
    {
        let mut spans: Vec<StyledText> = Vec::new();
        let mut used: usize = 0;
        if i < left_rows.len() {
            let mut copy = clone_spans(&left_rows[i].spans);
            spans.append(&mut copy);
            used = left_rows[i].width;
        }
        let ghost lrow = if (i as int) < l.len() { l[i as int] } else { (Seq::<(Seq<char>, TextStyle)>::empty(), 0int) };
        assert(styled_seq(spans@) =~~= lrow.0);
        let pad = left_width.saturating_sub(used);
        if pad > 0 {
            let ghost before = styled_seq(spans@);
            spans.push(StyledText { text: repeat_string(' ', pad), style: TextStyle::plain() });
            assert(styled_seq(spans@) =~~= before.push((repeated(' ', pad as int), TextStyle { fg: None, bg: None, bold: false, underlined: false })));
        }
        let ghost before_sep = styled_seq(spans@);
        spans.push(StyledText { text: String::from_str(COLUMN_SEPARATOR), style: TextStyle::fg(theme.muted) });
        assert(styled_seq(spans@) =~~= before_sep.push((COLUMN_SEPARATOR@, colored(theme.muted, false))));
        if i < right_rows.len() {
            let ghost before_right = styled_seq(spans@);
            let mut copy = clone_spans(&right_rows[i].spans);
            let ghost copied = copy@;
            spans.append(&mut copy);
            assert(styled_seq(spans@) =~~= before_right + styled_seq(copied));
        }
        assert(styled_seq(spans@) =~~= body_line_spec(l, rr, i as int, *theme));
        let ghost before = styled_lines(lines@);
        lines.push(spans);
        assert(styled_lines(lines@) =~= before.push(body_line_spec(l, rr, i as int, *theme)));
        assert(Seq::new((i + 1) as nat, |k: int| body_line_spec(l, rr, k, *theme)) =~= Seq::new(
            i as nat,
            |k: int| body_line_spec(l, rr, k, *theme),
        ).push(body_line_spec(l, rr, i as int, *theme)));
        i = i + 1;
    }
    lines
}

/// A copy of some pieces.
pub fn clone_spans(spans: &Vec<StyledText>) -> (r: Vec<StyledText>)
    ensures
        styled_seq(r@) == styled_seq(spans@),
{
    let mut out: Vec<StyledText> = Vec::new();
    let mut i: usize = 0;
    while i < spans.len()
        invariant
            i <= spans@.len(),
            styled_seq(out@) == styled_seq(spans@).take(i as int),
        decreases spans@.len() - i,
    {
        let piece = StyledText { text: String::from_str(spans[i].text.as_str()), style: spans[i].style };
        assert(styled_view(piece) == styled_view(spans@[i as int]));
        let ghost before = styled_seq(out@);
        out.push(piece);
        assert(styled_seq(out@) =~= before.push(styled_view(spans@[i as int])));
        i = i + 1;
        assert(styled_seq(spans@).take(i as int) =~= styled_seq(spans@).take(i - 1).push(styled_view(spans@[i - 1])));
    }
    assert(styled_seq(spans@).take(spans@.len() as int) =~~= styled_seq(spans@));
    out
}

} // verus!

//! Text fields of the recording dialog.

use vstd::prelude::*;

use crate::ui::header::ellipsis3;
use crate::ui::investigation_profiles::cursor_char_of;
use crate::ui::details_panel::pow10;
use crate::ui::format::{decimal, decimal_string};
use crate::ui::rect::{add16, min_int, sub0, Rect};
use crate::ui::styled::{line_view, piece, Piece, Tone};
use crate::ui::widgets::confirm_dialog::{centered_dialog_rect, centered_dialog_spec, centered_fits};
use crate::ui::text::{
    byte_len, char_count_before, chars_of, is_char_boundary_at, push_range, push_repeated,
    string_from_chars,
};

verus! {

/// The visible window of the path being edited and the cursor's column in it;
/// nothing at width zero.
pub open spec fn path_window(value: Seq<char>, cursor_char: int, width: int) -> (Seq<char>, int) {
    if width == 0 {
        (Seq::empty(), 0)
    } else {
        let start = sub0(cursor_char, width - 1);
        let end = min_int(start + width, value.len() as int);
        (value.subrange(start, if end >= start { end } else { start }), min_int(cursor_char - start, width - 1))
    }
}

/// The visible part of the path being edited and the cursor's column in it;
/// `cursor` is a byte offset into `value`.
pub fn path_input_view(value: &str, cursor: usize, width: usize) -> (r: (String, usize))
    requires
        byte_len(value@) <= usize::MAX,
        cursor >= byte_len(value@) || is_char_boundary_at(value@, cursor as int),
    ensures
        exists|k: int|
            cursor_char_of(value@, cursor as int, k) && r.0@ == path_window(value@, k, width as int).0
                && r.1 == path_window(value@, k, width as int).1,
{
    let cursor_char = char_count_before(value, cursor);
    assert(cursor_char_of(value@, cursor as int, cursor_char as int));
    if width == 0 {
        return (String::new(), 0);
    }
    let chars = chars_of(value);
    let n = chars.len();
    let start_char = cursor_char.saturating_sub(width - 1);
    let end0 = start_char.saturating_add(width);
    let end = if end0 < n { end0 } else { n };
    let mut out: Vec<char> = Vec::new();
    if start_char <= end {
        push_range(&mut out, &chars, start_char, end);
    }
    let x0 = cursor_char - start_char;
    let cursor_x = if x0 < width - 1 { x0 } else { width - 1 };
    assert(out@ =~= path_window(value@, cursor_char as int, width as int).0);
    (string_from_chars(&out), cursor_x)
}

/// A path shortened in the middle to `max_width` characters: kept whole when
/// it fits, otherwise its head, three dots and a tail of half the width.
pub open spec fn compact_path_spec(value: Seq<char>, max_width: int) -> Seq<char> {
    let n = value.len() as int;
    if n <= max_width {
        value
    } else {
        let tail_len = max_width / 2;
        let head_len = sub0(max_width, tail_len + 3);
        value.take(head_len) + ellipsis3() + value.skip(n - tail_len)
    }
}

/// A path shortened in the middle to `max_width` characters.
pub fn compact_path(value: &str, max_width: usize) -> (r: String)
    requires
        max_width / 2 + 3 <= usize::MAX,
    ensures
        r@ == compact_path_spec(value@, max_width as int),
        value@.len() > max_width >= 5 ==> r@.len() == max_width,
{
    let chars = chars_of(value);
    let n = chars.len();
    if n <= max_width {
        return String::from_str(value);
    }
    let tail_len = max_width / 2;
    let head_len = max_width.saturating_sub(tail_len + 3);
    let mut out: Vec<char> = Vec::new();
    push_range(&mut out, &chars, 0, head_len);
    push_repeated(&mut out, '.', 3);
    push_range(&mut out, &chars, n - tail_len, n);
    assert(out@ =~= compact_path_spec(value@, max_width as int));
    string_from_chars(&out)
}

/// Columns of the recording dialog.
pub const RECORDING_PATH_WIDTH: u16 = 78;
/// Rows of the recording dialog.
pub const RECORDING_PATH_HEIGHT: u16 = 13;
/// Body row of the path input.
pub const RECORDING_PATH_INPUT_ROW: u16 = 3;
/// Body row of the interval choices.
pub const RECORDING_INTERVAL_ROW: u16 = 5;
/// Columns of the labels left of the dialog's values.
pub const RECORDING_INFO_LABEL_WIDTH: u16 = 15;
/// Columns of the overwrite question.
pub const RECORDING_OVERWRITE_WIDTH: u16 = 48;
/// Rows of the overwrite question.
pub const RECORDING_OVERWRITE_HEIGHT: u16 = 7;

/// The body of the recording dialog centred in `area`.
pub open spec fn recording_body(area: Rect) -> Rect {
    centered_dialog_spec(area, RECORDING_PATH_WIDTH as int, RECORDING_PATH_HEIGHT as int).shrunk(1, 1)
}

/// The path input: one row across the body, on its fourth row.
pub fn recording_path_input_area(area: Rect) -> (r: Rect)
    requires
        centered_fits(area, RECORDING_PATH_WIDTH as int, RECORDING_PATH_HEIGHT as int),
    ensures
        r == Rect::placed(
            recording_body(area).x as int,
            add16(recording_body(area).y as int, RECORDING_PATH_INPUT_ROW as int),
            recording_body(area).width as int,
            1,
        ),
{
    let content = centered_dialog_rect(area, RECORDING_PATH_WIDTH, RECORDING_PATH_HEIGHT).inner(1, 1);
    Rect::new(content.x, content.y.saturating_add(RECORDING_PATH_INPUT_ROW), content.width, 1)
}

/// The interval choices: the sixth body row, right of the label column.
pub open spec fn interval_selector_spec(area: Rect) -> Rect {
    let content = recording_body(area);
    Rect::placed(
        add16(content.x as int, RECORDING_INFO_LABEL_WIDTH as int),
        add16(content.y as int, RECORDING_INTERVAL_ROW as int),
        sub0(content.width as int, RECORDING_INFO_LABEL_WIDTH as int),
        1,
    )
}

/// The interval choices; see `interval_selector_spec`.
pub fn recording_interval_selector_area(area: Rect) -> (r: Rect)
    requires
        centered_fits(area, RECORDING_PATH_WIDTH as int, RECORDING_PATH_HEIGHT as int),
    ensures
        r == interval_selector_spec(area),
{
    let content = centered_dialog_rect(area, RECORDING_PATH_WIDTH, RECORDING_PATH_HEIGHT).inner(1, 1);
    Rect::new(
        content.x.saturating_add(RECORDING_INFO_LABEL_WIDTH),
        content.y.saturating_add(RECORDING_INTERVAL_ROW),
        content.width.saturating_sub(RECORDING_INFO_LABEL_WIDTH),
        1,
    )
}

/// The text of an interval choice: its mark and its seconds.
pub open spec fn interval_choice(selected: bool, seconds: u64) -> Seq<char> {
    (if selected { "(*)"@ } else { "( )"@ }) + " "@ + decimal(seconds as nat) + "s"@
}

/// The choice whose text, from the `i`-th on and starting at column `start`
/// of the selector, holds column `relative`; two columns stand between two
/// choices.
pub open spec fn interval_hit(options: Seq<u64>, relative: int, start: int, i: nat) -> Option<usize>
    decreases options.len() - i,
{
    if i >= options.len() {
        None
    } else {
        let width = interval_choice(false, options[i as int]).len() as int;
        if start <= relative < add16(start, width) {
            Some(i as usize)
        } else {
            interval_hit(options, relative, add16(add16(start, width), 2), i + 1)
        }
    }
}

/// The interval choice under the cell `(column, row)`: none off the selector
/// row, otherwise the choice whose text holds the column.
pub fn recording_interval_option_at(area: Rect, column: u16, row: u16, options: &Vec<u64>) -> (r: Option<usize>)
    requires
        centered_fits(area, RECORDING_PATH_WIDTH as int, RECORDING_PATH_HEIGHT as int),
    ensures
        r == if row != interval_selector_spec(area).y || column < interval_selector_spec(area).x
            || column >= interval_selector_spec(area).right_spec() {
            None
        } else {
            interval_hit(options@, column - interval_selector_spec(area).x, 0, 0)
        },
{
    let selector = recording_interval_selector_area(area);
    if row != selector.y || column < selector.x || column >= selector.right() {
        return None;
    }
    let relative = column - selector.x;
    let mut start: u16 = 0;
    let mut i: usize = 0;
    while i < options.len()
        invariant
            i <= options@.len(),
            selector == interval_selector_spec(area),
            relative == column - selector.x,
            row == selector.y && selector.x <= column < selector.right_spec(),
            interval_hit(options@, relative as int, 0, 0) == interval_hit(options@, relative as int, start as int, i as nat),
        decreases options@.len() - i,
    {
        let text = interval_choice_text(false, options[i]);
        let width = text.unicode_len() as u16;
        if relative >= start && relative < start.saturating_add(width) {
            return Some(i);
        }
        start = start.saturating_add(width).saturating_add(2);
        i = i + 1;
    }
    None
}

/// The text of an interval choice; see `interval_choice`.
pub fn interval_choice_text(selected: bool, seconds: u64) -> (r: String)
    ensures
        r@ == interval_choice(selected, seconds),
        r@.len() <= 25,
{
    let mut out = String::from_str(if selected { "(*)" } else { "( )" });
    out.append(" ");
    let digits = decimal_string(seconds as u128);
    out.append(digits.as_str());
    out.append("s");
    proof {
        reveal_strlit("(*)");
        reveal_strlit("( )");
        reveal_strlit(" ");
        reveal_strlit("s");
        lemma_decimal_u64_len(seconds as nat);
    }
    out
}

/// The digits of a `u64` are at most twenty.
pub proof fn lemma_decimal_u64_len(n: nat)
    requires
        n <= u64::MAX,
    ensures
        decimal(n).len() <= 20,
{
    reveal_with_fuel(pow10, 21);
    lemma_decimal_len_below(n, 20);
}

/// A number below ten to the `k` has at most `k` digits.
pub proof fn lemma_decimal_len_below(n: nat, k: nat)
    requires
        n < pow10(k),
        k >= 1,
    ensures
        decimal(n).len() <= k,
    decreases k,
{
    if n >= 10 {
        assert(k >= 2) by {
            if k == 1 {
                assert(pow10(1) == 10 * pow10(0));
            }
        }
        assert(n / 10 < pow10((k - 1) as nat)) by {
            assert(pow10(k) == 10 * pow10((k - 1) as nat));
        }
        lemma_decimal_len_below(n / 10, (k - 1) as nat);
    }
}

/// The interval choices as a line: each with its mark, two spaces apart; the
/// chosen one stands out, the more while the choices have the focus.
pub open spec fn interval_line_spec(options: Seq<u64>, selected: int, focused: bool) -> Seq<(Tone, Seq<char>)>
    decreases options.len(),
{
    if options.len() == 0 {
        Seq::empty()
    } else {
        let last = options.len() - 1;
        let before = interval_line_spec(options.drop_last(), selected, focused);
        let tone = if last == selected {
            if focused { Tone::Focused } else { Tone::Chosen }
        } else {
            Tone::Text
        };
        let choice = (tone, interval_choice(last == selected, options[last]));
        if last == 0 {
            seq![choice]
        } else {
            before.push((Tone::Plain, "  "@)).push(choice)
        }
    }
}

/// The interval choices as a line; see `interval_line_spec`.
pub fn recording_interval_line(options: &Vec<u64>, selected: usize, focused: bool) -> (r: Vec<Piece>)
    ensures
        line_view(r@) == interval_line_spec(options@, selected as int, focused),
{
    let mut out: Vec<Piece> = Vec::new();
    let mut i: usize = 0;
    while i < options.len()
        invariant
            i <= options@.len(),
            line_view(out@) == interval_line_spec(options@.take(i as int), selected as int, focused),
        decreases options@.len() - i,
    {
        let chosen = i == selected;
        let tone = if chosen {
            if focused { Tone::Focused } else { Tone::Chosen }
        } else {
            Tone::Text
        };
        let ghost before = out@;
        if i > 0 {
            out.push(piece(Tone::Plain, "  "));
        }
        out.push(Piece { tone, text: interval_choice_text(chosen, options[i]) });
        proof {
            assert(options@.take(i + 1).drop_last() =~= options@.take(i as int));
            assert(line_view(out@) =~= interval_line_spec(options@.take(i + 1), selected as int, focused));
        }
        i = i + 1;
    }
    assert(options@.take(options@.len() as int) =~= options@);
    out
}

/// The overwrite question: centred, 48 by 7 cells at most.
pub fn recording_overwrite_dialog_area(area: Rect) -> (r: Rect)
    requires
        centered_fits(area, RECORDING_OVERWRITE_WIDTH as int, RECORDING_OVERWRITE_HEIGHT as int),
    ensures
        r == centered_dialog_spec(area, RECORDING_OVERWRITE_WIDTH as int, RECORDING_OVERWRITE_HEIGHT as int),
{
    centered_dialog_rect(area, RECORDING_OVERWRITE_WIDTH, RECORDING_OVERWRITE_HEIGHT)
}

/// The size of the tracking list while recording: the count, `entry` or
/// `entries`, and that it is fixed.
pub fn tracking_list_text(count: usize) -> (r: String)
    ensures
        r@ == decimal(count as nat) + " "@ + (if count == 1 { "entry"@ } else { "entries"@ }) + " (fixed while recording)"@,
{
    let mut out = decimal_string(count as u128);
    out.append(" ");
    out.append(if count == 1 { "entry" } else { "entries" });
    out.append(" (fixed while recording)");
    out
}

} // verus!

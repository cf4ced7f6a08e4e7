//! The per-core CPU usage dialog.

use vstd::prelude::*;

use crate::ui::format::{decimal, decimal_string};
use crate::ui::help::{shortcut_width, shortcut_width_spec};
use crate::ui::rect::{max_int, min_int, sub0};
use crate::ui::styled::{line_view, lines_view, piece, push_line, single, single_line, Piece, Tone};
use crate::ui::text::{pad_start, pad_start_string};
use crate::ui::widgets::scrollable_modal::{ScrollableModal, ScrollableModalPlacement};

verus! {

/// The kind of a logical processor on a hybrid CPU.
#[derive(Clone, Copy, Debug, PartialEq, Eq, Structural)]
pub enum CpuCoreKind {
    Performance,
    Efficiency,
}

/// The footer shortcuts of the dialog.
pub fn footer_items() -> (r: Vec<(&'static str, &'static str)>)
    ensures
        r@.len() == 4,
        r@[0].0@ == "↑/↓"@ && r@[0].1@ == "Scroll"@,
        r@[1].0@ == "PgUp/PgDn"@ && r@[1].1@ == "Page"@,
        r@[2].0@ == "Home/End"@ && r@[2].1@ == "Edge"@,
        r@[3].0@ == "Enter/Esc"@ && r@[3].1@ == "Close"@,
{
    let mut r = Vec::new();
    r.push(("↑/↓", "Scroll"));
    r.push(("PgUp/PgDn", "Page"));
    r.push(("Home/End", "Edge"));
    r.push(("Enter/Esc", "Close"));
    r
}

/// Characters of the footer.
pub fn footer_width() -> (r: usize)
    ensures
        r == 58,
{
    let items = footer_items();
    proof {
        reveal_strlit("↑/↓");
        reveal_strlit("Scroll");
        reveal_strlit("PgUp/PgDn");
        reveal_strlit("Page");
        reveal_strlit("Home/End");
        reveal_strlit("Edge");
        reveal_strlit("Enter/Esc");
        reveal_strlit("Close");
        reveal_with_fuel(shortcut_width_spec, 5);
        assert(items@.drop_last().drop_last().drop_last().drop_last().len() == 0);
    }
    shortcut_width(&items)
}

/// Rows of the dialog: one per logical processor, at least one for the
/// message shown without any.
pub fn cpu_core_dialog_total_rows(core_count: usize) -> (r: usize)
    ensures
        r == max_int(core_count as int, 1),
{
    if core_count >= 1 {
        core_count
    } else {
        1
    }
}

/// The dialog for `core_count` logical processors: as wide as its footer (at
/// least 39 columns), one row per processor held at sixteen bits.
pub fn cpu_core_dialog_modal(core_count: usize) -> (r: ScrollableModal)
    ensures
        r.title@ == "PER-CORE CPU USAGE"@,
        r.content_width == 58,
        r.content_height == min_int(max_int(core_count as int, 1), u16::MAX as int),
        r.footer_height == 1,
        r.placement == ScrollableModalPlacement::Centered,
{
    let rows = cpu_core_dialog_total_rows(core_count);
    let content_height = if rows < 65535 { rows as u16 } else { 65535 };
    let footer = footer_width();
    let content_width = if footer > 39 { footer } else { 39 };
    ScrollableModal::new("PER-CORE CPU USAGE", content_width as u16, content_height, 1)
}

/// The letter of a processor kind: `P`, `E`, or `-` when unknown.
pub open spec fn kind_letter(kind: Option<CpuCoreKind>) -> Seq<char> {
    match kind {
        Some(CpuCoreKind::Performance) => "P"@,
        Some(CpuCoreKind::Efficiency) => "E"@,
        None => "-"@,
    }
}

/// The three parts of a processor row: its number right-aligned to
/// `index_width`, its kind in brackets, and its usage in three columns (held
/// at 100) with a percent sign.
pub fn cpu_core_line(index: usize, index_width: usize, usage_percent: u8, kind: Option<CpuCoreKind>) -> (r: (String, String, String))
    ensures
        r.0@ == "CPU "@ + pad_start(decimal(index as nat), index_width as int),
        r.1@ == " ("@ + kind_letter(kind) + ")  "@,
        r.2@ == pad_start(decimal(min_int(usage_percent as int, 100) as nat), 3) + "%"@,
{
    let letter = match kind {
        Some(CpuCoreKind::Performance) => "P",
        Some(CpuCoreKind::Efficiency) => "E",
        None => "-",
    };
    let number = decimal_string(index as u128);
    let mut first = String::from_str("CPU ");
    let padded = pad_start_string(number.as_str(), index_width);
    first.append(padded.as_str());
    let mut second = String::from_str(" (");
    second.append(letter);
    second.append(")  ");
    let usage = if usage_percent < 100 { usage_percent } else { 100 };
    let digits = decimal_string(usage as u128);
    let mut third = pad_start_string(digits.as_str(), 3);
    third.append("%");
    (first, second, third)
}

/// The message shown when no logical processor was sampled: logs do not hold
/// per-core usage.
pub open spec fn no_cores_message(log_view: bool) -> Seq<char> {
    if log_view {
        "Per-core usage is not recorded in logs."@
    } else {
        "Per-core usage is unavailable."@
    }
}

/// The rows of the dialog for processors given by usage and kind: the muted
/// message when there is none, otherwise one row per processor (see
/// `cpu_core_line`), numbers right-aligned to the digits of the last one.
pub open spec fn cpu_core_dialog_lines_spec(cores: Seq<(u8, Option<CpuCoreKind>)>, log_view: bool) -> Seq<Seq<(Tone, Seq<char>)>> {
    if cores.len() == 0 {
        seq![single(Tone::Muted, no_cores_message(log_view))]
    } else {
        let index_width = max_int(decimal((cores.len() - 1) as nat).len() as int, 1);
        Seq::new(
            cores.len(),
            |i: int|
                seq![
                    (Tone::Text, "CPU "@ + pad_start(decimal(i as nat), index_width)),
                    (Tone::Muted, " ("@ + kind_letter(cores[i].1) + ")  "@),
                    (Tone::Text, pad_start(decimal(min_int(cores[i].0 as int, 100) as nat), 3) + "%"@),
                ],
        )
    }
}

/// The rows of the dialog; see `cpu_core_dialog_lines_spec`.
pub fn cpu_core_dialog_lines(cores: &Vec<(u8, Option<CpuCoreKind>)>, log_view: bool) -> (r: Vec<Vec<Piece>>)
    ensures
        lines_view(r@) == cpu_core_dialog_lines_spec(cores@, log_view),
{
    let mut lines: Vec<Vec<Piece>> = Vec::new();
    let n = cores.len();
    if n == 0 {
        let message = if log_view {
            "Per-core usage is not recorded in logs."
        } else {
            "Per-core usage is unavailable."
        };
        let row = vec![piece(Tone::Muted, message)];
        proof {
            assert(line_view(row@) =~= single(Tone::Muted, no_cores_message(log_view)));
        }
        push_line(&mut lines, row);
        assert(lines_view(lines@) =~= cpu_core_dialog_lines_spec(cores@, log_view));
        return lines;
    }
    let digits = decimal_string((n - 1) as u128);
    let count = digits.as_str().unicode_len();
    let index_width: usize = if count >= 1 { count } else { 1 };
    let ghost want = cpu_core_dialog_lines_spec(cores@, log_view);
    let mut i: usize = 0;
    while i < n
        invariant
            i <= n == cores@.len(),
            n > 0,
            index_width == max_int(decimal((n - 1) as nat).len() as int, 1),
            want == cpu_core_dialog_lines_spec(cores@, log_view),
            lines_view(lines@) == want.take(i as int),
        decreases n - i,
    {
        let (usage, kind) = cores[i];
        let (first, second, third) = cpu_core_line(i, index_width, usage, kind);
        let row = vec![
            Piece { tone: Tone::Text, text: first },
            Piece { tone: Tone::Muted, text: second },
            Piece { tone: Tone::Text, text: third },
        ];
        proof {
            assert(line_view(row@) =~= want[i as int]);
        }
        push_line(&mut lines, row);
        assert(lines_view(lines@) =~= want.take(i + 1));
        i = i + 1;
    }
    assert(want.take(n as int) =~= want);
    lines
}

} // verus!

//! How a value that feeds a graph is marked.

use vstd::prelude::*;

use crate::ui::text::{chars_of, is_whitespace, is_whitespace_char, push_range, string_from_chars};
use crate::ui::theme::{Color, Theme};

verus! {

/// The look of a piece of text: its colours where set, and whether it is set
/// bold and underlined.
#[derive(Clone, Copy, Debug, PartialEq, Eq, Structural)]
pub struct TextStyle {
    pub fg: Option<Color>,
    pub bg: Option<Color>,
    pub bold: bool,
    pub underlined: bool,
}

impl TextStyle {
    /// No colour and no emphasis.
    pub fn plain() -> (r: TextStyle)
        ensures
            r == (TextStyle { fg: None, bg: None, bold: false, underlined: false }),
    {
        TextStyle { fg: None, bg: None, bold: false, underlined: false }
    }

    /// In the colour `fg`, otherwise plain.
    pub fn fg(fg: Color) -> (r: TextStyle)
        ensures
            r == (TextStyle { fg: Some(fg), bg: None, bold: false, underlined: false }),
    {
        TextStyle { fg: Some(fg), bg: None, bold: false, underlined: false }
    }
}

/// A piece of text and its look.
#[derive(Clone, Debug)]
pub struct StyledText {
    pub text: String,
    pub style: TextStyle,
}

/// A piece of text and its look, as values.
pub open spec fn styled_view(s: StyledText) -> (Seq<char>, TextStyle) {
    (s.text@, s.style)
}

/// Pieces of text and their looks, as values.
pub open spec fn styled_seq(v: Seq<StyledText>) -> Seq<(Seq<char>, TextStyle)> {
    Seq::new(v.len(), |i: int| styled_view(v[i]))
}

/// Whether a value feeds a graph, and whether that graph is the active one.
#[derive(Clone, Copy, Debug, PartialEq, Eq, Structural)]
pub struct GraphSourceState {
    pub ordinal: usize,
    pub active: bool,
}

/// The look of a value: its base look when it feeds no graph; otherwise in
/// the active-series colour, underlined, and bold only when its graph is the
/// active one.
pub open spec fn graph_value_style_spec(base: TextStyle, state: Option<GraphSourceState>, theme: Theme) -> TextStyle {
    match state {
        None => base,
        Some(s) => TextStyle { fg: Some(theme.active_series), bg: base.bg, bold: s.active, underlined: true },
    }
}

/// The look of a value; see `graph_value_style_spec`.
pub fn graph_value_style(base: TextStyle, state: Option<GraphSourceState>, theme: &Theme) -> (r: TextStyle)
    ensures
        r == graph_value_style_spec(base, state, *theme),
{
    match state {
        None => base,
        Some(s) => TextStyle { fg: Some(theme.active_series), bg: base.bg, bold: s.active, underlined: true },
    }
}

/// Characters of whitespace at the start of `s`.
pub open spec fn leading_blank(s: Seq<char>) -> nat
    decreases s.len(),
{
    if s.len() == 0 {
        0
    } else if is_whitespace_char(s[0]) {
        1 + leading_blank(s.drop_first())
    } else {
        0
    }
}

/// Characters of whitespace at the end of `s`.
pub open spec fn trailing_blank(s: Seq<char>) -> nat
    decreases s.len(),
{
    if s.len() == 0 {
        0
    } else if is_whitespace_char(s.last()) {
        1 + trailing_blank(s.drop_last())
    } else {
        0
    }
}

/// The whitespace at the start of `s` runs up to the first other character.
pub proof fn lemma_leading_blank(s: Seq<char>, a: int)
    requires
        0 <= a <= s.len(),
        forall|i: int| 0 <= i < a ==> is_whitespace_char(#[trigger] s[i]),
        a == s.len() || !is_whitespace_char(s[a]),
    ensures
        leading_blank(s) == a,
    decreases a,
{
    if a > 0 {
        let t = s.drop_first();
        assert forall|i: int| 0 <= i < a - 1 implies is_whitespace_char(#[trigger] t[i]) by {
            assert(t[i] == s[i + 1]);
        }
        if a < s.len() {
            assert(t[a - 1] == s[a]);
        }
        lemma_leading_blank(t, a - 1);
    }
}

/// The whitespace at the end of `s` runs back to the last other character.
pub proof fn lemma_trailing_blank(s: Seq<char>, b: int)
    requires
        0 <= b <= s.len(),
        forall|i: int| b <= i < s.len() ==> is_whitespace_char(#[trigger] s[i]),
        b == 0 || !is_whitespace_char(s[b - 1]),
    ensures
        trailing_blank(s) == s.len() - b,
    decreases s.len() - b,
{
    if b < s.len() {
        let t = s.drop_last();
        assert forall|i: int| b <= i < t.len() implies is_whitespace_char(#[trigger] t[i]) by {
            assert(t[i] == s[i]);
        }
        if b > 0 {
            assert(t[b - 1] == s[b - 1]);
        }
        lemma_trailing_blank(t, b);
    }
}

/// A value split for display: its surrounding whitespace in the base look and
/// the rest in the value's look (see `graph_value_style_spec`); a value of
/// whitespace only stays whole in the base look.
pub open spec fn graph_value_spans_spec(
    value: Seq<char>,
    base: TextStyle,
    state: Option<GraphSourceState>,
    theme: Theme,
) -> Seq<(Seq<char>, TextStyle)> {
    let a = leading_blank(value) as int;
    if a == value.len() {
        seq![(value, base)]
    } else {
        let b = value.len() - trailing_blank(value);
        (if a > 0 { seq![(value.take(a), base)] } else { Seq::empty() }) + seq![
            (value.subrange(a, b), graph_value_style_spec(base, state, theme)),
        ] + (if b < value.len() { seq![(value.skip(b), base)] } else { Seq::empty() })
    }
}

/// A value split for display; see `graph_value_spans_spec`.
pub fn graph_value_spans(value: &str, base: TextStyle, state: Option<GraphSourceState>, theme: &Theme) -> (r: Vec<StyledText>)
    ensures
        styled_seq(r@) == graph_value_spans_spec(value@, base, state, *theme),
{
    let chars = chars_of(value);
    let n = chars.len();
    let mut a: usize = 0;
    while a < n && is_whitespace(chars[a])
        invariant
            a <= n == value@.len(),
            chars@ == value@,
            forall|i: int| 0 <= i < a ==> is_whitespace_char(#[trigger] value@[i]),
        decreases n - a,
    {
        a = a + 1;
    }
    proof {
        lemma_leading_blank(value@, a as int);
    }
    let mut out: Vec<StyledText> = Vec::new();
    if a == n {
        out.push(StyledText { text: String::from_str(value), style: base });
        assert(styled_seq(out@) =~= graph_value_spans_spec(value@, base, state, *theme));
        return out;
    }
    let mut b: usize = n;
    while b > a + 1 && is_whitespace(chars[b - 1])
        invariant
            a < b <= n == value@.len(),
            chars@ == value@,
            !is_whitespace_char(value@[a as int]),
            forall|i: int| b <= i < n ==> is_whitespace_char(#[trigger] value@[i]),
        decreases b,
    {
        b = b - 1;
    }
    proof {
        lemma_trailing_blank(value@, b as int);
    }
    if a > 0 {
        let mut head: Vec<char> = Vec::new();
        push_range(&mut head, &chars, 0, a);
        out.push(StyledText { text: string_from_chars(&head), style: base });
    }
    let mut token: Vec<char> = Vec::new();
    push_range(&mut token, &chars, a, b);
    out.push(StyledText { text: string_from_chars(&token), style: graph_value_style(base, state, theme) });
    if b < n {
        let mut tail: Vec<char> = Vec::new();
        push_range(&mut tail, &chars, b, n);
        out.push(StyledText { text: string_from_chars(&tail), style: base });
    }
    assert(styled_seq(out@) =~= graph_value_spans_spec(value@, base, state, *theme));
    out
}

} // verus!

//! Lines of text whose pieces carry a role in the theme.

use vstd::prelude::*;

verus! {

/// The role a piece of text takes in the theme: no style of its own, body
/// text, muted, accented, an error, a warning, a bold heading, an underlined
/// column heading, the accented and plain text of a list row, unselected or
/// selected, a chosen option, a chosen option that has the focus, and a bold
/// underlined heading in body text.
#[derive(Clone, Copy, Debug, PartialEq, Eq, Structural)]
pub enum Tone {
    Plain,
    Text,
    Muted,
    Accent,
    Danger,
    Warning,
    Title,
    ColumnHeading,
    RowAccent,
    RowText,
    SelectedAccent,
    SelectedText,
    Chosen,
    Focused,
    TextHeading,
}

/// A piece of a line: its text and its role.
#[derive(Clone, Debug)]
pub struct Piece {
    pub tone: Tone,
    pub text: String,
}

/// A line as its pieces' roles and texts.
pub open spec fn line_view(line: Seq<Piece>) -> Seq<(Tone, Seq<char>)> {
    Seq::new(line.len(), |i: int| (line[i].tone, line[i].text@))
}

/// Lines as their pieces' roles and texts.
pub open spec fn lines_view(lines: Seq<Vec<Piece>>) -> Seq<Seq<(Tone, Seq<char>)>> {
    Seq::new(lines.len(), |i: int| line_view(lines[i]@))
}

/// A line of one piece.
pub open spec fn single(tone: Tone, text: Seq<char>) -> Seq<(Tone, Seq<char>)> {
    seq![(tone, text)]
}

/// A piece of the given role holding `text`.
pub fn piece(tone: Tone, text: &str) -> (r: Piece)
    ensures
        r.tone == tone,
        r.text@ == text@,
{
    Piece { tone, text: String::from_str(text) }
}

/// A line of one piece holding `text`.
pub fn single_line(tone: Tone, text: String) -> (r: Vec<Piece>)
    ensures
        line_view(r@) == single(tone, text@),
{
    let r = vec![Piece { tone, text }];
    assert(line_view(r@) =~= single(tone, text@));
    r
}

/// Appends a line to `lines`.
pub fn push_line(lines: &mut Vec<Vec<Piece>>, line: Vec<Piece>)
    ensures
        lines_view(final(lines)@) == lines_view(old(lines)@).push(line_view(line@)),
{
    lines.push(line);
    assert(lines_view(lines@) =~= lines_view(old(lines)@).push(line_view(line@)));
}

} // verus!

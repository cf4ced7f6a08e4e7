//! Characters, display widths and the text-building steps shared by the
//! dialogs: padding, repeating, and the terminal width of text.

use vstd::prelude::*;

use crate::ui::rect::add_upto;

verus! {

// Terminal cells that a run of text takes when shown as one span, as the
// terminal toolkit measures it.
pub uninterp spec fn span_width(text: Seq<char>) -> nat;

// Terminal cells that a run of text takes when shown as one line, as the
// terminal toolkit measures it.
pub uninterp spec fn line_width(text: Seq<char>) -> nat;

/// Cells of a single character, counted as a span.
pub open spec fn char_cells(c: char) -> int {
    span_width(seq![c]) as int
}

/// Cells of a single character, counted as a span and at least one.
pub open spec fn char_cells_min1(c: char) -> int {
    if char_cells(c) >= 1 { char_cells(c) } else { 1 }
}

/// Cells of a single character, counted as a line.
pub open spec fn char_line_cells(c: char) -> int {
    line_width(seq![c]) as int
}

/// Width of a text shown as one span.
///
/// Calls `ratatui::text::Span::width`; the contract names its result
/// `span_width` and says nothing more of it.
#[verifier::external_body]
pub(crate) fn str_width(text: &str) -> (w: usize)
    ensures
        w as nat == span_width(text@),
{
    ratatui::text::Span::raw(text).width()
}

/// Width of one character shown as a span.
pub(crate) fn char_width(c: char) -> (w: usize)
    ensures
        w as nat == span_width(seq![c]),
{
    let chars = vec![c];
    assert(chars@ =~= seq![c]);
    let text = string_from_chars(&chars);
    str_width(text.as_str())
}

/// Width of a text shown as one line.
///
/// Calls `ratatui::text::Line::width` on `Line::from(text)`; the contract names
/// its result `line_width` and says nothing more of it.
#[verifier::external_body]
pub(crate) fn str_line_width(text: &str) -> (w: usize)
    ensures
        w as nat == line_width(text@),
{
    ratatui::text::Line::from(text).width()
}

/// Width of one character shown as a line.
pub(crate) fn char_line_width(c: char) -> (w: usize)
    ensures
        w as nat == line_width(seq![c]),
{
    let chars = vec![c];
    assert(chars@ =~= seq![c]);
    let text = string_from_chars(&chars);
    str_line_width(text.as_str())
}

/// A string holding the given characters.
///
/// Calls `String::from_iter` over the characters.
#[verifier::external_body]
pub(crate) fn string_from_chars(chars: &Vec<char>) -> (s: String)
    ensures
        s@ == chars@,
{
    String::from_iter(chars.iter())
}

/// The characters of a string slice, in order.
pub fn chars_of(s: &str) -> (out: Vec<char>)
    ensures
        out@ == s@,
{
    let mut out: Vec<char> = Vec::new();
    for c in it: s.chars()
        invariant
            out@ == it.seq().take(it.index() as int),
            it.seq() == s@,
    {
        out.push(c);
    }
    out
}

/// `n` copies of a character.
pub open spec fn repeated(c: char, n: int) -> Seq<char> {
    Seq::new(n as nat, |_i: int| c)
}

/// `n` spaces.
pub open spec fn spaces(n: int) -> Seq<char> {
    repeated(' ', n)
}

/// `n` copies of a character.
pub fn repeat_char(c: char, n: usize) -> (out: Vec<char>)
    ensures
        out@ == repeated(c, n as int),
{
    let mut out: Vec<char> = Vec::new();
    let mut i: usize = 0;
    while i < n
        invariant
            i <= n,
            out@ == repeated(c, i as int),
        decreases n - i,
    {
        out.push(c);
        i = i + 1;
        assert(out@ =~= repeated(c, i as int));
    }
    out
}

/// `n` copies of a character, as a string.
pub fn repeat_string(c: char, n: usize) -> (out: String)
    ensures
        out@ == repeated(c, n as int),
{
    let v = repeat_char(c, n);
    string_from_chars(&v)
}

/// `text` followed by spaces up to `width` characters, as `{:<width$}` pads.
pub open spec fn pad_end(text: Seq<char>, width: int) -> Seq<char> {
    text + spaces(if width > text.len() { width - text.len() } else { 0 })
}

/// `text` after spaces up to `width` characters, as `{:>width$}` pads.
pub open spec fn pad_start(text: Seq<char>, width: int) -> Seq<char> {
    spaces(if width > text.len() { width - text.len() } else { 0 }) + text
}

/// `text` followed by spaces up to `width` characters.
pub fn pad_end_string(text: &str, width: usize) -> (out: String)
    ensures
        out@ == pad_end(text@, width as int),
{
    let n = text.unicode_len();
    let pad = if width > n { width - n } else { 0 };
    let mut out = String::from_str(text);
    let tail = repeat_string(' ', pad);
    out.append(tail.as_str());
    out
}

/// `text` after spaces up to `width` characters.
pub fn pad_start_string(text: &str, width: usize) -> (out: String)
    ensures
        out@ == pad_start(text@, width as int),
{
    let n = text.unicode_len();
    let pad = if width > n { width - n } else { 0 };
    let mut out = repeat_string(' ', pad);
    out.append(text);
    out
}

/// `a` followed by `b`.
pub fn concat2(a: &str, b: &str) -> (out: String)
    ensures
        out@ == a@ + b@,
{
    let mut out = String::from_str(a);
    out.append(b);
    out
}

/// `a`, `b` and `c` in turn.
pub fn concat3(a: &str, b: &str, c: &str) -> (out: String)
    ensures
        out@ == a@ + b@ + c@,
{
    let mut out = String::from_str(a);
    out.append(b);
    out.append(c);
    out
}


/// Bytes of a character in UTF-8.
pub open spec fn utf8_len(c: char) -> int {
    let v = c as u32;
    if v < 0x80 {
        1
    } else if v < 0x800 {
        2
    } else if v < 0x10000 {
        3
    } else {
        4
    }
}

/// Bytes of a text in UTF-8.
pub open spec fn byte_len(s: Seq<char>) -> int
    decreases s.len(),
{
    if s.len() == 0 {
        0
    } else {
        byte_len(s.drop_last()) + utf8_len(s.last())
    }
}

/// Whether byte offset `b` falls between two characters of `s`.
pub open spec fn is_char_boundary_at(s: Seq<char>, b: int) -> bool {
    exists|k: int| 0 <= k <= s.len() && #[trigger] byte_len(s.take(k)) == b
}

/// Bytes of a character in UTF-8.
pub fn utf8_len_of(c: char) -> (n: usize)
    ensures
        n == utf8_len(c),
{
    let v = c as u32;
    if v < 0x80 {
        1
    } else if v < 0x800 {
        2
    } else if v < 0x10000 {
        3
    } else {
        4
    }
}

/// One character more adds its own bytes.
pub proof fn lemma_byte_len_step(s: Seq<char>, k: int)
    requires
        0 <= k < s.len(),
    ensures
        byte_len(s.take(k + 1)) == byte_len(s.take(k)) + utf8_len(s[k]),
{
    assert(s.take(k + 1).drop_last() =~= s.take(k));
}

/// Longer prefixes hold more bytes.
pub proof fn lemma_byte_len_increasing(s: Seq<char>, j: int, k: int)
    requires
        0 <= j < k <= s.len(),
    ensures
        byte_len(s.take(j)) < byte_len(s.take(k)),
    decreases k - j,
{
    lemma_byte_len_step(s, k - 1);
    if j < k - 1 {
        lemma_byte_len_increasing(s, j, k - 1);
    }
}

/// Characters of `value` before byte offset `cursor`, the offset held at the end
/// of the text: the count `k` whose prefix has exactly that many bytes.
pub fn char_count_before(value: &str, cursor: usize) -> (k: usize)
    requires
        byte_len(value@) <= usize::MAX,
        cursor >= byte_len(value@) || is_char_boundary_at(value@, cursor as int),
    ensures
        k <= value@.len(),
        byte_len(value@.take(k as int)) == if cursor as int >= byte_len(value@) {
            byte_len(value@)
        } else {
            cursor as int
        },
{
    let chars = chars_of(value);
    let n = chars.len();
    let mut i: usize = 0;
    let mut acc: usize = 0;
    proof {
        assert(value@.take(0) =~= Seq::<char>::empty());
    }
    while i < n
        invariant
            chars@ == value@,
            n == value@.len(),
            i <= n,
            acc == byte_len(value@.take(i as int)),
            acc <= cursor,
            byte_len(value@) <= usize::MAX,
        ensures
            i <= n,
            acc == byte_len(value@.take(i as int)),
            acc <= cursor,
            i < n ==> acc + utf8_len(value@[i as int]) > cursor,
        decreases n - i,
    {
        let step = utf8_len_of(chars[i]);
        proof {
            lemma_byte_len_step(value@, i as int);
            if i + 1 < n {
                lemma_byte_len_increasing(value@, i + 1, n as int);
            }
            assert(value@.take(n as int) =~= value@);
        }
        if acc + step > cursor {
            break;
        }
        acc = acc + step;
        i = i + 1;
    }
    proof {
        assert(value@.take(n as int) =~= value@);
        if i < n {
            if cursor < byte_len(value@) {
                let k = choose|k: int| 0 <= k <= value@.len() && #[trigger] byte_len(value@.take(k)) == cursor;
                lemma_byte_len_step(value@, i as int);
                if k > i as int + 1 {
                    lemma_byte_len_increasing(value@, i as int + 1, k);
                }
                if k < i as int {
                    lemma_byte_len_increasing(value@, k, i as int);
                }
                if k == i as int + 1 {
                }
                assert(k == i as int);
            } else {
                lemma_byte_len_step(value@, i as int);
                if i + 1 < n {
                    lemma_byte_len_increasing(value@, i + 1, n as int);
                }
            }
        }
    }
    i
}


/// Appends `src[from..to]` to `out`.
pub fn push_range(out: &mut Vec<char>, src: &Vec<char>, from: usize, to: usize)
    requires
        from <= to <= src@.len(),
    ensures
        final(out)@ == old(out)@ + src@.subrange(from as int, to as int),
{
    let ghost start = out@;
    let mut i: usize = from;
    while i < to
        invariant
            from <= i <= to <= src@.len(),
            out@ == start + src@.subrange(from as int, i as int),
        decreases to - i,
    {
        out.push(src[i]);
        i = i + 1;
        assert(out@ =~= start + src@.subrange(from as int, i as int));
    }
}

/// Appends `n` copies of `c` to `out`.
pub fn push_repeated(out: &mut Vec<char>, c: char, n: usize)
    ensures
        final(out)@ == old(out)@ + repeated(c, n as int),
{
    let ghost start = out@;
    let mut i: usize = 0;
    while i < n
        invariant
            i <= n,
            out@ == start + repeated(c, i as int),
        decreases n - i,
    {
        out.push(c);
        i = i + 1;
        assert(out@ =~= start + repeated(c, i as int));
    }
}


/// The same byte offset always names the same character index.
pub proof fn lemma_char_index_unique(s: Seq<char>, j: int, k: int)
    requires
        0 <= j <= s.len(),
        0 <= k <= s.len(),
        byte_len(s.take(j)) == byte_len(s.take(k)),
    ensures
        j == k,
{
    if j < k {
        lemma_byte_len_increasing(s, j, k);
    } else if k < j {
        lemma_byte_len_increasing(s, k, j);
    }
}

// The text in lower case as `str::to_lowercase` gives it: by the Unicode
// case mappings, where a character may become several and a capital sigma
// depends on its neighbours, so the result is not stated character by
// character.
pub uninterp spec fn lowercase(text: Seq<char>) -> Seq<char>;

/// The text in lower case.
///
/// Calls `str::to_lowercase`; the contract names its result `lowercase`.
#[verifier::external_body]
pub(crate) fn to_lowercase(text: &str) -> (r: String)
    ensures
        r@ == lowercase(text@),
{
    text.to_lowercase()
}

/// Whether `c` has the Unicode `White_Space` property.
pub open spec fn is_whitespace_char(c: char) -> bool {
    let v = c as u32;
    (0x9 <= v <= 0xd) || v == 0x20 || v == 0x85 || v == 0xa0 || v == 0x1680 || (0x2000 <= v
        <= 0x200a) || v == 0x2028 || v == 0x2029 || v == 0x202f || v == 0x205f || v == 0x3000
}

/// Whether `c` has the Unicode `White_Space` property.
pub fn is_whitespace(c: char) -> (r: bool)
    ensures
        r == is_whitespace_char(c),
{
    let v = c as u32;
    (0x9 <= v && v <= 0xd) || v == 0x20 || v == 0x85 || v == 0xa0 || v == 0x1680 || (0x2000 <= v
        && v <= 0x200a) || v == 0x2028 || v == 0x2029 || v == 0x202f || v == 0x205f || v == 0x3000
}

/// The words of a text read so far: the finished words, and the word under way.
pub open spec fn words_state(s: Seq<char>) -> (Seq<Seq<char>>, Seq<char>)
    decreases s.len(),
{
    if s.len() == 0 {
        (Seq::empty(), Seq::empty())
    } else {
        let (done, cur) = words_state(s.drop_last());
        let c = s.last();
        if is_whitespace_char(c) {
            if cur.len() > 0 {
                (done.push(cur), Seq::empty())
            } else {
                (done, cur)
            }
        } else {
            (done, cur.push(c))
        }
    }
}

/// The words of a text: its maximal runs of non-whitespace characters, in order.
pub open spec fn words(s: Seq<char>) -> Seq<Seq<char>> {
    let (done, cur) = words_state(s);
    if cur.len() > 0 {
        done.push(cur)
    } else {
        done
    }
}

/// The words of a text, each in lower case.
pub open spec fn lowercase_words(s: Seq<char>) -> Seq<Seq<char>> {
    words(s).map_values(|w: Seq<char>| lowercase(w))
}

/// The words of a text, each in lower case, as a filter reads them.
pub fn filter_terms(filter: &str) -> (terms: Vec<String>)
    ensures
        terms@.len() == lowercase_words(filter@).len(),
        forall|i: int| 0 <= i < terms@.len() ==> #[trigger] terms@[i]@ == lowercase_words(filter@)[i],
{
    let chars = chars_of(filter);
    let n = chars.len();
    let mut done: Vec<Vec<char>> = Vec::new();
    let mut cur: Vec<char> = Vec::new();
    let mut i: usize = 0;
    while i < n
        invariant
            i <= n == filter@.len(),
            chars@ == filter@,
            done@.len() == words_state(filter@.take(i as int)).0.len(),
            forall|j: int| 0 <= j < done@.len() ==> #[trigger] done@[j]@ == words_state(filter@.take(i as int)).0[j],
            cur@ == words_state(filter@.take(i as int)).1,
        decreases n - i,
    {
        let c = chars[i];
        proof {
            assert(filter@.take(i + 1).drop_last() =~= filter@.take(i as int));
        }
        if is_whitespace(c) {
            if cur.len() > 0 {
                let w = cur;
                done.push(w);
                cur = Vec::new();
            }
        } else {
            cur.push(c);
        }
        i = i + 1;
    }
    proof {
        assert(filter@.take(n as int) =~= filter@);
    }
    if cur.len() > 0 {
        done.push(cur);
    }
    let mut terms: Vec<String> = Vec::new();
    let mut j: usize = 0;
    while j < done.len()
        invariant
            j <= done@.len() == words(filter@).len(),
            forall|k: int| 0 <= k < done@.len() ==> #[trigger] done@[k]@ == words(filter@)[k],
            terms@.len() == j,
            forall|k: int| 0 <= k < j ==> #[trigger] terms@[k]@ == lowercase_words(filter@)[k],
        decreases done@.len() - j,
    {
        let word = string_from_chars(&done[j]);
        let lower = to_lowercase(word.as_str());
        terms.push(lower);
        j = j + 1;
    }
    terms
}

/// Whether `needle` occurs in `hay` at position `i`.
pub open spec fn occurs_at(hay: Seq<char>, needle: Seq<char>, i: int) -> bool {
    0 <= i && i + needle.len() <= hay.len() && hay.subrange(i, i + needle.len()) == needle
}

/// Whether `needle` occurs somewhere in `hay`.
pub open spec fn contains_seq(hay: Seq<char>, needle: Seq<char>) -> bool {
    exists|i: int| #[trigger] occurs_at(hay, needle, i)
}

/// Whether `needle` occurs in `hay` at position `i`.
fn matches_at(hay: &Vec<char>, needle: &Vec<char>, i: usize) -> (r: bool)
    requires
        i + needle@.len() <= hay@.len(),
    ensures
        r == occurs_at(hay@, needle@, i as int),
{
    let m = needle.len();
    let n = hay.len();
    let mut j: usize = 0;
    while j < m
        invariant
            j <= m == needle@.len(),
            n == hay@.len(),
            i + m <= hay@.len(),
            forall|t: int| 0 <= t < j ==> hay@[i + t] == needle@[t],
        decreases m - j,
    {
        if hay[i + j] != needle[j] {
            assert(hay@.subrange(i as int, i + m)[j as int] != needle@[j as int]);
            return false;
        }
        j = j + 1;
    }
    assert(hay@.subrange(i as int, i + m) =~= needle@);
    true
}

/// Whether `needle` occurs somewhere in `hay`.
pub fn contains_chars(hay: &Vec<char>, needle: &Vec<char>) -> (r: bool)
    ensures
        r == contains_seq(hay@, needle@),
{
    let n = hay.len();
    let m = needle.len();
    if m > n {
        assert forall|i: int| !occurs_at(hay@, needle@, i) by {}
        return false;
    }
    let last = n - m;
    let mut i: usize = 0;
    loop
        invariant
            m <= n == hay@.len(),
            m == needle@.len(),
            last == n - m,
            i <= last,
            forall|t: int| 0 <= t < i ==> !occurs_at(hay@, needle@, t),
        decreases last - i,
    {
        if matches_at(hay, needle, i) {
            return true;
        }
        if i == last {
            assert forall|t: int| !occurs_at(hay@, needle@, t) by {
                if 0 <= t && t + m <= n {
                    assert(t <= i);
                }
            }
            return false;
        }
        i = i + 1;
    }
}

/// Whether `needle` occurs somewhere in `hay`.
pub fn str_contains(hay: &str, needle: &str) -> (r: bool)
    ensures
        r == contains_seq(hay@, needle@),
{
    let h = chars_of(hay);
    let n = chars_of(needle);
    contains_chars(&h, &n)
}


/// How the cells of a character are counted.
#[derive(Clone, Copy, Debug, PartialEq, Eq, Structural)]
pub enum CellMeasure {
    /// As a span.
    Span,
    /// As a span, and at least one cell.
    SpanAtLeastOne,
    /// As a line.
    Line,
}

/// Cells of a character under a measure.
pub open spec fn cells(measure: CellMeasure, c: char) -> int {
    match measure {
        CellMeasure::Span => char_cells(c),
        CellMeasure::SpanAtLeastOne => char_cells_min1(c),
        CellMeasure::Line => char_line_cells(c),
    }
}

/// Cells of a character under a measure.
pub fn cells_of(measure: CellMeasure, c: char) -> (w: usize)
    ensures
        w == cells(measure, c),
{
    match measure {
        CellMeasure::Span => char_width(c),
        CellMeasure::SpanAtLeastOne => {
            let w = char_width(c);
            if w >= 1 {
                w
            } else {
                1
            }
        },
        CellMeasure::Line => char_line_width(c),
    }
}

/// How many leading characters of `s` fit in `budget` cells when `used` cells
/// are taken already: characters are taken while the running total, held at
/// the largest `usize`, stays within the budget.
pub open spec fn fit_count(s: Seq<char>, used: int, budget: int, measure: CellMeasure) -> int
    decreases s.len(),
{
    if s.len() == 0 {
        0
    } else {
        let next = add_upto(used, cells(measure, s[0]), usize::MAX as int);
        if next > budget {
            0
        } else {
            1 + fit_count(s.drop_first(), next, budget, measure)
        }
    }
}

/// At most all characters fit.
pub proof fn lemma_fit_count_bounds(s: Seq<char>, used: int, budget: int, measure: CellMeasure)
    ensures
        0 <= fit_count(s, used, budget, measure) <= s.len(),
    decreases s.len(),
{
    if s.len() > 0 {
        let next = add_upto(used, cells(measure, s[0]), usize::MAX as int);
        lemma_fit_count_bounds(s.drop_first(), next, budget, measure);
    }
}

/// How many leading cells of widths `ws` fit in `budget` cells when `used`
/// cells are taken already: widths are taken while the running total, held at
/// the largest `usize`, stays within the budget.
pub open spec fn fit_count_widths(ws: Seq<int>, used: int, budget: int) -> int
    decreases ws.len(),
{
    if ws.len() == 0 {
        0
    } else {
        let next = add_upto(used, ws[0], usize::MAX as int);
        if next > budget {
            0
        } else {
            1 + fit_count_widths(ws.drop_first(), next, budget)
        }
    }
}

/// The cells of each character of `s` under a measure.
pub open spec fn char_widths(s: Seq<char>, measure: CellMeasure) -> Seq<int> {
    Seq::new(s.len(), |i: int| cells(measure, s[i]))
}

/// Widths as integers.
pub open spec fn as_widths(v: Seq<usize>) -> Seq<int> {
    Seq::new(v.len(), |i: int| v[i] as int)
}

/// Counting the characters that fit is counting their measured widths that fit.
pub proof fn lemma_fit_count_widths(s: Seq<char>, used: int, budget: int, measure: CellMeasure)
    ensures
        fit_count(s, used, budget, measure) == fit_count_widths(char_widths(s, measure), used, budget),
    decreases s.len(),
{
    if s.len() > 0 {
        assert(char_widths(s, measure).drop_first() =~= char_widths(s.drop_first(), measure));
        let next = add_upto(used, cells(measure, s[0]), usize::MAX as int);
        lemma_fit_count_widths(s.drop_first(), next, budget, measure);
    }
}

/// The widths of a reversed text are its widths reversed.
pub proof fn lemma_char_widths_reverse(s: Seq<char>, measure: CellMeasure)
    ensures
        char_widths(s.reverse(), measure) == char_widths(s, measure).reverse(),
{
    assert(char_widths(s.reverse(), measure) =~= char_widths(s, measure).reverse());
}

/// At most all widths fit.
pub proof fn lemma_fit_count_widths_bounds(ws: Seq<int>, used: int, budget: int)
    ensures
        0 <= fit_count_widths(ws, used, budget) <= ws.len(),
    decreases ws.len(),
{
    if ws.len() > 0 {
        let next = add_upto(used, ws[0], usize::MAX as int);
        lemma_fit_count_widths_bounds(ws.drop_first(), next, budget);
    }
}

/// The cells of each character under a measure.
pub fn measured_widths(chars: &Vec<char>, measure: CellMeasure) -> (r: Vec<usize>)
    ensures
        as_widths(r@) == char_widths(chars@, measure),
        r@.len() == chars@.len(),
{
    let mut out: Vec<usize> = Vec::new();
    let mut i: usize = 0;
    while i < chars.len()
        invariant
            i <= chars@.len(),
            as_widths(out@) == char_widths(chars@, measure).take(i as int),
        decreases chars@.len() - i,
    {
        let w = cells_of(measure, chars[i]);
        let ghost before = out@;
        out.push(w);
        assert(as_widths(out@) =~= as_widths(before).push(w as int));
        assert(char_widths(chars@, measure).take(i + 1) =~= char_widths(chars@, measure).take(i as int).push(
            cells(measure, chars@[i as int]),
        ));
        i = i + 1;
    }
    assert(char_widths(chars@, measure).take(chars@.len() as int) =~= char_widths(chars@, measure));
    assert(out@.len() == as_widths(out@).len());
    out
}

/// How many leading widths of `widths` fit in `budget` cells; see
/// `fit_count_widths`.
pub fn fitting_count(widths: &Vec<usize>, budget: usize) -> (k: usize)
    ensures
        k == fit_count_widths(as_widths(widths@), 0, budget as int),
        k <= widths@.len(),
{
    let ghost ws = as_widths(widths@);
    let n = widths.len();
    let mut i: usize = 0;
    let mut used: usize = 0;
    proof {
        lemma_fit_count_widths_bounds(ws, 0, budget as int);
        assert(ws.skip(0) =~= ws);
    }
    while i < n
        invariant
            i <= n == widths@.len() == ws.len(),
            ws == as_widths(widths@),
            fit_count_widths(ws, 0, budget as int) == i + fit_count_widths(ws.skip(i as int), used as int, budget as int),
        decreases n - i,
    {
        let next = used.saturating_add(widths[i]);
        proof {
            assert(ws.skip(i as int)[0] == widths@[i as int]);
            assert(ws.skip(i as int).drop_first() =~= ws.skip(i + 1));
        }
        if next > budget {
            return i;
        }
        used = next;
        i = i + 1;
    }
    proof {
        assert(ws.skip(n as int).len() == 0);
    }
    i
}

/// The widths in reverse order.
pub fn reversed_widths(widths: &Vec<usize>) -> (r: Vec<usize>)
    ensures
        as_widths(r@) == as_widths(widths@).reverse(),
{
    let n = widths.len();
    let mut back: Vec<usize> = Vec::new();
    let mut i: usize = n;
    while i > 0
        invariant
            i <= n == widths@.len(),
            as_widths(back@) == as_widths(widths@).reverse().take(n - i),
        decreases i,
    {
        i = i - 1;
        let ghost before = back@;
        back.push(widths[i]);
        assert(as_widths(back@) =~= as_widths(before).push(widths@[i as int] as int));
        assert(as_widths(widths@).reverse()[n - 1 - i] == widths@[i as int] as int);
        assert(as_widths(widths@).reverse().take(n - i) =~= as_widths(widths@).reverse().take(n - i - 1).push(
            widths@[i as int] as int,
        ));
    }
    assert(as_widths(widths@).reverse().take(n as int) =~= as_widths(widths@).reverse());
    back
}

/// How many leading characters of `chars` fit in `budget` cells.
pub fn fitting_prefix(chars: &Vec<char>, budget: usize, measure: CellMeasure) -> (k: usize)
    ensures
        k == fit_count(chars@, 0, budget as int, measure),
        k <= chars@.len(),
{
    let widths = measured_widths(chars, measure);
    proof {
        lemma_fit_count_widths(chars@, 0, budget as int, measure);
    }
    fitting_count(&widths, budget)
}

/// The characters in reverse order.
pub fn reversed_chars(chars: &Vec<char>) -> (r: Vec<char>)
    ensures
        r@ == chars@.reverse(),
{
    let n = chars.len();
    let mut out: Vec<char> = Vec::new();
    let mut i: usize = n;
    while i > 0
        invariant
            i <= n == chars@.len(),
            out@ == chars@.reverse().take(n - i),
        decreases i,
    {
        i = i - 1;
        out.push(chars[i]);
        assert(out@ =~= chars@.reverse().take(n - i));
    }
    assert(out@ =~= chars@.reverse());
    out
}

/// The lines of a wrapped text read so far: the finished lines, the line under
/// way and its cells. A character moves to a new line when the current line has
/// some cells and the character would take it past `width`.
pub open spec fn wrap_state(s: Seq<char>, width: int) -> (Seq<Seq<char>>, Seq<char>, int)
    decreases s.len(),
{
    if s.len() == 0 {
        (Seq::empty(), Seq::empty(), 0)
    } else {
        let (done, line, used) = wrap_state(s.drop_last(), width);
        let c = s.last();
        let w = char_cells_min1(c);
        if used > 0 && add_upto(used, w, usize::MAX as int) > width {
            (done.push(line), seq![c], w)
        } else {
            (done, line.push(c), add_upto(used, w, usize::MAX as int))
        }
    }
}

/// A text wrapped at `width` cells (at least one), each character counted as a
/// span of at least one cell.
pub open spec fn wrapped(s: Seq<char>, width: int) -> Seq<Seq<char>> {
    let (done, line, _used) = wrap_state(s, if width >= 1 { width } else { 1 });
    done.push(line)
}

/// Wrapping loses and adds nothing: the lines read in turn give the text.
pub proof fn lemma_wrap_state_keeps_text(s: Seq<char>, width: int)
    ensures
        wrap_state(s, width).0.flatten() + wrap_state(s, width).1 == s,
        0 <= wrap_state(s, width).2,
    decreases s.len(),
{
    if s.len() > 0 {
        lemma_wrap_state_keeps_text(s.drop_last(), width);
        let (done, line, used) = wrap_state(s.drop_last(), width);
        let c = s.last();
        let w = char_cells_min1(c);
        assert(s =~= s.drop_last().push(c));
        assert(done.flatten() + line == s.drop_last());
        if used > 0 && add_upto(used, w, usize::MAX as int) > width {
            done.lemma_flatten_push(line);
            assert(done.push(line).flatten() + seq![c] =~= s);
        } else {
            assert((done.flatten() + line).push(c) =~= done.flatten() + line.push(c));
        }
    }
}

/// A wrapped text, read line by line, is the text.
pub proof fn wrap_keeps_text(s: Seq<char>, width: int)
    ensures
        wrapped(s, width).flatten() == s,
{
    let w = if width >= 1 { width } else { 1 };
    lemma_wrap_state_keeps_text(s, w);
    let (done, line, _used) = wrap_state(s, w);
    done.lemma_flatten_push(line);
}

/// A text wrapped at `width` cells, at least one.
pub fn wrap_display(value: &str, width: usize) -> (lines: Vec<String>)
    ensures
        lines@.len() == wrapped(value@, width as int).len(),
        forall|i: int| 0 <= i < lines@.len() ==> #[trigger] lines@[i]@ == wrapped(value@, width as int)[i],
{
    let width = if width >= 1 { width } else { 1 };
    let chars = chars_of(value);
    let n = chars.len();
    let mut lines: Vec<String> = Vec::new();
    let mut line: Vec<char> = Vec::new();
    let mut used: usize = 0;
    let mut i: usize = 0;
    while i < n
        invariant
            i <= n == value@.len(),
            chars@ == value@,
            lines@.len() == wrap_state(value@.take(i as int), width as int).0.len(),
            forall|j: int| 0 <= j < lines@.len() ==> #[trigger] lines@[j]@ == wrap_state(value@.take(i as int), width as int).0[j],
            line@ == wrap_state(value@.take(i as int), width as int).1,
            used == wrap_state(value@.take(i as int), width as int).2,
        decreases n - i,
    {
        let c = chars[i];
        let w = cells_of(CellMeasure::SpanAtLeastOne, c);
        proof {
            assert(value@.take(i + 1).drop_last() =~= value@.take(i as int));
        }
        if used > 0 && used.saturating_add(w) > width {
            lines.push(string_from_chars(&line));
            line = Vec::new();
            line.push(c);
            used = w;
            assert(line@ =~= seq![c]);
        } else {
            line.push(c);
            used = used.saturating_add(w);
        }
        i = i + 1;
    }
    proof {
        assert(value@.take(n as int) =~= value@);
    }
    lines.push(string_from_chars(&line));
    lines
}

} // verus!

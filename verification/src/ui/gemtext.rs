//! Reading a page of type `text/gemini` line by line: headings, links,
//! preformatted blocks and plain text.

use crate::text::{
    chars_of, char_is_whitespace, is_whitespace, matches_at, skip_whitespace, starts_with, trim,
    trim_bounds, trim_start,
};
use vstd::prelude::*;
use vstd::string::StrSliceExecFns;

verus! {

/// What one line of a page is.
#[derive(Debug, PartialEq, Eq)]
pub enum Line<'a> {
    /// A heading, with its text.
    Heading(&'a str),
    /// A link to `url`, shown as `label`.
    Link { label: &'a str, url: &'a str },
    /// The start or the end of a preformatted block.
    Toggle,
    /// A line inside a preformatted block.
    Preformatted(&'a str),
    /// A line of plain text.
    Text(&'a str),
}

/// The mathematical value of a [`Line`].
pub enum LineView {
    Heading(Seq<char>),
    Link { label: Seq<char>, url: Seq<char> },
    Toggle,
    Preformatted(Seq<char>),
    Text(Seq<char>),
}

impl<'a> View for Line<'a> {
    type V = LineView;

    open spec fn view(&self) -> LineView {
        match *self {
            Line::Heading(text) => LineView::Heading(text@),
            Line::Link { label, url } => LineView::Link { label: label@, url: url@ },
            Line::Toggle => LineView::Toggle,
            Line::Preformatted(text) => LineView::Preformatted(text@),
            Line::Text(text) => LineView::Text(text@),
        }
    }
}

/// `s` without the hash signs it begins with.
pub open spec fn strip_hashes(s: Seq<char>) -> Seq<char>
    decreases s.len(),
{
    if s.len() > 0 && s[0] == '#' {
        strip_hashes(s.drop_first())
    } else {
        s
    }
}

/// The number of characters of `s` before its first white space.
pub open spec fn word_len(s: Seq<char>) -> nat
    decreases s.len(),
{
    if s.len() == 0 || is_whitespace(s[0]) {
        0
    } else {
        1 + word_len(s.drop_first())
    }
}

/// What follows the first white space character of `s`, where it has one.
pub open spec fn after_word(s: Seq<char>) -> Option<Seq<char>> {
    if word_len(s) < s.len() {
        Some(s.skip(word_len(s) as int + 1))
    } else {
        None
    }
}

/// The link that a link line holds. The line is cut at its first two
/// white space characters: what stands between them is the location, and
/// what follows them, trimmed, is the label. A line that is not cut twice
/// has its location for a label, and one that is not cut at all has
/// neither.
pub open spec fn link_of(line: Seq<char>) -> LineView {
    match after_word(line) {
        Some(rest) => {
            let url = rest.take(word_len(rest) as int);
            match after_word(rest) {
                Some(label) => LineView::Link { label: trim(label), url },
                None => LineView::Link { label: url, url },
            }
        },
        None => LineView::Link { label: Seq::empty(), url: Seq::empty() },
    }
}

/// What `line` is, inside a preformatted block or outside of one. The
/// marks are looked for in this order: a hash sign makes a heading, `=>` a
/// link, three backticks the start or end of a block.
pub open spec fn line_of(line: Seq<char>, preformatted: bool) -> LineView {
    if starts_with(line, "#"@) {
        LineView::Heading(trim_start(strip_hashes(line)))
    } else if starts_with(line, "=>"@) {
        link_of(line)
    } else if starts_with(line, "```"@) {
        LineView::Toggle
    } else if preformatted {
        LineView::Preformatted(line)
    } else {
        LineView::Text(line)
    }
}

/// Whether the line after one that reads as `line` is inside a
/// preformatted block.
pub open spec fn preformatted_after(line: LineView, preformatted: bool) -> bool {
    if line is Toggle {
        !preformatted
    } else {
        preformatted
    }
}

/// Whether line `i` of a page stands inside a preformatted block: the
/// page starts outside of one, and every fence changes sides.
pub open spec fn preformatted_at(lines: Seq<Seq<char>>, i: int) -> bool
    decreases i,
{
    if i <= 0 {
        false
    } else {
        let before = preformatted_at(lines, i - 1);
        preformatted_after(line_of(lines[i - 1], before), before)
    }
}

/// What the lines of a page are, one after the other.
pub open spec fn page_of(lines: Seq<Seq<char>>) -> Seq<LineView> {
    Seq::new(lines.len(), |i: int| line_of(lines[i], preformatted_at(lines, i)))
}

/// The texts of the lines handed in.
pub open spec fn texts_of(lines: Seq<&str>) -> Seq<Seq<char>> {
    Seq::new(lines.len(), |i: int| lines[i]@)
}

/// The values of the lines read.
pub open spec fn views_of(page: Seq<Line<'_>>) -> Seq<LineView> {
    Seq::new(page.len(), |i: int| page[i]@)
}

/// Stripping hash signs only moves the start of the sequence.
proof fn lemma_strip_hashes_skips(s: Seq<char>, i: int)
    requires
        0 <= i <= s.len(),
        forall|k: int| 0 <= k < i ==> s[k] == '#',
        i == s.len() || s[i] != '#',
    ensures
        strip_hashes(s) == s.skip(i),
    decreases i,
{
    if i == 0 {
        assert(s.skip(0) =~= s);
    } else {
        let rest = s.drop_first();
        assert forall|k: int| 0 <= k < i - 1 implies rest[k] == '#' by {
            assert(rest[k] == s[k + 1]);
        }
        lemma_strip_hashes_skips(rest, i - 1);
        assert(rest.skip(i - 1) =~= s.skip(i));
    }
}

/// A word ends at the first white space character, or with the sequence.
proof fn lemma_word_len(s: Seq<char>, i: int)
    requires
        0 <= i <= s.len(),
        forall|k: int| 0 <= k < i ==> !is_whitespace(s[k]),
        i == s.len() || is_whitespace(s[i]),
    ensures
        word_len(s) == i,
    decreases i,
{
    if i > 0 {
        let rest = s.drop_first();
        assert forall|k: int| 0 <= k < i - 1 implies !is_whitespace(rest[k]) by {
            assert(rest[k] == s[k + 1]);
        }
        lemma_word_len(rest, i - 1);
    }
}

/// The end of the word that begins at `from`.
fn word_end(chars: &[char], from: usize) -> (i: usize)
    requires
        from <= chars@.len(),
    ensures
        from <= i <= chars@.len(),
        i - from == word_len(chars@.skip(from as int)),
{
    let mut i: usize = from;
    while i < chars.len() && !char_is_whitespace(chars[i])
        invariant
            from <= i <= chars@.len(),
            forall|k: int| from <= k < i ==> !is_whitespace(chars@[k]),
        decreases chars@.len() - i,
    {
        i += 1;
    }
    proof {
        let part = chars@.skip(from as int);
        assert forall|k: int| 0 <= k < i - from implies !is_whitespace(part[k]) by {
            assert(part[k] == chars@[k + from]);
        }
        lemma_word_len(part, i - from);
    }
    i
}

/// Reads the link of a link line.
fn read_link<'a>(line: &'a str, chars: &[char]) -> (r: Line<'a>)
    requires
        chars@ == line@,
    ensures
        r@ == link_of(line@),
{
    let end: usize = chars.len();
    let cut: usize = word_end(chars, 0);
    assert(chars@.skip(0) =~= chars@);
    if cut == end {
        let nothing: &'a str = line.substring_char(0, 0);
        assert(nothing@ =~= Seq::<char>::empty());
        return Line::Link { label: nothing, url: nothing };
    }
    let ghost rest = line@.skip(cut + 1);
    let second: usize = word_end(chars, cut + 1);
    let url: &'a str = line.substring_char(cut + 1, second);
    assert(url@ =~= rest.take(word_len(rest) as int));
    if second == end {
        return Line::Link { label: url, url };
    }
    let bounds: (usize, usize) = trim_bounds(chars, second + 1, end);
    let label: &'a str = line.substring_char(bounds.0, bounds.1);
    assert(chars@.subrange(second + 1, end as int) =~= rest.skip(word_len(rest) as int + 1));
    Line::Link { label, url }
}

/// Reads one line of a page, inside a preformatted block or outside of
/// one.
pub fn read_line<'a>(line: &'a str, preformatted: bool) -> (r: Line<'a>)
    ensures
        r@ == line_of(line@, preformatted),
{
    let chars: Vec<char> = chars_of(line);
    let end: usize = chars.len();
    let hash: Vec<char> = chars_of("#");
    let arrow: Vec<char> = chars_of("=>");
    let fence: Vec<char> = chars_of("```");
    if matches_at(chars.as_slice(), hash.as_slice(), 0) {
        let mut i: usize = 0;
        while i < end && chars[i] == '#'
            invariant
                i <= end == chars@.len(),
                forall|k: int| 0 <= k < i ==> chars@[k] == '#',
            decreases end - i,
        {
            i += 1;
        }
        proof {
            lemma_strip_hashes_skips(chars@, i as int);
        }
        let start: usize = skip_whitespace(chars.as_slice(), i);
        let text: &'a str = line.substring_char(start, end);
        assert(text@ =~= chars@.skip(start as int));
        Line::Heading(text)
    } else if matches_at(chars.as_slice(), arrow.as_slice(), 0) {
        read_link(line, chars.as_slice())
    } else if matches_at(chars.as_slice(), fence.as_slice(), 0) {
        Line::Toggle
    } else if preformatted {
        Line::Preformatted(line)
    } else {
        Line::Text(line)
    }
}

/// Whether the next line is inside a preformatted block.
pub fn next_preformatted(line: &Line<'_>, preformatted: bool) -> (r: bool)
    ensures
        r == preformatted_after(line@, preformatted),
{
    match line {
        Line::Toggle => !preformatted,
        _ => preformatted,
    }
}

/// Reads a page that is already cut into lines.
pub fn read_page<'a>(lines: &[&'a str]) -> (page: Vec<Line<'a>>)
    ensures
        views_of(page@) == page_of(texts_of(lines@)),
{
    let ghost texts = texts_of(lines@);
    let mut page: Vec<Line<'a>> = Vec::new();
    let mut preformatted: bool = false;
    let mut i: usize = 0;
    while i < lines.len()
        invariant
            i <= lines@.len(),
            texts == texts_of(lines@),
            page@.len() == i,
            preformatted == preformatted_at(texts, i as int),
            forall|k: int| 0 <= k < i ==> (#[trigger] page@[k])@ == line_of(
                texts[k],
                preformatted_at(texts, k),
            ),
        decreases lines@.len() - i,
    {
        let line: Line<'a> = read_line(lines[i], preformatted);
        preformatted = next_preformatted(&line, preformatted);
        page.push(line);
        i += 1;
    }
    assert(views_of(page@) =~= page_of(texts));
    page
}

} // verus!

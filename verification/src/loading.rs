//! From a string to a text: the string is cut into lines behind each line
//! feed, and each line into spans behind each blank.

use crate::primatives::{Char, Line, Span, Text, TextModel};
use vstd::prelude::*;

verus! {

/// The pieces read so far and the piece being read, after the characters
/// of `s`: a piece ends behind each `sep`.
pub open spec fn split_state(s: Seq<char>, sep: char) -> (Seq<Seq<char>>, Seq<char>)
    decreases s.len(),
{
    if s.len() == 0 {
        (Seq::empty(), Seq::empty())
    } else {
        let (done, cur) = split_state(s.drop_last(), sep);
        let grown = cur.push(s.last());
        if s.last() == sep {
            (done.push(grown), Seq::empty())
        } else {
            (done, grown)
        }
    }
}

/// The pieces of `s`, cut behind each `sep`. What follows the last `sep`
/// is a piece too, unless it is empty.
pub open spec fn split_inclusive(s: Seq<char>, sep: char) -> Seq<Seq<char>> {
    let (done, cur) = split_state(s, sep);
    if cur.len() > 0 {
        done.push(cur)
    } else {
        done
    }
}

/// Whether every piece is a non-empty run that holds `sep` at its end and
/// nowhere else.
pub open spec fn closed_pieces(pieces: Seq<Seq<char>>, sep: char) -> bool {
    forall|i: int|
        0 <= i < pieces.len() ==> (#[trigger] pieces[i]).len() > 0 && pieces[i].last() == sep
            && forall|j: int| 0 <= j < pieces[i].len() - 1 ==> pieces[i][j] != sep
}

/// What is read after the characters of `s`: the pieces read so far are
/// closed by `sep`, the piece being read holds no `sep`, and together
/// they are `s`.
pub proof fn lemma_split_state(s: Seq<char>, sep: char)
    ensures
        closed_pieces(split_state(s, sep).0, sep),
        forall|j: int| 0 <= j < split_state(s, sep).1.len() ==> split_state(s, sep).1[j] != sep,
        split_state(s, sep).0.flatten() + split_state(s, sep).1 == s,
    decreases s.len(),
{
    if s.len() == 0 {
        assert(Seq::<Seq<char>>::empty().flatten() + Seq::<char>::empty() =~= s);
    } else {
        lemma_split_state(s.drop_last(), sep);
        let (done, cur) = split_state(s.drop_last(), sep);
        let grown = cur.push(s.last());
        assert(done.flatten() + grown =~= (done.flatten() + cur).push(s.last()));
        assert(s =~= s.drop_last().push(s.last()));
        if s.last() == sep {
            done.lemma_flatten_push(grown);
            assert(done.push(grown).flatten() + Seq::<char>::empty() =~= done.flatten() + grown);
            assert forall|i: int| 0 <= i < done.push(grown).len() implies (#[trigger] done.push(
                grown,
            )[i]).len() > 0 && done.push(grown)[i].last() == sep && forall|j: int|
                0 <= j < done.push(grown)[i].len() - 1 ==> done.push(grown)[i][j] != sep by {
                if i < done.len() {
                    assert(done.push(grown)[i] == done[i]);
                }
            }
        }
    }
}

/// The pieces that a string is cut into are the string again when put
/// together; each is non-empty; each but the last ends with the
/// separator; and the separator stands nowhere but at the end of a piece.
pub proof fn lemma_split_inclusive(s: Seq<char>, sep: char)
    ensures
        split_inclusive(s, sep).flatten() == s,
        forall|i: int|
            0 <= i < split_inclusive(s, sep).len() ==> (#[trigger] split_inclusive(
                s,
                sep,
            )[i]).len() > 0,
        forall|i: int|
            0 <= i < split_inclusive(s, sep).len() - 1 ==> (#[trigger] split_inclusive(
                s,
                sep,
            )[i]).last() == sep,
        forall|i: int, j: int|
            0 <= i < split_inclusive(s, sep).len() && 0 <= j < split_inclusive(s, sep)[i].len() - 1
                ==> (#[trigger] split_inclusive(s, sep)[i][j]) != sep,
{
    lemma_split_state(s, sep);
    let (done, cur) = split_state(s, sep);
    let pieces = split_inclusive(s, sep);
    if cur.len() > 0 {
        done.lemma_flatten_push(cur);
        assert forall|i: int| 0 <= i < pieces.len() implies (#[trigger] pieces[i]).len() > 0 by {
            if i < done.len() {
                assert(pieces[i] == done[i]);
            }
        }
        assert forall|i: int| 0 <= i < pieces.len() - 1 implies (#[trigger] pieces[i]).last()
            == sep by {
            assert(pieces[i] == done[i]);
        }
        assert forall|i: int, j: int|
            0 <= i < pieces.len() && 0 <= j < pieces[i].len() - 1 implies (
        #[trigger] pieces[i][j]) != sep by {
            if i < done.len() {
                assert(pieces[i] == done[i]);
            }
        }
    } else {
        assert(done.flatten() + cur =~= done.flatten());
    }
}

/// The plain characters of a string.
pub open spec fn span_of(s: Seq<char>) -> Seq<Char> {
    s.map_values(|c: char| Char::spec_plain(c))
}

/// The spans of a line: its text cut behind each blank.
pub open spec fn line_of(s: Seq<char>) -> Seq<Seq<Char>> {
    split_inclusive(s, ' ').map_values(|p: Seq<char>| span_of(p))
}

/// The lines of a text: it is cut behind each line feed.
pub open spec fn lines_of(s: Seq<char>) -> Seq<Seq<Seq<Char>>> {
    split_inclusive(s, '\n').map_values(|l: Seq<char>| line_of(l))
}

/// What the pieces hold.
pub open spec fn piece_views(pieces: Seq<Vec<char>>) -> Seq<Seq<char>> {
    pieces.map_values(|p: Vec<char>| p@)
}

/// The characters of a string, in order.
pub fn chars_of(s: &str) -> (r: Vec<char>)
    ensures
        r@ == s@,
{
    let mut out: Vec<char> = Vec::new();
    for c in it: s.chars()
        invariant
            out@ == it.seq().take(it.index() as int),
            it.seq() == s@,
    {
        out.push(c);
    }
    out
}

/// Cuts `s` behind each `sep`.
pub fn split_chars(s: &Vec<char>, sep: char) -> (pieces: Vec<Vec<char>>)
    ensures
        piece_views(pieces@) == split_inclusive(s@, sep),
{
    let mut done: Vec<Vec<char>> = Vec::new();
    let mut cur: Vec<char> = Vec::new();
    let mut i: usize = 0;
    while i < s.len()
        invariant
            i <= s.len(),
            (piece_views(done@), cur@) == split_state(s@.take(i as int), sep),
        decreases s.len() - i,
    {
        let c = s[i];
        proof {
            assert(s@.take(i + 1).drop_last() == s@.take(i as int));
            assert(s@.take(i + 1).last() == c);
        }
        cur.push(c);
        if c == sep {
            let ghost before = done@;
            done.push(cur);
            assert(piece_views(done@) =~= piece_views(before).push(done@.last()@));
            cur = Vec::new();
        }
        i += 1;
    }
    assert(s@.take(s.len() as int) == s@);
    if cur.len() > 0 {
        let ghost before = done@;
        done.push(cur);
        assert(piece_views(done@) =~= piece_views(before).push(done@.last()@));
    }
    done
}

impl Span {
    /// A span of the plain characters of `content`.
    pub fn raw(content: &str) -> (r: Span)
        ensures
            r@ == span_of(content@),
    {
        let chars = chars_of(content);
        Span::from_chars(&chars)
    }

    /// A span of the given characters, each in the plain style.
    pub fn from_chars(chars: &Vec<char>) -> (r: Span)
        ensures
            r@ == span_of(chars@),
    {
        let mut characters: Vec<Char> = Vec::new();
        let mut i: usize = 0;
        while i < chars.len()
            invariant
                i <= chars.len(),
                characters@ == span_of(chars@.take(i as int)),
            decreases chars.len() - i,
        {
            characters.push(Char::plain(chars[i]));
            assert(characters@ =~= span_of(chars@.take(i + 1)));
            i += 1;
        }
        assert(chars@.take(chars.len() as int) == chars@);
        Span { characters }
    }
}

impl Line {
    /// A line of the spans of `input`: it is cut behind each blank.
    pub fn raw(input: &str) -> (r: Line)
        ensures
            r@ == line_of(input@),
    {
        let chars = chars_of(input);
        Line::from_chars(&chars)
    }

    /// A line of the spans of `chars`: they are cut behind each blank.
    pub fn from_chars(chars: &Vec<char>) -> (r: Line)
        ensures
            r@ == line_of(chars@),
    {
        let pieces = split_chars(chars, ' ');
        let mut spans: Vec<Span> = Vec::new();
        let mut i: usize = 0;
        while i < pieces.len()
            invariant
                i <= pieces.len(),
                spans@.len() == i,
                forall|k: int| 0 <= k < i ==> (#[trigger] spans@[k])@ == span_of(pieces@[k]@),
            decreases pieces.len() - i,
        {
            spans.push(Span::from_chars(&pieces[i]));
            i += 1;
        }
        let r = Line { spans };
        assert(r@ =~= piece_views(pieces@).map_values(|p: Seq<char>| span_of(p)));
        r
    }
}

impl Text {
    /// A text of the lines of `input`: it is cut behind each line feed,
    /// and each line behind each blank. Nothing is scrolled and nothing is
    /// on screen yet.
    pub fn raw(input: String) -> (r: Text)
        ensures
            r@ == (TextModel {
                scroll_offset: 0,
                height: 0,
                lines: lines_of(input@),
                alignment: None,
            }),
    {
        let chars = chars_of(input.as_str());
        Text::from_chars(&chars)
    }

    /// A text of the lines of `chars`.
    pub fn from_chars(chars: &Vec<char>) -> (r: Text)
        ensures
            r@ == (TextModel {
                scroll_offset: 0,
                height: 0,
                lines: lines_of(chars@),
                alignment: None,
            }),
    {
        let pieces = split_chars(chars, '\n');
        let mut lines: Vec<Line> = Vec::new();
        let mut i: usize = 0;
        while i < pieces.len()
            invariant
                i <= pieces.len(),
                lines@.len() == i,
                forall|k: int| 0 <= k < i ==> (#[trigger] lines@[k])@ == line_of(pieces@[k]@),
            decreases pieces.len() - i,
        {
            lines.push(Line::from_chars(&pieces[i]));
            i += 1;
        }
        let r = Text { scroll_offset: 0, height: 0, lines, alignment: None };
        assert(r@.lines =~= piece_views(pieces@).map_values(|l: Seq<char>| line_of(l)));
        r
    }
}

} // verus!

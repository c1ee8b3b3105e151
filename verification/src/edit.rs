//! Edits of a text: moving the cursor's look, scrolling, and putting in a
//! character.

use crate::primatives::{clamp_index, total_len, Char, Text, TextModel};
use vstd::prelude::*;

verus! {

/// A part of a text, by line, span and character index.
#[derive(Clone, Copy, Debug, PartialEq, Eq, Structural)]
pub enum Region {
    /// No character.
    Nowhere,
    /// Every character of the line at this index.
    Line(usize),
    /// Every character of the span at the second index, in the line at
    /// the first.
    Span(usize, usize),
    /// The character at the third index, in the span at the second, in
    /// the line at the first.
    Char(usize, usize, usize),
}

impl Region {
    /// Whether the character `c` of span `s` of line `l` lies in the region.
    pub open spec fn covers(self, l: int, s: int, c: int) -> bool {
        match self {
            Region::Nowhere => false,
            Region::Line(a) => l == a,
            Region::Span(a, b) => l == a && s == b,
            Region::Char(a, b, d) => l == a && s == b && c == d,
        }
    }
}

/// A change to one text of the tree.
#[derive(Clone, Copy, Debug, PartialEq, Eq)]
pub enum TextEdit {
    /// Take the cursor's look off `from` and put it on `to`.
    MoveCursor { from: Region, to: Region },
    /// Scroll so that the line is on screen.
    ScrollTo(usize),
    /// Put a plain character into a span, before the character at `at`.
    InsertChar { line: usize, span: usize, at: usize, ch: char },
}

impl TextEdit {
    /// Whether the edit leaves every line, span and character in its
    /// place.
    pub open spec fn keeps_shape(self) -> bool {
        !(self is InsertChar)
    }
}

impl TextModel {
    /// The text with the cursor's look put on, or taken off, every
    /// character of the region. Nothing else changes.
    pub open spec fn lit(self, region: Region, on: bool) -> TextModel {
        TextModel {
            lines: Seq::new(
                self.lines.len(),
                |l: int|
                    Seq::new(
                        self.lines[l].len(),
                        |s: int|
                            Seq::new(
                                self.lines[l][s].len(),
                                |c: int|
                                    if region.covers(l, s, c) {
                                        self.lines[l][s][c].spec_lit(on)
                                    } else {
                                        self.lines[l][s][c]
                                    },
                            ),
                    ),
            ),
            ..self
        }
    }

    /// The scroll offset that brings `line` on screen: the line itself
    /// where it lies above the window, the offset that makes it the last
    /// line on screen where it lies below, and the old offset otherwise,
    /// as for a line that the text does not have.
    pub open spec fn revealing(self, line: int) -> nat {
        if !(0 <= line < self.lines.len()) {
            self.scroll_offset
        } else if line < self.scroll_offset {
            line as nat
        } else if line >= self.scroll_offset + self.height {
            (line - self.height + 1) as nat
        } else {
            self.scroll_offset
        }
    }

    /// The text scrolled so that `line` is on screen.
    pub open spec fn scrolled_to(self, line: int) -> TextModel {
        TextModel { scroll_offset: self.revealing(line), ..self }
    }

    /// Whether `line` lies in the window of lines that is on screen.
    pub open spec fn on_screen(self, line: int) -> bool {
        self.scroll_offset <= line < self.scroll_offset + self.height
    }

    /// The text with the cursor's look moved from one region to another.
    pub open spec fn move_cursor(self, from: Region, to: Region) -> TextModel {
        self.lit(from, false).lit(to, true)
    }

    /// The text with a plain `ch` put into span `s` of line `l` before the
    /// character at `at`, or at the span's end where `at` lies past it. A
    /// span that the text does not have leaves the text as it is.
    pub open spec fn insert_char(self, l: int, s: int, at: int, ch: char) -> TextModel {
        if 0 <= l < self.lines.len() && 0 <= s < self.lines[l].len() {
            let span = self.lines[l][s];
            let grown = span.insert(clamp_index(at, span.len() as int), Char::spec_plain(ch));
            TextModel { lines: self.lines.update(l, self.lines[l].update(s, grown)), ..self }
        } else {
            self
        }
    }

    /// The text after an edit.
    pub open spec fn apply(self, e: TextEdit) -> TextModel {
        match e {
            TextEdit::MoveCursor { from, to } => self.move_cursor(from, to),
            TextEdit::ScrollTo(line) => self.scrolled_to(line as int),
            TextEdit::InsertChar { line, span, at, ch } => self.insert_char(
                line as int,
                span as int,
                at as int,
                ch,
            ),
        }
    }

    /// Whether the characters that carry the cursor's look are exactly
    /// those of the region.
    pub open spec fn shows(self, region: Region) -> bool {
        forall|l: int, s: int, c: int| #[trigger]
            self.has_char(l, s, c) ==> (self.lines[l][s][c].spec_is_lit() <==> region.covers(
                l,
                s,
                c,
            ))
    }

    /// Whether two texts have the same lines, spans and characters, styles
    /// and scrolling apart.
    pub open spec fn same_shape(self, other: TextModel) -> bool {
        &&& self.lines.len() == other.lines.len()
        &&& self.height == other.height
        &&& self.alignment == other.alignment
        &&& forall|l: int|
            0 <= l < self.lines.len() ==> (#[trigger] self.lines[l]).len() == other.lines[l].len()
        &&& forall|l: int, s: int|
            0 <= l < self.lines.len() && 0 <= s < self.lines[l].len() ==> (
            #[trigger] self.lines[l][s]).len() == other.lines[l][s].len()
        &&& forall|l: int, s: int, c: int| #[trigger]
            self.has_char(l, s, c) ==> self.lines[l][s][c].char == other.lines[l][s][c].char
    }
}

/// Moving the cursor's look leaves it on exactly the region it went to,
/// where it was on exactly the region it came from.
pub proof fn lemma_move_cursor_shows(t: TextModel, from: Region, to: Region)
    requires
        t.shows(from),
    ensures
        t.move_cursor(from, to).shows(to),
        t.move_cursor(from, to).same_shape(t),
        t.move_cursor(from, to).scroll_offset == t.scroll_offset,
{
    let m = t.lit(from, false);
    let r = m.lit(to, true);
    assert forall|l: int, s: int, c: int| #[trigger] r.has_char(l, s, c) implies (
    r.lines[l][s][c].spec_is_lit() <==> to.covers(l, s, c)) by {
        assert(t.has_char(l, s, c));
        assert(m.has_char(l, s, c));
    }
}

/// Scrolling changes neither a character nor a style.
pub proof fn lemma_scroll_shows(t: TextModel, line: int, region: Region)
    ensures
        t.scrolled_to(line).same_shape(t),
        t.scrolled_to(line).lines == t.lines,
        t.shows(region) ==> t.scrolled_to(line).shows(region),
        t.height > 0 && 0 <= line < t.lines.len() ==> t.scrolled_to(line).on_screen(line),
{
    let r = t.scrolled_to(line);
    assert forall|l: int, s: int, c: int| #[trigger] r.has_char(l, s, c) implies t.has_char(
        l,
        s,
        c,
    ) by {}
}

/// An edit that moves the cursor's look or scrolls leaves every line, span
/// and character in its place; every edit leaves the number of lines.
pub proof fn lemma_apply_keeps_shape(t: TextModel, e: TextEdit)
    ensures
        t.apply(e).lines.len() == t.lines.len(),
        t.apply(e).height == t.height,
        e.keeps_shape() ==> t.apply(e).same_shape(t),
        !(e is ScrollTo) ==> t.apply(e).scroll_offset == t.scroll_offset,
{
    match e {
        TextEdit::MoveCursor { from, to } => {
            let m = t.lit(from, false);
            let r = m.lit(to, true);
            assert forall|l: int, s: int, c: int| #[trigger]
                r.has_char(l, s, c) implies r.lines[l][s][c].char
                == t.lines[l][s][c].char by {
                assert(m.has_char(l, s, c));
                assert(t.has_char(l, s, c));
            }
            assert(r.same_shape(t));
        },
        TextEdit::ScrollTo(line) => {
            lemma_scroll_shows(t, line as int, Region::Nowhere);
        },
        TextEdit::InsertChar { line, span, at, ch } => {},
    }
}

/// Lines with as many spans of the same lengths have as many characters
/// before each span.
pub proof fn lemma_total_len_same(a: Seq<Seq<Char>>, b: Seq<Seq<Char>>, k: int)
    requires
        a.len() == b.len(),
        forall|i: int| 0 <= i < a.len() ==> (#[trigger] a[i]).len() == b[i].len(),
        0 <= k <= a.len(),
    ensures
        total_len(a.take(k)) == total_len(b.take(k)),
    decreases k,
{
    if k > 0 {
        lemma_total_len_same(a, b, k - 1);
        assert(a.take(k).drop_last() =~= a.take(k - 1));
        assert(b.take(k).drop_last() =~= b.take(k - 1));
        assert(a.take(k).last() == a[k - 1]);
        assert(b.take(k).last() == b[k - 1]);
    } else {
        assert(a.take(0) =~= Seq::<Seq<Char>>::empty());
        assert(b.take(0) =~= Seq::<Seq<Char>>::empty());
    }
}

/// Putting a character before the one that carries the cursor's look
/// leaves the look on that one, now one place further right.
pub proof fn lemma_insert_shows(t: TextModel, l: usize, s: usize, at: usize, ch: char)
    requires
        t.shows(Region::Char(l, s, at)),
        t.has_char(l as int, s as int, at as int),
        at < usize::MAX,
    ensures
        t.insert_char(l as int, s as int, at as int, ch).shows(
            Region::Char(l, s, (at + 1) as usize),
        ),
{
    let u = t.insert_char(l as int, s as int, at as int, ch);
    assert forall|a: int, b: int, c: int| #[trigger] u.has_char(a, b, c) implies (
    u.lines[a][b][c].spec_is_lit() <==> Region::Char(l, s, (at + 1) as usize).covers(a, b, c)) by {
        if a == l && b == s {
            if c < at {
                assert(t.has_char(a, b, c));
            } else if c > at {
                assert(t.has_char(a, b, c - 1));
            }
        } else {
            assert(t.has_char(a, b, c));
        }
    }
}

impl Text {
    /// Scrolls so that `line` is on screen.
    pub fn scroll_to(&mut self, line: usize)
        ensures
            final(self)@ == old(self)@.scrolled_to(line as int),
    {
        if line < self.lines.len() {
            if line < self.scroll_offset {
                self.scroll_offset = line;
            } else if line - self.scroll_offset >= self.height {
                self.scroll_offset = line - self.height + 1;
            }
        }
    }

    /// Puts the cursor's look on every character of the region, or takes
    /// it off.
    pub fn set_highlight(&mut self, region: Region, on: bool)
        ensures
            final(self)@ == old(self)@.lit(region, on),
    {
        match region {
            Region::Nowhere => {},
            Region::Line(l) => {
                if l < self.lines.len() {
                    self.lines[l].set_highlight(on);
                }
            },
            Region::Span(l, s) => {
                if l < self.lines.len() {
                    if s < self.lines[l].spans.len() {
                        self.lines[l].spans[s].set_highlight(on);
                    }
                }
            },
            Region::Char(l, s, c) => {
                if l < self.lines.len() {
                    if s < self.lines[l].spans.len() {
                        if c < self.lines[l].spans[s].characters.len() {
                            self.lines[l].spans[s].characters[c].set_highlight(on);
                        }
                    }
                }
            },
        }
        assert(self@.lines =~~= old(self)@.lit(region, on).lines);
    }

    /// Puts a plain `ch` into span `span` of line `line`, before the
    /// character at `at`.
    pub fn insert_char(&mut self, line: usize, span: usize, at: usize, ch: char)
        ensures
            final(self)@ == old(self)@.insert_char(line as int, span as int, at as int, ch),
    {
        if line < self.lines.len() {
            if span < self.lines[line].spans.len() {
                self.lines[line].spans[span].add_child(Char::plain(ch), at);
                assert(self@.lines =~~= old(self)@.insert_char(
                    line as int,
                    span as int,
                    at as int,
                    ch,
                ).lines);
            }
        }
    }

    /// Carries out an edit.
    pub fn apply(&mut self, edit: TextEdit)
        ensures
            final(self)@ == old(self)@.apply(edit),
    {
        match edit {
            TextEdit::MoveCursor { from, to } => {
                self.set_highlight(from, false);
                self.set_highlight(to, true);
            },
            TextEdit::ScrollTo(line) => {
                self.scroll_to(line);
            },
            TextEdit::InsertChar { line, span, at, ch } => {
                self.insert_char(line, span, at, ch);
            },
        }
    }
}

} // verus!

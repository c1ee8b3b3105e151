//! The document tree: a root of windows, windows of windows and texts,
//! texts of lines, lines of spans, spans of characters; and how a child is
//! put into a node, taken out of it and replaced.

pub use crate::frame::{
    AsyncWidget, ChildRender, LayoutTypeRender, LineNumber, LineRender, SpanRender, TextRender,
    WindowRender,
};
use crate::geometry::Rect;
use crate::loading::lines_of;
use crate::style::{Alignment, Style};
use vstd::prelude::*;

verus! {

/// One styled character, the leaf of the tree.
#[derive(Clone, Copy, Debug, PartialEq, Eq, Default)]
pub struct Char {
    pub char: char,
    pub style: Style,
}

/// A run of characters.
#[derive(Clone, Debug, PartialEq, Eq, Default)]
pub struct Span {
    pub characters: Vec<Char>,
}

/// A row of spans.
#[derive(Clone, Debug, PartialEq, Eq, Default)]
pub struct Line {
    pub spans: Vec<Span>,
}

/// A column of lines with the window of lines that is on screen:
/// `height` lines from `scroll_offset` on. The window may reach past the
/// last line.
#[derive(Clone, Debug, PartialEq, Eq, Default)]
pub struct Text {
    pub scroll_offset: usize,
    pub height: usize,
    pub lines: Vec<Line>,
    pub alignment: Option<Alignment>,
}

/// The way a window lays out its children.
#[derive(Clone, Copy, Debug, PartialEq, Eq, Structural, Default)]
pub enum SplitDirection {
    /// Side by side.
    #[default]
    Vertical,
    /// One below the other.
    Horizontal,
}

/// A child of a window: a window or a text.
#[derive(Debug, PartialEq, Eq)]
pub enum WindowChild {
    Window(Window),
    Text(Text),
}

/// A pane of the screen.
#[derive(Debug, PartialEq, Eq)]
pub struct Window {
    pub area: Rect,
    pub split_dir: SplitDirection,
    pub children: Vec<WindowChild>,
}

/// The top of the tree. It holds the whole screen and has windows only.
#[derive(Debug, PartialEq, Eq)]
pub struct Root {
    pub area: Rect,
    pub split_dir: SplitDirection,
    pub children: Vec<Window>,
}

/// The six kinds of node.
#[derive(Clone, Copy, Debug, PartialEq, Eq, Structural)]
pub enum NodeKind {
    Root,
    Window,
    Text,
    Line,
    Span,
    Char,
}

/// A node of any kind below the root, as handed to a parent that has to
/// decide whether it can hold it.
#[derive(Debug, PartialEq, Eq)]
pub enum Node {
    Window(Window),
    Text(Text),
    Line(Line),
    Span(Span),
    Char(Char),
}

/// The refusal of a child by a parent that cannot hold its kind.
#[derive(Clone, Copy, Debug, PartialEq, Eq, Structural)]
pub struct StructuralMismatch {
    pub parent: NodeKind,
    pub child: NodeKind,
}

/// What a text holds, as mathematics.
pub ghost struct TextModel {
    pub scroll_offset: nat,
    pub height: nat,
    pub lines: Seq<Seq<Seq<Char>>>,
    pub alignment: Option<Alignment>,
}

/// What a child of a window holds.
pub ghost enum ChildModel {
    Window(WindowModel),
    Text(TextModel),
}

/// What a window holds.
pub ghost struct WindowModel {
    pub area: Rect,
    pub split_dir: SplitDirection,
    pub children: Seq<ChildModel>,
}

/// What the root holds: the whole tree.
pub ghost struct RootModel {
    pub area: Rect,
    pub split_dir: SplitDirection,
    pub children: Seq<WindowModel>,
}

impl View for Span {
    type V = Seq<Char>;

    open spec fn view(&self) -> Seq<Char> {
        self.characters@
    }
}

impl View for Line {
    type V = Seq<Seq<Char>>;

    open spec fn view(&self) -> Seq<Seq<Char>> {
        self.spans@.map_values(|s: Span| s@)
    }
}

impl View for Text {
    type V = TextModel;

    open spec fn view(&self) -> TextModel {
        TextModel {
            scroll_offset: self.scroll_offset as nat,
            height: self.height as nat,
            lines: self.lines@.map_values(|l: Line| l@),
            alignment: self.alignment,
        }
    }
}

impl WindowChild {
    /// What the child holds, as mathematics.
    pub open spec fn model(self) -> ChildModel
        decreases self,
    {
        match self {
            WindowChild::Window(w) => ChildModel::Window(w.model()),
            WindowChild::Text(t) => ChildModel::Text(t@),
        }
    }
}

impl Window {
    /// What the window holds, as mathematics.
    pub open spec fn model(self) -> WindowModel
        decreases self,
    {
        WindowModel {
            area: self.area,
            split_dir: self.split_dir,
            children: Seq::new(
                self.children@.len(),
                |i: int|
                    if 0 <= i < self.children@.len() {
                        self.children@[i].model()
                    } else {
                        ChildModel::Text(TextModel::spec_empty())
                    },
            ),
        }
    }
}

impl View for WindowChild {
    type V = ChildModel;

    open spec fn view(&self) -> ChildModel {
        self.model()
    }
}

impl View for Window {
    type V = WindowModel;

    open spec fn view(&self) -> WindowModel {
        self.model()
    }
}

impl View for Root {
    type V = RootModel;

    open spec fn view(&self) -> RootModel {
        RootModel {
            area: self.area,
            split_dir: self.split_dir,
            children: self.children@.map_values(|w: Window| w@),
        }
    }
}

/// What the model of a window holds, child by child.
pub proof fn lemma_window_view(w: Window)
    ensures
        w@.area == w.area,
        w@.split_dir == w.split_dir,
        w@.children.len() == w.children@.len(),
        forall|i: int| 0 <= i < w.children@.len() ==> #[trigger] w@.children[i] == w.children@[i]@,
{
}

/// The place at which a child handed in for `index` comes to stand among
/// `len` siblings: `index`, or the end where `index` lies past it.
pub open spec fn clamp_index(index: int, len: int) -> int {
    if index <= len {
        index
    } else {
        len
    }
}

/// The child that a request for `index` reaches among `len` children:
/// `index`, or the last one where `index` lies past it.
pub open spec fn clamp_child(index: int, len: int) -> int {
    if index < len {
        index
    } else {
        len - 1
    }
}

/// Whether a parent of one kind can hold a child of another.
pub open spec fn permitted(parent: NodeKind, child: NodeKind) -> bool {
    match (parent, child) {
        (NodeKind::Root, NodeKind::Window) => true,
        (NodeKind::Window, NodeKind::Window) => true,
        (NodeKind::Window, NodeKind::Text) => true,
        (NodeKind::Text, NodeKind::Line) => true,
        (NodeKind::Line, NodeKind::Span) => true,
        (NodeKind::Span, NodeKind::Char) => true,
        _ => false,
    }
}

/// Decides whether a parent of one kind can hold a child of another.
pub fn can_hold(parent: NodeKind, child: NodeKind) -> (b: bool)
    ensures
        b == permitted(parent, child),
{
    match (parent, child) {
        (NodeKind::Root, NodeKind::Window) => true,
        (NodeKind::Window, NodeKind::Window) => true,
        (NodeKind::Window, NodeKind::Text) => true,
        (NodeKind::Text, NodeKind::Line) => true,
        (NodeKind::Line, NodeKind::Span) => true,
        (NodeKind::Span, NodeKind::Char) => true,
        _ => false,
    }
}

/// Puts `item` among `v` at `index`, or at the end where `index` lies past
/// it, and says where it went. What stood at or behind that place moves one
/// slot to the right.
pub fn insert_clamped<T>(v: &mut Vec<T>, item: T, index: usize) -> (at: usize)
    ensures
        at == clamp_index(index as int, old(v)@.len() as int),
        final(v)@ == old(v)@.insert(at as int, item),
        final(v)@ == old(v)@.subrange(0, at as int).push(item) + old(v)@.subrange(
            at as int,
            old(v)@.len() as int,
        ),
{
    let at: usize = if index <= v.len() { index } else { v.len() };
    v.insert(at, item);
    at
}

/// Takes the item at `index` out of `v`, if there is one.
pub fn remove_at<T>(v: &mut Vec<T>, index: usize) -> (out: Option<T>)
    ensures
        index < old(v)@.len() ==> out == Some(old(v)@[index as int]) && final(v)@ == old(v)@.remove(
            index as int,
        ),
        index >= old(v)@.len() ==> out is None && final(v)@ == old(v)@,
{
    if index < v.len() {
        Some(v.remove(index))
    } else {
        None
    }
}

/// Puts `item` in the place of the item at `index`, if there is one, and
/// hands the old one back.
pub fn replace_at<T>(v: &mut Vec<T>, index: usize, item: T) -> (out: Option<T>)
    ensures
        index < old(v)@.len() ==> out == Some(old(v)@[index as int]) && final(v)@ == old(v)@.update(
            index as int,
            item,
        ),
        index >= old(v)@.len() ==> out is None && final(v)@ == old(v)@,
{
    if index < v.len() {
        let old_item = v.remove(index);
        v.insert(index, item);
        assert(v@ =~= old(v)@.update(index as int, item));
        Some(old_item)
    } else {
        None
    }
}

/// Insertion keeps the order: the siblings before the place stay, the new
/// one follows, the others come after it; a place past the end is the end.
pub proof fn lemma_insert_keeps_order<T>(siblings: Seq<T>, c: T, i: nat)
    ensures
        i <= siblings.len() ==> siblings.insert(clamp_index(i as int, siblings.len() as int), c)
            == siblings.subrange(0, i as int).push(c) + siblings.subrange(
            i as int,
            siblings.len() as int,
        ),
        i >= siblings.len() ==> siblings.insert(clamp_index(i as int, siblings.len() as int), c)
            == siblings.push(c),
{
    if i <= siblings.len() {
        assert(siblings.insert(i as int, c) =~= siblings.subrange(0, i as int).push(c)
            + siblings.subrange(i as int, siblings.len() as int));
    }
    if i >= siblings.len() {
        assert(siblings.insert(siblings.len() as int, c) =~= siblings.push(c));
    }
}

/// The sum of the lengths of the spans.
pub open spec fn total_len(spans: Seq<Seq<Char>>) -> nat
    decreases spans.len(),
{
    if spans.len() == 0 {
        0
    } else {
        total_len(spans.drop_last()) + spans.last().len()
    }
}

/// A count as far as a `usize` can hold it.
pub open spec fn held(n: nat) -> usize {
    if n > usize::MAX {
        usize::MAX
    } else {
        n as usize
    }
}

impl TextModel {
    /// A text without lines.
    pub open spec fn spec_empty() -> TextModel {
        TextModel { scroll_offset: 0, height: 0, lines: Seq::empty(), alignment: None }
    }

    /// Whether the text has the character `c` of span `s` of line `l`.
    pub open spec fn has_char(self, l: int, s: int, c: int) -> bool {
        &&& 0 <= l < self.lines.len()
        &&& 0 <= s < self.lines[l].len()
        &&& 0 <= c < self.lines[l][s].len()
    }
}

impl WindowModel {
    /// A window without children.
    pub open spec fn spec_empty(split_dir: SplitDirection, area: Rect) -> WindowModel {
        WindowModel { area, split_dir, children: Seq::empty() }
    }
}

impl Char {
    /// A character in the plain style.
    pub open spec fn spec_plain(ch: char) -> Char {
        Char { char: ch, style: Style::spec_plain() }
    }

    /// The character with the cursor's look put on or taken off: with
    /// the cursor's colours put on its style, or with the plain style.
    pub open spec fn spec_lit(self, on: bool) -> Char {
        Char {
            char: self.char,
            style: if on {
                self.style.spec_highlighted()
            } else {
                Style::spec_plain()
            },
        }
    }

    /// Whether the character carries the cursor's look.
    pub open spec fn spec_is_lit(self) -> bool {
        self.style.spec_is_cursor()
    }

    /// A character in the plain style.
    #[verifier::when_used_as_spec(spec_plain)]
    pub fn plain(ch: char) -> (c: Char)
        ensures
            c == Char::spec_plain(ch),
    {
        Char { char: ch, style: Style::plain() }
    }

    /// Puts the cursor's colours on the character.
    pub fn highlight(&mut self)
        ensures
            *final(self) == old(self).spec_lit(true),
    {
        self.style.bg = Some(crate::style::Color::White);
        self.style.fg = Some(crate::style::Color::Black);
    }

    /// Gives the character its plain style back.
    pub fn no_highlight(&mut self)
        ensures
            *final(self) == old(self).spec_lit(false),
    {
        self.style = Style::plain();
    }

    /// Puts the cursor's look on the character, or takes it off.
    pub fn set_highlight(&mut self, on: bool)
        ensures
            *final(self) == old(self).spec_lit(on),
    {
        if on {
            self.highlight();
        } else {
            self.no_highlight();
        }
    }

    /// A character holds no child: every attempt is refused.
    pub fn try_add_child(&mut self, child: Node, index: usize) -> (r: Result<
        usize,
        StructuralMismatch,
    >)
        ensures
            r is Ok <==> permitted(NodeKind::Char, child.spec_kind()),
            r == Err::<usize, StructuralMismatch>(
                StructuralMismatch { parent: NodeKind::Char, child: child.spec_kind() },
            ),
            *final(self) == *old(self),
    {
        Err(StructuralMismatch { parent: NodeKind::Char, child: child.kind() })
    }
}

impl Span {
    /// Whether the span is a single line feed.
    pub fn is_newline(&self) -> (b: bool)
        ensures
            b == (self@.len() == 1 && self@[0].char == '\n'),
    {
        self.characters.len() == 1 && self.characters[0].char == '\n'
    }

    /// Puts `child` among the characters at `index`, or at the end where
    /// `index` lies past it, and says where it went.
    pub fn add_child(&mut self, child: Char, index: usize) -> (at: usize)
        ensures
            at == clamp_index(index as int, old(self)@.len() as int),
            final(self)@ == old(self)@.insert(at as int, child),
    {
        insert_clamped(&mut self.characters, child, index)
    }

    /// Takes `child` in if it is a character, and refuses it otherwise.
    pub fn try_add_child(&mut self, child: Node, index: usize) -> (r: Result<
        usize,
        StructuralMismatch,
    >)
        ensures
            r is Ok <==> permitted(NodeKind::Span, child.spec_kind()),
            r matches Ok(at) ==> (child matches Node::Char(c) && at == clamp_index(
                index as int,
                old(self)@.len() as int,
            ) && final(self)@ == old(self)@.insert(at as int, c)),
            r matches Err(e) ==> e == (StructuralMismatch {
                parent: NodeKind::Span,
                child: child.spec_kind(),
            }) && *final(self) == *old(self),
    {
        match child {
            Node::Char(c) => Ok(self.add_child(c, index)),
            other => Err(StructuralMismatch { parent: NodeKind::Span, child: other.kind() }),
        }
    }

    /// Takes the character at `index` out, if there is one.
    pub fn remove_child(&mut self, index: usize) -> (out: Option<Char>)
        ensures
            index < old(self)@.len() ==> out == Some(old(self)@[index as int]) && final(self)@
                == old(self)@.remove(index as int),
            index >= old(self)@.len() ==> out is None && final(self)@ == old(self)@,
    {
        remove_at(&mut self.characters, index)
    }

    /// Puts `child` in the place of the character at `index`, if there is
    /// one, and hands the old one back.
    pub fn replace_child(&mut self, index: usize, child: Char) -> (out: Option<Char>)
        ensures
            index < old(self)@.len() ==> out == Some(old(self)@[index as int]) && final(self)@
                == old(self)@.update(index as int, child),
            index >= old(self)@.len() ==> out is None && final(self)@ == old(self)@,
    {
        replace_at(&mut self.characters, index, child)
    }

    /// Puts the cursor's look on every character, or takes it off.
    pub fn set_highlight(&mut self, on: bool)
        ensures
            final(self)@ == old(self)@.map_values(|c: Char| c.spec_lit(on)),
    {
        let mut i: usize = 0;
        while i < self.characters.len()
            invariant
                i <= self.characters.len(),
                self.characters.len() == old(self).characters.len(),
                forall|k: int|
                    0 <= k < i ==> self.characters@[k] == old(self).characters@[k].spec_lit(on),
                forall|k: int|
                    i <= k < self.characters.len() ==> self.characters@[k] == old(
                        self,
                    ).characters@[k],
            decreases self.characters.len() - i,
        {
            self.characters[i].set_highlight(on);
            i += 1;
        }
        assert(self@ =~= old(self)@.map_values(|c: Char| c.spec_lit(on)));
    }

    /// Puts the cursor's look on every character.
    pub fn highlight(&mut self)
        ensures
            final(self)@ == old(self)@.map_values(|c: Char| c.spec_lit(true)),
    {
        self.set_highlight(true);
    }

    /// Takes the cursor's look off every character.
    pub fn no_highlight(&mut self)
        ensures
            final(self)@ == old(self)@.map_values(|c: Char| c.spec_lit(false)),
    {
        self.set_highlight(false);
    }
}

/// A line with the cursor's look put on, or taken off, every character.
pub open spec fn line_lit(line: Seq<Seq<Char>>, on: bool) -> Seq<Seq<Char>> {
    line.map_values(|s: Seq<Char>| s.map_values(|c: Char| c.spec_lit(on)))
}

impl Line {
    /// Puts `span` among the spans at `index`, or at the end where `index`
    /// lies past it, and says where it went.
    pub fn add_span(&mut self, span: Span, index: usize) -> (at: usize)
        ensures
            at == clamp_index(index as int, old(self)@.len() as int),
            final(self)@ == old(self)@.insert(at as int, span@),
    {
        let at = insert_clamped(&mut self.spans, span, index);
        assert(self@ =~= old(self)@.insert(at as int, span@));
        at
    }

    /// Puts `child` among the spans at `index`, or at the end where `index`
    /// lies past it, and says where it went.
    pub fn add_child(&mut self, child: Span, index: usize) -> (at: usize)
        ensures
            at == clamp_index(index as int, old(self)@.len() as int),
            final(self)@ == old(self)@.insert(at as int, child@),
    {
        self.add_span(child, index)
    }

    /// Takes `child` in if it is a span, and refuses it otherwise.
    pub fn try_add_child(&mut self, child: Node, index: usize) -> (r: Result<
        usize,
        StructuralMismatch,
    >)
        ensures
            r is Ok <==> permitted(NodeKind::Line, child.spec_kind()),
            r matches Ok(at) ==> (child matches Node::Span(c) && at == clamp_index(
                index as int,
                old(self)@.len() as int,
            ) && final(self)@ == old(self)@.insert(at as int, c@)),
            r matches Err(e) ==> e == (StructuralMismatch {
                parent: NodeKind::Line,
                child: child.spec_kind(),
            }) && *final(self) == *old(self),
    {
        match child {
            Node::Span(c) => Ok(self.add_span(c, index)),
            other => Err(StructuralMismatch { parent: NodeKind::Line, child: other.kind() }),
        }
    }

    /// Takes the span at `index` out, if there is one.
    pub fn remove_child(&mut self, index: usize) -> (out: Option<Span>)
        ensures
            index < old(self)@.len() ==> (out matches Some(c) && c@ == old(self)@[index as int]
                && final(self)@ == old(self)@.remove(index as int)),
            index >= old(self)@.len() ==> out is None && final(self)@ == old(self)@,
    {
        let out = remove_at(&mut self.spans, index);
        assert(index < old(self)@.len() ==> self@ =~= old(self)@.remove(index as int));
        out
    }

    /// Puts `child` in the place of the span at `index`, if there is one,
    /// and hands the old one back.
    pub fn replace_child(&mut self, index: usize, child: Span) -> (out: Option<Span>)
        ensures
            index < old(self)@.len() ==> (out matches Some(c) && c@ == old(self)@[index as int]
                && final(self)@ == old(self)@.update(index as int, child@)),
            index >= old(self)@.len() ==> out is None && final(self)@ == old(self)@,
    {
        let out = replace_at(&mut self.spans, index, child);
        assert(index < old(self)@.len() ==> self@ =~= old(self)@.update(index as int, child@));
        out
    }

    /// The number of characters in the spans before span `upto`, as far as
    /// a `usize` can hold it.
    pub fn prefix_len(&self, upto: usize) -> (n: usize)
        requires
            upto <= self@.len(),
        ensures
            n == held(total_len(self@.take(upto as int))),
    {
        let mut n: usize = 0;
        let mut i: usize = 0;
        assert(self@.take(0) =~= Seq::<Seq<Char>>::empty());
        while i < upto
            invariant
                i <= upto <= self.spans@.len(),
                self@.len() == self.spans@.len(),
                n == held(total_len(self@.take(i as int))),
            decreases upto - i,
        {
            proof {
                assert(self@.take(i + 1).drop_last() =~= self@.take(i as int));
                assert(self@.take(i + 1).last() == self.spans@[i as int]@);
            }
            n = n.saturating_add(self.spans[i].characters.len());
            i += 1;
        }
        n
    }

    /// The number of characters in the line, as far as a `usize` can hold
    /// it.
    pub fn char_len(&self) -> (n: usize)
        ensures
            n == held(total_len(self@)),
    {
        assert(self@.take(self@.len() as int) =~= self@);
        self.prefix_len(self.spans.len())
    }

    /// Puts the cursor's look on every character, or takes it off.
    pub fn set_highlight(&mut self, on: bool)
        ensures
            final(self)@ == line_lit(old(self)@, on),
    {
        let mut i: usize = 0;
        while i < self.spans.len()
            invariant
                i <= self.spans.len(),
                self.spans.len() == old(self).spans.len(),
                forall|k: int|
                    0 <= k < i ==> (#[trigger] self.spans@[k])@ == old(self).spans@[k]@.map_values(
                        |c: Char| c.spec_lit(on),
                    ),
                forall|k: int| i <= k < self.spans.len() ==> self.spans@[k] == old(self).spans@[k],
            decreases self.spans.len() - i,
        {
            self.spans[i].set_highlight(on);
            i += 1;
        }
        assert(self@ =~= line_lit(old(self)@, on));
    }

    /// Puts the cursor's look on every character.
    pub fn highlight(&mut self)
        ensures
            final(self)@ == line_lit(old(self)@, true),
    {
        self.set_highlight(true);
    }

    /// Takes the cursor's look off every character.
    pub fn no_highlight(&mut self)
        ensures
            final(self)@ == line_lit(old(self)@, false),
    {
        self.set_highlight(false);
    }
}

impl Text {
    /// Puts `line` among the lines at `index`, or at the end where `index`
    /// lies past it, and says where it went.
    pub fn add_line(&mut self, line: Line, index: usize) -> (at: usize)
        ensures
            at == clamp_index(index as int, old(self)@.lines.len() as int),
            final(self)@ == (TextModel {
                lines: old(self)@.lines.insert(at as int, line@),
                ..old(self)@
            }),
    {
        let at = insert_clamped(&mut self.lines, line, index);
        assert(self@.lines =~= old(self)@.lines.insert(at as int, line@));
        at
    }

    /// Puts `child` among the lines at `index`, or at the end where `index`
    /// lies past it, and says where it went.
    pub fn add_child(&mut self, child: Line, index: usize) -> (at: usize)
        ensures
            at == clamp_index(index as int, old(self)@.lines.len() as int),
            final(self)@ == (TextModel {
                lines: old(self)@.lines.insert(at as int, child@),
                ..old(self)@
            }),
    {
        self.add_line(child, index)
    }

    /// Takes `child` in if it is a line, and refuses it otherwise.
    pub fn try_add_child(&mut self, child: Node, index: usize) -> (r: Result<
        usize,
        StructuralMismatch,
    >)
        ensures
            r is Ok <==> permitted(NodeKind::Text, child.spec_kind()),
            r matches Ok(at) ==> (child matches Node::Line(c) && at == clamp_index(
                index as int,
                old(self)@.lines.len() as int,
            ) && final(self)@ == (TextModel {
                lines: old(self)@.lines.insert(at as int, c@),
                ..old(self)@
            })),
            r matches Err(e) ==> e == (StructuralMismatch {
                parent: NodeKind::Text,
                child: child.spec_kind(),
            }) && *final(self) == *old(self),
    {
        match child {
            Node::Line(c) => Ok(self.add_line(c, index)),
            other => Err(StructuralMismatch { parent: NodeKind::Text, child: other.kind() }),
        }
    }

    /// Takes the line at `index` out, if there is one.
    pub fn remove_child(&mut self, index: usize) -> (out: Option<Line>)
        ensures
            index < old(self)@.lines.len() ==> (out matches Some(c) && c@ == old(
                self,
            )@.lines[index as int] && final(self)@ == (TextModel {
                lines: old(self)@.lines.remove(index as int),
                ..old(self)@
            })),
            index >= old(self)@.lines.len() ==> out is None && final(self)@ == old(self)@,
    {
        let out = remove_at(&mut self.lines, index);
        assert(index < old(self)@.lines.len() ==> self@.lines =~= old(self)@.lines.remove(
            index as int,
        ));
        out
    }

    /// Puts `child` in the place of the line at `index`, if there is one,
    /// and hands the old one back.
    pub fn replace_child(&mut self, index: usize, child: Line) -> (out: Option<Line>)
        ensures
            index < old(self)@.lines.len() ==> (out matches Some(c) && c@ == old(
                self,
            )@.lines[index as int] && final(self)@ == (TextModel {
                lines: old(self)@.lines.update(index as int, child@),
                ..old(self)@
            })),
            index >= old(self)@.lines.len() ==> out is None && final(self)@ == old(self)@,
    {
        let out = replace_at(&mut self.lines, index, child);
        assert(index < old(self)@.lines.len() ==> self@.lines =~= old(self)@.lines.update(
            index as int,
            child@,
        ));
        out
    }

    /// The line at `index`, or the last line where `index` lies past it.
    pub fn get_line(&self, index: usize) -> (line: &Line)
        requires
            self@.lines.len() > 0,
        ensures
            line@ == self@.lines[clamp_child(index as int, self@.lines.len() as int)],
    {
        if index < self.lines.len() {
            &self.lines[index]
        } else {
            &self.lines[self.lines.len() - 1]
        }
    }
}

impl WindowChild {
    /// The kind of the node.
    pub open spec fn spec_kind(&self) -> NodeKind {
        match self {
            WindowChild::Window(_) => NodeKind::Window,
            WindowChild::Text(_) => NodeKind::Text,
        }
    }

    /// The kind of the node.
    #[verifier::when_used_as_spec(spec_kind)]
    pub fn kind(&self) -> (k: NodeKind)
        ensures
            k == self.spec_kind(),
    {
        match self {
            WindowChild::Window(_) => NodeKind::Window,
            WindowChild::Text(_) => NodeKind::Text,
        }
    }
}

impl Window {
    /// A window without children.
    pub fn new(split_dir: SplitDirection, area: Rect) -> (w: Window)
        ensures
            w@ == WindowModel::spec_empty(split_dir, area),
            w.children@.len() == 0,
    {
        let w = Window { split_dir, area, children: Vec::new() };
        assert(w@.children =~= Seq::empty());
        w
    }

    /// Puts `child` among the children at `index`, or at the end where
    /// `index` lies past it, and says where it went.
    pub fn add_child(&mut self, child: WindowChild, index: usize) -> (at: usize)
        ensures
            at == clamp_index(index as int, old(self)@.children.len() as int),
            final(self)@ == (WindowModel {
                children: old(self)@.children.insert(at as int, child@),
                ..old(self)@
            }),
    {
        let at = insert_clamped(&mut self.children, child, index);
        assert(self@.children =~= old(self)@.children.insert(at as int, child@));
        at
    }

    /// Puts a new window without children, with this window's area, among
    /// the children.
    pub fn add_window(&mut self, split_dir: SplitDirection, index: usize) -> (at: usize)
        ensures
            at == clamp_index(index as int, old(self)@.children.len() as int),
            final(self)@ == (WindowModel {
                children: old(self)@.children.insert(
                    at as int,
                    ChildModel::Window(WindowModel::spec_empty(split_dir, old(self).area)),
                ),
                ..old(self)@
            }),
    {
        let w = Window::new(split_dir, self.area);
        self.add_child(WindowChild::Window(w), index)
    }

    /// Puts a new text of the lines of `content` among the children. As
    /// many of its lines are on screen as the window is high.
    pub fn add_text(&mut self, content: String, index: usize) -> (at: usize)
        ensures
            at == clamp_index(index as int, old(self)@.children.len() as int),
            final(self)@ == (WindowModel {
                children: old(self)@.children.insert(
                    at as int,
                    ChildModel::Text(
                        TextModel {
                            scroll_offset: 0,
                            height: old(self).area.height as nat,
                            lines: lines_of(content@),
                            alignment: None,
                        },
                    ),
                ),
                ..old(self)@
            }),
    {
        let mut text = Text::raw(content);
        text.height = self.area.height as usize;
        self.add_child(WindowChild::Text(text), index)
    }

    /// Takes `child` in if it is a window or a text, and refuses it
    /// otherwise.
    pub fn try_add_child(&mut self, child: Node, index: usize) -> (r: Result<
        usize,
        StructuralMismatch,
    >)
        ensures
            r is Ok <==> permitted(NodeKind::Window, child.spec_kind()),
            r matches Ok(at) ==> at == clamp_index(
                index as int,
                old(self)@.children.len() as int,
            ) && final(self)@ == (WindowModel {
                children: old(self)@.children.insert(
                    at as int,
                    match child {
                        Node::Window(w) => ChildModel::Window(w@),
                        Node::Text(t) => ChildModel::Text(t@),
                        _ => arbitrary(),
                    },
                ),
                ..old(self)@
            }),
            r matches Err(e) ==> e == (StructuralMismatch {
                parent: NodeKind::Window,
                child: child.spec_kind(),
            }) && *final(self) == *old(self),
    {
        match child {
            Node::Window(w) => Ok(self.add_child(WindowChild::Window(w), index)),
            Node::Text(t) => Ok(self.add_child(WindowChild::Text(t), index)),
            other => Err(StructuralMismatch { parent: NodeKind::Window, child: other.kind() }),
        }
    }

    /// Takes the child at `index` out, if there is one.
    pub fn remove_child(&mut self, index: usize) -> (out: Option<WindowChild>)
        ensures
            index < old(self)@.children.len() ==> (out matches Some(c) && c@ == old(
                self,
            )@.children[index as int] && final(self)@ == (WindowModel {
                children: old(self)@.children.remove(index as int),
                ..old(self)@
            })),
            index >= old(self)@.children.len() ==> out is None && final(self)@ == old(self)@,
    {
        let out = remove_at(&mut self.children, index);
        assert(self@.children =~= if index < old(self)@.children.len() {
            old(self)@.children.remove(index as int)
        } else {
            old(self)@.children
        });
        out
    }

    /// Puts `child` in the place of the child at `index`, if there is one,
    /// and hands the old one back.
    pub fn replace_child(&mut self, index: usize, child: WindowChild) -> (out: Option<
        WindowChild,
    >)
        ensures
            index < old(self)@.children.len() ==> (out matches Some(c) && c@ == old(
                self,
            )@.children[index as int] && final(self)@ == (WindowModel {
                children: old(self)@.children.update(index as int, child@),
                ..old(self)@
            })),
            index >= old(self)@.children.len() ==> out is None && final(self)@ == old(self)@,
    {
        let out = replace_at(&mut self.children, index, child);
        assert(self@.children =~= if index < old(self)@.children.len() {
            old(self)@.children.update(index as int, child@)
        } else {
            old(self)@.children
        });
        out
    }
}

impl Root {
    /// A root without windows.
    pub fn new(split_dir: SplitDirection, area: Rect) -> (r: Root)
        ensures
            r@ == (RootModel { area, split_dir, children: Seq::empty() }),
    {
        let r = Root { split_dir, area, children: Vec::new() };
        assert(r@.children =~= Seq::empty());
        r
    }

    /// Puts `child` among the windows at `index`, or at the end where
    /// `index` lies past it, and says where it went.
    pub fn add_child(&mut self, child: Window, index: usize) -> (at: usize)
        ensures
            at == clamp_index(index as int, old(self)@.children.len() as int),
            final(self)@ == (RootModel {
                children: old(self)@.children.insert(at as int, child@),
                ..old(self)@
            }),
    {
        let at = insert_clamped(&mut self.children, child, index);
        assert(self@.children =~= old(self)@.children.insert(at as int, child@));
        at
    }

    /// Puts a new window without children, with the root's area, among the
    /// windows.
    pub fn add_window(&mut self, split_dir: SplitDirection, index: usize) -> (at: usize)
        ensures
            at == clamp_index(index as int, old(self)@.children.len() as int),
            final(self)@ == (RootModel {
                children: old(self)@.children.insert(
                    at as int,
                    WindowModel::spec_empty(split_dir, old(self).area),
                ),
                ..old(self)@
            }),
    {
        let w = Window::new(split_dir, self.area);
        self.add_child(w, index)
    }

    /// Takes `child` in if it is a window, and refuses it otherwise.
    pub fn try_add_child(&mut self, child: Node, index: usize) -> (r: Result<
        usize,
        StructuralMismatch,
    >)
        ensures
            r is Ok <==> permitted(NodeKind::Root, child.spec_kind()),
            r matches Ok(at) ==> (child matches Node::Window(w) && at == clamp_index(
                index as int,
                old(self)@.children.len() as int,
            ) && final(self)@ == (RootModel {
                children: old(self)@.children.insert(at as int, w@),
                ..old(self)@
            })),
            r matches Err(e) ==> e == (StructuralMismatch {
                parent: NodeKind::Root,
                child: child.spec_kind(),
            }) && *final(self) == *old(self),
    {
        match child {
            Node::Window(w) => Ok(self.add_child(w, index)),
            other => Err(StructuralMismatch { parent: NodeKind::Root, child: other.kind() }),
        }
    }

    /// Takes the window at `index` out, if there is one.
    pub fn remove_child(&mut self, index: usize) -> (out: Option<Window>)
        ensures
            index < old(self)@.children.len() ==> (out matches Some(c) && c@ == old(
                self,
            )@.children[index as int] && final(self)@ == (RootModel {
                children: old(self)@.children.remove(index as int),
                ..old(self)@
            })),
            index >= old(self)@.children.len() ==> out is None && final(self)@ == old(self)@,
    {
        let out = remove_at(&mut self.children, index);
        assert(self@.children =~= if index < old(self)@.children.len() {
            old(self)@.children.remove(index as int)
        } else {
            old(self)@.children
        });
        out
    }

    /// Puts `child` in the place of the window at `index`, if there is
    /// one, and hands the old one back.
    pub fn replace_child(&mut self, index: usize, child: Window) -> (out: Option<Window>)
        ensures
            index < old(self)@.children.len() ==> (out matches Some(c) && c@ == old(
                self,
            )@.children[index as int] && final(self)@ == (RootModel {
                children: old(self)@.children.update(index as int, child@),
                ..old(self)@
            })),
            index >= old(self)@.children.len() ==> out is None && final(self)@ == old(self)@,
    {
        let out = replace_at(&mut self.children, index, child);
        assert(self@.children =~= if index < old(self)@.children.len() {
            old(self)@.children.update(index as int, child@)
        } else {
            old(self)@.children
        });
        out
    }

    /// Gives the root the whole of a screen of `cols` by `rows` cells.
    pub fn resize(&mut self, cols: u16, rows: u16)
        ensures
            final(self)@ == (RootModel {
                area: Rect { x: 0, y: 0, width: cols, height: rows },
                ..old(self)@
            }),
    {
        self.area = Rect::new(0, 0, cols, rows);
    }
}

impl Node {
    /// The kind of the node.
    pub open spec fn spec_kind(&self) -> NodeKind {
        match self {
            Node::Window(_) => NodeKind::Window,
            Node::Text(_) => NodeKind::Text,
            Node::Line(_) => NodeKind::Line,
            Node::Span(_) => NodeKind::Span,
            Node::Char(_) => NodeKind::Char,
        }
    }

    /// The kind of the node.
    #[verifier::when_used_as_spec(spec_kind)]
    pub fn kind(&self) -> (k: NodeKind)
        ensures
            k == self.spec_kind(),
    {
        match self {
            Node::Window(_) => NodeKind::Window,
            Node::Text(_) => NodeKind::Text,
            Node::Line(_) => NodeKind::Line,
            Node::Span(_) => NodeKind::Span,
            Node::Char(_) => NodeKind::Char,
        }
    }

    /// The children of the node, as what each of them holds: characters
    /// for a span, spans for a line, and so on. A character has none.
    pub open spec fn spec_len(&self) -> nat {
        match self {
            Node::Window(w) => w@.children.len(),
            Node::Text(t) => t@.lines.len(),
            Node::Line(l) => l@.len(),
            Node::Span(s) => s@.len(),
            Node::Char(_) => 0,
        }
    }

    /// The number of children of the node.
    pub fn len(&self) -> (n: usize)
        ensures
            n == self.spec_len(),
    {
        match self {
            Node::Window(w) => {
                proof {
                    lemma_window_view(*w);
                }
                w.children.len()
            },
            Node::Text(t) => t.lines.len(),
            Node::Line(l) => l.spans.len(),
            Node::Span(s) => s.characters.len(),
            Node::Char(_) => 0,
        }
    }

    /// Takes `child` in among the children of the node, at `index` or at
    /// the end where `index` lies past it, if a node of this kind can hold
    /// a child of that kind. It is refused otherwise, and the node stays
    /// as it is.
    pub fn try_add_child(&mut self, child: Node, index: usize) -> (r: Result<
        usize,
        StructuralMismatch,
    >)
        ensures
            r is Ok <==> permitted(old(self).spec_kind(), child.spec_kind()),
            final(self).spec_kind() == old(self).spec_kind(),
            r matches Ok(at) ==> at == clamp_index(index as int, old(self).spec_len() as int)
                && final(self).spec_len() == old(self).spec_len() + 1 && match (
                *old(self),
                *final(self),
                child,
            ) {
                (Node::Window(a), Node::Window(b), Node::Window(c)) => b@ == (WindowModel {
                    children: a@.children.insert(at as int, ChildModel::Window(c@)),
                    ..a@
                }),
                (Node::Window(a), Node::Window(b), Node::Text(c)) => b@ == (WindowModel {
                    children: a@.children.insert(at as int, ChildModel::Text(c@)),
                    ..a@
                }),
                (Node::Text(a), Node::Text(b), Node::Line(c)) => b@ == (TextModel {
                    lines: a@.lines.insert(at as int, c@),
                    ..a@
                }),
                (Node::Line(a), Node::Line(b), Node::Span(c)) => b@ == a@.insert(at as int, c@),
                (Node::Span(a), Node::Span(b), Node::Char(c)) => b@ == a@.insert(at as int, c),
                _ => false,
            },
            r matches Err(e) ==> e == (StructuralMismatch {
                parent: old(self).spec_kind(),
                child: child.spec_kind(),
            }) && *final(self) == *old(self),
    {
        match self {
            Node::Window(w) => {
                proof {
                    lemma_window_view(*w);
                }
                w.try_add_child(child, index)
            },
            Node::Text(t) => t.try_add_child(child, index),
            Node::Line(l) => l.try_add_child(child, index),
            Node::Span(s) => s.try_add_child(child, index),
            Node::Char(c) => c.try_add_child(child, index),
        }
    }
}

} // verus!

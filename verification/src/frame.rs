//! Frames: owned copies of what the tree shows. A frame holds the windows
//! and texts of the tree and, of each text, the lines that are on screen.

use crate::primatives::{
    line_lit, Char, ChildModel, Line, Root, RootModel, Span, SplitDirection, Text, TextModel,
    Window, WindowChild, WindowModel,
};
use crate::style::Alignment;
use vstd::prelude::*;

verus! {

/// A span as copied into a frame.
#[derive(Clone, Debug, PartialEq, Eq, Default)]
pub struct SpanRender {
    pub characters: Vec<Char>,
    pub alignment: Option<Alignment>,
}

/// A line as copied into a frame.
#[derive(Clone, Debug, PartialEq, Eq, Default)]
pub struct LineRender {
    pub spans: Vec<SpanRender>,
    pub alignment: Option<Alignment>,
}

/// The number of a line, counted from one, with its decimal digits.
#[derive(Debug, PartialEq, Eq)]
pub struct LineNumber {
    num: usize,
    str: String,
}

/// A text as copied into a frame: the lines that are on screen, each with
/// its number.
#[derive(Debug, PartialEq, Eq, Default)]
pub struct TextRender {
    pub lines: Vec<(LineNumber, LineRender)>,
    pub alignment: Option<Alignment>,
}

/// A child of a window as copied into a frame.
#[derive(Debug, PartialEq, Eq)]
pub enum ChildRender {
    Window(WindowRender),
    Text(TextRender),
}

/// A window, or the root, as copied into a frame.
#[derive(Debug, PartialEq, Eq)]
pub struct WindowRender {
    pub split_dir: SplitDirection,
    pub children: Vec<ChildRender>,
}

/// A pane of a layout: a container of panes or a text.
#[derive(Debug, PartialEq, Eq)]
pub enum LayoutTypeRender {
    Container { split_direction: SplitDirection, layouts: Vec<WindowRender> },
    Content(TextRender),
}

/// What a line of a frame holds.
pub ghost struct LineFrame {
    pub number: nat,
    pub label: Seq<char>,
    pub spans: Seq<Seq<Char>>,
}

/// What a text of a frame holds.
pub ghost struct TextFrame {
    pub lines: Seq<LineFrame>,
    pub alignment: Option<Alignment>,
}

/// What a child of a window of a frame holds.
pub ghost enum ChildFrame {
    Window(WindowFrame),
    Text(TextFrame),
}

/// What a window of a frame holds.
pub ghost struct WindowFrame {
    pub split_dir: SplitDirection,
    pub children: Seq<ChildFrame>,
}

/// The decimal digit for a number below ten.
pub open spec fn digit(d: int) -> char {
    if d == 0 {
        '0'
    } else if d == 1 {
        '1'
    } else if d == 2 {
        '2'
    } else if d == 3 {
        '3'
    } else if d == 4 {
        '4'
    } else if d == 5 {
        '5'
    } else if d == 6 {
        '6'
    } else if d == 7 {
        '7'
    } else if d == 8 {
        '8'
    } else {
        '9'
    }
}

/// The decimal digits of a number, the most significant first.
pub open spec fn decimal(n: nat) -> Seq<char>
    decreases n,
{
    if n < 10 {
        seq![digit(n as int)]
    } else {
        decimal(n / 10).push(digit((n % 10) as int))
    }
}

fn digit_of(d: usize) -> (c: char)
    requires
        d < 10,
    ensures
        c == digit(d as int),
{
    if d == 0 {
        '0'
    } else if d == 1 {
        '1'
    } else if d == 2 {
        '2'
    } else if d == 3 {
        '3'
    } else if d == 4 {
        '4'
    } else if d == 5 {
        '5'
    } else if d == 6 {
        '6'
    } else if d == 7 {
        '7'
    } else if d == 8 {
        '8'
    } else {
        '9'
    }
}

/// `String::push`: the character is appended to the string.
#[verifier::external_body]
fn push_char(s: &mut String, ch: char)
    ensures
        final(s)@ == old(s)@.push(ch),
{
    s.push(ch);
}

/// Appends the decimal digits of `n`.
fn push_decimal(s: &mut String, n: usize)
    ensures
        final(s)@ == old(s)@ + decimal(n as nat),
    decreases n,
{
    if n >= 10 {
        push_decimal(s, n / 10);
    }
    push_char(s, digit_of(n % 10));
    assert(s@ =~= old(s)@ + decimal(n as nat));
}

impl LineNumber {
    #[verifier::type_invariant]
    spec fn inv(self) -> bool {
        self.str@ == decimal(self.num as nat)
    }

    /// The number.
    pub closed spec fn number(self) -> nat {
        self.num as nat
    }

    /// The digits.
    pub closed spec fn label(self) -> Seq<char> {
        self.str@
    }

    /// The number with its decimal digits.
    pub fn new(number: usize) -> (r: LineNumber)
        ensures
            r.number() == number,
            r.label() == decimal(number as nat),
    {
        let mut str = String::new();
        push_decimal(&mut str, number);
        assert(str@ =~= decimal(number as nat));
        LineNumber { num: number, str }
    }

    /// The number.
    pub fn num(&self) -> (n: usize)
        ensures
            n == self.number(),
    {
        self.num
    }

    /// The digits, as they are drawn.
    pub fn as_str(&self) -> (s: &str)
        ensures
            s@ == self.label(),
            s@ == decimal(self.number()),
    {
        proof {
            use_type_invariant(self);
        }
        self.str.as_str()
    }
}

impl Default for LineNumber {
    /// The number nought.
    fn default() -> (r: LineNumber)
        ensures
            r.number() == 0,
            r.label() == decimal(0),
    {
        LineNumber::new(0)
    }
}

impl View for SpanRender {
    type V = Seq<Char>;

    open spec fn view(&self) -> Seq<Char> {
        self.characters@
    }
}

impl View for LineRender {
    type V = Seq<Seq<Char>>;

    open spec fn view(&self) -> Seq<Seq<Char>> {
        self.spans@.map_values(|s: SpanRender| s@)
    }
}

impl View for TextRender {
    type V = TextFrame;

    open spec fn view(&self) -> TextFrame {
        TextFrame {
            lines: self.lines@.map_values(
                |l: (LineNumber, LineRender)|
                    LineFrame { number: l.0.number(), label: l.0.label(), spans: l.1@ },
            ),
            alignment: self.alignment,
        }
    }
}

impl ChildRender {
    /// What the child holds, as mathematics.
    pub open spec fn model(self) -> ChildFrame
        decreases self,
    {
        match self {
            ChildRender::Window(w) => ChildFrame::Window(w.model()),
            ChildRender::Text(t) => ChildFrame::Text(t@),
        }
    }
}

impl WindowRender {
    /// What the window holds, as mathematics.
    pub open spec fn model(self) -> WindowFrame
        decreases self,
    {
        WindowFrame {
            split_dir: self.split_dir,
            children: Seq::new(
                self.children@.len(),
                |i: int|
                    if 0 <= i < self.children@.len() {
                        self.children@[i].model()
                    } else {
                        ChildFrame::Text(TextFrame { lines: Seq::empty(), alignment: None })
                    },
            ),
        }
    }
}

impl View for WindowRender {
    type V = WindowFrame;

    open spec fn view(&self) -> WindowFrame {
        self.model()
    }
}

impl TextModel {
    /// The first line that is on screen, or the number of lines where the
    /// text is scrolled past its end.
    pub open spec fn first_shown(self) -> int {
        if self.scroll_offset <= self.lines.len() {
            self.scroll_offset as int
        } else {
            self.lines.len() as int
        }
    }

    /// The line behind the last one that is on screen.
    pub open spec fn end_shown(self) -> int {
        if self.scroll_offset + self.height <= self.lines.len() {
            (self.scroll_offset + self.height) as int
        } else {
            self.lines.len() as int
        }
    }

    /// The frame of the text: the lines that are on screen, in order, each
    /// with its number counted from one.
    pub open spec fn frame(self) -> TextFrame {
        TextFrame {
            lines: Seq::new(
                (self.end_shown() - self.first_shown()) as nat,
                |k: int|
                    LineFrame {
                        number: (self.first_shown() + k + 1) as nat,
                        label: decimal((self.first_shown() + k + 1) as nat),
                        spans: self.lines[self.first_shown() + k],
                    },
            ),
            alignment: self.alignment,
        }
    }
}

impl ChildModel {
    /// The frame of a child of a window.
    pub open spec fn frame(self) -> ChildFrame
        decreases self,
    {
        match self {
            ChildModel::Window(w) => ChildFrame::Window(w.frame()),
            ChildModel::Text(t) => ChildFrame::Text(t.frame()),
        }
    }
}

impl WindowModel {
    /// The frame of the window: the frames of its children, in order.
    pub open spec fn frame(self) -> WindowFrame
        decreases self,
    {
        WindowFrame {
            split_dir: self.split_dir,
            children: Seq::new(
                self.children.len(),
                |i: int|
                    if 0 <= i < self.children.len() {
                        self.children[i].frame()
                    } else {
                        ChildFrame::Text(TextFrame { lines: Seq::empty(), alignment: None })
                    },
            ),
        }
    }
}

impl RootModel {
    /// The frame of the whole tree: the frames of the root's windows, in
    /// order.
    pub open spec fn frame(self) -> WindowFrame {
        WindowFrame {
            split_dir: self.split_dir,
            children: self.children.map_values(|w: WindowModel| ChildFrame::Window(w.frame())),
        }
    }
}

impl Char {
    /// The character as it goes into a frame.
    pub fn snapshot(&self) -> (r: Char)
        ensures
            r == *self,
    {
        *self
    }
}

impl Span {
    /// A copy of the span for a frame.
    pub fn snapshot(&self) -> (r: SpanRender)
        ensures
            r@ == self@,
            r.alignment is None,
    {
        let mut characters: Vec<Char> = Vec::new();
        let mut i: usize = 0;
        while i < self.characters.len()
            invariant
                i <= self.characters.len(),
                characters@ == self.characters@.take(i as int),
            decreases self.characters.len() - i,
        {
            characters.push(self.characters[i].snapshot());
            assert(characters@ =~= self.characters@.take(i + 1));
            i += 1;
        }
        assert(self.characters@.take(self.characters.len() as int) == self.characters@);
        SpanRender { characters, alignment: None }
    }
}

impl Line {
    /// A copy of the line for a frame: its spans, in order.
    pub fn snapshot(&self) -> (r: LineRender)
        ensures
            r@ == self@,
            r.alignment is None,
    {
        let mut spans: Vec<SpanRender> = Vec::new();
        let mut i: usize = 0;
        while i < self.spans.len()
            invariant
                i <= self.spans.len(),
                spans@.len() == i,
                forall|k: int| 0 <= k < i ==> (#[trigger] spans@[k])@ == self.spans@[k]@,
            decreases self.spans.len() - i,
        {
            spans.push(self.spans[i].snapshot());
            i += 1;
        }
        let r = LineRender { spans, alignment: None };
        assert(r@ =~= self@);
        r
    }
}

impl Text {
    /// A copy of the text for a frame: the lines that are on screen, each
    /// with its number.
    pub fn snapshot(&self) -> (r: TextRender)
        ensures
            r@ == self@.frame(),
    {
        let len: usize = self.lines.len();
        let first: usize = if self.scroll_offset <= len { self.scroll_offset } else { len };
        let reach: usize = self.scroll_offset.saturating_add(self.height);
        let end: usize = if reach <= len { reach } else { len };
        let mut lines: Vec<(LineNumber, LineRender)> = Vec::new();
        let mut i: usize = first;
        while i < end
            invariant
                first <= i <= end <= len,
                len == self.lines@.len(),
                first == self@.first_shown(),
                end == self@.end_shown(),
                lines@.len() == i - first,
                forall|k: int|
                    0 <= k < i - first ==> (#[trigger] lines@[k]).0.number() == first + k + 1
                        && lines@[k].0.label() == decimal((first + k + 1) as nat) && lines@[k].1@
                        == self.lines@[first + k]@,
            decreases end - i,
        {
            lines.push((LineNumber::new(i + 1), self.lines[i].snapshot()));
            i += 1;
        }
        let r = TextRender { lines, alignment: self.alignment };
        assert(r@.lines =~= self@.frame().lines);
        r
    }
}

impl WindowChild {
    /// A copy of the child for a frame.
    pub fn snapshot(&self) -> (r: ChildRender)
        ensures
            r.model() == self@.frame(),
        decreases self,
    {
        match self {
            WindowChild::Window(w) => ChildRender::Window(w.snapshot()),
            WindowChild::Text(t) => ChildRender::Text(t.snapshot()),
        }
    }
}

impl Window {
    /// A copy of the window for a frame: the copies of its children, in
    /// order.
    pub fn snapshot(&self) -> (r: WindowRender)
        ensures
            r@ == self@.frame(),
        decreases self,
    {
        let mut children: Vec<ChildRender> = Vec::new();
        let mut i: usize = 0;
        while i < self.children.len()
            invariant
                i <= self.children.len(),
                children@.len() == i,
                forall|k: int|
                    0 <= k < i ==> (#[trigger] children@[k]).model() == self.children@[k]@.frame(),
            decreases self.children.len() - i,
        {
            children.push(self.children[i].snapshot());
            i += 1;
        }
        let r = WindowRender { split_dir: self.split_dir, children };
        assert(r@.children =~= self@.frame().children);
        r
    }
}

impl Root {
    /// A copy of the whole tree for a frame. The frame owns what it holds:
    /// nothing done to the tree later reaches it.
    pub fn snapshot(&self) -> (r: WindowRender)
        ensures
            r@ == self@.frame(),
    {
        let mut children: Vec<ChildRender> = Vec::new();
        let mut i: usize = 0;
        while i < self.children.len()
            invariant
                i <= self.children.len(),
                children@.len() == i,
                forall|k: int|
                    0 <= k < i ==> (#[trigger] children@[k]).model() == ChildFrame::Window(
                        self.children@[k]@.frame(),
                    ),
            decreases self.children.len() - i,
        {
            children.push(ChildRender::Window(self.children[i].snapshot()));
            i += 1;
        }
        let r = WindowRender { split_dir: self.split_dir, children };
        assert(r@.children =~= self@.frame().children);
        r
    }
}

/// Two frames taken of one tree hold the same: windows, texts, lines,
/// characters, styles and the digits of the line numbers.
pub proof fn lemma_snapshot_deterministic(root: Root, first: WindowRender, second: WindowRender)
    requires
        first@ == root@.frame(),
        second@ == root@.frame(),
    ensures
        first@ == second@,
{
}

impl WindowRender {
    /// The way the window lays out its children.
    pub fn split_dir(&self) -> (d: SplitDirection)
        ensures
            d == self@.split_dir,
    {
        self.split_dir
    }

    /// The number of children.
    pub fn len(&self) -> (n: usize)
        ensures
            n == self@.children.len(),
    {
        self.children.len()
    }

    /// The child at `index`, if there is one.
    pub fn child(&self, index: usize) -> (r: Option<&ChildRender>)
        ensures
            index < self@.children.len() ==> (r matches Some(c) && c.model()
                == self@.children[index as int]),
            index >= self@.children.len() ==> r is None,
    {
        if index < self.children.len() {
            Some(&self.children[index])
        } else {
            None
        }
    }
}

/// A node of the tree as the builder of frames sees it. The copy of a
/// node depends on that node alone, so a builder may copy the children of
/// a node in any order, or side by side, and put the copies in the order
/// of the children.
pub trait AsyncWidget: Sized {
    /// The copy of the node in a frame.
    type Render;

    /// Whether `r` is the copy of the node for a frame.
    spec fn renders(&self, r: &Self::Render) -> bool;

    /// Whether `after` is the node with the cursor's look put on, or
    /// taken off, as far as a node of this kind carries it: characters,
    /// spans and lines do, texts and windows do not.
    spec fn relit(&self, after: &Self, on: bool) -> bool;

    /// Copies the node for a frame.
    fn async_render(&self) -> (r: Self::Render)
        ensures
            self.renders(&r),
    ;

    /// Puts the cursor's look on the node.
    fn highlight(&mut self)
        ensures
            old(self).relit(final(self), true),
    ;

    /// Takes the cursor's look off the node.
    fn no_highlight(&mut self)
        ensures
            old(self).relit(final(self), false),
    ;
}

impl AsyncWidget for Char {
    type Render = Char;

    open spec fn renders(&self, r: &Char) -> bool {
        *r == *self
    }

    open spec fn relit(&self, after: &Char, on: bool) -> bool {
        *after == self.spec_lit(on)
    }

    fn async_render(&self) -> (r: Char) {
        self.snapshot()
    }

    fn highlight(&mut self) {
        Char::set_highlight(self, true);
    }

    fn no_highlight(&mut self) {
        Char::set_highlight(self, false);
    }
}

impl AsyncWidget for Span {
    type Render = SpanRender;

    open spec fn renders(&self, r: &SpanRender) -> bool {
        r@ == self@ && r.alignment is None
    }

    open spec fn relit(&self, after: &Span, on: bool) -> bool {
        after@ == self@.map_values(|c: Char| c.spec_lit(on))
    }

    fn async_render(&self) -> (r: SpanRender) {
        self.snapshot()
    }

    fn highlight(&mut self) {
        Span::set_highlight(self, true);
    }

    fn no_highlight(&mut self) {
        Span::set_highlight(self, false);
    }
}

impl AsyncWidget for Line {
    type Render = LineRender;

    open spec fn renders(&self, r: &LineRender) -> bool {
        r@ == self@ && r.alignment is None
    }

    open spec fn relit(&self, after: &Line, on: bool) -> bool {
        after@ == line_lit(self@, on)
    }

    fn async_render(&self) -> (r: LineRender) {
        self.snapshot()
    }

    fn highlight(&mut self) {
        Line::set_highlight(self, true);
    }

    fn no_highlight(&mut self) {
        Line::set_highlight(self, false);
    }
}

impl AsyncWidget for Text {
    type Render = TextRender;

    open spec fn renders(&self, r: &TextRender) -> bool {
        r@ == self@.frame()
    }

    open spec fn relit(&self, after: &Text, on: bool) -> bool {
        *after == *self
    }

    fn async_render(&self) -> (r: TextRender) {
        self.snapshot()
    }

    fn highlight(&mut self) {
    }

    fn no_highlight(&mut self) {
    }
}

impl AsyncWidget for Window {
    type Render = WindowRender;

    open spec fn renders(&self, r: &WindowRender) -> bool {
        r@ == self@.frame()
    }

    open spec fn relit(&self, after: &Window, on: bool) -> bool {
        *after == *self
    }

    fn async_render(&self) -> (r: WindowRender) {
        self.snapshot()
    }

    fn highlight(&mut self) {
    }

    fn no_highlight(&mut self) {
    }
}

impl AsyncWidget for Root {
    type Render = WindowRender;

    open spec fn renders(&self, r: &WindowRender) -> bool {
        r@ == self@.frame()
    }

    open spec fn relit(&self, after: &Root, on: bool) -> bool {
        *after == *self
    }

    fn async_render(&self) -> (r: WindowRender) {
        self.snapshot()
    }

    fn highlight(&mut self) {
    }

    fn no_highlight(&mut self) {
    }
}

} // verus!

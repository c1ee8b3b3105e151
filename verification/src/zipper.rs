//! The cursor: one zipper for each kind of node. A zipper names the node
//! in focus by the way to it from the root, and remembers how many
//! siblings stand to its left and right and how many children it has.

use crate::address::{
    lemma_edit_node_at, lemma_move_shows, lemma_node_at_push, lemma_scroll_keeps_shows,
    lemma_shows_nowhere,
};
use crate::edit::{
    lemma_apply_keeps_shape, lemma_scroll_shows, lemma_total_len_same, Region, TextEdit,
};
use crate::geometry::Rect;
use crate::primatives::{
    clamp_child, held, lemma_window_view, total_len, Char, NodeKind, Root, RootModel, TextModel,
};
use vstd::prelude::*;

verus! {

/// The cursor on the root.
#[derive(Clone, Copy, Debug, PartialEq, Eq)]
pub struct RootZipper {
    pub area: Rect,
    pub children: usize,
}

/// What stands above a window: the root or a window.
#[derive(Debug, PartialEq, Eq)]
pub enum WindowParent {
    Root(RootZipper),
    Window(WindowZipper),
}

/// The cursor on a window.
#[derive(Debug, PartialEq, Eq)]
pub struct WindowZipper {
    pub area: Rect,
    pub parent: Box<WindowParent>,
    pub left: usize,
    pub right: usize,
    pub children: usize,
}

/// The cursor on a text.
#[derive(Debug, PartialEq, Eq)]
pub struct TextZipper {
    pub area: Rect,
    pub parent: WindowZipper,
    pub left: usize,
    pub right: usize,
    pub children: usize,
}

/// The cursor on a line.
#[derive(Debug, PartialEq, Eq)]
pub struct LineZipper {
    pub row: usize,
    pub parent: TextZipper,
    pub left: usize,
    pub right: usize,
    pub children: usize,
}

/// The cursor on a span. `column` counts the characters of the line that
/// stand before the span.
#[derive(Debug, PartialEq, Eq)]
pub struct SpanZipper {
    pub column: usize,
    pub parent: LineZipper,
    pub left: usize,
    pub right: usize,
    pub children: usize,
}

/// The cursor on a character. `column` counts the characters of the line
/// that stand before it.
#[derive(Debug, PartialEq, Eq)]
pub struct CharZipper {
    pub column: usize,
    pub parent: SpanZipper,
    pub left: usize,
    pub right: usize,
}

/// A cursor on a node of any kind.
#[derive(Debug, PartialEq, Eq)]
pub enum AnyZipper {
    Root(RootZipper),
    Window(WindowZipper),
    Text(TextZipper),
    Line(LineZipper),
    Span(SpanZipper),
    Char(CharZipper),
}

/// The zipper that a move hands out: a cursor on a node of whatever kind
/// the move came to.
pub type DynZipper = AnyZipper;

impl RootZipper {
    /// Whether the zipper remembers the root of this tree.
    pub open spec fn wf(self, root: RootModel) -> bool {
        self.children == root.children.len()
    }

    /// The zipper on the root of `root`.
    pub open spec fn spec_new(root: RootModel) -> RootZipper {
        RootZipper { area: root.area, children: root.children.len() as usize }
    }
}

impl WindowParent {
    /// The way from the root to the node.
    pub open spec fn route(self) -> Seq<usize>
        decreases self,
    {
        match self {
            WindowParent::Root(_) => Seq::empty(),
            WindowParent::Window(w) => w.route(),
        }
    }

    /// The number of children remembered.
    pub open spec fn count(self) -> usize {
        match self {
            WindowParent::Root(r) => r.children,
            WindowParent::Window(w) => w.children,
        }
    }

    /// The area remembered.
    pub open spec fn area(self) -> Rect {
        match self {
            WindowParent::Root(r) => r.area,
            WindowParent::Window(w) => w.area,
        }
    }

    /// Whether the zipper and all above it remember this tree.
    pub open spec fn wf(self, root: RootModel) -> bool
        decreases self,
    {
        match self {
            WindowParent::Root(r) => r.wf(root),
            WindowParent::Window(w) => w.wf(root),
        }
    }

    /// The zipper as a cursor on a node of any kind.
    pub open spec fn any(self) -> AnyZipper {
        match self {
            WindowParent::Root(r) => AnyZipper::Root(r),
            WindowParent::Window(w) => AnyZipper::Window(w),
        }
    }
}

impl WindowZipper {
    /// The way from the root to the window: the index of each node on it
    /// among its siblings.
    pub open spec fn route(self) -> Seq<usize>
        decreases self,
    {
        self.parent.route().push(self.left)
    }

    /// Whether the zipper and all above it remember this tree: the way
    /// leads to a window, with as many children and siblings as
    /// remembered.
    pub open spec fn wf(self, root: RootModel) -> bool
        decreases self,
    {
        &&& self.parent.wf(root)
        &&& self.left + 1 + self.right == self.parent.count()
        &&& self.area == self.parent.area()
        &&& root.window_at(self.route()) is Some
        &&& root.window_at(self.route())->0.children.len() == self.children
    }

    /// The zipper on the child of `parent` that `index` reaches.
    pub open spec fn spec_new(index: usize, parent: WindowParent, root: RootModel) -> WindowZipper {
        let i = clamp_child(index as int, parent.count() as int) as usize;
        WindowZipper {
            area: parent.area(),
            parent: Box::new(parent),
            left: i,
            right: (parent.count() - 1 - i) as usize,
            children: root.window_at(parent.route().push(i))->0.children.len() as usize,
        }
    }
}

impl TextZipper {
    /// The way from the root to the text.
    pub open spec fn route(self) -> Seq<usize> {
        self.parent.route().push(self.left)
    }

    /// Whether the zipper and all above it remember this tree.
    pub open spec fn wf(self, root: RootModel) -> bool {
        &&& self.parent.wf(root)
        &&& self.left + 1 + self.right == self.parent.children
        &&& self.area == self.parent.area
        &&& root.text_at(self.route()) is Some
        &&& root.text_at(self.route())->0.lines.len() == self.children
    }

    /// The text in focus.
    pub open spec fn text(self, root: RootModel) -> TextModel {
        root.text_at(self.route())->0
    }

    /// The zipper on the child of `parent` that `index` reaches.
    pub open spec fn spec_new(index: usize, parent: WindowZipper, root: RootModel) -> TextZipper {
        let i = clamp_child(index as int, parent.children as int) as usize;
        TextZipper {
            area: parent.area,
            parent,
            left: i,
            right: (parent.children - 1 - i) as usize,
            children: root.text_at(parent.route().push(i))->0.lines.len() as usize,
        }
    }
}

impl LineZipper {
    /// Whether the zipper and all above it remember this tree.
    pub open spec fn wf(self, root: RootModel) -> bool {
        &&& self.parent.wf(root)
        &&& self.left + 1 + self.right == self.parent.children
        &&& self.row == self.left
        &&& self.parent.text(root).lines[self.left as int].len() == self.children
    }

    /// The line in focus.
    pub open spec fn line(self, root: RootModel) -> Seq<Seq<Char>> {
        self.parent.text(root).lines[self.left as int]
    }

    /// The zipper on the line of `parent` that `index` reaches.
    pub open spec fn spec_new(index: usize, parent: TextZipper, root: RootModel) -> LineZipper {
        let i = clamp_child(index as int, parent.children as int) as usize;
        LineZipper {
            row: i,
            parent,
            left: i,
            right: (parent.children - 1 - i) as usize,
            children: parent.text(root).lines[i as int].len() as usize,
        }
    }
}

impl SpanZipper {
    /// Whether the zipper and all above it remember this tree.
    pub open spec fn wf(self, root: RootModel) -> bool {
        &&& self.parent.wf(root)
        &&& self.left + 1 + self.right == self.parent.children
        &&& self.parent.line(root)[self.left as int].len() == self.children
        &&& self.column == held(total_len(self.parent.line(root).take(self.left as int)))
    }

    /// The zipper on the span of `parent` that `index` reaches.
    pub open spec fn spec_new(index: usize, parent: LineZipper, root: RootModel) -> SpanZipper {
        let i = clamp_child(index as int, parent.children as int) as usize;
        SpanZipper {
            column: held(total_len(parent.line(root).take(i as int))),
            parent,
            left: i,
            right: (parent.children - 1 - i) as usize,
            children: parent.line(root)[i as int].len() as usize,
        }
    }
}

impl CharZipper {
    /// Whether the zipper and all above it remember this tree.
    pub open spec fn wf(self, root: RootModel) -> bool {
        &&& self.parent.wf(root)
        &&& self.left + 1 + self.right == self.parent.children
        &&& self.column == held((self.parent.column + self.left) as nat)
    }

    /// The zipper on the character of `parent` that `index` reaches.
    pub open spec fn spec_new(index: usize, parent: SpanZipper) -> CharZipper {
        let i = clamp_child(index as int, parent.children as int) as usize;
        CharZipper {
            column: held((parent.column + i) as nat),
            parent,
            left: i,
            right: (parent.children - 1 - i) as usize,
        }
    }
}

impl AnyZipper {
    /// Whether the zipper and all above it remember this tree.
    pub open spec fn wf(self, root: RootModel) -> bool {
        match self {
            AnyZipper::Root(z) => z.wf(root),
            AnyZipper::Window(z) => z.wf(root),
            AnyZipper::Text(z) => z.wf(root),
            AnyZipper::Line(z) => z.wf(root),
            AnyZipper::Span(z) => z.wf(root),
            AnyZipper::Char(z) => z.wf(root),
        }
    }

    /// The kind of the node in focus.
    pub open spec fn spec_kind(&self) -> NodeKind {
        match self {
            AnyZipper::Root(_) => NodeKind::Root,
            AnyZipper::Window(_) => NodeKind::Window,
            AnyZipper::Text(_) => NodeKind::Text,
            AnyZipper::Line(_) => NodeKind::Line,
            AnyZipper::Span(_) => NodeKind::Span,
            AnyZipper::Char(_) => NodeKind::Char,
        }
    }

    /// The index of the node in focus among its siblings.
    pub open spec fn spec_index(&self) -> usize {
        match self {
            AnyZipper::Root(_) => 0,
            AnyZipper::Window(z) => z.left,
            AnyZipper::Text(z) => z.left,
            AnyZipper::Line(z) => z.left,
            AnyZipper::Span(z) => z.left,
            AnyZipper::Char(z) => z.left,
        }
    }

    /// The number of children remembered.
    pub open spec fn spec_children(&self) -> usize {
        match self {
            AnyZipper::Root(z) => z.children,
            AnyZipper::Window(z) => z.children,
            AnyZipper::Text(z) => z.children,
            AnyZipper::Line(z) => z.children,
            AnyZipper::Span(z) => z.children,
            AnyZipper::Char(_) => 0,
        }
    }

    /// The number of siblings remembered to the right.
    pub open spec fn spec_right_count(&self) -> usize {
        match self {
            AnyZipper::Root(_) => 0,
            AnyZipper::Window(z) => z.right,
            AnyZipper::Text(z) => z.right,
            AnyZipper::Line(z) => z.right,
            AnyZipper::Span(z) => z.right,
            AnyZipper::Char(z) => z.right,
        }
    }

    /// The index of the line that holds the focus, where the focus is a
    /// line, a span or a character.
    pub open spec fn spec_row(&self) -> Option<usize> {
        match self {
            AnyZipper::Line(z) => Some(z.left),
            AnyZipper::Span(z) => Some(z.parent.left),
            AnyZipper::Char(z) => Some(z.parent.parent.left),
            _ => None,
        }
    }

    /// The number of characters of the line that stand before the focus,
    /// where the focus is a span or a character.
    pub open spec fn spec_column(&self) -> Option<usize> {
        match self {
            AnyZipper::Span(z) => Some(z.column),
            AnyZipper::Char(z) => Some(z.column),
            _ => None,
        }
    }

    /// The way to the text that holds the focus, where the focus is a
    /// line, a span or a character.
    pub open spec fn text_route(self) -> Seq<usize> {
        match self {
            AnyZipper::Line(z) => z.parent.route(),
            AnyZipper::Span(z) => z.parent.parent.route(),
            AnyZipper::Char(z) => z.parent.parent.parent.route(),
            _ => Seq::empty(),
        }
    }

    /// The part of its text that the focus covers: a line, a span or a
    /// character. A text, a window and the root cover none.
    pub open spec fn region(self) -> Region {
        match self {
            AnyZipper::Line(z) => Region::Line(z.left),
            AnyZipper::Span(z) => Region::Span(z.parent.left, z.left),
            AnyZipper::Char(z) => Region::Char(z.parent.parent.left, z.parent.left, z.left),
            _ => Region::Nowhere,
        }
    }

    /// Whether the cursor's look is on the focus and nowhere else in the
    /// tree.
    pub open spec fn shown(self, root: RootModel) -> bool {
        root.shows(self.text_route(), self.region())
    }

    /// The edit that puts the cursor's look on the focus, or takes it off.
    pub open spec fn look(self, hl: bool) -> TextEdit {
        if hl {
            TextEdit::MoveCursor { from: Region::Nowhere, to: self.region() }
        } else {
            TextEdit::MoveCursor { from: self.region(), to: Region::Nowhere }
        }
    }

    /// The zipper one level up. The root is its own parent.
    pub open spec fn spec_parent(self) -> AnyZipper {
        match self {
            AnyZipper::Root(z) => AnyZipper::Root(z),
            AnyZipper::Window(z) => z.parent.any(),
            AnyZipper::Text(z) => AnyZipper::Window(z.parent),
            AnyZipper::Line(z) => AnyZipper::Text(z.parent),
            AnyZipper::Span(z) => AnyZipper::Line(z.parent),
            AnyZipper::Char(z) => AnyZipper::Span(z.parent),
        }
    }

    /// The zipper on the child that `index` reaches: the child at `index`,
    /// or the last one where `index` lies past it. A node without
    /// children stays in focus.
    pub open spec fn spec_child(self, root: RootModel, index: usize) -> AnyZipper {
        if self.spec_children() == 0 {
            self
        } else {
            match self {
                AnyZipper::Root(z) => AnyZipper::Window(
                    WindowZipper::spec_new(index, WindowParent::Root(z), root),
                ),
                AnyZipper::Window(z) => {
                    let i = clamp_child(index as int, z.children as int) as usize;
                    if root.window_at(z.route().push(i)) is Some {
                        AnyZipper::Window(
                            WindowZipper::spec_new(index, WindowParent::Window(z), root),
                        )
                    } else {
                        AnyZipper::Text(TextZipper::spec_new(index, z, root))
                    }
                },
                AnyZipper::Text(z) => AnyZipper::Line(LineZipper::spec_new(index, z, root)),
                AnyZipper::Line(z) => AnyZipper::Span(SpanZipper::spec_new(index, z, root)),
                AnyZipper::Span(z) => AnyZipper::Char(CharZipper::spec_new(index, z)),
                AnyZipper::Char(z) => AnyZipper::Char(z),
            }
        }
    }

    /// The zipper on the sibling to the left. The first sibling, and the
    /// root, stay in focus.
    pub open spec fn spec_left(self, root: RootModel) -> AnyZipper {
        if self is Root || self.spec_index() == 0 {
            self
        } else {
            self.spec_parent().spec_child(root, (self.spec_index() - 1) as usize)
        }
    }

    /// The zipper on the sibling to the right. The last sibling, and the
    /// root, stay in focus.
    pub open spec fn spec_right(self, root: RootModel) -> AnyZipper {
        if self is Root || self.spec_right_count() == 0 {
            self
        } else {
            self.spec_parent().spec_child(root, (self.spec_index() + 1) as usize)
        }
    }

    /// Whether the move to `to` comes to a line from its text or from
    /// another line: such a move scrolls the line on screen.
    pub open spec fn scrolls(self, to: AnyZipper) -> bool {
        to is Line && (self is Text || self is Line)
    }

    /// The tree after the focus moved to `to`: where the focus stays,
    /// so does the tree; else the cursor's look is taken off the old
    /// focus and put on the new one, and a line newly come to is scrolled
    /// on screen. Nothing else changes.
    pub open spec fn tree_after(self, root: RootModel, to: AnyZipper) -> RootModel {
        if to == self {
            root
        } else {
            let tp = if to is Line || to is Span || to is Char {
                to.text_route()
            } else {
                self.text_route()
            };
            let scrolled = if self.scrolls(to) {
                root.edit_text(tp, TextEdit::ScrollTo(to.spec_index()))
            } else {
                root
            };
            scrolled.edit_text(tp, TextEdit::MoveCursor { from: self.region(), to: to.region() })
        }
    }

    /// Whether the line that holds the focus lies in the window of lines
    /// that is on screen, where that window is not empty. It holds of
    /// every focus that no line holds.
    pub open spec fn row_on_screen(self, root: RootModel) -> bool {
        match self.spec_row() {
            Some(l) => root.text_at(self.text_route())->0.height > 0 ==> root.text_at(
                self.text_route(),
            )->0.on_screen(l as int),
            None => true,
        }
    }

    /// Whether the line in focus lies in the window of lines that is on
    /// screen, where that window is not empty. It holds of every focus
    /// that is no line.
    pub open spec fn focus_on_screen(self, root: RootModel) -> bool {
        match self {
            AnyZipper::Line(z) => z.parent.text(root).height > 0 ==> z.parent.text(root).on_screen(
                z.left as int,
            ),
            _ => true,
        }
    }
}

/// A cursor together with the tree it stands in.
pub ghost struct Focus {
    pub zipper: AnyZipper,
    pub tree: RootModel,
}

impl Focus {
    /// Whether the zipper remembers the tree.
    pub open spec fn wf(self) -> bool {
        self.zipper.wf(self.tree)
    }

    /// Whether the cursor's look is on the focus and nowhere else.
    pub open spec fn shown(self) -> bool {
        self.zipper.shown(self.tree)
    }

    /// After the move to `to`.
    pub open spec fn at(self, to: AnyZipper) -> Focus {
        Focus { zipper: to, tree: self.zipper.tree_after(self.tree, to) }
    }

    /// After the move to the parent.
    pub open spec fn up(self) -> Focus {
        self.at(self.zipper.spec_parent())
    }

    /// After the move to the child that `index` reaches.
    pub open spec fn down(self, index: usize) -> Focus {
        self.at(self.zipper.spec_child(self.tree, index))
    }

    /// After the move to the sibling on the left.
    pub open spec fn left(self) -> Focus {
        self.at(self.zipper.spec_left(self.tree))
    }

    /// After the move to the sibling on the right.
    pub open spec fn right(self) -> Focus {
        self.at(self.zipper.spec_right(self.tree))
    }

    /// After the move one character to the left, across the edge of a
    /// span. A focus that is no character stays.
    pub open spec fn left_or_cousin(self) -> Focus {
        match self.zipper {
            AnyZipper::Char(c) => self.at(c.spec_left_or_cousin(self.tree)),
            _ => self,
        }
    }

    /// After the move one character to the right, across the edge of a
    /// span. A focus that is no character stays.
    pub open spec fn right_or_cousin(self) -> Focus {
        match self.zipper {
            AnyZipper::Char(c) => self.at(c.spec_right_or_cousin(self.tree)),
            _ => self,
        }
    }
}

impl RootZipper {
    /// An edit of a text leaves the zipper's memory true.
    pub proof fn lemma_wf_edit(self, root: RootModel, tp: Seq<usize>, e: TextEdit)
        requires
            self.wf(root),
        ensures
            self.wf(root.edit_text(tp, e)),
    {
        lemma_edit_node_at(root, tp, e, Seq::empty());
    }
}

impl WindowParent {
    /// An edit of a text leaves the zipper's memory true.
    pub proof fn lemma_wf_edit(self, root: RootModel, tp: Seq<usize>, e: TextEdit)
        requires
            self.wf(root),
        ensures
            self.wf(root.edit_text(tp, e)),
        decreases self,
    {
        match self {
            WindowParent::Root(r) => r.lemma_wf_edit(root, tp, e),
            WindowParent::Window(w) => w.lemma_wf_edit(root, tp, e),
        }
    }
}

impl WindowZipper {
    /// An edit of a text leaves the zipper's memory true.
    pub proof fn lemma_wf_edit(self, root: RootModel, tp: Seq<usize>, e: TextEdit)
        requires
            self.wf(root),
        ensures
            self.wf(root.edit_text(tp, e)),
        decreases self,
    {
        self.parent.lemma_wf_edit(root, tp, e);
        lemma_edit_node_at(root, tp, e, self.route());
    }
}

impl TextZipper {
    /// An edit of a text leaves the zipper's memory true, and reaches the
    /// text in focus only where it is the text edited.
    pub proof fn lemma_wf_edit(self, root: RootModel, tp: Seq<usize>, e: TextEdit)
        requires
            self.wf(root),
        ensures
            self.wf(root.edit_text(tp, e)),
            self.text(root.edit_text(tp, e)) == if self.route() == tp {
                self.text(root).apply(e)
            } else {
                self.text(root)
            },
    {
        self.parent.lemma_wf_edit(root, tp, e);
        lemma_edit_node_at(root, tp, e, self.route());
        lemma_apply_keeps_shape(self.text(root), e);
    }
}

impl LineZipper {
    /// An edit that leaves every character in its place leaves the
    /// zipper's memory true.
    pub proof fn lemma_wf_edit(self, root: RootModel, tp: Seq<usize>, e: TextEdit)
        requires
            self.wf(root),
            e.keeps_shape(),
        ensures
            self.wf(root.edit_text(tp, e)),
            self.parent.text(root.edit_text(tp, e)).same_shape(self.parent.text(root)),
    {
        self.parent.lemma_wf_edit(root, tp, e);
        lemma_apply_keeps_shape(self.parent.text(root), e);
        let t = self.parent.text(root);
        let u = self.parent.text(root.edit_text(tp, e));
        assert(u.same_shape(t));
        assert(u.lines[self.left as int].len() == t.lines[self.left as int].len());
    }
}

impl SpanZipper {
    /// An edit that leaves every character in its place leaves the
    /// zipper's memory true.
    pub proof fn lemma_wf_edit(self, root: RootModel, tp: Seq<usize>, e: TextEdit)
        requires
            self.wf(root),
            e.keeps_shape(),
        ensures
            self.wf(root.edit_text(tp, e)),
    {
        self.parent.lemma_wf_edit(root, tp, e);
        let t = self.parent.parent.text(root);
        let u = self.parent.parent.text(root.edit_text(tp, e));
        let l = self.parent.left as int;
        assert(u.same_shape(t));
        assert(u.lines[l].len() == t.lines[l].len());
        assert forall|i: int| 0 <= i < u.lines[l].len() implies (#[trigger] u.lines[l][i]).len()
            == t.lines[l][i].len() by {}
        lemma_total_len_same(u.lines[l], t.lines[l], self.left as int);
    }
}

impl CharZipper {
    /// An edit that leaves every character in its place leaves the
    /// zipper's memory true.
    pub proof fn lemma_wf_edit(self, root: RootModel, tp: Seq<usize>, e: TextEdit)
        requires
            self.wf(root),
            e.keeps_shape(),
        ensures
            self.wf(root.edit_text(tp, e)),
    {
        self.parent.lemma_wf_edit(root, tp, e);
    }
}

impl AnyZipper {
    /// An edit that leaves every character in its place leaves the
    /// zipper's memory true.
    pub proof fn lemma_wf_edit(self, root: RootModel, tp: Seq<usize>, e: TextEdit)
        requires
            self.wf(root),
            e.keeps_shape(),
        ensures
            self.wf(root.edit_text(tp, e)),
    {
        match self {
            AnyZipper::Root(z) => z.lemma_wf_edit(root, tp, e),
            AnyZipper::Window(z) => z.lemma_wf_edit(root, tp, e),
            AnyZipper::Text(z) => z.lemma_wf_edit(root, tp, e),
            AnyZipper::Line(z) => z.lemma_wf_edit(root, tp, e),
            AnyZipper::Span(z) => z.lemma_wf_edit(root, tp, e),
            AnyZipper::Char(z) => z.lemma_wf_edit(root, tp, e),
        }
    }
}

fn clamped(index: usize, len: usize) -> (i: usize)
    requires
        len > 0,
    ensures
        i == clamp_child(index as int, len as int),
        i < len,
{
    if index < len {
        index
    } else {
        len - 1
    }
}

impl RootZipper {
    /// The cursor on the root of `root`.
    pub fn new(root: &Root) -> (r: RootZipper)
        ensures
            r == RootZipper::spec_new(root@),
            r.wf(root@),
    {
        RootZipper { area: root.area, children: root.children.len() }
    }
}

impl WindowParent {
    /// The way from the root to the node.
    pub fn path(&self) -> (p: Vec<usize>)
        ensures
            p@ == self.route(),
        decreases self,
    {
        match self {
            WindowParent::Root(_) => Vec::new(),
            WindowParent::Window(w) => w.path(),
        }
    }

    /// The number of children remembered.
    pub fn children(&self) -> (n: usize)
        ensures
            n == self.count(),
    {
        match self {
            WindowParent::Root(r) => r.children,
            WindowParent::Window(w) => w.children,
        }
    }

    /// The area remembered.
    pub fn area_of(&self) -> (a: Rect)
        ensures
            a == self.area(),
    {
        match self {
            WindowParent::Root(r) => r.area,
            WindowParent::Window(w) => w.area,
        }
    }
}

impl WindowZipper {
    /// The way from the root to the window.
    pub fn path(&self) -> (p: Vec<usize>)
        ensures
            p@ == self.route(),
        decreases self,
    {
        let mut p = self.parent.path();
        p.push(self.left);
        p
    }

    /// The cursor on the child of `parent` that `index` reaches, which
    /// has to be a window.
    pub fn new(index: usize, parent: WindowParent, root: &Root) -> (r: WindowZipper)
        requires
            parent.wf(root@),
            parent.count() > 0,
            root@.window_at(
                parent.route().push(clamp_child(index as int, parent.count() as int) as usize),
            ) is Some,
        ensures
            r == WindowZipper::spec_new(index, parent, root@),
            r.wf(root@),
    {
        let n: usize = parent.children();
        let i: usize = clamped(index, n);
        let mut path = parent.path();
        path.push(i);
        let children: usize = match root.window_at(&path) {
            Some(w) => {
                proof {
                    lemma_window_view(*w);
                }
                w.children.len()
            },
            None => 0,
        };
        let area = parent.area_of();
        WindowZipper { area, parent: Box::new(parent), left: i, right: n - 1 - i, children }
    }
}

impl TextZipper {
    /// The way from the root to the text.
    pub fn path(&self) -> (p: Vec<usize>)
        ensures
            p@ == self.route(),
    {
        let mut p = self.parent.path();
        p.push(self.left);
        p
    }

    /// The cursor on the child of `parent` that `index` reaches, which
    /// has to be a text.
    pub fn new(index: usize, parent: WindowZipper, root: &Root) -> (r: TextZipper)
        requires
            parent.wf(root@),
            parent.children > 0,
            root@.text_at(
                parent.route().push(clamp_child(index as int, parent.children as int) as usize),
            ) is Some,
        ensures
            r == TextZipper::spec_new(index, parent, root@),
            r.wf(root@),
    {
        let n: usize = parent.children;
        let i: usize = clamped(index, n);
        let mut path = parent.path();
        path.push(i);
        let children: usize = match root.text_at(&path) {
            Some(t) => t.lines.len(),
            None => 0,
        };
        TextZipper { area: parent.area, parent, left: i, right: n - 1 - i, children }
    }
}

impl LineZipper {
    /// The cursor on the line of `parent` that `index` reaches. The text
    /// is scrolled so that the line is on screen.
    pub fn new(index: usize, parent: TextZipper, root: &mut Root) -> (r: LineZipper)
        requires
            parent.wf(old(root)@),
            parent.children > 0,
        ensures
            r == LineZipper::spec_new(index, parent, old(root)@),
            final(root)@ == old(root)@.edit_text(parent.route(), TextEdit::ScrollTo(r.left)),
            r.wf(final(root)@),
            parent.text(final(root)@) == parent.text(old(root)@).scrolled_to(r.left as int),
            parent.text(final(root)@).height > 0 ==> parent.text(final(root)@).on_screen(
                r.left as int,
            ),
    {
        let n: usize = parent.children;
        let i: usize = clamped(index, n);
        let path = parent.path();
        let children: usize = match root.text_at(&path) {
            Some(t) => t.lines[i].spans.len(),
            None => 0,
        };
        root.edit_text(&path, TextEdit::ScrollTo(i));
        proof {
            parent.lemma_wf_edit(old(root)@, path@, TextEdit::ScrollTo(i));
            lemma_scroll_shows(
                parent.text(old(root)@),
                i as int,
                Region::Nowhere,
            );
        }
        LineZipper { row: i, parent, left: i, right: n - 1 - i, children }
    }
}

impl SpanZipper {
    /// The cursor on the span of `parent` that `index` reaches.
    pub fn new(index: usize, parent: LineZipper, root: &Root) -> (r: SpanZipper)
        requires
            parent.wf(root@),
            parent.children > 0,
        ensures
            r == SpanZipper::spec_new(index, parent, root@),
            r.wf(root@),
    {
        let n: usize = parent.children;
        let i: usize = clamped(index, n);
        let path = parent.parent.path();
        let (column, children): (usize, usize) = match root.text_at(&path) {
            Some(t) => {
                let line = &t.lines[parent.left];
                (line.prefix_len(i), line.spans[i].characters.len())
            },
            None => (0, 0),
        };
        SpanZipper { column, parent, left: i, right: n - 1 - i, children }
    }
}

impl CharZipper {
    /// The cursor on the character of `parent` that `index` reaches.
    pub fn new(index: usize, parent: SpanZipper, root: &Root) -> (r: CharZipper)
        requires
            parent.wf(root@),
            parent.children > 0,
        ensures
            r == CharZipper::spec_new(index, parent),
            r.wf(root@),
    {
        let n: usize = parent.children;
        let i: usize = clamped(index, n);
        CharZipper { column: parent.column.saturating_add(i), parent, left: i, right: n - 1 - i }
    }
}

/// Moves the cursor's look within the text at `tp`.
fn move_look(root: &mut Root, tp: &Vec<usize>, from: Region, to: Region)
    ensures
        final(root)@ == old(root)@.edit_text(tp@, TextEdit::MoveCursor { from, to }),
        old(root)@.shows(tp@, from) ==> final(root)@.shows(tp@, to),
        old(root)@.text_at(tp@) matches Some(t) ==> (final(root)@.text_at(tp@) matches Some(u)
            && u.scroll_offset == t.scroll_offset && u.height == t.height),
{
    root.edit_text(tp, TextEdit::MoveCursor { from, to });
    proof {
        if old(root)@.shows(tp@, from) {
            lemma_move_shows(old(root)@, tp@, from, to);
        }
        if old(root)@.text_at(tp@) is Some {
            lemma_edit_node_at(old(root)@, tp@, TextEdit::MoveCursor { from, to }, tp@);
            lemma_apply_keeps_shape(
                old(root)@.text_at(tp@)->0,
                TextEdit::MoveCursor { from, to },
            );
        }
    }
}

/// The four moves of a cursor. Each hands out the zipper moved to and
/// leaves the one moved from. Each is total: at an edge the cursor stays
/// where it is. Each takes the cursor's look off the old focus and puts it
/// on the new one, and changes nothing else in the tree but the scroll
/// offset of a text whose line comes into focus.
pub trait Zipper: Sized {
    /// The zipper as a cursor on a node of any kind.
    spec fn any(self) -> AnyZipper;

    /// Puts the cursor's look on the focus, or takes it off.
    fn highlight(&self, root: &mut Root, hl: bool)
        requires
            self.any().wf(old(root)@),
        ensures
            final(root)@ == old(root)@.edit_text(self.any().text_route(), self.any().look(hl)),
            self.any().wf(final(root)@),
    ;

    /// Moves to the parent. The root is its own parent.
    fn parent(&self, root: &mut Root) -> (r: AnyZipper)
        requires
            self.any().wf(old(root)@),
        ensures
            r == self.any().spec_parent(),
            final(root)@ == self.any().tree_after(old(root)@, r),
            r.wf(final(root)@),
            self.any().shown(old(root)@) ==> r.shown(final(root)@),
            self.any().row_on_screen(old(root)@) ==> r.row_on_screen(final(root)@),
    ;

    /// Moves to the child at `index`, or to the last child where `index`
    /// lies past it. A node without children stays in focus.
    fn child(&self, root: &mut Root, index: usize) -> (r: AnyZipper)
        requires
            self.any().wf(old(root)@),
        ensures
            r == self.any().spec_child(old(root)@, index),
            final(root)@ == self.any().tree_after(old(root)@, r),
            r.wf(final(root)@),
            self.any().shown(old(root)@) ==> r.shown(final(root)@),
            self.any().row_on_screen(old(root)@) ==> r.row_on_screen(final(root)@),
            r != self.any() ==> r.focus_on_screen(final(root)@),
    ;

    /// Moves to the sibling on the left. The first sibling stays in
    /// focus.
    fn move_left(&self, root: &mut Root) -> (r: AnyZipper)
        requires
            self.any().wf(old(root)@),
        ensures
            r == self.any().spec_left(old(root)@),
            final(root)@ == self.any().tree_after(old(root)@, r),
            r.wf(final(root)@),
            self.any().shown(old(root)@) ==> r.shown(final(root)@),
            self.any().row_on_screen(old(root)@) ==> r.row_on_screen(final(root)@),
            r != self.any() ==> r.focus_on_screen(final(root)@),
    ;

    /// Moves to the sibling on the right. The last sibling stays in
    /// focus.
    fn move_right(&self, root: &mut Root) -> (r: AnyZipper)
        requires
            self.any().wf(old(root)@),
        ensures
            r == self.any().spec_right(old(root)@),
            final(root)@ == self.any().tree_after(old(root)@, r),
            r.wf(final(root)@),
            self.any().shown(old(root)@) ==> r.shown(final(root)@),
            self.any().row_on_screen(old(root)@) ==> r.row_on_screen(final(root)@),
            r != self.any() ==> r.focus_on_screen(final(root)@),
    ;
}

impl Zipper for RootZipper {
    open spec fn any(self) -> AnyZipper {
        AnyZipper::Root(self)
    }

    fn highlight(&self, root: &mut Root, hl: bool) {
    }

    fn parent(&self, root: &mut Root) -> (r: AnyZipper) {
        AnyZipper::Root(*self)
    }

    fn child(&self, root: &mut Root, index: usize) -> (r: AnyZipper) {
        if self.children == 0 {
            return AnyZipper::Root(*self);
        }
        proof {
            let i = clamp_child(index as int, self.children as int) as usize;
            lemma_node_at_push(root@, Seq::empty(), i);
        }
        AnyZipper::Window(WindowZipper::new(index, WindowParent::Root(*self), root))
    }

    fn move_left(&self, root: &mut Root) -> (r: AnyZipper) {
        AnyZipper::Root(*self)
    }

    fn move_right(&self, root: &mut Root) -> (r: AnyZipper) {
        AnyZipper::Root(*self)
    }
}

impl Zipper for WindowZipper {
    open spec fn any(self) -> AnyZipper {
        AnyZipper::Window(self)
    }

    fn highlight(&self, root: &mut Root, hl: bool) {
    }

    fn parent(&self, root: &mut Root) -> (r: AnyZipper) {
        match &*self.parent {
            WindowParent::Root(z) => AnyZipper::Root(*z),
            WindowParent::Window(z) => AnyZipper::Window(z.duplicate()),
        }
    }

    fn child(&self, root: &mut Root, index: usize) -> (r: AnyZipper) {
        if self.children == 0 {
            return AnyZipper::Window(self.duplicate());
        }
        let i: usize = clamped(index, self.children);
        let mut path = self.path();
        path.push(i);
        proof {
            lemma_node_at_push(root@, self.route(), i);
        }
        let window: bool = match root.window_at(&path) {
            Some(_) => true,
            None => false,
        };
        if window {
            let above = WindowParent::Window(self.duplicate());
            AnyZipper::Window(WindowZipper::new(index, above, root))
        } else {
            AnyZipper::Text(TextZipper::new(index, self.duplicate(), root))
        }
    }

    fn move_left(&self, root: &mut Root) -> (r: AnyZipper) {
        if self.left == 0 {
            return AnyZipper::Window(self.duplicate());
        }
        let index: usize = self.left - 1;
        match &*self.parent {
            WindowParent::Root(z) => z.child(root, index),
            WindowParent::Window(z) => z.child(root, index),
        }
    }

    fn move_right(&self, root: &mut Root) -> (r: AnyZipper) {
        if self.right == 0 {
            return AnyZipper::Window(self.duplicate());
        }
        let index: usize = self.left + 1;
        match &*self.parent {
            WindowParent::Root(z) => z.child(root, index),
            WindowParent::Window(z) => z.child(root, index),
        }
    }
}

impl Zipper for TextZipper {
    open spec fn any(self) -> AnyZipper {
        AnyZipper::Text(self)
    }

    fn highlight(&self, root: &mut Root, hl: bool) {
    }

    fn parent(&self, root: &mut Root) -> (r: AnyZipper) {
        AnyZipper::Window(self.parent.duplicate())
    }

    fn child(&self, root: &mut Root, index: usize) -> (r: AnyZipper) {
        if self.children == 0 {
            return AnyZipper::Text(self.duplicate());
        }
        let tp = self.path();
        let line = LineZipper::new(index, self.duplicate(), root);
        let ghost scrolled = root@;
        let to = Region::Line(line.left);
        move_look(root, &tp, Region::Nowhere, to);
        proof {
            let e = TextEdit::MoveCursor { from: Region::Nowhere, to };
            line.lemma_wf_edit(scrolled, tp@, e);
            line.parent.lemma_wf_edit(scrolled, tp@, e);
            lemma_apply_keeps_shape(line.parent.text(scrolled), e);
            if self.any().shown(old(root)@) {
                lemma_shows_nowhere(old(root)@, Seq::empty(), tp@);
                lemma_scroll_keeps_shows(old(root)@, tp@, line.left, tp@, Region::Nowhere);
            }
        }
        AnyZipper::Line(line)
    }

    fn move_left(&self, root: &mut Root) -> (r: AnyZipper) {
        if self.left == 0 {
            return AnyZipper::Text(self.duplicate());
        }
        let index: usize = self.left - 1;
        self.parent.child(root, index)
    }

    fn move_right(&self, root: &mut Root) -> (r: AnyZipper) {
        if self.right == 0 {
            return AnyZipper::Text(self.duplicate());
        }
        let index: usize = self.left + 1;
        self.parent.child(root, index)
    }
}

impl LineZipper {
    /// Moves to the line at `index` of the same text.
    fn to_line(&self, root: &mut Root, index: usize) -> (r: AnyZipper)
        requires
            self.wf(old(root)@),
            index != self.left,
            index < self.parent.children,
        ensures
            r == AnyZipper::Line(LineZipper::spec_new(index, self.parent, old(root)@)),
            final(root)@ == AnyZipper::Line(*self).tree_after(old(root)@, r),
            r.wf(final(root)@),
            AnyZipper::Line(*self).shown(old(root)@) ==> r.shown(final(root)@),
            r.row_on_screen(final(root)@),
            r.focus_on_screen(final(root)@),
    {
        let tp = self.parent.path();
        let from = Region::Line(self.left);
        let line = LineZipper::new(index, self.parent.duplicate(), root);
        let ghost scrolled = root@;
        let to = Region::Line(line.left);
        move_look(root, &tp, from, to);
        proof {
            let e = TextEdit::MoveCursor { from, to };
            line.lemma_wf_edit(scrolled, tp@, e);
            line.parent.lemma_wf_edit(scrolled, tp@, e);
            lemma_apply_keeps_shape(line.parent.text(scrolled), e);
            if AnyZipper::Line(*self).shown(old(root)@) {
                lemma_scroll_keeps_shows(old(root)@, tp@, line.left, tp@, from);
            }
        }
        AnyZipper::Line(line)
    }
}

impl Zipper for LineZipper {
    open spec fn any(self) -> AnyZipper {
        AnyZipper::Line(self)
    }

    fn highlight(&self, root: &mut Root, hl: bool) {
        let tp = self.parent.path();
        let region = Region::Line(self.left);
        if hl {
            move_look(root, &tp, Region::Nowhere, region);
        } else {
            move_look(root, &tp, region, Region::Nowhere);
        }
        proof {
            self.lemma_wf_edit(old(root)@, tp@, self.any().look(hl));
        }
    }

    fn parent(&self, root: &mut Root) -> (r: AnyZipper) {
        let tp = self.parent.path();
        let from = Region::Line(self.left);
        move_look(root, &tp, from, Region::Nowhere);
        proof {
            let e = TextEdit::MoveCursor { from, to: Region::Nowhere };
            self.parent.lemma_wf_edit(old(root)@, tp@, e);
            if self.any().shown(old(root)@) {
                lemma_shows_nowhere(root@, tp@, Seq::empty());
            }
        }
        AnyZipper::Text(self.parent.duplicate())
    }

    fn child(&self, root: &mut Root, index: usize) -> (r: AnyZipper) {
        if self.children == 0 {
            return AnyZipper::Line(self.duplicate());
        }
        let tp = self.parent.path();
        let from = Region::Line(self.left);
        let span = SpanZipper::new(index, self.duplicate(), root);
        let to = Region::Span(span.parent.left, span.left);
        move_look(root, &tp, from, to);
        proof {
            span.lemma_wf_edit(old(root)@, tp@, TextEdit::MoveCursor { from, to });
        }
        AnyZipper::Span(span)
    }

    fn move_left(&self, root: &mut Root) -> (r: AnyZipper) {
        if self.left == 0 {
            return AnyZipper::Line(self.duplicate());
        }
        let index: usize = self.left - 1;
        self.to_line(root, index)
    }

    fn move_right(&self, root: &mut Root) -> (r: AnyZipper) {
        if self.right == 0 {
            return AnyZipper::Line(self.duplicate());
        }
        let index: usize = self.left + 1;
        self.to_line(root, index)
    }
}

impl SpanZipper {
    /// Moves to the span at `index` of the same line.
    fn to_span(&self, root: &mut Root, index: usize) -> (r: AnyZipper)
        requires
            self.wf(old(root)@),
            index != self.left,
            index < self.parent.children,
        ensures
            r == AnyZipper::Span(SpanZipper::spec_new(index, self.parent, old(root)@)),
            final(root)@ == AnyZipper::Span(*self).tree_after(old(root)@, r),
            r.wf(final(root)@),
            AnyZipper::Span(*self).shown(old(root)@) ==> r.shown(final(root)@),
            AnyZipper::Span(*self).row_on_screen(old(root)@) ==> r.row_on_screen(final(root)@),
    {
        let tp = self.parent.parent.path();
        let from = Region::Span(self.parent.left, self.left);
        let span = SpanZipper::new(index, self.parent.duplicate(), root);
        let to = Region::Span(span.parent.left, span.left);
        move_look(root, &tp, from, to);
        proof {
            span.lemma_wf_edit(old(root)@, tp@, TextEdit::MoveCursor { from, to });
        }
        AnyZipper::Span(span)
    }
}

impl Zipper for SpanZipper {
    open spec fn any(self) -> AnyZipper {
        AnyZipper::Span(self)
    }

    fn highlight(&self, root: &mut Root, hl: bool) {
        let tp = self.parent.parent.path();
        let region = Region::Span(self.parent.left, self.left);
        if hl {
            move_look(root, &tp, Region::Nowhere, region);
        } else {
            move_look(root, &tp, region, Region::Nowhere);
        }
        proof {
            self.lemma_wf_edit(old(root)@, tp@, self.any().look(hl));
        }
    }

    fn parent(&self, root: &mut Root) -> (r: AnyZipper) {
        let tp = self.parent.parent.path();
        let from = Region::Span(self.parent.left, self.left);
        let to = Region::Line(self.parent.left);
        move_look(root, &tp, from, to);
        proof {
            self.parent.lemma_wf_edit(old(root)@, tp@, TextEdit::MoveCursor { from, to });
        }
        AnyZipper::Line(self.parent.duplicate())
    }

    fn child(&self, root: &mut Root, index: usize) -> (r: AnyZipper) {
        if self.children == 0 {
            return AnyZipper::Span(self.duplicate());
        }
        let tp = self.parent.parent.path();
        let from = Region::Span(self.parent.left, self.left);
        let ch = CharZipper::new(index, self.duplicate(), root);
        let to = Region::Char(ch.parent.parent.left, ch.parent.left, ch.left);
        move_look(root, &tp, from, to);
        proof {
            ch.lemma_wf_edit(old(root)@, tp@, TextEdit::MoveCursor { from, to });
        }
        AnyZipper::Char(ch)
    }

    fn move_left(&self, root: &mut Root) -> (r: AnyZipper) {
        if self.left == 0 {
            return AnyZipper::Span(self.duplicate());
        }
        let index: usize = self.left - 1;
        self.to_span(root, index)
    }

    fn move_right(&self, root: &mut Root) -> (r: AnyZipper) {
        if self.right == 0 {
            return AnyZipper::Span(self.duplicate());
        }
        let index: usize = self.left + 1;
        self.to_span(root, index)
    }
}

impl CharZipper {
    /// Moves to the character at `index` of the same span.
    fn to_char(&self, root: &mut Root, index: usize) -> (r: AnyZipper)
        requires
            self.wf(old(root)@),
            index != self.left,
            index < self.parent.children,
        ensures
            r == AnyZipper::Char(CharZipper::spec_new(index, self.parent)),
            final(root)@ == AnyZipper::Char(*self).tree_after(old(root)@, r),
            r.wf(final(root)@),
            AnyZipper::Char(*self).shown(old(root)@) ==> r.shown(final(root)@),
            AnyZipper::Char(*self).row_on_screen(old(root)@) ==> r.row_on_screen(final(root)@),
    {
        let tp = self.parent.parent.parent.path();
        let from = Region::Char(self.parent.parent.left, self.parent.left, self.left);
        let ch = CharZipper::new(index, self.parent.duplicate(), root);
        let to = Region::Char(ch.parent.parent.left, ch.parent.left, ch.left);
        move_look(root, &tp, from, to);
        proof {
            ch.lemma_wf_edit(old(root)@, tp@, TextEdit::MoveCursor { from, to });
        }
        AnyZipper::Char(ch)
    }
}

impl Zipper for CharZipper {
    open spec fn any(self) -> AnyZipper {
        AnyZipper::Char(self)
    }

    fn highlight(&self, root: &mut Root, hl: bool) {
        let tp = self.parent.parent.parent.path();
        let region = Region::Char(self.parent.parent.left, self.parent.left, self.left);
        if hl {
            move_look(root, &tp, Region::Nowhere, region);
        } else {
            move_look(root, &tp, region, Region::Nowhere);
        }
        proof {
            self.lemma_wf_edit(old(root)@, tp@, self.any().look(hl));
        }
    }

    fn parent(&self, root: &mut Root) -> (r: AnyZipper) {
        let tp = self.parent.parent.parent.path();
        let from = Region::Char(self.parent.parent.left, self.parent.left, self.left);
        let to = Region::Span(self.parent.parent.left, self.parent.left);
        move_look(root, &tp, from, to);
        proof {
            self.parent.lemma_wf_edit(old(root)@, tp@, TextEdit::MoveCursor { from, to });
        }
        AnyZipper::Span(self.parent.duplicate())
    }

    fn child(&self, root: &mut Root, index: usize) -> (r: AnyZipper) {
        AnyZipper::Char(self.duplicate())
    }

    fn move_left(&self, root: &mut Root) -> (r: AnyZipper) {
        if self.left == 0 {
            return AnyZipper::Char(self.duplicate());
        }
        let index: usize = self.left - 1;
        self.to_char(root, index)
    }

    fn move_right(&self, root: &mut Root) -> (r: AnyZipper) {
        if self.right == 0 {
            return AnyZipper::Char(self.duplicate());
        }
        let index: usize = self.left + 1;
        self.to_char(root, index)
    }
}

impl Zipper for AnyZipper {
    open spec fn any(self) -> AnyZipper {
        self
    }

    fn highlight(&self, root: &mut Root, hl: bool) {
        match self {
            AnyZipper::Root(z) => z.highlight(root, hl),
            AnyZipper::Window(z) => z.highlight(root, hl),
            AnyZipper::Text(z) => z.highlight(root, hl),
            AnyZipper::Line(z) => z.highlight(root, hl),
            AnyZipper::Span(z) => z.highlight(root, hl),
            AnyZipper::Char(z) => z.highlight(root, hl),
        }
    }

    fn parent(&self, root: &mut Root) -> (r: AnyZipper) {
        match self {
            AnyZipper::Root(z) => z.parent(root),
            AnyZipper::Window(z) => z.parent(root),
            AnyZipper::Text(z) => z.parent(root),
            AnyZipper::Line(z) => z.parent(root),
            AnyZipper::Span(z) => z.parent(root),
            AnyZipper::Char(z) => z.parent(root),
        }
    }

    fn child(&self, root: &mut Root, index: usize) -> (r: AnyZipper) {
        match self {
            AnyZipper::Root(z) => z.child(root, index),
            AnyZipper::Window(z) => z.child(root, index),
            AnyZipper::Text(z) => z.child(root, index),
            AnyZipper::Line(z) => z.child(root, index),
            AnyZipper::Span(z) => z.child(root, index),
            AnyZipper::Char(z) => z.child(root, index),
        }
    }

    fn move_left(&self, root: &mut Root) -> (r: AnyZipper) {
        match self {
            AnyZipper::Root(z) => z.move_left(root),
            AnyZipper::Window(z) => z.move_left(root),
            AnyZipper::Text(z) => z.move_left(root),
            AnyZipper::Line(z) => z.move_left(root),
            AnyZipper::Span(z) => z.move_left(root),
            AnyZipper::Char(z) => z.move_left(root),
        }
    }

    fn move_right(&self, root: &mut Root) -> (r: AnyZipper) {
        match self {
            AnyZipper::Root(z) => z.move_right(root),
            AnyZipper::Window(z) => z.move_right(root),
            AnyZipper::Text(z) => z.move_right(root),
            AnyZipper::Line(z) => z.move_right(root),
            AnyZipper::Span(z) => z.move_right(root),
            AnyZipper::Char(z) => z.move_right(root),
        }
    }
}

impl CharZipper {
    /// The zipper one character to the left, across the edge of the span
    /// where the focus is its first character: on the last character of
    /// the span before. Where there is neither, the focus stays.
    pub open spec fn spec_left_or_cousin(self, root: RootModel) -> AnyZipper {
        if self.left > 0 {
            AnyZipper::Char(CharZipper::spec_new((self.left - 1) as usize, self.parent))
        } else if self.parent.left > 0 && self.parent.parent.line(root)[self.parent.left
            - 1].len() > 0 {
            AnyZipper::Char(
                CharZipper::spec_new(
                    usize::MAX,
                    SpanZipper::spec_new(
                        (self.parent.left - 1) as usize,
                        self.parent.parent,
                        root,
                    ),
                ),
            )
        } else {
            AnyZipper::Char(self)
        }
    }

    /// The zipper one character to the right, across the edge of the span
    /// where the focus is its last character: on the first character of
    /// the span behind. Where there is neither, the focus stays.
    pub open spec fn spec_right_or_cousin(self, root: RootModel) -> AnyZipper {
        if self.right > 0 {
            AnyZipper::Char(CharZipper::spec_new((self.left + 1) as usize, self.parent))
        } else if self.parent.right > 0 && self.parent.parent.line(root)[self.parent.left
            + 1].len() > 0 {
            AnyZipper::Char(
                CharZipper::spec_new(
                    0,
                    SpanZipper::spec_new(
                        (self.parent.left + 1) as usize,
                        self.parent.parent,
                        root,
                    ),
                ),
            )
        } else {
            AnyZipper::Char(self)
        }
    }

    /// The number of characters of the span at `index` of the line in
    /// focus.
    fn span_len(&self, root: &Root, index: usize) -> (n: usize)
        requires
            self.wf(root@),
            index < self.parent.parent.children,
        ensures
            n == self.parent.parent.line(root@)[index as int].len(),
    {
        let tp = self.parent.parent.parent.path();
        match root.text_at(&tp) {
            Some(t) => t.lines[self.parent.parent.left].spans[index].characters.len(),
            None => 0,
        }
    }

    /// Moves to the character at `index` of the span at `span` of the
    /// same line.
    fn to_cousin(&self, root: &mut Root, span: usize, index: usize) -> (r: AnyZipper)
        requires
            self.wf(old(root)@),
            span != self.parent.left,
            span < self.parent.parent.children,
            self.parent.parent.line(old(root)@)[span as int].len() > 0,
        ensures
            r == AnyZipper::Char(
                CharZipper::spec_new(
                    index,
                    SpanZipper::spec_new(span, self.parent.parent, old(root)@),
                ),
            ),
            final(root)@ == AnyZipper::Char(*self).tree_after(old(root)@, r),
            r.wf(final(root)@),
            AnyZipper::Char(*self).shown(old(root)@) ==> r.shown(final(root)@),
            AnyZipper::Char(*self).row_on_screen(old(root)@) ==> r.row_on_screen(final(root)@),
    {
        let tp = self.parent.parent.parent.path();
        let from = Region::Char(self.parent.parent.left, self.parent.left, self.left);
        let aunt = SpanZipper::new(span, self.parent.parent.duplicate(), root);
        let ch = CharZipper::new(index, aunt, root);
        let to = Region::Char(ch.parent.parent.left, ch.parent.left, ch.left);
        move_look(root, &tp, from, to);
        proof {
            ch.lemma_wf_edit(old(root)@, tp@, TextEdit::MoveCursor { from, to });
        }
        AnyZipper::Char(ch)
    }

    /// Moves one character to the left, into the span before where the
    /// focus is the first character of its span.
    pub fn move_left_or_cousin(&self, root: &mut Root) -> (r: AnyZipper)
        requires
            self.wf(old(root)@),
        ensures
            r == self.spec_left_or_cousin(old(root)@),
            r is Char,
            final(root)@ == AnyZipper::Char(*self).tree_after(old(root)@, r),
            r.wf(final(root)@),
            AnyZipper::Char(*self).shown(old(root)@) ==> r.shown(final(root)@),
            AnyZipper::Char(*self).row_on_screen(old(root)@) ==> r.row_on_screen(final(root)@),
    {
        if self.left > 0 {
            let index: usize = self.left - 1;
            self.to_char(root, index)
        } else if self.parent.left > 0 {
            let span: usize = self.parent.left - 1;
            if self.span_len(root, span) > 0 {
                self.to_cousin(root, span, usize::MAX)
            } else {
                AnyZipper::Char(self.duplicate())
            }
        } else {
            AnyZipper::Char(self.duplicate())
        }
    }

    /// Moves one character to the right, into the span behind where the
    /// focus is the last character of its span.
    pub fn move_right_or_cousin(&self, root: &mut Root) -> (r: AnyZipper)
        requires
            self.wf(old(root)@),
        ensures
            r == self.spec_right_or_cousin(old(root)@),
            r is Char,
            final(root)@ == AnyZipper::Char(*self).tree_after(old(root)@, r),
            r.wf(final(root)@),
            AnyZipper::Char(*self).shown(old(root)@) ==> r.shown(final(root)@),
            AnyZipper::Char(*self).row_on_screen(old(root)@) ==> r.row_on_screen(final(root)@),
    {
        if self.right > 0 {
            let index: usize = self.left + 1;
            self.to_char(root, index)
        } else if self.parent.right > 0 {
            let span: usize = self.parent.left + 1;
            if self.span_len(root, span) > 0 {
                self.to_cousin(root, span, 0)
            } else {
                AnyZipper::Char(self.duplicate())
            }
        } else {
            AnyZipper::Char(self.duplicate())
        }
    }
}

impl WindowParent {
    /// A copy of the zipper.
    pub fn duplicate(&self) -> (r: WindowParent)
        ensures
            r == *self,
        decreases self,
    {
        match self {
            WindowParent::Root(z) => WindowParent::Root(*z),
            WindowParent::Window(z) => WindowParent::Window(z.duplicate()),
        }
    }
}

impl WindowZipper {
    /// A copy of the zipper.
    pub fn duplicate(&self) -> (r: WindowZipper)
        ensures
            r == *self,
        decreases self,
    {
        WindowZipper {
            area: self.area,
            parent: Box::new(self.parent.duplicate()),
            left: self.left,
            right: self.right,
            children: self.children,
        }
    }
}

impl TextZipper {
    /// A copy of the zipper.
    pub fn duplicate(&self) -> (r: TextZipper)
        ensures
            r == *self,
    {
        TextZipper {
            area: self.area,
            parent: self.parent.duplicate(),
            left: self.left,
            right: self.right,
            children: self.children,
        }
    }
}

impl LineZipper {
    /// A copy of the zipper.
    pub fn duplicate(&self) -> (r: LineZipper)
        ensures
            r == *self,
    {
        LineZipper {
            row: self.row,
            parent: self.parent.duplicate(),
            left: self.left,
            right: self.right,
            children: self.children,
        }
    }
}

impl SpanZipper {
    /// A copy of the zipper.
    pub fn duplicate(&self) -> (r: SpanZipper)
        ensures
            r == *self,
    {
        SpanZipper {
            column: self.column,
            parent: self.parent.duplicate(),
            left: self.left,
            right: self.right,
            children: self.children,
        }
    }
}

impl CharZipper {
    /// A copy of the zipper.
    pub fn duplicate(&self) -> (r: CharZipper)
        ensures
            r == *self,
    {
        CharZipper {
            column: self.column,
            parent: self.parent.duplicate(),
            left: self.left,
            right: self.right,
        }
    }
}

impl AnyZipper {
    /// A copy of the zipper.
    pub fn duplicate(&self) -> (r: AnyZipper)
        ensures
            r == *self,
    {
        match self {
            AnyZipper::Root(z) => AnyZipper::Root(*z),
            AnyZipper::Window(z) => AnyZipper::Window(z.duplicate()),
            AnyZipper::Text(z) => AnyZipper::Text(z.duplicate()),
            AnyZipper::Line(z) => AnyZipper::Line(z.duplicate()),
            AnyZipper::Span(z) => AnyZipper::Span(z.duplicate()),
            AnyZipper::Char(z) => AnyZipper::Char(z.duplicate()),
        }
    }

    /// The kind of the node in focus.
    pub fn kind(&self) -> (k: NodeKind)
        ensures
            k == self.spec_kind(),
    {
        match self {
            AnyZipper::Root(_) => NodeKind::Root,
            AnyZipper::Window(_) => NodeKind::Window,
            AnyZipper::Text(_) => NodeKind::Text,
            AnyZipper::Line(_) => NodeKind::Line,
            AnyZipper::Span(_) => NodeKind::Span,
            AnyZipper::Char(_) => NodeKind::Char,
        }
    }

    /// The index of the node in focus among its siblings.
    pub fn index_among_siblings(&self) -> (i: usize)
        ensures
            i == self.spec_index(),
    {
        match self {
            AnyZipper::Root(_) => 0,
            AnyZipper::Window(z) => z.left,
            AnyZipper::Text(z) => z.left,
            AnyZipper::Line(z) => z.left,
            AnyZipper::Span(z) => z.left,
            AnyZipper::Char(z) => z.left,
        }
    }

    /// The number of children of the node in focus.
    pub fn children(&self) -> (n: usize)
        ensures
            n == self.spec_children(),
    {
        match self {
            AnyZipper::Root(z) => z.children,
            AnyZipper::Window(z) => z.children,
            AnyZipper::Text(z) => z.children,
            AnyZipper::Line(z) => z.children,
            AnyZipper::Span(z) => z.children,
            AnyZipper::Char(_) => 0,
        }
    }

    /// The index of the line that holds the focus.
    pub fn row(&self) -> (r: Option<usize>)
        ensures
            r == self.spec_row(),
    {
        match self {
            AnyZipper::Line(z) => Some(z.left),
            AnyZipper::Span(z) => Some(z.parent.left),
            AnyZipper::Char(z) => Some(z.parent.parent.left),
            _ => None,
        }
    }

    /// The number of characters of the line that stand before the focus.
    pub fn column(&self) -> (r: Option<usize>)
        ensures
            r == self.spec_column(),
    {
        match self {
            AnyZipper::Span(z) => Some(z.column),
            AnyZipper::Char(z) => Some(z.column),
            _ => None,
        }
    }
}

/// Whether `left` and `right` siblings and the node between them are `n`
/// nodes.
fn siblings_are(left: usize, right: usize, n: usize) -> (b: bool)
    ensures
        b == (left + 1 + right == n),
{
    left < n && right == n - 1 - left
}

impl RootZipper {
    /// Whether the zipper remembers the root of this tree.
    pub fn remembers(&self, root: &Root) -> (b: bool)
        ensures
            b == self.wf(root@),
    {
        self.children == root.children.len()
    }
}

impl WindowParent {
    /// Whether the zipper and all above it remember this tree.
    pub fn remembers(&self, root: &Root) -> (b: bool)
        ensures
            b == self.wf(root@),
        decreases self,
    {
        match self {
            WindowParent::Root(z) => z.remembers(root),
            WindowParent::Window(z) => z.remembers(root),
        }
    }
}

impl WindowZipper {
    /// Whether the zipper and all above it remember this tree.
    pub fn remembers(&self, root: &Root) -> (b: bool)
        ensures
            b == self.wf(root@),
        decreases self,
    {
        if !self.parent.remembers(root) {
            return false;
        }
        if !siblings_are(self.left, self.right, self.parent.children()) {
            return false;
        }
        if self.area != self.parent.area_of() {
            return false;
        }
        let path = self.path();
        match root.window_at(&path) {
            Some(w) => {
                proof {
                    lemma_window_view(*w);
                }
                w.children.len() == self.children
            },
            None => false,
        }
    }
}

impl TextZipper {
    /// Whether the zipper and all above it remember this tree.
    pub fn remembers(&self, root: &Root) -> (b: bool)
        ensures
            b == self.wf(root@),
    {
        if !self.parent.remembers(root) {
            return false;
        }
        if !siblings_are(self.left, self.right, self.parent.children) {
            return false;
        }
        if self.area != self.parent.area {
            return false;
        }
        let path = self.path();
        match root.text_at(&path) {
            Some(t) => t.lines.len() == self.children,
            None => false,
        }
    }
}

impl LineZipper {
    /// Whether the zipper and all above it remember this tree.
    pub fn remembers(&self, root: &Root) -> (b: bool)
        ensures
            b == self.wf(root@),
    {
        if !self.parent.remembers(root) {
            return false;
        }
        if !siblings_are(self.left, self.right, self.parent.children) {
            return false;
        }
        if self.row != self.left {
            return false;
        }
        let path = self.parent.path();
        match root.text_at(&path) {
            Some(t) => t.lines[self.left].spans.len() == self.children,
            None => false,
        }
    }
}

impl SpanZipper {
    /// Whether the zipper and all above it remember this tree.
    pub fn remembers(&self, root: &Root) -> (b: bool)
        ensures
            b == self.wf(root@),
    {
        if !self.parent.remembers(root) {
            return false;
        }
        if !siblings_are(self.left, self.right, self.parent.children) {
            return false;
        }
        let path = self.parent.parent.path();
        match root.text_at(&path) {
            Some(t) => {
                let line = &t.lines[self.parent.left];
                line.spans[self.left].characters.len() == self.children && line.prefix_len(
                    self.left,
                ) == self.column
            },
            None => false,
        }
    }
}

impl CharZipper {
    /// Whether the zipper and all above it remember this tree.
    pub fn remembers(&self, root: &Root) -> (b: bool)
        ensures
            b == self.wf(root@),
    {
        if !self.parent.remembers(root) {
            return false;
        }
        if !siblings_are(self.left, self.right, self.parent.children) {
            return false;
        }
        self.column == self.parent.column.saturating_add(self.left)
    }
}

impl AnyZipper {
    /// Whether the zipper and all above it remember this tree: whether
    /// the way it names leads to a node of its kind, with as many
    /// children and siblings as it holds. A zipper made before the tree
    /// changed its shape may not.
    pub fn remembers(&self, root: &Root) -> (b: bool)
        ensures
            b == self.wf(root@),
    {
        match self {
            AnyZipper::Root(z) => z.remembers(root),
            AnyZipper::Window(z) => z.remembers(root),
            AnyZipper::Text(z) => z.remembers(root),
            AnyZipper::Line(z) => z.remembers(root),
            AnyZipper::Span(z) => z.remembers(root),
            AnyZipper::Char(z) => z.remembers(root),
        }
    }
}

} // verus!

//! What holds of every move of the cursor.

use crate::address::lemma_edit_node_at;
use crate::edit::{lemma_apply_keeps_shape, Region, TextEdit};
use crate::primatives::{clamp_child, ChildModel, NodeKind, RootModel, TextModel};
use crate::zipper::{AnyZipper, CharZipper, WindowParent};
use vstd::prelude::*;

verus! {

/// The level of a kind of node: the root is highest.
pub open spec fn level(k: NodeKind) -> int {
    match k {
        NodeKind::Root => 0,
        NodeKind::Window => 1,
        NodeKind::Text => 2,
        NodeKind::Line => 3,
        NodeKind::Span => 4,
        NodeKind::Char => 5,
    }
}

/// Every move comes to a node of the kind that the move calls for: the
/// parent of a window is a window or the root, the parent of any other
/// node is of the kind above it; a child is of the kind below, and a
/// window or a text below a window; a sibling of a window or a text is a
/// window or a text, and any other sibling is of the same kind. A move
/// that goes nowhere leaves the focus.
pub proof fn lemma_moves_reach_expected_kinds(z: AnyZipper, root: RootModel, index: usize)
    requires
        z.wf(root),
    ensures
        z is Root ==> z.spec_parent() == z,
        z is Window ==> z.spec_parent() is Window || z.spec_parent() is Root,
        level(z.spec_kind()) >= 2 ==> level(z.spec_parent().spec_kind()) == level(z.spec_kind())
            - 1,
        z.spec_child(root, index) == z || (z is Window && z.spec_child(root, index) is Text) || (
        z is Window && z.spec_child(root, index) is Window) || (level(
            z.spec_child(root, index).spec_kind(),
        ) == level(z.spec_kind()) + 1),
        z.spec_children() == 0 ==> z.spec_child(root, index) == z,
        z.spec_children() > 0 ==> z.spec_child(root, index).spec_index() == clamp_child(
            index as int,
            z.spec_children() as int,
        ),
        level(z.spec_kind()) >= 3 ==> z.spec_left(root).spec_kind() == z.spec_kind()
            && z.spec_right(root).spec_kind() == z.spec_kind(),
        level(z.spec_kind()) <= 2 ==> level(z.spec_left(root).spec_kind()) <= 2 && level(
            z.spec_right(root).spec_kind(),
        ) <= 2,
        z.spec_index() > 0 ==> z.spec_left(root).spec_index() == z.spec_index() - 1,
        z.spec_right_count() > 0 ==> z.spec_right(root).spec_index() == z.spec_index() + 1,
{
}

/// Up and down again: from any node but the root, the move to the parent
/// and then to the child at the node's own index comes back to the same
/// zipper, on the same node.
pub proof fn lemma_parent_child_round_trip(z: AnyZipper, root: RootModel)
    requires
        z.wf(root),
        !(z is Root),
    ensures
        z.spec_parent().spec_child(z.tree_after(root, z.spec_parent()), z.spec_index()) == z,
{
    let up = z.spec_parent();
    let after = z.tree_after(root, up);
    match z {
        AnyZipper::Root(_) => {},
        AnyZipper::Window(w) => {
            assert(after == root);
            assert(w.route() == w.parent.route().push(w.left));
            match *w.parent {
                WindowParent::Root(r) => {
                    assert(w.parent == Box::new(WindowParent::Root(r)));
                },
                WindowParent::Window(p) => {
                    assert(w.parent == Box::new(WindowParent::Window(p)));
                },
            }
        },
        AnyZipper::Text(t) => {
            assert(after == root);
        },
        AnyZipper::Line(l) => {
            let e = TextEdit::MoveCursor { from: z.region(), to: up.region() };
            l.parent.lemma_wf_edit(root, z.text_route(), e);
            l.lemma_wf_edit(root, z.text_route(), e);
        },
        AnyZipper::Span(s) => {
            let e = TextEdit::MoveCursor { from: z.region(), to: up.region() };
            s.lemma_wf_edit(root, z.text_route(), e);
        },
        AnyZipper::Char(c) => {},
    }
}

/// A move changes looks and scrolling and nothing else: every path leads
/// to a node of the same kind as before, a window with the same children,
/// a text with the same lines, spans and characters.
pub proof fn lemma_moves_keep_structure(z: AnyZipper, to: AnyZipper, root: RootModel, q: Seq<usize>)
    ensures
        z.tree_after(root, to).area == root.area,
        z.tree_after(root, to).split_dir == root.split_dir,
        z.tree_after(root, to).children.len() == root.children.len(),
        match root.node_at(q) {
            None => z.tree_after(root, to).node_at(q) is None,
            Some(ChildModel::Window(w)) => z.tree_after(root, to).node_at(q) is Some
                && ChildModel::Window(w).alike(z.tree_after(root, to).node_at(q)->0),
            Some(ChildModel::Text(t)) => z.tree_after(root, to).node_at(q) matches Some(
                ChildModel::Text(u),
            ) && u.same_shape(t),
        },
{
    if to != z {
        let tp = if to is Line || to is Span || to is Char {
            to.text_route()
        } else {
            z.text_route()
        };
        let first = TextEdit::ScrollTo(to.spec_index());
        let second = TextEdit::MoveCursor { from: z.region(), to: to.region() };
        let scrolled = if z.scrolls(to) {
            root.edit_text(tp, first)
        } else {
            root
        };
        lemma_edit_node_at(root, tp, first, q);
        lemma_edit_node_at(scrolled, tp, second, q);
        match root.node_at(q) {
            Some(ChildModel::Text(t)) => {
                lemma_apply_keeps_shape(t, first);
                lemma_apply_keeps_shape(t.apply(first), second);
                lemma_apply_keeps_shape(t, second);
                let mid = scrolled.node_at(q)->0->Text_0;
                let u = z.tree_after(root, to).node_at(q)->0->Text_0;
                assert(mid.same_shape(t));
                assert(u.same_shape(mid));
                assert forall|l: int, s: int, c: int| #[trigger]
                    u.has_char(l, s, c) implies u.lines[l][s][c].char
                    == t.lines[l][s][c].char by {
                    assert(mid.has_char(l, s, c));
                }
            },
            _ => {},
        }
    } else {
        match root.node_at(q) {
            Some(ChildModel::Text(t)) => {
                assert(t.same_shape(t));
            },
            _ => {},
        }
    }
}

/// Where the cursor's look is shown for a focus, a character of the tree
/// carries it if and only if it lies in the focus: every character of
/// the line or span in focus, the character in focus itself, and none
/// where a text, a window or the root is in focus.
pub proof fn lemma_look_is_on_the_focus(z: AnyZipper, root: RootModel)
    requires
        z.shown(root),
    ensures
        forall|q: Seq<usize>, l: int, s: int, c: int|
            root.text_at(q) is Some && #[trigger] root.text_at(q)->0.has_char(l, s, c) ==> (
            root.text_at(q)->0.lines[l][s][c].spec_is_lit() <==> q == z.text_route()
                && z.region().covers(l, s, c)),
{
    assert forall|q: Seq<usize>, l: int, s: int, c: int|
        root.text_at(q) is Some && #[trigger] root.text_at(q)->0.has_char(l, s, c) implies (
    root.text_at(q)->0.lines[l][s][c].spec_is_lit() <==> q == z.text_route() && z.region().covers(
        l,
        s,
        c,
    )) by {
        let t = root.text_at(q)->0;
        assert(t.shows(
            if q == z.text_route() {
                z.region()
            } else {
                Region::Nowhere
            },
        ));
    }
}

/// Where the cursor's look is shown for a character in focus, that
/// character carries it and no other character of the tree does.
pub proof fn lemma_one_character_lit(z: CharZipper, root: RootModel)
    requires
        AnyZipper::Char(z).shown(root),
    ensures
        forall|q: Seq<usize>, l: int, s: int, c: int|
            root.text_at(q) is Some && #[trigger] root.text_at(q)->0.has_char(l, s, c) ==> (
            root.text_at(q)->0.lines[l][s][c].spec_is_lit() <==> q == z.parent.parent.parent.route()
                && l == z.parent.parent.left && s == z.parent.left && c == z.left),
{
    lemma_look_is_on_the_focus(AnyZipper::Char(z), root);
}

impl TextModel {
    /// Whether a character of the span carries the cursor's look.
    pub open spec fn span_lit(self, l: int, s: int) -> bool {
        exists|c: int| #[trigger] self.has_char(l, s, c) && self.lines[l][s][c].spec_is_lit()
    }

    /// Whether a character of the line carries the cursor's look.
    pub open spec fn line_lit(self, l: int) -> bool {
        exists|s: int| #[trigger] self.span_lit(l, s)
    }

    /// Whether a character of the text carries the cursor's look.
    pub open spec fn text_lit(self) -> bool {
        exists|l: int| #[trigger] self.line_lit(l)
    }
}

/// With a character in focus, at each level one node holds the cursor's
/// look, and it is the node on the way to the focus: one text, one line
/// in it, one span in that, one character in that.
pub proof fn lemma_one_node_lit_per_level(z: CharZipper, root: RootModel)
    requires
        z.wf(root),
        AnyZipper::Char(z).shown(root),
    ensures
        forall|q: Seq<usize>| #[trigger]
            root.text_at(q) is Some ==> (root.text_at(q)->0.text_lit() <==> q
                == z.parent.parent.parent.route()),
        forall|q: Seq<usize>, l: int|
            root.text_at(q) is Some ==> (#[trigger] root.text_at(q)->0.line_lit(l) <==> q
                == z.parent.parent.parent.route() && l == z.parent.parent.left),
        forall|q: Seq<usize>, l: int, s: int|
            root.text_at(q) is Some ==> (#[trigger] root.text_at(q)->0.span_lit(l, s) <==> q
                == z.parent.parent.parent.route() && l == z.parent.parent.left && s
                == z.parent.left),
{
    lemma_one_character_lit(z, root);
    let tp = z.parent.parent.parent.route();
    let fl = z.parent.parent.left as int;
    let fs = z.parent.left as int;
    let fc = z.left as int;
    let focus = root.text_at(tp)->0;
    assert(focus.has_char(fl, fs, fc));
    assert(focus.lines[fl][fs][fc].spec_is_lit());
    assert(focus.span_lit(fl, fs));
    assert(focus.line_lit(fl));
    assert(focus.text_lit());
    assert forall|q: Seq<usize>, l: int, s: int| root.text_at(q) is Some implies (
    #[trigger] root.text_at(q)->0.span_lit(l, s) <==> q == tp && l == fl && s == fs) by {
        let t = root.text_at(q)->0;
        if t.span_lit(l, s) {
            let c = choose|c: int| #[trigger] t.has_char(l, s, c) && t.lines[l][s][c].spec_is_lit();
            assert(t.has_char(l, s, c));
        }
    }
    assert forall|q: Seq<usize>, l: int| root.text_at(q) is Some implies (#[trigger] root.text_at(
        q,
    )->0.line_lit(l) <==> q == tp && l == fl) by {
        let t = root.text_at(q)->0;
        if t.line_lit(l) {
            let s = choose|s: int| #[trigger] t.span_lit(l, s);
            assert(t.span_lit(l, s));
        }
    }
    assert forall|q: Seq<usize>| #[trigger] root.text_at(q) is Some implies (root.text_at(
        q,
    )->0.text_lit() <==> q == tp) by {
        let t = root.text_at(q)->0;
        if t.text_lit() {
            let l = choose|l: int| #[trigger] t.line_lit(l);
            assert(t.line_lit(l));
        }
    }
}

} // verus!

//! Paths into the tree: the node that a path leads to, the edit of the
//! text at the end of a path, and what such an edit does to the rest of
//! the tree.

use crate::edit::{lemma_move_cursor_shows, lemma_scroll_shows, Region, TextEdit};
use crate::primatives::{
    ChildModel, Root, RootModel, Text, TextModel, Window, WindowChild, WindowModel,
};
use vstd::prelude::*;

verus! {

impl WindowModel {
    /// The node that `p` leads to from this window: each step is the index
    /// of a child. The empty path leads to the window itself.
    pub open spec fn node_at(self, p: Seq<usize>) -> Option<ChildModel>
        decreases p.len(),
    {
        if p.len() == 0 {
            Some(ChildModel::Window(self))
        } else if p[0] < self.children.len() {
            match self.children[p[0] as int] {
                ChildModel::Window(w) => w.node_at(p.drop_first()),
                ChildModel::Text(t) => if p.len() == 1 {
                    Some(ChildModel::Text(t))
                } else {
                    None
                },
            }
        } else {
            None
        }
    }

    /// The window with the text that `p` leads to edited. A path that
    /// leads to no text leaves the window as it is.
    pub open spec fn edit_text(self, p: Seq<usize>, e: TextEdit) -> WindowModel
        decreases p.len(),
    {
        if p.len() > 0 && p[0] < self.children.len() {
            match self.children[p[0] as int] {
                ChildModel::Window(w) => WindowModel {
                    children: self.children.update(
                        p[0] as int,
                        ChildModel::Window(w.edit_text(p.drop_first(), e)),
                    ),
                    ..self
                },
                ChildModel::Text(t) => if p.len() == 1 {
                    WindowModel {
                        children: self.children.update(p[0] as int, ChildModel::Text(t.apply(e))),
                        ..self
                    }
                } else {
                    self
                },
            }
        } else {
            self
        }
    }
}

impl RootModel {
    /// The window or text that `p` leads to from the root.
    pub open spec fn node_at(self, p: Seq<usize>) -> Option<ChildModel> {
        if p.len() > 0 && p[0] < self.children.len() {
            self.children[p[0] as int].node_at(p.drop_first())
        } else {
            None
        }
    }

    /// The text that `p` leads to, if it leads to one.
    pub open spec fn text_at(self, p: Seq<usize>) -> Option<TextModel> {
        match self.node_at(p) {
            Some(ChildModel::Text(t)) => Some(t),
            _ => None,
        }
    }

    /// The window that `p` leads to, if it leads to one.
    pub open spec fn window_at(self, p: Seq<usize>) -> Option<WindowModel> {
        match self.node_at(p) {
            Some(ChildModel::Window(w)) => Some(w),
            _ => None,
        }
    }

    /// The tree with the text that `p` leads to edited. A path that leads
    /// to no text leaves the tree as it is.
    pub open spec fn edit_text(self, p: Seq<usize>, e: TextEdit) -> RootModel {
        if p.len() > 0 && p[0] < self.children.len() {
            RootModel {
                children: self.children.update(
                    p[0] as int,
                    self.children[p[0] as int].edit_text(p.drop_first(), e),
                ),
                ..self
            }
        } else {
            self
        }
    }

    /// Whether the characters of the tree that carry the cursor's look
    /// are exactly those of `region` in the text at `tp`.
    pub open spec fn shows(self, tp: Seq<usize>, region: Region) -> bool {
        forall|q: Seq<usize>| #[trigger]
            self.text_at(q) is Some ==> self.text_at(q)->0.shows(
                if q == tp {
                    region
                } else {
                    Region::Nowhere
                },
            )
    }
}

impl Window {
    /// The window that the steps of `path` from `depth` on lead to.
    pub fn window_at(&self, path: &Vec<usize>, depth: usize) -> (r: Option<&Window>)
        requires
            depth <= path@.len(),
        ensures
            match r {
                Some(w) => self@.node_at(path@.skip(depth as int)) == Some(ChildModel::Window(w@)),
                None => !(self@.node_at(path@.skip(depth as int)) matches Some(
                    ChildModel::Window(_),
                )),
            },
        decreases path@.len() - depth,
    {
        if depth == path.len() {
            return Some(self);
        }
        let i = path[depth];
        assert(path@.skip(depth as int)[0] == i);
        assert(path@.skip(depth as int).drop_first() == path@.skip(depth + 1));
        if i < self.children.len() {
            match &self.children[i] {
                WindowChild::Window(w) => w.window_at(path, depth + 1),
                WindowChild::Text(_) => None,
            }
        } else {
            None
        }
    }

    /// The text that the steps of `path` from `depth` on lead to.
    pub fn text_at(&self, path: &Vec<usize>, depth: usize) -> (r: Option<&Text>)
        requires
            depth <= path@.len(),
        ensures
            match r {
                Some(t) => self@.node_at(path@.skip(depth as int)) == Some(ChildModel::Text(t@)),
                None => !(self@.node_at(path@.skip(depth as int)) matches Some(
                    ChildModel::Text(_),
                )),
            },
        decreases path@.len() - depth,
    {
        if depth == path.len() {
            return None;
        }
        let i = path[depth];
        assert(path@.skip(depth as int)[0] == i);
        assert(path@.skip(depth as int).drop_first() == path@.skip(depth + 1));
        if i < self.children.len() {
            match &self.children[i] {
                WindowChild::Window(w) => w.text_at(path, depth + 1),
                WindowChild::Text(t) => if depth + 1 == path.len() {
                    Some(t)
                } else {
                    None
                },
            }
        } else {
            None
        }
    }

    /// Edits the text that the steps of `path` from `depth` on lead to.
    pub fn edit_text(&mut self, path: &Vec<usize>, depth: usize, edit: TextEdit)
        requires
            depth <= path@.len(),
        ensures
            final(self)@ == old(self)@.edit_text(path@.skip(depth as int), edit),
        decreases path@.len() - depth,
    {
        if depth < path.len() {
            let i = path[depth];
            assert(path@.skip(depth as int)[0] == i);
            assert(path@.skip(depth as int).drop_first() == path@.skip(depth + 1));
            if i < self.children.len() {
                let ghost before = self@;
                match &mut self.children[i] {
                    WindowChild::Window(w) => {
                        w.edit_text(path, depth + 1, edit);
                    },
                    WindowChild::Text(t) => {
                        if depth + 1 == path.len() {
                            t.apply(edit);
                        }
                    },
                }
                assert(self@.children =~= before.edit_text(
                    path@.skip(depth as int),
                    edit,
                ).children);
            }
        }
    }
}

impl Root {
    /// The window that `path` leads to.
    pub fn window_at(&self, path: &Vec<usize>) -> (r: Option<&Window>)
        ensures
            match r {
                Some(w) => self@.window_at(path@) == Some(w@),
                None => self@.window_at(path@) is None,
            },
    {
        if path.len() == 0 {
            return None;
        }
        let i = path[0];
        assert(path@.drop_first() == path@.skip(1));
        if i < self.children.len() {
            self.children[i].window_at(path, 1)
        } else {
            None
        }
    }

    /// The text that `path` leads to.
    pub fn text_at(&self, path: &Vec<usize>) -> (r: Option<&Text>)
        ensures
            match r {
                Some(t) => self@.text_at(path@) == Some(t@),
                None => self@.text_at(path@) is None,
            },
    {
        if path.len() == 0 {
            return None;
        }
        let i = path[0];
        assert(path@.drop_first() == path@.skip(1));
        if i < self.children.len() {
            self.children[i].text_at(path, 1)
        } else {
            None
        }
    }

    /// Edits the text that `path` leads to. A path that leads to no text
    /// changes nothing.
    pub fn edit_text(&mut self, path: &Vec<usize>, edit: TextEdit)
        ensures
            final(self)@ == old(self)@.edit_text(path@, edit),
    {
        if path.len() > 0 {
            let i = path[0];
            assert(path@.drop_first() == path@.skip(1));
            if i < self.children.len() {
                self.children[i].edit_text(path, 1, edit);
                assert(self@.children =~= old(self)@.edit_text(path@, edit).children);
            }
        }
    }
}

impl ChildModel {
    /// Whether two nodes are of one kind, with as many children; texts
    /// are not compared further.
    pub open spec fn alike(self, other: ChildModel) -> bool {
        match (self, other) {
            (ChildModel::Window(a), ChildModel::Window(b)) => a.children.len() == b.children.len()
                && a.area == b.area && a.split_dir == b.split_dir,
            (ChildModel::Text(_), ChildModel::Text(_)) => true,
            _ => false,
        }
    }
}

/// What `node` becomes where the text at `tp` is edited and `q` leads to
/// `node`: a text at `tp` is edited, every other text stays, and a window
/// keeps its kind and the number of its children.
pub open spec fn edited_like(
    node: Option<ChildModel>,
    after: Option<ChildModel>,
    tp: Seq<usize>,
    e: TextEdit,
    q: Seq<usize>,
) -> bool {
    match node {
        None => after is None,
        Some(ChildModel::Text(t)) => after == Some(
            ChildModel::Text(
                if q == tp {
                    t.apply(e)
                } else {
                    t
                },
            ),
        ),
        Some(ChildModel::Window(w)) => after is Some && ChildModel::Window(w).alike(after->0),
    }
}

/// An edit of the text at `tp` below a window reaches the node at `q`
/// only where `q` is `tp`.
pub proof fn lemma_window_edit_node_at(w: WindowModel, tp: Seq<usize>, e: TextEdit, q: Seq<usize>)
    ensures
        edited_like(w.node_at(q), w.edit_text(tp, e).node_at(q), tp, e, q),
        w.edit_text(tp, e).children.len() == w.children.len(),
        w.edit_text(tp, e).area == w.area,
        w.edit_text(tp, e).split_dir == w.split_dir,
    decreases q.len(),
{
    let after = w.edit_text(tp, e);
    if q.len() > 0 && q[0] < w.children.len() {
        let i = q[0] as int;
        if tp.len() > 0 && tp[0] == q[0] {
            assert(q =~= tp <==> q.drop_first() =~= tp.drop_first()) by {
                if q.drop_first() =~= tp.drop_first() {
                    assert(q =~= seq![q[0]] + q.drop_first());
                    assert(tp =~= seq![tp[0]] + tp.drop_first());
                }
            }
            match w.children[i] {
                ChildModel::Window(c) => {
                    lemma_window_edit_node_at(c, tp.drop_first(), e, q.drop_first());
                },
                ChildModel::Text(t) => {
                    if tp.len() == 1 && q.len() == 1 {
                        assert(q =~= tp);
                    }
                },
            }
        } else {
            assert(after.children[i] == w.children[i]);
            assert(!(q =~= tp));
        }
    } else if q.len() == 0 {
        if tp.len() == 0 {
            assert(q =~= tp);
        }
    }
}

/// An edit of the text at `tp` reaches the node at `q` only where `q` is
/// `tp`.
pub proof fn lemma_edit_node_at(root: RootModel, tp: Seq<usize>, e: TextEdit, q: Seq<usize>)
    ensures
        edited_like(root.node_at(q), root.edit_text(tp, e).node_at(q), tp, e, q),
        root.edit_text(tp, e).children.len() == root.children.len(),
        root.edit_text(tp, e).area == root.area,
        root.edit_text(tp, e).split_dir == root.split_dir,
{
    let after = root.edit_text(tp, e);
    if q.len() > 0 && q[0] < root.children.len() {
        let i = q[0] as int;
        if tp.len() > 0 && tp[0] == q[0] {
            assert(q =~= tp <==> q.drop_first() =~= tp.drop_first()) by {
                if q.drop_first() =~= tp.drop_first() {
                    assert(q =~= seq![q[0]] + q.drop_first());
                    assert(tp =~= seq![tp[0]] + tp.drop_first());
                }
            }
            lemma_window_edit_node_at(root.children[i], tp.drop_first(), e, q.drop_first());
        } else {
            assert(after.children[i] == root.children[i]);
            assert(!(q =~= tp));
        }
    }
}

/// One step more on a path below a window leads to a child of the node
/// that the path leads to.
pub proof fn lemma_window_node_at_push(w: WindowModel, p: Seq<usize>, i: usize)
    ensures
        w.node_at(p.push(i)) == match w.node_at(p) {
            Some(ChildModel::Window(c)) => if i < c.children.len() {
                Some(c.children[i as int])
            } else {
                None
            },
            _ => None,
        },
    decreases p.len(),
{
    if p.len() == 0 {
        assert(p.push(i).drop_first() =~= Seq::<usize>::empty());
        if i < w.children.len() {
            match w.children[i as int] {
                ChildModel::Window(c) => {
                    assert(c.node_at(Seq::<usize>::empty()) == Some(ChildModel::Window(c)));
                },
                ChildModel::Text(t) => {},
            }
        }
    } else {
        assert(p.push(i).drop_first() =~= p.drop_first().push(i));
        assert(p.push(i)[0] == p[0]);
        if p[0] < w.children.len() {
            match w.children[p[0] as int] {
                ChildModel::Window(c) => {
                    lemma_window_node_at_push(c, p.drop_first(), i);
                },
                ChildModel::Text(t) => {},
            }
        }
    }
}

/// One step more on a path leads to a child of the node that the path
/// leads to; the first step leads to a window of the root.
pub proof fn lemma_node_at_push(root: RootModel, p: Seq<usize>, i: usize)
    ensures
        p.len() == 0 ==> root.node_at(p.push(i)) == if i < root.children.len() {
            Some(ChildModel::Window(root.children[i as int]))
        } else {
            None::<ChildModel>
        },
        p.len() > 0 ==> root.node_at(p.push(i)) == match root.node_at(p) {
            Some(ChildModel::Window(c)) => if i < c.children.len() {
                Some(c.children[i as int])
            } else {
                None
            },
            _ => None,
        },
{
    if p.len() == 0 {
        assert(p.push(i).drop_first() =~= Seq::<usize>::empty());
    } else {
        assert(p.push(i).drop_first() =~= p.drop_first().push(i));
        assert(p.push(i)[0] == p[0]);
        if p[0] < root.children.len() {
            lemma_window_node_at_push(root.children[p[0] as int], p.drop_first(), i);
        }
    }
}

/// Where the cursor's look is on `from` in the text at `tp` and nowhere
/// else, moving it there to `to` leaves it on `to` and nowhere else.
pub proof fn lemma_move_shows(root: RootModel, tp: Seq<usize>, from: Region, to: Region)
    requires
        root.shows(tp, from),
    ensures
        root.edit_text(tp, TextEdit::MoveCursor { from, to }).shows(tp, to),
{
    let e = TextEdit::MoveCursor { from, to };
    let after = root.edit_text(tp, e);
    assert forall|q: Seq<usize>| #[trigger]
        after.text_at(q) is Some implies after.text_at(q)->0.shows(
        if q == tp {
            to
        } else {
            Region::Nowhere
        },
    ) by {
        lemma_edit_node_at(root, tp, e, q);
        assert(root.text_at(q) is Some);
        let t = root.text_at(q)->0;
        if q == tp {
            lemma_move_cursor_shows(t, from, to);
        }
    }
}

/// Scrolling a text moves the cursor's look nowhere.
pub proof fn lemma_scroll_keeps_shows(
    root: RootModel,
    tp: Seq<usize>,
    line: usize,
    at: Seq<usize>,
    region: Region,
)
    requires
        root.shows(at, region),
    ensures
        root.edit_text(tp, TextEdit::ScrollTo(line)).shows(at, region),
{
    let e = TextEdit::ScrollTo(line);
    let after = root.edit_text(tp, e);
    assert forall|q: Seq<usize>| #[trigger]
        after.text_at(q) is Some implies after.text_at(q)->0.shows(
        if q == at {
            region
        } else {
            Region::Nowhere
        },
    ) by {
        lemma_edit_node_at(root, tp, e, q);
        assert(root.text_at(q) is Some);
        let t = root.text_at(q)->0;
        if q == tp {
            lemma_scroll_shows(t, line as int, if q == at { region } else { Region::Nowhere });
        }
    }
}

/// Where nothing carries the cursor's look, it does not matter which text
/// is named.
pub proof fn lemma_shows_nowhere(root: RootModel, a: Seq<usize>, b: Seq<usize>)
    requires
        root.shows(a, Region::Nowhere),
    ensures
        root.shows(b, Region::Nowhere),
{
    assert forall|q: Seq<usize>| #[trigger]
        root.text_at(q) is Some implies root.text_at(q)->0.shows(
        if q == b {
            Region::Nowhere
        } else {
            Region::Nowhere
        },
    ) by {
        assert(root.text_at(q)->0.shows(if q == a { Region::Nowhere } else { Region::Nowhere }));
    }
}

} // verus!

//! The control step: what a command does to the mode, the cursor and the
//! tree.

use crate::address::{lemma_edit_node_at, lemma_scroll_keeps_shows};
use crate::edit::{lemma_insert_shows, Region, TextEdit};
use crate::frame::WindowRender;
use crate::geometry::Rect;
use crate::input::{command_of, holds_ctrl, Command, Event, ModifierKeyCode, State};
use crate::loading::lines_of;
use crate::primatives::{
    ChildModel, Root, RootModel, SplitDirection, TextModel, Window, WindowModel,
};
use crate::zipper::{
    AnyZipper, CharZipper, Focus, LineZipper, RootZipper, SpanZipper, WindowParent, WindowZipper,
    Zipper,
};
use vstd::prelude::*;

verus! {

/// The mode after a command. The editor leaves `ShutDown` no more; `Quit`
/// ends it from normal mode; the three mode commands set their mode.
pub open spec fn next_state(state: State, cmd: Command) -> State {
    match state {
        State::ShutDown => State::ShutDown,
        _ => match cmd {
            Command::NormalMode => State::Normal,
            Command::InsertMode => State::Insert,
            Command::TravelMode => State::Travel,
            Command::ShutDown => State::ShutDown,
            Command::Quit => if state == State::Normal {
                State::ShutDown
            } else {
                state
            },
            _ => state,
        },
    }
}

/// The mode after a command.
pub fn advance(state: State, cmd: Command) -> (r: State)
    ensures
        r == next_state(state, cmd),
{
    match state {
        State::ShutDown => State::ShutDown,
        _ => match cmd {
            Command::NormalMode => State::Normal,
            Command::InsertMode => State::Insert,
            Command::TravelMode => State::Travel,
            Command::ShutDown => State::ShutDown,
            Command::Quit => match state {
                State::Normal => State::ShutDown,
                _ => state,
            },
            _ => state,
        },
    }
}

impl Focus {
    /// Whether the line in focus, or the line that holds the focus, has a
    /// line before it (`forward` false) or behind it (`forward` true).
    pub open spec fn has_line(self, forward: bool) -> bool {
        match self.zipper {
            AnyZipper::Line(z) => if forward {
                z.right > 0
            } else {
                z.left > 0
            },
            AnyZipper::Span(z) => if forward {
                z.parent.right > 0
            } else {
                z.parent.left > 0
            },
            AnyZipper::Char(z) => if forward {
                z.parent.parent.right > 0
            } else {
                z.parent.parent.left > 0
            },
            _ => false,
        }
    }

    /// After a step to the next line: up to the line, over to its
    /// neighbour, and down again to the first span and its first
    /// character, as deep as the focus was. Where there is no such line
    /// the focus stays.
    pub open spec fn line_step(self, forward: bool) -> Focus {
        if !self.has_line(forward) {
            self
        } else {
            match self.zipper {
                AnyZipper::Line(_) => if forward {
                    self.right()
                } else {
                    self.left()
                },
                AnyZipper::Span(_) => if forward {
                    self.up().right().down(0)
                } else {
                    self.up().left().down(0)
                },
                AnyZipper::Char(_) => if forward {
                    self.up().up().right().down(0).down(0)
                } else {
                    self.up().up().left().down(0).down(0)
                },
                _ => self,
            }
        }
    }

    /// After a plain `ch` was put before the character in focus: the
    /// character stays in focus, one place further right, and the zipper
    /// is made anew from its text down. A focus that is no character
    /// stays, and so does the tree.
    pub open spec fn inserted(self, ch: char) -> Focus {
        match self.zipper {
            AnyZipper::Char(c) => {
                let text = c.parent.parent.parent;
                let grown = self.tree.edit_text(
                    text.route(),
                    TextEdit::InsertChar {
                        line: c.parent.parent.left,
                        span: c.parent.left,
                        at: c.left,
                        ch,
                    },
                );
                let line = LineZipper::spec_new(c.parent.parent.left, text, grown);
                let tree = grown.edit_text(text.route(), TextEdit::ScrollTo(line.left));
                let span = SpanZipper::spec_new(c.parent.left, line, tree);
                Focus {
                    zipper: AnyZipper::Char(CharZipper::spec_new((c.left + 1) as usize, span)),
                    tree,
                }
            },
            _ => self,
        }
    }

    /// After a command in a mode. Once the editor shuts down nothing
    /// moves; a character is put in only in insert mode.
    pub open spec fn acted(self, state: State, cmd: Command) -> Focus {
        if state == State::ShutDown {
            self
        } else {
            match cmd {
                Command::Insert(ch) => if state == State::Insert {
                    self.inserted(ch)
                } else {
                    self
                },
                Command::ToFirstChild => self.down(0),
                Command::ToLastChild => self.down(usize::MAX),
                Command::ToMiddleChild => self.down(self.zipper.spec_children() / 2),
                Command::ToParent => self.up(),
                Command::ToLeftSibling => self.left(),
                Command::ToRightSibling => self.right(),
                Command::PrevChar => self.left_or_cousin(),
                Command::NextChar => self.right_or_cousin(),
                Command::PrevLine => self.line_step(false),
                Command::NextLine => self.line_step(true),
                _ => self,
            }
        }
    }
}

/// Steps the focus to the line before or behind.
fn line_step(zipper: AnyZipper, root: &mut Root, forward: bool) -> (r: AnyZipper)
    requires
        zipper.wf(old(root)@),
    ensures
        (Focus { zipper: r, tree: final(root)@ }) == (Focus {
            zipper,
            tree: old(root)@,
        }).line_step(forward),
        r.wf(final(root)@),
        zipper.shown(old(root)@) ==> r.shown(final(root)@),
        zipper.row_on_screen(old(root)@) ==> r.row_on_screen(final(root)@),
{
    match zipper {
        AnyZipper::Line(z) => {
            if forward {
                if z.right > 0 {
                    z.move_right(root)
                } else {
                    AnyZipper::Line(z)
                }
            } else {
                if z.left > 0 {
                    z.move_left(root)
                } else {
                    AnyZipper::Line(z)
                }
            }
        },
        AnyZipper::Span(z) => {
            let there: bool = if forward { z.parent.right > 0 } else { z.parent.left > 0 };
            if !there {
                return AnyZipper::Span(z);
            }
            let line = z.parent(root);
            let next = if forward { line.move_right(root) } else { line.move_left(root) };
            next.child(root, 0)
        },
        AnyZipper::Char(z) => {
            let there: bool = if forward {
                z.parent.parent.right > 0
            } else {
                z.parent.parent.left > 0
            };
            if !there {
                return AnyZipper::Char(z);
            }
            let span = z.parent(root);
            let line = span.parent(root);
            let next = if forward { line.move_right(root) } else { line.move_left(root) };
            let first = next.child(root, 0);
            first.child(root, 0)
        },
        other => other,
    }
}

/// Puts a plain `ch` before the character in focus.
fn insert(zipper: AnyZipper, root: &mut Root, ch: char) -> (r: AnyZipper)
    requires
        zipper.wf(old(root)@),
    ensures
        (Focus { zipper: r, tree: final(root)@ }) == (Focus { zipper, tree: old(root)@ }).inserted(
            ch,
        ),
        r.wf(final(root)@),
        zipper.shown(old(root)@) ==> r.shown(final(root)@),
        zipper.row_on_screen(old(root)@) ==> r.row_on_screen(final(root)@),
{
    match zipper {
        AnyZipper::Char(c) => {
            let l: usize = c.parent.parent.left;
            let s: usize = c.parent.left;
            let at: usize = c.left;
            let text = c.parent.parent.parent;
            let tp = text.path();
            let e = TextEdit::InsertChar { line: l, span: s, at, ch };
            root.edit_text(&tp, e);
            let ghost grown = root@;
            proof {
                text.lemma_wf_edit(old(root)@, tp@, e);
            }
            let line = LineZipper::new(l, text, root);
            let span = SpanZipper::new(s, line, root);
            assert(span.children == text.text(old(root)@).lines[l as int][s as int].len() + 1);
            let r = CharZipper::new(at + 1, span, root);
            proof {
                if zipper.shown(old(root)@) {
                    let before = old(root)@;
                    assert forall|q: Seq<usize>| #[trigger]
                        grown.text_at(q) is Some implies grown.text_at(q)->0.shows(
                        if q == tp@ {
                            Region::Char(l, s, (at + 1) as usize)
                        } else {
                            Region::Nowhere
                        },
                    ) by {
                        lemma_edit_node_at(before, tp@, e, q);
                        assert(before.text_at(q) is Some);
                        if q == tp@ {
                            lemma_insert_shows(before.text_at(q)->0, l, s, at, ch);
                        }
                    }
                    lemma_scroll_keeps_shows(
                        grown,
                        tp@,
                        l,
                        tp@,
                        Region::Char(l, s, (at + 1) as usize),
                    );
                }
            }
            AnyZipper::Char(r)
        },
        other => other,
    }
}

/// One round of control: the command changes the mode, moves the cursor
/// or edits the tree.
pub fn step(state: State, zipper: AnyZipper, root: &mut Root, cmd: Command) -> (r: (
    State,
    AnyZipper,
))
    requires
        zipper.wf(old(root)@),
    ensures
        r.0 == next_state(state, cmd),
        (Focus { zipper: r.1, tree: final(root)@ }) == (Focus { zipper, tree: old(root)@ }).acted(
            state,
            cmd,
        ),
        r.1.wf(final(root)@),
        zipper.shown(old(root)@) ==> r.1.shown(final(root)@),
        zipper.row_on_screen(old(root)@) ==> r.1.row_on_screen(final(root)@),
{
    let next = advance(state, cmd);
    match state {
        State::ShutDown => {
            return (next, zipper);
        },
        _ => {},
    }
    let moved = match cmd {
        Command::Insert(ch) => match state {
            State::Insert => insert(zipper, root, ch),
            _ => zipper,
        },
        Command::ToFirstChild => zipper.child(root, 0),
        Command::ToLastChild => zipper.child(root, usize::MAX),
        Command::ToMiddleChild => {
            let middle: usize = zipper.children() / 2;
            zipper.child(root, middle)
        },
        Command::ToParent => zipper.parent(root),
        Command::ToLeftSibling => zipper.move_left(root),
        Command::ToRightSibling => zipper.move_right(root),
        Command::PrevChar => match zipper {
            AnyZipper::Char(c) => c.move_left_or_cousin(root),
            other => other,
        },
        Command::NextChar => match zipper {
            AnyZipper::Char(c) => c.move_right_or_cousin(root),
            other => other,
        },
        Command::PrevLine => line_step(zipper, root, false),
        Command::NextLine => line_step(zipper, root, true),
        _ => zipper,
    };
    (next, moved)
}

/// The tree of a newly opened text: one window that fills the root, and
/// in it the text, with as many lines on screen as the window is high.
pub open spec fn loaded_tree(content: Seq<char>, area: Rect) -> RootModel {
    RootModel {
        area,
        split_dir: SplitDirection::Vertical,
        children: seq![
            WindowModel {
                area,
                split_dir: SplitDirection::Vertical,
                children: seq![
                    ChildModel::Text(
                        TextModel {
                            scroll_offset: 0,
                            height: area.height as nat,
                            lines: lines_of(content),
                            alignment: None,
                        },
                    ),
                ],
            },
        ],
    }
}

/// The focus of a newly opened text: from the root down to the first
/// character of the first line, as deep as the text goes.
pub open spec fn loaded(content: Seq<char>, area: Rect) -> Focus {
    let tree = loaded_tree(content, area);
    (Focus { zipper: AnyZipper::Root(RootZipper::spec_new(tree)), tree }).down(0).down(0).down(
        0,
    ).down(0).down(0)
}

/// No character of a newly opened text carries the cursor's look.
pub proof fn lemma_loaded_shows_nowhere(content: Seq<char>, area: Rect)
    ensures
        loaded_tree(content, area).shows(Seq::empty(), Region::Nowhere),
{
    let tree = loaded_tree(content, area);
    let text = tree.children[0].children[0]->Text_0;
    assert forall|q: Seq<usize>| #[trigger]
        tree.text_at(q) is Some implies tree.text_at(q)->0.shows(
        Region::Nowhere,
    ) by {
        assert(tree.text_at(q)->0 == text);
        assert forall|l: int, s: int, c: int| #[trigger]
            text.has_char(l, s, c) implies !text.lines[l][s][c].spec_is_lit() by {}
    }
}

/// The editor: the tree, the cursor in it and the mode. The cursor always
/// remembers the tree, the cursor's look is always on the focus and
/// nowhere else, and the line that holds the focus is always on screen.
pub struct Editor {
    root: Root,
    zipper: AnyZipper,
    state: State,
}

impl Editor {
    #[verifier::type_invariant]
    spec fn inv(self) -> bool {
        &&& self.zipper.wf(self.root@)
        &&& self.zipper.shown(self.root@)
        &&& self.zipper.row_on_screen(self.root@)
    }

    /// The cursor and the tree.
    pub closed spec fn focus(self) -> Focus {
        Focus { zipper: self.zipper, tree: self.root@ }
    }

    /// The mode.
    pub closed spec fn mode(self) -> State {
        self.state
    }

    /// Opens a text on a screen of the given area, in normal mode, with
    /// the cursor on its first character.
    pub fn open(content: String, area: Rect) -> (r: Editor)
        ensures
            r.mode() == State::Normal,
            r.focus() == loaded(content@, area),
            r.focus().wf(),
            r.focus().shown(),
            r.focus().zipper.row_on_screen(r.focus().tree),
    {
        let mut window = Window::new(SplitDirection::Vertical, area);
        window.add_text(content, 0);
        let mut root = Root::new(SplitDirection::Vertical, area);
        root.add_child(window, 0);
        assert(root@.children =~= loaded_tree(content@, area).children) by {
            assert(root@.children[0].children =~= loaded_tree(content@, area).children[0].children);
        }
        proof {
            lemma_loaded_shows_nowhere(content@, area);
        }
        let top = AnyZipper::Root(RootZipper::new(&root));
        let window = top.child(&mut root, 0);
        let text = window.child(&mut root, 0);
        let line = text.child(&mut root, 0);
        let span = line.child(&mut root, 0);
        let zipper = span.child(&mut root, 0);
        Editor { root, zipper, state: State::Normal }
    }

    /// Carries out a command.
    pub fn apply(self, cmd: Command) -> (r: Editor)
        ensures
            r.mode() == next_state(self.mode(), cmd),
            r.focus() == self.focus().acted(self.mode(), cmd),
            r.focus().wf(),
            r.focus().shown(),
            r.focus().zipper.row_on_screen(r.focus().tree),
    {
        proof {
            use_type_invariant(&self);
        }
        let Editor { root, zipper, state } = self;
        let mut root = root;
        let (state, zipper) = step(state, zipper, &mut root, cmd);
        Editor { root, zipper, state }
    }

    /// Gives the root the whole of a screen of `cols` by `rows` cells.
    /// The cursor stays.
    pub fn resize(self, cols: u16, rows: u16) -> (r: Editor)
        ensures
            r.mode() == self.mode(),
            r.focus().zipper == self.focus().zipper,
            r.focus().tree == (RootModel {
                area: Rect { x: 0, y: 0, width: cols, height: rows },
                ..self.focus().tree
            }),
            r.focus().wf(),
            r.focus().shown(),
            r.focus().zipper.row_on_screen(r.focus().tree),
    {
        proof {
            use_type_invariant(&self);
        }
        let Editor { root, zipper, state } = self;
        let mut root = root;
        let ghost before = root@;
        root.resize(cols, rows);
        proof {
            lemma_resize_keeps(zipper, before, root@);
        }
        Editor { root, zipper, state }
    }

    /// One round of input: a report of the screen's size gives the root
    /// the whole of the screen, and the event is read as the mode has it.
    /// The cursor and the mode stay.
    pub fn on_event(self, mod_keys: &mut Vec<ModifierKeyCode>, input: Event) -> (r: (
        Editor,
        Option<Command>,
    ))
        ensures
            r.1 == command_of(self.mode(), holds_ctrl(old(mod_keys)@), input),
            *final(mod_keys) == *old(mod_keys),
            r.0.mode() == self.mode(),
            r.0.focus().zipper == self.focus().zipper,
            r.0.focus().tree == match input {
                Event::Resize(cols, rows) => RootModel {
                    area: Rect { x: 0, y: 0, width: cols, height: rows },
                    ..self.focus().tree
                },
                _ => self.focus().tree,
            },
            r.0.focus().wf(),
            r.0.focus().shown(),
            r.0.focus().zipper.row_on_screen(r.0.focus().tree),
    {
        proof {
            use_type_invariant(&self);
        }
        let Editor { root, zipper, state } = self;
        let mut root = root;
        let ghost before = root@;
        let cmd = crate::input::on_event(state, &mut root, mod_keys, input);
        proof {
            lemma_resize_keeps(zipper, before, root@);
        }
        (Editor { root, zipper, state }, cmd)
    }

    /// A frame of the tree as it is now.
    pub fn snapshot(&self) -> (r: WindowRender)
        ensures
            r@ == self.focus().tree.frame(),
    {
        self.root.snapshot()
    }

    /// The mode.
    pub fn state(&self) -> (s: State)
        ensures
            s == self.mode(),
    {
        self.state
    }

    /// The cursor.
    pub fn zipper(&self) -> (z: &AnyZipper)
        ensures
            *z == self.focus().zipper,
    {
        &self.zipper
    }

    /// The tree.
    pub fn root(&self) -> (root: &Root)
        ensures
            root@ == self.focus().tree,
    {
        &self.root
    }
}

/// A tree that differs from another in the root's area alone is
/// remembered by the same zippers and shows the cursor's look in the same
/// place.
pub proof fn lemma_resize_keeps(z: AnyZipper, before: RootModel, after: RootModel)
    requires
        after.children == before.children,
    ensures
        z.wf(before) ==> z.wf(after),
        z.shown(before) ==> z.shown(after),
        z.row_on_screen(before) ==> z.row_on_screen(after),
{
    assert forall|q: Seq<usize>| before.node_at(q) == after.node_at(q) by {}
    if z.wf(before) {
        lemma_same_nodes_wf(z, before, after);
    }
    if z.shown(before) {
        assert forall|q: Seq<usize>| #[trigger]
            after.text_at(q) is Some implies after.text_at(q)->0.shows(
            if q == z.text_route() {
                z.region()
            } else {
                Region::Nowhere
            },
        ) by {
            assert(before.text_at(q) is Some);
        }
    }
}

/// Trees with the same windows and texts are remembered by the same
/// zippers.
pub proof fn lemma_same_nodes_wf(z: AnyZipper, before: RootModel, after: RootModel)
    requires
        after.children == before.children,
        z.wf(before),
    ensures
        z.wf(after),
{
    assert forall|q: Seq<usize>| before.node_at(q) == after.node_at(q) by {}
    match z {
        AnyZipper::Root(r) => {},
        AnyZipper::Window(w) => lemma_same_nodes_window_wf(w, before, after),
        AnyZipper::Text(t) => lemma_same_nodes_window_wf(t.parent, before, after),
        AnyZipper::Line(l) => lemma_same_nodes_window_wf(l.parent.parent, before, after),
        AnyZipper::Span(s) => lemma_same_nodes_window_wf(s.parent.parent.parent, before, after),
        AnyZipper::Char(c) => lemma_same_nodes_window_wf(
            c.parent.parent.parent.parent,
            before,
            after,
        ),
    }
}

proof fn lemma_same_nodes_window_wf(w: WindowZipper, before: RootModel, after: RootModel)
    requires
        after.children == before.children,
        w.wf(before),
    ensures
        w.wf(after),
    decreases w,
{
    assert forall|q: Seq<usize>| before.node_at(q) == after.node_at(q) by {}
    match *w.parent {
        WindowParent::Root(r) => {},
        WindowParent::Window(p) => lemma_same_nodes_window_wf(p, before, after),
    }
}

} // verus!

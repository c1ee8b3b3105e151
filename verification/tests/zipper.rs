use zipper_edit::geometry::Rect;
use zipper_edit::primatives::{NodeKind, Root, SplitDirection, Text, Window, WindowChild};
use zipper_edit::zipper::{
    AnyZipper, CharZipper, DynZipper, LineZipper, RootZipper, SpanZipper, TextZipper,
    WindowParent, WindowZipper, Zipper,
};

fn screen() -> Rect {
    Rect::new(0, 0, 40, 10)
}

fn one_text(content: &str) -> Root {
    let mut window = Window::new(SplitDirection::Vertical, screen());
    window.add_text(String::from(content), 0);
    let mut root = Root::new(SplitDirection::Vertical, screen());
    root.add_child(window, 0);
    root
}

fn the_text(root: &Root) -> &Text {
    root.text_at(&vec![0, 0]).unwrap()
}

fn lit(root: &Root) -> Vec<(usize, usize, usize)> {
    let mut out = Vec::new();
    for (l, line) in the_text(root).lines.iter().enumerate() {
        for (s, span) in line.spans.iter().enumerate() {
            for (c, ch) in span.characters.iter().enumerate() {
                if ch.style.is_cursor() {
                    out.push((l, s, c));
                }
            }
        }
    }
    out
}

fn descend(root: &mut Root, levels: usize) -> DynZipper {
    let mut z: DynZipper = AnyZipper::Root(RootZipper::new(root));
    for _ in 0..levels {
        z = z.child(root, 0);
    }
    z
}

#[test]
fn root_zipper_remembers_the_root() {
    let root = one_text("a\n");
    let z = RootZipper::new(&root);
    assert_eq!(z.children, 1);
    assert_eq!(z.area, screen());
}

#[test]
fn root_is_its_own_parent_and_has_no_sibling() {
    let mut root = one_text("a\n");
    let z = AnyZipper::Root(RootZipper::new(&root));
    let before = z.duplicate();
    let z = z.parent(&mut root);
    assert_eq!(z, before);
    let z = z.move_left(&mut root);
    assert_eq!(z, before);
    let z = z.move_right(&mut root);
    assert_eq!(z, before);
    assert_eq!(z.kind(), NodeKind::Root);
    assert_eq!(z.index_among_siblings(), 0);
}

#[test]
fn root_without_windows_stays_in_focus() {
    let mut root = Root::new(SplitDirection::Vertical, screen());
    let z = AnyZipper::Root(RootZipper::new(&root));
    let z = z.child(&mut root, 0);
    assert_eq!(z.kind(), NodeKind::Root);
    let z = z.child(&mut root, 5);
    assert_eq!(z, AnyZipper::Root(RootZipper { area: screen(), children: 0 }));
}

#[test]
fn each_level_down_is_the_next_kind() {
    let mut root = one_text("hello world\nbye\n");
    let expected = [
        NodeKind::Root,
        NodeKind::Window,
        NodeKind::Text,
        NodeKind::Line,
        NodeKind::Span,
        NodeKind::Char,
        NodeKind::Char,
    ];
    for (levels, kind) in expected.iter().enumerate() {
        let mut fresh = one_text("hello world\nbye\n");
        assert_eq!(descend(&mut fresh, levels).kind(), *kind);
    }
    let z = descend(&mut root, 5);
    assert_eq!(z.children(), 0);
    assert_eq!(z.row(), Some(0));
    assert_eq!(z.column(), Some(0));
}

#[test]
fn each_level_up_is_the_kind_above() {
    let mut root = one_text("hello world\n");
    let mut z = descend(&mut root, 5);
    let expected = [
        NodeKind::Span,
        NodeKind::Line,
        NodeKind::Text,
        NodeKind::Window,
        NodeKind::Root,
        NodeKind::Root,
    ];
    for kind in expected {
        z = z.parent(&mut root);
        assert_eq!(z.kind(), kind);
    }
}

#[test]
fn child_index_past_the_end_reaches_the_last_child() {
    let mut root = one_text("a b c\nx\ny\n");
    let text = descend(&mut root, 2);
    assert_eq!(text.children(), 3);
    let line = text.child(&mut root, usize::MAX);
    assert_eq!(line.index_among_siblings(), 2);
    let line = line.parent(&mut root).child(&mut root, 3);
    assert_eq!(line.index_among_siblings(), 2);
    let line = line.parent(&mut root).child(&mut root, 0);
    let span = line.child(&mut root, 7);
    assert_eq!(span.index_among_siblings(), 2);
    assert_eq!(span.column(), Some(4));
    let span = span.parent(&mut root).child(&mut root, 1);
    assert_eq!(span.index_among_siblings(), 1);
    assert_eq!(span.column(), Some(2));
}

#[test]
fn leaf_and_empty_nodes_stay_in_focus_on_child() {
    let mut root = one_text("ab\n");
    let ch = descend(&mut root, 5);
    let before = ch.duplicate();
    let tree = one_text("ab\n");
    let ch = ch.child(&mut root, 3);
    assert_eq!(ch, before);
    assert_eq!(lit(&root), vec![(0, 0, 0)]);
    assert_eq!(the_text(&root).lines.len(), the_text(&tree).lines.len());

    let mut empty = one_text("");
    let text = descend(&mut empty, 2);
    assert_eq!(text.kind(), NodeKind::Text);
    let still = text.child(&mut empty, 0);
    assert_eq!(still.kind(), NodeKind::Text);
    assert_eq!(empty, one_text(""));
}

#[test]
fn moves_stop_at_the_edges() {
    let mut root = one_text("abc\n");
    let first = descend(&mut root, 5);
    let before = first.duplicate();
    let first = first.move_left(&mut root);
    assert_eq!(first, before);
    assert_eq!(lit(&root), vec![(0, 0, 0)]);
    let mut z = first;
    for expected in [1, 2, 3, 3, 3] {
        z = z.move_right(&mut root);
        assert_eq!(z.index_among_siblings(), expected);
        assert_eq!(lit(&root), vec![(0, 0, expected)]);
    }
    for expected in [2, 1, 0, 0] {
        z = z.move_left(&mut root);
        assert_eq!(z.index_among_siblings(), expected);
        assert_eq!(z.column(), Some(expected));
    }
}

#[test]
fn parent_then_child_at_own_index_comes_back() {
    let mut root = one_text("one two three\nfour five\nsix\n");
    let mut z = descend(&mut root, 2);
    z = z.child(&mut root, 1);
    let line = z.duplicate();
    z = z.child(&mut root, 1);
    let span = z.duplicate();
    z = z.child(&mut root, 2);
    let ch = z.duplicate();
    assert_eq!(lit(&root), vec![(1, 1, 2)]);

    let index = z.index_among_siblings();
    let back = z.parent(&mut root).child(&mut root, index);
    assert_eq!(back, ch);
    assert_eq!(lit(&root), vec![(1, 1, 2)]);

    let up = back.parent(&mut root);
    assert_eq!(up, span);
    let index = up.index_among_siblings();
    let back = up.parent(&mut root).child(&mut root, index);
    assert_eq!(back, span);

    let up = back.parent(&mut root);
    assert_eq!(up, line);
    let index = up.index_among_siblings();
    let back = up.parent(&mut root).child(&mut root, index);
    assert_eq!(back, line);

    let text = back.parent(&mut root);
    let copy = text.duplicate();
    let index = text.index_among_siblings();
    let back = text.parent(&mut root).child(&mut root, index);
    assert_eq!(back, copy);

    let window = back.parent(&mut root);
    let copy = window.duplicate();
    let index = window.index_among_siblings();
    let back = window.parent(&mut root).child(&mut root, index);
    assert_eq!(back, copy);
}

#[test]
fn the_look_is_on_the_focus_and_nowhere_else() {
    let mut root = one_text("ab cd\nef\n");
    assert_eq!(lit(&root), vec![]);
    let z = descend(&mut root, 2);
    assert_eq!(lit(&root), vec![]);
    let z = z.child(&mut root, 0);
    assert_eq!(lit(&root), vec![(0, 0, 0), (0, 0, 1), (0, 0, 2), (0, 1, 0), (0, 1, 1), (0, 1, 2)]);
    let z = z.move_right(&mut root);
    assert_eq!(lit(&root), vec![(1, 0, 0), (1, 0, 1), (1, 0, 2)]);
    let z = z.move_left(&mut root);
    let z = z.child(&mut root, 1);
    assert_eq!(lit(&root), vec![(0, 1, 0), (0, 1, 1), (0, 1, 2)]);
    let z = z.move_left(&mut root);
    assert_eq!(lit(&root), vec![(0, 0, 0), (0, 0, 1), (0, 0, 2)]);
    let z = z.child(&mut root, 1);
    assert_eq!(lit(&root), vec![(0, 0, 1)]);
    let z = z.parent(&mut root);
    assert_eq!(lit(&root), vec![(0, 0, 0), (0, 0, 1), (0, 0, 2)]);
    let z = z.parent(&mut root);
    assert_eq!(lit(&root).len(), 6);
    let z = z.parent(&mut root);
    assert_eq!(z.kind(), NodeKind::Text);
    assert_eq!(lit(&root), vec![]);
}

#[test]
fn moves_change_styles_and_scrolling_only() {
    let mut root = one_text("ab cd\nef\n");
    let mut z = descend(&mut root, 5);
    z = z.move_right(&mut root);
    z = z.parent(&mut root);
    z = z.move_right(&mut root);
    z = z.child(&mut root, 9);
    assert_eq!(z.kind(), NodeKind::Char);
    let fresh = one_text("ab cd\nef\n");
    let now: Vec<Vec<String>> = the_text(&root)
        .lines
        .iter()
        .map(|l| l.spans.iter().map(|s| s.characters.iter().map(|c| c.char).collect()).collect())
        .collect();
    let then: Vec<Vec<String>> = the_text(&fresh)
        .lines
        .iter()
        .map(|l| l.spans.iter().map(|s| s.characters.iter().map(|c| c.char).collect()).collect())
        .collect();
    assert_eq!(now, then);
}

#[test]
fn highlight_puts_the_look_on_and_takes_it_off() {
    let mut root = one_text("ab cd\n");
    let z = descend(&mut root, 4);
    assert_eq!(lit(&root), vec![(0, 0, 0), (0, 0, 1), (0, 0, 2)]);
    z.highlight(&mut root, false);
    assert_eq!(lit(&root), vec![]);
    z.highlight(&mut root, true);
    assert_eq!(lit(&root), vec![(0, 0, 0), (0, 0, 1), (0, 0, 2)]);
    let text = z.parent(&mut root).parent(&mut root);
    text.highlight(&mut root, true);
    assert_eq!(lit(&root), vec![]);
}

fn numbered(lines: usize) -> String {
    let mut content = String::new();
    for i in 0..lines {
        content.push_str(&format!("{}\n", i));
    }
    content
}

#[test]
fn a_line_that_comes_into_focus_is_on_screen() {
    let mut root = one_text(&numbered(50));
    let mut z = descend(&mut root, 3);
    assert_eq!(the_text(&root).height, 10);
    for step in 1..50usize {
        z = z.move_right(&mut root);
        assert_eq!(z.index_among_siblings(), step);
        let text = the_text(&root);
        assert!(text.scroll_offset <= step && step < text.scroll_offset + text.height);
        let expected = if step < 10 { 0 } else { step - 9 };
        assert_eq!(text.scroll_offset, expected);
    }
    for step in (0..49usize).rev() {
        z = z.move_left(&mut root);
        let text = the_text(&root);
        assert!(text.scroll_offset <= step && step < text.scroll_offset + text.height);
        let expected = if step >= 40 { 40 } else { step };
        assert_eq!(text.scroll_offset, expected);
    }
    let text = z.parent(&mut root);
    let last = text.child(&mut root, usize::MAX);
    assert_eq!(last.index_among_siblings(), 49);
    assert_eq!(the_text(&root).scroll_offset, 40);
}

#[test]
fn line_zipper_new_scrolls_and_clamps() {
    let mut root = one_text(&numbered(30));
    let text = match descend(&mut root, 2) {
        AnyZipper::Text(t) => t,
        _ => panic!("a text"),
    };
    let line = LineZipper::new(100, text, &mut root);
    assert_eq!(line.row, 29);
    assert_eq!(line.left, 29);
    assert_eq!(line.right, 0);
    assert_eq!(line.children, 1);
    assert_eq!(the_text(&root).scroll_offset, 20);
    assert_eq!(lit(&root), vec![]);
}

#[test]
fn span_zipper_column_counts_the_characters_before() {
    let mut root = one_text("ab cde  f\n");
    let line = match descend(&mut root, 3) {
        AnyZipper::Line(l) => l,
        _ => panic!("a line"),
    };
    assert_eq!(line.children, 4);
    let span = SpanZipper::new(3, line, &root);
    assert_eq!(span.column, 8);
    assert_eq!(span.left, 3);
    assert_eq!(span.right, 0);
    assert_eq!(span.children, 2);
    let ch = CharZipper::new(1, span, &root);
    assert_eq!(ch.column, 9);
    assert_eq!(ch.left, 1);
    assert_eq!(ch.right, 0);
    let span = SpanZipper::new(1, ch.parent.parent, &root);
    assert_eq!(span.column, 3);
    assert_eq!(span.children, 4);
    let ch = CharZipper::new(usize::MAX, span, &root);
    assert_eq!(ch.left, 3);
    assert_eq!(ch.column, 6);
}

#[test]
fn window_and_text_zippers_are_made_from_their_parents() {
    let root = one_text("a\nb\n");
    let top = RootZipper::new(&root);
    let window = WindowZipper::new(4, WindowParent::Root(top), &root);
    assert_eq!(window.left, 0);
    assert_eq!(window.right, 0);
    assert_eq!(window.children, 1);
    assert_eq!(window.area, screen());
    assert_eq!(window.path(), vec![0]);
    let text = TextZipper::new(0, window, &root);
    assert_eq!(text.children, 2);
    assert_eq!(text.left, 0);
    assert_eq!(text.path(), vec![0, 0]);
}

#[test]
fn cousin_moves_cross_the_edge_of_a_span() {
    let mut root = one_text("ab cd\n");
    let first = match descend(&mut root, 5) {
        AnyZipper::Char(c) => c,
        _ => panic!("a character"),
    };
    let mut z = first.move_left_or_cousin(&mut root);
    assert_eq!((z.row(), z.column()), (Some(0), Some(0)));
    assert_eq!(lit(&root), vec![(0, 0, 0)]);
    let expected = [(0, 1), (0, 2), (1, 0), (1, 1), (1, 2), (1, 2)];
    for (i, (span, index)) in expected.iter().enumerate() {
        z = match z {
            AnyZipper::Char(c) => c.move_right_or_cousin(&mut root),
            _ => panic!("a character"),
        };
        assert_eq!(lit(&root), vec![(0, *span, *index)]);
        assert_eq!(z.column(), Some(if i < 5 { i + 1 } else { 5 }));
    }
    let back = [(1, 1), (1, 0), (0, 2), (0, 1), (0, 0), (0, 0)];
    for (span, index) in back {
        z = match z {
            AnyZipper::Char(c) => c.move_left_or_cousin(&mut root),
            _ => panic!("a character"),
        };
        assert_eq!(z.kind(), NodeKind::Char);
        assert_eq!(lit(&root), vec![(0, span, index)]);
    }
}

#[test]
fn cousin_move_does_not_enter_an_empty_span() {
    let mut root = one_text("ab cd\n");
    match &mut root.children[0].children[0] {
        WindowChild::Text(t) => {
            t.lines[0].spans[1].characters.clear();
        }
        WindowChild::Window(_) => panic!("a text"),
    }
    let mut z = descend(&mut root, 5);
    z = z.move_right(&mut root).move_right(&mut root);
    assert_eq!(lit(&root), vec![(0, 0, 2)]);
    let before = z.duplicate();
    z = match z {
        AnyZipper::Char(c) => c.move_right_or_cousin(&mut root),
        _ => panic!("a character"),
    };
    assert_eq!(z, before);
    assert_eq!(lit(&root), vec![(0, 0, 2)]);
}

fn two_panes() -> Root {
    let mut inner = Window::new(SplitDirection::Horizontal, screen());
    inner.add_text(String::from("inner\n"), 0);
    let mut outer = Window::new(SplitDirection::Vertical, screen());
    outer.add_text(String::from("left\n"), 0);
    outer.add_child(WindowChild::Window(inner), 1);
    outer.add_text(String::from("right\n"), 2);
    let mut root = Root::new(SplitDirection::Vertical, screen());
    root.add_child(outer, 0);
    root.add_window(SplitDirection::Vertical, 1);
    root
}

#[test]
fn children_of_a_window_are_windows_or_texts() {
    let mut root = two_panes();
    let outer = descend(&mut root, 1);
    assert_eq!(outer.children(), 3);
    let left = outer.child(&mut root, 0);
    assert_eq!(left.kind(), NodeKind::Text);
    let inner = left.move_right(&mut root);
    assert_eq!(inner.kind(), NodeKind::Window);
    assert_eq!(inner.index_among_siblings(), 1);
    let right = inner.move_right(&mut root);
    assert_eq!(right.kind(), NodeKind::Text);
    assert_eq!(right.index_among_siblings(), 2);
    let still = right.move_right(&mut root);
    assert_eq!(still.index_among_siblings(), 2);
    let inner = still.move_left(&mut root);
    assert_eq!(inner.kind(), NodeKind::Window);
    let text = inner.child(&mut root, 0);
    assert_eq!(text.kind(), NodeKind::Text);
    let line = text.child(&mut root, 0);
    assert_eq!(line.kind(), NodeKind::Line);
    let lit_inner = root
        .text_at(&vec![0, 1, 0])
        .unwrap()
        .lines
        .iter()
        .flat_map(|l| l.spans.iter())
        .flat_map(|s| s.characters.iter())
        .filter(|c| c.style.is_cursor())
        .count();
    assert_eq!(lit_inner, 6);
    for path in [vec![0, 0], vec![0, 2]] {
        let other = root
            .text_at(&path)
            .unwrap()
            .lines
            .iter()
            .flat_map(|l| l.spans.iter())
            .flat_map(|s| s.characters.iter())
            .filter(|c| c.style.is_cursor())
            .count();
        assert_eq!(other, 0);
    }
    let up = line.parent(&mut root).parent(&mut root).parent(&mut root).parent(&mut root);
    assert_eq!(up.kind(), NodeKind::Root);
}

#[test]
fn windows_of_the_root_are_siblings() {
    let mut root = two_panes();
    let first = descend(&mut root, 1);
    let second = first.move_right(&mut root);
    assert_eq!(second.kind(), NodeKind::Window);
    assert_eq!(second.index_among_siblings(), 1);
    assert_eq!(second.children(), 0);
    let still = second.child(&mut root, 0);
    assert_eq!(still.kind(), NodeKind::Window);
    assert_eq!(still.index_among_siblings(), 1);
    let first = still.move_left(&mut root);
    assert_eq!(first.index_among_siblings(), 0);
    assert_eq!(first.children(), 3);
}

#[test]
fn a_zipper_remembers_the_tree_it_was_made_in() {
    let mut root = one_text("ab cd\nef\n");
    let mut z = AnyZipper::Root(RootZipper::new(&root));
    for _ in 0..6 {
        assert!(z.remembers(&root));
        z = z.child(&mut root, 1);
    }
    assert_eq!(z.kind(), NodeKind::Char);
    assert!(z.remembers(&root));
    let z = z.parent(&mut root).move_right(&mut root).child(&mut root, 2);
    assert!(z.remembers(&root));
}

#[test]
fn a_zipper_does_not_remember_a_tree_of_another_shape() {
    let mut root = one_text("ab cd\nef\n");
    let ch = descend(&mut root, 5);
    let span = ch.duplicate().parent(&mut one_text("ab cd\nef\n"));
    let line = span.duplicate().parent(&mut one_text("ab cd\nef\n"));
    let text = line.duplicate().parent(&mut one_text("ab cd\nef\n"));
    let window = text.duplicate().parent(&mut one_text("ab cd\nef\n"));
    let top = window.duplicate().parent(&mut one_text("ab cd\nef\n"));
    for z in [&ch, &span, &line, &text, &window, &top] {
        assert!(z.remembers(&root));
    }
    root.edit_text(
        &vec![0, 0],
        zipper_edit::edit::TextEdit::InsertChar { line: 0, span: 0, at: 0, ch: 'X' },
    );
    assert!(!ch.remembers(&root));
    assert!(!span.remembers(&root));
    assert!(line.remembers(&root));
    assert!(text.remembers(&root));
    let other = one_text("ab\n");
    assert!(!ch.remembers(&other));
    assert!(!text.remembers(&other));
    assert!(window.remembers(&other));
    let empty = Root::new(SplitDirection::Vertical, screen());
    for z in [&ch, &span, &line, &text, &window, &top] {
        assert!(!z.remembers(&empty));
    }
    let bent = AnyZipper::Char(CharZipper {
        column: 7,
        ..match ch.duplicate() {
            AnyZipper::Char(c) => c,
            _ => panic!("a character"),
        }
    });
    assert!(!bent.remembers(&one_text("ab cd\nef\n")));
}

#[test]
fn a_move_leaves_the_zipper_moved_from() {
    let mut root = one_text("ab cd\nef\n");
    let line = descend(&mut root, 3);
    let span = line.child(&mut root, 1);
    let ch = span.child(&mut root, 0);
    assert_eq!(line.kind(), NodeKind::Line);
    assert_eq!(span.kind(), NodeKind::Span);
    assert_eq!(ch.kind(), NodeKind::Char);
    assert_eq!(ch.parent(&mut root), span);
    assert_eq!(span.parent(&mut root), line);
    let again = line.child(&mut root, 1).child(&mut root, 0);
    assert_eq!(again, ch);
    assert_eq!(lit(&root), vec![(0, 1, 0)]);
    let next = match &ch {
        AnyZipper::Char(c) => c.move_right_or_cousin(&mut root),
        _ => panic!("a character"),
    };
    assert_eq!(next.column(), Some(4));
    assert_eq!(ch.column(), Some(3));
}

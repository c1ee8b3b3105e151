use zipper_edit::edit::{Region, TextEdit};
use zipper_edit::geometry::Rect;
use zipper_edit::loading::{chars_of, split_chars};
use zipper_edit::primatives::{
    can_hold, insert_clamped, remove_at, replace_at, Char, Line, Node, NodeKind, Root, Span,
    SplitDirection, StructuralMismatch, Text, Window, WindowChild,
};
use zipper_edit::style::{Color, Style, BOLD, ITALIC};

fn text_of_span(span: &Span) -> String {
    span.characters.iter().map(|c| c.char).collect()
}

fn spans_of(line: &Line) -> Vec<String> {
    line.spans.iter().map(text_of_span).collect()
}

fn area() -> Rect {
    Rect::new(0, 0, 40, 10)
}

fn kinds() -> Vec<NodeKind> {
    vec![
        NodeKind::Root,
        NodeKind::Window,
        NodeKind::Text,
        NodeKind::Line,
        NodeKind::Span,
        NodeKind::Char,
    ]
}

fn node_of(kind: NodeKind) -> Option<Node> {
    match kind {
        NodeKind::Root => None,
        NodeKind::Window => Some(Node::Window(Window::new(SplitDirection::Vertical, area()))),
        NodeKind::Text => Some(Node::Text(Text::raw(String::from("t")))),
        NodeKind::Line => Some(Node::Line(Line::raw("l"))),
        NodeKind::Span => Some(Node::Span(Span::raw("s"))),
        NodeKind::Char => Some(Node::Char(Char::plain('c'))),
    }
}

#[test]
fn root_starts_without_windows() {
    let root = Root::new(SplitDirection::Vertical, area());
    assert_eq!(root.children.len(), 0);
    assert_eq!(root.area, area());
    assert_eq!(root.split_dir, SplitDirection::Vertical);
}

#[test]
fn insert_shifts_later_siblings_right() {
    let mut v = vec!['a', 'b', 'c'];
    let at = insert_clamped(&mut v, 'x', 1);
    assert_eq!(at, 1);
    assert_eq!(v, vec!['a', 'x', 'b', 'c']);
}

#[test]
fn insert_at_front_and_at_len() {
    let mut v = vec![1, 2];
    assert_eq!(insert_clamped(&mut v, 0, 0), 0);
    assert_eq!(v, vec![0, 1, 2]);
    assert_eq!(insert_clamped(&mut v, 3, 3), 3);
    assert_eq!(v, vec![0, 1, 2, 3]);
}

#[test]
fn insert_past_the_end_appends() {
    let mut v = vec![1, 2, 3];
    assert_eq!(insert_clamped(&mut v, 9, 3 + 5), 3);
    assert_eq!(v, vec![1, 2, 3, 9]);
    let mut w: Vec<u8> = Vec::new();
    assert_eq!(insert_clamped(&mut w, 7, usize::MAX), 0);
    assert_eq!(w, vec![7]);
}

#[test]
fn remove_and_replace_by_index() {
    let mut v = vec![10, 20, 30];
    assert_eq!(remove_at(&mut v, 1), Some(20));
    assert_eq!(v, vec![10, 30]);
    assert_eq!(remove_at(&mut v, 2), None);
    assert_eq!(v, vec![10, 30]);
    assert_eq!(replace_at(&mut v, 0, 11), Some(10));
    assert_eq!(v, vec![11, 30]);
    assert_eq!(replace_at(&mut v, 5, 99), None);
    assert_eq!(v, vec![11, 30]);
}

#[test]
fn can_hold_is_the_table_of_levels() {
    for parent in kinds() {
        for child in kinds() {
            let expected = matches!(
                (parent, child),
                (NodeKind::Root, NodeKind::Window)
                    | (NodeKind::Window, NodeKind::Window)
                    | (NodeKind::Window, NodeKind::Text)
                    | (NodeKind::Text, NodeKind::Line)
                    | (NodeKind::Line, NodeKind::Span)
                    | (NodeKind::Span, NodeKind::Char)
            );
            assert_eq!(can_hold(parent, child), expected);
        }
    }
}

#[test]
fn try_add_child_follows_the_table_for_every_pair() {
    for child_kind in kinds() {
        let Some(_) = node_of(child_kind) else { continue };

        let mut root = Root::new(SplitDirection::Vertical, area());
        let r = root.try_add_child(node_of(child_kind).unwrap(), 0);
        assert_eq!(r.is_ok(), can_hold(NodeKind::Root, child_kind));
        assert_eq!(root.children.len(), if r.is_ok() { 1 } else { 0 });

        let mut window = Window::new(SplitDirection::Vertical, area());
        let r = window.try_add_child(node_of(child_kind).unwrap(), 0);
        assert_eq!(r.is_ok(), can_hold(NodeKind::Window, child_kind));
        assert_eq!(window.children.len(), if r.is_ok() { 1 } else { 0 });

        let mut text = Text::raw(String::new());
        let r = text.try_add_child(node_of(child_kind).unwrap(), 0);
        assert_eq!(r.is_ok(), can_hold(NodeKind::Text, child_kind));
        assert_eq!(text.lines.len(), if r.is_ok() { 1 } else { 0 });

        let mut line = Line::raw("");
        let r = line.try_add_child(node_of(child_kind).unwrap(), 0);
        assert_eq!(r.is_ok(), can_hold(NodeKind::Line, child_kind));
        assert_eq!(line.spans.len(), if r.is_ok() { 1 } else { 0 });

        let mut span = Span::raw("");
        let r = span.try_add_child(node_of(child_kind).unwrap(), 0);
        assert_eq!(r.is_ok(), can_hold(NodeKind::Span, child_kind));
        assert_eq!(span.characters.len(), if r.is_ok() { 1 } else { 0 });

        let mut ch = Char::plain('x');
        let r = ch.try_add_child(node_of(child_kind).unwrap(), 0);
        assert!(r.is_err());
        assert_eq!(ch, Char::plain('x'));
    }
}

#[test]
fn mismatch_names_both_kinds_and_leaves_the_parent() {
    let mut span = Span::raw("ab");
    let before = span.clone();
    let r = span.try_add_child(Node::Line(Line::raw("x")), 1);
    assert_eq!(
        r,
        Err(StructuralMismatch { parent: NodeKind::Span, child: NodeKind::Line })
    );
    assert_eq!(span, before);

    let mut text = Text::raw(String::from("a\nb\n"));
    let before = text.clone();
    let r = text.try_add_child(Node::Char(Char::plain('z')), 0);
    assert_eq!(
        r,
        Err(StructuralMismatch { parent: NodeKind::Text, child: NodeKind::Char })
    );
    assert_eq!(text, before);

    let mut root = Root::new(SplitDirection::Horizontal, area());
    root.add_window(SplitDirection::Vertical, 0);
    let r = root.try_add_child(Node::Text(Text::raw(String::from("t"))), 0);
    assert_eq!(
        r,
        Err(StructuralMismatch { parent: NodeKind::Root, child: NodeKind::Text })
    );
    assert_eq!(root.children.len(), 1);

    let mut window = Window::new(SplitDirection::Vertical, area());
    let r = window.try_add_child(Node::Span(Span::raw("s")), 0);
    assert_eq!(
        r,
        Err(StructuralMismatch { parent: NodeKind::Window, child: NodeKind::Span })
    );
    assert_eq!(window.children.len(), 0);

    let mut line = Line::raw("a b");
    let r = line.try_add_child(Node::Window(Window::new(SplitDirection::Vertical, area())), 0);
    assert_eq!(
        r,
        Err(StructuralMismatch { parent: NodeKind::Line, child: NodeKind::Window })
    );
    assert_eq!(spans_of(&line), vec!["a ", "b"]);
}

#[test]
fn try_add_child_puts_the_child_at_the_index() {
    let mut span = Span::raw("ac");
    assert_eq!(span.try_add_child(Node::Char(Char::plain('b')), 1), Ok(1));
    assert_eq!(text_of_span(&span), "abc");
    assert_eq!(span.try_add_child(Node::Char(Char::plain('d')), 100), Ok(3));
    assert_eq!(text_of_span(&span), "abcd");

    let mut window = Window::new(SplitDirection::Vertical, area());
    assert_eq!(window.try_add_child(Node::Text(Text::raw(String::from("x"))), 0), Ok(0));
    assert_eq!(
        window.try_add_child(Node::Window(Window::new(SplitDirection::Horizontal, area())), 0),
        Ok(0)
    );
    assert_eq!(window.children[0].kind(), NodeKind::Window);
    assert_eq!(window.children[1].kind(), NodeKind::Text);
}

#[test]
fn add_window_takes_the_parents_area() {
    let mut root = Root::new(SplitDirection::Vertical, area());
    assert_eq!(root.add_window(SplitDirection::Horizontal, 7), 0);
    assert_eq!(root.add_window(SplitDirection::Vertical, 0), 0);
    assert_eq!(root.children.len(), 2);
    assert_eq!(root.children[0].split_dir, SplitDirection::Vertical);
    assert_eq!(root.children[1].split_dir, SplitDirection::Horizontal);
    assert_eq!(root.children[0].area, area());

    let mut window = Window::new(SplitDirection::Vertical, Rect::new(1, 2, 3, 4));
    assert_eq!(window.add_window(SplitDirection::Horizontal, 0), 0);
    match &window.children[0] {
        WindowChild::Window(w) => {
            assert_eq!(w.area, Rect::new(1, 2, 3, 4));
            assert_eq!(w.split_dir, SplitDirection::Horizontal);
            assert!(w.children.is_empty());
        }
        WindowChild::Text(_) => panic!("a window was added"),
    }
}

#[test]
fn add_text_shows_as_many_lines_as_the_window_is_high() {
    let mut window = Window::new(SplitDirection::Vertical, Rect::new(0, 0, 80, 24));
    assert_eq!(window.add_text(String::from("one\ntwo\n"), 3), 0);
    match &window.children[0] {
        WindowChild::Text(t) => {
            assert_eq!(t.height, 24);
            assert_eq!(t.scroll_offset, 0);
            assert_eq!(t.lines.len(), 2);
            assert_eq!(t.alignment, None);
        }
        WindowChild::Window(_) => panic!("a text was added"),
    }
}

#[test]
fn text_is_cut_behind_each_line_feed() {
    let text = Text::raw(String::from("hello\nworld\n"));
    assert_eq!(text.lines.len(), 2);
    assert_eq!(spans_of(&text.lines[0]), vec!["hello\n"]);
    assert_eq!(spans_of(&text.lines[1]), vec!["world\n"]);
    assert_eq!(text.scroll_offset, 0);
    assert_eq!(text.height, 0);
}

#[test]
fn text_without_a_final_line_feed_keeps_its_last_line() {
    let text = Text::raw(String::from("a b\nc"));
    assert_eq!(text.lines.len(), 2);
    assert_eq!(spans_of(&text.lines[0]), vec!["a ", "b\n"]);
    assert_eq!(spans_of(&text.lines[1]), vec!["c"]);
}

#[test]
fn empty_text_has_no_line() {
    let text = Text::raw(String::new());
    assert_eq!(text.lines.len(), 0);
}

#[test]
fn line_feeds_alone_are_lines_of_one_span() {
    let text = Text::raw(String::from("\n\n"));
    assert_eq!(text.lines.len(), 2);
    assert_eq!(spans_of(&text.lines[0]), vec!["\n"]);
    assert!(text.lines[0].spans[0].is_newline());
}

#[test]
fn line_is_cut_behind_each_blank() {
    assert_eq!(spans_of(&Line::raw("the quick  fox")), vec!["the ", "quick ", " ", "fox"]);
    assert_eq!(spans_of(&Line::raw("  ")), vec![" ", " "]);
    assert_eq!(spans_of(&Line::raw("end ")), vec!["end "]);
    assert!(Line::raw("").spans.is_empty());
}

#[test]
fn split_chars_cuts_behind_the_separator() {
    let s: Vec<char> = "a,b,,c".chars().collect();
    let pieces: Vec<String> = split_chars(&s, ',').iter().map(|p| p.iter().collect()).collect();
    assert_eq!(pieces, vec!["a,", "b,", ",", "c"]);
    assert!(split_chars(&Vec::new(), ',').is_empty());
    assert_eq!(chars_of("héllo"), vec!['h', 'é', 'l', 'l', 'o']);
}

#[test]
fn span_raw_is_plain() {
    let span = Span::raw("ab");
    assert_eq!(span.characters, vec![Char::plain('a'), Char::plain('b')]);
    assert_eq!(span.characters[0].style, Style::plain());
    assert_eq!(Style::plain(), Style { fg: None, bg: None, add_modifier: 0, sub_modifier: 0 });
    assert_eq!(Style::default(), Style::plain());
}

#[test]
fn is_newline_only_for_a_single_line_feed() {
    assert!(Span::raw("\n").is_newline());
    assert!(!Span::raw("a").is_newline());
    assert!(!Span::raw("\n\n").is_newline());
    assert!(!Span::raw("").is_newline());
    assert!(!Span::raw("a\n").is_newline());
}

#[test]
fn char_len_is_the_sum_of_the_spans() {
    assert_eq!(Line::raw("the quick fox").char_len(), 13);
    assert_eq!(Line::raw("").char_len(), 0);
    let line = Line::raw("ab cd ef");
    assert_eq!(line.prefix_len(0), 0);
    assert_eq!(line.prefix_len(1), 3);
    assert_eq!(line.prefix_len(2), 6);
    assert_eq!(line.prefix_len(3), 8);
}

#[test]
fn add_line_and_add_span_keep_the_order() {
    let mut text = Text::raw(String::from("a\nc\n"));
    assert_eq!(text.add_line(Line::raw("b\n"), 1), 1);
    let lines: Vec<Vec<String>> = text.lines.iter().map(spans_of).collect();
    assert_eq!(lines, vec![vec!["a\n"], vec!["b\n"], vec!["c\n"]]);
    assert_eq!(text.add_line(Line::raw("d"), 99), 3);
    assert_eq!(spans_of(&text.lines[3]), vec!["d"]);

    let mut line = Line::raw("a c");
    assert_eq!(line.add_span(Span::raw("b "), 1), 1);
    assert_eq!(spans_of(&line), vec!["a ", "b ", "c"]);
    assert_eq!(line.add_child(Span::raw("z"), 0), 0);
    assert_eq!(spans_of(&line), vec!["z", "a ", "b ", "c"]);
}

#[test]
fn remove_child_hands_the_child_back() {
    let mut text = Text::raw(String::from("a\nb\nc\n"));
    let removed = text.remove_child(1).unwrap();
    assert_eq!(spans_of(&removed), vec!["b\n"]);
    assert_eq!(text.lines.len(), 2);
    assert!(text.remove_child(2).is_none());
    assert_eq!(text.lines.len(), 2);

    let mut span = Span::raw("abc");
    assert_eq!(span.remove_child(0), Some(Char::plain('a')));
    assert_eq!(text_of_span(&span), "bc");
    assert_eq!(span.remove_child(2), None);

    let mut root = Root::new(SplitDirection::Vertical, area());
    root.add_window(SplitDirection::Vertical, 0);
    assert!(root.remove_child(1).is_none());
    assert!(root.remove_child(0).is_some());
    assert!(root.children.is_empty());
}

#[test]
fn replace_child_swaps_one_child() {
    let mut span = Span::raw("abc");
    assert_eq!(span.replace_child(1, Char::plain('x')), Some(Char::plain('b')));
    assert_eq!(text_of_span(&span), "axc");
    assert_eq!(span.replace_child(3, Char::plain('y')), None);
    assert_eq!(text_of_span(&span), "axc");

    let mut line = Line::raw("a b");
    let old = line.replace_child(0, Span::raw("z ")).unwrap();
    assert_eq!(text_of_span(&old), "a ");
    assert_eq!(spans_of(&line), vec!["z ", "b"]);

    let mut window = Window::new(SplitDirection::Vertical, area());
    window.add_text(String::from("t"), 0);
    let old = window.replace_child(
        0,
        WindowChild::Window(Window::new(SplitDirection::Horizontal, area())),
    );
    assert_eq!(old.unwrap().kind(), NodeKind::Text);
    assert_eq!(window.children[0].kind(), NodeKind::Window);
}

#[test]
fn get_line_reaches_the_last_line_past_the_end() {
    let text = Text::raw(String::from("a\nb\nc"));
    assert_eq!(spans_of(text.get_line(0)), vec!["a\n"]);
    assert_eq!(spans_of(text.get_line(2)), vec!["c"]);
    assert_eq!(spans_of(text.get_line(3)), vec!["c"]);
    assert_eq!(spans_of(text.get_line(usize::MAX)), vec!["c"]);
}

fn long_text(lines: usize, height: usize) -> Text {
    let mut content = String::new();
    for i in 0..lines {
        content.push_str(&format!("line {}\n", i));
    }
    let mut text = Text::raw(content);
    text.height = height;
    text
}

#[test]
fn scroll_to_a_line_above_the_window_puts_it_first() {
    let mut text = long_text(100, 20);
    text.scroll_offset = 50;
    text.scroll_to(10);
    assert_eq!(text.scroll_offset, 10);
}

#[test]
fn scroll_to_a_line_below_the_window_puts_it_last() {
    let mut text = long_text(100, 20);
    text.scroll_to(20);
    assert_eq!(text.scroll_offset, 1);
    text.scroll_to(99);
    assert_eq!(text.scroll_offset, 80);
}

#[test]
fn scroll_to_a_line_on_screen_changes_nothing() {
    let mut text = long_text(100, 20);
    text.scroll_offset = 5;
    text.scroll_to(5);
    assert_eq!(text.scroll_offset, 5);
    text.scroll_to(24);
    assert_eq!(text.scroll_offset, 5);
    text.scroll_to(25);
    assert_eq!(text.scroll_offset, 6);
}

#[test]
fn scroll_to_a_line_that_is_not_there_changes_nothing() {
    let mut text = long_text(10, 3);
    text.scroll_offset = 2;
    text.scroll_to(10);
    assert_eq!(text.scroll_offset, 2);
    text.scroll_to(usize::MAX);
    assert_eq!(text.scroll_offset, 2);
}

#[test]
fn scroll_with_an_empty_window_steps_past_the_line() {
    let mut text = long_text(10, 0);
    text.scroll_to(4);
    assert_eq!(text.scroll_offset, 5);
}

fn lit_positions(text: &Text) -> Vec<(usize, usize, usize)> {
    let mut out = Vec::new();
    for (l, line) in text.lines.iter().enumerate() {
        for (s, span) in line.spans.iter().enumerate() {
            for (c, ch) in span.characters.iter().enumerate() {
                if ch.style.is_cursor() {
                    out.push((l, s, c));
                }
            }
        }
    }
    out
}

#[test]
fn highlight_sets_black_on_white_and_no_highlight_resets() {
    let mut ch = Char::plain('a');
    ch.highlight();
    assert_eq!(
        ch.style,
        Style { fg: Some(Color::Black), bg: Some(Color::White), add_modifier: 0, sub_modifier: 0 }
    );
    assert_eq!(ch.style, Style::cursor());
    assert!(ch.style.is_cursor());
    assert_eq!(ch.char, 'a');
    ch.no_highlight();
    assert_eq!(ch.style, Style::plain());
    assert!(!ch.style.is_cursor());
    assert!(!Style { fg: Some(Color::Black), ..Style::plain() }.is_cursor());
    assert!(!Style { fg: Some(Color::White), bg: Some(Color::White), ..Style::plain() }.is_cursor());
}

#[test]
fn set_highlight_covers_exactly_the_region() {
    let mut text = Text::raw(String::from("ab cd\nef\n"));
    text.set_highlight(Region::Line(0), true);
    assert_eq!(lit_positions(&text), vec![(0, 0, 0), (0, 0, 1), (0, 0, 2), (0, 1, 0), (0, 1, 1), (0, 1, 2)]);
    text.set_highlight(Region::Span(0, 1), false);
    assert_eq!(lit_positions(&text), vec![(0, 0, 0), (0, 0, 1), (0, 0, 2)]);
    text.set_highlight(Region::Char(1, 0, 1), true);
    assert_eq!(lit_positions(&text), vec![(0, 0, 0), (0, 0, 1), (0, 0, 2), (1, 0, 1)]);
    text.set_highlight(Region::Nowhere, true);
    text.set_highlight(Region::Line(7), true);
    text.set_highlight(Region::Span(0, 9), true);
    text.set_highlight(Region::Char(1, 0, 9), true);
    assert_eq!(lit_positions(&text).len(), 4);
    text.set_highlight(Region::Line(0), false);
    assert_eq!(lit_positions(&text), vec![(1, 0, 1)]);
}

#[test]
fn span_and_line_highlight_reach_every_character() {
    let mut span = Span::raw("abc");
    span.highlight();
    assert!(span.characters.iter().all(|c| c.style.is_cursor()));
    span.no_highlight();
    assert!(span.characters.iter().all(|c| c.style == Style::plain()));
    let mut line = Line::raw("a b");
    line.highlight();
    assert!(line.spans.iter().all(|s| s.characters.iter().all(|c| c.style.is_cursor())));
    line.no_highlight();
    assert!(line.spans.iter().all(|s| s.characters.iter().all(|c| !c.style.is_cursor())));
}

#[test]
fn apply_carries_out_each_edit() {
    let mut text = Text::raw(String::from("ab\ncd\n"));
    text.height = 1;
    text.apply(TextEdit::MoveCursor { from: Region::Nowhere, to: Region::Char(0, 0, 0) });
    assert_eq!(lit_positions(&text), vec![(0, 0, 0)]);
    text.apply(TextEdit::MoveCursor { from: Region::Char(0, 0, 0), to: Region::Char(1, 0, 1) });
    assert_eq!(lit_positions(&text), vec![(1, 0, 1)]);
    text.apply(TextEdit::ScrollTo(1));
    assert_eq!(text.scroll_offset, 1);
    text.apply(TextEdit::InsertChar { line: 0, span: 0, at: 1, ch: 'X' });
    assert_eq!(spans_of(&text.lines[0]), vec!["aXb\n"]);
    text.apply(TextEdit::InsertChar { line: 0, span: 0, at: 99, ch: 'Y' });
    assert_eq!(spans_of(&text.lines[0]), vec!["aXb\nY"]);
    text.apply(TextEdit::InsertChar { line: 5, span: 0, at: 0, ch: 'Z' });
    text.apply(TextEdit::InsertChar { line: 0, span: 3, at: 0, ch: 'Z' });
    assert_eq!(text.lines.len(), 2);
    assert_eq!(spans_of(&text.lines[0]), vec!["aXb\nY"]);
    assert_eq!(lit_positions(&text), vec![(1, 0, 1)]);
}

fn nested_root() -> Root {
    let mut inner = Window::new(SplitDirection::Horizontal, area());
    inner.add_text(String::from("inner\n"), 0);
    let mut outer = Window::new(SplitDirection::Vertical, area());
    outer.add_text(String::from("left\n"), 0);
    outer.add_child(WindowChild::Window(inner), 1);
    let mut root = Root::new(SplitDirection::Vertical, area());
    root.add_child(outer, 0);
    root
}

#[test]
fn paths_lead_to_windows_and_texts() {
    let root = nested_root();
    assert!(root.window_at(&vec![]).is_none());
    assert!(root.window_at(&vec![0]).is_some());
    assert!(root.window_at(&vec![1]).is_none());
    assert!(root.window_at(&vec![0, 1]).is_some());
    assert!(root.window_at(&vec![0, 0]).is_none());
    assert!(root.text_at(&vec![0]).is_none());
    assert_eq!(spans_of(&root.text_at(&vec![0, 0]).unwrap().lines[0]), vec!["left\n"]);
    assert_eq!(spans_of(&root.text_at(&vec![0, 1, 0]).unwrap().lines[0]), vec!["inner\n"]);
    assert!(root.text_at(&vec![0, 1]).is_none());
    assert!(root.text_at(&vec![0, 0, 0]).is_none());
    assert!(root.text_at(&vec![0, 2]).is_none());
}

#[test]
fn edit_text_reaches_only_the_text_on_the_path() {
    let mut root = nested_root();
    root.edit_text(&vec![0, 1, 0], TextEdit::InsertChar { line: 0, span: 0, at: 0, ch: '>' });
    assert_eq!(spans_of(&root.text_at(&vec![0, 1, 0]).unwrap().lines[0]), vec![">inner\n"]);
    assert_eq!(spans_of(&root.text_at(&vec![0, 0]).unwrap().lines[0]), vec!["left\n"]);
    let before = nested_root();
    let mut same = nested_root();
    same.edit_text(&vec![0, 1], TextEdit::ScrollTo(0));
    same.edit_text(&vec![], TextEdit::ScrollTo(0));
    same.edit_text(&vec![3, 0], TextEdit::ScrollTo(0));
    same.edit_text(&vec![0, 0, 0], TextEdit::InsertChar { line: 0, span: 0, at: 0, ch: '>' });
    assert_eq!(same, before);
}

#[test]
fn resize_gives_the_root_the_whole_screen() {
    let mut root = nested_root();
    root.resize(40, 10);
    assert_eq!(root.area, Rect { x: 0, y: 0, width: 40, height: 10 });
    assert_eq!(root.children.len(), 1);
}

#[test]
fn rect_intersection_and_contains() {
    let a = Rect::new(2, 3, 10, 5);
    assert_eq!(a.right(), 12);
    assert_eq!(a.bottom(), 8);
    assert!(a.contains(2, 3));
    assert!(a.contains(11, 7));
    assert!(!a.contains(12, 7));
    assert!(!a.contains(11, 8));
    assert!(!a.contains(1, 3));
    assert_eq!(a.intersection(Rect::new(5, 0, 20, 5)), Rect::new(5, 3, 7, 2));
    assert!(a.intersection(Rect::new(20, 20, 5, 5)).is_empty());
    assert_eq!(Rect::new(65530, 0, 10, 1).right(), u16::MAX);
    assert!(!Rect::new(65530, 0, 10, 1).contains(u16::MAX, 0));
    assert!(Rect::new(0, 0, 0, 5).is_empty());
    assert!(Rect::new(0, 0, 5, 0).is_empty());
    assert!(!Rect::new(0, 0, 1, 1).is_empty());
}

#[test]
fn a_node_of_any_kind_takes_what_its_kind_can_hold() {
    for parent_kind in kinds() {
        for child_kind in kinds() {
            let (Some(mut parent), Some(child)) = (node_of(parent_kind), node_of(child_kind)) else {
                continue;
            };
            let before = parent.len();
            let r = parent.try_add_child(child, usize::MAX);
            assert_eq!(parent.kind(), parent_kind);
            if can_hold(parent_kind, child_kind) {
                assert_eq!(r, Ok(before));
                assert_eq!(parent.len(), before + 1);
            } else {
                assert_eq!(
                    r,
                    Err(StructuralMismatch { parent: parent_kind, child: child_kind })
                );
                assert_eq!(Some(parent), node_of(parent_kind));
            }
        }
    }
}

#[test]
fn a_node_puts_its_child_at_the_index() {
    let mut line = Node::Line(Line::raw("a c"));
    assert_eq!(line.len(), 2);
    assert_eq!(line.try_add_child(Node::Span(Span::raw("b ")), 1), Ok(1));
    match &line {
        Node::Line(l) => assert_eq!(spans_of(l), vec!["a ", "b ", "c"]),
        _ => panic!("a line"),
    }
    assert_eq!(Node::Char(Char::plain('x')).len(), 0);
    assert_eq!(Node::Text(Text::raw(String::from("a\nb"))).len(), 2);
    assert_eq!(Node::Span(Span::raw("abc")).len(), 3);
    assert_eq!(Node::Window(Window::new(SplitDirection::Vertical, area())).len(), 0);
}

#[test]
fn highlight_keeps_the_attributes_and_no_highlight_drops_them() {
    let mut ch = Char {
        char: 'a',
        style: Style { add_modifier: BOLD, sub_modifier: ITALIC, ..Style::plain() },
    };
    ch.highlight();
    assert_eq!(
        ch.style,
        Style {
            fg: Some(Color::Black),
            bg: Some(Color::White),
            add_modifier: BOLD,
            sub_modifier: ITALIC
        }
    );
    assert!(ch.style.is_cursor());
    ch.no_highlight();
    assert_eq!(ch.style, Style::plain());
    let mut other = Char::plain('b');
    other.set_highlight(true);
    assert_eq!(other.style, Style::cursor());
    other.set_highlight(false);
    assert_eq!(other.style, Style::plain());
}

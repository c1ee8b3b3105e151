use ratatui::buffer::{Buffer, Cell};
use ratatui::layout::Rect as Screen;
use ratatui::style::{Color as Tone, Modifier};
use zipper_edit::geometry::Rect;
use zipper_edit::primatives::{
    AsyncWidget, Char, Line, Root, Span, SplitDirection, Text, Window, WindowChild,
};
use zipper_edit::edit::{Region, TextEdit};
use zipper_edit::frame::{
    ChildRender, LineNumber, LineRender, SpanRender, TextRender, WindowRender,
};
use zipper_edit::render::draw;
use zipper_edit::style::{
    Color, Style, ATTRIBUTES, BOLD, CROSSED_OUT, DIM, HIDDEN, ITALIC, RAPID_BLINK, REVERSED,
    SLOW_BLINK, UNDERLINED,
};

fn screen(width: u16, height: u16) -> Buffer {
    Buffer::empty(Screen { x: 0, y: 0, width, height })
}

fn inked(width: u16, height: u16) -> Buffer {
    let mut cell = Cell::default();
    cell.set_symbol("x");
    cell.fg = Tone::Red;
    Buffer::filled(Screen { x: 0, y: 0, width, height }, &cell)
}

fn row(buf: &Buffer, y: u16) -> String {
    let area = buf.area;
    (area.x..area.x + area.width).map(|x| buf.get(x, y).symbol().to_string()).collect()
}

fn one_text(content: &str, area: Rect) -> Root {
    let mut window = Window::new(SplitDirection::Vertical, area);
    window.add_text(String::from(content), 0);
    let mut root = Root::new(SplitDirection::Vertical, area);
    root.add_child(window, 0);
    root
}

fn numbered(lines: usize) -> String {
    let mut content = String::new();
    for i in 0..lines {
        content.push_str(&format!("l{}\n", i));
    }
    content
}

fn line_of(spans: &[&str]) -> LineRender {
    LineRender {
        spans: spans.iter().map(|s| Span::raw(s).snapshot()).collect(),
        alignment: None,
    }
}

#[test]
fn line_number_has_its_decimal_digits() {
    for (n, digits) in [(0, "0"), (7, "7"), (9, "9"), (10, "10"), (12, "12"), (99, "99"), (100, "100"), (1234567, "1234567")] {
        let number = LineNumber::new(n);
        assert_eq!(number.num(), n);
        assert_eq!(number.as_str(), digits);
    }
    assert_eq!(LineNumber::new(usize::MAX).as_str(), usize::MAX.to_string());
}

#[test]
fn span_and_line_snapshots_are_copies() {
    let mut span = Span::raw("ab");
    span.characters[1].highlight();
    let copy = span.snapshot();
    assert_eq!(copy.characters, span.characters);
    assert_eq!(copy.alignment, None);
    let line = Line::raw("ab cd");
    let copy = line.snapshot();
    assert_eq!(copy.spans.len(), 2);
    assert_eq!(copy.spans[1].characters, line.spans[1].characters);
    assert_eq!(copy.alignment, None);
    assert_eq!(Char::plain('q').snapshot(), Char::plain('q'));
}

#[test]
fn text_snapshot_holds_the_lines_on_screen() {
    let mut text = Text::raw(numbered(100));
    text.height = 20;
    text.scroll_offset = 5;
    let frame = text.snapshot();
    assert_eq!(frame.lines.len(), 20);
    for (k, (number, line)) in frame.lines.iter().enumerate() {
        assert_eq!(number.num(), 5 + k + 1);
        assert_eq!(number.as_str(), (5 + k + 1).to_string());
        assert_eq!(*line, text.lines[5 + k].snapshot());
    }
}

#[test]
fn text_snapshot_stops_at_the_last_line() {
    let mut text = Text::raw(numbered(10));
    text.height = 20;
    text.scroll_offset = 7;
    let frame = text.snapshot();
    let numbers: Vec<usize> = frame.lines.iter().map(|l| l.0.num()).collect();
    assert_eq!(numbers, vec![8, 9, 10]);
    text.scroll_offset = 10;
    assert!(text.snapshot().lines.is_empty());
    text.scroll_offset = 500;
    assert!(text.snapshot().lines.is_empty());
    text.scroll_offset = usize::MAX;
    text.height = usize::MAX;
    assert!(text.snapshot().lines.is_empty());
    text.scroll_offset = 0;
    text.height = 0;
    assert!(text.snapshot().lines.is_empty());
    text.height = usize::MAX;
    assert_eq!(text.snapshot().lines.len(), 10);
}

#[test]
fn snapshot_mirrors_the_tree() {
    let mut inner = Window::new(SplitDirection::Horizontal, Rect::new(0, 0, 9, 9));
    inner.add_text(String::from("in\n"), 0);
    let mut outer = Window::new(SplitDirection::Vertical, Rect::new(0, 0, 9, 9));
    outer.add_child(WindowChild::Window(inner), 0);
    outer.add_text(String::from("a\nb\n"), 1);
    let mut root = Root::new(SplitDirection::Horizontal, Rect::new(0, 0, 9, 9));
    root.add_child(outer, 0);
    let frame = root.snapshot();
    assert_eq!(frame.split_dir(), SplitDirection::Horizontal);
    assert_eq!(frame.len(), 1);
    assert!(frame.child(1).is_none());
    let outer = match frame.child(0) {
        Some(ChildRender::Window(w)) => w,
        _ => panic!("a window"),
    };
    assert_eq!(outer.split_dir(), SplitDirection::Vertical);
    assert_eq!(outer.len(), 2);
    match outer.child(0) {
        Some(ChildRender::Window(w)) => {
            assert_eq!(w.split_dir(), SplitDirection::Horizontal);
            assert_eq!(w.len(), 1);
        }
        _ => panic!("a window"),
    }
    match outer.child(1) {
        Some(ChildRender::Text(t)) => assert_eq!(t.lines.len(), 2),
        _ => panic!("a text"),
    }
}

#[test]
fn two_snapshots_of_one_tree_are_equal() {
    let mut root = one_text(&numbered(30), Rect::new(0, 0, 40, 10));
    root.edit_text(
        &vec![0, 0],
        TextEdit::MoveCursor {
            from: Region::Nowhere,
            to: Region::Char(3, 0, 1),
        },
    );
    let first = root.snapshot();
    let second = root.snapshot();
    assert_eq!(first, second);
    let mut a = screen(40, 10);
    let mut b = screen(40, 10);
    assert!(draw(&first, root.area, &mut a));
    assert!(draw(&second, root.area, &mut b));
    assert_eq!(a, b);
}

#[test]
fn a_snapshot_does_not_follow_the_tree() {
    let mut root = one_text("ab\ncd\n", Rect::new(0, 0, 40, 10));
    let taken = root.snapshot();
    let twin = root.snapshot();
    root.edit_text(
        &vec![0, 0],
        TextEdit::InsertChar { line: 0, span: 0, at: 0, ch: 'X' },
    );
    root.children[0].split_dir = SplitDirection::Horizontal;
    root.children[0].children.clear();
    assert_eq!(taken, twin);
    assert_ne!(taken, root.snapshot());
    let mut buf = screen(40, 10);
    assert!(draw(&taken, Rect::new(0, 0, 40, 10), &mut buf));
    assert!(row(&buf, 0).starts_with("1   ab "));
    assert!(row(&buf, 1).starts_with("2   cd "));
}

#[test]
fn a_text_is_drawn_behind_its_line_numbers() {
    let root = one_text("hello\nworld\n", Rect::new(0, 0, 40, 10));
    let mut buf = screen(40, 10);
    assert!(draw(&root.snapshot(), root.area, &mut buf));
    assert_eq!(row(&buf, 0), format!("{:<40}", "1   hello"));
    assert_eq!(row(&buf, 1), format!("{:<40}", "2   world"));
    assert_eq!(row(&buf, 2), " ".repeat(40));
    assert_eq!(buf.get(4, 0).fg, Tone::Reset);
    assert_eq!(buf.get(4, 0).bg, Tone::Reset);
}

#[test]
fn the_cursor_is_drawn_black_on_white() {
    let mut root = one_text("hello\n", Rect::new(0, 0, 40, 10));
    root.edit_text(
        &vec![0, 0],
        TextEdit::MoveCursor {
            from: Region::Nowhere,
            to: Region::Char(0, 0, 1),
        },
    );
    let mut buf = screen(40, 10);
    assert!(draw(&root.snapshot(), root.area, &mut buf));
    assert_eq!(buf.get(5, 0).symbol(), "e");
    assert_eq!(buf.get(5, 0).fg, Tone::Black);
    assert_eq!(buf.get(5, 0).bg, Tone::White);
    for x in [0, 1, 4, 6, 7, 8, 9, 10] {
        assert_eq!(buf.get(x, 0).fg, Tone::Reset);
        assert_eq!(buf.get(x, 0).bg, Tone::Reset);
    }
}

#[test]
fn a_line_feed_is_drawn_as_a_blank() {
    let mut buf = inked(12, 2);
    let root = one_text("ab\n", Rect::new(0, 0, 12, 2));
    assert!(draw(&root.snapshot(), root.area, &mut buf));
    assert_eq!(row(&buf, 0), "1   ab xxxxx");
    assert_eq!(buf.get(6, 0).symbol(), " ");
    assert_eq!(row(&buf, 1), "xxxxxxxxxxxx");
}

#[test]
fn the_gutter_is_reset_and_the_rest_is_drawn_over() {
    let mut buf = inked(10, 3);
    let root = one_text("a\nb", Rect::new(0, 0, 10, 3));
    assert!(draw(&root.snapshot(), root.area, &mut buf));
    assert_eq!(row(&buf, 0), "1   a xxxx");
    assert_eq!(row(&buf, 1), "2   bxxxxx");
    assert_eq!(row(&buf, 2), "xxxxxxxxxx");
    for x in 0..4 {
        assert_eq!(buf.get(x, 0).fg, Tone::Reset);
    }
    assert_eq!(buf.get(4, 0).fg, Tone::Red);
    assert_eq!(buf.get(4, 0).symbol(), "a");
    assert_eq!(buf.get(9, 0).fg, Tone::Red);
}

#[test]
fn a_plain_style_leaves_the_colours_of_the_cell() {
    let mut buf = inked(3, 1);
    Char::plain('a').render_ref(Rect::new(1, 0, 1, 1), &mut buf);
    assert_eq!(row(&buf, 0), "xax");
    assert_eq!(buf.get(1, 0).fg, Tone::Red);
    let lit = Char { char: 'b', style: Style { bg: Some(Color::White), ..Style::plain() } };
    lit.render_ref(Rect::new(2, 0, 1, 1), &mut buf);
    assert_eq!(buf.get(2, 0).symbol(), "b");
    assert_eq!(buf.get(2, 0).fg, Tone::Red);
    assert_eq!(buf.get(2, 0).bg, Tone::White);
    let reset = Char { char: 'c', style: Style { fg: Some(Color::Reset), ..Style::plain() } };
    reset.render_ref(Rect::new(0, 0, 1, 1), &mut buf);
    assert_eq!(buf.get(0, 0).fg, Tone::Reset);
    assert_eq!(buf.get(0, 0).symbol(), "c");
}

#[test]
fn an_empty_area_draws_nothing() {
    let mut buf = inked(6, 2);
    let before = buf.clone();
    Char::plain('a').render_ref(Rect::new(1, 0, 0, 1), &mut buf);
    Char::plain('a').render_ref(Rect::new(1, 0, 1, 0), &mut buf);
    Char::plain('a').render_ref(Rect::new(6, 0, 1, 1), &mut buf);
    Char::plain('a').render_ref(Rect::new(0, 2, 1, 1), &mut buf);
    Span::raw("abc").snapshot().render_ref(Rect::new(0, 0, 0, 1), &mut buf);
    Span::raw("abc").snapshot().render_ref(Rect::new(0, 0, 3, 0), &mut buf);
    line_of(&["ab ", "cd"]).render_ref(Rect::new(0, 0, 0, 1), &mut buf);
    line_of(&["ab ", "cd"]).render_ref(Rect::new(0, 0, 5, 0), &mut buf);
    LineNumber::new(12).render_ref(Rect::new(0, 0, 0, 1), &mut buf);
    LineNumber::new(12).render_ref(Rect::new(0, 0, 4, 0), &mut buf);
    let root = one_text("ab\n", Rect::new(0, 0, 6, 2));
    assert!(draw(&root.snapshot(), Rect::new(0, 0, 0, 2), &mut buf));
    assert!(draw(&root.snapshot(), Rect::new(0, 0, 6, 0), &mut buf));
    assert!(draw(&Root::new(SplitDirection::Vertical, Rect::new(0, 0, 6, 2)).snapshot(), Rect::new(0, 0, 6, 2), &mut buf));
    assert_eq!(buf, before);
}

#[test]
fn a_span_is_clipped_to_its_area() {
    let mut buf = inked(8, 2);
    Span::raw("abcdef").snapshot().render_ref(Rect::new(2, 1, 3, 1), &mut buf);
    assert_eq!(row(&buf, 0), "xxxxxxxx");
    assert_eq!(row(&buf, 1), "xxabcxxx");
    Span::raw("uvwxyz").snapshot().render_ref(Rect::new(6, 0, 6, 1), &mut buf);
    assert_eq!(row(&buf, 0), "xxxxxxuv");
}

#[test]
fn spans_follow_each_other_and_an_empty_span_takes_a_column() {
    let mut buf = inked(12, 1);
    let line = LineRender {
        spans: vec![
            Span::raw("ab").snapshot(),
            SpanRender::default(),
            Span::raw("cd").snapshot(),
        ],
        alignment: None,
    };
    line.render_ref(Rect::new(1, 0, 10, 1), &mut buf);
    assert_eq!(row(&buf, 0), "xabxcdxxxxxx");
    let mut buf = inked(12, 1);
    line_of(&["ab ", "cd ", "ef"]).render_ref(Rect::new(0, 0, 7, 1), &mut buf);
    assert_eq!(row(&buf, 0), "ab cd exxxxx");
}

#[test]
fn a_line_number_is_clipped_to_its_area() {
    let mut buf = inked(8, 1);
    LineNumber::new(123456).render_ref(Rect::new(1, 0, 4, 1), &mut buf);
    assert_eq!(row(&buf, 0), "x1234xxx");
    let mut buf = inked(8, 1);
    LineNumber::new(7).render_ref(Rect::new(6, 0, 4, 1), &mut buf);
    assert_eq!(row(&buf, 0), "xxxxxx7 ");
    assert_eq!(buf.get(7, 0).fg, Tone::Reset);
    assert_eq!(buf.get(6, 0).fg, Tone::Reset);
    assert_eq!(buf.get(5, 0).fg, Tone::Red);
}

#[test]
fn a_text_is_clipped_to_its_area_and_to_the_buffer() {
    let mut buf = inked(10, 3);
    let mut text = Text::raw(String::from("abcdefgh\nij\nkl\nmn\n"));
    text.height = 10;
    let frame = text.snapshot();
    frame.render_ref(Rect::new(1, 1, 7, 2), &mut buf);
    assert_eq!(row(&buf, 0), "xxxxxxxxxx");
    assert_eq!(row(&buf, 1), "x1   abcxx");
    assert_eq!(row(&buf, 2), "x2   ij xx");
    let mut buf = inked(6, 2);
    frame.render_ref(Rect::new(0, 0, 40, 10), &mut buf);
    assert_eq!(row(&buf, 0), "1   ab");
    assert_eq!(row(&buf, 1), "2   ij");
    let mut buf = inked(6, 1);
    frame.render_ref(Rect::new(0, 0, 3, 1), &mut buf);
    assert_eq!(row(&buf, 0), "1  xxx");
}

#[test]
fn a_buffer_that_does_not_start_at_the_origin() {
    let mut buf = Buffer::empty(Screen { x: 10, y: 5, width: 8, height: 2 });
    let root = one_text("ab\ncd\nef\n", Rect::new(0, 0, 8, 2));
    assert!(draw(&root.snapshot(), Rect::new(10, 5, 8, 2), &mut buf));
    assert_eq!(row(&buf, 5), "1   ab  ");
    assert_eq!(row(&buf, 6), "2   cd  ");
    let mut buf = Buffer::empty(Screen { x: 10, y: 5, width: 8, height: 2 });
    assert!(draw(&root.snapshot(), Rect::new(8, 4, 20, 20), &mut buf));
    assert_eq!(row(&buf, 5), "  cd    ");
    assert_eq!(row(&buf, 6), "        ");
    let mut tall = one_text("ab\ncd\nef\n", Rect::new(0, 0, 8, 3));
    tall.resize(8, 3);
    let mut buf = Buffer::empty(Screen { x: 10, y: 5, width: 8, height: 2 });
    assert!(draw(&tall.snapshot(), Rect::new(8, 4, 20, 20), &mut buf));
    assert_eq!(row(&buf, 5), "  cd    ");
    assert_eq!(row(&buf, 6), "  ef    ");
}

fn two_texts(dir: SplitDirection) -> WindowRender {
    let area = Rect::new(0, 0, 21, 9);
    let mut window = Window::new(dir, area);
    window.add_text(String::from("ab\n"), 0);
    window.add_text(String::from("cd\n"), 1);
    let mut root = Root::new(dir, area);
    root.add_child(window, 0);
    root.snapshot()
}

#[test]
fn a_horizontal_split_stacks_the_children() {
    let mut buf = inked(21, 9);
    assert!(draw(&two_texts(SplitDirection::Horizontal), Rect::new(0, 0, 21, 9), &mut buf));
    assert!(row(&buf, 0).starts_with("1   ab x"));
    assert_eq!(row(&buf, 1), "x".repeat(21));
    assert_eq!(row(&buf, 4), "x".repeat(21));
    assert!(row(&buf, 5).starts_with("1   cd x"));
    assert_eq!(row(&buf, 6), "x".repeat(21));
}

#[test]
fn a_vertical_split_sets_the_children_side_by_side() {
    let mut buf = inked(21, 9);
    assert!(draw(&two_texts(SplitDirection::Vertical), Rect::new(0, 0, 21, 9), &mut buf));
    assert_eq!(row(&buf, 0), "1   ab xxxx1   cd xxx");
    assert_eq!(row(&buf, 1), "x".repeat(21));
}

#[test]
fn three_children_each_get_a_third() {
    let area = Rect::new(0, 0, 6, 10);
    let mut window = Window::new(SplitDirection::Horizontal, area);
    for name in ["a", "b", "c"] {
        window.add_text(String::from(name), usize::MAX);
    }
    let frame = window.snapshot();
    let mut buf = inked(6, 10);
    frame.render_ref(area, &mut buf);
    let rows: Vec<String> = (0..10).map(|y| row(&buf, y)).collect();
    assert_eq!(
        rows,
        vec![
            "1   ax", "xxxxxx", "xxxxxx", "xxxxxx", "1   bx", "xxxxxx", "xxxxxx", "xxxxxx", "1   cx",
            "xxxxxx"
        ]
    );
}

#[test]
fn more_children_than_rows_draw_nothing() {
    let area = Rect::new(0, 0, 6, 2);
    let mut window = Window::new(SplitDirection::Horizontal, area);
    for name in ["a", "b", "c"] {
        window.add_text(String::from(name), usize::MAX);
    }
    let mut buf = inked(6, 2);
    let before = buf.clone();
    window.snapshot().render_ref(area, &mut buf);
    assert_eq!(buf, before);
}

#[test]
fn a_buffer_without_its_cells_is_left_alone() {
    let mut buf = Buffer { area: Screen { x: 0, y: 0, width: 10, height: 10 }, content: Vec::new() };
    let root = one_text("ab\n", Rect::new(0, 0, 10, 10));
    assert!(!draw(&root.snapshot(), root.area, &mut buf));
    assert!(buf.content.is_empty());
    let mut buf = Buffer {
        area: Screen { x: 0, y: 0, width: 10, height: 10 },
        content: vec![Cell::default(); 99],
    };
    let before = buf.clone();
    assert!(!draw(&root.snapshot(), root.area, &mut buf));
    assert_eq!(buf, before);
    let mut buf = Buffer {
        area: Screen { x: 0, y: 0, width: 300, height: 300 },
        content: vec![Cell::default(); 90000],
    };
    assert!(!draw(&root.snapshot(), root.area, &mut buf));
    let mut buf = Buffer {
        area: Screen { x: 0, y: 0, width: 256, height: 256 },
        content: vec![Cell::default(); 65536],
    };
    assert!(draw(&root.snapshot(), root.area, &mut buf));
    assert_eq!(buf.content[4].symbol(), "a");
}

#[test]
fn a_frame_is_made_of_lines_by_hand_too() {
    let frame = TextRender {
        lines: vec![
            (LineNumber::new(41), line_of(&["x ", "y"])),
            (LineNumber::new(42), line_of(&[])),
        ],
        alignment: None,
    };
    let mut buf = inked(9, 3);
    frame.render_ref(Rect::new(0, 0, 9, 3), &mut buf);
    assert_eq!(row(&buf, 0), "41  x yxx");
    assert_eq!(row(&buf, 1), "42  xxxxx");
    assert_eq!(row(&buf, 2), "xxxxxxxxx");
}

#[test]
fn an_empty_span_and_an_empty_line_take_a_column() {
    assert_eq!(SpanRender::default().width(), 1);
    assert_eq!(Span::raw("abc").snapshot().width(), 3);
    assert_eq!(LineRender::default().width(), 1);
    assert_eq!(line_of(&["ab ", "cd"]).width(), 5);
    let gap = LineRender {
        spans: vec![Span::raw("ab").snapshot(), SpanRender::default(), Span::raw("c").snapshot()],
        alignment: None,
    };
    assert_eq!(gap.width(), 4);
}

#[test]
fn widgets_are_copied_and_lit_through_one_interface() {
    let mut ch = Char::plain('a');
    AsyncWidget::highlight(&mut ch);
    assert!(ch.style.is_cursor());
    assert_eq!(ch.async_render(), ch);
    AsyncWidget::no_highlight(&mut ch);
    assert_eq!(ch, Char::plain('a'));

    let mut span = Span::raw("ab");
    AsyncWidget::highlight(&mut span);
    assert!(span.characters.iter().all(|c| c.style.is_cursor()));
    assert_eq!(span.async_render().characters, span.characters);
    AsyncWidget::no_highlight(&mut span);
    assert_eq!(span, Span::raw("ab"));

    let mut line = Line::raw("ab cd");
    AsyncWidget::highlight(&mut line);
    assert_eq!(line.async_render().spans[1].characters, line.spans[1].characters);
    assert!(line.spans[1].characters[0].style.is_cursor());
    AsyncWidget::no_highlight(&mut line);
    assert_eq!(line, Line::raw("ab cd"));

    let mut text = Text::raw(String::from("ab\ncd\n"));
    text.height = 1;
    let before = text.clone();
    AsyncWidget::highlight(&mut text);
    AsyncWidget::no_highlight(&mut text);
    assert_eq!(text, before);
    assert_eq!(text.async_render(), text.snapshot());
    assert_eq!(text.async_render().lines.len(), 1);

    let mut root = one_text("ab\n", Rect::new(0, 0, 9, 9));
    AsyncWidget::highlight(&mut root);
    AsyncWidget::highlight(&mut root.children[0]);
    assert_eq!(root, one_text("ab\n", Rect::new(0, 0, 9, 9)));
    assert_eq!(root.async_render(), root.snapshot());
    assert_eq!(root.children[0].async_render(), root.children[0].snapshot());
}

#[test]
fn attributes_are_switched_on_and_off() {
    let mut buf = screen(3, 1);
    let bold = Char { char: 'a', style: Style { add_modifier: BOLD | ITALIC, ..Style::plain() } };
    bold.render_ref(Rect::new(0, 0, 1, 1), &mut buf);
    assert_eq!(buf.get(0, 0).modifier, Modifier::BOLD | Modifier::ITALIC);
    assert_eq!(buf.get(1, 0).modifier, Modifier::empty());
    let less = Char {
        char: 'b',
        style: Style { add_modifier: UNDERLINED, sub_modifier: BOLD, ..Style::plain() },
    };
    less.render_ref(Rect::new(0, 0, 1, 1), &mut buf);
    assert_eq!(buf.get(0, 0).modifier, Modifier::ITALIC | Modifier::UNDERLINED);
    assert_eq!(buf.get(0, 0).symbol(), "b");
    let both = Char {
        char: 'c',
        style: Style { add_modifier: DIM, sub_modifier: DIM, ..Style::plain() },
    };
    both.render_ref(Rect::new(1, 0, 1, 1), &mut buf);
    assert_eq!(buf.get(1, 0).modifier, Modifier::empty());
    let beyond = Char {
        char: 'd',
        style: Style { add_modifier: 0xfe00 | HIDDEN, ..Style::plain() },
    };
    beyond.render_ref(Rect::new(2, 0, 1, 1), &mut buf);
    assert_eq!(buf.get(2, 0).modifier, Modifier::HIDDEN);
    LineNumber::new(5).render_ref(Rect::new(0, 0, 1, 1), &mut buf);
    assert_eq!(buf.get(0, 0).modifier, Modifier::empty());
    assert_eq!(buf.get(0, 0).symbol(), "5");
}

#[test]
fn the_attributes_are_those_of_the_terminal() {
    let pairs = [
        (BOLD, Modifier::BOLD),
        (DIM, Modifier::DIM),
        (ITALIC, Modifier::ITALIC),
        (UNDERLINED, Modifier::UNDERLINED),
        (SLOW_BLINK, Modifier::SLOW_BLINK),
        (RAPID_BLINK, Modifier::RAPID_BLINK),
        (REVERSED, Modifier::REVERSED),
        (HIDDEN, Modifier::HIDDEN),
        (CROSSED_OUT, Modifier::CROSSED_OUT),
    ];
    for (bits, modifier) in pairs {
        assert_eq!(bits, modifier.bits());
    }
    assert_eq!(ATTRIBUTES, Modifier::all().bits());
}

#[test]
fn the_default_line_number_is_nought() {
    assert_eq!(LineNumber::default().num(), 0);
    assert_eq!(LineNumber::default().as_str(), "0");
    assert_eq!(LineNumber::default(), LineNumber::new(0));
    assert!(TextRender::default().lines.is_empty());
}
